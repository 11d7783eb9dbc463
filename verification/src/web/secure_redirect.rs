//! Where a request that came in without encryption is sent.

use vstd::prelude::*;
use vstd::string::*;

verus! {

/// The address under which `path` is served with encryption by the server
/// whose domain is `domain`.
pub open spec fn secure_url(domain: Seq<char>, path: Seq<char>) -> Seq<char> {
    "https://"@ + domain + "/"@ + path
}

/// Gives the address to send a client to that asked for `path` without
/// encryption: the same path on the configured domain, over HTTPS. `path` is
/// what follows the first slash of the request.
pub fn redirect_to_secure(configured_backend_domain: &str, path: &str) -> (url: String)
    ensures
        url@ == secure_url(configured_backend_domain@, path@),
{
    let mut url = "https://".to_owned();
    url.append(configured_backend_domain);
    url.append("/");
    url.append(path);
    url
}

} // verus!
