//! The cache controller's decision: given a license and whether its cache
//! file already exists, either nothing is to be done or exactly one fetch of
//! the license's URL into the license's path is.

use vstd::prelude::*;
use crate::License;

verus! {

/// A fetch the caller must perform: download `url` and store the body at
/// `path`.
pub struct FetchRequest {
    pub url: String,
    pub path: String,
}

/// Decides how to ensure the license's cache file exists. On a hit (the file
/// already exists) no fetch is requested; on a miss the request names the
/// license's own URL and cache path, so a successful fetch leaves the body at
/// exactly that path.
pub fn plan(license: &License, cached: bool) -> (r: Option<FetchRequest>)
    ensures
        cached <==> r is None,
        r matches Some(req) ==> req.url@ == license@.url && req.path@ == license@.path,
{
    if cached {
        None
    } else {
        Some(
            FetchRequest {
                url: license.url().to_owned(),
                path: license.path().to_owned(),
            },
        )
    }
}

} // verus!
