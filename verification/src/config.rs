//! Where the terminal finds its store and the cloud.

use vstd::prelude::*;

verus! {

/// The local store.
pub const DB_URL: &'static str = "sqlite://app.db";

/// The cloud service's base address.
pub const API: &'static str = "http://localhost:8000/";

/// The address of a cloud endpoint: the base address followed by `path`.
pub fn endpoint(path: &str) -> (url: String)
    ensures
        url@ == API@ + path@,
{
    let mut url = API.to_owned();
    url.append(path);
    url
}

} // verus!
