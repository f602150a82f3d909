//! Where the route table is saved.
use vstd::prelude::*;
use crate::paths::{join, join_path};

verus! {

/// The file that holds the saved routes: `routes.json` in the data directory.
pub fn routes_path(data_dir: &str) -> (r: String)
    ensures
        r@ == join_path(data_dir@, "routes.json"@),
{
    join(data_dir, "routes.json")
}

} // verus!
