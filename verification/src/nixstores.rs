//! Nix stores that machines could share. None can be created yet.

use vstd::prelude::*;

verus! {

/// A Nix store: where it lies, and its name.
#[derive(Debug, PartialEq, Eq)]
pub struct NixStore {
    pub path: String,
    pub name: String,
}

/// Lists the Nix stores. There are none.
pub fn load_nixstores() -> (stores: Vec<NixStore>)
    ensures
        stores.len() == 0,
{
    Vec::new()
}

} // verus!
