//! Wallet path handling. Paths are carried as text; reading the wallet file
//! itself belongs to the tooling around the library.

use vstd::prelude::*;

verus! {

/// The wallet path as shown to the operator.
pub fn wallet_path_display(path: &str) -> (r: String)
    ensures
        r@ == path@,
{
    path.to_owned()
}

/// The canonical form of a configured wallet path.
pub fn normalize_wallet_path(path: &str) -> (r: String)
    ensures
        r@ == path@,
{
    path.to_owned()
}

} // verus!
