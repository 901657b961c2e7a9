//! Names for the transports that ship with the library.

use vstd::prelude::*;

verus! {

/// Stands for the transport built on `reqwest`. It holds no settings: every
/// client made for it starts from the defaults.
#[derive(Default, Clone)]
pub struct Reqwest {}

} // verus!
