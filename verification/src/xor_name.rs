//! The fixed-width address type of the network.

use vstd::prelude::*;

verus! {

/// Length in bytes of a network address.
pub const XOR_NAME_LEN: usize = 32;

/// A fixed-width byte string used both as a routing key and as a
/// content / identity fingerprint.  Equal byte content gives equal
/// addresses, and the derived ordering is byte-lexicographic.
#[derive(Clone, Copy, PartialEq, Eq, PartialOrd, Ord, Hash, Debug)]
pub struct XorName(pub [u8; XOR_NAME_LEN]);

impl View for XorName {
    type V = Seq<u8>;

    open spec fn view(&self) -> Seq<u8> {
        self.0@
    }
}

} // verus!
