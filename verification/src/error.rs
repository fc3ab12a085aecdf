use vstd::prelude::*;

verus! {

/// Why a value was refused at the boundary of the library.
#[derive(Debug, Clone, Copy, PartialEq, Eq, Structural)]
pub enum Error {
    /// An endpoint address with the wrong direction bit, or a duration that the
    /// native timeout field cannot hold.
    InvalidParam,
    /// A length that the native length field cannot hold.
    TooBig,
}

} // verus!
