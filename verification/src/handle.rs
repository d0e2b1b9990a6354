//! The token behind every handle type of a capability that does not exist on
//! this platform.
//!
//! No code anywhere constructs a `NoHandle`, and its field is private to this
//! module, so no handle built around it can ever be produced: every operation
//! that would return one fails with `Unsupported` first.  This models "this
//! capability does not exist" at the type level without an uninhabited type.

use vstd::prelude::*;

verus! {

#[derive(Debug, Clone, Copy)]
pub(crate) struct NoHandle {
    #[allow(dead_code)]
    _priv: (),
}

} // verus!
