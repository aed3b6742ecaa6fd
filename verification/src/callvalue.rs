//! The call-result handle: the typed result of inserting a call statement.
//! It carries only the callee's declared return type, so that later
//! statements can be typed against it.

use vstd::prelude::*;
use crate::ctype::{CType, TypeV};

verus! {

/// The typed result of inserting a call statement.
#[derive(Debug)]
pub struct CallValue {
    pub value: CType,
}

impl View for CallValue {
    type V = TypeV;

    open spec fn view(&self) -> TypeV {
        self.value@
    }
}

impl CallValue {
    /// A handle carrying the given return type.
    pub fn new(value: &CType) -> (r: CallValue)
        ensures
            r@ == value@,
    {
        CallValue { value: value.clone() }
    }

    /// The carried return type.
    pub fn value(&self) -> (r: &CType)
        ensures
            r@ == self@,
    {
        &self.value
    }
}

} // verus!
