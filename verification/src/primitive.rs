//! Host-native mirrors of the script values that have no identity.

use vstd::prelude::*;
use vstd::std_specs::convert::FromSpecImpl;

verus! {

/// A script value without identity, as the host sees it.  A double is held
/// by its bit pattern.
#[derive(Debug, Clone, PartialEq, Eq)]
pub enum Primitive {
    Undefined,
    Null,
    Bool(bool),
    I32(i32),
    I64(i64),
    F64(u64),
    Str(String),
    InvalidStr(String),
    Symbol(String),
}

/// A primitive with its strings as sequences of characters.
pub ghost enum PrimitiveView {
    Undefined,
    Null,
    Bool(bool),
    I32(i32),
    I64(i64),
    F64(u64),
    Str(Seq<char>),
    InvalidStr(Seq<char>),
    Symbol(Seq<char>),
}

impl View for Primitive {
    type V = PrimitiveView;

    open spec fn view(&self) -> PrimitiveView {
        match self {
            Primitive::Undefined => PrimitiveView::Undefined,
            Primitive::Null => PrimitiveView::Null,
            Primitive::Bool(b) => PrimitiveView::Bool(*b),
            Primitive::I32(x) => PrimitiveView::I32(*x),
            Primitive::I64(x) => PrimitiveView::I64(*x),
            Primitive::F64(bits) => PrimitiveView::F64(*bits),
            Primitive::Str(s) => PrimitiveView::Str(s@),
            Primitive::InvalidStr(s) => PrimitiveView::InvalidStr(s@),
            Primitive::Symbol(s) => PrimitiveView::Symbol(s@),
        }
    }
}

impl From<bool> for Primitive {
    fn from(value: bool) -> (p: Primitive) {
        Primitive::Bool(value)
    }
}

impl FromSpecImpl<bool> for Primitive {
    open spec fn obeys_from_spec() -> bool {
        true
    }

    open spec fn from_spec(value: bool) -> Primitive {
        Primitive::Bool(value)
    }
}

impl From<i32> for Primitive {
    fn from(value: i32) -> (p: Primitive) {
        Primitive::I32(value)
    }
}

impl FromSpecImpl<i32> for Primitive {
    open spec fn obeys_from_spec() -> bool {
        true
    }

    open spec fn from_spec(value: i32) -> Primitive {
        Primitive::I32(value)
    }
}

impl From<i64> for Primitive {
    fn from(value: i64) -> (p: Primitive) {
        Primitive::I64(value)
    }
}

impl FromSpecImpl<i64> for Primitive {
    open spec fn obeys_from_spec() -> bool {
        true
    }

    open spec fn from_spec(value: i64) -> Primitive {
        Primitive::I64(value)
    }
}

impl Primitive {
    /// The primitive for a piece of text.
    pub fn from_str(value: &str) -> (p: Primitive)
        ensures
            p@ == PrimitiveView::Str(value@),
    {
        Primitive::Str(value.to_owned())
    }
}

} // verus!
