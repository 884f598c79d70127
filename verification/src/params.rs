//! Auxiliary data that can travel with an event.
use vstd::prelude::*;

verus! {

/// Two 32-bit words.
#[derive(Clone, Copy, Debug, PartialEq, Eq, Structural)]
pub struct U32Pair(pub u32, pub u32);

/// A parameter of fixed size.
#[derive(Clone, Copy, Debug, PartialEq, Eq, Structural)]
pub enum ParamsRaw {
    U8(u8),
    U16(u16),
    U32(u32),
    U64(u64),
    U32Pair(U32Pair),
}

/// A parameter that needs no heap.
#[derive(Clone, Copy, Debug, PartialEq, Eq, Structural)]
pub enum ParamsHeapless {
    Raw(ParamsRaw),
}

/// A parameter of any kind.
#[derive(Debug, PartialEq, Eq)]
pub enum Params {
    Heapless(ParamsHeapless),
    Vec(Vec<u8>),
}

/// What a parameter holds.
pub enum ParamsModel {
    Heapless(ParamsHeapless),
    Vec(Seq<u8>),
}

impl View for Params {
    type V = ParamsModel;

    open spec fn view(&self) -> ParamsModel {
        match self {
            Params::Heapless(p) => ParamsModel::Heapless(*p),
            Params::Vec(v) => ParamsModel::Vec(v@),
        }
    }
}

impl Clone for Params {
    fn clone(&self) -> (r: Self)
        ensures
            r@ == self@,
    {
        match self {
            Params::Heapless(p) => Params::Heapless(*p),
            Params::Vec(v) => Params::Vec(v.clone()),
        }
    }
}

impl ParamsHeapless {
    /// A pair of 32-bit words as a parameter.
    pub fn from_u32_pair(pair: (u32, u32)) -> (r: Self)
        ensures
            r == ParamsHeapless::Raw(ParamsRaw::U32Pair(U32Pair(pair.0, pair.1))),
    {
        ParamsHeapless::Raw(ParamsRaw::U32Pair(U32Pair(pair.0, pair.1)))
    }
}

impl From<(u32, u32)> for ParamsHeapless {
    fn from(pair: (u32, u32)) -> (r: Self) {
        ParamsHeapless::from_u32_pair(pair)
    }
}

impl vstd::std_specs::convert::FromSpecImpl<(u32, u32)> for ParamsHeapless {
    open spec fn obeys_from_spec() -> bool {
        true
    }

    open spec fn from_spec(pair: (u32, u32)) -> Self {
        ParamsHeapless::Raw(ParamsRaw::U32Pair(U32Pair(pair.0, pair.1)))
    }
}

} // verus!
