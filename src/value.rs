//! Typed handles to values of the runtime and the marker types that name
//! their shape.
use vstd::prelude::*;
use std::marker::PhantomData;
use crate::mlvalues::RawOCaml;

verus! {

/// A handle to a value of the runtime whose shape is named by `T`.
pub struct OCaml<T> {
    raw: RawOCaml,
    marker: PhantomData<T>,
}

impl<T> OCaml<T> {
    /// The word that this handle holds.
    pub closed spec fn raw_word(&self) -> RawOCaml {
        self.raw
    }

    /// Wraps a word read from the runtime.
    pub fn new(raw: RawOCaml) -> (r: OCaml<T>)
        ensures
            r.raw_word() == raw,
    {
        OCaml { raw, marker: PhantomData }
    }

    /// The word that this handle holds.
    pub fn get_raw(&self) -> (r: RawOCaml)
        ensures
            r == self.raw_word(),
    {
        self.raw
    }

    /// A second handle to the same value.
    pub fn duplicate(&self) -> (r: OCaml<T>)
        ensures
            r.raw_word() == self.raw_word(),
    {
        OCaml { raw: self.raw, marker: PhantomData }
    }
}

/// An immediate integer of the runtime.
pub struct OCamlInt {
    private: (),
}

/// A boxed 32-bit integer.
pub struct OCamlInt32 {
    private: (),
}

/// A boxed 64-bit integer.
pub struct OCamlInt64 {
    private: (),
}

/// A mutable byte buffer (shares the representation of strings).
pub struct OCamlBytes {
    private: (),
}

/// A list whose elements have the shape `A`.
pub struct OCamlList<A> {
    marker: PhantomData<A>,
}

} // verus!
