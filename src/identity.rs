//! The identity codec: it hands back the value it is given.
use vstd::prelude::*;
use crate::{ContextualDecode, ContextualEncode, Decode, Encode};

verus! {

/// Codec whose encoding and decoding return the value unchanged.
pub struct Raw<T>(core::marker::PhantomData<T>);

impl<T> Encode for Raw<T> {
    type Target = T;

    type Output = T;

    /// The value itself.
    open spec fn encode_ensures(target: T, output: T) -> bool {
        output == target
    }

    fn encode(target: T) -> (output: T) {
        target
    }
}

impl<T> ContextualEncode for Raw<T> {
    type Target = T;

    type Context = ();

    type Output = T;

    /// The value itself.
    open spec fn encode_ensures(target: T, ctx: (), output: T) -> bool {
        output == target
    }

    fn encode(target: T, ctx: ()) -> (output: T) {
        target
    }
}

impl<T> Decode for Raw<T> {
    type Target = T;

    type Output = T;

    /// The value itself.
    open spec fn decode_ensures(target: T, output: T) -> bool {
        output == target
    }

    fn decode(target: T) -> (output: T) {
        target
    }
}

impl<T> ContextualDecode for Raw<T> {
    type Target = T;

    type Context = ();

    type Output = T;

    /// The value itself.
    open spec fn decode_ensures(value: T, ctx: (), output: T) -> bool {
        output == value
    }

    fn decode(value: T, ctx: ()) -> (output: T) {
        value
    }
}

} // verus!
