//! Encoding and decoding of any value through a codec chosen by type.
//!
//! A codec is a marker type that implements one or more contracts:
//! [`Encode`], [`Decode`], [`ContextualEncode`] and [`ContextualDecode`] for
//! a value handed over, and their counterparts below for a value borrowed
//! mutably.
//! Each contract carries a specification predicate that relates the value
//! handed to the codec (and its context) to what the codec returns. The
//! extension traits let any value call a codec as a method, choosing the codec
//! at the call site, for shared and for mutable access alike.
//!
//! Contextual operations take the value first and the context second, in
//! both directions.
//!
//! Mutable access has contracts of its own: [`EncodeMut`], [`DecodeMut`],
//! [`ContextualEncodeMut`] and [`ContextualDecodeMut`] work on a value in
//! place, and their predicates relate the value before the call to the value
//! after it, so that what a codec writes or consumes is stated.
use vstd::prelude::*;

pub mod error;
pub mod text;
pub mod cipher;
pub mod stream;
pub mod framing;
pub mod identity;

pub use error::CodecError;

verus! {

/// Trait that provides the encoding of the value.
pub trait Encode {
    /// Type of value to encode.
    type Target;

    /// Type of encoding output.
    type Output;

    /// What every encoding of `target` returns.
    spec fn encode_ensures(target: Self::Target, output: Self::Output) -> bool;

    /// Encodes `target`.
    fn encode(target: Self::Target) -> (output: Self::Output)
        ensures
            Self::encode_ensures(target, output),
    ;
}

/// Trait that provides contextual encoding of value.
pub trait ContextualEncode {
    /// Type of value to encode.
    type Target;

    /// Type of encoding context.
    type Context;

    /// Type of encoding output.
    type Output;

    /// What every encoding of `target` under `ctx` returns.
    spec fn encode_ensures(target: Self::Target, ctx: Self::Context, output: Self::Output) -> bool;

    /// Encodes `target` under the context `ctx`.
    fn encode(target: Self::Target, ctx: Self::Context) -> (output: Self::Output)
        ensures
            Self::encode_ensures(target, ctx, output),
    ;
}

/// Trait that provides the decoding of the value.
pub trait Decode {
    /// Type of value to decode.
    type Target;

    /// Type of decoding output.
    type Output;

    /// What every decoding of `target` returns.
    spec fn decode_ensures(target: Self::Target, output: Self::Output) -> bool;

    /// Decodes `target`.
    fn decode(target: Self::Target) -> (output: Self::Output)
        ensures
            Self::decode_ensures(target, output),
    ;
}

/// Trait that provides the contextual decoding of the value.
pub trait ContextualDecode {
    /// Type of value to decode.
    type Target;

    /// Type of decoding context.
    type Context;

    /// Type of decoding output.
    type Output;

    /// What every decoding of `value` under `ctx` returns.
    spec fn decode_ensures(value: Self::Target, ctx: Self::Context, output: Self::Output) -> bool;

    /// Decodes `value` under the context `ctx`.
    fn decode(value: Self::Target, ctx: Self::Context) -> (output: Self::Output)
        ensures
            Self::decode_ensures(value, ctx, output),
    ;
}

/// Trait that provides the encoding of a value in place.
pub trait EncodeMut {
    /// Type of value to encode, borrowed mutably.
    type Place;

    /// Type of encoding output.
    type Output;

    /// What every encoding returns, given the value before and after it.
    spec fn encode_ensures(before: Self::Place, after: Self::Place, output: Self::Output) -> bool;

    /// Encodes `place`, which the encoding may change.
    fn encode(place: &mut Self::Place) -> (output: Self::Output)
        ensures
            Self::encode_ensures(*old(place), *final(place), output),
    ;
}

/// Trait that provides contextual encoding of a value in place.
pub trait ContextualEncodeMut {
    /// Type of value to encode, borrowed mutably.
    type Place;

    /// Type of encoding context.
    type Context;

    /// Type of encoding output.
    type Output;

    /// What every encoding under `ctx` returns, given the value before and
    /// after it.
    spec fn encode_ensures(
        before: Self::Place,
        after: Self::Place,
        ctx: Self::Context,
        output: Self::Output,
    ) -> bool;

    /// Encodes `place` under the context `ctx`; the encoding may change
    /// `place`.
    fn encode(place: &mut Self::Place, ctx: Self::Context) -> (output: Self::Output)
        ensures
            Self::encode_ensures(*old(place), *final(place), ctx, output),
    ;
}

/// Trait that provides the decoding of a value in place.
pub trait DecodeMut {
    /// Type of value to decode, borrowed mutably.
    type Place;

    /// Type of decoding output.
    type Output;

    /// What every decoding returns, given the value before and after it.
    spec fn decode_ensures(before: Self::Place, after: Self::Place, output: Self::Output) -> bool;

    /// Decodes `place`, which the decoding may change.
    fn decode(place: &mut Self::Place) -> (output: Self::Output)
        ensures
            Self::decode_ensures(*old(place), *final(place), output),
    ;
}

/// Trait that provides the contextual decoding of a value in place.
pub trait ContextualDecodeMut {
    /// Type of value to decode, borrowed mutably.
    type Place;

    /// Type of decoding context.
    type Context;

    /// Type of decoding output.
    type Output;

    /// What every decoding under `ctx` returns, given the value before and
    /// after it.
    spec fn decode_ensures(
        before: Self::Place,
        after: Self::Place,
        ctx: Self::Context,
        output: Self::Output,
    ) -> bool;

    /// Decodes `place` under the context `ctx`; the decoding may change
    /// `place`.
    fn decode(place: &mut Self::Place, ctx: Self::Context) -> (output: Self::Output)
        ensures
            Self::decode_ensures(*old(place), *final(place), ctx, output),
    ;
}

/// Trait that provides the encode method for any value.
pub trait EncodeExt<'a, OUT>: Sized {
    /// Call this method if the value is immutable.
    fn encode<E>(&'a self) -> (output: OUT) where E: Encode<Target = &'a Self, Output = OUT>
        ensures
            E::encode_ensures(self, output),
    ;

    /// Call this method if the value is mutable; the codec's predicate holds
    /// of the value before and after the call.
    fn encode_mut<E>(&'a mut self) -> (output: OUT) where E: EncodeMut<Place = Self, Output = OUT>
        ensures
            E::encode_ensures(*old(self), *final(self), output),
    ;
}

impl<'a, T, OUT> EncodeExt<'a, OUT> for T {
    fn encode<E>(&'a self) -> (output: OUT) where E: Encode<Target = &'a Self, Output = OUT> {
        E::encode(self)
    }

    fn encode_mut<E>(&'a mut self) -> (output: OUT) where E: EncodeMut<Place = Self, Output = OUT> {
        E::encode(self)
    }
}

/// Trait that provides the contextual encode method for any value.
pub trait ContextualEncodeExt<'a, CTX, OUT>: Sized {
    /// Call this method if the value is immutable.
    fn contextual_encode<E>(&'a self, ctx: CTX) -> (output: OUT) where
        E: ContextualEncode<Target = &'a Self, Context = CTX, Output = OUT>,
        ensures
            E::encode_ensures(self, ctx, output),
    ;

    /// Call this method if the value is mutable; the codec's predicate holds
    /// of the value before and after the call.
    fn contextual_encode_mut<E>(&'a mut self, ctx: CTX) -> (output: OUT) where
        E: ContextualEncodeMut<Place = Self, Context = CTX, Output = OUT>,
        ensures
            E::encode_ensures(*old(self), *final(self), ctx, output),
    ;
}

impl<'a, T, CTX, OUT> ContextualEncodeExt<'a, CTX, OUT> for T {
    fn contextual_encode<E>(&'a self, ctx: CTX) -> (output: OUT) where
        E: ContextualEncode<Target = &'a Self, Context = CTX, Output = OUT>,
    {
        E::encode(self, ctx)
    }

    fn contextual_encode_mut<E>(&'a mut self, ctx: CTX) -> (output: OUT) where
        E: ContextualEncodeMut<Place = Self, Context = CTX, Output = OUT>,
    {
        E::encode(self, ctx)
    }
}

/// Trait that provides the decode method for any value.
pub trait DecodeExt<'a, OUT>: Sized {
    /// Call this method if the value is immutable.
    fn decode<D>(&'a self) -> (output: OUT) where D: Decode<Target = &'a Self, Output = OUT>
        ensures
            D::decode_ensures(self, output),
    ;

    /// Call this method if the value is mutable; the codec's predicate holds
    /// of the value before and after the call.
    fn decode_mut<D>(&'a mut self) -> (output: OUT) where D: DecodeMut<Place = Self, Output = OUT>
        ensures
            D::decode_ensures(*old(self), *final(self), output),
    ;
}

impl<'a, T, OUT> DecodeExt<'a, OUT> for T {
    fn decode<D>(&'a self) -> (output: OUT) where D: Decode<Target = &'a Self, Output = OUT> {
        D::decode(self)
    }

    fn decode_mut<D>(&'a mut self) -> (output: OUT) where D: DecodeMut<Place = Self, Output = OUT> {
        D::decode(self)
    }
}

/// Trait that provides the contextual decode method for any value.
pub trait ContextualDecodeExt<'a, CTX, OUT>: Sized {
    /// Call this method if the value is immutable.
    fn contextual_decode<D>(&'a self, ctx: CTX) -> (output: OUT) where
        D: ContextualDecode<Target = &'a Self, Context = CTX, Output = OUT>,
        ensures
            D::decode_ensures(self, ctx, output),
    ;

    /// Call this method if the value is mutable; the codec's predicate holds
    /// of the value before and after the call.
    fn contextual_decode_mut<D>(&'a mut self, ctx: CTX) -> (output: OUT) where
        D: ContextualDecodeMut<Place = Self, Context = CTX, Output = OUT>,
        ensures
            D::decode_ensures(*old(self), *final(self), ctx, output),
    ;
}

impl<'a, T, CTX, OUT> ContextualDecodeExt<'a, CTX, OUT> for T {
    fn contextual_decode<D>(&'a self, ctx: CTX) -> (output: OUT) where
        D: ContextualDecode<Target = &'a Self, Context = CTX, Output = OUT>,
    {
        D::decode(self, ctx)
    }

    fn contextual_decode_mut<D>(&'a mut self, ctx: CTX) -> (output: OUT) where
        D: ContextualDecodeMut<Place = Self, Context = CTX, Output = OUT>,
    {
        D::decode(self, ctx)
    }
}

} // verus!
