//! A two-state carrier for event payloads.
//!
//! [`Data`] holds a payload either as a decoded, typed object or as the
//! opaque bytes it travels as on the wire. The codec layer always produces
//! the `Buffer` form, deferring structural validation to the consumer, and
//! upper layers may forward such a payload verbatim without ever parsing it.
//!
//! Payload types carried this way implement [`WireObject`], which fixes
//! their byte form. To this codec a consensus payload is such an opaque,
//! validated-elsewhere byte string, so the concrete payload types here are
//! carriers of their own serialized form.

use vstd::prelude::*;

verus! {

/// A payload type with a fixed byte representation.
///
/// `from_bytes(to_bytes(v))` reconstructs a value with the byte form of
/// `v`, so the representation is a bijection on valid byte strings.
pub trait WireObject: Sized {
    /// The byte form of the payload.
    spec fn spec_bytes(&self) -> Seq<u8>;

    /// Serializes the payload.
    fn to_bytes(&self) -> (r: Vec<u8>)
        ensures
            r@ == self.spec_bytes(),
    ;

    /// Deserializes a payload from its byte form.
    fn from_bytes(bytes: Vec<u8>) -> (r: Self)
        ensures
            r.spec_bytes() == bytes@,
    ;
}

/// A worker-to-worker batch of transmissions, opaque to the codec; it
/// carries the batch in its serialized form.
#[derive(Clone, Debug)]
pub struct Batch {
    pub bytes: Vec<u8>,
}

impl WireObject for Batch {
    open spec fn spec_bytes(&self) -> Seq<u8> {
        self.bytes@
    }

    fn to_bytes(&self) -> (r: Vec<u8>) {
        self.bytes.clone()
    }

    fn from_bytes(bytes: Vec<u8>) -> (r: Self) {
        Batch { bytes }
    }
}

/// A certificate over a batch, opaque to the codec; it carries the
/// certificate in its serialized form.
#[derive(Clone, Debug)]
pub struct BatchCertificate {
    pub bytes: Vec<u8>,
}

impl WireObject for BatchCertificate {
    open spec fn spec_bytes(&self) -> Seq<u8> {
        self.bytes@
    }

    fn to_bytes(&self) -> (r: Vec<u8>) {
        self.bytes.clone()
    }

    fn from_bytes(bytes: Vec<u8>) -> (r: Self) {
        BatchCertificate { bytes }
    }
}

/// A payload that is either decoded or still in its wire form.
#[derive(Clone, Debug)]
pub enum Data<T> {
    /// A decoded, typed payload.
    Object(T),
    /// An opaque, undecoded payload.
    Buffer(Vec<u8>),
}

impl<T: WireObject> Data<T> {
    /// The byte form of the payload, whichever state it is in. Two `Data`
    /// values are interchangeable exactly when their byte forms agree.
    pub open spec fn spec_bytes(&self) -> Seq<u8> {
        match self {
            Data::Object(t) => t.spec_bytes(),
            Data::Buffer(b) => b@,
        }
    }

    /// Serializes the payload: emits the underlying bytes.
    pub fn to_bytes(&self) -> (r: Vec<u8>)
        ensures
            r@ == self.spec_bytes(),
    {
        match self {
            Data::Object(t) => t.to_bytes(),
            Data::Buffer(b) => b.clone(),
        }
    }

    /// Appends the payload's byte form to `buf`.
    pub fn serialize_into(&self, buf: &mut Vec<u8>)
        ensures
            final(buf)@ == old(buf)@ + self.spec_bytes(),
    {
        let mut bytes = self.to_bytes();
        buf.append(&mut bytes);
    }

    /// Decodes the payload on demand, preserving its byte form.
    pub fn decode(self) -> (r: T)
        ensures
            r.spec_bytes() == self.spec_bytes(),
    {
        match self {
            Data::Object(t) => t,
            Data::Buffer(b) => T::from_bytes(b),
        }
    }
}

} // verus!
