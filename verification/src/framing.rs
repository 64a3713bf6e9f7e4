//! Length-delimited framing with strict bounds.
//!
//! Every unit on the wire is one frame: a little-endian `u32` length
//! prefix counting exactly the bytes that follow, then the payload. The
//! decoder is partial-input safe: a buffer without a whole frame is left
//! untouched and reported as incomplete, while a frame that declares more
//! than the configured maximum is rejected before its payload has even
//! arrived. [`EventCodec`] composes this framing with the event wire form.

use vstd::bytes::*;
use vstd::prelude::*;
use vstd::slice::slice_subrange;

use crate::errors::CodecError;
use crate::event::Event;
use crate::{MAX_EVENT_SIZE, MAX_HANDSHAKE_SIZE};

verus! {

/// One frame on the wire: the payload length as little-endian `u32`, then
/// the payload itself.
pub open spec fn spec_frame(payload: Seq<u8>) -> Seq<u8> {
    spec_u32_to_le_bytes(payload.len() as u32) + payload
}

/// The payload length a buffer's first frame declares.
pub open spec fn spec_declared_len(s: Seq<u8>) -> int
    recommends
        s.len() >= 4,
{
    spec_u32_from_le_bytes(s.subrange(0, 4)) as int
}

/// Whether the buffer's first frame declares more than `max` payload
/// bytes. This is decidable as soon as the length prefix is present.
pub open spec fn spec_frame_oversize(s: Seq<u8>, max: int) -> bool {
    s.len() >= 4 && spec_declared_len(s) > max
}

/// Whether the buffer holds at least one complete frame.
pub open spec fn spec_frame_ready(s: Seq<u8>) -> bool {
    s.len() >= 4 && s.len() >= 4 + spec_declared_len(s)
}

/// The payload of the buffer's first frame.
pub open spec fn spec_frame_payload(s: Seq<u8>) -> Seq<u8>
    recommends
        spec_frame_ready(s),
{
    s.subrange(4, 4 + spec_declared_len(s))
}

/// What is left of the buffer once its first frame is removed.
pub open spec fn spec_frame_rest(s: Seq<u8>) -> Seq<u8>
    recommends
        spec_frame_ready(s),
{
    s.subrange(4 + spec_declared_len(s), s.len() as int)
}

/// Appends one frame holding `payload` to `dst`, atomically: on failure
/// `dst` is untouched. Fails iff the payload exceeds `max_frame_length`
/// or cannot be counted by the 32-bit prefix.
pub fn encode_frame(payload: &Vec<u8>, max_frame_length: usize, dst: &mut Vec<u8>) -> (r: Result<
    (),
    CodecError,
>)
    ensures
        payload@.len() <= max_frame_length && payload@.len() <= u32::MAX ==> r is Ok && final(dst)@ == old(dst)@ + spec_frame(payload@),
        payload@.len() > max_frame_length || payload@.len() > u32::MAX ==> r == Err::<
            (),
            CodecError,
        >(CodecError::FrameTooLarge) && final(dst)@ == old(dst)@,
{
    if payload.len() > max_frame_length || payload.len() as u64 > u32::MAX as u64 {
        return Err(CodecError::FrameTooLarge);
    }
    let mut len_bytes = u32_to_le_bytes(payload.len() as u32);
    dst.append(&mut len_bytes);
    let mut body = payload.clone();
    dst.append(&mut body);
    proof {
        assert(final(dst)@ =~= old(dst)@ + spec_frame(payload@));
    }
    Ok(())
}

/// Removes the first frame from `src` and returns its payload.
///
/// Returns `Ok(None)` and leaves `src` untouched while no whole frame is
/// present; fails with `FrameTooLarge` as soon as the length prefix
/// declares more than `max_frame_length` bytes, without waiting for (or
/// allocating) the payload.
pub fn decode_frame(src: &mut Vec<u8>, max_frame_length: usize) -> (r: Result<
    Option<Vec<u8>>,
    CodecError,
>)
    ensures
        spec_frame_oversize(old(src)@, max_frame_length as int) ==> r == Err::<
            Option<Vec<u8>>,
            CodecError,
        >(CodecError::FrameTooLarge) && final(src)@ == old(src)@,
        !spec_frame_oversize(old(src)@, max_frame_length as int) && !spec_frame_ready(old(src)@)
            ==> r == Ok::<Option<Vec<u8>>, CodecError>(None) && final(src)@ == old(src)@,
        !spec_frame_oversize(old(src)@, max_frame_length as int) && spec_frame_ready(old(src)@) ==> (
        r matches Ok(p) && p matches Some(payload) && payload@ == spec_frame_payload(old(src)@)
            && final(src)@ == spec_frame_rest(old(src)@)),
{
    // Wait for the length prefix.
    if src.len() < 4 {
        return Ok(None);
    }

    // Read the declared payload length and enforce the maximum before the
    // payload itself is awaited.
    let len_bytes = slice_subrange(src.as_slice(), 0, 4);
    let declared: u32 = u32_from_le_bytes(len_bytes);
    if declared as u64 > max_frame_length as u64 {
        return Err(CodecError::FrameTooLarge);
    }

    // Wait for the whole frame.
    if (src.len() as u64) < 4u64 + declared as u64 {
        return Ok(None);
    }

    // Remove exactly one frame: prefix, payload, remainder.
    let mut payload = src.split_off(4);
    let rest = payload.split_off(declared as usize);
    *src = rest;
    proof {
        assert(payload@ =~= spec_frame_payload(old(src)@));
        assert(final(src)@ =~= spec_frame_rest(old(src)@));
    }
    Ok(Some(payload))
}

/// The sequence of frame payloads a decoder yields from buffer `s`,
/// stopping at the first incomplete or oversize frame.
pub open spec fn spec_frames(s: Seq<u8>, max: int) -> Seq<Seq<u8>>
    decreases s.len(),
{
    if spec_frame_ready(s) && spec_declared_len(s) <= max {
        seq![spec_frame_payload(s)] + spec_frames(spec_frame_rest(s), max)
    } else {
        Seq::empty()
    }
}

/// The bytes a decoder leaves in the buffer after yielding
/// `spec_frames(s, max)`.
pub open spec fn spec_frames_rest(s: Seq<u8>, max: int) -> Seq<u8>
    decreases s.len(),
{
    if spec_frame_ready(s) && spec_declared_len(s) <= max {
        spec_frames_rest(spec_frame_rest(s), max)
    } else {
        s
    }
}

/// Frame boundary safety: however a byte stream is sliced, decoding it
/// incrementally yields the same frames as decoding it whole. Decoding
/// `s1` first and then appending `s2` to what was left yields exactly the
/// frames of the concatenation `s1 + s2`, and leaves the same remainder.
pub proof fn lemma_frame_boundary_safety(s1: Seq<u8>, s2: Seq<u8>, max: int)
    ensures
        spec_frames(s1 + s2, max) == spec_frames(s1, max) + spec_frames(
            spec_frames_rest(s1, max) + s2,
            max,
        ),
        spec_frames_rest(s1 + s2, max) == spec_frames_rest(spec_frames_rest(s1, max) + s2, max),
    decreases s1.len(),
{
    if spec_frame_ready(s1) && spec_declared_len(s1) <= max {
        let t = s1 + s2;
        assert(t.subrange(0, 4) =~= s1.subrange(0, 4));
        assert(spec_frame_payload(t) =~= spec_frame_payload(s1));
        assert(spec_frame_rest(t) =~= spec_frame_rest(s1) + s2);
        lemma_frame_boundary_safety(spec_frame_rest(s1), s2, max);
        assert(spec_frames(s1 + s2, max) =~= spec_frames(s1, max) + spec_frames(
            spec_frames_rest(s1, max) + s2,
            max,
        ));
    } else {
        assert(spec_frames(s1, max) =~= Seq::<Seq<u8>>::empty());
        assert(spec_frames_rest(s1, max) + s2 =~= s1 + s2);
        assert(spec_frames(s1 + s2, max) =~= Seq::<Seq<u8>>::empty() + spec_frames(s1 + s2, max));
    }
}

/// A well-formed frame decodes back to its payload and consumes nothing
/// beyond itself.
pub proof fn lemma_frame_roundtrip(payload: Seq<u8>, extra: Seq<u8>)
    requires
        payload.len() <= u32::MAX,
    ensures
        spec_frame_ready(spec_frame(payload) + extra),
        spec_declared_len(spec_frame(payload) + extra) == payload.len(),
        spec_frame_payload(spec_frame(payload) + extra) == payload,
        spec_frame_rest(spec_frame(payload) + extra) == extra,
{
    lemma_auto_spec_u32_to_from_le_bytes();
    let s = spec_frame(payload) + extra;
    assert(s.subrange(0, 4) =~= spec_u32_to_le_bytes(payload.len() as u32));
    assert(spec_frame_payload(s) =~= payload);
    assert(spec_frame_rest(s) =~= extra);
}

/// The codec that turns a byte stream into a stream of events: each event
/// is serialized to its wire form and carried as one frame.
pub struct EventCodec {
    max_frame_length: usize,
}

impl EventCodec {
    /// The maximum frame payload this codec accepts.
    pub closed spec fn spec_max_frame_length(&self) -> int {
        self.max_frame_length as int
    }

    /// A codec for the handshake phase of higher layers, with the lowered
    /// per-frame maximum.
    pub fn handshake() -> (r: Self)
        ensures
            r.spec_max_frame_length() == MAX_HANDSHAKE_SIZE,
    {
        EventCodec { max_frame_length: MAX_HANDSHAKE_SIZE }
    }

    /// The maximum frame payload this codec accepts.
    pub fn max_frame_length(&self) -> (r: usize)
        ensures
            r == self.spec_max_frame_length(),
    {
        self.max_frame_length
    }

    /// Serializes `event` and appends it to `dst` as one frame,
    /// atomically: on failure `dst` is untouched. Fails iff the
    /// serialized event exceeds the codec's maximum.
    pub fn encode(&mut self, event: Event, dst: &mut Vec<u8>) -> (r: Result<(), CodecError>)
        ensures
            *final(self) == *old(self),
            event.spec_bytes().len() <= old(self).spec_max_frame_length() && event.spec_bytes().len()
                <= u32::MAX ==> r is Ok && final(dst)@ == old(dst)@ + spec_frame(
                event.spec_bytes(),
            ),
            event.spec_bytes().len() > old(self).spec_max_frame_length() || event.spec_bytes().len()
                > u32::MAX ==> r == Err::<(), CodecError>(CodecError::FrameTooLarge) && final(dst)@
                == old(dst)@,
    {
        // Serialize the event into a scratch buffer.
        let mut serialized_event: Vec<u8> = Vec::new();
        event.serialize(&mut serialized_event);

        // Emit `[len][payload]` atomically.
        encode_frame(&serialized_event, self.max_frame_length, dst)
    }

    /// Removes one frame from `src` and deserializes it into an event.
    ///
    /// Returns `Ok(None)` and leaves `src` untouched while no whole frame
    /// is present; fails with `FrameTooLarge` as soon as a frame declares
    /// more than the codec's maximum; any deserialization failure of a
    /// complete frame is `InvalidData`.
    pub fn decode(&mut self, src: &mut Vec<u8>) -> (r: Result<Option<Event>, CodecError>)
        ensures
            *final(self) == *old(self),
            spec_frame_oversize(old(src)@, old(self).spec_max_frame_length()) ==> r == Err::<
                Option<Event>,
                CodecError,
            >(CodecError::FrameTooLarge) && final(src)@ == old(src)@,
            !spec_frame_oversize(old(src)@, old(self).spec_max_frame_length()) && !spec_frame_ready(
                old(src)@,
            ) ==> r == Ok::<Option<Event>, CodecError>(None) && final(src)@ == old(src)@,
            !spec_frame_oversize(old(src)@, old(self).spec_max_frame_length()) && spec_frame_ready(
                old(src)@,
            ) ==> {
                &&& final(src)@ == spec_frame_rest(old(src)@)
                &&& Event::spec_parses(spec_frame_payload(old(src)@)) ==> (r matches Ok(o)
                    && o matches Some(e) && Event::spec_parse(
                    spec_frame_payload(old(src)@),
                    Ok(e),
                ))
                &&& !Event::spec_parses(spec_frame_payload(old(src)@)) ==> r == Err::<
                    Option<Event>,
                    CodecError,
                >(CodecError::InvalidData)
            },
    {
        // Decode a frame containing the bytes belonging to an event.
        let bytes = match decode_frame(src, self.max_frame_length)? {
            Some(bytes) => bytes,
            None => {
                return Ok(None);
            },
        };

        // Convert the bytes to an event, or fail if it is not valid.
        match Event::deserialize(bytes) {
            Ok(event) => Ok(Some(event)),
            Err(_) => Err(CodecError::InvalidData),
        }
    }
}

impl Default for EventCodec {
    /// A codec with the network-wide default per-frame maximum.
    fn default() -> (r: Self)
        ensures
            r.spec_max_frame_length() == MAX_EVENT_SIZE,
    {
        EventCodec { max_frame_length: MAX_EVENT_SIZE }
    }
}

} // verus!
