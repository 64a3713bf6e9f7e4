//! The two-phase Noise codec.
//!
//! A [`NoiseCodec`] wraps every transmitted unit in an outer
//! length-delimited frame. While its [`NoiseState`] is in the handshake
//! phase the codec carries opaque handshake messages; after the one-way
//! transition to the post-handshake phase it carries exactly one event per
//! outer frame, serialized by the event codec, split into plaintext chunks
//! of at most [`MAX_PLAINTEXT_CHUNK`] bytes and sealed per chunk with an
//! explicit nonce `base + index`. The per-direction nonce counters advance
//! by the full chunk count only after every chunk of an event succeeds, so
//! a failure consumes no nonces and never delivers partial data.
//!
//! The cryptography itself is the Noise library's; this module states of
//! each call only what that library's sources promise, and proves the
//! framing, chunking, nonce bookkeeping and phase discipline around it.

use std::sync::Arc;

use vstd::bytes::lemma_auto_spec_u32_to_from_le_bytes;
use vstd::pervasive::unreached;
use vstd::prelude::*;
use vstd::slice::slice_subrange;

use crate::errors::CodecError;
use crate::event::Event;
use crate::framing::{
    decode_frame, encode_frame, spec_frame, spec_frame_oversize, spec_frame_payload,
    spec_frame_ready, spec_frame_rest, EventCodec,
};
use crate::{MAX_EVENT_SIZE, MAX_MESSAGE_LEN, MAX_PLAINTEXT_CHUNK, TAG_LEN};

verus! {

#[verifier::external_type_specification]
#[verifier::external_body]
pub struct ExHandshakeState(snow::HandshakeState);

#[verifier::external_type_specification]
#[verifier::external_body]
pub struct ExStatelessTransportState(snow::StatelessTransportState);

/// Relies on snow's `HandshakeState::write_message`: it writes the next
/// handshake message, at most `MAX_MESSAGE_LEN` bytes, into the buffer,
/// or fails without producing a message.
#[verifier::external_body]
fn hs_write_message(hs: &mut Box<snow::HandshakeState>, payload: &Vec<u8>) -> (r: Option<Vec<u8>>)
    ensures
        r matches Some(ct) ==> ct@.len() <= MAX_MESSAGE_LEN,
{
    let mut buffer = vec![0u8; MAX_MESSAGE_LEN];
    match hs.write_message(payload, &mut buffer) {
        Ok(len) => {
            buffer.truncate(len);
            Some(buffer)
        },
        Err(_) => None,
    }
}

/// Relies on snow's `HandshakeState::read_message`: it recovers the
/// payload of one handshake message, at most `MAX_MESSAGE_LEN` bytes, or
/// fails.
#[verifier::external_body]
fn hs_read_message(hs: &mut Box<snow::HandshakeState>, message: &Vec<u8>) -> (r: Option<Vec<u8>>)
    ensures
        r matches Some(pt) ==> pt@.len() <= MAX_MESSAGE_LEN,
{
    let mut buffer = vec![0u8; MAX_MESSAGE_LEN];
    match hs.read_message(message, &mut buffer) {
        Ok(len) => {
            buffer.truncate(len);
            Some(buffer)
        },
        Err(_) => None,
    }
}

/// Relies on snow's `HandshakeState::into_stateless_transport_mode`: once
/// the handshake pattern's messages have all been exchanged it yields the
/// stateless transport keyed by explicit nonces; before that it fails.
#[verifier::external_body]
fn hs_into_transport(hs: Box<snow::HandshakeState>) -> (r: Option<snow::StatelessTransportState>) {
    hs.into_stateless_transport_mode().ok()
}

/// Relies on snow's `StatelessTransportState::write_message` with the
/// default crypto resolver: sealing a plaintext under an explicit nonce
/// yields an AEAD ciphertext exactly `TAG_LEN` bytes longer, or fails
/// without producing one.
#[verifier::external_body]
fn transport_seal(state: &Arc<snow::StatelessTransportState>, nonce: u64, plaintext: &[u8]) -> (r:
    Option<Vec<u8>>)
    ensures
        r matches Some(ct) ==> ct@.len() == plaintext@.len() + TAG_LEN,
{
    let mut buffer = vec![0u8; MAX_MESSAGE_LEN];
    match state.write_message(nonce, plaintext, &mut buffer) {
        Ok(len) => {
            buffer.truncate(len);
            Some(buffer)
        },
        Err(_) => None,
    }
}

/// Relies on snow's `StatelessTransportState::read_message` with the
/// default crypto resolver: opening an AEAD ciphertext under an explicit
/// nonce yields its plaintext, exactly `TAG_LEN` bytes shorter, and fails
/// on any ciphertext whose authentication tag does not verify.
#[verifier::external_body]
fn transport_open(state: &Arc<snow::StatelessTransportState>, nonce: u64, ciphertext: &[u8]) -> (r:
    Option<Vec<u8>>)
    ensures
        r matches Some(pt) ==> ciphertext@.len() >= TAG_LEN && pt@.len() + TAG_LEN
            == ciphertext@.len(),
{
    let mut buffer = vec![0u8; MAX_MESSAGE_LEN];
    match state.read_message(nonce, ciphertext, &mut buffer) {
        Ok(len) => {
            buffer.truncate(len);
            Some(buffer)
        },
        Err(_) => None,
    }
}

/// Relies on `Arc::clone`: the clone refers to the same transport state.
#[verifier::external_body]
fn transport_clone(state: &Arc<snow::StatelessTransportState>) -> (r: Arc<
    snow::StatelessTransportState,
>)
    ensures
        r == *state,
{
    Arc::clone(state)
}

/// The number of contiguous chunks of size at most `k` that a buffer of
/// `len` bytes splits into: `len / k` rounded up.
pub open spec fn spec_chunks(len: int, k: int) -> int
    recommends
        k > 0,
    decreases len,
{
    if len <= 0 || k <= 0 {
        0
    } else if len <= k {
        1
    } else {
        1 + spec_chunks(len - k, k)
    }
}

/// A buffer splits into at least one chunk when it is not empty.
pub proof fn lemma_chunks_pos(len: int, k: int)
    requires
        k >= 1,
    ensures
        spec_chunks(len, k) >= 0,
        len > 0 ==> spec_chunks(len, k) >= 1,
    decreases len,
{
    if len > k {
        lemma_chunks_pos(len - k, k);
    }
}

/// The chunk count is the buffer's length divided by the stride,
/// rounded up.
pub proof fn lemma_chunks_is_ceil(len: int, k: int)
    requires
        k >= 1,
        len >= 0,
    ensures
        spec_chunks(len, k) == (len + k - 1) / k,
    decreases len,
{
    if len == 0 {
        assert((k - 1) / k == 0) by (nonlinear_arith)
            requires
                k >= 1,
        ;
    } else if len <= k {
        assert((len + k - 1) / k == 1) by (nonlinear_arith)
            requires
                k >= 1 && 1 <= len && len <= k,
        ;
    } else {
        lemma_chunks_is_ceil(len - k, k);
        assert((len - k + k - 1) / k + 1 == (len + k - 1) / k) by (nonlinear_arith)
            requires
                k >= 1 && len > k,
        ;
    }
}

/// A buffer never splits into more chunks than it has bytes.
pub proof fn lemma_chunks_le_len(len: int, k: int)
    requires
        k >= 1,
        len >= 0,
    ensures
        spec_chunks(len, k) <= len,
    decreases len,
{
    if len > k {
        lemma_chunks_le_len(len - k, k);
    }
}

/// The plaintext a post-handshake encoder seals: the event's wire form in
/// one inner length-delimited frame.
pub open spec fn spec_event_plaintext_len(e: Event) -> int {
    4 + e.spec_bytes().len() as int
}

/// The number of AEAD chunks an event seals into.
pub open spec fn spec_event_chunks(e: Event) -> int {
    spec_chunks(spec_event_plaintext_len(e), MAX_PLAINTEXT_CHUNK as int)
}

/// The length of the sealed form of a `len`-byte plaintext: each chunk
/// grows by its `TAG_LEN`-byte authentication tag.
pub open spec fn spec_sealed_len(len: int) -> int {
    len + TAG_LEN * spec_chunks(len, MAX_PLAINTEXT_CHUNK as int)
}

/// The wire shape of the sealed form of one event: a `ct_len`-byte outer
/// payload that, sliced in `MAX_MESSAGE_LEN` strides, yields exactly the
/// encoder's chunk count for the `plaintext_len`-byte plaintext, every
/// non-final chunk exactly `MAX_MESSAGE_LEN` bytes, and the final chunk
/// between `TAG_LEN + 1` and `MAX_MESSAGE_LEN` bytes.
pub open spec fn spec_sealed_payload_shape(ct_len: int, plaintext_len: int) -> bool {
    let count = spec_chunks(plaintext_len, MAX_PLAINTEXT_CHUNK as int);
    &&& ct_len == spec_sealed_len(plaintext_len)
    &&& spec_chunks(ct_len, MAX_MESSAGE_LEN as int) == count
    &&& ct_len - (count - 1) * (MAX_MESSAGE_LEN as int) >= TAG_LEN + 1
    &&& ct_len - (count - 1) * (MAX_MESSAGE_LEN as int) <= MAX_MESSAGE_LEN as int
}

/// Sealing keeps the wire shape: the encoder's output for any non-empty
/// plaintext slices back, in `MAX_MESSAGE_LEN` strides, into the same
/// number of chunks the encoder sealed, with every non-final chunk full
/// and the final one between `TAG_LEN + 1` and `MAX_MESSAGE_LEN` bytes.
pub proof fn lemma_sealed_shape(len: int)
    requires
        len >= 1,
    ensures
        spec_sealed_payload_shape(spec_sealed_len(len), len),
    decreases len,
{
    if len <= MAX_PLAINTEXT_CHUNK as int {
        assert(spec_chunks(len, MAX_PLAINTEXT_CHUNK as int) == 1);
        assert(spec_sealed_len(len) == len + TAG_LEN);
        assert(spec_chunks(len + TAG_LEN, MAX_MESSAGE_LEN as int) == 1);
    } else {
        let rest = len - MAX_PLAINTEXT_CHUNK as int;
        lemma_sealed_shape(rest);
        lemma_chunks_pos(rest, MAX_PLAINTEXT_CHUNK as int);
        assert(spec_chunks(len, MAX_PLAINTEXT_CHUNK as int) == 1 + spec_chunks(
            rest,
            MAX_PLAINTEXT_CHUNK as int,
        ));
        assert(spec_sealed_len(len) == MAX_MESSAGE_LEN as int + spec_sealed_len(rest));
        assert(spec_chunks(spec_sealed_len(len), MAX_MESSAGE_LEN as int) == 1 + spec_chunks(
            spec_sealed_len(rest),
            MAX_MESSAGE_LEN as int,
        ));
    }
}

/// The number of AEAD chunks the payload of the first frame of `s`
/// slices into, in strides of `MAX_MESSAGE_LEN` bytes.
pub open spec fn spec_frame_chunks(s: Seq<u8>) -> int {
    spec_chunks(spec_frame_payload(s).len() as int, MAX_MESSAGE_LEN as int)
}

/// A unit travelling through the Noise codec: opaque bytes during the
/// handshake, a typed event after it.
#[derive(Debug)]
pub enum EventOrBytes {
    Bytes(Vec<u8>),
    Event(Event),
}

/// The post-handshake half of [`NoiseState`]: the stateless transport
/// keys and the two strictly monotonic per-direction nonce counters.
pub struct PostHandshakeState {
    pub state: Arc<snow::StatelessTransportState>,
    pub tx_nonce: u64,
    pub rx_nonce: u64,
}

/// The phase of a Noise session: an in-progress handshake, or the
/// transport keys it produced. The transition is one-way and consumes the
/// handshake material.
pub enum NoiseState {
    Handshake(Box<snow::HandshakeState>),
    PostHandshake(PostHandshakeState),
}

impl NoiseState {
    /// The transmit nonce counter of a post-handshake state.
    pub open spec fn spec_tx_nonce(&self) -> u64
        recommends
            self is PostHandshake,
    {
        self->PostHandshake_0.tx_nonce
    }

    /// The receive nonce counter of a post-handshake state.
    pub open spec fn spec_rx_nonce(&self) -> u64
        recommends
            self is PostHandshake,
    {
        self->PostHandshake_0.rx_nonce
    }

    /// The transport keys of a post-handshake state.
    pub open spec fn spec_transport(&self) -> Arc<snow::StatelessTransportState>
        recommends
            self is PostHandshake,
    {
        self->PostHandshake_0.state
    }

    /// Consumes a completed handshake and yields the post-handshake state
    /// with both nonce counters at zero. Fails with `ContractViolation` if
    /// the Noise library reports that the handshake has not finished.
    pub fn into_post_handshake_state(self) -> (r: Result<NoiseState, CodecError>)
        requires
            self is Handshake,
        ensures
            r matches Ok(ns) ==> ns is PostHandshake && ns.spec_tx_nonce() == 0
                && ns.spec_rx_nonce() == 0,
            r is Err ==> r == Err::<NoiseState, CodecError>(CodecError::ContractViolation),
    {
        match self {
            NoiseState::Handshake(hs) => match hs_into_transport(hs) {
                Some(transport) => Ok(
                    NoiseState::PostHandshake(
                        PostHandshakeState { state: Arc::new(transport), tx_nonce: 0, rx_nonce: 0 },
                    ),
                ),
                None => Err(CodecError::ContractViolation),
            },
            NoiseState::PostHandshake(_) => unreached(),
        }
    }

    /// Duplicates a post-handshake state; the clone shares the transport
    /// keys and carries the same nonce counters. Handshake material cannot
    /// be duplicated.
    pub fn clone_post_handshake(&self) -> (r: NoiseState)
        requires
            self is PostHandshake,
        ensures
            r == *self,
    {
        match self {
            NoiseState::PostHandshake(ph) => NoiseState::PostHandshake(
                PostHandshakeState {
                    state: transport_clone(&ph.state),
                    tx_nonce: ph.tx_nonce,
                    rx_nonce: ph.rx_nonce,
                },
            ),
            NoiseState::Handshake(_) => unreached(),
        }
    }
}

/// The codec used to decode and encode Noise-protected network units.
pub struct NoiseCodec {
    pub event_codec: EventCodec,
    pub noise_state: NoiseState,
}

impl NoiseCodec {
    /// The per-event maximum the inner event codec enforces.
    pub open spec fn spec_max_event_size(&self) -> int {
        self.event_codec.spec_max_frame_length()
    }

    /// Initializes a new codec in the given state.
    pub fn new(noise_state: NoiseState) -> (r: Self)
        ensures
            r.noise_state == noise_state,
            r.spec_max_event_size() == MAX_EVENT_SIZE,
    {
        NoiseCodec { event_codec: EventCodec::default(), noise_state }
    }

    /// Encodes one unit as one outer frame appended to `dst`.
    ///
    /// In the handshake phase the unit must be `Bytes`: the next handshake
    /// message is produced and framed. In the post-handshake phase it must
    /// be an `Event`: the event is serialized into one inner frame, split
    /// into chunks of at most `MAX_PLAINTEXT_CHUNK` bytes, each sealed
    /// under nonce `tx_nonce + index`, and `tx_nonce` advances by the
    /// chunk count — only after every chunk has succeeded, so a failed
    /// encode consumes no nonces and emits no bytes. A unit of the wrong
    /// phase is refused as `ContractViolation` with no effect.
    pub fn encode(&mut self, message_or_bytes: EventOrBytes, dst: &mut Vec<u8>) -> (r: Result<
        (),
        CodecError,
    >)
        ensures
            final(self).spec_max_event_size() == old(self).spec_max_event_size(),
            final(self).noise_state is Handshake <==> old(self).noise_state is Handshake,
            old(self).noise_state is Handshake && message_or_bytes is Event ==> r == Err::<
                (),
                CodecError,
            >(CodecError::ContractViolation) && *final(self) == *old(self) && final(dst)@ == old(
                dst,
            )@,
            old(self).noise_state is PostHandshake && message_or_bytes is Bytes ==> r == Err::<
                (),
                CodecError,
            >(CodecError::ContractViolation) && *final(self) == *old(self) && final(dst)@ == old(
                dst,
            )@,
            old(self).noise_state is Handshake && message_or_bytes is Bytes ==> {
                &&& r is Ok ==> exists|ct: Seq<u8>|
                    ct.len() <= MAX_MESSAGE_LEN && final(dst)@ == old(dst)@ + spec_frame(ct)
                &&& r is Err ==> r == Err::<(), CodecError>(CodecError::InvalidData) && final(dst)@
                    == old(dst)@
            },
            message_or_bytes matches EventOrBytes::Event(e) ==> old(
                self,
            ).noise_state is PostHandshake ==> {
                &&& r is Err ==> *final(self) == *old(self) && final(dst)@ == old(dst)@
                &&& e.spec_bytes().len() > old(self).spec_max_event_size() ==> r == Err::<
                    (),
                    CodecError,
                >(CodecError::FrameTooLarge)
                &&& r == Err::<(), CodecError>(CodecError::FrameTooLarge) ==> e.spec_bytes().len()
                    > old(self).spec_max_event_size() || e.spec_bytes().len() > u32::MAX
                    || spec_sealed_len(spec_event_plaintext_len(e)) > u32::MAX
                &&& r == Err::<(), CodecError>(CodecError::ContractViolation) ==> old(
                    self,
                ).noise_state.spec_tx_nonce() + spec_event_chunks(e) > u64::MAX
                &&& r is Ok ==> {
                    &&& e.spec_bytes().len() <= old(self).spec_max_event_size()
                    &&& final(self).noise_state is PostHandshake
                    &&& final(self).noise_state.spec_tx_nonce() == old(
                        self,
                    ).noise_state.spec_tx_nonce() + spec_event_chunks(e)
                    &&& final(self).noise_state.spec_rx_nonce() == old(
                        self,
                    ).noise_state.spec_rx_nonce()
                    &&& final(self).noise_state.spec_transport() == old(
                        self,
                    ).noise_state.spec_transport()
                    &&& exists|ct: Seq<u8>|
                        spec_sealed_payload_shape(ct.len() as int, spec_event_plaintext_len(e))
                            && final(dst)@ == old(dst)@ + spec_frame(ct)
                }
            },
    {
        match message_or_bytes {
            EventOrBytes::Bytes(bytes) => match &mut self.noise_state {
                NoiseState::Handshake(hs) => {
                    // Produce the next handshake message and frame it.
                    match hs_write_message(hs, &bytes) {
                        Some(ciphertext) => {
                            let res = encode_frame(&ciphertext, u32::MAX as usize, dst);
                            proof {
                                assert(res is Ok);
                            }
                            Ok(())
                        },
                        None => Err(CodecError::InvalidData),
                    }
                },
                // Don't allow sending raw bytes after the noise handshake
                // has completed.
                NoiseState::PostHandshake(_) => Err(CodecError::ContractViolation),
            },
            EventOrBytes::Event(event) => {
                let ghost e = event;
                // Don't allow event sending before the noise handshake has
                // completed.
                let (state, tx_nonce, rx_nonce) = match &self.noise_state {
                    NoiseState::Handshake(_) => {
                        return Err(CodecError::ContractViolation);
                    },
                    NoiseState::PostHandshake(ph) => (
                        transport_clone(&ph.state),
                        ph.tx_nonce,
                        ph.rx_nonce,
                    ),
                };

                // Serialize the event into one inner frame.
                let mut plaintext: Vec<u8> = Vec::new();
                self.event_codec.encode(event, &mut plaintext)?;
                proof {
                    lemma_auto_spec_u32_to_from_le_bytes();
                }
                let plen = plaintext.len();

                // Seal the plaintext chunk by chunk; nonce assignment is
                // sequential and deterministic.
                let ghost total = spec_chunks(plen as int, MAX_PLAINTEXT_CHUNK as int);
                let mut sealed: Vec<u8> = Vec::new();
                let mut start: usize = 0;
                let mut chunks: u64 = 0;
                while start < plen
                    invariant
                        *self == *old(self),
                        dst@ == old(dst)@,
                        old(self).noise_state is PostHandshake,
                        message_or_bytes == EventOrBytes::Event(e),
                        e.spec_bytes().len() <= old(self).spec_max_event_size(),
                        e.spec_bytes().len() <= u32::MAX,
                        tx_nonce == old(self).noise_state.spec_tx_nonce(),
                        rx_nonce == old(self).noise_state.spec_rx_nonce(),
                        state == old(self).noise_state.spec_transport(),
                        total == spec_event_chunks(e),
                        plen as int == spec_event_plaintext_len(e),
                        start <= plen,
                        plen == plaintext@.len(),
                        chunks as int + spec_chunks(
                            plen - start,
                            MAX_PLAINTEXT_CHUNK as int,
                        ) == total,
                        sealed@.len() == start + TAG_LEN * (chunks as int),
                    decreases plen - start,
                {
                    let end = if plen - start > MAX_PLAINTEXT_CHUNK {
                        start + MAX_PLAINTEXT_CHUNK
                    } else {
                        plen
                    };
                    if chunks > u64::MAX - tx_nonce {
                        proof {
                            lemma_chunks_pos(plen - start, MAX_PLAINTEXT_CHUNK as int);
                        }
                        return Err(CodecError::ContractViolation);
                    }
                    let chunk = slice_subrange(plaintext.as_slice(), start, end);
                    let mut ciphertext = match transport_seal(&state, tx_nonce + chunks, chunk) {
                        Some(ciphertext) => ciphertext,
                        None => {
                            return Err(CodecError::InvalidData);
                        },
                    };
                    sealed.append(&mut ciphertext);
                    proof {
                        lemma_chunks_pos(plen - start, MAX_PLAINTEXT_CHUNK as int);
                        lemma_chunks_le_len(plen as int, MAX_PLAINTEXT_CHUNK as int);
                    }
                    chunks = chunks + 1;
                    start = end;
                }
                if chunks > u64::MAX - tx_nonce {
                    return Err(CodecError::ContractViolation);
                }

                // Emit the concatenated chunks as one outer frame.
                proof {
                    lemma_chunks_le_len(plen as int, MAX_PLAINTEXT_CHUNK as int);
                }
                proof {
                    assert(start == plen);
                    assert(chunks as int == total);
                    assert(plen as int == spec_event_plaintext_len(e));
                    assert(sealed@.len() == spec_sealed_len(spec_event_plaintext_len(e)));
                }
                encode_frame(&sealed, u32::MAX as usize, dst)?;

                // All chunks succeeded: advance the transmit nonce by the
                // chunk count, in one step.
                self.noise_state = NoiseState::PostHandshake(
                    PostHandshakeState { state, tx_nonce: tx_nonce + chunks, rx_nonce },
                );
                proof {
                    lemma_sealed_shape(plen as int);
                    assert(spec_sealed_payload_shape(
                        sealed@.len() as int,
                        spec_event_plaintext_len(e),
                    ));
                    assert(dst@ == old(dst)@ + spec_frame(sealed@));
                }
                Ok(())
            },
        }
    }

    /// Reassembles the decrypted payload of one outer frame into exactly
    /// one event.
    ///
    /// The plaintext must hold one complete inner frame that parses as an
    /// event, with nothing left over. An incomplete inner frame, leftover
    /// bytes after it, or a payload that does not parse are `InvalidData`;
    /// an inner frame declaring more than the event codec's maximum is
    /// `FrameTooLarge`.
    pub fn reassemble(&mut self, plaintext: Vec<u8>) -> (r: Result<Event, CodecError>)
        ensures
            *final(self) == *old(self),
            spec_frame_oversize(plaintext@, old(self).spec_max_event_size()) ==> r == Err::<
                Event,
                CodecError,
            >(CodecError::FrameTooLarge),
            !spec_frame_oversize(plaintext@, old(self).spec_max_event_size())
                && !spec_frame_ready(plaintext@) ==> r == Err::<Event, CodecError>(
                CodecError::InvalidData,
            ),
            !spec_frame_oversize(plaintext@, old(self).spec_max_event_size())
                && spec_frame_ready(plaintext@) ==> {
                &&& Event::spec_parses(spec_frame_payload(plaintext@)) && spec_frame_rest(
                    plaintext@,
                ).len() == 0 ==> (r matches Ok(e) && Event::spec_parse(
                    spec_frame_payload(plaintext@),
                    Ok(e),
                ))
                &&& !(Event::spec_parses(spec_frame_payload(plaintext@)) && spec_frame_rest(
                    plaintext@,
                ).len() == 0) ==> r == Err::<Event, CodecError>(CodecError::InvalidData)
            },
    {
        let mut buf = plaintext;
        let decoded = self.event_codec.decode(&mut buf)?;
        match decoded {
            Some(event) => {
                if buf.len() == 0 {
                    Ok(event)
                } else {
                    // Leftover bytes: one outer frame carries exactly one
                    // event.
                    Err(CodecError::InvalidData)
                }
            },
            // Underrun: the sealed plaintext ended before the inner frame.
            None => Err(CodecError::InvalidData),
        }
    }

    /// Decodes one outer frame from `src` into one unit.
    ///
    /// Returns `Ok(None)` and leaves everything untouched while `src`
    /// lacks a whole frame. In the handshake phase the frame is one
    /// handshake message and yields `Bytes`. In the post-handshake phase
    /// the frame's payload is sliced in strides of `MAX_MESSAGE_LEN`
    /// bytes, each chunk is opened under nonce `rx_nonce + index`, and the
    /// concatenated plaintexts must reassemble into exactly one event;
    /// `rx_nonce` advances by the chunk count only once every chunk has
    /// opened and the event is reassembled, so every failure — a chunk
    /// failing authentication, or a plaintext that is not exactly one
    /// event — leaves the state unchanged and delivers nothing.
    pub fn decode(&mut self, src: &mut Vec<u8>) -> (r: Result<Option<EventOrBytes>, CodecError>)
        ensures
            final(self).spec_max_event_size() == old(self).spec_max_event_size(),
            final(self).noise_state is Handshake <==> old(self).noise_state is Handshake,
            !spec_frame_ready(old(src)@) ==> r == Ok::<Option<EventOrBytes>, CodecError>(None)
                && final(src)@ == old(src)@ && *final(self) == *old(self),
            spec_frame_ready(old(src)@) ==> final(src)@ == spec_frame_rest(old(src)@),
            spec_frame_ready(old(src)@) && old(self).noise_state is Handshake ==> {
                &&& r matches Ok(o) ==> (o matches Some(m) && m matches EventOrBytes::Bytes(pt)
                    && pt@.len() <= MAX_MESSAGE_LEN)
                &&& r is Err ==> r == Err::<Option<EventOrBytes>, CodecError>(
                    CodecError::InvalidData,
                )
            },
            spec_frame_ready(old(src)@) && old(self).noise_state is PostHandshake ==> {
                &&& r is Err ==> *final(self) == *old(self)
                &&& r is Err ==> r == Err::<Option<EventOrBytes>, CodecError>(
                    CodecError::InvalidData,
                ) || r == Err::<Option<EventOrBytes>, CodecError>(CodecError::FrameTooLarge) || r
                    == Err::<Option<EventOrBytes>, CodecError>(CodecError::ContractViolation)
                &&& r == Err::<Option<EventOrBytes>, CodecError>(CodecError::ContractViolation)
                    ==> old(self).noise_state.spec_rx_nonce() + spec_frame_chunks(old(src)@)
                    > u64::MAX
                &&& r matches Ok(o) ==> (o matches Some(m) && m is Event
                    && final(self).noise_state is PostHandshake
                    && final(self).noise_state.spec_tx_nonce()
                    == old(self).noise_state.spec_tx_nonce()
                    && final(self).noise_state.spec_transport()
                    == old(self).noise_state.spec_transport()
                    && final(self).noise_state.spec_rx_nonce()
                    == old(self).noise_state.spec_rx_nonce() + spec_frame_chunks(old(src)@))
            },
    {
        // Decode one outer frame.
        let bytes = match decode_frame(src, u32::MAX as usize)? {
            Some(bytes) => bytes,
            None => {
                return Ok(None);
            },
        };

        match &mut self.noise_state {
            NoiseState::Handshake(hs) => {
                // Decrypt the handshake message.
                match hs_read_message(hs, &bytes) {
                    Some(plaintext) => Ok(Some(EventOrBytes::Bytes(plaintext))),
                    None => Err(CodecError::InvalidData),
                }
            },
            NoiseState::PostHandshake(_) => {
                let (state, tx_nonce, rx_nonce) = match &self.noise_state {
                    NoiseState::PostHandshake(ph) => (
                        transport_clone(&ph.state),
                        ph.tx_nonce,
                        ph.rx_nonce,
                    ),
                    NoiseState::Handshake(_) => unreached(),
                };

                // Open the frame's payload chunk by chunk, in strides of
                // `MAX_MESSAGE_LEN` bytes, mirroring the encoder.
                let flen = bytes.len();
                let ghost total = spec_chunks(flen as int, MAX_MESSAGE_LEN as int);
                let mut opened: Vec<u8> = Vec::new();
                let mut start: usize = 0;
                let mut chunks: u64 = 0;
                while start < flen
                    invariant
                        *self == *old(self),
                        src@ == spec_frame_rest(old(src)@),
                        spec_frame_ready(old(src)@),
                        old(self).noise_state is PostHandshake,
                        tx_nonce == old(self).noise_state.spec_tx_nonce(),
                        rx_nonce == old(self).noise_state.spec_rx_nonce(),
                        state == old(self).noise_state.spec_transport(),
                        flen == bytes@.len(),
                        bytes@ == spec_frame_payload(old(src)@),
                        total == spec_chunks(flen as int, MAX_MESSAGE_LEN as int),
                        start <= flen,
                        chunks as int + spec_chunks(flen - start, MAX_MESSAGE_LEN as int)
                            == total,
                        opened@.len() + TAG_LEN * (chunks as int) == start,
                    decreases flen - start,
                {
                    let end = if flen - start > MAX_MESSAGE_LEN {
                        start + MAX_MESSAGE_LEN
                    } else {
                        flen
                    };
                    if chunks > u64::MAX - rx_nonce {
                        proof {
                            lemma_chunks_pos(flen - start, MAX_MESSAGE_LEN as int);
                        }
                        return Err(CodecError::ContractViolation);
                    }
                    let chunk = slice_subrange(bytes.as_slice(), start, end);
                    let mut plaintext = match transport_open(&state, rx_nonce + chunks, chunk) {
                        Some(plaintext) => plaintext,
                        None => {
                            // An authentication failure is terminal and
                            // consumes no nonces.
                            return Err(CodecError::InvalidData);
                        },
                    };
                    opened.append(&mut plaintext);
                    proof {
                        lemma_chunks_pos(flen - start, MAX_MESSAGE_LEN as int);
                        lemma_chunks_le_len(flen as int, MAX_MESSAGE_LEN as int);
                    }
                    chunks = chunks + 1;
                    start = end;
                }
                if chunks > u64::MAX - rx_nonce {
                    return Err(CodecError::ContractViolation);
                }

                // The plaintexts must reassemble into exactly one event.
                let event = self.reassemble(opened)?;

                // Every chunk opened and the event reassembled: advance
                // the receive nonce by the chunk count, in one step.
                self.noise_state = NoiseState::PostHandshake(
                    PostHandshakeState { state, tx_nonce, rx_nonce: rx_nonce + chunks },
                );
                Ok(Some(EventOrBytes::Event(event)))
            },
        }
    }
}

} // verus!
