//! The closed set of application events and their dispatch-tagged wire form.
//!
//! An event travels as `[u16 id LE][body]`. Ids are assigned once and never
//! reused; an id outside the registry is a hard error, never silently
//! dropped, so version skew stays observable. Bodies wrapped in
//! [`Data`] are stored on decode as opaque buffers without parsing,
//! deferring structural validation to the consumer.

use vstd::bytes::*;
use vstd::prelude::*;
use vstd::slice::slice_subrange;

use crate::data::{Batch, BatchCertificate, Data, WireObject};
use crate::errors::CodecError;

verus! {

/// The interface every event variant supplies: a diagnostic name and a
/// body serializer/deserializer pair that is a bijection on valid bytes.
pub trait EventTrait: Sized {
    /// The on-wire body of the event.
    spec fn spec_body(&self) -> Seq<u8>;

    /// Returns the event name.
    fn name(&self) -> (r: String);

    /// Appends the event's body to the buffer.
    fn serialize(&self, buf: &mut Vec<u8>)
        ensures
            final(buf)@ == old(buf)@ + self.spec_body(),
    ;

    /// Deserializes the given body bytes into an event.
    fn deserialize(bytes: Vec<u8>) -> (r: Result<Self, CodecError>)
        ensures
            r matches Ok(v) ==> v.spec_body() == bytes@,
    ;
}

/// A request to disconnect, carrying the reason as its one-byte body.
#[derive(Clone, Copy, Debug, PartialEq, Eq, Structural)]
pub struct Disconnect {
    pub reason: u8,
}

impl Disconnect {
    /// Initializes a new disconnect event.
    pub fn new(reason: u8) -> (r: Self)
        ensures
            r.reason == reason,
    {
        Disconnect { reason }
    }
}

impl EventTrait for Disconnect {
    open spec fn spec_body(&self) -> Seq<u8> {
        seq![self.reason]
    }

    fn name(&self) -> (r: String)
        ensures
            r@ == "Disconnect"@,
    {
        String::from_str("Disconnect")
    }

    fn serialize(&self, buf: &mut Vec<u8>) {
        buf.push(self.reason);
        proof {
            assert(final(buf)@ =~= old(buf)@ + self.spec_body());
        }
    }

    fn deserialize(bytes: Vec<u8>) -> (r: Result<Self, CodecError>)
        ensures
            bytes@.len() == 1 ==> r == Ok::<Disconnect, CodecError>(
                Disconnect { reason: bytes@[0] },
            ),
            bytes@.len() != 1 ==> r == Err::<Disconnect, CodecError>(CodecError::InvalidData),
    {
        if bytes.len() == 1 {
            let reason = bytes[0];
            proof {
                assert(Disconnect { reason }.spec_body() =~= bytes@);
            }
            Ok(Disconnect { reason })
        } else {
            Err(CodecError::InvalidData)
        }
    }
}

/// A batch proposed by a worker, carried opaquely.
#[derive(Clone, Debug)]
pub struct WorkerBatch {
    pub batch: Data<Batch>,
}

impl WorkerBatch {
    /// Initializes a new worker batch event.
    pub fn new(batch: Data<Batch>) -> (r: Self)
        ensures
            r.batch == batch,
    {
        WorkerBatch { batch }
    }
}

impl EventTrait for WorkerBatch {
    open spec fn spec_body(&self) -> Seq<u8> {
        self.batch.spec_bytes()
    }

    fn name(&self) -> (r: String)
        ensures
            r@ == "WorkerBatch"@,
    {
        String::from_str("WorkerBatch")
    }

    fn serialize(&self, buf: &mut Vec<u8>) {
        self.batch.serialize_into(buf);
    }

    fn deserialize(bytes: Vec<u8>) -> (r: Result<Self, CodecError>)
        ensures
            r == Ok::<WorkerBatch, CodecError>(WorkerBatch { batch: Data::Buffer(bytes) }),
    {
        Ok(WorkerBatch { batch: Data::Buffer(bytes) })
    }
}

/// A certificate over a batch, carried opaquely.
#[derive(Clone, Debug)]
pub struct BatchCertified {
    pub certificate: Data<BatchCertificate>,
}

impl BatchCertified {
    /// Initializes a new batch certified event.
    pub fn new(certificate: Data<BatchCertificate>) -> (r: Self)
        ensures
            r.certificate == certificate,
    {
        BatchCertified { certificate }
    }
}

impl From<BatchCertificate> for BatchCertified {
    /// Initializes a new batch certified event from a decoded certificate.
    fn from(certificate: BatchCertificate) -> (r: Self) {
        BatchCertified { certificate: Data::Object(certificate) }
    }
}

impl vstd::std_specs::convert::FromSpecImpl<BatchCertificate> for BatchCertified {
    open spec fn obeys_from_spec() -> bool {
        true
    }

    open spec fn from_spec(certificate: BatchCertificate) -> Self {
        BatchCertified { certificate: Data::Object(certificate) }
    }
}

impl EventTrait for BatchCertified {
    open spec fn spec_body(&self) -> Seq<u8> {
        self.certificate.spec_bytes()
    }

    fn name(&self) -> (r: String)
        ensures
            r@ == "BatchCertified"@,
    {
        String::from_str("BatchCertified")
    }

    fn serialize(&self, buf: &mut Vec<u8>) {
        self.certificate.serialize_into(buf);
    }

    fn deserialize(bytes: Vec<u8>) -> (r: Result<Self, CodecError>)
        ensures
            r == Ok::<BatchCertified, CodecError>(
                BatchCertified { certificate: Data::Buffer(bytes) },
            ),
    {
        Ok(BatchCertified { certificate: Data::Buffer(bytes) })
    }
}

/// An application event: a tagged union over the closed variant set.
#[derive(Clone, Debug)]
pub enum Event {
    Disconnect(Disconnect),
    WorkerBatch(WorkerBatch),
    BatchCertified(BatchCertified),
}

impl Event {
    /// The event ID of the variant. Ids are stable: assigned once, never
    /// reused, and the id space is append-only.
    pub open spec fn spec_id(&self) -> u16 {
        match self {
            Event::Disconnect(_) => 0,
            Event::WorkerBatch(_) => 1,
            Event::BatchCertified(_) => 2,
        }
    }

    /// The on-wire body of the event.
    pub open spec fn spec_body(&self) -> Seq<u8> {
        match self {
            Event::Disconnect(event) => event.spec_body(),
            Event::WorkerBatch(event) => event.spec_body(),
            Event::BatchCertified(event) => event.spec_body(),
        }
    }

    /// The full wire form of the event: `[u16 id LE][body]`.
    pub open spec fn spec_bytes(&self) -> Seq<u8> {
        spec_u16_to_le_bytes(self.spec_id()) + self.spec_body()
    }

    /// Two events are equivalent when their wire forms agree. For
    /// `Data`-wrapped payloads this is equality of the decoded values: a
    /// decoded payload and its byte form stand for the same event.
    pub open spec fn spec_equiv(&self, other: &Event) -> bool {
        self.spec_bytes() == other.spec_bytes()
    }

    /// The diagnostic label of the variant.
    pub open spec fn spec_name(&self) -> Seq<char> {
        match self {
            Event::Disconnect(_) => "Disconnect"@,
            Event::WorkerBatch(_) => "WorkerBatch"@,
            Event::BatchCertified(_) => "BatchCertified"@,
        }
    }

    /// Returns the event name.
    pub fn name(&self) -> (r: String)
        ensures
            r@ == self.spec_name(),
    {
        match self {
            Event::Disconnect(event) => event.name(),
            Event::WorkerBatch(event) => event.name(),
            Event::BatchCertified(event) => event.name(),
        }
    }

    /// Returns the event ID.
    pub fn id(&self) -> (r: u16)
        ensures
            r == self.spec_id(),
    {
        match self {
            Event::Disconnect(..) => 0,
            Event::WorkerBatch(..) => 1,
            Event::BatchCertified(..) => 2,
        }
    }

    /// Serializes the event into the buffer: the id in little-endian
    /// order, then the variant's body.
    pub fn serialize(&self, buf: &mut Vec<u8>)
        ensures
            final(buf)@ == old(buf)@ + self.spec_bytes(),
    {
        let mut id_bytes = u16_to_le_bytes(self.id());
        buf.append(&mut id_bytes);
        match self {
            Event::Disconnect(event) => event.serialize(buf),
            Event::WorkerBatch(event) => event.serialize(buf),
            Event::BatchCertified(event) => event.serialize(buf),
        }
        proof {
            assert(final(buf)@ =~= old(buf)@ + self.spec_bytes());
        }
    }

    /// Holds when `r` is the parse of the buffer `s`: the id is read from
    /// the first two bytes and the registered variant's deserializer runs
    /// on the remainder. A buffer without a full id is `MissingId`, an id
    /// outside the registry is `UnknownId`, and a disconnect body that is
    /// not exactly one byte is `InvalidData`.
    pub open spec fn spec_parse(s: Seq<u8>, r: Result<Event, CodecError>) -> bool {
        if s.len() < 2 {
            r == Err::<Event, CodecError>(CodecError::MissingId)
        } else {
            let id = spec_u16_from_le_bytes(s.subrange(0, 2));
            let body = s.subrange(2, s.len() as int);
            if id == 0 {
                if body.len() == 1 {
                    r == Ok::<Event, CodecError>(Event::Disconnect(Disconnect { reason: body[0] }))
                } else {
                    r == Err::<Event, CodecError>(CodecError::InvalidData)
                }
            } else if id == 1 {
                &&& r matches Ok(e)
                &&& e matches Event::WorkerBatch(wb)
                &&& wb.batch matches Data::Buffer(b) && b@ == body
            } else if id == 2 {
                &&& r matches Ok(e)
                &&& e matches Event::BatchCertified(bc)
                &&& bc.certificate matches Data::Buffer(b) && b@ == body
            } else {
                r == Err::<Event, CodecError>(CodecError::UnknownId(id))
            }
        }
    }

    /// Whether a buffer parses as an event: it holds an id from the
    /// registry and a body the variant's deserializer accepts.
    pub open spec fn spec_parses(s: Seq<u8>) -> bool {
        &&& s.len() >= 2
        &&& {
            let id = spec_u16_from_le_bytes(s.subrange(0, 2));
            ||| id == 1
            ||| id == 2
            ||| (id == 0 && s.len() == 3)
        }
    }

    /// Deserializes the given buffer into an event.
    pub fn deserialize(bytes: Vec<u8>) -> (r: Result<Event, CodecError>)
        ensures
            Event::spec_parse(bytes@, r),
            r is Ok <==> Event::spec_parses(bytes@),
            r matches Ok(e) ==> e.spec_bytes() == bytes@,
    {
        // Ensure there is at least an event ID in the buffer.
        if bytes.len() < 2 {
            return Err(CodecError::MissingId);
        }

        // Read the event ID.
        let id_bytes = slice_subrange(bytes.as_slice(), 0, 2);
        let id: u16 = u16_from_le_bytes(id_bytes);

        // Split off the body.
        let mut rest = bytes;
        let body = rest.split_off(2);
        proof {
            lemma_auto_spec_u16_to_from_le_bytes();
        }

        // Dispatch on the event ID.
        let event = match id {
            0 => Event::Disconnect(Disconnect::deserialize(body)?),
            1 => Event::WorkerBatch(WorkerBatch::deserialize(body)?),
            2 => Event::BatchCertified(BatchCertified::deserialize(body)?),
            _ => {
                return Err(CodecError::UnknownId(id));
            },
        };
        proof {
            assert(event.spec_bytes() =~= rest@ + body@);
        }

        Ok(event)
    }
}

/// Whether two byte buffers hold the same bytes.
fn bytes_eq(a: &Vec<u8>, b: &Vec<u8>) -> (r: bool)
    ensures
        r == (a@ == b@),
{
    if a.len() != b.len() {
        return false;
    }
    let n = a.len();
    let mut i: usize = 0;
    while i < n
        invariant
            i <= n,
            n == a@.len(),
            n == b@.len(),
            forall|j: int| 0 <= j < i ==> a@[j] == b@[j],
        decreases n - i,
    {
        if a[i] != b[i] {
            return false;
        }
        i = i + 1;
    }
    proof {
        assert(a@ =~= b@);
    }
    true
}

impl Event {
    /// Whether two events are equivalent: the same wire form, hence for
    /// `Data`-wrapped payloads the same decoded payload.
    pub fn equivalent(&self, other: &Event) -> (r: bool)
        ensures
            r == self.spec_equiv(other),
    {
        let mut a: Vec<u8> = Vec::new();
        self.serialize(&mut a);
        let mut b: Vec<u8> = Vec::new();
        other.serialize(&mut b);
        proof {
            assert(a@ =~= self.spec_bytes());
            assert(b@ =~= other.spec_bytes());
        }
        bytes_eq(&a, &b)
    }
}

/// Event round trip: parsing the wire form of any event yields an
/// equivalent event — the same variant carrying the same payload bytes,
/// hence the same decoded payload.
pub proof fn lemma_event_round_trip(e: Event, r: Result<Event, CodecError>)
    requires
        Event::spec_parse(e.spec_bytes(), r),
    ensures
        r matches Ok(d) && d.spec_equiv(&e),
{
    lemma_auto_spec_u16_to_from_le_bytes();
    let s = e.spec_bytes();
    assert(s.subrange(0, 2) =~= spec_u16_to_le_bytes(e.spec_id()));
    assert(s.subrange(2, s.len() as int) =~= e.spec_body());
    let d = r->Ok_0;
    assert(d.spec_bytes() =~= s);
}

} // verus!
