use narwhal_codec::data::{Batch, BatchCertificate, Data, WireObject};
use narwhal_codec::errors::CodecError;
use narwhal_codec::event::{BatchCertified, Disconnect, Event, WorkerBatch};
use narwhal_codec::framing::EventCodec;
use narwhal_codec::{MAX_EVENT_SIZE, MAX_HANDSHAKE_SIZE, PROTOCOL_VERSION};

fn frame(payload: &[u8]) -> Vec<u8> {
    let mut out = (payload.len() as u32).to_le_bytes().to_vec();
    out.extend_from_slice(payload);
    out
}

#[test]
fn event_ids_and_names() {
    let d = Event::Disconnect(Disconnect::new(0));
    let w = Event::WorkerBatch(WorkerBatch::new(Data::Buffer(vec![1, 2, 3])));
    let c = Event::BatchCertified(BatchCertified::new(Data::Buffer(vec![9])));
    assert_eq!(d.id(), 0);
    assert_eq!(w.id(), 1);
    assert_eq!(c.id(), 2);
    assert_eq!(d.name(), "Disconnect");
    assert_eq!(PROTOCOL_VERSION, 0);
    assert_eq!(w.name(), "WorkerBatch");
    assert_eq!(c.name(), "BatchCertified");
}

#[test]
fn disconnect_round_trip() {
    let event = Event::Disconnect(Disconnect::new(7));
    let mut bytes = Vec::new();
    event.serialize(&mut bytes);
    assert_eq!(bytes, vec![0, 0, 7]);
    let decoded = Event::deserialize(bytes).unwrap();
    assert!(decoded.equivalent(&event));
    assert!(matches!(decoded, Event::Disconnect(d) if d.reason == 7));
}

#[test]
fn worker_batch_round_trip() {
    let body = vec![5u8, 6, 7, 8, 9];
    let event = Event::WorkerBatch(WorkerBatch::new(Data::Buffer(body.clone())));
    let mut bytes = Vec::new();
    event.serialize(&mut bytes);
    assert_eq!(bytes[..2], [1, 0]);
    assert_eq!(&bytes[2..], &body[..]);
    let decoded = Event::deserialize(bytes).unwrap();
    assert!(decoded.equivalent(&event));
    assert!(matches!(&decoded, Event::WorkerBatch(w) if matches!(&w.batch, Data::Buffer(b) if *b == body)));
}

#[test]
fn batch_certified_round_trip_object_form() {
    // A decoded payload and its buffered wire form stand for the same event.
    let cert = BatchCertificate { bytes: vec![42u8; 33] };
    let event = Event::BatchCertified(BatchCertified::from(cert.clone()));
    let mut bytes = Vec::new();
    event.serialize(&mut bytes);
    let decoded = Event::deserialize(bytes).unwrap();
    assert!(decoded.equivalent(&event));
    match decoded {
        Event::BatchCertified(bc) => {
            let restored = bc.certificate.decode();
            assert_eq!(restored.bytes, cert.bytes);
        },
        _ => panic!("wrong variant"),
    }
}

#[test]
fn data_decode_preserves_bytes() {
    let batch = Batch { bytes: vec![1, 2, 3] };
    assert_eq!(Data::Object(batch).decode().bytes, vec![1, 2, 3]);
    let buffered: Data<Batch> = Data::Buffer(vec![4, 5]);
    assert_eq!(buffered.decode().bytes, vec![4, 5]);
    assert_eq!(Batch::from_bytes(vec![6]).to_bytes(), vec![6]);
}

#[test]
fn unknown_id_is_rejected() {
    // The registry stops at id 2; everything beyond is version skew.
    assert_eq!(Event::deserialize(vec![3, 0, 1, 2]).unwrap_err(), CodecError::UnknownId(3));
    assert_eq!(Event::deserialize(vec![0xff, 0xff]).unwrap_err(), CodecError::UnknownId(0xffff));
    assert_eq!(Event::deserialize(vec![0, 1]).unwrap_err(), CodecError::UnknownId(256));
}

#[test]
fn missing_id_is_rejected() {
    assert_eq!(Event::deserialize(vec![]).unwrap_err(), CodecError::MissingId);
    assert_eq!(Event::deserialize(vec![0]).unwrap_err(), CodecError::MissingId);
}

#[test]
fn disconnect_body_must_be_one_byte() {
    assert_eq!(Event::deserialize(vec![0, 0]).unwrap_err(), CodecError::InvalidData);
    assert_eq!(Event::deserialize(vec![0, 0, 1, 2]).unwrap_err(), CodecError::InvalidData);
}

#[test]
fn error_labels() {
    assert_eq!(CodecError::FrameTooLarge.describe(), "frame too large");
    assert_eq!(CodecError::UnknownId(9).describe(), "unknown event ID");
}

#[test]
fn encode_disconnect_wire_layout() {
    // Disconnect{reason: 0}: 4-byte little-endian length 3, id 00 00, body 00.
    let mut codec = EventCodec::default();
    let mut dst = Vec::new();
    codec.encode(Event::Disconnect(Disconnect::new(0)), &mut dst).unwrap();
    assert_eq!(dst, vec![3, 0, 0, 0, 0, 0, 0]);
}

#[test]
fn decode_round_trip_through_framing() {
    let mut codec = EventCodec::default();
    let event = Event::WorkerBatch(WorkerBatch::new(Data::Buffer(vec![9u8; 100])));
    let mut buf = Vec::new();
    codec.encode(event.clone(), &mut buf).unwrap();
    let decoded = codec.decode(&mut buf).unwrap().unwrap();
    assert!(decoded.equivalent(&event));
    assert!(buf.is_empty());
}

#[test]
fn decoder_is_partial_input_safe() {
    let mut codec = EventCodec::default();
    let whole = frame(&[0, 0, 5]);
    for cut in 0..whole.len() {
        let mut buf = whole[..cut].to_vec();
        let before = buf.clone();
        assert!(codec.decode(&mut buf).unwrap().is_none());
        assert_eq!(buf, before, "incomplete input must be left untouched");
    }
    let mut buf = whole.clone();
    assert!(codec.decode(&mut buf).unwrap().is_some());
    assert!(buf.is_empty());
}

#[test]
fn sliced_stream_decodes_like_whole_stream() {
    // Decode a stream of three events fed in assorted slice sizes and
    // compare with decoding the concatenated buffer in one go.
    let events = vec![
        Event::Disconnect(Disconnect::new(1)),
        Event::WorkerBatch(WorkerBatch::new(Data::Buffer(vec![7u8; 300]))),
        Event::BatchCertified(BatchCertified::new(Data::Buffer(vec![8u8; 11]))),
    ];
    let mut stream = Vec::new();
    let mut codec = EventCodec::default();
    for e in &events {
        codec.encode(e.clone(), &mut stream).unwrap();
    }

    let mut whole = stream.clone();
    let mut from_whole = Vec::new();
    while let Some(e) = codec.decode(&mut whole).unwrap() {
        from_whole.push(e);
    }
    assert_eq!(from_whole.len(), events.len());

    for step in [1usize, 2, 3, 5, 64, 301] {
        let mut buf = Vec::new();
        let mut from_slices = Vec::new();
        for slice in stream.chunks(step) {
            buf.extend_from_slice(slice);
            while let Some(e) = codec.decode(&mut buf).unwrap() {
                from_slices.push(e);
            }
        }
        assert_eq!(from_slices.len(), events.len());
        for (a, b) in from_slices.iter().zip(events.iter()) {
            assert!(a.equivalent(b));
        }
        assert!(buf.is_empty());
    }
}

#[test]
fn oversize_frame_is_rejected_from_header_alone() {
    // A frame declaring MAX_EVENT_SIZE + 1 bytes fails before its payload
    // arrives: only the header and a couple of bytes are in the buffer.
    let mut codec = EventCodec::default();
    let declared = (MAX_EVENT_SIZE as u32) + 1;
    let mut buf = declared.to_le_bytes().to_vec();
    buf.extend_from_slice(&[1, 2]);
    assert_eq!(codec.decode(&mut buf).unwrap_err(), CodecError::FrameTooLarge);
}

#[test]
fn handshake_codec_lowers_the_maximum() {
    let mut codec = EventCodec::handshake();
    assert_eq!(codec.max_frame_length(), MAX_HANDSHAKE_SIZE);
    let declared = (MAX_HANDSHAKE_SIZE as u32) + 1;
    let mut buf = declared.to_le_bytes().to_vec();
    assert_eq!(codec.decode(&mut buf).unwrap_err(), CodecError::FrameTooLarge);
    // At the default maximum the same header is merely an incomplete frame.
    let mut codec = EventCodec::default();
    let mut buf = declared.to_le_bytes().to_vec();
    assert!(codec.decode(&mut buf).unwrap().is_none());
}

#[test]
fn encode_rejects_oversize_event() {
    let mut codec = EventCodec::default();
    let event = Event::WorkerBatch(WorkerBatch::new(Data::Buffer(vec![0u8; MAX_EVENT_SIZE - 1])));
    let mut dst = Vec::new();
    assert_eq!(codec.encode(event, &mut dst).unwrap_err(), CodecError::FrameTooLarge);
    assert!(dst.is_empty(), "a failed encode must not emit bytes");
}

#[test]
fn invalid_frame_body_is_invalid_data() {
    let mut codec = EventCodec::default();
    // A complete frame whose payload has an unregistered id.
    let mut buf = frame(&[9, 0, 1]);
    assert_eq!(codec.decode(&mut buf).unwrap_err(), CodecError::InvalidData);
    // A complete frame too short for an event id.
    let mut buf = frame(&[5]);
    assert_eq!(codec.decode(&mut buf).unwrap_err(), CodecError::InvalidData);
}
