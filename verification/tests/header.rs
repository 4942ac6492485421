use sn_node_core::header::{
    read_ordinal, try_deserialize_record, try_serialize_record, Error, HeaderFault, Record,
    RecordHeader, RecordKind,
};

const ALL_KINDS: [RecordKind; 5] = [
    RecordKind::ChunkWithPayment,
    RecordKind::Chunk,
    RecordKind::Spend,
    RecordKind::Register,
    RecordKind::RegisterWithPayment,
];

fn record(value: &[u8]) -> Record {
    Record {
        key: vec![7, 7, 7],
        value: value.to_vec(),
    }
}

fn header_fault(fault: HeaderFault) -> Error {
    Error::RecordHeaderParsingFailed(fault)
}

#[test]
fn verify_record_header_encoded_size() -> Result<(), Error> {
    let chunk_with_payment = RecordHeader {
        kind: RecordKind::ChunkWithPayment,
    }
    .try_serialize()?;
    assert_eq!(chunk_with_payment.len(), RecordHeader::SIZE);

    let reg_with_payment = RecordHeader {
        kind: RecordKind::RegisterWithPayment,
    }
    .try_serialize()?;
    assert_eq!(reg_with_payment.len(), RecordHeader::SIZE);

    let chunk = RecordHeader {
        kind: RecordKind::Chunk,
    }
    .try_serialize()?;
    assert_eq!(chunk.len(), RecordHeader::SIZE);

    let spend = RecordHeader {
        kind: RecordKind::Spend,
    }
    .try_serialize()?;
    assert_eq!(spend.len(), RecordHeader::SIZE);

    let register = RecordHeader {
        kind: RecordKind::Register,
    }
    .try_serialize()?;
    assert_eq!(register.len(), RecordHeader::SIZE);

    Ok(())
}

#[test]
fn header_bytes_are_marker_then_ordinal() {
    let bytes = |kind| RecordHeader { kind }.try_serialize().unwrap();
    assert_eq!(bytes(RecordKind::ChunkWithPayment), vec![0x91, 0]);
    assert_eq!(bytes(RecordKind::Chunk), vec![0x91, 1]);
    assert_eq!(bytes(RecordKind::Spend), vec![0x91, 2]);
    assert_eq!(bytes(RecordKind::Register), vec![0x91, 3]);
    assert_eq!(bytes(RecordKind::RegisterWithPayment), vec![0x91, 4]);
}

#[test]
fn ordinals_do_not_follow_declaration_order() {
    assert_eq!(RecordKind::ChunkWithPayment.to_ordinal(), 0);
    assert_eq!(RecordKind::Chunk.to_ordinal(), 1);
    assert_eq!(RecordKind::Spend.to_ordinal(), 2);
    assert_eq!(RecordKind::Register.to_ordinal(), 3);
    assert_eq!(RecordKind::RegisterWithPayment.to_ordinal(), 4);
    for kind in ALL_KINDS {
        assert_eq!(RecordKind::from_ordinal(kind.to_ordinal()), Some(kind));
    }
    assert_eq!(RecordKind::from_ordinal(5), None);
    assert_eq!(RecordKind::from_ordinal(u32::MAX), None);
}

#[test]
fn header_bytes_are_what_the_compact_codec_writes() {
    for kind in ALL_KINDS {
        let ours = RecordHeader { kind }.try_serialize().unwrap();
        let theirs = rmp_serde::to_vec(&(kind.to_ordinal(),)).unwrap();
        assert_eq!(ours, theirs);
    }
}

#[test]
fn header_reads_back_what_the_compact_codec_reads() {
    for kind in ALL_KINDS {
        let bytes = RecordHeader { kind }.try_serialize().unwrap();
        let (ordinal,): (u32,) = rmp_serde::from_slice(&bytes).unwrap();
        assert_eq!(ordinal, kind.to_ordinal());
        assert_eq!(
            RecordHeader::try_deserialize(&bytes),
            Ok(RecordHeader { kind })
        );
    }
}

/// Holds our reading of `bytes` against the codec's reading of the same
/// bytes as a structure of one `u32`. The two must agree on everything but
/// a byte string, which the codec takes for a sequence of numbers and which
/// is no header here.
fn assert_read_as_the_codec_reads(bytes: &[u8]) {
    let theirs: Result<(u32,), _> = rmp_serde::from_slice(bytes);
    match RecordHeader::try_deserialize(bytes) {
        Ok(header) => assert_eq!(theirs.unwrap(), (header.kind.to_ordinal(),)),
        Err(Error::RecordHeaderParsingFailed(HeaderFault::UnknownKind)) => {
            assert!(theirs.unwrap().0 >= 5)
        }
        Err(error) => {
            assert_eq!(error, header_fault(HeaderFault::Malformed));
            let byte_string = matches!(bytes.first(), Some(0xc4..=0xc6));
            assert!(theirs.is_err() || byte_string, "{bytes:?}");
        }
    }
}

#[test]
fn three_bytes_are_read_as_the_codec_reads_them() {
    let firsts = [
        0x00u8, 0x7f, 0x80, 0x81, 0x90, 0x91, 0x92, 0xa1, 0xc0, 0xc3, 0xc4, 0xca, 0xcc, 0xd0, 0xdc,
        0xdd, 0xe0, 0xff,
    ];
    for first in firsts {
        for second in 0u8..=255 {
            for third in 0u8..=255 {
                assert_read_as_the_codec_reads(&[first, second, third]);
            }
        }
    }
}

#[test]
fn short_slices_are_read_as_the_codec_reads_them() {
    assert_read_as_the_codec_reads(&[]);
    for first in 0u8..=255 {
        assert_read_as_the_codec_reads(&[first]);
        for second in 0u8..=255 {
            assert_read_as_the_codec_reads(&[first, second]);
        }
    }
}

#[test]
fn every_form_is_read_as_the_codec_reads_it() {
    let prefixes: [&[u8]; 7] = [
        &[0x91],
        &[0xdc, 0, 1],
        &[0xdd, 0, 0, 0, 1],
        &[0x90],
        &[0x92],
        &[0xdc, 0, 2],
        &[0xdd, 0, 0, 1, 1],
    ];
    let markers = [
        0xccu8, 0xcd, 0xce, 0xcf, 0xd0, 0xd1, 0xd2, 0xd3, 0xca, 0xcb, 0xc0, 0xc2, 0xe0,
    ];
    let digits = [0x00u8, 0x01, 0x04, 0x05, 0x7f, 0x80, 0xff];
    let mut state: u64 = 0x2545_f491_4f6c_dd1d;
    let mut next = move |bound: usize| {
        state = state
            .wrapping_mul(6364136223846793005)
            .wrapping_add(1442695040888963407);
        (state >> 33) as usize % bound
    };
    for _ in 0..40_000 {
        let mut bytes = prefixes[next(prefixes.len())].to_vec();
        bytes.push(markers[next(markers.len())]);
        for _ in 0..next(10) {
            bytes.push(digits[next(digits.len())]);
        }
        assert_read_as_the_codec_reads(&bytes);
    }
}

#[test]
fn ordinals_of_any_size_are_read_as_the_compact_codec_writes_them() {
    let ordinals = [
        0u32,
        4,
        5,
        0x7f,
        0x80,
        0xc8,
        0xff,
        0x100,
        0x1234,
        0xffff,
        0x1_0000,
        0x1234_5678,
        u32::MAX,
    ];
    for ordinal in ordinals {
        let mut written = rmp_serde::to_vec(&(ordinal,)).unwrap();
        assert_eq!(read_ordinal(&written[1..]), Some(ordinal));
        let expected = match RecordKind::from_ordinal(ordinal) {
            Some(kind) => Ok(RecordHeader { kind }),
            None => Err(header_fault(HeaderFault::UnknownKind)),
        };
        assert_eq!(RecordHeader::try_deserialize(&written), expected);
        written.extend([0xde, 0xad]);
        assert_eq!(RecordHeader::try_deserialize(&written), expected);
        assert_eq!(read_ordinal(&written[1..]), Some(ordinal));
    }
}

#[test]
fn ordinals_are_read_high_byte_first() {
    assert_eq!(read_ordinal(&[0x00]), Some(0));
    assert_eq!(read_ordinal(&[0x7f]), Some(127));
    assert_eq!(read_ordinal(&[0xcc, 0x80]), Some(128));
    assert_eq!(read_ordinal(&[0xcc, 0xff]), Some(255));
    assert_eq!(read_ordinal(&[0xcd, 0x01, 0x00]), Some(256));
    assert_eq!(read_ordinal(&[0xcd, 0x12, 0x34]), Some(0x1234));
    assert_eq!(read_ordinal(&[0xce, 0x00, 0x01, 0x00, 0x00]), Some(65536));
    assert_eq!(
        read_ordinal(&[0xce, 0x12, 0x34, 0x56, 0x78]),
        Some(0x1234_5678)
    );
    assert_eq!(
        read_ordinal(&[0xce, 0xff, 0xff, 0xff, 0xff]),
        Some(u32::MAX)
    );
    assert_eq!(
        read_ordinal(&[0xcf, 0, 0, 0, 0, 0x12, 0x34, 0x56, 0x78]),
        Some(0x1234_5678)
    );
    assert_eq!(read_ordinal(&[0xd1, 0x12, 0x34]), Some(0x1234));
    assert_eq!(
        read_ordinal(&[0xd2, 0x12, 0x34, 0x56, 0x78]),
        Some(0x1234_5678)
    );
    assert_eq!(
        read_ordinal(&[0xd3, 0, 0, 0, 0, 0xff, 0xff, 0xff, 0xff]),
        Some(u32::MAX)
    );
}

#[test]
fn a_number_is_read_for_what_it_is_however_long_its_form() {
    let forms_of = |number: u8| -> Vec<Vec<u8>> {
        vec![
            vec![number],
            vec![0xcc, number],
            vec![0xcd, 0, number],
            vec![0xce, 0, 0, 0, number],
            vec![0xcf, 0, 0, 0, 0, 0, 0, 0, number],
            vec![0xd0, number],
            vec![0xd1, 0, number],
            vec![0xd2, 0, 0, 0, number],
            vec![0xd3, 0, 0, 0, 0, 0, 0, 0, number],
        ]
    };
    let one_field: [&[u8]; 3] = [&[0x91], &[0xdc, 0, 1], &[0xdd, 0, 0, 0, 1]];
    for number in 0u8..=0x7f {
        let expected = match RecordKind::from_ordinal(number.into()) {
            Some(kind) => Ok(RecordHeader { kind }),
            None => Err(header_fault(HeaderFault::UnknownKind)),
        };
        for form in forms_of(number) {
            assert_eq!(read_ordinal(&form), Some(number.into()));
            for marker in one_field {
                let mut header = marker.to_vec();
                header.extend(&form);
                assert_eq!(RecordHeader::try_deserialize(&header), expected);
                header.push(0xaa);
                assert_eq!(RecordHeader::try_deserialize(&header), expected);
            }
        }
    }
    assert_eq!(
        RecordHeader::try_deserialize(&[0x91, 0xcc, 0x01]),
        Ok(RecordHeader {
            kind: RecordKind::Chunk
        })
    );
    assert_eq!(
        RecordHeader::try_deserialize(&[0x91, 0xcc, 0x05]),
        Err(header_fault(HeaderFault::UnknownKind))
    );
}

#[test]
fn numbers_that_are_no_ordinal_are_malformed() {
    let no_ordinals: [&[u8]; 10] = [
        &[0xd0, 0x80],
        &[0xd0, 0xff],
        &[0xd1, 0x80, 0x00],
        &[0xd2, 0xff, 0xff, 0xff, 0xff],
        &[0xd3, 0xff, 0xff, 0xff, 0xff, 0xff, 0xff, 0xff, 0xff],
        &[0xd3, 0, 0, 0, 1, 0, 0, 0, 0],
        &[0xcf, 0, 0, 0, 1, 0, 0, 0, 0],
        &[0xcf, 0xff, 0, 0, 0, 0, 0, 0, 5],
        &[0xe0],
        &[0xff],
    ];
    for number in no_ordinals {
        assert_eq!(read_ordinal(number), None);
        let mut header = vec![0x91];
        header.extend(number);
        assert_eq!(
            RecordHeader::try_deserialize(&header),
            Err(header_fault(HeaderFault::Malformed))
        );
    }
}

#[test]
fn header_round_trips_for_every_kind() {
    for kind in ALL_KINDS {
        let bytes = RecordHeader { kind }.try_serialize().unwrap();
        assert_eq!(bytes.len(), 2);
        assert_eq!(
            RecordHeader::try_deserialize(&bytes),
            Ok(RecordHeader { kind })
        );
    }
}

#[test]
fn header_ignores_what_follows_it() {
    assert_eq!(
        RecordHeader::try_deserialize(&[0x91, 2, 0xff, 0xff, 0xff]),
        Ok(RecordHeader {
            kind: RecordKind::Spend
        })
    );
}

#[test]
fn unknown_ordinal_is_refused() {
    for ordinal in 5u8..=0x7f {
        assert_eq!(
            RecordHeader::try_deserialize(&[0x91, ordinal]),
            Err(header_fault(HeaderFault::UnknownKind))
        );
        assert_eq!(
            RecordHeader::from_record(&record(&[0x91, ordinal, 0])),
            Err(header_fault(HeaderFault::UnknownKind))
        );
    }
    for ordinal in 0x80u8..=0xff {
        assert_eq!(
            RecordHeader::try_deserialize(&[0x91, 0xcc, ordinal]),
            Err(header_fault(HeaderFault::UnknownKind))
        );
    }
    assert_eq!(
        RecordHeader::try_deserialize(&[0x91, 0xce, 0xff, 0xff, 0xff, 0xff]),
        Err(header_fault(HeaderFault::UnknownKind))
    );
}

#[test]
fn bytes_that_end_early_are_malformed() {
    let truncated: [&[u8]; 12] = [
        &[],
        &[0x91],
        &[0x91, 0xcc],
        &[0x91, 0xcd],
        &[0x91, 0xcd, 0x01],
        &[0x91, 0xce],
        &[0x91, 0xce, 0x01, 0x02, 0x03],
        &[0x91, 0xcf, 0, 0, 0, 0, 0, 0, 0],
        &[0x91, 0xd3, 0, 0, 0, 0, 0, 0, 0],
        &[0xdc],
        &[0xdc, 0x00],
        &[0xdd, 0x00, 0x00, 0x00],
    ];
    for bytes in truncated {
        assert_eq!(
            RecordHeader::try_deserialize(bytes),
            Err(header_fault(HeaderFault::Malformed))
        );
    }
    assert_eq!(read_ordinal(&[]), None);
}

#[test]
fn wrong_bytes_are_malformed() {
    let malformed: [&[u8]; 14] = [
        &[0x92, 1],
        &[0x92, 1, 1],
        &[0x90],
        &[0x00, 0x00],
        &[0x91, 0x80],
        &[0x91, 0xff],
        &[0x91, 0xc0],
        &[0x91, 0xc3],
        &[0x91, 0xca, 0, 0, 0, 0],
        &[0x91, 0xa1, 0x31],
        &[0xdc, 0x00, 0x00],
        &[0xdc, 0x00, 0x02, 0x01, 0x01],
        &[0x81, 0x00, 0x01],
        &[0xc4, 0x01, 0x01],
    ];
    for bytes in malformed {
        assert_eq!(
            RecordHeader::try_deserialize(bytes),
            Err(header_fault(HeaderFault::Malformed))
        );
    }
}

#[test]
fn from_record_wants_one_byte_more_than_a_header() {
    assert_eq!(
        RecordHeader::from_record(&record(&[])),
        Err(header_fault(HeaderFault::TooShort))
    );
    assert_eq!(
        RecordHeader::from_record(&record(&[0x91, 1])),
        Err(header_fault(HeaderFault::TooShort))
    );
    assert_eq!(
        RecordHeader::from_record(&record(&[0x91, 1, 0])),
        Ok(RecordHeader {
            kind: RecordKind::Chunk
        })
    );
    assert_eq!(
        RecordHeader::from_record(&record(&[0x91, 4, 9, 9, 9, 9])),
        Ok(RecordHeader {
            kind: RecordKind::RegisterWithPayment
        })
    );
    assert_eq!(
        RecordHeader::from_record(&record(&[0x90, 1, 0])),
        Err(header_fault(HeaderFault::Malformed))
    );
}

#[test]
fn from_record_reads_three_bytes_and_no_more() {
    assert_eq!(
        RecordHeader::from_record(&record(&[0x91, 0xcc, 0xc8])),
        Err(header_fault(HeaderFault::UnknownKind))
    );
    assert_eq!(
        RecordHeader::from_record(&record(&[0x91, 0xcc, 0x03, 0xff])),
        Ok(RecordHeader {
            kind: RecordKind::Register
        })
    );
    assert_eq!(
        RecordHeader::try_deserialize(&[0x91, 0xcd, 0x01, 0x00, 0x00]),
        Err(header_fault(HeaderFault::UnknownKind))
    );
    assert_eq!(
        RecordHeader::from_record(&record(&[0x91, 0xcd, 0x01, 0x00, 0x00])),
        Err(header_fault(HeaderFault::Malformed))
    );
    assert_eq!(
        RecordHeader::try_deserialize(&[0xdc, 0x00, 0x01, 0x02]),
        Ok(RecordHeader {
            kind: RecordKind::Spend
        })
    );
    assert_eq!(
        RecordHeader::from_record(&record(&[0xdc, 0x00, 0x01, 0x02])),
        Err(header_fault(HeaderFault::Malformed))
    );
}

#[test]
fn only_plain_chunks_are_of_type_chunk() {
    for kind in ALL_KINDS {
        let value = try_serialize_record(&[1, 2, 3], kind).unwrap();
        assert_eq!(
            RecordHeader::is_record_of_type_chunk(&record(&value)),
            Ok(kind == RecordKind::Chunk)
        );
    }
    assert_eq!(
        RecordHeader::is_record_of_type_chunk(&record(&[0x91, 1])),
        Err(header_fault(HeaderFault::TooShort))
    );
    assert_eq!(
        RecordHeader::is_record_of_type_chunk(&record(&[0x91, 9, 0])),
        Err(header_fault(HeaderFault::UnknownKind))
    );
}

#[test]
fn record_is_header_then_payload() {
    assert_eq!(
        try_serialize_record(&[0xaa, 0xbb, 0xcc], RecordKind::Register),
        Ok(vec![0x91, 3, 0xaa, 0xbb, 0xcc])
    );
    assert_eq!(
        try_serialize_record(&[], RecordKind::Chunk),
        Ok(vec![0x91, 1])
    );
}

#[test]
fn record_round_trips_for_every_kind() {
    let payloads: [&[u8]; 3] = [&[0], &[1, 2, 3, 4, 5], &[0x91, 0x91, 0x91]];
    for kind in ALL_KINDS {
        for payload in payloads {
            let value = try_serialize_record(payload, kind).unwrap();
            let stored = record(&value);
            assert_eq!(try_deserialize_record(&stored), Ok(payload));
            assert_eq!(RecordHeader::from_record(&stored), Ok(RecordHeader { kind }));
        }
    }
}

#[test]
fn record_round_trips_a_payload_of_the_compact_codec() {
    let payload = rmp_serde::to_vec(&("spend", 42u64, vec![1u8, 2, 3])).unwrap();
    let value = try_serialize_record(&payload, RecordKind::Spend).unwrap();
    let stored = record(&value);
    let bytes = try_deserialize_record(&stored).unwrap();
    let decoded: (String, u64, Vec<u8>) = rmp_serde::from_slice(bytes).unwrap();
    assert_eq!(decoded, ("spend".to_string(), 42u64, vec![1u8, 2, 3]));
}

#[test]
fn record_without_payload_is_too_short() {
    let too_short = Err(header_fault(HeaderFault::TooShort));
    assert_eq!(try_deserialize_record(&record(&[])), too_short);
    assert_eq!(try_deserialize_record(&record(&[0x91])), too_short);
    assert_eq!(try_deserialize_record(&record(&[0x91, 1])), too_short);
    let only_header = try_serialize_record(&[], RecordKind::Chunk).unwrap();
    assert_eq!(try_deserialize_record(&record(&only_header)), too_short);
}

#[test]
fn payload_is_not_looked_into() {
    assert_eq!(
        try_deserialize_record(&record(&[0, 0, 5])),
        Ok(&[5u8][..])
    );
}

#[test]
fn kinds_are_named_in_text() {
    assert_eq!(RecordKind::Chunk.to_string(), "RecordKind(Chunk)");
    assert_eq!(
        RecordKind::ChunkWithPayment.to_string(),
        "RecordKind(ChunkWithPayment)"
    );
    assert_eq!(RecordKind::Spend.to_string(), "RecordKind(Spend)");
    assert_eq!(RecordKind::Register.to_string(), "RecordKind(Register)");
    assert_eq!(
        RecordKind::RegisterWithPayment.to_string(),
        "RecordKind(RegisterWithPayment)"
    );
}
