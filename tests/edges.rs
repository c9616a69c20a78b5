use lattice::state::trust_edge::{TrustDimension, TrustEdgeData};

fn edge(dimension: TrustDimension, weight: u16, created_at: i64) -> TrustEdgeData {
    let mut trustee = [0u8; 32];
    for (i, b) in trustee.iter_mut().enumerate() {
        *b = i as u8;
    }
    TrustEdgeData { trustee, dimension, weight, created_at }
}

#[test]
fn dimension_tags_are_fixed() {
    let all = [
        TrustDimension::Trading,
        TrustDimension::Civic,
        TrustDimension::Developer,
        TrustDimension::Infra,
        TrustDimension::Creator,
    ];
    for (i, d) in all.iter().enumerate() {
        assert_eq!(d.tag(), i as u8);
        assert_eq!(TrustDimension::from_tag(i as u8), Some(*d));
    }
    assert_eq!(TrustDimension::from_tag(5), None);
    assert_eq!(TrustDimension::from_tag(255), None);
}

#[test]
fn encoding_layout_is_exact() {
    let e = edge(TrustDimension::Developer, 0x1234, 0x0102030405060708);
    let bytes = e.encode();
    assert_eq!(bytes.len(), TrustEdgeData::SERIALIZED_SIZE);
    assert_eq!(bytes.len(), 43);
    let mut expected: Vec<u8> = (0u8..32).collect();
    expected.push(2);
    expected.extend_from_slice(&[0x34, 0x12]);
    expected.extend_from_slice(&[0x08, 0x07, 0x06, 0x05, 0x04, 0x03, 0x02, 0x01]);
    assert_eq!(bytes, expected);
}

#[test]
fn encoding_of_negative_time() {
    let e = edge(TrustDimension::Creator, 10000, -2);
    let bytes = e.encode();
    assert_eq!(bytes[32], 4);
    assert_eq!(&bytes[33..35], &[0x10, 0x27]);
    assert_eq!(&bytes[35..43], &[0xfe, 0xff, 0xff, 0xff, 0xff, 0xff, 0xff, 0xff]);
}

#[test]
fn round_trip_of_valid_edges() {
    let dims = [
        TrustDimension::Trading,
        TrustDimension::Civic,
        TrustDimension::Developer,
        TrustDimension::Infra,
        TrustDimension::Creator,
    ];
    for d in dims.iter() {
        for w in [0u16, 1, 5000, 10000] {
            for t in [i64::MIN, -1, 0, 1_700_000_000, i64::MAX] {
                let e = edge(*d, w, t);
                assert_eq!(TrustEdgeData::decode(&e.encode()), Some(e));
            }
        }
    }
}

#[test]
fn decode_rejects_bad_length_and_tag() {
    let e = edge(TrustDimension::Civic, 7, 9);
    let mut bytes = e.encode();
    assert_eq!(TrustEdgeData::decode(&bytes[..42]), None);
    bytes.push(0);
    assert_eq!(TrustEdgeData::decode(&bytes), None);
    bytes.pop();
    bytes[32] = 5;
    assert_eq!(TrustEdgeData::decode(&bytes), None);
    assert_eq!(TrustEdgeData::decode(&[]), None);
}
