use wire_codec::errors::AdapterError;
use wire_codec::scalar::Direction;
use wire_codec::scalar::WireTimestamp;
use wire_codec::scalar::direction_from_wire;
use wire_codec::scalar::direction_to_wire;
use wire_codec::scalar::identifier_from_wire;
use wire_codec::scalar::identifier_to_wire;
use wire_codec::scalar::label_from_wire;
use wire_codec::scalar::label_to_wire;
use wire_codec::scalar::optional_identifier_from_wire;
use wire_codec::scalar::optional_identifier_to_wire;
use wire_codec::scalar::optional_label_from_wire;
use wire_codec::scalar::optional_label_to_wire;
use wire_codec::scalar::optional_timestamp_from_wire;
use wire_codec::scalar::optional_timestamp_to_wire;
use wire_codec::scalar::timestamp_from_wire;
use wire_codec::scalar::timestamp_to_wire;

fn sample_bytes(start: u8) -> Vec<u8> {
    (start..start + 16).collect()
}

#[test]
fn identifier_round_trip_sixteen_bytes() {
    let b = sample_bytes(1);
    let id = identifier_from_wire(&b).unwrap();
    assert_eq!(identifier_to_wire(&id), b);
}

#[test]
fn identifier_rejects_wrong_lengths() {
    for len in [0usize, 1, 15, 17, 32] {
        let b = vec![0xabu8; len];
        assert_eq!(
            identifier_from_wire(&b).unwrap_err(),
            AdapterError::MalformedIdentifier
        );
    }
}

#[test]
fn optional_identifier_empty_is_absent() {
    let empty: Vec<u8> = Vec::new();
    assert!(optional_identifier_from_wire(&empty).unwrap().is_none());
    assert_eq!(optional_identifier_to_wire(&None), empty);
}

#[test]
fn optional_identifier_present_is_never_conflated() {
    let b = sample_bytes(9);
    let id = optional_identifier_from_wire(&b).unwrap().unwrap();
    let encoded = optional_identifier_to_wire(&Some(id));
    assert_eq!(encoded.len(), 16);
    assert_eq!(encoded, b);
}

#[test]
fn optional_identifier_bad_length_fails() {
    let b = vec![1u8; 5];
    assert_eq!(
        optional_identifier_from_wire(&b).unwrap_err(),
        AdapterError::MalformedIdentifier
    );
}

#[test]
fn label_round_trip_valid() {
    let s = String::from("knows");
    let l = label_from_wire(&s).unwrap();
    assert_eq!(label_to_wire(&l), s);
}

#[test]
fn label_rejects_empty_and_invalid() {
    assert_eq!(
        label_from_wire(&String::new()).unwrap_err(),
        AdapterError::InvalidLabel
    );
    assert_eq!(
        label_from_wire(&String::from("not a label!")).unwrap_err(),
        AdapterError::InvalidLabel
    );
    let at_limit: String = std::iter::repeat('x').take(255).collect();
    assert!(label_from_wire(&at_limit).is_ok());
    let too_long: String = std::iter::repeat('x').take(256).collect();
    assert_eq!(
        label_from_wire(&too_long).unwrap_err(),
        AdapterError::InvalidLabel
    );
}

#[test]
fn optional_label_empty_is_absent() {
    assert!(optional_label_from_wire(&String::new()).unwrap().is_none());
    assert_eq!(optional_label_to_wire(&None), String::new());
}

#[test]
fn optional_label_present_round_trip() {
    let l = optional_label_from_wire(&String::from("likes"))
        .unwrap()
        .unwrap();
    assert_eq!(optional_label_to_wire(&Some(l)), "likes");
}

#[test]
fn timestamp_round_trip_exact() {
    for (s, n) in [(0i64, 0u32), (1_500_000_000, 999_999_999), (-62_135_596_800, 1)] {
        let t = timestamp_from_wire(s, n).unwrap();
        let w = timestamp_to_wire(&t);
        assert_eq!((w.seconds, w.nanos), (s, n));
    }
}

#[test]
fn timestamp_rejects_out_of_range_nanos() {
    assert_eq!(
        timestamp_from_wire(7, 1_000_000_000).unwrap_err(),
        AdapterError::MalformedTimestamp
    );
}

#[test]
fn optional_timestamp_flag_convention() {
    let (present, w) = optional_timestamp_to_wire(&None);
    assert!(!present);
    assert_eq!((w.seconds, w.nanos), (0, 0));
    assert!(optional_timestamp_from_wire(false, &WireTimestamp { seconds: 42, nanos: 7 })
        .unwrap()
        .is_none());

    let t = timestamp_from_wire(0, 0).unwrap();
    let (present, w) = optional_timestamp_to_wire(&Some(t));
    assert!(present);
    let back = optional_timestamp_from_wire(present, &w).unwrap().unwrap();
    assert_eq!(back, t);
}

#[test]
fn optional_timestamp_validates_only_when_present() {
    let bad = WireTimestamp { seconds: 0, nanos: 2_000_000_000 };
    assert!(optional_timestamp_from_wire(false, &bad).unwrap().is_none());
    assert_eq!(
        optional_timestamp_from_wire(true, &bad).unwrap_err(),
        AdapterError::MalformedTimestamp
    );
}

#[test]
fn direction_round_trip_and_rejection() {
    assert_eq!(direction_from_wire(0).unwrap(), Direction::Outbound);
    assert_eq!(direction_from_wire(1).unwrap(), Direction::Inbound);
    assert_eq!(direction_to_wire(Direction::Outbound), 0);
    assert_eq!(direction_to_wire(Direction::Inbound), 1);
    assert_eq!(direction_from_wire(2).unwrap_err(), AdapterError::UnknownDirection);
    assert_eq!(direction_from_wire(65535).unwrap_err(), AdapterError::UnknownDirection);
}
