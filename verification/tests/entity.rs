use wire_codec::entity::Edge;
use wire_codec::entity::EdgeKey;
use wire_codec::entity::EdgeMetadata;
use wire_codec::entity::Vertex;
use wire_codec::entity::VertexMetadata;
use wire_codec::entity::WireEdge;
use wire_codec::entity::WireEdgeKey;
use wire_codec::entity::WireEdgeMetadata;
use wire_codec::entity::WireVertex;
use wire_codec::entity::WireVertexMetadata;
use wire_codec::entity::from_edge;
use wire_codec::entity::from_edge_key;
use wire_codec::entity::from_edge_metadata;
use wire_codec::entity::from_vertex;
use wire_codec::entity::from_vertex_metadata;
use wire_codec::entity::to_edge;
use wire_codec::entity::to_edge_key;
use wire_codec::entity::to_edge_metadata;
use wire_codec::entity::to_vertex;
use wire_codec::entity::to_vertex_metadata;
use wire_codec::errors::AdapterError;
use wire_codec::scalar::WireTimestamp;
use wire_codec::scalar::identifier_from_wire;
use wire_codec::scalar::label_from_wire;
use wire_codec::scalar::timestamp_from_wire;

fn sample_bytes(start: u8) -> Vec<u8> {
    (start..start + 16).collect()
}

fn sample_vertex() -> Vertex {
    Vertex {
        id: identifier_from_wire(&sample_bytes(1)).unwrap(),
        t: label_from_wire(&String::from("person")).unwrap(),
    }
}

fn sample_edge_key() -> EdgeKey {
    EdgeKey {
        outbound_id: identifier_from_wire(&sample_bytes(1)).unwrap(),
        t: label_from_wire(&String::from("knows")).unwrap(),
        inbound_id: identifier_from_wire(&sample_bytes(100)).unwrap(),
    }
}

#[test]
fn vertex_round_trip() {
    let v = sample_vertex();
    let mut builder = WireVertex { id: Vec::new(), t: String::new() };
    from_vertex(&v, &mut builder);
    assert_eq!(builder.id, sample_bytes(1));
    assert_eq!(builder.t, "person");
    assert_eq!(to_vertex(&builder).unwrap(), v);
}

#[test]
fn vertex_decode_fails_fast_on_bad_id() {
    let w = WireVertex { id: vec![1, 2, 3], t: String::from("person") };
    assert_eq!(to_vertex(&w).unwrap_err(), AdapterError::MalformedIdentifier);
}

#[test]
fn vertex_decode_fails_on_bad_label() {
    let w = WireVertex { id: sample_bytes(1), t: String::from("bad label") };
    assert_eq!(to_vertex(&w).unwrap_err(), AdapterError::InvalidLabel);
}

#[test]
fn edge_key_round_trip() {
    let k = sample_edge_key();
    let mut builder = WireEdgeKey {
        outbound_id: Vec::new(),
        t: String::new(),
        inbound_id: Vec::new(),
    };
    from_edge_key(&k, &mut builder);
    assert_eq!(to_edge_key(&builder).unwrap(), k);
}

#[test]
fn edge_key_reports_first_error() {
    // Outbound id malformed and label invalid: the outbound id error wins.
    let w = WireEdgeKey {
        outbound_id: vec![0u8; 3],
        t: String::from("bad label"),
        inbound_id: sample_bytes(9),
    };
    assert_eq!(to_edge_key(&w).unwrap_err(), AdapterError::MalformedIdentifier);
    // Identifiers fine, label invalid.
    let w = WireEdgeKey {
        outbound_id: sample_bytes(1),
        t: String::from("bad label"),
        inbound_id: sample_bytes(9),
    };
    assert_eq!(to_edge_key(&w).unwrap_err(), AdapterError::InvalidLabel);
}

#[test]
fn edge_round_trip() {
    let e = Edge {
        key: sample_edge_key(),
        created_at: timestamp_from_wire(1_234_567_890, 987_654_321).unwrap(),
    };
    let mut builder = WireEdge {
        key: WireEdgeKey { outbound_id: Vec::new(), t: String::new(), inbound_id: Vec::new() },
        created_at: WireTimestamp { seconds: 0, nanos: 0 },
    };
    from_edge(&e, &mut builder);
    assert_eq!(builder.created_at.seconds, 1_234_567_890);
    assert_eq!(builder.created_at.nanos, 987_654_321);
    assert_eq!(to_edge(&builder).unwrap(), e);
}

#[test]
fn edge_rejects_malformed_timestamp() {
    let k = sample_edge_key();
    let mut wk = WireEdgeKey { outbound_id: Vec::new(), t: String::new(), inbound_id: Vec::new() };
    from_edge_key(&k, &mut wk);
    let w = WireEdge { key: wk, created_at: WireTimestamp { seconds: 5, nanos: 1_000_000_000 } };
    assert_eq!(to_edge(&w).unwrap_err(), AdapterError::MalformedTimestamp);
}

#[test]
fn vertex_metadata_round_trip_value_opaque() {
    let m = VertexMetadata {
        id: identifier_from_wire(&sample_bytes(3)).unwrap(),
        value: String::from("{\"weight\": 3}"),
    };
    let mut builder = WireVertexMetadata { id: Vec::new(), value: String::new() };
    from_vertex_metadata(&m, &mut builder);
    assert_eq!(builder.value, "{\"weight\": 3}");
    assert_eq!(to_vertex_metadata(&builder).unwrap(), m);
}

#[test]
fn vertex_metadata_rejects_bad_id() {
    let w = WireVertexMetadata { id: vec![1u8; 4], value: String::from("null") };
    assert_eq!(to_vertex_metadata(&w).unwrap_err(), AdapterError::MalformedIdentifier);
}

#[test]
fn edge_metadata_round_trip() {
    let m = EdgeMetadata { key: sample_edge_key(), value: String::from("[1, 2]") };
    let mut builder = WireEdgeMetadata {
        key: WireEdgeKey { outbound_id: Vec::new(), t: String::new(), inbound_id: Vec::new() },
        value: String::new(),
    };
    from_edge_metadata(&m, &mut builder);
    assert_eq!(to_edge_metadata(&builder).unwrap(), m);
}
