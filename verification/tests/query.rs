use wire_codec::entity::WireEdgeKey;
use wire_codec::errors::AdapterError;
use wire_codec::query::EdgeQuery;
use wire_codec::query::VertexQuery;
use wire_codec::query::WireEdgeQuery;
use wire_codec::query::WireVertexQuery;
use wire_codec::query::from_edge_query;
use wire_codec::query::from_vertex_query;
use wire_codec::query::to_edge_query;
use wire_codec::query::to_vertex_query;
use wire_codec::scalar::Direction;
use wire_codec::scalar::Identifier;
use wire_codec::scalar::WireTimestamp;
use wire_codec::scalar::identifier_from_wire;
use wire_codec::scalar::label_from_wire;
use wire_codec::scalar::timestamp_from_wire;

fn sample_bytes(start: u8) -> Vec<u8> {
    (start..start + 16).collect()
}

fn sample_identifier(start: u8) -> Identifier {
    identifier_from_wire(&sample_bytes(start)).unwrap()
}

fn wire_edge_key(out_start: u8, t: &str, in_start: u8) -> WireEdgeKey {
    WireEdgeKey {
        outbound_id: sample_bytes(out_start),
        t: String::from(t),
        inbound_id: sample_bytes(in_start),
    }
}

#[test]
fn all_query_round_trip_with_start_id() {
    let q = VertexQuery::All { start_id: Some(sample_identifier(1)), limit: 10 };
    let w = from_vertex_query(&q);
    assert_eq!(to_vertex_query(&w).unwrap(), q);
}

#[test]
fn all_query_absent_start_id_stays_absent() {
    let q = VertexQuery::All { start_id: None, limit: 0 };
    let w = from_vertex_query(&q);
    match &w {
        WireVertexQuery::All { start_id, limit } => {
            assert!(start_id.is_empty());
            assert_eq!(*limit, 0);
        }
        other => panic!("unexpected wire variant: {:?}", other),
    }
    match to_vertex_query(&w).unwrap() {
        VertexQuery::All { start_id, limit } => {
            assert!(start_id.is_none());
            assert_eq!(limit, 0);
        }
        other => panic!("unexpected native variant: {:?}", other),
    }
}

#[test]
fn vertices_query_round_trip_preserves_order_and_duplicates() {
    let ids = vec![sample_identifier(5), sample_identifier(1), sample_identifier(5)];
    let q = VertexQuery::Vertices { ids };
    let w = from_vertex_query(&q);
    assert_eq!(to_vertex_query(&w).unwrap(), q);
}

#[test]
fn vertices_query_reports_position_of_first_bad_id() {
    let w = WireVertexQuery::Vertices {
        ids: vec![sample_bytes(1), vec![9u8; 3], sample_bytes(2)],
    };
    assert_eq!(to_vertex_query(&w).unwrap_err(), AdapterError::MalformedIdentifier);
}

#[test]
fn recursive_pipe_round_trip() {
    // A vertex pipe wrapping an edge pipe wrapping `All { Some(id), 10 }`.
    let q = VertexQuery::Pipe {
        edge_query: Box::new(EdgeQuery::Pipe {
            vertex_query: Box::new(VertexQuery::All {
                start_id: Some(sample_identifier(7)),
                limit: 10,
            }),
            direction: Direction::Inbound,
            type_filter: Some(label_from_wire(&String::from("knows")).unwrap()),
            high_filter: Some(timestamp_from_wire(1_600_000_000, 5).unwrap()),
            low_filter: None,
            limit: 4,
        }),
        direction: Direction::Outbound,
        limit: 2,
    };
    let w = from_vertex_query(&q);
    assert_eq!(to_vertex_query(&w).unwrap(), q);
}

#[test]
fn edges_query_round_trip() {
    let keys = vec![
        wire_edge_key(1, "knows", 100),
        wire_edge_key(33, "likes", 65),
    ];
    let w = WireEdgeQuery::Edges { keys: keys.clone() };
    let q = to_edge_query(&w).unwrap();
    let back = from_edge_query(&q);
    assert_eq!(back, WireEdgeQuery::Edges { keys });
}

#[test]
fn edges_decode_then_encode_is_exact() {
    // One key: {outbound: U1, type: "knows", inbound: U2}; re-encoding the
    // decoded query must reproduce the wire message field for field.
    let w = WireEdgeQuery::Edges { keys: vec![wire_edge_key(1, "knows", 101)] };
    let q = to_edge_query(&w).unwrap();
    assert_eq!(from_edge_query(&q), w);
}

#[test]
fn unknown_vertex_query_tag_is_rejected() {
    for tag in [3u16, 200, 65535] {
        let w = WireVertexQuery::Unknown { tag };
        assert_eq!(to_vertex_query(&w).unwrap_err(), AdapterError::UnknownQueryVariant);
    }
}

#[test]
fn unknown_edge_query_tag_is_rejected() {
    let w = WireEdgeQuery::Unknown { tag: 9 };
    assert_eq!(to_edge_query(&w).unwrap_err(), AdapterError::UnknownQueryVariant);
}

#[test]
fn unknown_direction_is_rejected() {
    let w = WireVertexQuery::Pipe {
        edge_query: Box::new(WireEdgeQuery::Edges { keys: Vec::new() }),
        direction: 2,
        limit: 1,
    };
    assert_eq!(to_vertex_query(&w).unwrap_err(), AdapterError::UnknownDirection);
}

#[test]
fn nested_error_surfaces_unchanged() {
    // A pipe query whose nested key sequence holds one malformed key among
    // valid ones: the whole decode fails with that key's specific error.
    let keys = vec![
        wire_edge_key(1, "knows", 100),
        WireEdgeKey {
            outbound_id: sample_bytes(2),
            t: String::from("knows"),
            inbound_id: vec![0u8; 5],
        },
        wire_edge_key(3, "knows", 102),
    ];
    let w = WireVertexQuery::Pipe {
        edge_query: Box::new(WireEdgeQuery::Edges { keys }),
        direction: 0,
        limit: 1,
    };
    assert_eq!(to_vertex_query(&w).unwrap_err(), AdapterError::MalformedIdentifier);
}

#[test]
fn nested_decode_happens_before_sibling_fields() {
    // Both the nested query and the direction are malformed: the nested
    // error wins, per the decode order.
    let w = WireVertexQuery::Pipe {
        edge_query: Box::new(WireEdgeQuery::Unknown { tag: 50 }),
        direction: 9,
        limit: 1,
    };
    assert_eq!(to_vertex_query(&w).unwrap_err(), AdapterError::UnknownQueryVariant);
}

#[test]
fn edge_pipe_optional_fields_round_trip() {
    let q = EdgeQuery::Pipe {
        vertex_query: Box::new(VertexQuery::Vertices { ids: Vec::new() }),
        direction: Direction::Outbound,
        type_filter: None,
        high_filter: None,
        low_filter: Some(timestamp_from_wire(0, 0).unwrap()),
        limit: 100,
    };
    let w = from_edge_query(&q);
    match &w {
        WireEdgeQuery::Pipe { type_filter, has_high_filter, has_low_filter, low_filter, .. } => {
            assert!(type_filter.is_empty());
            assert!(!has_high_filter);
            assert!(*has_low_filter);
            assert_eq!((low_filter.seconds, low_filter.nanos), (0, 0));
        }
        other => panic!("unexpected wire variant: {:?}", other),
    }
    assert_eq!(to_edge_query(&w).unwrap(), q);
}

#[test]
fn edge_pipe_rejects_bad_filter_timestamp() {
    let w = WireEdgeQuery::Pipe {
        vertex_query: Box::new(WireVertexQuery::All { start_id: Vec::new(), limit: 0 }),
        direction: 1,
        type_filter: String::new(),
        has_high_filter: true,
        high_filter: WireTimestamp { seconds: 0, nanos: 1_000_000_000 },
        has_low_filter: false,
        low_filter: WireTimestamp { seconds: 0, nanos: 0 },
        limit: 0,
    };
    assert_eq!(to_edge_query(&w).unwrap_err(), AdapterError::MalformedTimestamp);
}

#[test]
fn edge_pipe_rejects_invalid_type_filter() {
    let w = WireEdgeQuery::Pipe {
        vertex_query: Box::new(WireVertexQuery::All { start_id: Vec::new(), limit: 0 }),
        direction: 0,
        type_filter: String::from("not a label"),
        has_high_filter: false,
        high_filter: WireTimestamp { seconds: 0, nanos: 0 },
        has_low_filter: false,
        low_filter: WireTimestamp { seconds: 0, nanos: 0 },
        limit: 0,
    };
    assert_eq!(to_edge_query(&w).unwrap_err(), AdapterError::InvalidLabel);
}
