//! The laws of the codec, stated over the mathematical models and proved
//! once for all inputs: round trips for every scalar, entity and query
//! conversion, the rejection rule for identifiers, the unknown-tag rule,
//! and the fail-fast rule for sequences and nested queries.

use vstd::prelude::*;

use crate::entity::EdgeKeyModel;
use crate::entity::EdgeMetadataModel;
use crate::entity::EdgeModel;
use crate::entity::VertexMetadataModel;
use crate::entity::VertexModel;
use crate::entity::WireEdgeKeyModel;
use crate::entity::decode_edge;
use crate::entity::decode_edge_key;
use crate::entity::decode_edge_metadata;
use crate::entity::decode_vertex;
use crate::entity::decode_vertex_metadata;
use crate::entity::edge_key_wf;
use crate::entity::edge_metadata_wf;
use crate::entity::edge_wf;
use crate::entity::encode_edge;
use crate::entity::encode_edge_key;
use crate::entity::encode_edge_metadata;
use crate::entity::encode_vertex;
use crate::entity::encode_vertex_metadata;
use crate::entity::vertex_metadata_wf;
use crate::entity::vertex_wf;
use crate::errors::AdapterError;
use crate::query::EdgeQueryModel;
use crate::query::VertexQueryModel;
use crate::query::WireEdgeQueryModel;
use crate::query::WireVertexQueryModel;
use crate::query::decode_edge_query;
use crate::query::decode_list;
use crate::query::decode_vertex_query;
use crate::query::edge_key_decoder;
use crate::query::edge_query_wf;
use crate::query::encode_edge_query;
use crate::query::encode_vertex_query;
use crate::query::identifier_decoder;
use crate::query::vertex_query_wf;
use crate::scalar::Direction;
use crate::scalar::TimestampModel;
use crate::scalar::decode_direction;
use crate::scalar::decode_identifier;
use crate::scalar::decode_optional_identifier;
use crate::scalar::decode_optional_label;
use crate::scalar::decode_optional_timestamp;
use crate::scalar::decode_timestamp;
use crate::scalar::encode_direction;
use crate::scalar::encode_optional_identifier;
use crate::scalar::encode_optional_label;
use crate::scalar::encode_optional_timestamp;
use crate::scalar::identifier_wf;
use crate::scalar::label_wf;
use crate::scalar::timestamp_wf;

verus! {

// ---------------------------------------------------------------------------
// Scalar laws.
// ---------------------------------------------------------------------------

/// Round trip for identifiers: every 16-byte sequence decodes to itself, and
/// encoding is the identity on the bytes, so encode after decode reproduces
/// the input exactly.
pub proof fn lemma_identifier_round_trip(b: Seq<u8>)
    ensures
        identifier_wf(b) ==> decode_identifier(b) == Ok::<Seq<u8>, AdapterError>(b),
{
}

/// Rejection: a byte sequence whose length is not 16 never decodes as a
/// required identifier; it fails with `MalformedIdentifier` (the zero-length
/// sequence is accepted only in optional contexts).
pub proof fn lemma_identifier_rejection(b: Seq<u8>)
    ensures
        !identifier_wf(b) ==> decode_identifier(b) == Err::<Seq<u8>, AdapterError>(
            AdapterError::MalformedIdentifier,
        ),
{
}

/// Round trip for timestamps: every pair with a nanosecond component in
/// `[0, 1_000_000_000)` decodes to itself after encoding.
pub proof fn lemma_timestamp_round_trip(t: TimestampModel)
    ensures
        timestamp_wf(t) ==> decode_timestamp(t) == Ok::<TimestampModel, AdapterError>(t),
{
}

/// Round trip for directions: both variants survive encoding and decoding.
pub proof fn lemma_direction_round_trip(d: Direction)
    ensures
        decode_direction(encode_direction(d)) == Ok::<Direction, AdapterError>(d),
{
}

/// The optional-identifier convention never conflates absence with a present
/// value: `None` encodes to the reserved zero-length sequence, a present
/// identifier always encodes to 16 bytes, and decoding inverts both.
pub proof fn lemma_optional_identifier_distinction(o: Option<Seq<u8>>)
    ensures
        (o matches Some(b) ==> identifier_wf(b)) ==> decode_optional_identifier(
            encode_optional_identifier(o),
        ) == Ok::<Option<Seq<u8>>, AdapterError>(o),
        o is None ==> encode_optional_identifier(o).len() == 0,
        (o matches Some(b) && identifier_wf(b)) ==> encode_optional_identifier(o).len() == 16,
{
}

/// Round trip for optional labels: `None` travels as the reserved empty
/// string, a present well-formed label as itself.
pub proof fn lemma_optional_label_round_trip(o: Option<Seq<char>>)
    ensures
        (o matches Some(s) ==> label_wf(s)) ==> decode_optional_label(encode_optional_label(o))
            == Ok::<Option<Seq<char>>, AdapterError>(o),
{
}

/// Round trip for optional timestamps: absence travels as a cleared flag and
/// zeroed components, presence as a set flag and the exact components.
pub proof fn lemma_optional_timestamp_round_trip(o: Option<TimestampModel>)
    ensures
        (o matches Some(t) ==> timestamp_wf(t)) ==> decode_optional_timestamp(
            encode_optional_timestamp(o).0,
            encode_optional_timestamp(o).1,
        ) == Ok::<Option<TimestampModel>, AdapterError>(o),
{
}

// ---------------------------------------------------------------------------
// Entity laws.
// ---------------------------------------------------------------------------

/// Round trip for vertices: a well-formed vertex decodes back from its wire
/// form unchanged.
pub proof fn lemma_vertex_round_trip(v: VertexModel)
    ensures
        vertex_wf(v) ==> decode_vertex(encode_vertex(v)) == Ok::<VertexModel, AdapterError>(v),
{
}

/// Round trip for edge keys.
pub proof fn lemma_edge_key_round_trip(k: EdgeKeyModel)
    ensures
        edge_key_wf(k) ==> decode_edge_key(encode_edge_key(k)) == Ok::<EdgeKeyModel, AdapterError>(
            k,
        ),
{
}

/// Round trip for edges, key and creation time together.
pub proof fn lemma_edge_round_trip(e: EdgeModel)
    ensures
        edge_wf(e) ==> decode_edge(encode_edge(e)) == Ok::<EdgeModel, AdapterError>(e),
{
}

/// Round trip for vertex-metadata records; the value is opaque and travels
/// unchanged.
pub proof fn lemma_vertex_metadata_round_trip(m: VertexMetadataModel)
    ensures
        vertex_metadata_wf(m) ==> decode_vertex_metadata(encode_vertex_metadata(m)) == Ok::<
            VertexMetadataModel,
            AdapterError,
        >(m),
{
}

/// Round trip for edge-metadata records.
pub proof fn lemma_edge_metadata_round_trip(m: EdgeMetadataModel)
    ensures
        edge_metadata_wf(m) ==> decode_edge_metadata(encode_edge_metadata(m)) == Ok::<
            EdgeMetadataModel,
            AdapterError,
        >(m),
{
}

// ---------------------------------------------------------------------------
// Query laws.
// ---------------------------------------------------------------------------

proof fn lemma_identifier_list_round_trip(ids: Seq<Seq<u8>>)
    requires
        forall|j: int| 0 <= j < ids.len() ==> identifier_wf(#[trigger] ids[j]),
    ensures
        decode_list(ids, identifier_decoder()) == Ok::<Seq<Seq<u8>>, AdapterError>(ids),
    decreases ids.len(),
{
    if ids.len() == 0 {
        assert(ids =~= Seq::<Seq<u8>>::empty());
    } else {
        assert(identifier_decoder()(ids[0]) == decode_identifier(ids[0]));
        assert forall|j: int| 0 <= j < ids.drop_first().len() implies identifier_wf(
            #[trigger] ids.drop_first()[j],
        ) by {
            assert(ids.drop_first()[j] == ids[j + 1]);
        }
        lemma_identifier_list_round_trip(ids.drop_first());
        assert(seq![ids[0]] + ids.drop_first() =~= ids);
    }
}

proof fn lemma_edge_key_list_round_trip(ws: Seq<WireEdgeKeyModel>, keys: Seq<EdgeKeyModel>)
    requires
        ws.len() == keys.len(),
        forall|j: int| 0 <= j < keys.len() ==> #[trigger] ws[j] == encode_edge_key(keys[j]),
        forall|j: int| 0 <= j < keys.len() ==> edge_key_wf(#[trigger] keys[j]),
    ensures
        decode_list(ws, edge_key_decoder()) == Ok::<Seq<EdgeKeyModel>, AdapterError>(keys),
    decreases keys.len(),
{
    if keys.len() == 0 {
        assert(keys =~= Seq::<EdgeKeyModel>::empty());
    } else {
        assert(edge_key_decoder()(ws[0]) == decode_edge_key(ws[0]));
        lemma_edge_key_round_trip(keys[0]);
        assert forall|j: int| 0 <= j < keys.drop_first().len() implies #[trigger] ws.drop_first()[j]
            == encode_edge_key(keys.drop_first()[j]) && edge_key_wf(keys.drop_first()[j]) by {
            assert(ws.drop_first()[j] == ws[j + 1]);
            assert(keys.drop_first()[j] == keys[j + 1]);
        }
        lemma_edge_key_list_round_trip(ws.drop_first(), keys.drop_first());
        assert(seq![keys[0]] + keys.drop_first() =~= keys);
    }
}

/// Recursive round trip for vertex queries: a well-formed query tree of any
/// depth, encoded and then decoded, is reproduced exactly.
pub proof fn lemma_vertex_query_round_trip(q: VertexQueryModel)
    ensures
        vertex_query_wf(q) ==> decode_vertex_query(encode_vertex_query(q)) == Ok::<
            VertexQueryModel,
            AdapterError,
        >(q),
    decreases q,
{
    if vertex_query_wf(q) {
        match q {
            VertexQueryModel::All { start_id, limit } => {
                lemma_optional_identifier_distinction(start_id);
            },
            VertexQueryModel::Vertices { ids } => {
                lemma_identifier_list_round_trip(ids);
            },
            VertexQueryModel::Pipe { edge_query, direction, limit } => {
                lemma_edge_query_round_trip(*edge_query);
                lemma_direction_round_trip(direction);
            },
        }
    }
}

/// Recursive round trip for edge queries; the mirror of
/// `lemma_vertex_query_round_trip`.
pub proof fn lemma_edge_query_round_trip(q: EdgeQueryModel)
    ensures
        edge_query_wf(q) ==> decode_edge_query(encode_edge_query(q)) == Ok::<
            EdgeQueryModel,
            AdapterError,
        >(q),
    decreases q,
{
    if edge_query_wf(q) {
        match q {
            EdgeQueryModel::Edges { keys } => {
                let ws = encode_edge_query(q)->Edges_keys;
                assert forall|j: int| 0 <= j < keys.len() implies #[trigger] ws[j]
                    == encode_edge_key(keys[j]) by {}
                lemma_edge_key_list_round_trip(ws, keys);
            },
            EdgeQueryModel::Pipe {
                vertex_query,
                direction,
                type_filter,
                high_filter,
                low_filter,
                limit,
            } => {
                lemma_vertex_query_round_trip(*vertex_query);
                lemma_direction_round_trip(direction);
                lemma_optional_label_round_trip(type_filter);
                lemma_optional_timestamp_round_trip(high_filter);
                lemma_optional_timestamp_round_trip(low_filter);
            },
        }
    }
}

proof fn lemma_decode_list_ok_inverse<A, B>(s: Seq<A>, f: spec_fn(A) -> Result<B, AdapterError>)
    requires
        decode_list(s, f) is Ok,
    ensures
        decode_list(s, f)->Ok_0.len() == s.len(),
        forall|j: int| 0 <= j < s.len() ==> (#[trigger] f(s[j])) is Ok,
        forall|j: int| 0 <= j < s.len() ==> decode_list(s, f)->Ok_0[j] == (#[trigger] f(s[j]))->Ok_0,
    decreases s.len(),
{
    if s.len() == 0 {
    } else {
        lemma_decode_list_ok_inverse(s.drop_first(), f);
        let rest = decode_list(s.drop_first(), f)->Ok_0;
        assert forall|j: int| 0 <= j < s.len() implies (#[trigger] f(s[j])) is Ok && decode_list(
            s,
            f,
        )->Ok_0[j] == f(s[j])->Ok_0 by {
            if j > 0 {
                assert(s.drop_first()[j - 1] == s[j]);
                assert(decode_list(s, f)->Ok_0[j] == rest[j - 1]);
            }
        }
    }
}

/// Decoded vertex queries are always well-formed: every identifier the
/// decoder accepts has 16 bytes, every label passed validation, every
/// timestamp is in range, recursively. Together with the round-trip law,
/// re-encoding a decoded query therefore reproduces a decodable message.
pub proof fn lemma_decode_vertex_query_wf(w: WireVertexQueryModel)
    ensures
        decode_vertex_query(w) matches Ok(q) ==> vertex_query_wf(q),
    decreases w,
{
    match w {
        WireVertexQueryModel::All { start_id, limit } => {},
        WireVertexQueryModel::Vertices { ids } => {
            if decode_list(ids, identifier_decoder()) is Ok {
                lemma_decode_list_ok_inverse(ids, identifier_decoder());
                let out = decode_list(ids, identifier_decoder())->Ok_0;
                assert forall|j: int| 0 <= j < out.len() implies identifier_wf(
                    #[trigger] out[j],
                ) by {
                    assert(identifier_decoder()(ids[j]) == decode_identifier(ids[j]));
                }
            }
        },
        WireVertexQueryModel::Pipe { edge_query, direction, limit } => {
            lemma_decode_edge_query_wf(*edge_query);
        },
        WireVertexQueryModel::Unknown { tag } => {},
    }
}

/// Decoded edge queries are always well-formed; the mirror of
/// `lemma_decode_vertex_query_wf`.
pub proof fn lemma_decode_edge_query_wf(w: WireEdgeQueryModel)
    ensures
        decode_edge_query(w) matches Ok(q) ==> edge_query_wf(q),
    decreases w,
{
    match w {
        WireEdgeQueryModel::Edges { keys } => {
            if decode_list(keys, edge_key_decoder()) is Ok {
                lemma_decode_list_ok_inverse(keys, edge_key_decoder());
                let out = decode_list(keys, edge_key_decoder())->Ok_0;
                assert forall|j: int| 0 <= j < out.len() implies edge_key_wf(#[trigger] out[j]) by {
                    assert(edge_key_decoder()(keys[j]) == decode_edge_key(keys[j]));
                }
            }
        },
        WireEdgeQueryModel::Pipe {
            vertex_query,
            direction,
            type_filter,
            has_high_filter,
            high_filter,
            has_low_filter,
            low_filter,
            limit,
        } => {
            lemma_decode_vertex_query_wf(*vertex_query);
        },
        WireEdgeQueryModel::Unknown { tag } => {},
    }
}

/// Unknown-tag rule: a vertex-query message whose union tag falls outside
/// the known variants decodes to `UnknownQueryVariant`, whatever the tag,
/// never a default variant.
pub proof fn lemma_unknown_vertex_query_tag(tag: u16)
    ensures
        decode_vertex_query(WireVertexQueryModel::Unknown { tag }) == Err::<
            VertexQueryModel,
            AdapterError,
        >(AdapterError::UnknownQueryVariant),
{
}

/// Unknown-tag rule for edge-query messages.
pub proof fn lemma_unknown_edge_query_tag(tag: u16)
    ensures
        decode_edge_query(WireEdgeQueryModel::Unknown { tag }) == Err::<
            EdgeQueryModel,
            AdapterError,
        >(AdapterError::UnknownQueryVariant),
{
}

/// Fail-fast rule for key sequences: an `Edges` message whose first
/// malformed key sits at position `k` fails the whole decode with exactly
/// that key's error.
pub proof fn lemma_edges_fail_fast(keys: Seq<WireEdgeKeyModel>, k: int)
    ensures
        (0 <= k < keys.len() && decode_edge_key(keys[k]) is Err && (forall|j: int|
            0 <= j < k ==> #[trigger] decode_edge_key(keys[j]) is Ok)) ==> decode_edge_query(
            WireEdgeQueryModel::Edges { keys },
        ) == Err::<EdgeQueryModel, AdapterError>(decode_edge_key(keys[k])->Err_0),
{
    if 0 <= k < keys.len() && decode_edge_key(keys[k]) is Err && (forall|j: int|
        0 <= j < k ==> #[trigger] decode_edge_key(keys[j]) is Ok) {
        assert(edge_key_decoder()(keys[k]) == decode_edge_key(keys[k]));
        assert forall|j: int| 0 <= j < k implies #[trigger] edge_key_decoder()(keys[j]) is Ok by {
            assert(edge_key_decoder()(keys[j]) == decode_edge_key(keys[j]));
        }
        crate::query::lemma_decode_list_err(keys, edge_key_decoder(), k);
    }
}

/// Fail-fast rule for nested queries: a vertex `Pipe` whose nested edge
/// query fails to decode fails as a whole with that same error, before any
/// sibling field is considered.
pub proof fn lemma_vertex_pipe_propagates_nested_error(
    w: WireEdgeQueryModel,
    direction: u16,
    limit: u32,
)
    ensures
        decode_edge_query(w) matches Err(e) ==> decode_vertex_query(
            WireVertexQueryModel::Pipe { edge_query: Box::new(w), direction, limit },
        ) == Err::<VertexQueryModel, AdapterError>(e),
{
}

/// Fail-fast rule for nested queries, mirrored: an edge `Pipe` whose nested
/// vertex query fails to decode fails as a whole with that same error.
pub proof fn lemma_edge_pipe_propagates_nested_error(
    w: WireVertexQueryModel,
    direction: u16,
    type_filter: Seq<char>,
    has_high_filter: bool,
    high_filter: TimestampModel,
    has_low_filter: bool,
    low_filter: TimestampModel,
    limit: u32,
)
    ensures
        decode_vertex_query(w) matches Err(e) ==> decode_edge_query(
            WireEdgeQueryModel::Pipe {
                vertex_query: Box::new(w),
                direction,
                type_filter,
                has_high_filter,
                high_filter,
                has_low_filter,
                low_filter,
                limit,
            },
        ) == Err::<EdgeQueryModel, AdapterError>(e),
{
}

} // verus!
