//! Query algebra codec: the mutually recursive vertex-query / edge-query
//! trees, including the pipe variants that embed nested queries.
//!
//! Decoding dispatches on the wire union tag and recursively decodes nested
//! queries before sibling scalar fields, so a malformed nested value surfaces
//! as exactly one error; an unrecognized tag fails with
//! `UnknownQueryVariant`, never a silent default. Encoding mirrors the
//! decoder structurally and is total. Termination follows from the finite
//! depth of each concrete message.

use vstd::prelude::*;

use crate::entity::EdgeKey;
use crate::entity::EdgeKeyModel;
use crate::entity::WireEdgeKey;
use crate::entity::WireEdgeKeyModel;
use crate::entity::decode_edge_key;
use crate::entity::encode_edge_key;
use crate::entity::from_edge_key;
use crate::entity::to_edge_key;
use crate::errors::AdapterError;
use crate::errors::res_view;
use crate::scalar::Direction;
use crate::scalar::Identifier;
use crate::scalar::Label;
use crate::scalar::Timestamp;
use crate::scalar::TimestampModel;
use crate::scalar::WireTimestamp;
use crate::scalar::decode_direction;
use crate::scalar::decode_identifier;
use crate::scalar::decode_optional_identifier;
use crate::scalar::decode_optional_label;
use crate::scalar::decode_optional_timestamp;
use crate::scalar::direction_from_wire;
use crate::scalar::direction_to_wire;
use crate::scalar::encode_direction;
use crate::scalar::encode_optional_identifier;
use crate::scalar::encode_optional_label;
use crate::scalar::encode_optional_timestamp;
use crate::scalar::identifier_from_wire;
use crate::scalar::identifier_to_wire;
use crate::scalar::optional_identifier_from_wire;
use crate::scalar::optional_identifier_to_wire;
use crate::scalar::optional_label_from_wire;
use crate::scalar::optional_label_to_wire;
use crate::scalar::optional_timestamp_from_wire;
use crate::scalar::optional_timestamp_to_wire;

verus! {

// ---------------------------------------------------------------------------
// Native query algebra.
// ---------------------------------------------------------------------------

/// A query that yields vertices. A `Pipe` chains a vertex-yielding step onto
/// a nested edge query; each pipe node exclusively owns its child, so the
/// structure is a finite tree.
#[derive(Debug, PartialEq, Eq)]
pub enum VertexQuery {
    All { start_id: Option<Identifier>, limit: u32 },
    Vertices { ids: Vec<Identifier> },
    Pipe { edge_query: Box<EdgeQuery>, direction: Direction, limit: u32 },
}

/// A query that yields edges; the mirror of [`VertexQuery`].
#[derive(Debug, PartialEq, Eq)]
pub enum EdgeQuery {
    Edges { keys: Vec<EdgeKey> },
    Pipe {
        vertex_query: Box<VertexQuery>,
        direction: Direction,
        type_filter: Option<Label>,
        high_filter: Option<Timestamp>,
        low_filter: Option<Timestamp>,
        limit: u32,
    },
}

pub enum VertexQueryModel {
    All { start_id: Option<Seq<u8>>, limit: u32 },
    Vertices { ids: Seq<Seq<u8>> },
    Pipe { edge_query: Box<EdgeQueryModel>, direction: Direction, limit: u32 },
}

pub enum EdgeQueryModel {
    Edges { keys: Seq<EdgeKeyModel> },
    Pipe {
        vertex_query: Box<VertexQueryModel>,
        direction: Direction,
        type_filter: Option<Seq<char>>,
        high_filter: Option<TimestampModel>,
        low_filter: Option<TimestampModel>,
        limit: u32,
    },
}

pub open spec fn vertex_query_view(q: VertexQuery) -> VertexQueryModel
    decreases q,
{
    match q {
        VertexQuery::All { start_id, limit } => VertexQueryModel::All {
            start_id: match start_id {
                Some(id) => Some(id@),
                None => None,
            },
            limit,
        },
        VertexQuery::Vertices { ids } => VertexQueryModel::Vertices {
            ids: ids@.map_values(|x: Identifier| x@),
        },
        VertexQuery::Pipe { edge_query, direction, limit } => VertexQueryModel::Pipe {
            edge_query: Box::new(edge_query_view(*edge_query)),
            direction,
            limit,
        },
    }
}

pub open spec fn edge_query_view(q: EdgeQuery) -> EdgeQueryModel
    decreases q,
{
    match q {
        EdgeQuery::Edges { keys } => EdgeQueryModel::Edges {
            keys: keys@.map_values(|k: EdgeKey| k@),
        },
        EdgeQuery::Pipe { vertex_query, direction, type_filter, high_filter, low_filter, limit } => {
            EdgeQueryModel::Pipe {
                vertex_query: Box::new(vertex_query_view(*vertex_query)),
                direction,
                type_filter: match type_filter {
                    Some(l) => Some(l@),
                    None => None,
                },
                high_filter: match high_filter {
                    Some(t) => Some(t@),
                    None => None,
                },
                low_filter: match low_filter {
                    Some(t) => Some(t@),
                    None => None,
                },
                limit,
            }
        },
    }
}

impl View for VertexQuery {
    type V = VertexQueryModel;

    open spec fn view(&self) -> VertexQueryModel {
        vertex_query_view(*self)
    }
}

impl View for EdgeQuery {
    type V = EdgeQueryModel;

    open spec fn view(&self) -> EdgeQueryModel {
        edge_query_view(*self)
    }
}

// ---------------------------------------------------------------------------
// Wire query messages: tagged unions whose tag may fall outside the known
// variants, which `Unknown` records together with the raw tag value.
// ---------------------------------------------------------------------------

/// A vertex-query message as it stands on the wire.
#[derive(Debug, PartialEq, Eq)]
pub enum WireVertexQuery {
    All { start_id: Vec<u8>, limit: u32 },
    Vertices { ids: Vec<Vec<u8>> },
    Pipe { edge_query: Box<WireEdgeQuery>, direction: u16, limit: u32 },
    Unknown { tag: u16 },
}

/// An edge-query message as it stands on the wire.
#[derive(Debug, PartialEq, Eq)]
pub enum WireEdgeQuery {
    Edges { keys: Vec<WireEdgeKey> },
    Pipe {
        vertex_query: Box<WireVertexQuery>,
        direction: u16,
        type_filter: String,
        has_high_filter: bool,
        high_filter: WireTimestamp,
        has_low_filter: bool,
        low_filter: WireTimestamp,
        limit: u32,
    },
    Unknown { tag: u16 },
}

pub enum WireVertexQueryModel {
    All { start_id: Seq<u8>, limit: u32 },
    Vertices { ids: Seq<Seq<u8>> },
    Pipe { edge_query: Box<WireEdgeQueryModel>, direction: u16, limit: u32 },
    Unknown { tag: u16 },
}

pub enum WireEdgeQueryModel {
    Edges { keys: Seq<WireEdgeKeyModel> },
    Pipe {
        vertex_query: Box<WireVertexQueryModel>,
        direction: u16,
        type_filter: Seq<char>,
        has_high_filter: bool,
        high_filter: TimestampModel,
        has_low_filter: bool,
        low_filter: TimestampModel,
        limit: u32,
    },
    Unknown { tag: u16 },
}

pub open spec fn wire_vertex_query_view(q: WireVertexQuery) -> WireVertexQueryModel
    decreases q,
{
    match q {
        WireVertexQuery::All { start_id, limit } => WireVertexQueryModel::All {
            start_id: start_id@,
            limit,
        },
        WireVertexQuery::Vertices { ids } => WireVertexQueryModel::Vertices {
            ids: ids@.map_values(|v: Vec<u8>| v@),
        },
        WireVertexQuery::Pipe { edge_query, direction, limit } => WireVertexQueryModel::Pipe {
            edge_query: Box::new(wire_edge_query_view(*edge_query)),
            direction,
            limit,
        },
        WireVertexQuery::Unknown { tag } => WireVertexQueryModel::Unknown { tag },
    }
}

pub open spec fn wire_edge_query_view(q: WireEdgeQuery) -> WireEdgeQueryModel
    decreases q,
{
    match q {
        WireEdgeQuery::Edges { keys } => WireEdgeQueryModel::Edges {
            keys: keys@.map_values(|k: WireEdgeKey| k@),
        },
        WireEdgeQuery::Pipe {
            vertex_query,
            direction,
            type_filter,
            has_high_filter,
            high_filter,
            has_low_filter,
            low_filter,
            limit,
        } => WireEdgeQueryModel::Pipe {
            vertex_query: Box::new(wire_vertex_query_view(*vertex_query)),
            direction,
            type_filter: type_filter@,
            has_high_filter,
            high_filter: high_filter@,
            has_low_filter,
            low_filter: low_filter@,
            limit,
        },
        WireEdgeQuery::Unknown { tag } => WireEdgeQueryModel::Unknown { tag },
    }
}

impl View for WireVertexQuery {
    type V = WireVertexQueryModel;

    open spec fn view(&self) -> WireVertexQueryModel {
        wire_vertex_query_view(*self)
    }
}

impl View for WireEdgeQuery {
    type V = WireEdgeQueryModel;

    open spec fn view(&self) -> WireEdgeQueryModel {
        wire_edge_query_view(*self)
    }
}

// ---------------------------------------------------------------------------
// Fail-fast decoding of a sequence of elements.
// ---------------------------------------------------------------------------

/// Decodes a sequence entry by entry, stopping at the first error.
pub open spec fn decode_list<A, B>(s: Seq<A>, f: spec_fn(A) -> Result<B, AdapterError>) -> Result<
    Seq<B>,
    AdapterError,
>
    decreases s.len(),
{
    if s.len() == 0 {
        Ok(Seq::empty())
    } else {
        match f(s[0]) {
            Err(e) => Err(e),
            Ok(b) => match decode_list(s.drop_first(), f) {
                Err(e) => Err(e),
                Ok(rest) => Ok(seq![b] + rest),
            },
        }
    }
}

/// The element conversion used for the id sequence of a `Vertices` query.
pub open spec fn identifier_decoder() -> spec_fn(Seq<u8>) -> Result<Seq<u8>, AdapterError> {
    |b: Seq<u8>| decode_identifier(b)
}

/// The element conversion used for the key sequence of an `Edges` query.
pub open spec fn edge_key_decoder() -> spec_fn(WireEdgeKeyModel) -> Result<
    EdgeKeyModel,
    AdapterError,
> {
    |k: WireEdgeKeyModel| decode_edge_key(k)
}

/// When every entry of a sequence decodes, the whole sequence decodes to the
/// entry-wise results.
pub proof fn lemma_decode_list_ok<A, B>(s: Seq<A>, f: spec_fn(A) -> Result<B, AdapterError>)
    requires
        forall|j: int| 0 <= j < s.len() ==> (#[trigger] f(s[j])) is Ok,
    ensures
        decode_list(s, f) matches Ok(out) && out.len() == s.len() && (forall|j: int|
            0 <= j < s.len() ==> out[j] == (#[trigger] f(s[j]))->Ok_0),
    decreases s.len(),
{
    if s.len() == 0 {
    } else {
        assert(f(s[0]) is Ok);
        assert forall|j: int| 0 <= j < s.drop_first().len() implies (#[trigger] f(
            s.drop_first()[j],
        )) is Ok by {
            assert(s.drop_first()[j] == s[j + 1]);
        }
        lemma_decode_list_ok(s.drop_first(), f);
        let rest = decode_list(s.drop_first(), f)->Ok_0;
        let out = seq![f(s[0])->Ok_0] + rest;
        assert(decode_list(s, f) == Ok::<Seq<B>, AdapterError>(out));
        assert forall|j: int| 0 <= j < s.len() implies out[j] == (#[trigger] f(s[j]))->Ok_0 by {
            if j == 0 {
            } else {
                assert(out[j] == rest[j - 1]);
                assert(s.drop_first()[j - 1] == s[j]);
            }
        }
    }
}

/// A sequence with a malformed entry fails to decode with exactly that
/// entry's error, provided every earlier entry decodes.
pub proof fn lemma_decode_list_err<A, B>(
    s: Seq<A>,
    f: spec_fn(A) -> Result<B, AdapterError>,
    k: int,
)
    requires
        0 <= k < s.len(),
        f(s[k]) is Err,
        forall|j: int| 0 <= j < k ==> (#[trigger] f(s[j])) is Ok,
    ensures
        decode_list(s, f) == Err::<Seq<B>, AdapterError>(f(s[k])->Err_0),
    decreases s.len(),
{
    if k == 0 {
    } else {
        assert(f(s[0]) is Ok);
        assert(s.drop_first()[k - 1] == s[k]);
        assert forall|j: int| 0 <= j < k - 1 implies (#[trigger] f(s.drop_first()[j])) is Ok by {
            assert(s.drop_first()[j] == s[j + 1]);
        }
        lemma_decode_list_err(s.drop_first(), f, k - 1);
    }
}

// ---------------------------------------------------------------------------
// The query conversions, as mathematical functions of the wire messages.
// ---------------------------------------------------------------------------

pub open spec fn decode_vertex_query(q: WireVertexQueryModel) -> Result<
    VertexQueryModel,
    AdapterError,
>
    decreases q,
{
    match q {
        WireVertexQueryModel::All { start_id, limit } => match decode_optional_identifier(
            start_id,
        ) {
            Err(e) => Err(e),
            Ok(s) => Ok(VertexQueryModel::All { start_id: s, limit }),
        },
        WireVertexQueryModel::Vertices { ids } => match decode_list(ids, identifier_decoder()) {
            Err(e) => Err(e),
            Ok(ds) => Ok(VertexQueryModel::Vertices { ids: ds }),
        },
        WireVertexQueryModel::Pipe { edge_query, direction, limit } => match decode_edge_query(
            *edge_query,
        ) {
            Err(e) => Err(e),
            Ok(nested) => match decode_direction(direction) {
                Err(e) => Err(e),
                Ok(d) => Ok(VertexQueryModel::Pipe {
                    edge_query: Box::new(nested),
                    direction: d,
                    limit,
                }),
            },
        },
        WireVertexQueryModel::Unknown { tag } => Err(AdapterError::UnknownQueryVariant),
    }
}

pub open spec fn decode_edge_query(q: WireEdgeQueryModel) -> Result<EdgeQueryModel, AdapterError>
    decreases q,
{
    match q {
        WireEdgeQueryModel::Edges { keys } => match decode_list(keys, edge_key_decoder()) {
            Err(e) => Err(e),
            Ok(ks) => Ok(EdgeQueryModel::Edges { keys: ks }),
        },
        WireEdgeQueryModel::Pipe {
            vertex_query,
            direction,
            type_filter,
            has_high_filter,
            high_filter,
            has_low_filter,
            low_filter,
            limit,
        } => match decode_vertex_query(*vertex_query) {
            Err(e) => Err(e),
            Ok(nested) => match decode_direction(direction) {
                Err(e) => Err(e),
                Ok(d) => match decode_optional_label(type_filter) {
                    Err(e) => Err(e),
                    Ok(tf) => match decode_optional_timestamp(has_high_filter, high_filter) {
                        Err(e) => Err(e),
                        Ok(hf) => match decode_optional_timestamp(has_low_filter, low_filter) {
                            Err(e) => Err(e),
                            Ok(lf) => Ok(EdgeQueryModel::Pipe {
                                vertex_query: Box::new(nested),
                                direction: d,
                                type_filter: tf,
                                high_filter: hf,
                                low_filter: lf,
                                limit,
                            }),
                        },
                    },
                },
            },
        },
        WireEdgeQueryModel::Unknown { tag } => Err(AdapterError::UnknownQueryVariant),
    }
}

pub open spec fn encode_vertex_query(q: VertexQueryModel) -> WireVertexQueryModel
    decreases q,
{
    match q {
        VertexQueryModel::All { start_id, limit } => WireVertexQueryModel::All {
            start_id: encode_optional_identifier(start_id),
            limit,
        },
        VertexQueryModel::Vertices { ids } => WireVertexQueryModel::Vertices { ids },
        VertexQueryModel::Pipe { edge_query, direction, limit } => WireVertexQueryModel::Pipe {
            edge_query: Box::new(encode_edge_query(*edge_query)),
            direction: encode_direction(direction),
            limit,
        },
    }
}

pub open spec fn encode_edge_query(q: EdgeQueryModel) -> WireEdgeQueryModel
    decreases q,
{
    match q {
        EdgeQueryModel::Edges { keys } => WireEdgeQueryModel::Edges {
            keys: keys.map_values(|k: EdgeKeyModel| encode_edge_key(k)),
        },
        EdgeQueryModel::Pipe {
            vertex_query,
            direction,
            type_filter,
            high_filter,
            low_filter,
            limit,
        } => WireEdgeQueryModel::Pipe {
            vertex_query: Box::new(encode_vertex_query(*vertex_query)),
            direction: encode_direction(direction),
            type_filter: encode_optional_label(type_filter),
            has_high_filter: encode_optional_timestamp(high_filter).0,
            high_filter: encode_optional_timestamp(high_filter).1,
            has_low_filter: encode_optional_timestamp(low_filter).0,
            low_filter: encode_optional_timestamp(low_filter).1,
            limit,
        },
    }
}

// ---------------------------------------------------------------------------
// Well-formedness of the native query algebra.
// ---------------------------------------------------------------------------

pub open spec fn vertex_query_wf(q: VertexQueryModel) -> bool
    decreases q,
{
    match q {
        VertexQueryModel::All { start_id, limit } => match start_id {
            Some(b) => crate::scalar::identifier_wf(b),
            None => true,
        },
        VertexQueryModel::Vertices { ids } => forall|j: int|
            0 <= j < ids.len() ==> crate::scalar::identifier_wf(#[trigger] ids[j]),
        VertexQueryModel::Pipe { edge_query, direction, limit } => edge_query_wf(*edge_query),
    }
}

pub open spec fn edge_query_wf(q: EdgeQueryModel) -> bool
    decreases q,
{
    match q {
        EdgeQueryModel::Edges { keys } => forall|j: int|
            0 <= j < keys.len() ==> crate::entity::edge_key_wf(#[trigger] keys[j]),
        EdgeQueryModel::Pipe {
            vertex_query,
            direction,
            type_filter,
            high_filter,
            low_filter,
            limit,
        } => vertex_query_wf(*vertex_query) && (type_filter matches Some(t)
            ==> crate::scalar::label_wf(t)) && (high_filter matches Some(t)
            ==> crate::scalar::timestamp_wf(t)) && (low_filter matches Some(t)
            ==> crate::scalar::timestamp_wf(t)),
    }
}

// ---------------------------------------------------------------------------
// Executable conversions.
// ---------------------------------------------------------------------------

/// Reads a vertex query from its wire message, dispatching on the union tag
/// and recursively decoding nested queries before sibling scalar fields;
/// fails with the first sub-error, with `UnknownQueryVariant` on an
/// unrecognized tag, and never panics.
pub fn to_vertex_query(reader: &WireVertexQuery) -> (r: Result<VertexQuery, AdapterError>)
    ensures
        res_view(r) == decode_vertex_query(reader@),
    decreases *reader,
{
    match reader {
        WireVertexQuery::All { start_id, limit } => {
            match optional_identifier_from_wire(start_id) {
                Ok(s) => Ok(VertexQuery::All { start_id: s, limit: *limit }),
                Err(e) => Err(e),
            }
        },
        WireVertexQuery::Vertices { ids } => {
            let ghost ids_m = reader@->Vertices_ids;
            proof {
                assert forall|j: int| 0 <= j < ids@.len() implies ids_m[j] == ids@[j]@ by {}
            }
            let mut out: Vec<Identifier> = Vec::new();
            let mut i: usize = 0;
            while i < ids.len()
                invariant
                    i <= ids.len(),
                    out@.len() == i,
                    reader@ == (WireVertexQueryModel::Vertices { ids: ids_m }),
                    ids_m.len() == ids@.len(),
                    forall|j: int| 0 <= j < ids@.len() ==> ids_m[j] == #[trigger] ids@[j]@,
                    forall|j: int| 0 <= j < i ==> #[trigger] identifier_decoder()(ids_m[j]) is Ok,
                    forall|j: int|
                        0 <= j < i ==> out@[j]@ == (#[trigger] identifier_decoder()(
                            ids_m[j],
                        ))->Ok_0,
                decreases ids.len() - i,
            {
                match identifier_from_wire(&ids[i]) {
                    Ok(id) => {
                        proof {
                            assert(identifier_decoder()(ids_m[i as int]) == decode_identifier(
                                ids_m[i as int],
                            ));
                        }
                        out.push(id);
                    },
                    Err(e) => {
                        proof {
                            assert(identifier_decoder()(ids_m[i as int]) == decode_identifier(
                                ids_m[i as int],
                            ));
                            lemma_decode_list_err(ids_m, identifier_decoder(), i as int);
                            assert(decode_vertex_query(reader@) == Err::<
                                VertexQueryModel,
                                AdapterError,
                            >(e));
                        }
                        return Err(e);
                    },
                }
                i = i + 1;
            }
            proof {
                lemma_decode_list_ok(ids_m, identifier_decoder());
                let ds = decode_list(ids_m, identifier_decoder())->Ok_0;
                let out_m = vertex_query_view(VertexQuery::Vertices { ids: out })->Vertices_ids;
                assert forall|j: int| 0 <= j < out@.len() implies out_m[j] == ds[j] by {
                    assert(out_m[j] == out@[j]@);
                    assert(out@[j]@ == identifier_decoder()(ids_m[j])->Ok_0);
                    assert(ds[j] == identifier_decoder()(ids_m[j])->Ok_0);
                }
                assert(out_m =~= ds);
                assert(decode_vertex_query(reader@) == Ok::<VertexQueryModel, AdapterError>(
                    VertexQueryModel::Vertices { ids: ds },
                ));
            }
            Ok(VertexQuery::Vertices { ids: out })
        },
        WireVertexQuery::Pipe { edge_query, direction, limit } => {
            let nested = match to_edge_query(edge_query) {
                Ok(n) => n,
                Err(e) => return Err(e),
            };
            let d = match direction_from_wire(*direction) {
                Ok(d) => d,
                Err(e) => return Err(e),
            };
            Ok(VertexQuery::Pipe { edge_query: Box::new(nested), direction: d, limit: *limit })
        },
        WireVertexQuery::Unknown { .. } => Err(AdapterError::UnknownQueryVariant),
    }
}

/// Reads an edge query from its wire message; the mirror of
/// `to_vertex_query`, with the same fail-fast and unknown-tag behaviour.
pub fn to_edge_query(reader: &WireEdgeQuery) -> (r: Result<EdgeQuery, AdapterError>)
    ensures
        res_view(r) == decode_edge_query(reader@),
    decreases *reader,
{
    match reader {
        WireEdgeQuery::Edges { keys } => {
            let ghost keys_m = reader@->Edges_keys;
            proof {
                assert forall|j: int| 0 <= j < keys@.len() implies keys_m[j] == keys@[j]@ by {}
            }
            let mut out: Vec<EdgeKey> = Vec::new();
            let mut i: usize = 0;
            while i < keys.len()
                invariant
                    i <= keys.len(),
                    out@.len() == i,
                    reader@ == (WireEdgeQueryModel::Edges { keys: keys_m }),
                    keys_m.len() == keys@.len(),
                    forall|j: int| 0 <= j < keys@.len() ==> keys_m[j] == #[trigger] keys@[j]@,
                    forall|j: int| 0 <= j < i ==> #[trigger] edge_key_decoder()(keys_m[j]) is Ok,
                    forall|j: int|
                        0 <= j < i ==> out@[j]@ == (#[trigger] edge_key_decoder()(keys_m[j]))->Ok_0,
                decreases keys.len() - i,
            {
                match to_edge_key(&keys[i]) {
                    Ok(k) => {
                        proof {
                            assert(edge_key_decoder()(keys_m[i as int]) == decode_edge_key(
                                keys_m[i as int],
                            ));
                        }
                        out.push(k);
                    },
                    Err(e) => {
                        proof {
                            assert(edge_key_decoder()(keys_m[i as int]) == decode_edge_key(
                                keys_m[i as int],
                            ));
                            lemma_decode_list_err(keys_m, edge_key_decoder(), i as int);
                            assert(decode_edge_query(reader@) == Err::<EdgeQueryModel, AdapterError>(
                                e,
                            ));
                        }
                        return Err(e);
                    },
                }
                i = i + 1;
            }
            proof {
                lemma_decode_list_ok(keys_m, edge_key_decoder());
                let ks = decode_list(keys_m, edge_key_decoder())->Ok_0;
                let out_m = edge_query_view(EdgeQuery::Edges { keys: out })->Edges_keys;
                assert forall|j: int| 0 <= j < out@.len() implies out_m[j] == ks[j] by {
                    assert(out_m[j] == out@[j]@);
                    assert(out@[j]@ == edge_key_decoder()(keys_m[j])->Ok_0);
                    assert(ks[j] == edge_key_decoder()(keys_m[j])->Ok_0);
                }
                assert(out_m =~= ks);
                assert(decode_edge_query(reader@) == Ok::<EdgeQueryModel, AdapterError>(
                    EdgeQueryModel::Edges { keys: ks },
                ));
            }
            Ok(EdgeQuery::Edges { keys: out })
        },
        WireEdgeQuery::Pipe {
            vertex_query,
            direction,
            type_filter,
            has_high_filter,
            high_filter,
            has_low_filter,
            low_filter,
            limit,
        } => {
            let nested = match to_vertex_query(vertex_query) {
                Ok(n) => n,
                Err(e) => return Err(e),
            };
            let d = match direction_from_wire(*direction) {
                Ok(d) => d,
                Err(e) => return Err(e),
            };
            let tf = match optional_label_from_wire(type_filter) {
                Ok(tf) => tf,
                Err(e) => return Err(e),
            };
            let hf = match optional_timestamp_from_wire(*has_high_filter, high_filter) {
                Ok(hf) => hf,
                Err(e) => return Err(e),
            };
            let lf = match optional_timestamp_from_wire(*has_low_filter, low_filter) {
                Ok(lf) => lf,
                Err(e) => return Err(e),
            };
            Ok(
                EdgeQuery::Pipe {
                    vertex_query: Box::new(nested),
                    direction: d,
                    type_filter: tf,
                    high_filter: hf,
                    low_filter: lf,
                    limit: *limit,
                },
            )
        },
        WireEdgeQuery::Unknown { .. } => Err(AdapterError::UnknownQueryVariant),
    }
}

/// Writes a vertex query into a fresh wire message, mirroring the decoder:
/// the tag first, then the fields in decode order, recursing into nested
/// queries; total.
pub fn from_vertex_query(query: &VertexQuery) -> (r: WireVertexQuery)
    ensures
        r@ == encode_vertex_query(query@),
    decreases *query,
{
    match query {
        VertexQuery::All { start_id, limit } => {
            WireVertexQuery::All { start_id: optional_identifier_to_wire(start_id), limit: *limit }
        },
        VertexQuery::Vertices { ids } => {
            let mut out: Vec<Vec<u8>> = Vec::new();
            let mut i: usize = 0;
            while i < ids.len()
                invariant
                    i <= ids.len(),
                    out@.len() == i,
                    forall|j: int| 0 <= j < i ==> out@[j]@ == ids@[j]@,
                decreases ids.len() - i,
            {
                out.push(identifier_to_wire(&ids[i]));
                i = i + 1;
            }
            proof {
                assert(out@.map_values(|v: Vec<u8>| v@) =~= ids@.map_values(|x: Identifier| x@));
            }
            WireVertexQuery::Vertices { ids: out }
        },
        VertexQuery::Pipe { edge_query, direction, limit } => {
            let nested = from_edge_query(edge_query);
            WireVertexQuery::Pipe {
                edge_query: Box::new(nested),
                direction: direction_to_wire(*direction),
                limit: *limit,
            }
        },
    }
}

/// Writes an edge query into a fresh wire message; the mirror of
/// `from_vertex_query`; total.
pub fn from_edge_query(query: &EdgeQuery) -> (r: WireEdgeQuery)
    ensures
        r@ == encode_edge_query(query@),
    decreases *query,
{
    match query {
        EdgeQuery::Edges { keys } => {
            let mut out: Vec<WireEdgeKey> = Vec::new();
            let mut i: usize = 0;
            while i < keys.len()
                invariant
                    i <= keys.len(),
                    out@.len() == i,
                    forall|j: int| 0 <= j < i ==> out@[j]@ == encode_edge_key(keys@[j]@),
                decreases keys.len() - i,
            {
                let mut b = WireEdgeKey {
                    outbound_id: Vec::new(),
                    t: String::new(),
                    inbound_id: Vec::new(),
                };
                from_edge_key(&keys[i], &mut b);
                out.push(b);
                i = i + 1;
            }
            proof {
                assert(out@.map_values(|k: WireEdgeKey| k@) =~= keys@.map_values(
                    |k: EdgeKey| k@,
                ).map_values(|k: EdgeKeyModel| encode_edge_key(k)));
            }
            WireEdgeQuery::Edges { keys: out }
        },
        EdgeQuery::Pipe { vertex_query, direction, type_filter, high_filter, low_filter, limit } => {
            let nested = from_vertex_query(vertex_query);
            let (has_high, high) = optional_timestamp_to_wire(high_filter);
            let (has_low, low) = optional_timestamp_to_wire(low_filter);
            WireEdgeQuery::Pipe {
                vertex_query: Box::new(nested),
                direction: direction_to_wire(*direction),
                type_filter: optional_label_to_wire(type_filter),
                has_high_filter: has_high,
                high_filter: high,
                has_low_filter: has_low,
                low_filter: low,
                limit: *limit,
            }
        },
    }
}

} // verus!
