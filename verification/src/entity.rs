//! Entity codec: vertices, edge keys, edges and metadata records, built on
//! the scalar codec.
//!
//! Every decode composes the scalar conversions of its fields in wire order
//! and fails with the first sub-error encountered; no partial entity is ever
//! returned. Every encode writes the fields in the same order and is total.

use vstd::prelude::*;

use crate::errors::AdapterError;
use crate::errors::res_view;
use crate::scalar::Identifier;
use crate::scalar::Label;
use crate::scalar::Timestamp;
use crate::scalar::TimestampModel;
use crate::scalar::WireTimestamp;
use crate::scalar::decode_identifier;
use crate::scalar::decode_label;
use crate::scalar::decode_timestamp;
use crate::scalar::identifier_from_wire;
use crate::scalar::identifier_to_wire;
use crate::scalar::label_from_wire;
use crate::scalar::label_to_wire;
use crate::scalar::timestamp_from_wire;
use crate::scalar::timestamp_to_wire;

verus! {

// ---------------------------------------------------------------------------
// Native entities.
// ---------------------------------------------------------------------------

/// A vertex: its identity and its type label.
#[derive(Clone, Debug, PartialEq, Eq)]
pub struct Vertex {
    pub id: Identifier,
    pub t: Label,
}

pub struct VertexModel {
    pub id: Seq<u8>,
    pub t: Seq<char>,
}

impl View for Vertex {
    type V = VertexModel;

    open spec fn view(&self) -> VertexModel {
        VertexModel { id: self.id@, t: self.t@ }
    }
}

/// An edge's identity: outbound endpoint, type label, inbound endpoint.
#[derive(Clone, Debug, PartialEq, Eq)]
pub struct EdgeKey {
    pub outbound_id: Identifier,
    pub t: Label,
    pub inbound_id: Identifier,
}

pub struct EdgeKeyModel {
    pub outbound_id: Seq<u8>,
    pub t: Seq<char>,
    pub inbound_id: Seq<u8>,
}

impl View for EdgeKey {
    type V = EdgeKeyModel;

    open spec fn view(&self) -> EdgeKeyModel {
        EdgeKeyModel { outbound_id: self.outbound_id@, t: self.t@, inbound_id: self.inbound_id@ }
    }
}

/// An edge: its key and its creation time.
#[derive(Clone, Debug, PartialEq, Eq)]
pub struct Edge {
    pub key: EdgeKey,
    pub created_at: Timestamp,
}

pub struct EdgeModel {
    pub key: EdgeKeyModel,
    pub created_at: TimestampModel,
}

impl View for Edge {
    type V = EdgeModel;

    open spec fn view(&self) -> EdgeModel {
        EdgeModel { key: self.key@, created_at: self.created_at@ }
    }
}

/// A key/value annotation on a vertex. The value is an opaque text payload:
/// the codec validates it only structurally, as a string.
#[derive(Clone, Debug, PartialEq, Eq)]
pub struct VertexMetadata {
    pub id: Identifier,
    pub value: String,
}

pub struct VertexMetadataModel {
    pub id: Seq<u8>,
    pub value: Seq<char>,
}

impl View for VertexMetadata {
    type V = VertexMetadataModel;

    open spec fn view(&self) -> VertexMetadataModel {
        VertexMetadataModel { id: self.id@, value: self.value@ }
    }
}

/// A key/value annotation on an edge.
#[derive(Clone, Debug, PartialEq, Eq)]
pub struct EdgeMetadata {
    pub key: EdgeKey,
    pub value: String,
}

pub struct EdgeMetadataModel {
    pub key: EdgeKeyModel,
    pub value: Seq<char>,
}

impl View for EdgeMetadata {
    type V = EdgeMetadataModel;

    open spec fn view(&self) -> EdgeMetadataModel {
        EdgeMetadataModel { key: self.key@, value: self.value@ }
    }
}

// ---------------------------------------------------------------------------
// Wire entities: the logical fields of the corresponding wire messages.
// ---------------------------------------------------------------------------

/// A vertex message as it stands on the wire.
#[derive(Clone, Debug, PartialEq, Eq, Default)]
pub struct WireVertex {
    pub id: Vec<u8>,
    pub t: String,
}

pub struct WireVertexModel {
    pub id: Seq<u8>,
    pub t: Seq<char>,
}

impl View for WireVertex {
    type V = WireVertexModel;

    open spec fn view(&self) -> WireVertexModel {
        WireVertexModel { id: self.id@, t: self.t@ }
    }
}

/// An edge-key message as it stands on the wire.
#[derive(Clone, Debug, PartialEq, Eq, Default)]
pub struct WireEdgeKey {
    pub outbound_id: Vec<u8>,
    pub t: String,
    pub inbound_id: Vec<u8>,
}

pub struct WireEdgeKeyModel {
    pub outbound_id: Seq<u8>,
    pub t: Seq<char>,
    pub inbound_id: Seq<u8>,
}

impl View for WireEdgeKey {
    type V = WireEdgeKeyModel;

    open spec fn view(&self) -> WireEdgeKeyModel {
        WireEdgeKeyModel {
            outbound_id: self.outbound_id@,
            t: self.t@,
            inbound_id: self.inbound_id@,
        }
    }
}

/// An edge message as it stands on the wire.
#[derive(Clone, Debug, PartialEq, Eq)]
pub struct WireEdge {
    pub key: WireEdgeKey,
    pub created_at: WireTimestamp,
}

pub struct WireEdgeModel {
    pub key: WireEdgeKeyModel,
    pub created_at: TimestampModel,
}

impl View for WireEdge {
    type V = WireEdgeModel;

    open spec fn view(&self) -> WireEdgeModel {
        WireEdgeModel { key: self.key@, created_at: self.created_at@ }
    }
}

/// A vertex-metadata message as it stands on the wire.
#[derive(Clone, Debug, PartialEq, Eq, Default)]
pub struct WireVertexMetadata {
    pub id: Vec<u8>,
    pub value: String,
}

pub struct WireVertexMetadataModel {
    pub id: Seq<u8>,
    pub value: Seq<char>,
}

impl View for WireVertexMetadata {
    type V = WireVertexMetadataModel;

    open spec fn view(&self) -> WireVertexMetadataModel {
        WireVertexMetadataModel { id: self.id@, value: self.value@ }
    }
}

/// An edge-metadata message as it stands on the wire.
#[derive(Clone, Debug, PartialEq, Eq, Default)]
pub struct WireEdgeMetadata {
    pub key: WireEdgeKey,
    pub value: String,
}

pub struct WireEdgeMetadataModel {
    pub key: WireEdgeKeyModel,
    pub value: Seq<char>,
}

impl View for WireEdgeMetadata {
    type V = WireEdgeMetadataModel;

    open spec fn view(&self) -> WireEdgeMetadataModel {
        WireEdgeMetadataModel { key: self.key@, value: self.value@ }
    }
}

// ---------------------------------------------------------------------------
// Well-formedness of the native entities, as seen through their views.
// ---------------------------------------------------------------------------

pub open spec fn vertex_wf(v: VertexModel) -> bool {
    crate::scalar::identifier_wf(v.id) && crate::scalar::label_wf(v.t)
}

pub open spec fn edge_key_wf(k: EdgeKeyModel) -> bool {
    crate::scalar::identifier_wf(k.outbound_id) && crate::scalar::label_wf(k.t)
        && crate::scalar::identifier_wf(k.inbound_id)
}

pub open spec fn edge_wf(e: EdgeModel) -> bool {
    edge_key_wf(e.key) && crate::scalar::timestamp_wf(e.created_at)
}

pub open spec fn vertex_metadata_wf(m: VertexMetadataModel) -> bool {
    crate::scalar::identifier_wf(m.id)
}

pub open spec fn edge_metadata_wf(m: EdgeMetadataModel) -> bool {
    edge_key_wf(m.key)
}

// ---------------------------------------------------------------------------
// The entity conversions, as mathematical functions of the wire fields.
// ---------------------------------------------------------------------------

pub open spec fn decode_vertex(w: WireVertexModel) -> Result<VertexModel, AdapterError> {
    match decode_identifier(w.id) {
        Err(e) => Err(e),
        Ok(id) => match decode_label(w.t) {
            Err(e) => Err(e),
            Ok(t) => Ok(VertexModel { id, t }),
        },
    }
}

pub open spec fn encode_vertex(v: VertexModel) -> WireVertexModel {
    WireVertexModel { id: v.id, t: v.t }
}

pub open spec fn decode_edge_key(w: WireEdgeKeyModel) -> Result<EdgeKeyModel, AdapterError> {
    match decode_identifier(w.outbound_id) {
        Err(e) => Err(e),
        Ok(outbound_id) => match decode_label(w.t) {
            Err(e) => Err(e),
            Ok(t) => match decode_identifier(w.inbound_id) {
                Err(e) => Err(e),
                Ok(inbound_id) => Ok(EdgeKeyModel { outbound_id, t, inbound_id }),
            },
        },
    }
}

pub open spec fn encode_edge_key(k: EdgeKeyModel) -> WireEdgeKeyModel {
    WireEdgeKeyModel { outbound_id: k.outbound_id, t: k.t, inbound_id: k.inbound_id }
}

pub open spec fn decode_edge(w: WireEdgeModel) -> Result<EdgeModel, AdapterError> {
    match decode_edge_key(w.key) {
        Err(e) => Err(e),
        Ok(key) => match decode_timestamp(w.created_at) {
            Err(e) => Err(e),
            Ok(created_at) => Ok(EdgeModel { key, created_at }),
        },
    }
}

pub open spec fn encode_edge(e: EdgeModel) -> WireEdgeModel {
    WireEdgeModel { key: encode_edge_key(e.key), created_at: e.created_at }
}

pub open spec fn decode_vertex_metadata(w: WireVertexMetadataModel) -> Result<
    VertexMetadataModel,
    AdapterError,
> {
    match decode_identifier(w.id) {
        Err(e) => Err(e),
        Ok(id) => Ok(VertexMetadataModel { id, value: w.value }),
    }
}

pub open spec fn encode_vertex_metadata(m: VertexMetadataModel) -> WireVertexMetadataModel {
    WireVertexMetadataModel { id: m.id, value: m.value }
}

pub open spec fn decode_edge_metadata(w: WireEdgeMetadataModel) -> Result<
    EdgeMetadataModel,
    AdapterError,
> {
    match decode_edge_key(w.key) {
        Err(e) => Err(e),
        Ok(key) => Ok(EdgeMetadataModel { key, value: w.value }),
    }
}

pub open spec fn encode_edge_metadata(m: EdgeMetadataModel) -> WireEdgeMetadataModel {
    WireEdgeMetadataModel { key: encode_edge_key(m.key), value: m.value }
}

// ---------------------------------------------------------------------------
// Executable conversions.
// ---------------------------------------------------------------------------

/// Writes a vertex into the provided wire builder in place; total, with no
/// observable effect besides the builder's new contents.
pub fn from_vertex(vertex: &Vertex, builder: &mut WireVertex)
    ensures
        final(builder)@ == encode_vertex(vertex@),
{
    builder.id = identifier_to_wire(&vertex.id);
    builder.t = label_to_wire(&vertex.t);
}

/// Reads a vertex from its wire message; fails with the first sub-error
/// (`MalformedIdentifier` or `InvalidLabel`) and never returns a partial
/// vertex.
pub fn to_vertex(reader: &WireVertex) -> (r: Result<Vertex, AdapterError>)
    ensures
        res_view(r) == decode_vertex(reader@),
{
    let id = match identifier_from_wire(&reader.id) {
        Ok(id) => id,
        Err(e) => return Err(e),
    };
    let t = match label_from_wire(&reader.t) {
        Ok(t) => t,
        Err(e) => return Err(e),
    };
    Ok(Vertex { id, t })
}

/// Writes an edge key into the provided wire builder in place; total.
pub fn from_edge_key(key: &EdgeKey, builder: &mut WireEdgeKey)
    ensures
        final(builder)@ == encode_edge_key(key@),
{
    builder.outbound_id = identifier_to_wire(&key.outbound_id);
    builder.t = label_to_wire(&key.t);
    builder.inbound_id = identifier_to_wire(&key.inbound_id);
}

/// Reads an edge key from its wire message, converting its two identifiers
/// and its label in wire order; fails with the first sub-error.
pub fn to_edge_key(reader: &WireEdgeKey) -> (r: Result<EdgeKey, AdapterError>)
    ensures
        res_view(r) == decode_edge_key(reader@),
{
    let outbound_id = match identifier_from_wire(&reader.outbound_id) {
        Ok(id) => id,
        Err(e) => return Err(e),
    };
    let t = match label_from_wire(&reader.t) {
        Ok(t) => t,
        Err(e) => return Err(e),
    };
    let inbound_id = match identifier_from_wire(&reader.inbound_id) {
        Ok(id) => id,
        Err(e) => return Err(e),
    };
    Ok(EdgeKey { outbound_id, t, inbound_id })
}

/// Writes an edge into the provided wire builder in place; total.
pub fn from_edge(edge: &Edge, builder: &mut WireEdge)
    ensures
        final(builder)@ == encode_edge(edge@),
{
    from_edge_key(&edge.key, &mut builder.key);
    builder.created_at = timestamp_to_wire(&edge.created_at);
}

/// Reads an edge from its wire message: its key, then its creation time;
/// fails with the first sub-error.
pub fn to_edge(reader: &WireEdge) -> (r: Result<Edge, AdapterError>)
    ensures
        res_view(r) == decode_edge(reader@),
{
    let key = match to_edge_key(&reader.key) {
        Ok(k) => k,
        Err(e) => return Err(e),
    };
    let created_at = match timestamp_from_wire(reader.created_at.seconds, reader.created_at.nanos) {
        Ok(t) => t,
        Err(e) => return Err(e),
    };
    Ok(Edge { key, created_at })
}

/// Writes a vertex-metadata record into the provided wire builder in place;
/// total. The value travels as opaque text.
pub fn from_vertex_metadata(metadata: &VertexMetadata, builder: &mut WireVertexMetadata)
    ensures
        final(builder)@ == encode_vertex_metadata(metadata@),
{
    builder.id = identifier_to_wire(&metadata.id);
    builder.value = metadata.value.clone();
}

/// Reads a vertex-metadata record from its wire message; fails only on a
/// malformed identifier, the value being opaque to the codec.
pub fn to_vertex_metadata(reader: &WireVertexMetadata) -> (r: Result<VertexMetadata, AdapterError>)
    ensures
        res_view(r) == decode_vertex_metadata(reader@),
{
    let id = match identifier_from_wire(&reader.id) {
        Ok(id) => id,
        Err(e) => return Err(e),
    };
    Ok(VertexMetadata { id, value: reader.value.clone() })
}

/// Writes an edge-metadata record into the provided wire builder in place;
/// total.
pub fn from_edge_metadata(metadata: &EdgeMetadata, builder: &mut WireEdgeMetadata)
    ensures
        final(builder)@ == encode_edge_metadata(metadata@),
{
    from_edge_key(&metadata.key, &mut builder.key);
    builder.value = metadata.value.clone();
}

/// Reads an edge-metadata record from its wire message; fails with the first
/// sub-error of its key conversion.
pub fn to_edge_metadata(reader: &WireEdgeMetadata) -> (r: Result<EdgeMetadata, AdapterError>)
    ensures
        res_view(r) == decode_edge_metadata(reader@),
{
    let key = match to_edge_key(&reader.key) {
        Ok(k) => k,
        Err(e) => return Err(e),
    };
    Ok(EdgeMetadata { key, value: reader.value.clone() })
}

} // verus!
