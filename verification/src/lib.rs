//! A typed client core for a cursor-paginated ledger query service.
//!
//! The crate models query descriptors for the collections of a Horizon-style
//! REST API, renders them to wire requests, parses inbound URIs back into
//! descriptors, and walks multi-page result sets with an explicit,
//! verified cursor state machine.

use vstd::prelude::*;

mod asset;
mod codec;
mod endpoint;
mod laws;
mod page;
mod query;
mod request;
mod text;

pub use asset::{
    spec_asset_code, spec_asset_issuer, spec_asset_json, spec_asset_type, spec_code, spec_issuer,
    spec_new_identifier, Amount, Asset, AssetId, AssetIdentifier, AssetIdentifierV, Authorized,
    Flags, IntermediateAsset, IntermediateAssetIdentifier,
};
pub use codec::{
    host_shape, path_string, query_of, render_uri, segments_of, split_query, valid_host, UriParts,
};
pub use laws::{
    wf_segments,
    lemma_account_roundtrip, lemma_asset_wire_roundtrip, lemma_effects_roundtrip,
    lemma_lenient_limit, lemma_native_asset_json, lemma_no_query_omitted,
    lemma_offers_roundtrip, lemma_operations_roundtrip, lemma_payments_roundtrip,
    lemma_render_parse_roundtrip, lemma_transactions_roundtrip,
};
pub use endpoint::{
    account_collection, spec_decode3, spec_match3, Data, Details, Effects, EndpointDescriptor,
    EndpointDescriptorV, Offers, Operations, Payments, Transactions,
};
pub use page::{
    advance, after_page, clamp_limit, short_page, walk, AfterQueue, AfterV, CursorIterator,
    FetchEventV, IterState, IterStateV, Page, PageFetch, PageV, Paginated, Pager,
};
pub use query::{
    decode_query, direction_str, empty_query, parse_direction, query_string, spec_has_query,
    Direction, QuerySpec, QuerySpecV,
};
pub use request::{uri_ok, PageDecode, PageFetcher, Transport, WireRequest};

verus! {

/// What can go wrong in this engine.
#[derive(Debug, Clone, Copy, PartialEq, Eq, Structural)]
pub enum Error {
    /// The constructed request text is not a valid URI.
    InvalidUri,
    /// An inbound URI's path matches no known collection template.
    InvalidPath,
    /// The transport collaborator failed; opaque to this engine.
    Transport,
    /// A response body did not match the expected schema.
    Decode,
}

} // verus!
