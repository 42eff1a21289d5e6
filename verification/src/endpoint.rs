//! Typed descriptors for the account collections of the query service.
//!
//! Each descriptor names one queryable collection by its path segments and
//! carries an optional [`QuerySpec`]. A descriptor renders to URI text in
//! one fixed shape, and an inbound URI parses back into the descriptor whose
//! collection template its path matches.

use vstd::prelude::*;

use crate::codec::{parse_uri_text, query_of, render_uri, render_uri_str, segments_of, UriParts};
use crate::query::{empty_query, QuerySpec, QuerySpecV};
use crate::text::{opt_view, views};
use crate::text;
use crate::Error;

verus! {

/// The mathematical content of an [`EndpointDescriptor`].
pub ghost struct EndpointDescriptorV {
    pub segments: Seq<Seq<char>>,
    pub query: QuerySpecV,
}

/// One queryable collection: its path segments and its query parameters.
/// This is the shape the pagination engine works on; the typed endpoint
/// structs below each convert into it.
#[derive(Debug)]
pub struct EndpointDescriptor {
    /// The path segments identifying the collection.
    pub segments: Vec<String>,
    /// The optional query parameters.
    pub query: QuerySpec,
}

impl View for EndpointDescriptor {
    type V = EndpointDescriptorV;

    open spec fn view(&self) -> EndpointDescriptorV {
        EndpointDescriptorV { segments: views(self.segments@), query: self.query@ }
    }
}

impl EndpointDescriptor {
    /// A descriptor for the given segments and query.
    pub fn new(segments: Vec<String>, query: QuerySpec) -> (r: Self)
        ensures
            r@ == (EndpointDescriptorV { segments: views(segments@), query: query@ }),
    {
        EndpointDescriptor { segments, query }
    }

    /// The same descriptor, resuming from the given cursor.
    pub fn with_cursor(self, cursor: &str) -> (r: Self)
        ensures
            r@.segments == self@.segments,
            r@.query == (QuerySpecV { cursor: Some(cursor@), ..self@.query }),
    {
        EndpointDescriptor { segments: self.segments, query: self.query.with_cursor(cursor) }
    }

    /// The same descriptor, with the given page size.
    pub fn with_limit(self, limit: u32) -> (r: Self)
        ensures
            r@.segments == self@.segments,
            r@.query == (QuerySpecV { limit: Some(limit), ..self@.query }),
    {
        EndpointDescriptor { segments: self.segments, query: self.query.with_limit(limit) }
    }

    /// The page size this descriptor asks for, if any.
    pub fn requested_limit(&self) -> (r: Option<u32>)
        ensures
            r == self@.query.limit,
    {
        self.query.limit
    }

    /// An owned copy of the descriptor.
    pub fn duplicate(&self) -> (r: Self)
        ensures
            r@ == self@,
    {
        let mut segments: Vec<String> = Vec::new();
        let mut i: usize = 0;
        while i < self.segments.len()
            invariant
                i <= self.segments.len(),
                views(segments@) == views(self.segments@).take(i as int),
            decreases self.segments.len() - i,
        {
            segments.push(self.segments[i].clone());
            proof {
                let vs = views(self.segments@);
                assert(vs.take(i + 1) =~= vs.take(i as int).push(vs[i as int]));
                assert(views(segments@) =~= vs.take(i as int).push(vs[i as int]));
            }
            i = i + 1;
        }
        proof {
            assert(views(self.segments@).take(self.segments@.len() as int) =~= views(
                self.segments@,
            ));
        }
        let query = QuerySpec {
            cursor: match &self.query.cursor {
                Some(c) => Some(c.clone()),
                None => None,
            },
            order: self.query.order,
            limit: self.query.limit,
        };
        EndpointDescriptor { segments, query }
    }

    /// The URI text for this descriptor on the given host.
    pub fn uri_text(&self, host: &str) -> (r: String)
        ensures
            r@ == render_uri(host@, self@.segments, self@.query),
    {
        render_uri_str(host, &self.segments, &self.query)
    }
}

/// The path segments of an account collection: `accounts/{id}/{collection}`.
pub open spec fn account_collection(id: Seq<char>, coll: Seq<char>) -> Seq<Seq<char>> {
    seq!["accounts"@, id, coll]
}

/// The account id in a three-segment path `{head}/{id}/{tail}`, when the
/// path has that shape.
pub open spec fn spec_match3(segs: Seq<Seq<char>>, head: Seq<char>, tail: Seq<char>) -> Option<
    Seq<char>,
> {
    if segs.len() == 3 && segs[0] == head && segs[2] == tail {
        Some(segs[1])
    } else {
        None
    }
}

/// What URI text decodes to for the collection `{head}/{id}/{tail}`: the id
/// and the query when the path matches, nothing otherwise.
pub open spec fn spec_decode3(s: Seq<char>, head: Seq<char>, tail: Seq<char>) -> Option<
    (Seq<char>, QuerySpecV),
> {
    match spec_match3(segments_of(s), head, tail) {
        Some(id) => Some((id, query_of(s))),
        None => None,
    }
}

/// The segments `["accounts", id, coll]`, as owned strings.
fn account_segments(account_id: &str, coll: &str) -> (r: Vec<String>)
    ensures
        views(r@) == account_collection(account_id@, coll@),
        r@.len() == 3,
        r@[1]@ == account_id@,
        r@[0]@ == "accounts"@,
        r@[2]@ == coll@,
{
    let mut v: Vec<String> = Vec::new();
    v.push("accounts".to_owned());
    v.push(account_id.to_owned());
    v.push(coll.to_owned());
    proof {
        assert(views(v@) =~= account_collection(account_id@, coll@));
    }
    v
}

/// Matches a parsed URI against the template `{head}/{id}/{tail}`.
fn match3(parts: &UriParts, head: &str, tail: &str) -> (r: Option<String>)
    ensures
        opt_view(r) == spec_match3(views(parts.segments@), head@, tail@),
{
    if parts.segments.len() == 3 && text::str_eq(parts.segments[0].as_str(), head) && text::str_eq(
        parts.segments[2].as_str(),
        tail,
    ) {
        Some(parts.segments[1].clone())
    } else {
        None
    }
}

/// The account details endpoint: information on one specific account.
#[derive(Debug)]
pub struct Details {
    /// The account the details are asked for.
    pub account_id: String,
}

impl Details {
    /// A details endpoint for the given account.
    pub fn new(account_id: &str) -> (r: Self)
        ensures
            r.account_id@ == account_id@,
    {
        Details { account_id: account_id.to_owned() }
    }

    /// The URI text for this endpoint on the given host.
    pub fn uri_text(&self, host: &str) -> (r: String)
        ensures
            r@ == render_uri(host@, seq!["accounts"@, self.account_id@], empty_query()),
    {
        let mut v: Vec<String> = Vec::new();
        v.push("accounts".to_owned());
        v.push(self.account_id.as_str().to_owned());
        proof {
            assert(views(v@) =~= seq!["accounts"@, self.account_id@]);
        }
        let q = QuerySpec::new();
        render_uri_str(host, &v, &q)
    }
}

/// The account data endpoint: one value of an account's key/value store.
#[derive(Debug)]
pub struct Data {
    /// The account the datum belongs to.
    pub account_id: String,
    /// The key the datum is stored under.
    pub key: String,
}

impl Data {
    /// A data endpoint for the given account and key.
    pub fn new(account_id: &str, key: &str) -> (r: Self)
        ensures
            r.account_id@ == account_id@,
            r.key@ == key@,
    {
        Data { account_id: account_id.to_owned(), key: key.to_owned() }
    }

    /// The URI text for this endpoint on the given host.
    pub fn uri_text(&self, host: &str) -> (r: String)
        ensures
            r@ == render_uri(
                host@,
                seq!["accounts"@, self.account_id@, "data"@, self.key@],
                empty_query(),
            ),
    {
        let mut v: Vec<String> = Vec::new();
        v.push("accounts".to_owned());
        v.push(self.account_id.as_str().to_owned());
        v.push("data".to_owned());
        v.push(self.key.as_str().to_owned());
        proof {
            assert(views(v@) =~= seq!["accounts"@, self.account_id@, "data"@, self.key@]);
        }
        let q = QuerySpec::new();
        render_uri_str(host, &v, &q)
    }
}

/// The transactions that have affected one account.
#[derive(Debug)]
pub struct Transactions {
    /// The account the records belong to.
    pub account_id: String,
    /// The optional query parameters.
    pub query: QuerySpec,
}

impl Transactions {
    /// An endpoint for the given account, with no parameters set.
    pub fn new(account_id: &str) -> (r: Self)
        ensures
            r.account_id@ == account_id@,
            r.query@ == empty_query(),
    {
        Transactions { account_id: account_id.to_owned(), query: QuerySpec::new() }
    }

    /// The same endpoint, resuming from the given cursor.
    pub fn with_cursor(self, cursor: &str) -> (r: Self)
        ensures
            r.account_id@ == self.account_id@,
            r.query@ == (QuerySpecV { cursor: Some(cursor@), ..self.query@ }),
    {
        Transactions { account_id: self.account_id, query: self.query.with_cursor(cursor) }
    }

    /// The same endpoint, sorted in the given direction.
    pub fn with_order(self, order: crate::Direction) -> (r: Self)
        ensures
            r.account_id@ == self.account_id@,
            r.query@ == (QuerySpecV { order: Some(order), ..self.query@ }),
    {
        Transactions { account_id: self.account_id, query: self.query.with_order(order) }
    }

    /// The same endpoint, with the given page size.
    pub fn with_limit(self, limit: u32) -> (r: Self)
        ensures
            r.account_id@ == self.account_id@,
            r.query@ == (QuerySpecV { limit: Some(limit), ..self.query@ }),
    {
        Transactions { account_id: self.account_id, query: self.query.with_limit(limit) }
    }

    /// Whether any query parameter is set.
    pub fn has_query(&self) -> (r: bool)
        ensures
            r == crate::query::spec_has_query(self.query@),
    {
        self.query.has_query()
    }

    /// The collection segments of this endpoint.
    pub open spec fn spec_segments(&self) -> Seq<Seq<char>> {
        account_collection(self.account_id@, "transactions"@)
    }

    /// The descriptor the pagination engine walks with.
    pub fn to_descriptor(&self) -> (r: EndpointDescriptor)
        ensures
            r@.segments == self.spec_segments(),
            r@.query == self.query@,
    {
        let segments = account_segments(self.account_id.as_str(), "transactions");
        let query = QuerySpec {
            cursor: match &self.query.cursor {
                Some(c) => Some(c.clone()),
                None => None,
            },
            order: self.query.order,
            limit: self.query.limit,
        };
        EndpointDescriptor { segments, query }
    }

    /// The URI text for this endpoint on the given host.
    pub fn uri_text(&self, host: &str) -> (r: String)
        ensures
            r@ == render_uri(host@, self.spec_segments(), self.query@),
    {
        let segments = account_segments(self.account_id.as_str(), "transactions");
        render_uri_str(host, &segments, &self.query)
    }

    /// Parses URI text back into this endpoint. Fails exactly when the
    /// URI's path is not `accounts/{id}/transactions`; query parameters are
    /// read leniently.
    pub fn from_uri_str(s: &str) -> (r: Result<Self, Error>)
        ensures
            match spec_decode3(s@, "accounts"@, "transactions"@) {
                Some(p) => r matches Ok(ep) && ep.account_id@ == p.0 && ep.query@ == p.1,
                None => r matches Err(e) && e == Error::InvalidPath,
            },
    {
        let parts = parse_uri_text(s);
        match match3(&parts, "accounts", "transactions") {
            Some(account_id) => Ok(Transactions { account_id, query: parts.query }),
            None => Err(Error::InvalidPath),
        }
    }
}

/// The effects that have changed one account.
#[derive(Debug)]
pub struct Effects {
    /// The account the records belong to.
    pub account_id: String,
    /// The optional query parameters.
    pub query: QuerySpec,
}

impl Effects {
    /// An endpoint for the given account, with no parameters set.
    pub fn new(account_id: &str) -> (r: Self)
        ensures
            r.account_id@ == account_id@,
            r.query@ == empty_query(),
    {
        Effects { account_id: account_id.to_owned(), query: QuerySpec::new() }
    }

    /// The same endpoint, resuming from the given cursor.
    pub fn with_cursor(self, cursor: &str) -> (r: Self)
        ensures
            r.account_id@ == self.account_id@,
            r.query@ == (QuerySpecV { cursor: Some(cursor@), ..self.query@ }),
    {
        Effects { account_id: self.account_id, query: self.query.with_cursor(cursor) }
    }

    /// The same endpoint, sorted in the given direction.
    pub fn with_order(self, order: crate::Direction) -> (r: Self)
        ensures
            r.account_id@ == self.account_id@,
            r.query@ == (QuerySpecV { order: Some(order), ..self.query@ }),
    {
        Effects { account_id: self.account_id, query: self.query.with_order(order) }
    }

    /// The same endpoint, with the given page size.
    pub fn with_limit(self, limit: u32) -> (r: Self)
        ensures
            r.account_id@ == self.account_id@,
            r.query@ == (QuerySpecV { limit: Some(limit), ..self.query@ }),
    {
        Effects { account_id: self.account_id, query: self.query.with_limit(limit) }
    }

    /// Whether any query parameter is set.
    pub fn has_query(&self) -> (r: bool)
        ensures
            r == crate::query::spec_has_query(self.query@),
    {
        self.query.has_query()
    }

    /// The collection segments of this endpoint.
    pub open spec fn spec_segments(&self) -> Seq<Seq<char>> {
        account_collection(self.account_id@, "effects"@)
    }

    /// The descriptor the pagination engine walks with.
    pub fn to_descriptor(&self) -> (r: EndpointDescriptor)
        ensures
            r@.segments == self.spec_segments(),
            r@.query == self.query@,
    {
        let segments = account_segments(self.account_id.as_str(), "effects");
        let query = QuerySpec {
            cursor: match &self.query.cursor {
                Some(c) => Some(c.clone()),
                None => None,
            },
            order: self.query.order,
            limit: self.query.limit,
        };
        EndpointDescriptor { segments, query }
    }

    /// The URI text for this endpoint on the given host.
    pub fn uri_text(&self, host: &str) -> (r: String)
        ensures
            r@ == render_uri(host@, self.spec_segments(), self.query@),
    {
        let segments = account_segments(self.account_id.as_str(), "effects");
        render_uri_str(host, &segments, &self.query)
    }

    /// Parses URI text back into this endpoint. Fails exactly when the
    /// URI's path is not `accounts/{id}/effects`; query parameters are
    /// read leniently.
    pub fn from_uri_str(s: &str) -> (r: Result<Self, Error>)
        ensures
            match spec_decode3(s@, "accounts"@, "effects"@) {
                Some(p) => r matches Ok(ep) && ep.account_id@ == p.0 && ep.query@ == p.1,
                None => r matches Err(e) && e == Error::InvalidPath,
            },
    {
        let parts = parse_uri_text(s);
        match match3(&parts, "accounts", "effects") {
            Some(account_id) => Ok(Effects { account_id, query: parts.query }),
            None => Err(Error::InvalidPath),
        }
    }
}

/// The operations recorded for one account.
#[derive(Debug)]
pub struct Operations {
    /// The account the records belong to.
    pub account_id: String,
    /// The optional query parameters.
    pub query: QuerySpec,
}

impl Operations {
    /// An endpoint for the given account, with no parameters set.
    pub fn new(account_id: &str) -> (r: Self)
        ensures
            r.account_id@ == account_id@,
            r.query@ == empty_query(),
    {
        Operations { account_id: account_id.to_owned(), query: QuerySpec::new() }
    }

    /// The same endpoint, resuming from the given cursor.
    pub fn with_cursor(self, cursor: &str) -> (r: Self)
        ensures
            r.account_id@ == self.account_id@,
            r.query@ == (QuerySpecV { cursor: Some(cursor@), ..self.query@ }),
    {
        Operations { account_id: self.account_id, query: self.query.with_cursor(cursor) }
    }

    /// The same endpoint, sorted in the given direction.
    pub fn with_order(self, order: crate::Direction) -> (r: Self)
        ensures
            r.account_id@ == self.account_id@,
            r.query@ == (QuerySpecV { order: Some(order), ..self.query@ }),
    {
        Operations { account_id: self.account_id, query: self.query.with_order(order) }
    }

    /// The same endpoint, with the given page size.
    pub fn with_limit(self, limit: u32) -> (r: Self)
        ensures
            r.account_id@ == self.account_id@,
            r.query@ == (QuerySpecV { limit: Some(limit), ..self.query@ }),
    {
        Operations { account_id: self.account_id, query: self.query.with_limit(limit) }
    }

    /// Whether any query parameter is set.
    pub fn has_query(&self) -> (r: bool)
        ensures
            r == crate::query::spec_has_query(self.query@),
    {
        self.query.has_query()
    }

    /// The collection segments of this endpoint.
    pub open spec fn spec_segments(&self) -> Seq<Seq<char>> {
        account_collection(self.account_id@, "operations"@)
    }

    /// The descriptor the pagination engine walks with.
    pub fn to_descriptor(&self) -> (r: EndpointDescriptor)
        ensures
            r@.segments == self.spec_segments(),
            r@.query == self.query@,
    {
        let segments = account_segments(self.account_id.as_str(), "operations");
        let query = QuerySpec {
            cursor: match &self.query.cursor {
                Some(c) => Some(c.clone()),
                None => None,
            },
            order: self.query.order,
            limit: self.query.limit,
        };
        EndpointDescriptor { segments, query }
    }

    /// The URI text for this endpoint on the given host.
    pub fn uri_text(&self, host: &str) -> (r: String)
        ensures
            r@ == render_uri(host@, self.spec_segments(), self.query@),
    {
        let segments = account_segments(self.account_id.as_str(), "operations");
        render_uri_str(host, &segments, &self.query)
    }

    /// Parses URI text back into this endpoint. Fails exactly when the
    /// URI's path is not `accounts/{id}/operations`; query parameters are
    /// read leniently.
    pub fn from_uri_str(s: &str) -> (r: Result<Self, Error>)
        ensures
            match spec_decode3(s@, "accounts"@, "operations"@) {
                Some(p) => r matches Ok(ep) && ep.account_id@ == p.0 && ep.query@ == p.1,
                None => r matches Err(e) && e == Error::InvalidPath,
            },
    {
        let parts = parse_uri_text(s);
        match match3(&parts, "accounts", "operations") {
            Some(account_id) => Ok(Operations { account_id, query: parts.query }),
            None => Err(Error::InvalidPath),
        }
    }
}

/// The payment operations an account sent or received.
#[derive(Debug)]
pub struct Payments {
    /// The account the records belong to.
    pub account_id: String,
    /// The optional query parameters.
    pub query: QuerySpec,
}

impl Payments {
    /// An endpoint for the given account, with no parameters set.
    pub fn new(account_id: &str) -> (r: Self)
        ensures
            r.account_id@ == account_id@,
            r.query@ == empty_query(),
    {
        Payments { account_id: account_id.to_owned(), query: QuerySpec::new() }
    }

    /// The same endpoint, resuming from the given cursor.
    pub fn with_cursor(self, cursor: &str) -> (r: Self)
        ensures
            r.account_id@ == self.account_id@,
            r.query@ == (QuerySpecV { cursor: Some(cursor@), ..self.query@ }),
    {
        Payments { account_id: self.account_id, query: self.query.with_cursor(cursor) }
    }

    /// The same endpoint, sorted in the given direction.
    pub fn with_order(self, order: crate::Direction) -> (r: Self)
        ensures
            r.account_id@ == self.account_id@,
            r.query@ == (QuerySpecV { order: Some(order), ..self.query@ }),
    {
        Payments { account_id: self.account_id, query: self.query.with_order(order) }
    }

    /// The same endpoint, with the given page size.
    pub fn with_limit(self, limit: u32) -> (r: Self)
        ensures
            r.account_id@ == self.account_id@,
            r.query@ == (QuerySpecV { limit: Some(limit), ..self.query@ }),
    {
        Payments { account_id: self.account_id, query: self.query.with_limit(limit) }
    }

    /// Whether any query parameter is set.
    pub fn has_query(&self) -> (r: bool)
        ensures
            r == crate::query::spec_has_query(self.query@),
    {
        self.query.has_query()
    }

    /// The collection segments of this endpoint.
    pub open spec fn spec_segments(&self) -> Seq<Seq<char>> {
        account_collection(self.account_id@, "payments"@)
    }

    /// The descriptor the pagination engine walks with.
    pub fn to_descriptor(&self) -> (r: EndpointDescriptor)
        ensures
            r@.segments == self.spec_segments(),
            r@.query == self.query@,
    {
        let segments = account_segments(self.account_id.as_str(), "payments");
        let query = QuerySpec {
            cursor: match &self.query.cursor {
                Some(c) => Some(c.clone()),
                None => None,
            },
            order: self.query.order,
            limit: self.query.limit,
        };
        EndpointDescriptor { segments, query }
    }

    /// The URI text for this endpoint on the given host.
    pub fn uri_text(&self, host: &str) -> (r: String)
        ensures
            r@ == render_uri(host@, self.spec_segments(), self.query@),
    {
        let segments = account_segments(self.account_id.as_str(), "payments");
        render_uri_str(host, &segments, &self.query)
    }

    /// Parses URI text back into this endpoint. Fails exactly when the
    /// URI's path is not `accounts/{id}/payments`; query parameters are
    /// read leniently.
    pub fn from_uri_str(s: &str) -> (r: Result<Self, Error>)
        ensures
            match spec_decode3(s@, "accounts"@, "payments"@) {
                Some(p) => r matches Ok(ep) && ep.account_id@ == p.0 && ep.query@ == p.1,
                None => r matches Err(e) && e == Error::InvalidPath,
            },
    {
        let parts = parse_uri_text(s);
        match match3(&parts, "accounts", "payments") {
            Some(account_id) => Ok(Payments { account_id, query: parts.query }),
            None => Err(Error::InvalidPath),
        }
    }
}

/// The offers one account makes.
#[derive(Debug)]
pub struct Offers {
    /// The account the records belong to.
    pub account_id: String,
    /// The optional query parameters.
    pub query: QuerySpec,
}

impl Offers {
    /// An endpoint for the given account, with no parameters set.
    pub fn new(account_id: &str) -> (r: Self)
        ensures
            r.account_id@ == account_id@,
            r.query@ == empty_query(),
    {
        Offers { account_id: account_id.to_owned(), query: QuerySpec::new() }
    }

    /// The same endpoint, resuming from the given cursor.
    pub fn with_cursor(self, cursor: &str) -> (r: Self)
        ensures
            r.account_id@ == self.account_id@,
            r.query@ == (QuerySpecV { cursor: Some(cursor@), ..self.query@ }),
    {
        Offers { account_id: self.account_id, query: self.query.with_cursor(cursor) }
    }

    /// The same endpoint, sorted in the given direction.
    pub fn with_order(self, order: crate::Direction) -> (r: Self)
        ensures
            r.account_id@ == self.account_id@,
            r.query@ == (QuerySpecV { order: Some(order), ..self.query@ }),
    {
        Offers { account_id: self.account_id, query: self.query.with_order(order) }
    }

    /// The same endpoint, with the given page size.
    pub fn with_limit(self, limit: u32) -> (r: Self)
        ensures
            r.account_id@ == self.account_id@,
            r.query@ == (QuerySpecV { limit: Some(limit), ..self.query@ }),
    {
        Offers { account_id: self.account_id, query: self.query.with_limit(limit) }
    }

    /// Whether any query parameter is set.
    pub fn has_query(&self) -> (r: bool)
        ensures
            r == crate::query::spec_has_query(self.query@),
    {
        self.query.has_query()
    }

    /// The collection segments of this endpoint.
    pub open spec fn spec_segments(&self) -> Seq<Seq<char>> {
        account_collection(self.account_id@, "offers"@)
    }

    /// The descriptor the pagination engine walks with.
    pub fn to_descriptor(&self) -> (r: EndpointDescriptor)
        ensures
            r@.segments == self.spec_segments(),
            r@.query == self.query@,
    {
        let segments = account_segments(self.account_id.as_str(), "offers");
        let query = QuerySpec {
            cursor: match &self.query.cursor {
                Some(c) => Some(c.clone()),
                None => None,
            },
            order: self.query.order,
            limit: self.query.limit,
        };
        EndpointDescriptor { segments, query }
    }

    /// The URI text for this endpoint on the given host.
    pub fn uri_text(&self, host: &str) -> (r: String)
        ensures
            r@ == render_uri(host@, self.spec_segments(), self.query@),
    {
        let segments = account_segments(self.account_id.as_str(), "offers");
        render_uri_str(host, &segments, &self.query)
    }

    /// Parses URI text back into this endpoint. Fails exactly when the
    /// URI's path is not `accounts/{id}/offers`; query parameters are
    /// read leniently.
    pub fn from_uri_str(s: &str) -> (r: Result<Self, Error>)
        ensures
            match spec_decode3(s@, "accounts"@, "offers"@) {
                Some(p) => r matches Ok(ep) && ep.account_id@ == p.0 && ep.query@ == p.1,
                None => r matches Err(e) && e == Error::InvalidPath,
            },
    {
        let parts = parse_uri_text(s);
        match match3(&parts, "accounts", "offers") {
            Some(account_id) => Ok(Offers { account_id, query: parts.query }),
            None => Err(Error::InvalidPath),
        }
    }
}


} // verus!
