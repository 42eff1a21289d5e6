//! Optional query parameters shared by every collection endpoint — an opaque
//! cursor, a sort direction, and a page-size limit — together with their
//! rendering to a query string and the lenient reading of one back.
//!
//! The wire order of the parameters is fixed: `cursor`, then `order`, then
//! `limit`. On the reading side a parameter whose value does not parse as its
//! expected type is treated as absent, never as an error.

use vstd::prelude::*;

use crate::text::{dec_str, decode_params_text, join_char, lookup, parse_u32, u32_to_dec, views};
use crate::text;

verus! {

/// The sort direction a collection is walked in.
#[derive(Debug, Clone, Copy, PartialEq, Eq, Structural)]
pub enum Direction {
    /// Oldest records first.
    Asc,
    /// Newest records first.
    Desc,
}

/// The wire spelling of a direction.
pub open spec fn direction_str(d: Direction) -> Seq<char> {
    match d {
        Direction::Asc => "asc"@,
        Direction::Desc => "desc"@,
    }
}

/// Reads a direction off the wire: `asc` or `desc`, anything else is nothing.
pub open spec fn parse_direction(s: Seq<char>) -> Option<Direction> {
    if s == "asc"@ {
        Some(Direction::Asc)
    } else if s == "desc"@ {
        Some(Direction::Desc)
    } else {
        None
    }
}

impl Direction {
    /// The wire spelling of the direction: `asc` or `desc`.
    pub fn as_str(&self) -> (r: &'static str)
        ensures
            r@ == direction_str(*self),
    {
        proof {
            reveal_strlit("asc");
            reveal_strlit("desc");
        }
        match self {
            Direction::Asc => "asc",
            Direction::Desc => "desc",
        }
    }
}

/// Reads a direction off the wire, leniently.
pub fn parse_direction_str(s: &str) -> (r: Option<Direction>)
    ensures
        r == parse_direction(s@),
{
    if text::str_eq(s, "asc") {
        Some(Direction::Asc)
    } else if text::str_eq(s, "desc") {
        Some(Direction::Desc)
    } else {
        None
    }
}

/// The mathematical content of a [`QuerySpec`].
pub ghost struct QuerySpecV {
    pub cursor: Option<Seq<char>>,
    pub order: Option<Direction>,
    pub limit: Option<u32>,
}

/// The optional query parameters attached to an endpoint descriptor.
/// Each builder call returns an updated value; no limit validation happens
/// here — out-of-range limits are the server's concern.
#[derive(Debug, Clone)]
pub struct QuerySpec {
    /// Opaque position token to resume from.
    pub cursor: Option<String>,
    /// Requested sort direction.
    pub order: Option<Direction>,
    /// Requested page size.
    pub limit: Option<u32>,
}

impl View for QuerySpec {
    type V = QuerySpecV;

    open spec fn view(&self) -> QuerySpecV {
        QuerySpecV {
            cursor: match self.cursor {
                Some(c) => Some(c@),
                None => None,
            },
            order: self.order,
            limit: self.limit,
        }
    }
}

/// The query with nothing set.
pub open spec fn empty_query() -> QuerySpecV {
    QuerySpecV { cursor: None, order: None, limit: None }
}

/// Whether any of the three parameters is present.
pub open spec fn spec_has_query(q: QuerySpecV) -> bool {
    q.cursor is Some || q.order is Some || q.limit is Some
}

/// The `key=value` pieces of the query string, in wire order.
pub open spec fn query_pieces(q: QuerySpecV) -> Seq<Seq<char>> {
    (match q.cursor {
        Some(c) => seq!["cursor="@ + c],
        None => Seq::empty(),
    }) + (match q.order {
        Some(d) => seq!["order="@ + direction_str(d)],
        None => Seq::empty(),
    }) + (match q.limit {
        Some(l) => seq!["limit="@ + dec_str(l as nat)],
        None => Seq::empty(),
    })
}

/// The query string: the present pieces joined with `&`.
pub open spec fn query_string(q: QuerySpecV) -> Seq<char> {
    join_char(query_pieces(q), '&')
}

/// The query read from an optional raw query string: each known key takes
/// the value of its first occurrence, and a value that does not parse is
/// treated as absent.
pub open spec fn decode_query(qs: Option<Seq<char>>) -> QuerySpecV {
    match qs {
        None => QuerySpecV { cursor: None, order: None, limit: None },
        Some(q) => {
            let ps = text::params_of(q);
            QuerySpecV {
                cursor: lookup(ps, "cursor"@),
                order: match lookup(ps, "order"@) {
                    Some(v) => parse_direction(v),
                    None => None,
                },
                limit: match lookup(ps, "limit"@) {
                    Some(v) => parse_u32(v),
                    None => None,
                },
            }
        },
    }
}

impl QuerySpec {
    /// A query with nothing set.
    pub fn new() -> (r: Self)
        ensures
            r@ == (QuerySpecV { cursor: None, order: None, limit: None }),
    {
        QuerySpec { cursor: None, order: None, limit: None }
    }

    /// The same query, resuming from the given cursor.
    pub fn with_cursor(self, cursor: &str) -> (r: Self)
        ensures
            r@ == (QuerySpecV { cursor: Some(cursor@), ..self@ }),
    {
        QuerySpec { cursor: Some(cursor.to_owned()), ..self }
    }

    /// The same query, sorted in the given direction.
    pub fn with_order(self, order: Direction) -> (r: Self)
        ensures
            r@ == (QuerySpecV { order: Some(order), ..self@ }),
    {
        QuerySpec { order: Some(order), ..self }
    }

    /// The same query, with the given page size.
    pub fn with_limit(self, limit: u32) -> (r: Self)
        ensures
            r@ == (QuerySpecV { limit: Some(limit), ..self@ }),
    {
        QuerySpec { limit: Some(limit), ..self }
    }

    /// Whether any of the three parameters is present.
    pub fn has_query(&self) -> (r: bool)
        ensures
            r == spec_has_query(self@),
    {
        self.cursor.is_some() || self.order.is_some() || self.limit.is_some()
    }

    /// Renders the present parameters as `cursor=..&order=..&limit=..`,
    /// in that fixed order, omitting the absent ones.
    pub fn render(&self) -> (r: String)
        ensures
            r@ == query_string(self@),
    {
        proof {
            reveal_strlit("&");
        }
        let mut pieces: Vec<String> = Vec::new();
        if let Some(c) = &self.cursor {
            let mut s = "cursor=".to_owned();
            s.append(c.as_str());
            pieces.push(s);
        }
        if let Some(d) = &self.order {
            let mut s = "order=".to_owned();
            s.append(d.as_str());
            pieces.push(s);
        }
        if let Some(l) = &self.limit {
            let mut s = "limit=".to_owned();
            let dec = u32_to_dec(*l);
            s.append(dec.as_str());
            pieces.push(s);
        }
        proof {
            assert(views(pieces@) =~= query_pieces(self@));
            assert(("&")@ =~= seq!['&']);
        }
        text::join_str(&pieces, '&', "&")
    }

    /// Reads the parameters back from an optional raw query string,
    /// leniently: an unknown key is ignored, a value of the wrong shape
    /// counts as absent.
    pub fn parse(qs: Option<&str>) -> (r: Self)
        ensures
            qs is None ==> r@ == decode_query(None),
            qs matches Some(s) ==> r@ == decode_query(Some(s@)),
    {
        match qs {
            None => QuerySpec::new(),
            Some(s) => {
                let params = decode_params_text(s);
                let cursor = text::lookup_param(&params, "cursor");
                let order = match text::lookup_param(&params, "order") {
                    Some(v) => parse_direction_str(v.as_str()),
                    None => None,
                };
                let limit = match text::lookup_param(&params, "limit") {
                    Some(v) => text::parse_u32_str(v.as_str()),
                    None => None,
                };
                QuerySpec { cursor, order, limit }
            },
        }
    }
}

} // verus!
