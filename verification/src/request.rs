//! Wire requests: the rendered URI text of a descriptor, validated through
//! the http crate's URI grammar and carried as a parsed URI. Every request
//! this engine makes is a GET with an empty body.
//!
//! The one fact taken on trust is what `http::Uri::from_str` accepts; the
//! text handed to it is rendered by verified code, and everything said
//! about a request's content is said about that text.

use vstd::prelude::*;

use crate::codec::render_uri;
use crate::endpoint::{Data, Details, Effects, EndpointDescriptor, Offers, Operations, Payments, Transactions};
use crate::page::{Page, PageFetch};
use crate::query::empty_query;
use crate::Error;

verus! {

/// http's URI type, declared so a request can carry the parsed URI.
#[verifier::external_type_specification]
#[verifier::external_body]
pub struct ExUri(http::Uri);

/// http's URI parse error, declared so the trusted parser can return it.
#[verifier::external_type_specification]
#[verifier::external_body]
pub struct ExInvalidUri(http::uri::InvalidUri);

/// Whether http's URI grammar accepts the text.
pub uninterp spec fn uri_ok(s: Seq<char>) -> bool;

/// Relies on http::Uri::from_str: parsing is a pure function of the text
/// and succeeds exactly when the text is a URI the crate's grammar accepts.
#[verifier::external_body]
fn parse_uri(s: &str) -> (r: Result<http::Uri, http::uri::InvalidUri>)
    ensures
        r is Ok <==> uri_ok(s@),
{
    <http::Uri as core::str::FromStr>::from_str(s)
}

/// One wire request: a GET of an absolute URI with an empty body. Its
/// mathematical content is the exact URI text it was built from.
#[derive(Debug)]
pub struct WireRequest {
    uri: http::Uri,
    rendered: String,
}

impl View for WireRequest {
    type V = Seq<char>;

    closed spec fn view(&self) -> Seq<char> {
        self.rendered@
    }
}

impl WireRequest {
    /// The parsed URI the request addresses.
    pub fn uri(&self) -> &http::Uri {
        &self.uri
    }

    /// The exact URI text the request was built from.
    pub fn uri_text(&self) -> (r: &str)
        ensures
            r@ == self@,
    {
        self.rendered.as_str()
    }

    /// The request method; always a read.
    pub fn method(&self) -> (r: &'static str)
        ensures
            r@ == "GET"@,
    {
        "GET"
    }
}

/// Validates rendered URI text into a wire request. Fails with
/// `InvalidUri` exactly when the http grammar rejects the text.
fn finish_request(text: String) -> (r: Result<WireRequest, Error>)
    ensures
        r is Ok <==> uri_ok(text@),
        r matches Ok(w) ==> w@ == text@,
        r matches Err(e) ==> e == Error::InvalidUri,
{
    match parse_uri(text.as_str()) {
        Ok(uri) => Ok(WireRequest { uri, rendered: text }),
        Err(_) => Err(Error::InvalidUri),
    }
}

impl EndpointDescriptor {
    /// Turns the descriptor into a wire request against the host. Fails
    /// with `InvalidUri` exactly when the rendered text is not a URI.
    pub fn into_request(self, host: &str) -> (r: Result<WireRequest, Error>)
        ensures
            r is Ok <==> uri_ok(render_uri(host@, self@.segments, self@.query)),
            r matches Ok(w) ==> w@ == render_uri(host@, self@.segments, self@.query),
            r matches Err(e) ==> e == Error::InvalidUri,
    {
        let text = self.uri_text(host);
        finish_request(text)
    }
}

impl Details {
    /// Turns the endpoint into a wire request against the host. Fails with
    /// `InvalidUri` exactly when the rendered text is not a URI.
    pub fn into_request(self, host: &str) -> (r: Result<WireRequest, Error>)
        ensures
            r is Ok <==> uri_ok(
                render_uri(host@, seq!["accounts"@, self.account_id@], empty_query()),
            ),
            r matches Ok(w) ==> w@ == render_uri(
                host@,
                seq!["accounts"@, self.account_id@],
                empty_query(),
            ),
            r matches Err(e) ==> e == Error::InvalidUri,
    {
        let text = self.uri_text(host);
        finish_request(text)
    }
}

impl Data {
    /// Turns the endpoint into a wire request against the host. Fails with
    /// `InvalidUri` exactly when the rendered text is not a URI.
    pub fn into_request(self, host: &str) -> (r: Result<WireRequest, Error>)
        ensures
            r is Ok <==> uri_ok(
                render_uri(
                    host@,
                    seq!["accounts"@, self.account_id@, "data"@, self.key@],
                    empty_query(),
                ),
            ),
            r matches Ok(w) ==> w@ == render_uri(
                host@,
                seq!["accounts"@, self.account_id@, "data"@, self.key@],
                empty_query(),
            ),
            r matches Err(e) ==> e == Error::InvalidUri,
    {
        let text = self.uri_text(host);
        finish_request(text)
    }
}

impl Transactions {
    /// Turns the endpoint into a wire request against the host. Fails with
    /// `InvalidUri` exactly when the rendered text is not a URI.
    pub fn into_request(self, host: &str) -> (r: Result<WireRequest, Error>)
        ensures
            r is Ok <==> uri_ok(render_uri(host@, self.spec_segments(), self.query@)),
            r matches Ok(w) ==> w@ == render_uri(host@, self.spec_segments(), self.query@),
            r matches Err(e) ==> e == Error::InvalidUri,
    {
        let text = self.uri_text(host);
        finish_request(text)
    }
}

impl Effects {
    /// Turns the endpoint into a wire request against the host. Fails with
    /// `InvalidUri` exactly when the rendered text is not a URI.
    pub fn into_request(self, host: &str) -> (r: Result<WireRequest, Error>)
        ensures
            r is Ok <==> uri_ok(render_uri(host@, self.spec_segments(), self.query@)),
            r matches Ok(w) ==> w@ == render_uri(host@, self.spec_segments(), self.query@),
            r matches Err(e) ==> e == Error::InvalidUri,
    {
        let text = self.uri_text(host);
        finish_request(text)
    }
}

impl Operations {
    /// Turns the endpoint into a wire request against the host. Fails with
    /// `InvalidUri` exactly when the rendered text is not a URI.
    pub fn into_request(self, host: &str) -> (r: Result<WireRequest, Error>)
        ensures
            r is Ok <==> uri_ok(render_uri(host@, self.spec_segments(), self.query@)),
            r matches Ok(w) ==> w@ == render_uri(host@, self.spec_segments(), self.query@),
            r matches Err(e) ==> e == Error::InvalidUri,
    {
        let text = self.uri_text(host);
        finish_request(text)
    }
}

impl Payments {
    /// Turns the endpoint into a wire request against the host. Fails with
    /// `InvalidUri` exactly when the rendered text is not a URI.
    pub fn into_request(self, host: &str) -> (r: Result<WireRequest, Error>)
        ensures
            r is Ok <==> uri_ok(render_uri(host@, self.spec_segments(), self.query@)),
            r matches Ok(w) ==> w@ == render_uri(host@, self.spec_segments(), self.query@),
            r matches Err(e) ==> e == Error::InvalidUri,
    {
        let text = self.uri_text(host);
        finish_request(text)
    }
}

impl Offers {
    /// Turns the endpoint into a wire request against the host. Fails with
    /// `InvalidUri` exactly when the rendered text is not a URI.
    pub fn into_request(self, host: &str) -> (r: Result<WireRequest, Error>)
        ensures
            r is Ok <==> uri_ok(render_uri(host@, self.spec_segments(), self.query@)),
            r matches Ok(w) ==> w@ == render_uri(host@, self.spec_segments(), self.query@),
            r matches Err(e) ==> e == Error::InvalidUri,
    {
        let text = self.uri_text(host);
        finish_request(text)
    }
}

/// The transport collaborator: performs one wire request and hands back the
/// raw response body. Supplied from outside — this engine never opens
/// sockets or manages connections. A transport-level failure is reported as
/// `Transport` by convention.
pub trait Transport {
    /// Performs the request, returning the raw response body.
    fn execute(&mut self, request: &WireRequest) -> Result<Vec<u8>, Error>;
}

/// The body decoder for one record type: turns a raw response body into a
/// page of records. Supplied per resource from outside this engine; a body
/// of the wrong shape is reported as `Decode` by convention.
pub trait PageDecode<T> {
    /// Decodes one page of records from a raw response body.
    fn decode_page(&self, body: &Vec<u8>) -> Result<Page<T>, Error>;
}

/// Fetches one page at a time: encodes a descriptor, performs the request
/// through the transport, and decodes the body.
pub struct PageFetcher<Tr, De> {
    /// The transport the requests go through.
    pub transport: Tr,
    /// The decoder for the resource's pages.
    pub decoder: De,
    /// The host every request addresses.
    pub host: String,
}

impl<Tr, De> PageFetcher<Tr, De> {
    /// A fetcher over the given transport and decoder, against the host.
    pub fn new(transport: Tr, decoder: De, host: &str) -> (r: Self)
        ensures
            r.host@ == host@,
    {
        PageFetcher { transport, decoder, host: host.to_owned() }
    }
}

impl<T, Tr: Transport, De: PageDecode<T>> PageFetch<T> for PageFetcher<Tr, De> {
    /// Fetches one page for the descriptor: encode, execute, decode. Fails
    /// with `InvalidUri` when the rendered text is not a URI, and otherwise
    /// passes the transport's or decoder's answer through unchanged.
    fn fetch(&mut self, descriptor: &EndpointDescriptor) -> (r: Result<Page<T>, Error>)
        ensures
            !uri_ok(render_uri(old(self).host@, descriptor@.segments, descriptor@.query)) ==> (
            r matches Err(e) && e == Error::InvalidUri),
    {
        let text = descriptor.uri_text(self.host.as_str());
        match finish_request(text) {
            Ok(request) => {
                match self.transport.execute(&request) {
                    Ok(body) => self.decoder.decode_page(&body),
                    Err(e) => Err(e),
                }
            },
            Err(e) => Err(e),
        }
    }
}

} // verus!
