use stellar_client::{
    Amount, Asset, AssetIdentifier, Authorized, Error, Flags, IntermediateAsset, PageDecode,
    PageFetcher, Transactions, Transport, WireRequest,
};
use stellar_client::{CursorIterator, Page, PageFetch, Pager};

#[test]
fn flags_report_their_bits() {
    let flags = Flags::new(true, false);
    assert!(flags.is_auth_required());
    assert!(!flags.is_auth_revocable());
    let flags = Flags::new(false, true);
    assert!(!flags.is_auth_required());
    assert!(flags.is_auth_revocable());
}

#[test]
fn asset_exposes_its_parts() {
    let identifier = AssetIdentifier::alphanum4("USD", "GB123");
    let asset = Asset::new(identifier.clone(), Amount::new(1000000000), 91547871, Flags::new(false, true));
    assert_eq!(asset.identifier(), &identifier);
    assert_eq!(asset.asset_type(), "credit_alphanum4");
    assert_eq!(asset.code(), "USD");
    assert_eq!(asset.issuer(), "GB123");
    assert_eq!(asset.amount(), Amount::new(1000000000));
    assert_eq!(asset.num_accounts(), 91547871);
    assert!(!asset.is_auth_required());
    assert!(asset.is_auth_revocable());
    assert!(asset.flags().is_auth_revocable());
}

#[test]
fn asset_from_wire_validates() {
    let wire = IntermediateAsset {
        asset_type: "credit_alphanum4".to_string(),
        asset_code: Some("USD".to_string()),
        asset_issuer: Some("GB123".to_string()),
        amount: Amount::new(42),
        num_accounts: 7,
        flags: Flags::new(false, false),
    };
    let asset = Asset::from_wire(wire).unwrap();
    assert_eq!(asset.code(), "USD");
    assert_eq!(asset.num_accounts(), 7);

    let bad = IntermediateAsset {
        asset_type: "credit_alphanum4".to_string(),
        asset_code: None,
        asset_issuer: Some("GB123".to_string()),
        amount: Amount::new(42),
        num_accounts: 7,
        flags: Flags::new(false, false),
    };
    assert_eq!(Asset::from_wire(bad).unwrap_err(), "Missing Asset Code or Issuer.");
}

#[test]
fn authorized_effect_holds_its_fields() {
    let asset = AssetIdentifier::native();
    let effect = Authorized::new("GACCOUNT".to_string(), asset.clone());
    assert_eq!(effect.account(), "GACCOUNT");
    assert_eq!(effect.asset(), &asset);
}

/// A transport that answers every request with a fixed body, or fails.
struct CannedTransport {
    body: Option<Vec<u8>>,
    last_uri: Option<String>,
}

impl Transport for CannedTransport {
    fn execute(&mut self, request: &WireRequest) -> Result<Vec<u8>, Error> {
        self.last_uri = Some(request.uri_text().to_string());
        match &self.body {
            Some(b) => Ok(b.clone()),
            None => Err(Error::Transport),
        }
    }
}

/// A decoder that reads a body of ASCII digits as one record per byte, and
/// rejects anything else.
struct DigitDecoder;

impl PageDecode<u32> for DigitDecoder {
    fn decode_page(&self, body: &Vec<u8>) -> Result<Page<u32>, Error> {
        let mut records = Vec::new();
        for b in body {
            if !(b'0'..=b'9').contains(b) {
                return Err(Error::Decode);
            }
            records.push(u32::from(b - b'0'));
        }
        Ok(Page { records, next_cursor: None })
    }
}

// The fetcher composes encode, transport and decode; each failure keeps its
// own error, and the walk surfaces it.
#[test]
fn fetcher_composes_the_collaborators() {
    let transport = CannedTransport { body: Some(b"123".to_vec()), last_uri: None };
    let mut fetcher = PageFetcher::new(transport, DigitDecoder, "https://horizon-testnet.stellar.org");
    let descriptor = Transactions::new("abc123").to_descriptor();
    let page = fetcher.fetch(&descriptor).unwrap();
    assert_eq!(page.records, vec![1, 2, 3]);
    assert_eq!(
        fetcher.transport.last_uri.as_deref(),
        Some("https://horizon-testnet.stellar.org/accounts/abc123/transactions")
    );

    // A short page exhausts the walk after its records.
    let pager = Pager::new(200);
    let mut iter: CursorIterator<u32> = CursorIterator::new(descriptor.duplicate());
    let out = pager.paginate(&mut iter, &mut fetcher);
    assert_eq!(out.items, vec![1, 2, 3]);
    assert!(out.error.is_none());
    assert!(iter.is_exhausted());
}

#[test]
fn fetcher_reports_transport_and_decode_errors() {
    let transport = CannedTransport { body: None, last_uri: None };
    let mut fetcher = PageFetcher::new(transport, DigitDecoder, "https://horizon-testnet.stellar.org");
    let descriptor = Transactions::new("abc123").to_descriptor();
    assert_eq!(fetcher.fetch(&descriptor).unwrap_err(), Error::Transport);

    let transport = CannedTransport { body: Some(b"junk".to_vec()), last_uri: None };
    let mut fetcher = PageFetcher::new(transport, DigitDecoder, "https://horizon-testnet.stellar.org");
    assert_eq!(fetcher.fetch(&descriptor).unwrap_err(), Error::Decode);

    let transport = CannedTransport { body: Some(Vec::new()), last_uri: None };
    let mut fetcher = PageFetcher::new(transport, DigitDecoder, "https://bad host.example");
    assert_eq!(fetcher.fetch(&descriptor).unwrap_err(), Error::InvalidUri);
}
