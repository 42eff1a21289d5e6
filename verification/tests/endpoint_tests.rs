use stellar_client::{Data, Details, Direction, Effects, Offers, Operations, Payments, Transactions};

#[test]
fn it_can_make_an_account_uri() {
    let details = Details::new("abc123");
    let request = details
        .into_request("https://horizon-testnet.stellar.org")
        .unwrap();
    assert_eq!(request.uri().host().unwrap(), "horizon-testnet.stellar.org");
    assert_eq!(request.uri().path(), "/accounts/abc123");
}

#[test]
fn it_can_make_an_account_data_uri() {
    let data = Data::new("abc123", "key");
    let request = data
        .into_request("https://horizon-testnet.stellar.org")
        .unwrap();
    assert_eq!(request.uri().host().unwrap(), "horizon-testnet.stellar.org");
    assert_eq!(request.uri().path(), "/accounts/abc123/data/key");
}

#[test]
fn account_it_leaves_off_the_params_if_not_specified() {
    let transactions = Transactions::new("abc123");
    let req = transactions
        .into_request("https://horizon-testnet.stellar.org")
        .unwrap();
    assert_eq!(req.uri().path(), "/accounts/abc123/transactions");
    assert_eq!(req.uri().query(), None);
}

#[test]
fn it_can_make_a_transactions_uri() {
    let transactions = Transactions::new("abc123");
    let request = transactions
        .into_request("https://horizon-testnet.stellar.org")
        .unwrap();
    assert_eq!(request.uri().host().unwrap(), "horizon-testnet.stellar.org");
    assert_eq!(request.uri().path(), "/accounts/abc123/transactions");
}

#[test]
fn account_it_puts_the_query_params_on_the_uri() {
    let ep = Transactions::new("abc123")
        .with_cursor("CURSOR")
        .with_order(Direction::Desc)
        .with_limit(123);
    let req = ep.into_request("https://www.google.com").unwrap();
    assert_eq!(req.uri().path(), "/accounts/abc123/transactions");
    assert_eq!(req.uri().query(), Some("cursor=CURSOR&order=desc&limit=123"));
}

#[test]
fn account_it_parses_from_a_uri() {
    let uri = "/accounts/abc123/transactions?cursor=CURSOR&order=desc&limit=123";
    let ep = Transactions::from_uri_str(uri).unwrap();
    assert_eq!(ep.account_id, "abc123");
    assert_eq!(ep.query.limit, Some(123));
    assert_eq!(ep.query.cursor, Some("CURSOR".to_string()));
    assert_eq!(ep.query.order, Some(Direction::Desc));
}

#[test]
fn effects_it_leaves_off_the_params_if_not_specified() {
    let effects = Effects::new("abc123");
    let req = effects
        .into_request("https://horizon-testnet.stellar.org")
        .unwrap();
    assert_eq!(req.uri().path(), "/accounts/abc123/effects");
    assert_eq!(req.uri().query(), None);
}

#[test]
fn it_can_make_a_actions_uri() {
    let effects = Effects::new("abc123");
    let request = effects
        .into_request("https://horizon-testnet.stellar.org")
        .unwrap();
    assert_eq!(request.uri().host().unwrap(), "horizon-testnet.stellar.org");
    assert_eq!(request.uri().path(), "/accounts/abc123/effects");
}

#[test]
fn effects_it_puts_the_query_params_on_the_uri() {
    let ep = Effects::new("abc123")
        .with_cursor("CURSOR")
        .with_order(Direction::Asc)
        .with_limit(123);
    let req = ep
        .into_request("https://horizon-testnet.stellar.org")
        .unwrap();
    assert_eq!(req.uri().path(), "/accounts/abc123/effects");
    assert_eq!(req.uri().query(), Some("cursor=CURSOR&order=asc&limit=123"));
}

#[test]
fn effects_it_parses_from_a_uri() {
    let uri = "/accounts/abc123/effects?cursor=CURSOR&order=desc&limit=123";
    let ep = Effects::from_uri_str(uri).unwrap();
    assert_eq!(ep.account_id, "abc123");
    assert_eq!(ep.query.limit, Some(123));
    assert_eq!(ep.query.cursor, Some("CURSOR".to_string()));
    assert_eq!(ep.query.order, Some(Direction::Desc));
}

#[test]
fn operations_it_leaves_off_the_params_if_not_specified() {
    let ep = Operations::new("abc123");
    let req = ep.into_request("https://www.google.com").unwrap();
    assert_eq!(req.uri().path(), "/accounts/abc123/operations");
    assert_eq!(req.uri().query(), None);
}

// The wire order of the query parameters is fixed as cursor, order, limit
// for every collection.
#[test]
fn operations_it_puts_the_query_params_on_the_uri() {
    let ep = Operations::new("abc123")
        .with_cursor("CURSOR")
        .with_limit(123)
        .with_order(Direction::Desc);
    let req = ep.into_request("https://www.google.com").unwrap();
    assert_eq!(req.uri().path(), "/accounts/abc123/operations");
    assert_eq!(req.uri().query(), Some("cursor=CURSOR&order=desc&limit=123"));
}

#[test]
fn operations_it_parses_from_a_uri() {
    let uri = "/accounts/abc123/operations?cursor=CURSOR&order=desc&limit=123";
    let ep = Operations::from_uri_str(uri).unwrap();
    assert_eq!(ep.account_id, "abc123");
    assert_eq!(ep.query.limit, Some(123));
    assert_eq!(ep.query.cursor, Some("CURSOR".to_string()));
    assert_eq!(ep.query.order, Some(Direction::Desc));
}

#[test]
fn it_can_make_a_payments_uri() {
    let payments = Payments::new("abc123");
    let request = payments
        .into_request("https://horizon-testnet.stellar.org")
        .unwrap();
    assert_eq!(request.uri().host().unwrap(), "horizon-testnet.stellar.org");
    assert_eq!(request.uri().path(), "/accounts/abc123/payments");
    assert_eq!(request.uri().query(), None);
}

#[test]
fn payments_it_puts_the_query_params_on_the_uri() {
    let ep = Payments::new("abc123")
        .with_cursor("CURSOR")
        .with_order(Direction::Desc)
        .with_limit(123);
    let req = ep.into_request("https://www.google.com").unwrap();
    assert_eq!(req.uri().path(), "/accounts/abc123/payments");
    assert_eq!(req.uri().query(), Some("cursor=CURSOR&order=desc&limit=123"));
}

#[test]
fn payments_it_parses_from_a_uri() {
    let uri = "/accounts/abc123/payments?cursor=CURSOR&order=desc&limit=123";
    let ep = Payments::from_uri_str(uri).unwrap();
    assert_eq!(ep.account_id, "abc123");
    assert_eq!(ep.query.limit, Some(123));
    assert_eq!(ep.query.cursor, Some("CURSOR".to_string()));
    assert_eq!(ep.query.order, Some(Direction::Desc));
}

#[test]
fn it_can_make_an_offers_uri() {
    let offers = Offers::new("abc123");
    let request = offers
        .into_request("https://horizon-testnet.stellar.org")
        .unwrap();
    assert_eq!(request.uri().host().unwrap(), "horizon-testnet.stellar.org");
    assert_eq!(request.uri().path(), "/accounts/abc123/offers");
    assert_eq!(request.uri().query(), None);
}

#[test]
fn offers_it_puts_the_query_params_on_the_uri() {
    let ep = Offers::new("abc123")
        .with_cursor("CURSOR")
        .with_order(Direction::Desc)
        .with_limit(123);
    let req = ep.into_request("https://www.google.com").unwrap();
    assert_eq!(req.uri().path(), "/accounts/abc123/offers");
    assert_eq!(req.uri().query(), Some("cursor=CURSOR&order=desc&limit=123"));
}

#[test]
fn offers_it_parses_from_a_uri() {
    let uri = "/accounts/abc123/offers?cursor=CURSOR&order=desc&limit=123";
    let ep = Offers::from_uri_str(uri).unwrap();
    assert_eq!(ep.account_id, "abc123");
    assert_eq!(ep.query.limit, Some(123));
    assert_eq!(ep.query.cursor, Some("CURSOR".to_string()));
    assert_eq!(ep.query.order, Some(Direction::Desc));
}

// The round trip: a descriptor rendered against a host and parsed back is
// the same descriptor, host ignored.
#[test]
fn round_trip_through_full_uri() {
    let ep = Transactions::new("GABC")
        .with_cursor("now")
        .with_order(Direction::Asc)
        .with_limit(50);
    let text = ep.uri_text("https://horizon-testnet.stellar.org");
    assert_eq!(
        text,
        "https://horizon-testnet.stellar.org/accounts/GABC/transactions?cursor=now&order=asc&limit=50"
    );
    let back = Transactions::from_uri_str(&text).unwrap();
    assert_eq!(back.account_id, "GABC");
    assert_eq!(back.query.cursor, Some("now".to_string()));
    assert_eq!(back.query.order, Some(Direction::Asc));
    assert_eq!(back.query.limit, Some(50));
}

// A URI whose path matches no collection template is rejected with
// InvalidPath.
#[test]
fn unknown_path_is_invalid() {
    let r = Transactions::from_uri_str("/ledgers/5/operations");
    assert_eq!(r.unwrap_err(), stellar_client::Error::InvalidPath);
    let r = Transactions::from_uri_str("/accounts/abc123/effects");
    assert_eq!(r.unwrap_err(), stellar_client::Error::InvalidPath);
}

// Request text the URI grammar rejects fails the encode with InvalidUri.
#[test]
fn bad_host_is_invalid_uri() {
    let ep = Transactions::new("abc123");
    let r = ep.into_request("https://bad host.example");
    assert_eq!(r.unwrap_err(), stellar_client::Error::InvalidUri);
}

// A non-numeric limit reads as absent, not as an error.
#[test]
fn lenient_limit_parse() {
    let ep = Transactions::from_uri_str("/accounts/abc123/transactions?limit=abc").unwrap();
    assert_eq!(ep.account_id, "abc123");
    assert_eq!(ep.query.limit, None);
    assert_eq!(ep.query.cursor, None);
    assert_eq!(ep.query.order, None);
}

// Lenient reading throughout: an unknown order and an overflowing or
// zero-padded limit.
#[test]
fn lenient_param_edges() {
    let ep =
        Transactions::from_uri_str("/accounts/a/transactions?order=sideways&limit=4294967296")
            .unwrap();
    assert_eq!(ep.query.order, None);
    assert_eq!(ep.query.limit, None);

    let ep = Transactions::from_uri_str("/accounts/a/transactions?limit=4294967295").unwrap();
    assert_eq!(ep.query.limit, Some(u32::MAX));

    let ep = Transactions::from_uri_str("/accounts/a/transactions?limit=007").unwrap();
    assert_eq!(ep.query.limit, Some(7));

    let ep = Transactions::from_uri_str("/accounts/a/transactions?limit=").unwrap();
    assert_eq!(ep.query.limit, None);

    let ep = Transactions::from_uri_str("/accounts/a/transactions?cursor=").unwrap();
    assert_eq!(ep.query.cursor, Some(String::new()));
}

// The request envelope: always a GET, and the rendered text is kept.
#[test]
fn request_envelope_shape() {
    let req = Details::new("abc123")
        .into_request("https://horizon-testnet.stellar.org")
        .unwrap();
    assert_eq!(req.method(), "GET");
    assert_eq!(
        req.uri_text(),
        "https://horizon-testnet.stellar.org/accounts/abc123"
    );
}

// Some encoders leave a trailing parameter separator; the lenient reader
// ignores the empty piece it makes.
#[test]
fn trailing_separator_is_ignored() {
    let ep = Transactions::from_uri_str("/accounts/abc123/transactions?cursor=C&").unwrap();
    assert_eq!(ep.query.cursor, Some("C".to_string()));
    assert_eq!(ep.query.order, None);
    assert_eq!(ep.query.limit, None);
}
