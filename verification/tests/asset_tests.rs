use stellar_client::AssetIdentifier;

#[test]
fn it_creates_a_native_asset() {
    let asset: AssetIdentifier = AssetIdentifier::native();
    assert_eq!(asset.asset_type(), "native");
    assert_eq!(asset.code(), "XLM");
    assert_eq!(asset.asset_code(), None);
    assert_eq!(asset.issuer(), "Stellar Foundation");
    assert_eq!(asset.asset_issuer(), None);
    assert!(asset.is_native());
}

#[test]
fn it_creates_an_alphanum4_asset() {
    let asset: AssetIdentifier = AssetIdentifier::alphanum4("ABCD", "ISSUER");
    assert_eq!(asset.asset_type(), "credit_alphanum4");
    assert_eq!(asset.code(), "ABCD");
    assert_eq!(asset.issuer(), "ISSUER");
    assert!(!asset.is_native());
}

#[test]
fn it_creates_an_alphanum12_asset() {
    let asset: AssetIdentifier = AssetIdentifier::alphanum12("ABCD", "ISSUER");
    assert_eq!(asset.asset_type(), "credit_alphanum12");
    assert_eq!(asset.code(), "ABCD");
    assert_eq!(asset.issuer(), "ISSUER");
    assert!(!asset.is_native());
}

// A native asset's JSON holds the bare tag and no code or issuer fields.
#[test]
fn native_asset_json_is_bare_tag() {
    let asset = AssetIdentifier::native();
    assert_eq!(asset.json_string(), "{\"asset_type\":\"native\"}");
}

// A non-native asset's JSON spells all three fields in order.
#[test]
fn credit_asset_json_has_all_fields() {
    let asset = AssetIdentifier::alphanum4(
        "USD",
        "GBAUUA74H4XOQYRSOW2RZUA4QL5PB37U3JS5NE3RTB2ELJVMIF5RLMAG",
    );
    assert_eq!(
        asset.json_string(),
        "{\
         \"asset_type\":\"credit_alphanum4\",\
         \"asset_code\":\"USD\",\
         \"asset_issuer\":\"GBAUUA74H4XOQYRSOW2RZUA4QL5PB37U3JS5NE3RTB2ELJVMIF5RLMAG\"\
         }"
    );
}

// A non-native asset round-trips its (type, code, issuer) wire triple
// unchanged; the native one maps back to itself.
#[test]
fn wire_triple_round_trips() {
    let asset = AssetIdentifier::alphanum12("LONGCODE", "ISSUER");
    let wire = asset.to_wire();
    assert_eq!(wire.asset_type, "credit_alphanum12");
    assert_eq!(wire.asset_code, Some("LONGCODE".to_string()));
    assert_eq!(wire.asset_issuer, Some("ISSUER".to_string()));
    let back = AssetIdentifier::from_wire(wire).unwrap();
    assert_eq!(back, asset);

    let native = AssetIdentifier::native();
    let back = AssetIdentifier::from_wire(native.to_wire()).unwrap();
    assert_eq!(back, native);
}

// An unknown tag is invalid, and a credit tag missing a companion field is
// rejected rather than accepted half-formed.
#[test]
fn malformed_wire_triples_are_rejected() {
    let r = AssetIdentifier::new("lumens", None, None);
    assert_eq!(r.unwrap_err(), "Invalid Asset Type.");
    let r = AssetIdentifier::new("credit_alphanum4", Some("USD".to_string()), None);
    assert_eq!(r.unwrap_err(), "Missing Asset Code or Issuer.");
    let r = AssetIdentifier::new("credit_alphanum12", None, Some("ISSUER".to_string()));
    assert_eq!(r.unwrap_err(), "Missing Asset Code or Issuer.");
}

// Building from a well-formed triple gives the tagged variant back.
#[test]
fn well_formed_wire_triples_build() {
    let a = AssetIdentifier::new("native", None, None).unwrap();
    assert!(a.is_native());
    let a = AssetIdentifier::new(
        "credit_alphanum4",
        Some("USD".to_string()),
        Some("GB".to_string()),
    )
    .unwrap();
    assert_eq!(a, AssetIdentifier::alphanum4("USD", "GB"));
}
