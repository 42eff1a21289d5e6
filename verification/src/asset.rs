//! Assets: the units traded on the ledger network.
//!
//! An asset is identified by a closed variant set discriminated by a string
//! tag — `native`, `credit_alphanum4` or `credit_alphanum12` — where each
//! non-native variant carries a code and an issuer. The wire form spells the
//! tag under `asset_type` and omits absent companion fields rather than
//! emitting nulls.

use vstd::prelude::*;

use crate::text::{opt_view, str_eq};

verus! {

/// A quantity of an asset, scaled by ten million on the wire.
#[derive(Debug, Clone, Copy, PartialEq, Eq, Structural)]
pub struct Amount(pub i64);

impl Amount {
    /// An amount of the given scaled value.
    pub fn new(value: i64) -> (r: Self)
        ensures
            r.0 == value,
    {
        Amount(value)
    }
}

/// The code and issuer of a non-native asset.
#[derive(Debug, PartialEq, Eq, Clone)]
pub struct AssetId {
    /// The asset's code.
    pub code: String,
    /// The asset's issuing account.
    pub issuer: String,
}

/// The mathematical content of an [`AssetIdentifier`].
pub ghost enum AssetIdentifierV {
    Native,
    CreditAlphanum4 { code: Seq<char>, issuer: Seq<char> },
    CreditAlphanum12 { code: Seq<char>, issuer: Seq<char> },
}

/// Identifies one asset: the native token, or an issued asset with a four-
/// or twelve-character code.
#[derive(Debug, PartialEq, Eq, Clone)]
pub enum AssetIdentifier {
    /// The network's native token.
    Native,
    /// An issued asset with a code of up to four characters.
    CreditAlphanum4(AssetId),
    /// An issued asset with a code of up to twelve characters.
    CreditAlphanum12(AssetId),
}

impl View for AssetIdentifier {
    type V = AssetIdentifierV;

    open spec fn view(&self) -> AssetIdentifierV {
        match self {
            AssetIdentifier::Native => AssetIdentifierV::Native,
            AssetIdentifier::CreditAlphanum4(id) => AssetIdentifierV::CreditAlphanum4 {
                code: id.code@,
                issuer: id.issuer@,
            },
            AssetIdentifier::CreditAlphanum12(id) => AssetIdentifierV::CreditAlphanum12 {
                code: id.code@,
                issuer: id.issuer@,
            },
        }
    }
}

/// The wire tag of the identifier.
pub open spec fn spec_asset_type(a: AssetIdentifierV) -> Seq<char> {
    match a {
        AssetIdentifierV::Native => "native"@,
        AssetIdentifierV::CreditAlphanum4 { .. } => "credit_alphanum4"@,
        AssetIdentifierV::CreditAlphanum12 { .. } => "credit_alphanum12"@,
    }
}

/// The code of the identifier; the native token's code is `XLM`.
pub open spec fn spec_code(a: AssetIdentifierV) -> Seq<char> {
    match a {
        AssetIdentifierV::Native => "XLM"@,
        AssetIdentifierV::CreditAlphanum4 { code, .. } => code,
        AssetIdentifierV::CreditAlphanum12 { code, .. } => code,
    }
}

/// The issuer of the identifier; the native token is issued by the
/// network's foundation.
pub open spec fn spec_issuer(a: AssetIdentifierV) -> Seq<char> {
    match a {
        AssetIdentifierV::Native => "Stellar Foundation"@,
        AssetIdentifierV::CreditAlphanum4 { issuer, .. } => issuer,
        AssetIdentifierV::CreditAlphanum12 { issuer, .. } => issuer,
    }
}

/// The wire code field: absent for the native token.
pub open spec fn spec_asset_code(a: AssetIdentifierV) -> Option<Seq<char>> {
    match a {
        AssetIdentifierV::Native => None,
        _ => Some(spec_code(a)),
    }
}

/// The wire issuer field: absent for the native token.
pub open spec fn spec_asset_issuer(a: AssetIdentifierV) -> Option<Seq<char>> {
    match a {
        AssetIdentifierV::Native => None,
        _ => Some(spec_issuer(a)),
    }
}

/// What a wire triple of tag, code and issuer identifies: the native token
/// for the `native` tag, an issued asset for a credit tag carrying both
/// companion fields, and an error otherwise. A credit tag with a missing
/// companion field is rejected, and an unknown tag is invalid.
pub open spec fn spec_new_identifier(
    asset_type: Seq<char>,
    code: Option<Seq<char>>,
    issuer: Option<Seq<char>>,
) -> Result<AssetIdentifierV, Seq<char>> {
    if asset_type == "native"@ {
        Ok(AssetIdentifierV::Native)
    } else if asset_type == "credit_alphanum4"@ || asset_type == "credit_alphanum12"@ {
        if code is Some && issuer is Some {
            if asset_type == "credit_alphanum4"@ {
                Ok(
                    AssetIdentifierV::CreditAlphanum4 {
                        code: code.unwrap(),
                        issuer: issuer.unwrap(),
                    },
                )
            } else {
                Ok(
                    AssetIdentifierV::CreditAlphanum12 {
                        code: code.unwrap(),
                        issuer: issuer.unwrap(),
                    },
                )
            }
        } else {
            Err("Missing Asset Code or Issuer."@)
        }
    } else {
        Err("Invalid Asset Type."@)
    }
}

/// The JSON text of the identifier: the tag under `asset_type`, and for
/// non-native assets the code and issuer under `asset_code` and
/// `asset_issuer`; absent fields are omitted, never spelled as null.
pub open spec fn spec_asset_json(a: AssetIdentifierV) -> Seq<char> {
    if a is Native {
        "{\"asset_type\":\"native\"}"@
    } else {
        "{\"asset_type\":\""@ + spec_asset_type(a) + "\",\"asset_code\":\""@ + spec_code(a)
            + "\",\"asset_issuer\":\""@ + spec_issuer(a) + "\"}"@
    }
}

/// The wire form of an asset identifier: the tag, and the companion fields
/// where present.
#[derive(Debug, PartialEq, Eq, Clone)]
pub struct IntermediateAssetIdentifier {
    /// The discriminating tag.
    pub asset_type: String,
    /// The code, absent for the native token.
    pub asset_code: Option<String>,
    /// The issuer, absent for the native token.
    pub asset_issuer: Option<String>,
}

impl AssetIdentifier {
    /// The wire tag of this asset.
    pub fn asset_type(&self) -> (r: &str)
        ensures
            r@ == spec_asset_type(self@),
    {
        match self {
            AssetIdentifier::Native => "native",
            AssetIdentifier::CreditAlphanum4(_) => "credit_alphanum4",
            AssetIdentifier::CreditAlphanum12(_) => "credit_alphanum12",
        }
    }

    /// The code of this asset; the native token's code is `XLM`.
    pub fn code(&self) -> (r: &str)
        ensures
            r@ == spec_code(self@),
    {
        match self {
            AssetIdentifier::Native => "XLM",
            AssetIdentifier::CreditAlphanum4(id) => id.code.as_str(),
            AssetIdentifier::CreditAlphanum12(id) => id.code.as_str(),
        }
    }

    /// The wire code field: absent for the native token.
    pub fn asset_code(&self) -> (r: Option<String>)
        ensures
            opt_view(r) == spec_asset_code(self@),
    {
        match self {
            AssetIdentifier::Native => None,
            AssetIdentifier::CreditAlphanum4(id) => Some(id.code.clone()),
            AssetIdentifier::CreditAlphanum12(id) => Some(id.code.clone()),
        }
    }

    /// The issuer of this asset; the native token is issued by the
    /// network's foundation.
    pub fn issuer(&self) -> (r: &str)
        ensures
            r@ == spec_issuer(self@),
    {
        match self {
            AssetIdentifier::Native => "Stellar Foundation",
            AssetIdentifier::CreditAlphanum4(id) => id.issuer.as_str(),
            AssetIdentifier::CreditAlphanum12(id) => id.issuer.as_str(),
        }
    }

    /// The wire issuer field: absent for the native token.
    pub fn asset_issuer(&self) -> (r: Option<String>)
        ensures
            opt_view(r) == spec_asset_issuer(self@),
    {
        match self {
            AssetIdentifier::Native => None,
            AssetIdentifier::CreditAlphanum4(id) => Some(id.issuer.clone()),
            AssetIdentifier::CreditAlphanum12(id) => Some(id.issuer.clone()),
        }
    }

    /// Whether this is the network's native token.
    pub fn is_native(&self) -> (r: bool)
        ensures
            r == (self@ is Native),
    {
        match self {
            AssetIdentifier::Native => true,
            _ => false,
        }
    }

    /// Builds an identifier from its wire triple, validating that a credit
    /// tag carries both companion fields. Exactly
    /// [`spec_new_identifier`].
    pub fn new(asset_type: &str, code: Option<String>, issuer: Option<String>) -> (r: Result<
        AssetIdentifier,
        String,
    >)
        ensures
            match spec_new_identifier(asset_type@, opt_view(code), opt_view(issuer)) {
                Ok(a) => r matches Ok(x) && x@ == a,
                Err(m) => r matches Err(x) && x@ == m,
            },
    {
        if str_eq(asset_type, "native") {
            Ok(AssetIdentifier::Native)
        } else if str_eq(asset_type, "credit_alphanum4") || str_eq(
            asset_type,
            "credit_alphanum12",
        ) {
            match (code, issuer) {
                (Some(c), Some(i)) => {
                    let id = AssetId { code: c, issuer: i };
                    if str_eq(asset_type, "credit_alphanum4") {
                        Ok(AssetIdentifier::CreditAlphanum4(id))
                    } else {
                        Ok(AssetIdentifier::CreditAlphanum12(id))
                    }
                },
                _ => Err("Missing Asset Code or Issuer.".to_owned()),
            }
        } else {
            Err("Invalid Asset Type.".to_owned())
        }
    }

    /// The native token's identifier.
    pub fn native() -> (r: AssetIdentifier)
        ensures
            r@ == AssetIdentifierV::Native,
    {
        AssetIdentifier::Native
    }

    /// An issued asset with a code of up to four characters.
    pub fn alphanum4(code: &str, issuer: &str) -> (r: AssetIdentifier)
        ensures
            r@ == (AssetIdentifierV::CreditAlphanum4 { code: code@, issuer: issuer@ }),
    {
        AssetIdentifier::CreditAlphanum4(
            AssetId { code: code.to_owned(), issuer: issuer.to_owned() },
        )
    }

    /// An issued asset with a code of up to twelve characters.
    pub fn alphanum12(code: &str, issuer: &str) -> (r: AssetIdentifier)
        ensures
            r@ == (AssetIdentifierV::CreditAlphanum12 { code: code@, issuer: issuer@ }),
    {
        AssetIdentifier::CreditAlphanum12(
            AssetId { code: code.to_owned(), issuer: issuer.to_owned() },
        )
    }

    /// The wire form of this identifier, with absent fields omitted.
    pub fn to_wire(&self) -> (r: IntermediateAssetIdentifier)
        ensures
            r.asset_type@ == spec_asset_type(self@),
            opt_view(r.asset_code) == spec_asset_code(self@),
            opt_view(r.asset_issuer) == spec_asset_issuer(self@),
    {
        IntermediateAssetIdentifier {
            asset_type: self.asset_type().to_owned(),
            asset_code: self.asset_code(),
            asset_issuer: self.asset_issuer(),
        }
    }

    /// The identifier a wire form denotes, when it is well-formed.
    pub fn from_wire(wire: IntermediateAssetIdentifier) -> (r: Result<AssetIdentifier, String>)
        ensures
            match spec_new_identifier(
                wire.asset_type@,
                opt_view(wire.asset_code),
                opt_view(wire.asset_issuer),
            ) {
                Ok(a) => r matches Ok(x) && x@ == a,
                Err(m) => r matches Err(x) && x@ == m,
            },
    {
        AssetIdentifier::new(wire.asset_type.as_str(), wire.asset_code, wire.asset_issuer)
    }

    /// The JSON text of this identifier. Exactly [`spec_asset_json`].
    pub fn json_string(&self) -> (r: String)
        ensures
            r@ == spec_asset_json(self@),
    {
        if self.is_native() {
            "{\"asset_type\":\"native\"}".to_owned()
        } else {
            let mut out = "{\"asset_type\":\"".to_owned();
            out.append(self.asset_type());
            out.append("\",\"asset_code\":\"");
            out.append(self.code());
            out.append("\",\"asset_issuer\":\"");
            out.append(self.issuer());
            out.append("\"}");
            out
        }
    }
}

/// Permissions around who can hold the asset and whether the issuer can
/// freeze it.
#[derive(Debug, Clone, Copy, PartialEq, Eq, Structural)]
pub struct Flags {
    /// The issuer must approve each holder of its credit.
    pub auth_required: bool,
    /// The issuer can freeze credit held by another account.
    pub auth_revocable: bool,
}

impl Flags {
    /// A new set of flags.
    pub fn new(auth_required: bool, auth_revocable: bool) -> (r: Flags)
        ensures
            r.is_auth_required_spec() == auth_required,
            r.is_auth_revocable_spec() == auth_revocable,
    {
        Flags { auth_required, auth_revocable }
    }

    /// Whether the issuer must approve each holder of its credit.
    pub open spec fn is_auth_required_spec(&self) -> bool {
        self.auth_required
    }

    /// Whether the issuer can freeze credit held by another account.
    pub open spec fn is_auth_revocable_spec(&self) -> bool {
        self.auth_revocable
    }

    /// Whether the issuer must approve each holder of its credit.
    pub fn is_auth_required(&self) -> (r: bool)
        ensures
            r == self.is_auth_required_spec(),
    {
        self.auth_required
    }

    /// Whether the issuer can freeze credit held by another account.
    pub fn is_auth_revocable(&self) -> (r: bool)
        ensures
            r == self.is_auth_revocable_spec(),
    {
        self.auth_revocable
    }
}

/// One asset as the ledger reports it: its identifier, the amount issued,
/// how many accounts hold it, and its flags.
#[derive(Debug, Clone)]
pub struct Asset {
    /// The asset's identifier.
    pub asset_identifier: AssetIdentifier,
    /// The amount issued.
    pub amount: Amount,
    /// How many accounts hold the asset.
    pub num_accounts: u32,
    /// The asset's permission flags.
    pub flags: Flags,
}

/// The wire form of an asset, with the identifier still as its raw triple.
#[derive(Debug, Clone)]
pub struct IntermediateAsset {
    /// The discriminating tag.
    pub asset_type: String,
    /// The code, absent for the native token.
    pub asset_code: Option<String>,
    /// The issuer, absent for the native token.
    pub asset_issuer: Option<String>,
    /// The amount issued.
    pub amount: Amount,
    /// How many accounts hold the asset.
    pub num_accounts: u32,
    /// The asset's permission flags.
    pub flags: Flags,
}

impl Asset {
    /// An asset from its parts.
    pub fn new(identifier: AssetIdentifier, amount: Amount, num_accounts: u32, flags: Flags) -> (r:
        Asset)
        ensures
            r.asset_identifier == identifier,
            r.amount == amount,
            r.num_accounts == num_accounts,
            r.flags == flags,
    {
        Asset { asset_identifier: identifier, amount, num_accounts, flags }
    }

    /// The asset a well-formed wire form denotes; a credit tag missing a
    /// companion field, or an unknown tag, is rejected.
    pub fn from_wire(wire: IntermediateAsset) -> (r: Result<Asset, String>)
        ensures
            match spec_new_identifier(
                wire.asset_type@,
                opt_view(wire.asset_code),
                opt_view(wire.asset_issuer),
            ) {
                Ok(a) => r matches Ok(x) && x.asset_identifier@ == a && x.amount == wire.amount
                    && x.num_accounts == wire.num_accounts && x.flags == wire.flags,
                Err(m) => r matches Err(x) && x@ == m,
            },
    {
        match AssetIdentifier::new(wire.asset_type.as_str(), wire.asset_code, wire.asset_issuer) {
            Ok(identifier) => Ok(
                Asset {
                    asset_identifier: identifier,
                    amount: wire.amount,
                    num_accounts: wire.num_accounts,
                    flags: wire.flags,
                },
            ),
            Err(m) => Err(m),
        }
    }

    /// The identifier of this asset.
    pub fn identifier(&self) -> (r: &AssetIdentifier)
        ensures
            r == &self.asset_identifier,
    {
        &self.asset_identifier
    }

    /// The wire tag of this asset.
    pub fn asset_type(&self) -> (r: &str)
        ensures
            r@ == spec_asset_type(self.asset_identifier@),
    {
        self.asset_identifier.asset_type()
    }

    /// The code of this asset.
    pub fn code(&self) -> (r: &str)
        ensures
            r@ == spec_code(self.asset_identifier@),
    {
        self.asset_identifier.code()
    }

    /// The issuer of this asset.
    pub fn issuer(&self) -> (r: &str)
        ensures
            r@ == spec_issuer(self.asset_identifier@),
    {
        self.asset_identifier.issuer()
    }

    /// The amount of the asset issued, scaled by ten million.
    pub fn amount(&self) -> (r: Amount)
        ensures
            r == self.amount,
    {
        self.amount
    }

    /// How many accounts hold the asset (and, where the issuer requires
    /// approval, are approved to hold it).
    pub fn num_accounts(&self) -> (r: u32)
        ensures
            r == self.num_accounts,
    {
        self.num_accounts
    }

    /// Whether the issuer must approve each holder of its credit.
    pub fn is_auth_required(&self) -> (r: bool)
        ensures
            r == self.flags.is_auth_required_spec(),
    {
        self.flags.is_auth_required()
    }

    /// Whether the issuer can freeze credit held by another account.
    pub fn is_auth_revocable(&self) -> (r: bool)
        ensures
            r == self.flags.is_auth_revocable_spec(),
    {
        self.flags.is_auth_revocable()
    }

    /// The permission flags of this asset.
    pub fn flags(&self) -> (r: Flags)
        ensures
            r == self.flags,
    {
        self.flags
    }
}

/// The record of an asset issuer allowing an account to hold its asset.
#[derive(Debug, Clone)]
pub struct Authorized {
    /// The address of the account that can now hold the asset.
    pub account: String,
    /// The asset that can now be trusted.
    pub asset: AssetIdentifier,
}

impl Authorized {
    /// A new trustline-authorized record.
    pub fn new(account: String, asset: AssetIdentifier) -> (r: Authorized)
        ensures
            r.account@ == account@,
            r.asset == asset,
    {
        Authorized { account, asset }
    }

    /// The address of the account that can now hold the asset.
    pub fn account(&self) -> (r: &String)
        ensures
            r@ == self.account@,
    {
        &self.account
    }

    /// The asset that can now be trusted.
    pub fn asset(&self) -> (r: &AssetIdentifier)
        ensures
            r == &self.asset,
    {
        &self.asset
    }
}

} // verus!
