use vstd::prelude::*;
use vstd::string::StrSliceExecFns;
use crate::gateway::GatewayError;

verus! {

/// Whether a string parses as a payment URI that may carry a pay-to-join
/// endpoint.
pub uninterp spec fn parses_as_payjoin_uri(s: Seq<char>) -> bool;

/// Whether a string decodes, from base64, to a partially signed transaction.
pub uninterp spec fn decodes_as_psbt(s: Seq<char>) -> bool;

/// A partially signed transaction as the node and the payjoin crate know it.
#[verifier::external_type_specification]
#[verifier::external_body]
pub struct ExPsbt(bitcoin::psbt::Psbt);

/// The first eight characters, where a payment URI has its scheme, are
/// there and are ASCII.
pub open spec fn has_ascii_scheme_prefix(s: Seq<char>) -> bool {
    &&& s.len() >= 8
    &&& forall|i: int| 0 <= i < 8 ==> (#[trigger] s[i] as u32) < 128
}

/// Relies on `FromStr` of `payjoin::Uri` (a BIP 21 URI with pay-to-join
/// extras): whether it accepts a string depends on the string alone. The
/// parser slices the string at byte eight, so the first eight characters must
/// be ASCII.
#[verifier::external_body]
fn payjoin_uri_parses(s: &str) -> (r: bool)
    requires
        has_ascii_scheme_prefix(s@),
    ensures
        r == parses_as_payjoin_uri(s@),
{
    <payjoin::Uri<'static, bitcoin::address::NetworkUnchecked> as std::str::FromStr>::from_str(s).is_ok()
}

/// Relies on `FromStr` of `bitcoin::psbt::Psbt`, which
/// decodes base64 and then the transaction: whether it succeeds depends on the
/// string alone.
#[verifier::external_body]
fn parse_psbt(s: &str) -> (r: Option<bitcoin::psbt::Psbt>)
    ensures
        r.is_some() == decodes_as_psbt(s@),
{
    <bitcoin::psbt::Psbt as std::str::FromStr>::from_str(s).ok()
}

/// A payment URI, kept as its text.
pub struct Uri {
    pub internal: String,
}

impl Uri {
    /// The URI `bip21_str`, when it parses as a payment URI. Every payment
    /// URI starts with the ASCII scheme `bitcoin:`; a string that does not
    /// start with eight ASCII characters is refused without parsing.
    pub fn try_from(bip21_str: String) -> (r: Result<Uri, GatewayError>)
        ensures
            has_ascii_scheme_prefix(bip21_str@) && parses_as_payjoin_uri(bip21_str@)
                ==> (r matches Ok(u) && u.internal@ == bip21_str@),
            !(has_ascii_scheme_prefix(bip21_str@) && parses_as_payjoin_uri(bip21_str@))
                ==> (r matches Err(GatewayError::Validation(m)) && m@ == bip21_str@),
    {
        let text = bip21_str.as_str();
        if text.unicode_len() < 8 {
            return Err(GatewayError::Validation(bip21_str));
        }
        let mut i: usize = 0;
        while i < 8
            invariant
                0 <= i <= 8,
                text@ == bip21_str@,
                text@.len() >= 8,
                forall|k: int| 0 <= k < i ==> (#[trigger] text@[k] as u32) < 128,
            decreases 8 - i,
        {
            if (text.get_char(i) as u32) >= 128 {
                return Err(GatewayError::Validation(bip21_str));
            }
            i = i + 1;
        }
        if payjoin_uri_parses(text) {
            Ok(Uri { internal: bip21_str })
        } else {
            Err(GatewayError::Validation(bip21_str))
        }
    }
}

/// A partially signed transaction decoded from the node's template.
pub struct PartiallySignedTransaction {
    pub(crate) internal: bitcoin::psbt::Psbt,
}

impl PartiallySignedTransaction {
    /// Decodes a base64 template; a string that does not decode is a
    /// validation error carrying the string.
    pub fn new(psbt_base64: String) -> (r: Result<Self, GatewayError>)
        ensures
            r is Ok <==> decodes_as_psbt(psbt_base64@),
            !decodes_as_psbt(psbt_base64@) ==> (r matches Err(GatewayError::Validation(m)) && m@ == psbt_base64@),
    {
        match parse_psbt(psbt_base64.as_str()) {
            Some(psbt) => Ok(PartiallySignedTransaction { internal: psbt }),
            None => Err(GatewayError::Validation(psbt_base64)),
        }
    }

    /// The decoded transaction.
    pub fn into_inner(self) -> bitcoin::psbt::Psbt {
        self.internal
    }
}

} // verus!
