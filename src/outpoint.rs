use vstd::prelude::*;

verus! {

/// A transaction identifier as the node knows it.
#[verifier::external_type_specification]
#[verifier::external_body]
pub struct ExTxid(bitcoin::Txid);

/// A hexadecimal digit, in either case.
pub open spec fn is_hex_char(c: char) -> bool {
    ('0' <= c && c <= '9') || ('a' <= c && c <= 'f') || ('A' <= c && c <= 'F')
}

/// The text of a transaction identifier: exactly 64 hexadecimal digits.
pub open spec fn is_txid_text(s: Seq<char>) -> bool {
    &&& s.len() == 64
    &&& forall|i: int| 0 <= i < s.len() ==> #[trigger] is_hex_char(s[i])
}

/// A transaction identifier in the node's type, together with the text it
/// was decoded from. Only `parse_txid` makes one.
pub struct NodeTxid {
    txid: bitcoin::Txid,
    text: Ghost<Seq<char>>,
}

impl View for NodeTxid {
    type V = Seq<char>;

    closed spec fn view(&self) -> Seq<char> {
        self.text@
    }
}

impl NodeTxid {
    /// The identifier in the node's own type, for handing to the node.
    pub fn into_txid(self) -> bitcoin::Txid {
        self.txid
    }
}

/// Relies on `bitcoin::Txid::from_str`, which decodes a string of exactly 64
/// hexadecimal digits (either case) and refuses every other string.
#[verifier::external_body]
pub(crate) fn parse_txid(s: &str) -> (r: Option<NodeTxid>)
    ensures
        r.is_some() <==> is_txid_text(s@),
        r matches Some(t) ==> t@ == s@,
{
    match <bitcoin::Txid as std::str::FromStr>::from_str(s) {
        Ok(txid) => Some(NodeTxid { txid, text: Ghost(s@) }),
        Err(_) => None,
    }
}

/// A reference to a transaction output.
#[derive(Clone, Debug, Hash)]
pub struct OutPoint {
    /// The referenced transaction's txid.
    pub txid: String,
    /// The index of the referenced output in its transaction's vout.
    pub vout: u32,
}

impl View for OutPoint {
    type V = (Seq<char>, u32);

    open spec fn view(&self) -> (Seq<char>, u32) {
        (self.txid@, self.vout)
    }
}

impl PartialEq for OutPoint {
    fn eq(&self, o: &OutPoint) -> (r: bool) {
        self.txid == o.txid && self.vout == o.vout
    }
}

impl vstd::std_specs::cmp::PartialEqSpecImpl for OutPoint {
    open spec fn obeys_eq_spec() -> bool {
        true
    }

    open spec fn eq_spec(&self, o: &OutPoint) -> bool {
        self@ == o@
    }
}

impl Eq for OutPoint {
}

impl OutPoint {
    pub fn new(txid: String, vout: u32) -> (r: OutPoint)
        ensures
            r@ == (txid@, vout),
    {
        OutPoint { txid, vout }
    }

    /// A copy naming the same output.
    pub fn copied(&self) -> (r: OutPoint)
        ensures
            r@ == self@,
    {
        OutPoint { txid: self.txid.clone(), vout: self.vout }
    }

    /// Whether `self` and `o` name the same output.
    pub fn same_as(&self, o: &OutPoint) -> (r: bool)
        ensures
            r == (self@ == o@),
    {
        self.txid == o.txid && self.vout == o.vout
    }
}

/// A candidate spend source, before it is known whether its output was
/// already committed.
pub struct Input {
    pub txid: String,
    pub vout: u32,
    pub sequence: Option<u32>,
}

impl Input {
    pub fn new(txid: String, vout: u32, sequence: Option<u32>) -> (r: Self)
        ensures
            r.txid@ == txid@,
            r.vout == vout,
            r.sequence == sequence,
    {
        Self { txid, vout, sequence }
    }

    /// The output that this input would spend.
    pub open spec fn outpoint_view(&self) -> (Seq<char>, u32) {
        (self.txid@, self.vout)
    }

    pub fn outpoint(&self) -> (r: OutPoint)
        ensures
            r@ == self.outpoint_view(),
    {
        OutPoint { txid: self.txid.clone(), vout: self.vout }
    }
}

} // verus!
