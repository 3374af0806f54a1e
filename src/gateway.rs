use vstd::prelude::*;
use crate::amount::SatAmount;
use crate::ledger::{outpoint_set, CachedOutputs};
use crate::outpoint::{is_txid_text, parse_txid, Input, NodeTxid, OutPoint};

verus! {

/// What can go wrong when the node is asked for something.
#[derive(Debug)]
pub enum GatewayError {
    /// The session with the node could not be established or broke.
    Connection(String),
    /// The node refused the request, or answered with a warning.
    DaemonRejected(String),
    /// An input names an output that is already committed.
    DuplicateOutput(OutPoint),
    /// The record of committed outputs could not be read or written.
    Persistence(String),
    /// An identifier, address or amount is malformed.
    Validation(String),
}

/// How to authenticate to the node.
pub enum RpcAuth {
    CookieFile(String),
    UserPass(String, String),
}

/// Where the node is, how to reach it, and where the record of committed
/// outputs lives.
pub struct BitcoindConfig {
    pub rpc_host: String,
    pub cookie: Option<String>,
    pub rpc_user: String,
    pub rpc_pass: String,
    pub cache_dir: String,
}

impl BitcoindConfig {
    /// The cookie file when one is configured, else the user and password.
    pub fn auth(&self) -> (r: RpcAuth)
        ensures
            match self.cookie {
                Some(c) => r matches RpcAuth::CookieFile(p) && p@ == c@,
                None => r matches RpcAuth::UserPass(u, p) && u@ == self.rpc_user@ && p@ == self.rpc_pass@,
            },
    {
        match &self.cookie {
            Some(c) => RpcAuth::CookieFile(c.clone()),
            None => RpcAuth::UserPass(self.rpc_user.clone(), self.rpc_pass.clone()),
        }
    }
}

/// The node's outcome of loading or creating a wallet: `Ok` with the warning
/// it attached, if any, or `Err` with its message.
pub open spec fn wallet_accepted(warning: Option<String>) -> bool {
    match warning {
        Some(w) => w@.len() == 0,
        None => true,
    }
}

/// The answer to a wallet load or creation. A non-empty warning is a
/// failure, although the node reported success.
pub fn wallet_outcome(wallet_name: String, daemon: Result<Option<String>, String>) -> (r: Result<String, GatewayError>)
    ensures
        match daemon {
            Ok(warning) => if wallet_accepted(warning) {
                r matches Ok(n) && n@ == wallet_name@
            } else {
                r matches Err(GatewayError::DaemonRejected(m)) && m@ == warning->Some_0@
            },
            Err(msg) => r matches Err(GatewayError::DaemonRejected(m)) && m@ == msg@,
        },
{
    match daemon {
        Ok(warning) => match warning {
            Some(w) => {
                if w.as_str().is_empty() {
                    Ok(wallet_name)
                } else {
                    Err(GatewayError::DaemonRejected(w))
                }
            },
            None => Ok(wallet_name),
        },
        Err(msg) => Err(GatewayError::DaemonRejected(msg)),
    }
}

/// The networks an address may be meant for.
#[derive(Clone, Copy, Debug, PartialEq, Eq, Structural, Hash)]
pub enum Network {
    Bitcoin,
    Testnet,
    Signet,
    Regtest,
}

/// Whether a text is an address that may be used on a network.
pub uninterp spec fn address_valid_for(s: Seq<char>, network: Network) -> bool;

/// Relies on `FromStr` of `bitcoin::Address<NetworkUnchecked>`, which
/// decodes the text, and on `Address::is_valid_for_network`: whether a text is
/// an address usable on a network depends on the two alone. Text that does
/// not decode is usable on none.
#[verifier::external_body]
fn address_fits_network(s: &str, network: Network) -> (r: bool)
    ensures
        r == address_valid_for(s@, network),
{
    let network = match network {
        Network::Bitcoin => bitcoin::Network::Bitcoin,
        Network::Testnet => bitcoin::Network::Testnet,
        Network::Signet => bitcoin::Network::Signet,
        Network::Regtest => bitcoin::Network::Regtest,
    };
    match <bitcoin::Address<bitcoin::address::NetworkUnchecked> as std::str::FromStr>::from_str(s) {
        Ok(a) => a.is_valid_for_network(network),
        Err(_) => false,
    }
}

/// The answer to a request for a fresh address, given whether the address
/// is valid for the expected network: the address, a validation error
/// carrying it when it is not, or the node's message.
pub fn address_decision(daemon: Result<String, String>, valid: bool) -> (r: Result<String, GatewayError>)
    ensures
        match daemon {
            Ok(a) => if valid {
                r matches Ok(s) && s@ == a@
            } else {
                r matches Err(GatewayError::Validation(m)) && m@ == a@
            },
            Err(msg) => r matches Err(GatewayError::DaemonRejected(m)) && m@ == msg@,
        },
{
    match daemon {
        Ok(a) => if valid {
            Ok(a)
        } else {
            Err(GatewayError::Validation(a))
        },
        Err(msg) => Err(GatewayError::DaemonRejected(msg)),
    }
}

/// The answer to a request for a fresh address: the address when it is valid
/// for `network`, a validation error when it is not, or the node's message.
pub fn address_outcome(daemon: Result<String, String>, network: Network) -> (r: Result<String, GatewayError>)
    ensures
        match daemon {
            Ok(a) => if address_valid_for(a@, network) {
                r matches Ok(s) && s@ == a@
            } else {
                r matches Err(GatewayError::Validation(m)) && m@ == a@
            },
            Err(msg) => r matches Err(GatewayError::DaemonRejected(m)) && m@ == msg@,
        },
{
    let valid = match &daemon {
        Ok(a) => address_fits_network(a.as_str(), network),
        Err(_) => false,
    };
    address_decision(daemon, valid)
}

/// The kinds of receiving address.
#[derive(Clone, Copy, Debug, PartialEq, Eq, Structural, Hash)]
pub enum AddressType {
    Legacy,
    P2shSegwit,
    Bech32,
    Bech32m,
}

/// An input in the form the node takes.
pub struct TxInput {
    pub txid: NodeTxid,
    pub vout: u32,
    pub sequence: Option<u32>,
}

/// A transaction-construction request, ready to be sent to the node.
pub struct PsbtRequest {
    pub inputs: Vec<TxInput>,
    /// Each address with the amount paid to it.
    pub outputs: Vec<(String, SatAmount)>,
    pub locktime: Option<i64>,
    pub replaceable: Option<bool>,
}

/// The outputs that the inputs spend.
pub open spec fn input_set(inputs: Seq<Input>) -> Set<(Seq<char>, u32)> {
    Set::new(|v: (Seq<char>, u32)| exists|i: int| 0 <= i < inputs.len() && #[trigger] inputs[i].outpoint_view() == v)
}

/// No input spends an output recorded in `ledger` before position `k`.
pub open spec fn unrecorded_upto(ledger: Set<(Seq<char>, u32)>, inputs: Seq<Input>, k: int) -> bool {
    forall|j: int| 0 <= j < k ==> !ledger.contains(#[trigger] inputs[j].outpoint_view())
}

/// No input spends an output recorded in `ledger`.
pub open spec fn none_recorded(ledger: Set<(Seq<char>, u32)>, inputs: Seq<Input>) -> bool {
    unrecorded_upto(ledger, inputs, inputs.len() as int)
}

/// The input at position `k` is the first that spends a recorded output.
pub open spec fn first_recorded_at(ledger: Set<(Seq<char>, u32)>, inputs: Seq<Input>, k: int) -> bool {
    0 <= k < inputs.len() && unrecorded_upto(ledger, inputs, k) && ledger.contains(inputs[k].outpoint_view())
}

/// Every input has a well-formed txid.
pub open spec fn txids_valid(inputs: Seq<Input>) -> bool {
    forall|j: int| 0 <= j < inputs.len() ==> is_txid_text(#[trigger] inputs[j].txid@)
}

/// No address is paid twice.
pub open spec fn addresses_distinct(outputs: Seq<(String, u64)>) -> bool {
    forall|i: int, j: int| 0 <= i < j < outputs.len() ==> #[trigger] outputs[i].0@ != #[trigger] outputs[j].0@
}

/// Checks a transaction-construction request and turns it into the node's
/// form, amounts exactly in satoshis. First, an input that spends a committed
/// output refuses the request as a duplicate (the first such input is named);
/// else a malformed txid or an address paid twice is a validation error.
pub fn plan_psbt(
    ledger: &CachedOutputs,
    inputs: &Vec<Input>,
    outputs: &Vec<(String, u64)>,
    locktime: Option<i64>,
    replaceable: Option<bool>,
) -> (r: Result<PsbtRequest, GatewayError>)
    requires
        ledger.wf(),
    ensures
        r is Ok <==> none_recorded(ledger@, inputs@) && txids_valid(inputs@) && addresses_distinct(outputs@),
        match r {
            Ok(req) => {
                &&& req.inputs.len() == inputs.len()
                &&& forall|i: int| 0 <= i < inputs.len() ==>
                    (#[trigger] req.inputs@[i]).txid@ == inputs@[i].txid@
                    && req.inputs@[i].vout == inputs@[i].vout
                    && req.inputs@[i].sequence == inputs@[i].sequence
                &&& req.outputs.len() == outputs.len()
                &&& forall|i: int| 0 <= i < outputs.len() ==>
                    (#[trigger] req.outputs@[i]).0@ == outputs@[i].0@
                    && req.outputs@[i].1@ == outputs@[i].1
                &&& req.locktime == locktime
                &&& req.replaceable == replaceable
            },
            Err(e) => if none_recorded(ledger@, inputs@) {
                e is Validation
            } else {
                exists|k: int| #[trigger] first_recorded_at(ledger@, inputs@, k)
                    && (e matches GatewayError::DuplicateOutput(o) && o@ == inputs@[k].outpoint_view())
            },
        },
{
    let mut i: usize = 0;
    while i < inputs.len()
        invariant
            0 <= i <= inputs.len(),
            ledger.wf(),
            unrecorded_upto(ledger@, inputs@, i as int),
        decreases inputs.len() - i,
    {
        let o = inputs[i].outpoint();
        if ledger.contains(&o) {
            proof {
                assert(first_recorded_at(ledger@, inputs@, i as int));
            }
            return Err(GatewayError::DuplicateOutput(o));
        }
        i = i + 1;
    }
    let mut tx_inputs: Vec<TxInput> = Vec::new();
    let mut i: usize = 0;
    while i < inputs.len()
        invariant
            0 <= i <= inputs.len(),
            none_recorded(ledger@, inputs@),
            forall|j: int| 0 <= j < i ==> is_txid_text(#[trigger] inputs@[j].txid@),
            tx_inputs@.len() == i,
            forall|j: int| 0 <= j < i ==>
                (#[trigger] tx_inputs@[j]).txid@ == inputs@[j].txid@
                && tx_inputs@[j].vout == inputs@[j].vout
                && tx_inputs@[j].sequence == inputs@[j].sequence,
        decreases inputs.len() - i,
    {
        let inp = &inputs[i];
        match parse_txid(inp.txid.as_str()) {
            None => {
                return Err(GatewayError::Validation(inp.txid.clone()));
            },
            Some(txid) => {
                tx_inputs.push(TxInput { txid, vout: inp.vout, sequence: inp.sequence });
            },
        }
        i = i + 1;
    }
    let mut tx_outputs: Vec<(String, SatAmount)> = Vec::new();
    let mut n: usize = 0;
    while n < outputs.len()
        invariant
            0 <= n <= outputs.len(),
            none_recorded(ledger@, inputs@),
            txids_valid(inputs@),
            tx_outputs@.len() == n,
            forall|j: int| 0 <= j < n ==>
                (#[trigger] tx_outputs@[j]).0@ == outputs@[j].0@ && tx_outputs@[j].1@ == outputs@[j].1,
            forall|a: int, b: int| 0 <= a < b < n ==> #[trigger] outputs@[a].0@ != #[trigger] outputs@[b].0@,
        decreases outputs.len() - n,
    {
        let (addr, sats) = &outputs[n];
        let mut m: usize = 0;
        while m < n
            invariant
                0 <= m <= n < outputs.len(),
                none_recorded(ledger@, inputs@),
                txids_valid(inputs@),
                *addr == outputs@[n as int].0,
                forall|a: int| 0 <= a < m ==> #[trigger] outputs@[a].0@ != outputs@[n as int].0@,
            decreases n - m,
        {
            if outputs[m].0 == *addr {
                assert(outputs@[m as int].0@ == outputs@[n as int].0@);
                return Err(GatewayError::Validation(addr.clone()));
            }
            m = m + 1;
        }
        tx_outputs.push((addr.clone(), SatAmount::from_sat(*sats)));
        n = n + 1;
    }
    Ok(PsbtRequest { inputs: tx_inputs, outputs: tx_outputs, locktime, replaceable })
}

/// Takes the node's answer to a transaction-construction request. On success
/// every input's output is recorded before the template is handed back; the
/// caller persists the record before reporting success. On an error nothing
/// is recorded.
pub fn record_psbt(ledger: &mut CachedOutputs, inputs: &Vec<Input>, daemon: Result<String, String>) -> (r: Result<String, GatewayError>)
    requires
        old(ledger).wf(),
    ensures
        final(ledger).wf(),
        match daemon {
            Ok(psbt) => r matches Ok(p) && p@ == psbt@
                && final(ledger)@ == old(ledger)@.union(input_set(inputs@)),
            Err(msg) => r matches Err(GatewayError::DaemonRejected(m)) && m@ == msg@
                && final(ledger)@ == old(ledger)@,
        },
{
    match daemon {
        Ok(psbt) => {
            let mut refs: Vec<OutPoint> = Vec::new();
            let mut i: usize = 0;
            while i < inputs.len()
                invariant
                    0 <= i <= inputs.len(),
                    refs@.len() == i,
                    forall|j: int| 0 <= j < i ==> (#[trigger] refs@[j])@ == inputs@[j].outpoint_view(),
                decreases inputs.len() - i,
            {
                refs.push(inputs[i].outpoint());
                i = i + 1;
            }
            ledger.insert_all(&refs);
            proof {
                assert forall|v: (Seq<char>, u32)| #[trigger] outpoint_set(refs@).contains(v) <==> input_set(inputs@).contains(v) by {
                    if outpoint_set(refs@).contains(v) {
                        let k = choose|k: int| 0 <= k < refs@.len() && #[trigger] refs@[k]@ == v;
                        assert(inputs@[k].outpoint_view() == v);
                    }
                    if input_set(inputs@).contains(v) {
                        let k = choose|k: int| 0 <= k < inputs@.len() && #[trigger] inputs@[k].outpoint_view() == v;
                        assert(refs@[k]@ == v);
                    }
                }
                assert(outpoint_set(refs@) =~= input_set(inputs@));
            }
            Ok(psbt)
        },
        Err(msg) => Err(GatewayError::DaemonRejected(msg)),
    }
}

/// Once an output is recorded, the record holds it, and any request that
/// spends it is refused as a duplicate before the node is asked.
pub proof fn lemma_reuse_guard(before: Set<(Seq<char>, u32)>, r: OutPoint, inputs: Seq<Input>)
    requires
        exists|i: int| 0 <= i < inputs.len() && #[trigger] inputs[i].outpoint_view() == r@,
    ensures
        before.union(outpoint_set(seq![r])).contains(r@),
        !none_recorded(before.union(outpoint_set(seq![r])), inputs),
{
    assert(seq![r][0]@ == r@);
    assert(outpoint_set(seq![r]).contains(r@));
    let i = choose|i: int| 0 <= i < inputs.len() && #[trigger] inputs[i].outpoint_view() == r@;
    assert(before.union(outpoint_set(seq![r])).contains(inputs[i].outpoint_view()));
}

/// Two requests on disjoint inputs, neither spending a recorded output, taken
/// one after the other in either order: the second still spends no recorded
/// output once the first is recorded, and the record ends as the union of
/// both.
pub proof fn lemma_disjoint_requests(ledger: Set<(Seq<char>, u32)>, a: Seq<Input>, b: Seq<Input>)
    requires
        none_recorded(ledger, a),
        none_recorded(ledger, b),
        forall|v: (Seq<char>, u32)| input_set(a).contains(v) ==> !(#[trigger] input_set(b).contains(v)),
    ensures
        none_recorded(ledger.union(input_set(a)), b),
        none_recorded(ledger.union(input_set(b)), a),
        ledger.union(input_set(a)).union(input_set(b)) == ledger.union(input_set(b)).union(input_set(a)),
{
    assert forall|j: int| 0 <= j < b.len() implies !ledger.union(input_set(a)).contains(#[trigger] b[j].outpoint_view()) by {
        assert(input_set(b).contains(b[j].outpoint_view()));
    }
    assert forall|j: int| 0 <= j < a.len() implies !ledger.union(input_set(b)).contains(#[trigger] a[j].outpoint_view()) by {
        assert(input_set(a).contains(a[j].outpoint_view()));
    }
    assert(ledger.union(input_set(a)).union(input_set(b)) =~= ledger.union(input_set(b)).union(input_set(a)));
}

} // verus!
