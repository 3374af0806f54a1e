use payjoin_node::{
    address_decision, address_outcome, plan_psbt, record_psbt, wallet_outcome, AddressType, BitcoindConfig,
    CachedOutputs, GatewayError, Input, Network, OutPoint, PartiallySignedTransaction, RpcAuth,
    SatAmount, Uri,
};

const TXID_A: &str = "a0b1c2d3e4f5a6b7c8d9e0f1a2b3c4d5e6f7a8b9c0d1e2f3a4b5c6d7e8f9a0b1";
const TXID_B: &str = "1111111111111111111111111111111111111111111111111111111111111111";
const TXID_C: &str = "ABCDEF0123456789ABCDEF0123456789ABCDEF0123456789ABCDEF0123456789";
const ADDR: &str = "bcrt1qw508d6qejxtdg4y5r3zarvary0c5xw7kygt080";

fn input(txid: &str, vout: u32) -> Input {
    Input::new(txid.to_string(), vout, None)
}

#[test]
fn input_new_keeps_fields() {
    let i = Input::new(TXID_A.to_string(), 5, Some(7));
    assert_eq!(i.txid, TXID_A);
    assert_eq!(i.vout, 5);
    assert_eq!(i.sequence, Some(7));
}

#[test]
fn wallet_warning_is_fatal() {
    let r = wallet_outcome("w".to_string(), Ok(Some("wallet is old".to_string())));
    assert!(matches!(r, Err(GatewayError::DaemonRejected(m)) if m == "wallet is old"));
}

#[test]
fn wallet_without_warning_is_loaded() {
    let r = wallet_outcome("w".to_string(), Ok(None));
    assert!(matches!(r, Ok(n) if n == "w"));
    let r = wallet_outcome("w".to_string(), Ok(Some(String::new())));
    assert!(matches!(r, Ok(n) if n == "w"));
}

#[test]
fn wallet_daemon_error_is_surfaced() {
    let r = wallet_outcome("w".to_string(), Err("no such wallet".to_string()));
    assert!(matches!(r, Err(GatewayError::DaemonRejected(m)) if m == "no such wallet"));
}

#[test]
fn address_outcome_passes_address_or_error() {
    let main = "bc1qw508d6qejxtdg4y5r3zarvary0c5xw7kv8f3t4";
    assert!(matches!(address_outcome(Ok(main.to_string()), Network::Bitcoin), Ok(a) if a == main));
    assert!(matches!(address_outcome(Err("down".to_string()), Network::Bitcoin), Err(GatewayError::DaemonRejected(m)) if m == "down"));
}

#[test]
fn address_for_another_network_is_refused() {
    let main = "bc1qw508d6qejxtdg4y5r3zarvary0c5xw7kv8f3t4";
    let test = "tb1qw508d6qejxtdg4y5r3zarvary0c5xw7kxpjzsx";
    assert!(matches!(address_outcome(Ok(main.to_string()), Network::Testnet), Err(GatewayError::Validation(m)) if m == main));
    assert!(matches!(address_outcome(Ok(test.to_string()), Network::Bitcoin), Err(GatewayError::Validation(_))));
    assert!(matches!(address_outcome(Ok(test.to_string()), Network::Signet), Ok(a) if a == test));
    assert!(matches!(address_outcome(Ok(test.to_string()), Network::Regtest), Err(GatewayError::Validation(_))));
    let legacy_test = "2N83imGV3gPwBzKJQvWJ7cRUY2SpUyU6A5e";
    assert!(address_outcome(Ok(legacy_test.to_string()), Network::Regtest).is_ok());
    assert!(address_outcome(Ok(legacy_test.to_string()), Network::Bitcoin).is_err());
    assert!(matches!(address_outcome(Ok("not an address".to_string()), Network::Bitcoin), Err(GatewayError::Validation(_))));
}

#[test]
fn address_decision_follows_the_check() {
    assert!(matches!(address_decision(Ok("a".to_string()), true), Ok(a) if a == "a"));
    assert!(matches!(address_decision(Ok("a".to_string()), false), Err(GatewayError::Validation(m)) if m == "a"));
    assert!(matches!(address_decision(Err("e".to_string()), true), Err(GatewayError::DaemonRejected(m)) if m == "e"));
}

#[test]
fn config_prefers_cookie() {
    let mut c = BitcoindConfig {
        rpc_host: "localhost:18443".to_string(),
        cookie: Some("/tmp/.cookie".to_string()),
        rpc_user: "u".to_string(),
        rpc_pass: "p".to_string(),
        cache_dir: "outputs.json".to_string(),
    };
    assert!(matches!(c.auth(), RpcAuth::CookieFile(p) if p == "/tmp/.cookie"));
    c.cookie = None;
    assert!(matches!(c.auth(), RpcAuth::UserPass(u, p) if u == "u" && p == "p"));
}

#[test]
fn amount_round_trips_exactly() {
    for n in [0u64, 1, 99_999_999, 100_000_000, 2_100_000_000_000_000, u64::MAX] {
        assert_eq!(SatAmount::from_sat(n).to_sat(), n);
    }
    assert_eq!(SatAmount::from_sat(12_345).into_amount().to_sat(), 12_345);
}

#[test]
fn plan_converts_inputs_and_amounts() {
    let l = CachedOutputs::empty();
    let inputs = vec![Input::new(TXID_A.to_string(), 1, Some(9)), input(TXID_C, 2)];
    let outputs = vec![(ADDR.to_string(), 150_000u64), ("other".to_string(), 1u64)];
    let req = match plan_psbt(&l, &inputs, &outputs, Some(10), Some(true)) {
        Ok(r) => r,
        Err(_) => panic!("request refused"),
    };
    assert_eq!(req.inputs.len(), 2);
    assert_eq!(req.inputs[0].vout, 1);
    assert_eq!(req.inputs[0].sequence, Some(9));
    assert_eq!(req.inputs[1].vout, 2);
    assert_eq!(req.inputs[1].sequence, None);
    assert_eq!(req.outputs.len(), 2);
    assert_eq!(req.outputs[0].0, ADDR);
    assert_eq!(req.outputs[0].1.to_sat(), 150_000);
    assert_eq!(req.outputs[1].1.to_sat(), 1);
    assert_eq!(req.locktime, Some(10));
    assert_eq!(req.replaceable, Some(true));
    let mut txids = req.inputs.into_iter().map(|i| i.txid.into_txid().to_string());
    assert_eq!(txids.next().unwrap(), TXID_A);
    assert_eq!(txids.next().unwrap(), TXID_C.to_lowercase());
}

#[test]
fn plan_rejects_recorded_output() {
    let mut l = CachedOutputs::empty();
    l.insert_all(&vec![OutPoint::new(TXID_B.to_string(), 4)]);
    assert!(l.contains(&OutPoint::new(TXID_B.to_string(), 4)));
    let inputs = vec![input(TXID_A, 0), input(TXID_B, 4)];
    let r = plan_psbt(&l, &inputs, &vec![], None, None);
    assert!(matches!(r, Err(GatewayError::DuplicateOutput(o)) if o.txid == TXID_B && o.vout == 4));
    let other = vec![input(TXID_B, 5)];
    assert!(plan_psbt(&l, &other, &vec![], None, None).is_ok());
}

#[test]
fn plan_rejects_malformed_txid() {
    let l = CachedOutputs::empty();
    for bad in ["", "abc", "zz11111111111111111111111111111111111111111111111111111111111111"] {
        let r = plan_psbt(&l, &vec![input(bad, 0)], &vec![], None, None);
        assert!(matches!(r, Err(GatewayError::Validation(_))));
    }
    let long = format!("{}00", TXID_B);
    assert!(matches!(plan_psbt(&l, &vec![input(&long, 0)], &vec![], None, None), Err(GatewayError::Validation(_))));
}

#[test]
fn first_faulty_input_decides() {
    let mut l = CachedOutputs::empty();
    l.insert(OutPoint::new(TXID_A.to_string(), 0));
    let inputs = vec![input(TXID_A, 0), input("bad", 0)];
    assert!(matches!(plan_psbt(&l, &inputs, &vec![], None, None), Err(GatewayError::DuplicateOutput(_))));
    let inputs = vec![input("bad", 0), input(TXID_A, 0)];
    assert!(matches!(plan_psbt(&l, &inputs, &vec![], None, None), Err(GatewayError::DuplicateOutput(o)) if o.txid == TXID_A));
    let inputs = vec![input("bad", 0), input(TXID_B, 0)];
    assert!(matches!(plan_psbt(&l, &inputs, &vec![], None, None), Err(GatewayError::Validation(_))));
}

#[test]
fn plan_rejects_address_paid_twice() {
    let l = CachedOutputs::empty();
    let inputs = vec![input(TXID_A, 0)];
    let outputs = vec![(ADDR.to_string(), 1u64), ("other".to_string(), 2u64), (ADDR.to_string(), 3u64)];
    assert!(matches!(plan_psbt(&l, &inputs, &outputs, None, None), Err(GatewayError::Validation(m)) if m == ADDR));
}

#[test]
fn record_success_commits_inputs() {
    let mut l = CachedOutputs::empty();
    let inputs = vec![input(TXID_A, 0), input(TXID_B, 1)];
    let r = record_psbt(&mut l, &inputs, Ok("cHNidP8=".to_string()));
    assert!(matches!(r, Ok(p) if p == "cHNidP8="));
    assert_eq!(l.len(), 2);
    assert!(l.contains(&OutPoint::new(TXID_A.to_string(), 0)));
    assert!(l.contains(&OutPoint::new(TXID_B.to_string(), 1)));
    assert!(matches!(plan_psbt(&l, &inputs, &vec![], None, None), Err(GatewayError::DuplicateOutput(_))));
}

#[test]
fn record_daemon_error_commits_nothing() {
    let mut l = CachedOutputs::empty();
    let inputs = vec![input(TXID_A, 0)];
    let r = record_psbt(&mut l, &inputs, Err("insufficient funds".to_string()));
    assert!(matches!(r, Err(GatewayError::DaemonRejected(m)) if m == "insufficient funds"));
    assert_eq!(l.len(), 0);
}

#[test]
fn disjoint_requests_both_succeed_and_union_is_recorded() {
    let mut l = CachedOutputs::empty();
    let a = vec![input(TXID_A, 0), input(TXID_A, 1)];
    let b = vec![input(TXID_B, 0)];
    assert!(plan_psbt(&l, &a, &vec![], None, None).is_ok());
    assert!(record_psbt(&mut l, &a, Ok("x".to_string())).is_ok());
    assert!(plan_psbt(&l, &b, &vec![], None, None).is_ok());
    assert!(record_psbt(&mut l, &b, Ok("y".to_string())).is_ok());
    assert_eq!(l.len(), 3);
    for (t, v) in [(TXID_A, 0), (TXID_A, 1), (TXID_B, 0)] {
        assert!(l.contains(&OutPoint::new(t.to_string(), v)));
    }
}

#[test]
fn uri_accepts_payment_uri() {
    let s = "bitcoin:12c6DSiU4Rq3P4ZxziKxzrL5LmMBrzjrJX?amount=1&pj=https://testnet.demo.btcpayserver.org/BTC/pj";
    assert!(matches!(Uri::try_from(s.to_string()), Ok(u) if u.internal == s));
}

#[test]
fn uri_rejects_malformed_text() {
    assert!(matches!(Uri::try_from("bitcoin:".to_string()), Err(GatewayError::Validation(_))));
    assert!(matches!(Uri::try_from("bitc".to_string()), Err(GatewayError::Validation(_))));
    let wide = "bitcoi\u{20ac}:12c6DSiU4Rq3P4ZxziKxzrL5LmMBrzjrJX";
    assert!(matches!(Uri::try_from(wide.to_string()), Err(GatewayError::Validation(m)) if m == wide));
    let insecure = "bitcoin:12c6DSiU4Rq3P4ZxziKxzrL5LmMBrzjrJX?amount=1&pj=http://example.com";
    assert!(matches!(Uri::try_from(insecure.to_string()), Err(GatewayError::Validation(m)) if m == insecure));
}

#[test]
fn psbt_decodes_template() {
    let s = "cHNidP8BADMCAAAAAQAAAAAAAAAAAAAAAAAAAAAAAAAAAAAAAAAAAAAAAAAAAAAAAAD/////AAAAAAAAAA==";
    let p = match PartiallySignedTransaction::new(s.to_string()) {
        Ok(p) => p,
        Err(_) => panic!("template refused"),
    };
    assert_eq!(p.into_inner().unsigned_tx.input.len(), 1);
}

#[test]
fn psbt_rejects_garbage() {
    assert!(matches!(PartiallySignedTransaction::new("not base64!".to_string()), Err(GatewayError::Validation(m)) if m == "not base64!"));
    assert!(matches!(PartiallySignedTransaction::new("aGVsbG8=".to_string()), Err(GatewayError::Validation(_))));
}

#[test]
fn address_types_compare() {
    assert!(AddressType::Bech32 == AddressType::Bech32);
    assert!(AddressType::Legacy != AddressType::Bech32m);
    assert!(AddressType::P2shSegwit != AddressType::Bech32);
}
