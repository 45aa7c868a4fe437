use relay_confirm::client::Helius;
use relay_confirm::client::NextBlock;
use relay_confirm::payload::helius_submit_payload;
use relay_confirm::payload::is_base64_str;
use relay_confirm::payload::nextblock_submit_payload;
use relay_confirm::regions::HeliusRegionsType;
use relay_confirm::regions::NextBlockRegionsType;

#[test]
fn base64_alphabet_is_recognised() {
    assert!(is_base64_str(""));
    assert!(is_base64_str("dGVzdA=="));
    assert!(is_base64_str("ABCdef012+/="));
    assert!(!is_base64_str("not base64"));
    assert!(!is_base64_str("quote\"inside"));
    assert!(!is_base64_str("tab\tinside"));
}

#[test]
fn helius_payload_exact_shape() {
    let p = helius_submit_payload("dGVzdA==");
    assert_eq!(
        p,
        "{\"jsonrpc\":\"2.0\",\"id\":1,\"method\":\"sendTransaction\",\"params\":[\"dGVzdA==\",{\"encoding\":\"base64\",\"skipPreflight\":true,\"maxRetries\":0}]}"
    );
}

#[test]
fn helius_payload_is_valid_json_rpc() {
    let client = Helius::new_with_region(HeliusRegionsType::Frankfurt).unwrap();
    let p = client.submit_payload("dGVzdA==");
    let v: serde_json::Value = serde_json::from_str(&p).unwrap();
    assert_eq!(v["jsonrpc"], "2.0");
    assert_eq!(v["id"], 1);
    assert_eq!(v["method"], "sendTransaction");
    assert_eq!(v["params"][0], "dGVzdA==");
    assert_eq!(v["params"][1]["encoding"], "base64");
    assert_eq!(v["params"][1]["skipPreflight"], true);
    assert_eq!(v["params"][1]["maxRetries"], 0);
}

#[test]
fn nextblock_payload_exact_shape() {
    let p = nextblock_submit_payload("dGVzdA==", true);
    assert_eq!(
        p,
        "{\"transaction\":{\"content\":\"dGVzdA==\"},\"frontRunningProtection\":true}"
    );
}

#[test]
fn nextblock_payload_is_valid_json() {
    let client =
        NextBlock::new_with_region(NextBlockRegionsType::NewYork, String::from("test-auth-key"))
            .unwrap();
    let p = client.submit_payload("dGVzdA==", false);
    let v: serde_json::Value = serde_json::from_str(&p).unwrap();
    assert_eq!(v["transaction"]["content"], "dGVzdA==");
    assert_eq!(v["frontRunningProtection"], false);
}
