use relay_confirm::client::Helius;
use relay_confirm::client::NextBlock;
use relay_confirm::regions::HeliusRegionsType;
use relay_confirm::regions::NextBlockRegionsType;

#[test]
fn explicit_region_client_keeps_its_endpoint() {
    let client = Helius::new_with_region(HeliusRegionsType::London).unwrap();
    client.health_check(30);
    assert_eq!(client.endpoint.relayer, HeliusRegionsType::London);
    assert_eq!(client.endpoint.relayer_name, "Helius-London");
    assert_eq!(client.endpoint.submit_endpoint, "http://lon-sender.helius-rpc.com/fast");
    assert_eq!(client.endpoint.ping_endpoint, "lon-sender.helius-rpc.com");
}

#[test]
fn auto_client_takes_the_race_winner() {
    // Minimum 40 at indices 2 and 4: index 2 (London) wins the tie.
    let results = vec![None, Some(50u64), Some(40), None, Some(40), None, None];
    let client = Helius::new_auto(&results).unwrap();
    assert_eq!(client.endpoint.relayer, HeliusRegionsType::London);
}

#[test]
fn auto_client_falls_back_to_first_region() {
    let results: Vec<Option<u64>> = vec![None; 7];
    let client = Helius::new_auto(&results).unwrap();
    assert_eq!(client.endpoint.relayer, HeliusRegionsType::SaltLakeCity);
    assert_eq!(client.endpoint.relayer_name, "Helius-SaltLakeCity");
}

#[test]
fn nextblock_auto_and_fallback() {
    let win = vec![Some(900u64), Some(20), None, Some(21)];
    let client = NextBlock::new_auto(&win, String::from("test-auth-key")).unwrap();
    assert_eq!(client.endpoint.relayer, NextBlockRegionsType::Frankfurt);
    assert_eq!(client.auth_key, "test-auth-key");

    let lose: Vec<Option<u64>> = vec![None; 4];
    let client = NextBlock::new_auto(&lose, String::from("test-auth-key")).unwrap();
    assert_eq!(client.endpoint.relayer, NextBlockRegionsType::NewYork);
}

#[test]
fn nextblock_explicit_region_keeps_credential() {
    let client =
        NextBlock::new_with_region(NextBlockRegionsType::London, String::from("test-auth-key"))
            .unwrap();
    client.health_check(30);
    assert_eq!(client.endpoint.relayer, NextBlockRegionsType::London);
    assert_eq!(client.endpoint.submit_endpoint, "http://london.nextblock.io/api/v2/submit");
    assert_eq!(client.auth_key, "test-auth-key");
}
