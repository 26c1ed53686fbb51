use chainclone::url::build_url;

#[test]
fn url_for_mainnet() {
    let url = build_url(1, "https://api.etherscan.io/v2/api", "0xABC");
    assert_eq!(
        url,
        "https://api.etherscan.io/v2/api?chainid=1&module=contract&action=getsourcecode&address=0xABC"
    );
}

#[test]
fn url_for_large_chain_id() {
    let url = build_url(59144, "https://api.etherscan.io/v2/api", "0xdeadBEEF");
    assert_eq!(
        url,
        "https://api.etherscan.io/v2/api?chainid=59144&module=contract&action=getsourcecode&address=0xdeadBEEF"
    );
}

#[test]
fn url_for_chain_zero_and_empty_address() {
    let url = build_url(0, "http://localhost:8080/api", "");
    assert_eq!(
        url,
        "http://localhost:8080/api?chainid=0&module=contract&action=getsourcecode&address="
    );
}

#[test]
fn address_is_passed_through_unescaped() {
    let url = build_url(7, "b", "a b&c=d");
    assert_eq!(
        url,
        "b?chainid=7&module=contract&action=getsourcecode&address=a b&c=d"
    );
}
