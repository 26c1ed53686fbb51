use chainclone::chains::{chain_to_id, resolve};
use chainclone::errors::CloneError;

#[test]
fn alias_eth() {
    assert_eq!(chain_to_id("eth"), Some(1));
    assert_eq!(resolve("eth"), Ok(1));
}

#[test]
fn alias_op() {
    assert_eq!(chain_to_id("op"), Some(10));
    assert_eq!(resolve("op"), Ok(10));
}

#[test]
fn alias_bsc() {
    assert_eq!(chain_to_id("bsc"), Some(51));
    assert_eq!(resolve("bsc"), Ok(51));
}

#[test]
fn alias_poly() {
    assert_eq!(chain_to_id("poly"), Some(137));
    assert_eq!(resolve("poly"), Ok(137));
}

#[test]
fn alias_base() {
    assert_eq!(chain_to_id("base"), Some(8453));
    assert_eq!(resolve("base"), Ok(8453));
}

#[test]
fn alias_arb() {
    assert_eq!(chain_to_id("arb"), Some(42161));
    assert_eq!(resolve("arb"), Ok(42161));
}

#[test]
fn alias_lin_and_linea() {
    assert_eq!(chain_to_id("lin"), Some(59144));
    assert_eq!(chain_to_id("linea"), Some(59144));
    assert_eq!(resolve("lin"), Ok(59144));
    assert_eq!(resolve("linea"), Ok(59144));
}

#[test]
fn alias_era_and_zksync() {
    assert_eq!(chain_to_id("era"), Some(324));
    assert_eq!(chain_to_id("zksync"), Some(324));
    assert_eq!(resolve("era"), Ok(324));
    assert_eq!(resolve("zksync"), Ok(324));
}

#[test]
fn numeric_token_resolves_to_its_value() {
    assert_eq!(resolve("1"), Ok(1));
    assert_eq!(resolve("0"), Ok(0));
    assert_eq!(resolve("42161"), Ok(42161));
    assert_eq!(resolve("18446744073709551615"), Ok(u64::MAX));
}

#[test]
fn leading_plus_is_accepted() {
    assert_eq!(resolve("+5"), Ok(5));
    assert_eq!(resolve("+0"), Ok(0));
    assert_eq!(resolve("+42161"), Ok(42161));
}

#[test]
fn bare_or_doubled_sign_fails() {
    assert_eq!(resolve("+"), Err(CloneError::UnknownChain));
    assert_eq!(resolve("++5"), Err(CloneError::UnknownChain));
    assert_eq!(resolve("+eth"), Err(CloneError::UnknownChain));
}

#[test]
fn unknown_token_fails() {
    assert_eq!(resolve("ethx"), Err(CloneError::UnknownChain));
    assert_eq!(resolve(""), Err(CloneError::UnknownChain));
    assert_eq!(resolve("ETH"), Err(CloneError::UnknownChain));
    assert_eq!(resolve("-5"), Err(CloneError::UnknownChain));
    assert_eq!(resolve("12a"), Err(CloneError::UnknownChain));
}

#[test]
fn numeric_overflow_fails() {
    assert_eq!(resolve("18446744073709551616"), Err(CloneError::UnknownChain));
    assert_eq!(resolve("99999999999999999999999"), Err(CloneError::UnknownChain));
}

#[test]
fn case_sensitive_lookup() {
    assert_eq!(chain_to_id("Eth"), None);
    assert_eq!(chain_to_id("ZKSYNC"), None);
}

#[test]
fn exit_codes_distinct_and_nonzero() {
    let all = [
        CloneError::UnknownChain,
        CloneError::DestinationExists,
        CloneError::ScaffoldError,
        CloneError::NetworkError,
        CloneError::MalformedEnvelope,
        CloneError::MissingSourceCode,
        CloneError::MalformedSourceObject,
        CloneError::MissingSources,
        CloneError::MissingContent,
        CloneError::UnsupportedSingleFileFormat,
        CloneError::FileSystemError,
    ];
    for (i, a) in all.iter().enumerate() {
        assert_ne!(a.exit_code(), 0);
        for (j, b) in all.iter().enumerate() {
            if i != j {
                assert_ne!(a.exit_code(), b.exit_code());
            }
        }
    }
}
