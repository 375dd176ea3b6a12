use actix_toolbox::{compute_access_token_hash, SigningAlg};

const TOKEN: &str = "jHkWEdUXMU1BwAsC4vtUsZwnNvTIxEl0z9K3vx5KF0Y";

#[test]
fn access_token_hash_sha256() {
    let r = compute_access_token_hash(
        &TOKEN.to_string(),
        &Ok(SigningAlg::RsaSsaPkcs1V15Sha256),
    );
    assert_eq!(r, Ok("77QmUPtjPfzWtF2AnpK9RQ".to_string()));
}

#[test]
fn access_token_hash_sha384() {
    let r = compute_access_token_hash(
        &TOKEN.to_string(),
        &Ok(SigningAlg::EcdsaP384Sha384),
    );
    assert_eq!(r, Ok("jtAeDp945y1dDqU3nkIVGNZP1HjH_MFs".to_string()));
}

#[test]
fn access_token_hash_none_algorithm_fails() {
    let r = compute_access_token_hash(&TOKEN.to_string(), &Ok(SigningAlg::Unsigned));
    assert!(r.is_err());
}

#[test]
fn access_token_hash_unreadable_algorithm() {
    let r = compute_access_token_hash(&TOKEN.to_string(), &Err("no alg".to_string()));
    assert_eq!(r, Err("no alg".to_string()));
}

#[test]
fn access_token_hash_sha512() {
    let expected = Ok("q7nS86GgvvFaZkzALLWqJYaJIKw2wCDAVfCAsm5CrBM".to_string());
    for alg in [SigningAlg::HmacSha512, SigningAlg::RsaSsaPssSha512, SigningAlg::EdDsaEd25519] {
        assert_eq!(compute_access_token_hash(&TOKEN.to_string(), &Ok(alg)), expected);
    }
}

#[test]
fn access_token_hash_is_not_the_token() {
    let r = compute_access_token_hash(&TOKEN.to_string(), &Ok(SigningAlg::HmacSha256));
    assert_ne!(r, Ok(TOKEN.to_string()));
    assert_eq!(r, Ok("77QmUPtjPfzWtF2AnpK9RQ".to_string()));
}
