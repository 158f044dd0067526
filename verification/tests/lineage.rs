use agnetd::lineage::{default_contribution, show_model, validate_cid, ModelDetails};
use agnetd::output::Output;

#[test]
fn validate_cid_valid() {
    validate_cid("sha256:abc123").unwrap();
}

#[test]
fn validate_cid_empty() {
    assert!(validate_cid("").is_err());
}

#[test]
fn validate_cid_no_prefix() {
    assert!(validate_cid("abc123").is_err());
}

#[test]
fn validate_cid_empty_hex() {
    assert!(validate_cid("sha256:").is_err());
}

#[test]
fn validate_cid_non_hex() {
    assert!(validate_cid("sha256:xyz!!!").is_err());
}

#[test]
fn validate_cid_messages() {
    assert_eq!(validate_cid("").unwrap_err(), "CID cannot be empty");
    assert_eq!(validate_cid("abc").unwrap_err(), "CID must start with 'sha256:' (got 'abc')");
    assert_eq!(validate_cid("sha256:").unwrap_err(), "CID hex portion cannot be empty");
    assert_eq!(validate_cid("sha256:0g").unwrap_err(), "CID hex portion contains non-hex characters");
    assert!(validate_cid("sha256:ABCdef09").is_ok());
}

#[test]
fn show_model_not_found() {
    let result = show_model("sha256:ffff", None);
    assert!(result.is_err());
    assert!(result.unwrap_err().contains("not found"));
}

#[test]
fn show_model_empty_cid() {
    let result = show_model("", None);
    assert!(result.is_err());
}

#[test]
fn show_model_fields() {
    let m = ModelDetails {
        cid: "sha256:5e01".to_string(),
        parent_cids: vec![],
        contribution: "pre_training".to_string(),
        contributor_did: "did:c".to_string(),
        created_at: 42,
        signature: vec![0xab; 10],
        dataset_hash: None,
        base_model_hash: Some("sha256:00".to_string()),
        training_duration: Some("30".to_string()),
    };
    let out = show_model("sha256:5e01", Some(m)).unwrap();
    match &out[0] {
        Output::Pairs(p) => {
            assert_eq!(p[1].1, "(base model)");
            assert_eq!(p[4].1, "42");
            assert_eq!(p[5].1, "abababababababab...");
            assert_eq!(p[6].1, "");
            assert_eq!(p[7].1, "sha256:00");
            assert_eq!(p[8].1, "30s");
        }
        _ => panic!("expected pairs"),
    }
    assert_eq!(default_contribution(), "pre_training");
}

use agnetd::api_error::ApiError;
use agnetd::lineage::{check_hash_request, check_signer, hash_method, validate_cid_api, HashRequest};

#[test]
fn lineage_api_checks() {
    assert!(matches!(validate_cid_api("abc"), Err(ApiError::BadRequest(m)) if m == "CID must start with 'sha256:' (got 'abc')"));
    assert!(validate_cid_api("sha256:ab").is_ok());
    assert!(check_signer("did:a", "did:a", "did:a").is_ok());
    assert_eq!(check_signer("did:a", "did:b", "did:b").unwrap_err(), "active keyring does not control lineage contributor DID");
    assert_eq!(hash_method("model.safetensors"), "safetensors");
    assert_eq!(hash_method("model.bin"), "sha256");
    assert_eq!(hash_method("safetensors"), "sha256");
    assert!(check_hash_request(&HashRequest { file: String::new() }).is_err());
}
