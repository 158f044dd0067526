use agnetd::api_error::ApiError;
use agnetd::verification::{
    amd_policy, check_turin_fmc, decode_fixed_hex, decode_hex, trusted_time, trusted_time_from,
    AmdGenerationRequest, AmdPolicyRequest, AmdTcbRequest,
};

#[test]
fn fixed_hex_is_exact_and_accepts_prefix() {
    assert_eq!(decode_fixed_hex("0x0102", "value", 2).ok().unwrap(), [1, 2]);
    assert!(decode_fixed_hex("01", "value", 2).err().unwrap().message().contains("2 bytes"));
    assert!(decode_fixed_hex("zzzz", "value", 2).is_err());
}

fn bad_request(r: Result<Vec<u8>, ApiError>) -> String {
    match r {
        Err(ApiError::BadRequest(m)) => m,
        _ => panic!("expected a bad request"),
    }
}

#[test]
fn hex_messages() {
    assert_eq!(bad_request(decode_hex("0x", "quote")), "quote cannot be empty");
    assert_eq!(bad_request(decode_hex("123", "quote")), "invalid quote hex: Odd number of digits");
    assert_eq!(bad_request(decode_hex("zz", "quote")), "invalid quote hex: Invalid character 'z' at position 0");
    assert_eq!(bad_request(decode_fixed_hex("01", "value", 2)), "value must be exactly 2 bytes, got 1");
    assert_eq!(decode_hex("AbcD", "x").ok().unwrap(), vec![0xab, 0xcd]);
}

fn tcb(fmc: Option<u8>) -> AmdTcbRequest {
    AmdTcbRequest { bootloader: 1, tee: 2, snp: 3, microcode: 4, fmc }
}

#[test]
fn amd_policy_decodes_measurement_then_report_data() {
    let p = AmdPolicyRequest {
        measurement: "11".repeat(48),
        report_data: "22".repeat(64),
        minimum_tcb: tcb(None),
        allow_smt: false,
        allow_migration: false,
        now_secs: None,
    };
    let b = amd_policy(&p).ok().unwrap();
    assert_eq!(b.measurement, vec![0x11; 48]);
    assert_eq!(b.report_data, vec![0x22; 64]);
    let short = AmdPolicyRequest { measurement: "11".to_string(), ..p };
    assert!(matches!(amd_policy(&short), Err(ApiError::BadRequest(m)) if m == "measurement must be exactly 48 bytes, got 1"));
}

#[test]
fn turin_needs_fmc() {
    assert!(check_turin_fmc(AmdGenerationRequest::Turin, &tcb(None)).is_err());
    assert!(check_turin_fmc(AmdGenerationRequest::Turin, &tcb(Some(1))).is_ok());
    assert!(check_turin_fmc(AmdGenerationRequest::Genoa, &tcb(None)).is_ok());
    assert_eq!(AmdGenerationRequest::Milan.label(), "milan");
}

#[test]
fn time_prefers_the_request() {
    assert!(matches!(trusted_time(Some(7)), Ok(7)));
    assert!(trusted_time(None).is_ok());
    assert!(matches!(trusted_time_from(None, Ok(9)), Ok(9)));
    assert!(matches!(trusted_time_from(None, Err("late".to_string())), Err(ApiError::Internal(m)) if m == "system clock is invalid: late"));
}

#[test]
fn hex_rendering_decodes_back() {
    let bytes = vec![0xdeu8, 0xad, 0x01, 0x00, 0xff];
    let h = agnetd::text::bytes_to_hex(&bytes);
    assert_eq!(h, "dead0100ff");
    assert_eq!(h.len(), 2 * bytes.len());
    assert_eq!(decode_hex(&h, "x").ok().unwrap(), bytes);
}
