//! Remote attestation requests: the hexadecimal fields they carry, decoded and
//! checked before any quote or report is handed to a verifier, and the time
//! the verification is done at.
use vstd::prelude::*;
use crate::api_error::{ApiError, ApiErrorView};
use crate::bounty::api_result;
use crate::text::{
    chars_of, concat, decimal, decimal_string, has_prefix, hex_lower, hex_of, is_hex_digit, push_all,
    str_starts_with, string_from, utf8_len,
};

verus! {

broadcast use vstd::string::group_string_axioms;

/// The value of a hexadecimal digit.
pub open spec fn hex_value(c: char) -> int {
    if '0' <= c && c <= '9' {
        c as int - '0' as int
    } else if 'a' <= c && c <= 'f' {
        c as int - 'a' as int + 10
    } else {
        c as int - 'A' as int + 10
    }
}

/// Whether `s` is a string of hexadecimal digit pairs.
pub open spec fn hex_ok(s: Seq<char>) -> bool {
    s.len() % 2 == 0 && forall|i: int| 0 <= i < s.len() ==> is_hex_digit(#[trigger] s[i])
}

/// The bytes that the digit pairs of `s` spell, high digit first.
pub open spec fn hex_decoded(s: Seq<char>) -> Seq<u8> {
    Seq::new(s.len() / 2, |k: int| (hex_value(s[2 * k]) * 16 + hex_value(s[2 * k + 1])) as u8)
}

proof fn lemma_hex_digit(d: int)
    requires
        0 <= d < 16,
    ensures
        is_hex_digit(hex_lower(d)),
        hex_value(hex_lower(d)) == d,
{
}

proof fn lemma_hex_of_digits(bytes: Seq<u8>)
    ensures
        hex_of(bytes).len() == 2 * bytes.len(),
        forall|i: int| 0 <= i < bytes.len() ==> {
            &&& #[trigger] hex_of(bytes)[2 * i] == hex_lower(bytes[i] as int / 16)
            &&& hex_of(bytes)[2 * i + 1] == hex_lower(bytes[i] as int % 16)
        },
    decreases bytes.len(),
{
    if bytes.len() > 0 {
        let d = bytes.drop_last();
        lemma_hex_of_digits(d);
        assert forall|i: int| 0 <= i < bytes.len() implies {
            &&& #[trigger] hex_of(bytes)[2 * i] == hex_lower(bytes[i] as int / 16)
            &&& hex_of(bytes)[2 * i + 1] == hex_lower(bytes[i] as int % 16)
        } by {
            if i < d.len() {
                assert(hex_of(d)[2 * i] == hex_lower(d[i] as int / 16));
            }
        }
    }
}

/// Rendering bytes as hex gives two lowercase hex digits per byte, the high
/// one first, and decoding that text gives the bytes back.
pub proof fn law_hex_roundtrip(bytes: Seq<u8>)
    ensures
        hex_of(bytes).len() == 2 * bytes.len(),
        hex_ok(hex_of(bytes)),
        forall|i: int| 0 <= i < hex_of(bytes).len() ==> {
            let c = #[trigger] hex_of(bytes)[i];
            ('0' <= c && c <= '9') || ('a' <= c && c <= 'f')
        },
        forall|i: int| 0 <= i < bytes.len() ==> {
            &&& #[trigger] hex_of(bytes)[2 * i] == hex_lower(bytes[i] as int / 16)
            &&& hex_of(bytes)[2 * i + 1] == hex_lower(bytes[i] as int % 16)
        },
        hex_decoded(hex_of(bytes)) == bytes,
{
    lemma_hex_of_digits(bytes);
    let h = hex_of(bytes);
    assert forall|i: int| 0 <= i < h.len() implies {
        &&& is_hex_digit(#[trigger] h[i])
        &&& (('0' <= h[i] && h[i] <= '9') || ('a' <= h[i] && h[i] <= 'f'))
    } by {
        let k = i / 2;
        assert(0 <= k < bytes.len());
        if i % 2 == 0 {
            assert(i == 2 * k);
            assert(h[2 * k] == hex_lower(bytes[k] as int / 16));
            lemma_hex_digit(bytes[k] as int / 16);
        } else {
            assert(i == 2 * k + 1);
            assert(h[2 * k] == hex_lower(bytes[k] as int / 16));
            lemma_hex_digit(bytes[k] as int % 16);
        }
    }
    assert(hex_decoded(h) =~= bytes) by {
        assert forall|k: int| 0 <= k < bytes.len() implies #[trigger] hex_decoded(h)[k] == bytes[k] by {
            assert(h[2 * k] == hex_lower(bytes[k] as int / 16));
            lemma_hex_digit(bytes[k] as int / 16);
            lemma_hex_digit(bytes[k] as int % 16);
            let v = bytes[k] as int;
            assert(v / 16 * 16 + v % 16 == v);
        }
    }
}

/// The message `hex::decode` gives for a string it refuses.
pub uninterp spec fn hex_error_text(s: Seq<char>) -> Seq<char>;

/// Calls `hex::decode`, which reads a string of hexadecimal digit pairs
/// (either case) into bytes. It refuses a string whose byte length is odd
/// ("Odd number of digits"), and otherwise names the first byte that is not a
/// hexadecimal digit; that message is left named.
#[verifier::external_body]
fn hex_decode(s: &str) -> (r: Result<Vec<u8>, String>)
    ensures
        r is Ok <==> hex_ok(s@),
        match r {
            Ok(v) => v@ == hex_decoded(s@),
            Err(m) => m@ == hex_error_text(s@) && (utf8_len(s@) % 2 == 1 ==> m@ == "Odd number of digits"@),
        },
{
    hex::decode(s).map_err(|e| e.to_string())
}

/// `s` without a leading `0x`.
pub open spec fn without_0x(s: Seq<char>) -> Seq<char> {
    if has_prefix(s, "0x"@) { s.subrange(2, s.len() as int) } else { s }
}

fn strip_0x(s: &str) -> (r: String)
    ensures
        r@ == without_0x(s@),
{
    proof {
        reveal_strlit("0x");
    }
    if str_starts_with(s, "0x") {
        let cs = chars_of(s);
        let mut t: Vec<char> = Vec::new();
        let mut i: usize = 2;
        while i < cs.len()
            invariant
                2 <= i <= cs.len(),
                cs@ == s@,
                t@ == s@.subrange(2, i as int),
            decreases cs.len() - i,
        {
            t.push(cs[i]);
            assert(s@.subrange(2, i as int + 1) =~= s@.subrange(2, i as int).push(s@[i as int]));
            i = i + 1;
        }
        string_from(t.as_slice())
    } else {
        s.to_string()
    }
}

/// What decoding a hexadecimal field gives: its bytes, or a bad request
/// naming the field.
pub open spec fn hex_field(value: Seq<char>, label: Seq<char>) -> Result<Seq<u8>, ApiErrorView> {
    let v = without_0x(value);
    if v.len() == 0 {
        Err(ApiErrorView::BadRequest(label + " cannot be empty"@))
    } else if hex_ok(v) {
        Ok(hex_decoded(v))
    } else {
        Err(ApiErrorView::BadRequest("invalid "@ + label + " hex: "@ + hex_error_text(v)))
    }
}

/// The view of a decoding result.
pub open spec fn bytes_result(r: Result<Vec<u8>, ApiError>) -> Result<Seq<u8>, ApiErrorView> {
    match r {
        Ok(v) => Ok(v@),
        Err(e) => Err(e@),
    }
}

/// Decodes the hexadecimal field `label`, with or without a `0x` prefix.
pub fn decode_hex(value: &str, label: &str) -> (r: Result<Vec<u8>, ApiError>)
    ensures
        bytes_result(r) == hex_field(value@, label@),
{
    let v = strip_0x(value);
    if v.as_str().is_empty() {
        return Err(ApiError::BadRequest(concat(label, " cannot be empty")));
    }
    match hex_decode(v.as_str()) {
        Ok(bytes) => Ok(bytes),
        Err(m) => {
            let mut msg = concat("invalid ", label);
            push_all(&mut msg, " hex: ");
            push_all(&mut msg, m.as_str());
            Err(ApiError::BadRequest(msg))
        },
    }
}

/// What decoding a field of exactly `n` bytes gives.
pub open spec fn fixed_hex_field(value: Seq<char>, label: Seq<char>, n: nat) -> Result<Seq<u8>, ApiErrorView> {
    match hex_field(value, label) {
        Err(e) => Err(e),
        Ok(b) => if b.len() == n {
            Ok(b)
        } else {
            Err(ApiErrorView::BadRequest(
                label + " must be exactly "@ + decimal(n) + " bytes, got "@ + decimal(b.len()),
            ))
        },
    }
}

/// Decodes the hexadecimal field `label`, which must hold exactly `n` bytes.
pub fn decode_fixed_hex(value: &str, label: &str, n: usize) -> (r: Result<Vec<u8>, ApiError>)
    ensures
        bytes_result(r) == fixed_hex_field(value@, label@, n as nat),
{
    let decoded = match decode_hex(value, label) {
        Ok(d) => d,
        Err(e) => return Err(e),
    };
    let length = decoded.len();
    if length == n {
        Ok(decoded)
    } else {
        let mut msg = concat(label, " must be exactly ");
        let a = decimal_string(n as u128);
        push_all(&mut msg, a.as_str());
        push_all(&mut msg, " bytes, got ");
        let b = decimal_string(length as u128);
        push_all(&mut msg, b.as_str());
        assert(msg@ =~= label@ + " must be exactly "@ + decimal(n as nat) + " bytes, got "@ + decimal(
            length as nat,
        ));
        Err(ApiError::BadRequest(msg))
    }
}

/// Reads the system clock as seconds since the Unix epoch
/// (`SystemTime::now().duration_since(UNIX_EPOCH)`), or the clock's error
/// message when the clock is before the epoch. Nothing is promised of the value.
#[verifier::external_body]
pub(crate) fn unix_time_now() -> (r: Result<u64, String>) {
    std::time::SystemTime::now()
        .duration_since(std::time::UNIX_EPOCH)
        .map(|d| d.as_secs())
        .map_err(|e| e.to_string())
}

/// The time a verification is done at: the time the request gives, or else
/// the clock's reading `clock`.
pub open spec fn time_of(explicit: Option<u64>, clock: Result<u64, Seq<char>>) -> Result<u64, ApiErrorView> {
    match explicit {
        Some(t) => Ok(t),
        None => match clock {
            Ok(t) => Ok(t),
            Err(e) => Err(ApiErrorView::Internal("system clock is invalid: "@ + e)),
        },
    }
}

/// The time a verification is done at, given the clock's reading.
pub fn trusted_time_from(explicit: Option<u64>, clock: Result<u64, String>) -> (r: Result<u64, ApiError>)
    ensures
        api_result(r) == time_of(explicit, match clock { Ok(t) => Ok(t), Err(e) => Err(e@) }),
{
    match explicit {
        Some(t) => Ok(t),
        None => match clock {
            Ok(t) => Ok(t),
            Err(e) => Err(ApiError::Internal(concat("system clock is invalid: ", e.as_str()))),
        },
    }
}

/// The time a verification is done at: the time the request gives, or the
/// system clock's.
pub fn trusted_time(explicit: Option<u64>) -> (r: Result<u64, ApiError>)
    ensures
        explicit is Some ==> r == Ok::<u64, ApiError>(explicit.unwrap()),
        explicit is None ==> exists|c: Result<u64, Seq<char>>| api_result(r) == time_of(None, c),
{
    match explicit {
        Some(t) => Ok(t),
        None => {
            let clock = unix_time_now();
            let ghost c: Result<u64, Seq<char>> = match &clock {
                Ok(t) => Ok(*t),
                Err(e) => Err(e@),
            };
            let r = trusted_time_from(None, clock);
            assert(api_result(r) == time_of(None, c));
            r
        },
    }
}

/// The AMD processor generation a request names.
#[derive(Clone, Copy, PartialEq, Eq, Structural, Debug)]
pub enum AmdGenerationRequest {
    Milan,
    Genoa,
    Turin,
}

/// The name a generation is reported under.
pub open spec fn generation_label(g: AmdGenerationRequest) -> Seq<char> {
    match g {
        AmdGenerationRequest::Milan => "milan"@,
        AmdGenerationRequest::Genoa => "genoa"@,
        AmdGenerationRequest::Turin => "turin"@,
    }
}

impl AmdGenerationRequest {
    /// The name this generation is reported under.
    pub fn label(&self) -> (s: &'static str)
        ensures
            s@ == generation_label(*self),
    {
        match self {
            AmdGenerationRequest::Milan => "milan",
            AmdGenerationRequest::Genoa => "genoa",
            AmdGenerationRequest::Turin => "turin",
        }
    }
}

/// The minimum trusted computing base versions a policy accepts.
pub struct AmdTcbRequest {
    pub bootloader: u8,
    pub tee: u8,
    pub snp: u8,
    pub microcode: u8,
    pub fmc: Option<u8>,
}

/// What an AMD report must show to be accepted.
pub struct AmdPolicyRequest {
    pub measurement: String,
    pub report_data: String,
    pub minimum_tcb: AmdTcbRequest,
    pub allow_smt: bool,
    pub allow_migration: bool,
    pub now_secs: Option<u64>,
}

pub struct IntelTdxVerifyRequest {
    pub quote_hex: String,
    pub collateral_json: String,
    pub mr_td: String,
    pub report_data: String,
    pub now_secs: Option<u64>,
}

pub struct AmdSnpVerifyRequest {
    pub report_hex: String,
    pub ark_hex: String,
    pub ask_hex: String,
    pub vek_hex: String,
    pub generation: AmdGenerationRequest,
    pub policy: AmdPolicyRequest,
}

pub struct AmdVlekVerifyRequest {
    pub report_hex: String,
    pub ark_hex: String,
    pub asvk_hex: String,
    pub vlek_hex: String,
    pub crl_hex: String,
    pub ark_sha384: String,
    pub product_name: String,
    pub csp_id: String,
    pub generation: AmdGenerationRequest,
    pub policy: AmdPolicyRequest,
}

pub struct IntelTdxClaimsResponse {
    pub mr_td: Vec<u8>,
    pub report_data: Vec<u8>,
    pub tcb_status: String,
    pub advisory_ids: Vec<String>,
    pub verified_at_secs: u64,
}

pub struct IntelTdxVerifyResponse {
    pub verified: bool,
    pub tee_type: String,
    pub claims: IntelTdxClaimsResponse,
}

pub struct AmdTcbClaimsResponse {
    pub bootloader: u8,
    pub tee: u8,
    pub snp: u8,
    pub microcode: u8,
    pub fmc: Option<u8>,
}

pub struct AmdSnpClaimsResponse {
    pub generation: String,
    pub measurement: Vec<u8>,
    pub report_data: Vec<u8>,
    pub chip_id: Vec<u8>,
    pub reported_tcb: AmdTcbClaimsResponse,
    pub guest_svn: u32,
    pub vmpl: u32,
    pub verified_at_secs: u64,
}

pub struct AmdSnpVerifyResponse {
    pub verified: bool,
    pub tee_type: String,
    pub claims: AmdSnpClaimsResponse,
}

pub struct AmdVlekVerifyResponse {
    pub verified: bool,
    pub tee_type: String,
    pub claims: AmdSnpClaimsResponse,
    pub product_name: String,
    pub csp_id: String,
}

/// The byte lengths of the measured fields: 48 for a SHA-384 measurement,
/// 64 for report data.
pub const MEASUREMENT_LEN: usize = 48;

pub const REPORT_DATA_LEN: usize = 64;

/// The decoded parts of an AMD policy.
pub struct AmdPolicyBytes {
    pub measurement: Vec<u8>,
    pub report_data: Vec<u8>,
}

/// What decoding an AMD policy gives: the measurement first, then the report data.
pub open spec fn amd_policy_of(p: AmdPolicyRequest) -> Result<(Seq<u8>, Seq<u8>), ApiErrorView> {
    match fixed_hex_field(p.measurement@, "measurement"@, 48) {
        Err(e) => Err(e),
        Ok(m) => match fixed_hex_field(p.report_data@, "report_data"@, 64) {
            Err(e) => Err(e),
            Ok(d) => Ok((m, d)),
        },
    }
}

/// Decodes the measured fields of an AMD policy.
pub fn amd_policy(p: &AmdPolicyRequest) -> (r: Result<AmdPolicyBytes, ApiError>)
    ensures
        match r {
            Ok(b) => amd_policy_of(*p) == Ok::<(Seq<u8>, Seq<u8>), ApiErrorView>((b.measurement@, b.report_data@)),
            Err(e) => amd_policy_of(*p) == Err::<(Seq<u8>, Seq<u8>), ApiErrorView>(e@),
        },
{
    let measurement = match decode_fixed_hex(p.measurement.as_str(), "measurement", MEASUREMENT_LEN) {
        Ok(m) => m,
        Err(e) => return Err(e),
    };
    let report_data = match decode_fixed_hex(p.report_data.as_str(), "report_data", REPORT_DATA_LEN) {
        Ok(d) => d,
        Err(e) => return Err(e),
    };
    Ok(AmdPolicyBytes { measurement, report_data })
}

/// An AMD Turin report is only checked against a policy that sets the
/// firmware (`fmc`) minimum.
pub fn check_turin_fmc(generation: AmdGenerationRequest, tcb: &AmdTcbRequest) -> (r: Result<(), ApiError>)
    ensures
        (generation == AmdGenerationRequest::Turin && tcb.fmc is None) ==> r is Err && r->Err_0@
            == ApiErrorView::BadRequest("minimum_tcb.fmc is required for AMD Turin"@),
        !(generation == AmdGenerationRequest::Turin && tcb.fmc is None) ==> r is Ok,
{
    match (generation, tcb.fmc) {
        (AmdGenerationRequest::Turin, None) => Err(
            ApiError::BadRequest("minimum_tcb.fmc is required for AMD Turin".to_string()),
        ),
        _ => Ok(()),
    }
}

} // verus!
