//! Verdict circuits over decrypted trade parameters.
//!
//! Real-valued inputs (margin, size, entry price) are carried as signed
//! fixed-point integers counted in billionths of a unit, so `0.001` is
//! `MIN_MARGIN == 1_000_000`.
use vstd::prelude::*;
use vstd::string::StringSliceAdditionalSpecFns;

verus! {

/// Capacity of the status message carried in a verdict.
pub const MSG_LEN: usize = 64;

/// Number of fixed-point units in one whole unit.
pub const FIXED_ONE: i64 = 1_000_000_000;

/// Smallest accepted margin: 0.001 of a unit.
pub const MIN_MARGIN: i64 = 1_000_000;

/// Highest accepted leverage.
pub const MAX_LEVERAGE: u8 = 100;

/// Trade parameters as the circuits see them once decrypted.
#[derive(Clone, Copy, Debug)]
pub struct EncryptedTradeParams {
    pub leverage: u8,
    /// Fixed-point, in billionths.
    pub margin: i64,
    /// Fixed-point, in billionths.
    pub size: i64,
    /// Fixed-point, in billionths.
    pub entry_price: i64,
    pub side_flag: u8,
    pub pair_id: u8,
}

/// The verdict a circuit hands back: `ok` is 1 on acceptance and 0 otherwise.
#[derive(Clone, Copy, Debug)]
pub struct EncryptedComputeResponse {
    pub ok: u8,
    pub msg: [u8; 64],
    /// Fixed-point, in billionths.
    pub validated_size: i64,
    /// Fixed-point, in billionths.
    pub validated_price: i64,
}

/// The message buffer for `s`: its first `MSG_LEN` bytes, padded with zeros.
pub open spec fn fixed_bytes(s: Seq<u8>) -> Seq<u8> {
    Seq::new(MSG_LEN as nat, |i: int| if i < s.len() { s[i] } else { 0u8 })
}

/// The message buffer holding the text `t`.
pub open spec fn msg_of(t: &str) -> Seq<u8> {
    fixed_bytes(t.spec_bytes())
}

/// Copies `input` into a zero-padded buffer of `MSG_LEN` bytes, dropping
/// whatever does not fit.
pub fn to_fixed_bytes(input: &[u8]) -> (r: [u8; 64])
    ensures
        r@ == fixed_bytes(input@),
{
    let mut buf = [0u8; 64];
    let n: usize = if input.len() < MSG_LEN { input.len() } else { MSG_LEN };
    let mut i: usize = 0;
    while i < n
        invariant
            n <= MSG_LEN,
            n <= input@.len(),
            i <= n,
            buf@.len() == MSG_LEN,
            forall|j: int| 0 <= j < i ==> buf@[j] == input@[j],
            forall|j: int| i <= j < MSG_LEN ==> buf@[j] == 0u8,
        decreases n - i,
    {
        buf[i] = input[i];
        i = i + 1;
    }
    assert(buf@ =~= fixed_bytes(input@));
    buf
}

/// The message buffer for the text `t`.
fn message(t: &str) -> (r: [u8; 64])
    ensures
        r@ == msg_of(t),
{
    to_fixed_bytes(t.as_bytes())
}

/// Whether `p` passes every check of an opening: leverage within
/// `1..=MAX_LEVERAGE`, margin at least `MIN_MARGIN`, size and entry price positive.
pub open spec fn open_accepts(p: EncryptedTradeParams) -> bool {
    1 <= p.leverage <= MAX_LEVERAGE && p.margin >= MIN_MARGIN && p.size > 0 && p.entry_price > 0
}

/// A rejection: `ok == 0`, the message for `t`, zeroed outputs.
pub open spec fn is_rejection(r: EncryptedComputeResponse, t: &str) -> bool {
    r.ok == 0 && r.msg@ == msg_of(t) && r.validated_size == 0 && r.validated_price == 0
}

/// An acceptance: `ok == 1`, the message for `t`, size and price of `p`.
pub open spec fn is_acceptance(r: EncryptedComputeResponse, t: &str, p: EncryptedTradeParams) -> bool {
    r.ok == 1 && r.msg@ == msg_of(t) && r.validated_size == p.size && r.validated_price
        == p.entry_price
}

/// Validates the opening of a position. The checks run in a fixed order
/// (leverage, margin, size, entry price) and the first that fails names the
/// message.
pub fn open_position_v1(params: EncryptedTradeParams) -> (r: EncryptedComputeResponse)
    ensures
        !(1 <= params.leverage <= MAX_LEVERAGE) ==> is_rejection(r, "invalid leverage"),
        1 <= params.leverage <= MAX_LEVERAGE && params.margin < MIN_MARGIN ==> is_rejection(
            r,
            "insufficient margin",
        ),
        1 <= params.leverage <= MAX_LEVERAGE && params.margin >= MIN_MARGIN && params.size <= 0
            ==> is_rejection(r, "invalid size"),
        1 <= params.leverage <= MAX_LEVERAGE && params.margin >= MIN_MARGIN && params.size > 0
            && params.entry_price <= 0 ==> is_rejection(r, "invalid entry price"),
        open_accepts(params) ==> is_acceptance(r, "position validated successfully", params),
        r.ok == 1 <==> open_accepts(params),
{
    let mut resp = EncryptedComputeResponse {
        ok: 0,
        msg: message("validation failed"),
        validated_size: 0,
        validated_price: 0,
    };
    if params.leverage < 1 || params.leverage > MAX_LEVERAGE {
        resp.msg = message("invalid leverage");
    } else if params.margin < MIN_MARGIN {
        resp.msg = message("insufficient margin");
    } else if params.size <= 0 {
        resp.msg = message("invalid size");
    } else if params.entry_price <= 0 {
        resp.msg = message("invalid entry price");
    } else {
        resp.ok = 1;
        resp.msg = message("position validated successfully");
        resp.validated_size = params.size;
        resp.validated_price = params.entry_price;
    }
    resp
}

/// Validates the closing of a position: always accepted, whatever the inputs.
pub fn close_position_v1(params: EncryptedTradeParams) -> (r: EncryptedComputeResponse)
    ensures
        is_acceptance(r, "position closed successfully", params),
{
    EncryptedComputeResponse {
        ok: 1,
        msg: message("position closed successfully"),
        validated_size: params.size,
        validated_price: params.entry_price,
    }
}

/// Validates a collateral adjustment: rejected exactly when the margin is
/// below `MIN_MARGIN`, whatever the size and price.
pub fn adjust_collateral_v1(params: EncryptedTradeParams) -> (r: EncryptedComputeResponse)
    ensures
        params.margin < MIN_MARGIN ==> is_rejection(r, "margin too low"),
        params.margin >= MIN_MARGIN ==> is_acceptance(r, "collateral adjusted", params),
        r.ok == 0 <==> params.margin < MIN_MARGIN,
{
    if params.margin < MIN_MARGIN {
        EncryptedComputeResponse {
            ok: 0,
            msg: message("margin too low"),
            validated_size: 0,
            validated_price: 0,
        }
    } else {
        EncryptedComputeResponse {
            ok: 1,
            msg: message("collateral adjusted"),
            validated_size: params.size,
            validated_price: params.entry_price,
        }
    }
}

} // verus!
