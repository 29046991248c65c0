use private_perps::settlement::{
    apply_encrypted_result, computation_request_space, deposit, initialize_market,
    market_space, merge_values, position_space, submit_encrypted_order, user_account_space,
    ComputationRequest, ComputationStatus, Market, PerpError, Position, UserAccount,
};

const OWNER: [u8; 32] = [1u8; 32];
const MARKET: [u8; 32] = [2u8; 32];

fn id(b: u8) -> [u8; 32] {
    let mut k = [0u8; 32];
    k[31] = b;
    k
}

fn pending(b: u8) -> ComputationRequest {
    submit_encrypted_order(OWNER, MARKET, id(b), [9u8; 32], 0).unwrap()
}

fn empty_position() -> Position {
    Position { owner: [0u8; 32], size: 0, avg_price: 0 }
}

fn apply(
    req: &mut ComputationRequest,
    market: &mut Market,
    pos: &mut Position,
    cid: u8,
    fill: u64,
    price: u64,
) -> Result<(), PerpError> {
    apply_encrypted_result(req, market, pos, OWNER, id(cid), fill, price, 0, 7, vec![1, 2, 3])
}

#[test]
fn submit_creates_pending_request() {
    let r = submit_encrypted_order(OWNER, MARKET, id(5), [9u8; 32], 1).unwrap();
    assert_eq!(r.owner, OWNER);
    assert_eq!(r.market, MARKET);
    assert_eq!(r.arcium_computation_id, id(5));
    assert_eq!(r.commitment, [9u8; 32]);
    assert_eq!(r.status, ComputationStatus::Pending);
    assert_eq!(r.applied_nonce, 0);
    assert!(r.arcium_receipt.is_empty());
}

#[test]
fn submit_records_offset_of_selected_circuit() {
    let open = submit_encrypted_order(OWNER, MARKET, id(1), [0u8; 32], 0).unwrap();
    let close = submit_encrypted_order(OWNER, MARKET, id(1), [0u8; 32], 1).unwrap();
    let adjust = submit_encrypted_order(OWNER, MARKET, id(1), [0u8; 32], 2).unwrap();
    assert_eq!(open.circuit_offset, arcium_anchor::comp_def_offset("open_position_v1"));
    assert_eq!(close.circuit_offset, arcium_anchor::comp_def_offset("close_position_v1"));
    assert_eq!(adjust.circuit_offset, arcium_anchor::comp_def_offset("adjust_collateral_v1"));
    assert_ne!(open.circuit_offset, close.circuit_offset);
    assert_ne!(open.circuit_offset, 0);
}

#[test]
fn submit_rejects_unknown_selector() {
    let r = submit_encrypted_order(OWNER, MARKET, id(1), [0u8; 32], 3);
    assert_eq!(r.unwrap_err(), PerpError::InvalidCircuitType);
    let r = submit_encrypted_order(OWNER, MARKET, id(1), [0u8; 32], 255);
    assert_eq!(r.unwrap_err(), PerpError::InvalidCircuitType);
}

#[test]
fn apply_settles_pending_request() {
    let mut req = pending(4);
    let mut market = initialize_market(MARKET, 254, 30);
    let mut pos = empty_position();
    assert_eq!(apply(&mut req, &mut market, &mut pos, 4, 100, 10), Ok(()));
    assert_eq!(req.status, ComputationStatus::Applied);
    assert_eq!(req.applied_nonce, 7);
    assert_eq!(req.arcium_receipt, vec![1, 2, 3]);
    assert_eq!(market.total_open_interest, 100);
    assert_eq!(market.fee_bps, 30);
    assert_eq!(pos.owner, OWNER);
    assert_eq!(pos.size, 100);
    assert_eq!(pos.avg_price, 10);
}

#[test]
fn apply_twice_is_refused() {
    let mut req = pending(4);
    let mut market = initialize_market(MARKET, 254, 30);
    let mut pos = empty_position();
    assert_eq!(apply(&mut req, &mut market, &mut pos, 4, 100, 10), Ok(()));
    assert_eq!(
        apply(&mut req, &mut market, &mut pos, 4, 50, 20),
        Err(PerpError::ComputationNotPending)
    );
    assert_eq!(req.status, ComputationStatus::Applied);
    assert_eq!(req.applied_nonce, 7);
    assert_eq!(market.total_open_interest, 100);
    assert_eq!((pos.size, pos.avg_price), (100, 10));
}

#[test]
fn apply_on_cancelled_request_is_refused() {
    let mut req = pending(4);
    req.status = ComputationStatus::Cancelled;
    let mut market = initialize_market(MARKET, 254, 30);
    let mut pos = empty_position();
    assert_eq!(
        apply(&mut req, &mut market, &mut pos, 4, 100, 10),
        Err(PerpError::ComputationNotPending)
    );
    assert_eq!(market.total_open_interest, 0);
}

#[test]
fn apply_with_other_id_changes_nothing() {
    let mut req = pending(4);
    let mut market = initialize_market(MARKET, 254, 30);
    let mut pos = Position { owner: [3u8; 32], size: 5, avg_price: 6 };
    assert_eq!(
        apply(&mut req, &mut market, &mut pos, 5, 100, 10),
        Err(PerpError::ComputationIdMismatch)
    );
    assert_eq!(req.status, ComputationStatus::Pending);
    assert!(req.arcium_receipt.is_empty());
    assert_eq!(market.total_open_interest, 0);
    assert_eq!((pos.owner, pos.size, pos.avg_price), ([3u8; 32], 5, 6));
}

#[test]
fn apply_open_interest_overflow_changes_nothing() {
    let mut req = pending(4);
    let mut market = initialize_market(MARKET, 254, 30);
    market.total_open_interest = u64::MAX - 1;
    let mut pos = empty_position();
    assert_eq!(apply(&mut req, &mut market, &mut pos, 4, 2, 10), Err(PerpError::Overflow));
    assert_eq!(req.status, ComputationStatus::Pending);
    assert_eq!(market.total_open_interest, u64::MAX - 1);
    assert_eq!(pos.size, 0);
}

#[test]
fn apply_position_overflow_leaves_market_unchanged() {
    let mut req = pending(4);
    let mut market = initialize_market(MARKET, 254, 30);
    let mut pos = Position { owner: OWNER, size: u64::MAX, avg_price: 1 };
    assert_eq!(apply(&mut req, &mut market, &mut pos, 4, 1, 10), Err(PerpError::Overflow));
    assert_eq!(req.status, ComputationStatus::Pending);
    assert_eq!(market.total_open_interest, 0);
    assert_eq!((pos.size, pos.avg_price), (u64::MAX, 1));
}

#[test]
fn merge_at_the_edge_of_the_domain() {
    assert_eq!(merge_values(u64::MAX - 1, u64::MAX, 1, u64::MAX), Ok((u64::MAX, u64::MAX)));
    assert_eq!(merge_values(u64::MAX - 1, u64::MAX, 1, 0), Ok((u64::MAX, u64::MAX - 1)));
}

#[test]
fn merge_two_fills_averages_price() {
    let mut pos = empty_position();
    pos.merge_fill(100, 10).unwrap();
    pos.merge_fill(100, 20).unwrap();
    assert_eq!((pos.size, pos.avg_price), (200, 15));
}

#[test]
fn merge_three_fills_gives_same_average() {
    let mut pos = empty_position();
    pos.merge_fill(50, 10).unwrap();
    pos.merge_fill(50, 10).unwrap();
    pos.merge_fill(100, 20).unwrap();
    assert_eq!((pos.size, pos.avg_price), (200, 15));
}

#[test]
fn merge_truncates_toward_zero() {
    assert_eq!(merge_values(2, 10, 1, 11), Ok((3, 10)));
    assert_eq!(merge_values(1, 10, 2, 11), Ok((3, 10)));
}

#[test]
fn merge_into_empty_takes_fill_price() {
    assert_eq!(merge_values(0, 999, 5, 42), Ok((5, 42)));
}

#[test]
fn merge_size_overflow_leaves_position_unchanged() {
    let mut pos = Position { owner: OWNER, size: u64::MAX - 10, avg_price: 3 };
    assert_eq!(pos.merge_fill(11, 4), Err(PerpError::Overflow));
    assert_eq!((pos.size, pos.avg_price), (u64::MAX - 10, 3));
}

#[test]
fn open_interest_is_sum_of_fills() {
    let mut market = initialize_market(MARKET, 1, 0);
    let mut pos = empty_position();
    let fills = [100u64, 250, 7, 0, 43];
    for (k, fill) in fills.iter().enumerate() {
        let mut req = pending(k as u8);
        assert_eq!(apply(&mut req, &mut market, &mut pos, k as u8, *fill, 10), Ok(()));
    }
    assert_eq!(market.total_open_interest, 400);
    assert_eq!(pos.size, 400);
}

#[test]
fn initialize_market_starts_empty() {
    let m = initialize_market(MARKET, 7, 25);
    assert_eq!((m.authority, m.bump, m.fee_bps, m.total_open_interest), (MARKET, 7, 25, 0));
}

#[test]
fn deposit_adds_collateral() {
    let mut u = UserAccount { owner: OWNER, collateral: 5 };
    assert_eq!(deposit(&mut u, 10), Ok(()));
    assert_eq!(u.collateral, 15);
}

#[test]
fn deposit_overflow_is_refused() {
    let mut u = UserAccount { owner: OWNER, collateral: u64::MAX };
    assert_eq!(deposit(&mut u, 1), Err(PerpError::Overflow));
    assert_eq!(u.collateral, u64::MAX);
}

#[test]
fn account_sizes() {
    assert_eq!(market_space(), 57);
    assert_eq!(user_account_space(), 48);
    assert_eq!(position_space(), 56);
    assert_eq!(computation_request_space(), 1177);
}
