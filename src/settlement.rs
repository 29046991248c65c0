//! Settlement of confidential computations: the request ledger, the position
//! merger and the market's open-interest aggregator.
//!
//! Account keys are carried as their 32 raw bytes.
use vstd::prelude::*;

verus! {

/// Longest receipt a request can hold.
pub const MAX_RECEIPT_LEN: usize = 1024;

const DISCRIMINATOR_SIZE: usize = 8;
const PUBKEY_SIZE: usize = 32;
const U8_SIZE: usize = 1;
const U64_SIZE: usize = 8;
const U32_SIZE: usize = 4;
const ENUM_SIZE: usize = 1;
const VEC_PREFIX: usize = 4;
const ID_SIZE: usize = 32;

/// Why a settlement operation was refused.
#[derive(PartialEq, Eq, Structural, Clone, Copy, Debug)]
pub enum PerpError {
    ComputationNotPending,
    ComputationIdMismatch,
    Overflow,
    InvalidCircuitType,
}

/// Where a computation request stands.
#[derive(PartialEq, Eq, Structural, Clone, Copy, Debug)]
pub enum ComputationStatus {
    Pending,
    Applied,
    Cancelled,
}

#[derive(Clone, Copy, Debug)]
pub struct Market {
    pub authority: [u8; 32],
    pub bump: u8,
    pub fee_bps: u64,
    pub total_open_interest: u64,
}

#[derive(Clone, Copy, Debug)]
pub struct UserAccount {
    pub owner: [u8; 32],
    pub collateral: u64,
}

#[derive(Clone, Copy, Debug)]
pub struct Position {
    pub owner: [u8; 32],
    pub size: u64,
    pub avg_price: u64,
}

#[derive(Clone, Debug)]
pub struct ComputationRequest {
    pub owner: [u8; 32],
    pub market: [u8; 32],
    pub arcium_computation_id: [u8; 32],
    pub commitment: [u8; 32],
    pub status: ComputationStatus,
    pub applied_nonce: u64,
    pub arcium_receipt: Vec<u8>,
    pub circuit_offset: u32,
}

impl ComputationRequest {
    /// A request's receipt never exceeds `MAX_RECEIPT_LEN` bytes.
    pub open spec fn wf(&self) -> bool {
        self.arcium_receipt@.len() <= MAX_RECEIPT_LEN
    }
}

/// Whether two 32-byte keys are equal.
pub fn same_key(a: &[u8; 32], b: &[u8; 32]) -> (r: bool)
    ensures
        r == (a@ == b@),
{
    let mut i: usize = 0;
    while i < 32
        invariant
            i <= 32,
            a@.len() == 32,
            b@.len() == 32,
            forall|j: int| 0 <= j < i ==> a@[j] == b@[j],
        decreases 32 - i,
    {
        if a[i] != b[i] {
            return false;
        }
        i = i + 1;
    }
    assert(a@ =~= b@);
    true
}

/// Whether a fill of `fill` units at `price` can be merged into a position of
/// `old_size` units at `old_avg` without leaving the integer domain: the new
/// size fits in `u64` and, for a non-empty position, the weighted sum fits in
/// `u128`.
pub open spec fn merge_fits(old_size: u64, old_avg: u64, fill: u64, price: u64) -> bool {
    old_size + fill <= u64::MAX && (old_size == 0 || old_size * old_avg + fill * price
        <= u128::MAX)
}

/// Size-weighted average price after a merge, truncated toward zero; the
/// fill's price alone for an empty position.
pub open spec fn merged_avg_price(old_size: u64, old_avg: u64, fill: u64, price: u64) -> int {
    if old_size == 0 {
        price as int
    } else {
        (old_size * old_avg + fill * price) / (old_size + fill)
    }
}

/// A weighted mean never exceeds the larger of the two prices.
proof fn lemma_weighted_mean_bounded(a: nat, x: nat, b: nat, y: nat, m: nat)
    requires
        a > 0,
        x <= m,
        y <= m,
    ensures
        (a * x + b * y) / (a + b) <= m,
{
    assert(a * x + b * y <= (a + b) * m) by (nonlinear_arith)
        requires
            x <= m,
            y <= m,
    ;
    assert((a * x + b * y) / (a + b) <= m) by (nonlinear_arith)
        requires
            a * x + b * y <= (a + b) * m,
            a + b > 0,
    ;
}

/// Merges a fill into a position given by its size and average price,
/// returning the new size and average price.
pub fn merge_values(old_size: u64, old_avg: u64, fill: u64, price: u64) -> (r: Result<
    (u64, u64),
    PerpError,
>)
    ensures
        merge_fits(old_size, old_avg, fill, price) ==> r == Ok::<(u64, u64), PerpError>(
            ((old_size + fill) as u64, merged_avg_price(old_size, old_avg, fill, price) as u64),
        ),
        merge_fits(old_size, old_avg, fill, price) ==> merged_avg_price(
            old_size,
            old_avg,
            fill,
            price,
        ) <= u64::MAX,
        !merge_fits(old_size, old_avg, fill, price) ==> r == Err::<(u64, u64), PerpError>(
            PerpError::Overflow,
        ),
{
    let new_size = match old_size.checked_add(fill) {
        Some(n) => n,
        None => return Err(PerpError::Overflow),
    };
    if old_size == 0 {
        return Ok((new_size, price));
    }
    let left = match (old_size as u128).checked_mul(old_avg as u128) {
        Some(v) => v,
        None => return Err(PerpError::Overflow),
    };
    let right = match (fill as u128).checked_mul(price as u128) {
        Some(v) => v,
        None => return Err(PerpError::Overflow),
    };
    let sum = match left.checked_add(right) {
        Some(v) => v,
        None => return Err(PerpError::Overflow),
    };
    proof {
        let m: nat = if old_avg >= price { old_avg as nat } else { price as nat };
        lemma_weighted_mean_bounded(old_size as nat, old_avg as nat, fill as nat, price as nat, m);
    }
    let avg = sum / (new_size as u128);
    Ok((new_size, avg as u64))
}

impl Position {
    /// Folds a fill of `fill_amount` units at `fill_price` into this position.
    /// On overflow the position is left as it was.
    pub fn merge_fill(&mut self, fill_amount: u64, fill_price: u64) -> (r: Result<(), PerpError>)
        ensures
            merge_fits(old(self).size, old(self).avg_price, fill_amount, fill_price) ==> r is Ok
                && final(self).owner == old(self).owner && final(self).size == old(self).size
                + fill_amount && final(self).avg_price == merged_avg_price(
                old(self).size,
                old(self).avg_price,
                fill_amount,
                fill_price,
            ),
            !merge_fits(old(self).size, old(self).avg_price, fill_amount, fill_price) ==> r
                == Err::<(), PerpError>(PerpError::Overflow) && *final(self) == *old(self),
            old(self).size + fill_amount > u64::MAX ==> r == Err::<(), PerpError>(
                PerpError::Overflow,
            ) && *final(self) == *old(self),
    {
        match merge_values(self.size, self.avg_price, fill_amount, fill_price) {
            Ok((size, avg)) => {
                self.size = size;
                self.avg_price = avg;
                Ok(())
            },
            Err(e) => Err(e),
        }
    }
}

impl Market {
    /// Adds a settled fill to the open interest. On overflow the market is left
    /// as it was.
    pub fn add_open_interest(&mut self, fill_amount: u64) -> (r: Result<(), PerpError>)
        ensures
            old(self).total_open_interest + fill_amount <= u64::MAX ==> r is Ok && *final(self)
                == (Market {
                total_open_interest: (old(self).total_open_interest + fill_amount) as u64,
                ..*old(self)
            }),
            old(self).total_open_interest + fill_amount > u64::MAX ==> r == Err::<(), PerpError>(
                PerpError::Overflow,
            ) && *final(self) == *old(self),
    {
        match self.total_open_interest.checked_add(fill_amount) {
            Some(v) => {
                self.total_open_interest = v;
                Ok(())
            },
            None => Err(PerpError::Overflow),
        }
    }
}

/// The outcome of settling a result against a request, a market and the
/// owner's position: the three records afterwards, or the error. A request
/// that is not pending is refused first, then one whose computation identity
/// differs from `id`, then any overflow of the open interest or of the merge.
pub open spec fn apply_spec(
    req: ComputationRequest,
    market: Market,
    position: Position,
    user: [u8; 32],
    id: [u8; 32],
    fill_amount: u64,
    price: u64,
    nonce: u64,
    receipt: Vec<u8>,
) -> Result<(ComputationRequest, Market, Position), PerpError> {
    if req.status != ComputationStatus::Pending {
        Err(PerpError::ComputationNotPending)
    } else if req.arcium_computation_id@ != id@ {
        Err(PerpError::ComputationIdMismatch)
    } else if market.total_open_interest + fill_amount > u64::MAX || !merge_fits(
        position.size,
        position.avg_price,
        fill_amount,
        price,
    ) {
        Err(PerpError::Overflow)
    } else {
        Ok(
            (
                ComputationRequest {
                    status: ComputationStatus::Applied,
                    applied_nonce: nonce,
                    arcium_receipt: receipt,
                    ..req
                },
                Market {
                    total_open_interest: (market.total_open_interest + fill_amount) as u64,
                    ..market
                },
                Position {
                    owner: user,
                    size: (position.size + fill_amount) as u64,
                    avg_price: merged_avg_price(
                        position.size,
                        position.avg_price,
                        fill_amount,
                        price,
                    ) as u64,
                },
            ),
        )
    }
}

/// Settles the result of a confidential computation: checks that the request
/// is pending and was made for `arcium_computation_id`, adds the fill to the
/// market's open interest, merges it into `user`'s position and marks the
/// request applied with `result_nonce` and `arcium_receipt`. Either all three
/// records change or none does. `result_side` is accepted as relayed and does
/// not enter the settlement.
pub fn apply_encrypted_result(
    req: &mut ComputationRequest,
    market: &mut Market,
    position: &mut Position,
    user: [u8; 32],
    arcium_computation_id: [u8; 32],
    result_fill_amount: u64,
    result_price: u64,
    result_side: u8,
    result_nonce: u64,
    arcium_receipt: Vec<u8>,
) -> (r: Result<(), PerpError>)
    requires
        old(req).wf(),
        arcium_receipt@.len() <= MAX_RECEIPT_LEN,
    ensures
        final(req).wf(),
        match apply_spec(
            *old(req),
            *old(market),
            *old(position),
            user,
            arcium_computation_id,
            result_fill_amount,
            result_price,
            result_nonce,
            arcium_receipt,
        ) {
            Ok((q, m, p)) => r is Ok && *final(req) == q && *final(market) == m && *final(position)
                == p,
            Err(e) => r == Err::<(), PerpError>(e) && *final(req) == *old(req) && *final(market)
                == *old(market) && *final(position) == *old(position),
        },
{
    if req.status != ComputationStatus::Pending {
        return Err(PerpError::ComputationNotPending);
    }
    if !same_key(&req.arcium_computation_id, &arcium_computation_id) {
        return Err(PerpError::ComputationIdMismatch);
    }
    let new_open_interest = match market.total_open_interest.checked_add(result_fill_amount) {
        Some(v) => v,
        None => return Err(PerpError::Overflow),
    };
    let (new_size, new_avg_price) = match merge_values(
        position.size,
        position.avg_price,
        result_fill_amount,
        result_price,
    ) {
        Ok(v) => v,
        Err(e) => return Err(e),
    };
    market.total_open_interest = new_open_interest;
    position.owner = user;
    position.size = new_size;
    position.avg_price = new_avg_price;
    req.status = ComputationStatus::Applied;
    req.applied_nonce = result_nonce;
    req.arcium_receipt = arcium_receipt;
    Ok(())
}

/// The offset that identifies the computation definition of the circuit
/// named `name`.
pub uninterp spec fn circuit_offset_of(name: Seq<char>) -> u32;

/// Relies on arcium_anchor::comp_def_offset: the offset of a computation
/// definition, derived from the circuit's name alone.
#[verifier::external_body]
fn comp_def_offset(name: &str) -> (r: u32)
    ensures
        r == circuit_offset_of(name@),
{
    arcium_anchor::comp_def_offset(name)
}

/// The circuit that a selector names: 0 opens a position, 1 closes one, 2
/// adjusts collateral; no other selector is known.
pub open spec fn circuit_name(circuit_type: u8) -> Option<Seq<char>> {
    if circuit_type == 0 {
        Some("open_position_v1"@)
    } else if circuit_type == 1 {
        Some("close_position_v1"@)
    } else if circuit_type == 2 {
        Some("adjust_collateral_v1"@)
    } else {
        None
    }
}

/// The name of the circuit that `circuit_type` selects.
pub fn circuit_name_of(circuit_type: u8) -> (r: Option<&'static str>)
    ensures
        r matches Some(n) ==> circuit_name(circuit_type) == Some(n@),
        r is None <==> circuit_name(circuit_type) is None,
{
    if circuit_type == 0 {
        Some("open_position_v1")
    } else if circuit_type == 1 {
        Some("close_position_v1")
    } else if circuit_type == 2 {
        Some("adjust_collateral_v1")
    } else {
        None
    }
}

/// A fresh request for the computation `arcium_computation_id`, bound to
/// `commitment`, made by `owner` on `market`: pending, with nonce 0, an empty
/// receipt and the offset of the circuit that `circuit_type` selects. An
/// unknown selector is refused.
pub fn submit_encrypted_order(
    owner: [u8; 32],
    market: [u8; 32],
    arcium_computation_id: [u8; 32],
    commitment: [u8; 32],
    circuit_type: u8,
) -> (r: Result<ComputationRequest, PerpError>)
    ensures
        circuit_name(circuit_type) is None ==> r == Err::<ComputationRequest, PerpError>(
            PerpError::InvalidCircuitType,
        ),
        circuit_name(circuit_type) is Some ==> r is Ok,
        r matches Ok(q) ==> {
            &&& q.wf()
            &&& q.owner == owner
            &&& q.market == market
            &&& q.arcium_computation_id == arcium_computation_id
            &&& q.commitment == commitment
            &&& q.status == ComputationStatus::Pending
            &&& q.applied_nonce == 0
            &&& q.arcium_receipt@.len() == 0
            &&& circuit_name(circuit_type) is Some
            &&& q.circuit_offset == circuit_offset_of(circuit_name(circuit_type)->Some_0)
        },
{
    let name = match circuit_name_of(circuit_type) {
        Some(n) => n,
        None => return Err(PerpError::InvalidCircuitType),
    };
    Ok(
        ComputationRequest {
            owner,
            market,
            arcium_computation_id,
            commitment,
            status: ComputationStatus::Pending,
            applied_nonce: 0,
            arcium_receipt: Vec::new(),
            circuit_offset: comp_def_offset(name),
        },
    )
}

/// A new market run by `authority`, with no open interest yet.
pub fn initialize_market(authority: [u8; 32], market_bump: u8, fee_bps: u64) -> (r: Market)
    ensures
        r == (Market { authority, bump: market_bump, fee_bps, total_open_interest: 0 }),
{
    Market { authority, bump: market_bump, fee_bps, total_open_interest: 0 }
}

/// Adds `amount` to the user's collateral. On overflow the account is left as
/// it was.
pub fn deposit(user: &mut UserAccount, amount: u64) -> (r: Result<(), PerpError>)
    ensures
        old(user).collateral + amount <= u64::MAX ==> r is Ok && *final(user) == (UserAccount {
            collateral: (old(user).collateral + amount) as u64,
            ..*old(user)
        }),
        old(user).collateral + amount > u64::MAX ==> r == Err::<(), PerpError>(
            PerpError::Overflow,
        ) && *final(user) == *old(user),
{
    match user.collateral.checked_add(amount) {
        Some(v) => {
            user.collateral = v;
            Ok(())
        },
        None => Err(PerpError::Overflow),
    }
}

/// Bytes of storage a market account takes.
pub fn market_space() -> (r: usize)
    ensures
        r == 57,
{
    DISCRIMINATOR_SIZE + PUBKEY_SIZE + U8_SIZE + U64_SIZE + U64_SIZE
}

/// Bytes of storage a user account takes.
pub fn user_account_space() -> (r: usize)
    ensures
        r == 48,
{
    DISCRIMINATOR_SIZE + PUBKEY_SIZE + U64_SIZE
}

/// Bytes of storage a position account takes.
pub fn position_space() -> (r: usize)
    ensures
        r == 56,
{
    DISCRIMINATOR_SIZE + PUBKEY_SIZE + U64_SIZE + U64_SIZE
}

/// Bytes of storage a computation request takes, with room for the longest
/// receipt.
pub fn computation_request_space() -> (r: usize)
    ensures
        r == 1177,
{
    DISCRIMINATOR_SIZE + PUBKEY_SIZE + PUBKEY_SIZE + ID_SIZE + ID_SIZE + ENUM_SIZE + U64_SIZE
        + VEC_PREFIX + MAX_RECEIPT_LEN + U32_SIZE
}

/// A result applied once cannot be applied again: after a successful
/// settlement the request is applied, and a second settlement of it with the
/// same computation identity is refused as not pending, whatever its other
/// inputs. A refused settlement changes no record.
pub proof fn lemma_apply_not_repeatable(
    req: ComputationRequest,
    market: Market,
    position: Position,
    user: [u8; 32],
    id: [u8; 32],
    fill_amount: u64,
    price: u64,
    nonce: u64,
    receipt: Vec<u8>,
    fill_amount2: u64,
    price2: u64,
    nonce2: u64,
    receipt2: Vec<u8>,
)
    requires
        apply_spec(req, market, position, user, id, fill_amount, price, nonce, receipt) is Ok,
    ensures
        ({
            let (q, m, p) = apply_spec(
                req,
                market,
                position,
                user,
                id,
                fill_amount,
                price,
                nonce,
                receipt,
            )->Ok_0;
            &&& q.status == ComputationStatus::Applied
            &&& apply_spec(q, m, p, user, id, fill_amount2, price2, nonce2, receipt2) == Err::<
                (ComputationRequest, Market, Position),
                PerpError,
            >(PerpError::ComputationNotPending)
        }),
{
}

/// A pending request refuses a result presented under another computation
/// identity, whatever the fill, and so changes no record.
pub proof fn lemma_apply_rejects_other_id(
    req: ComputationRequest,
    market: Market,
    position: Position,
    user: [u8; 32],
    id: [u8; 32],
    fill_amount: u64,
    price: u64,
    nonce: u64,
    receipt: Vec<u8>,
)
    requires
        req.status == ComputationStatus::Pending,
        req.arcium_computation_id@ != id@,
    ensures
        apply_spec(req, market, position, user, id, fill_amount, price, nonce, receipt) == Err::<
            (ComputationRequest, Market, Position),
            PerpError,
        >(PerpError::ComputationIdMismatch),
{
}

/// The inputs of one settlement besides the market.
pub struct SettlementCall {
    pub request: ComputationRequest,
    pub position: Position,
    pub user: [u8; 32],
    pub id: [u8; 32],
    pub fill_amount: u64,
    pub price: u64,
    pub nonce: u64,
    pub receipt: Vec<u8>,
}

/// The outcome of settlement `c` against `market`.
pub open spec fn apply_call(c: SettlementCall, market: Market) -> Result<
    (ComputationRequest, Market, Position),
    PerpError,
> {
    apply_spec(
        c.request,
        market,
        c.position,
        c.user,
        c.id,
        c.fill_amount,
        c.price,
        c.nonce,
        c.receipt,
    )
}

/// Sum of the fills of `calls`.
pub open spec fn total_fill(calls: Seq<SettlementCall>) -> int
    decreases calls.len(),
{
    if calls.len() == 0 {
        0
    } else {
        total_fill(calls.drop_last()) + calls.last().fill_amount
    }
}

/// Whether `markets` are the states a market passes through when each of
/// `calls` is settled in turn and succeeds.
pub open spec fn settled_in_turn(markets: Seq<Market>, calls: Seq<SettlementCall>) -> bool {
    &&& markets.len() == calls.len() + 1
    &&& forall|i: int|
        0 <= i < calls.len() ==> #[trigger] apply_call(calls[i], markets[i]) is Ok && apply_call(
            calls[i],
            markets[i],
        )->Ok_0.1 == markets[i + 1]
}

/// After successful settlements in turn, the open interest has grown by
/// exactly the sum of their fills; from a new market it is that sum.
pub proof fn lemma_open_interest_is_sum_of_fills(
    markets: Seq<Market>,
    calls: Seq<SettlementCall>,
)
    requires
        settled_in_turn(markets, calls),
    ensures
        markets.last().total_open_interest == markets[0].total_open_interest + total_fill(calls),
    decreases calls.len(),
{
    if calls.len() > 0 {
        let n = calls.len() - 1;
        let ms = markets.drop_last();
        let cs = calls.drop_last();
        assert forall|i: int| 0 <= i < cs.len() implies #[trigger] apply_call(cs[i], ms[i]) is Ok
            && apply_call(cs[i], ms[i])->Ok_0.1 == ms[i + 1] by {
            assert(cs[i] == calls[i]);
            assert(ms[i] == markets[i]);
            assert(ms[i + 1] == markets[i + 1]);
        }
        lemma_open_interest_is_sum_of_fills(ms, cs);
        assert(apply_call(calls[n], markets[n]) is Ok);
    }
}

} // verus!
