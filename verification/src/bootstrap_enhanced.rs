//! Bootstrap phase with a vault that starts at $0: deposits earn MMT from a
//! fixed allocation, coverage is `vault / (0.5 * OI)`, and withdrawals that
//! look like a vampire attack halt the system.
use vstd::prelude::*;
use crate::bytes::bytes_eq;
use crate::error::BettingPlatformError;

verus! {

/// Vault size at which the bootstrap phase is complete ($100k).
pub const MINIMUM_VIABLE_VAULT: u64 = 100_000_000_000;
/// MMT set aside for early liquidity providers (2M MMT).
pub const BOOTSTRAP_MMT_ALLOCATION: u64 = 2_000_000_000_000;
/// Coverage (basis points) under which the system halts (0.5).
pub const COVERAGE_HALT_THRESHOLD: u64 = 5000;
/// Largest share of the vault (basis points) one withdrawal may take (20%).
pub const VAMPIRE_ATTACK_WITHDRAWAL_LIMIT: u64 = 2000;
/// Season in which the bootstrap runs.
pub const BOOTSTRAP_EPOCH: u8 = 1;

/// Why the bootstrap phase was halted.
#[derive(Clone, Copy, Debug, PartialEq, Eq, Structural)]
pub enum BootstrapHaltReason {
    NoHalt,
    LowCoverage,
    VampireAttack,
    ManualHalt,
}

impl Default for BootstrapHaltReason {
    fn default() -> (r: Self)
        ensures
            r == BootstrapHaltReason::NoHalt,
    {
        BootstrapHaltReason::NoHalt
    }
}

/// State of the bootstrap phase.
#[derive(Clone, Debug)]
pub struct EnhancedBootstrapCoordinator {
    pub authority: [u8; 32],
    pub vault: u64,
    pub total_oi: u64,
    /// Coverage in basis points (10000 = 1.0).
    pub coverage_ratio: u64,
    pub bootstrap_start_slot: u64,
    pub bootstrap_complete: bool,
    pub is_halted: bool,
    pub halt_reason: BootstrapHaltReason,
    pub mmt_pool_remaining: u64,
    pub mmt_distributed: u64,
    pub early_lp_addresses: Vec<[u8; 32]>,
    /// Deposited amount of each early provider, by position in `early_lp_addresses`.
    pub lp_shares: Vec<u64>,
    pub last_coverage_check: u64,
    pub consecutive_low_coverage: u8,
    pub withdrawal_count_current_window: u8,
    pub withdrawal_window_start: u64,
}

/// Snapshot of the bootstrap phase for display.
#[derive(Clone, Copy, Debug)]
pub struct BootstrapStatus {
    pub vault_balance: u64,
    pub coverage_ratio: u64,
    pub is_complete: bool,
    pub is_halted: bool,
    pub progress_percentage: u64,
    pub max_leverage: u64,
    pub mmt_remaining: u64,
    pub early_lp_count: u32,
}

/// Coverage in basis points: `vault * 10000 / (oi / 2)`, and 0 where there is
/// no open interest or half of it rounds to 0.
pub open spec fn spec_coverage(vault: int, oi: int) -> int {
    if oi == 0 || oi / 2 == 0 { 0 } else { vault * 10000 / (oi / 2) }
}

/// Whether computing the coverage overflows `u64`.
pub open spec fn coverage_overflows(vault: int, oi: int) -> bool {
    oi != 0 && vault * 10000 > u64::MAX
}

/// Leverage available: none under $1k, then one step per $1k up to 10x,
/// scaled down by coverage when coverage is strictly between 0 and 1.
pub open spec fn spec_max_leverage(vault: int, coverage: int) -> int {
    if vault < 1_000_000_000 {
        0
    } else {
        let lev = if vault / 1_000_000_000 < 10 { vault / 1_000_000_000 } else { 10 };
        if 0 < coverage < 10000 {
            let limited = coverage * lev / 10000;
            if limited < lev { limited } else { lev }
        } else {
            lev
        }
    }
}

/// Early-deposit bonus as a fraction: 2x under $1k, 1.5x under $5k, 1x after.
pub open spec fn spec_early_bonus(vault: int) -> (int, int) {
    if vault < 1_000_000_000 { (2, 1) } else if vault < 5_000_000_000 { (3, 2) } else { (1, 1) }
}

/// MMT paid for a deposit: a tenth of the remaining pool per $100k deposited,
/// times the early bonus of the vault after the deposit, capped at the pool.
pub open spec fn spec_mmt_reward(pool: int, vault_after: int, deposit: int) -> int {
    if pool == 0 {
        0
    } else {
        let (bn, bd) = spec_early_bonus(vault_after);
        let raw = pool * deposit * bn / (MINIMUM_VIABLE_VAULT * 10 * bd);
        if raw < pool { raw } else { pool }
    }
}

/// Which deposit timing message applies at a vault size: 0 below $1k, 1
/// below $5k, 2 below $10k, 3 from $10k on.
pub open spec fn spec_timing_tier(vault: int) -> int {
    if vault <= 999_999_999 { 0 } else if vault <= 4_999_999_999 { 1 } else if vault <= 9_999_999_999 { 2 } else { 3 }
}

/// Splitting a scaled quotient into whole and remainder parts.
proof fn lemma_scaled_div(x: int, k: int, d: int)
    requires
        x >= 0,
        k >= 0,
        d > 0,
    ensures
        (x * k) / d == (x / d) * k + ((x % d) * k) / d,
{
    vstd::arithmetic::div_mod::lemma_fundamental_div_mod(x, d);
    let q = x / d;
    let m = x % d;
    assert(x * k == m * k + (q * k) * d) by (nonlinear_arith)
        requires x == d * q + m;
    vstd::arithmetic::div_mod::lemma_hoist_over_denominator(m * k, q * k, d as nat);
}

/// MMT paid for `deposit` out of `pool`, the vault holding `vault_after`.
fn mmt_reward(pool: u64, vault_after: u64, deposit: u64) -> (r: u64)
    ensures
        r == spec_mmt_reward(pool as int, vault_after as int, deposit as int),
        r <= pool,
{
    if pool == 0 {
        return 0;
    }
    let (bn, bd): (u128, u128) = if vault_after < 1_000_000_000 {
        (2, 1)
    } else if vault_after < 5_000_000_000 {
        (3, 2)
    } else {
        (1, 1)
    };
    assert(pool * deposit <= u64::MAX * u64::MAX) by (nonlinear_arith)
        requires pool <= u64::MAX, deposit <= u64::MAX;
    let x: u128 = (pool as u128) * (deposit as u128);
    let d: u128 = 1_000_000_000_000u128 * bd;
    let q: u128 = x / d;
    let m: u128 = x % d;
    assert(q <= x / 1_000_000_000_000) by (nonlinear_arith)
        requires q == x / d, d >= 1_000_000_000_000, x >= 0;
    assert(m * bn < d * 3) by (nonlinear_arith)
        requires m < d, bn <= 3, 0 <= m;
    let raw: u128 = q * bn + (m * bn) / d;
    proof {
        lemma_scaled_div(x as int, bn as int, d as int);
        assert(MINIMUM_VIABLE_VAULT * 10 * bd == d);
    }
    if raw < pool as u128 { raw as u64 } else { pool }
}

/// Whether `who` is among the listed providers.
pub open spec fn lp_listed(addrs: Seq<[u8; 32]>, who: [u8; 32]) -> bool {
    exists|i: int| 0 <= i < addrs.len() && addrs[i]@ == who@
}

/// The provider lists after `amount` from `who` is recorded: added to the
/// share of a listed provider, or a new entry at the end.
pub open spec fn lp_recorded(
    old_a: Seq<[u8; 32]>,
    old_s: Seq<u64>,
    new_a: Seq<[u8; 32]>,
    new_s: Seq<u64>,
    who: [u8; 32],
    amount: u64,
) -> bool {
    if lp_listed(old_a, who) {
        &&& new_a == old_a
        &&& forall|i: int|
            0 <= i < old_a.len() && old_a[i]@ == who@ ==> new_s == old_s.update(
                i,
                (old_s[i] + amount) as u64,
            )
    } else {
        new_a == old_a.push(who) && new_s == old_s.push(amount)
    }
}

/// Whether adding `amount` to the share of `who` overflows.
pub open spec fn lp_share_overflows(addrs: Seq<[u8; 32]>, shares: Seq<u64>, who: [u8; 32], amount: u64) -> bool {
    exists|i: int| 0 <= i < addrs.len() && addrs[i]@ == who@ && shares[i] + amount > u64::MAX
}

/// Position of `who` among the listed providers.
fn find_lp(addrs: &Vec<[u8; 32]>, who: &[u8; 32]) -> (r: Option<usize>)
    ensures
        r is None <==> !lp_listed(addrs@, *who),
        r matches Some(i) ==> i < addrs@.len() && addrs@[i as int]@ == who@,
{
    let mut i: usize = 0;
    while i < addrs.len()
        invariant
            i <= addrs@.len(),
            forall|j: int| 0 <= j < i ==> addrs@[j]@ != who@,
        decreases addrs@.len() - i,
    {
        if bytes_eq(&addrs[i], who) {
            return Some(i);
        }
        i = i + 1;
    }
    None
}

impl Default for EnhancedBootstrapCoordinator {
    fn default() -> (r: Self)
        ensures
            r.authority@ == Seq::new(32, |i: int| 0u8),
            r.vault == 0,
            r.total_oi == 0,
            r.coverage_ratio == 0,
            r.bootstrap_start_slot == 0,
            !r.bootstrap_complete,
            !r.is_halted,
            r.halt_reason == BootstrapHaltReason::NoHalt,
            r.mmt_pool_remaining == 0,
            r.mmt_distributed == 0,
            r.early_lp_addresses@.len() == 0,
            r.lp_shares@.len() == 0,
            r.last_coverage_check == 0,
            r.consecutive_low_coverage == 0,
            r.withdrawal_count_current_window == 0,
            r.withdrawal_window_start == 0,
    {
        let r = EnhancedBootstrapCoordinator {
            authority: [0u8; 32],
            vault: 0,
            total_oi: 0,
            coverage_ratio: 0,
            bootstrap_start_slot: 0,
            bootstrap_complete: false,
            is_halted: false,
            halt_reason: BootstrapHaltReason::NoHalt,
            mmt_pool_remaining: 0,
            mmt_distributed: 0,
            early_lp_addresses: Vec::new(),
            lp_shares: Vec::new(),
            last_coverage_check: 0,
            consecutive_low_coverage: 0,
            withdrawal_count_current_window: 0,
            withdrawal_window_start: 0,
        };
        assert(r.authority@ =~= Seq::new(32, |i: int| 0u8));
        r
    }
}

impl EnhancedBootstrapCoordinator {
    /// Serialized size, with room for 100 early providers.
    pub const SIZE: usize = 32 + 8 + 8 + 8 + 8 + 1 + 1 + 1 + 8 + 8 + 4 + 3200 + 4 + 800 + 8 + 1 + 1 + 8;

    /// Each early provider is listed once, with one share entry.
    pub open spec fn wf(&self) -> bool {
        &&& self.early_lp_addresses@.len() == self.lp_shares@.len()
        &&& forall|i: int, j: int|
            0 <= i < j < self.early_lp_addresses@.len() ==> self.early_lp_addresses@[i]@
                != self.early_lp_addresses@[j]@
    }

    /// Starts the bootstrap with an empty vault and the whole MMT allocation.
    pub fn initialize(&mut self, authority: &[u8; 32], current_slot: u64) -> (r: Result<(), BettingPlatformError>)
        ensures
            r is Ok,
            final(self).wf(),
            final(self).authority@ == authority@,
            final(self).vault == 0,
            final(self).total_oi == 0,
            final(self).coverage_ratio == 0,
            final(self).bootstrap_start_slot == current_slot,
            !final(self).bootstrap_complete,
            !final(self).is_halted,
            final(self).halt_reason == BootstrapHaltReason::NoHalt,
            final(self).mmt_pool_remaining == BOOTSTRAP_MMT_ALLOCATION,
            final(self).mmt_distributed == 0,
            final(self).early_lp_addresses@.len() == 0,
            final(self).lp_shares@.len() == 0,
            final(self).last_coverage_check == current_slot,
            final(self).consecutive_low_coverage == 0,
            final(self).withdrawal_count_current_window == 0,
            final(self).withdrawal_window_start == current_slot,
    {
        self.authority = *authority;
        self.vault = 0;
        self.total_oi = 0;
        self.coverage_ratio = 0;
        self.bootstrap_start_slot = current_slot;
        self.bootstrap_complete = false;
        self.is_halted = false;
        self.halt_reason = BootstrapHaltReason::NoHalt;
        self.mmt_pool_remaining = BOOTSTRAP_MMT_ALLOCATION;
        self.mmt_distributed = 0;
        self.early_lp_addresses = Vec::new();
        self.lp_shares = Vec::new();
        self.last_coverage_check = current_slot;
        self.consecutive_low_coverage = 0;
        self.withdrawal_count_current_window = 0;
        self.withdrawal_window_start = current_slot;
        Ok(())
    }

    /// How far a deposit of `amount` from `who` gets: 0 when the vault would
    /// overflow, 1 when the provider's share would, 2 when the distributed MMT
    /// would, 3 when the coverage would, 4 when it goes through.
    pub open spec fn deposit_stage(&self, who: [u8; 32], amount: u64) -> int {
        let nv = self.vault + amount;
        let rw = spec_mmt_reward(self.mmt_pool_remaining as int, nv, amount as int);
        if nv > u64::MAX {
            0
        } else if lp_share_overflows(self.early_lp_addresses@, self.lp_shares@, who, amount) {
            1
        } else if self.mmt_distributed + rw > u64::MAX {
            2
        } else if coverage_overflows(nv, self.total_oi as int) {
            3
        } else {
            4
        }
    }

    /// MMT a deposit made now earns.
    pub open spec fn deposit_reward(&self, amount: u64) -> int {
        spec_mmt_reward(self.mmt_pool_remaining as int, self.vault + amount, amount as int)
    }

    /// Fields a deposit never changes are equal.
    pub open spec fn deposit_frame(&self, other: &Self) -> bool {
        &&& other.authority == self.authority
        &&& other.total_oi == self.total_oi
        &&& other.bootstrap_start_slot == self.bootstrap_start_slot
        &&& other.is_halted == self.is_halted
        &&& other.halt_reason == self.halt_reason
        &&& other.last_coverage_check == self.last_coverage_check
        &&& other.consecutive_low_coverage == self.consecutive_low_coverage
        &&& other.withdrawal_count_current_window == self.withdrawal_count_current_window
        &&& other.withdrawal_window_start == self.withdrawal_window_start
    }

    /// MMT reward for a deposit, the vault already holding it.
    fn calculate_mmt_reward(&self, deposit_amount: u64) -> (r: u64)
        ensures
            r == spec_mmt_reward(self.mmt_pool_remaining as int, self.vault as int, deposit_amount as int),
            r <= self.mmt_pool_remaining,
    {
        mmt_reward(self.mmt_pool_remaining, self.vault, deposit_amount)
    }

    /// Adds a deposit to the vault, records the provider and pays its MMT
    /// reward out of the pool. Each step that overflows stops the deposit
    /// with `MathOverflow`, keeping the steps before it.
    pub fn process_deposit(&mut self, depositor: &[u8; 32], amount: u64, current_slot: u64) -> (r: Result<u64, BettingPlatformError>)
        requires
            old(self).wf(),
        ensures
            final(self).wf(),
            old(self).deposit_frame(final(self)),
            r is Err <==> old(self).deposit_stage(*depositor, amount) < 4,
            r is Err ==> r == Err::<u64, BettingPlatformError>(BettingPlatformError::MathOverflow),
            old(self).deposit_stage(*depositor, amount) == 0 ==> *final(self) == *old(self),
            old(self).deposit_stage(*depositor, amount) >= 1 ==> final(self).vault == old(self).vault + amount,
            old(self).deposit_stage(*depositor, amount) <= 1 ==> final(self).early_lp_addresses@ == old(self).early_lp_addresses@
                && final(self).lp_shares@ == old(self).lp_shares@,
            old(self).deposit_stage(*depositor, amount) >= 2 ==> lp_recorded(
                old(self).early_lp_addresses@, old(self).lp_shares@,
                final(self).early_lp_addresses@, final(self).lp_shares@, *depositor, amount),
            old(self).deposit_stage(*depositor, amount) <= 2 ==> final(self).mmt_distributed == old(self).mmt_distributed
                && final(self).mmt_pool_remaining == old(self).mmt_pool_remaining,
            old(self).deposit_stage(*depositor, amount) >= 3 ==> final(self).mmt_distributed == old(self).mmt_distributed + old(self).deposit_reward(amount)
                && final(self).mmt_pool_remaining == old(self).mmt_pool_remaining - old(self).deposit_reward(amount),
            final(self).mmt_distributed + final(self).mmt_pool_remaining == old(self).mmt_distributed + old(self).mmt_pool_remaining,
            old(self).deposit_stage(*depositor, amount) <= 3 ==> final(self).coverage_ratio == old(self).coverage_ratio
                && final(self).bootstrap_complete == old(self).bootstrap_complete,
            old(self).deposit_stage(*depositor, amount) == 4 ==> r == Ok::<u64, BettingPlatformError>(old(self).deposit_reward(amount) as u64)
                && final(self).coverage_ratio == spec_coverage(old(self).vault + amount, old(self).total_oi as int)
                && final(self).bootstrap_complete == (old(self).bootstrap_complete || old(self).vault + amount >= MINIMUM_VIABLE_VAULT),
    {
        let nv = match self.vault.checked_add(amount) {
            Some(v) => v,
            None => return Err(BettingPlatformError::MathOverflow),
        };
        self.vault = nv;
        let reward = self.calculate_mmt_reward(amount);
        match find_lp(&self.early_lp_addresses, depositor) {
            None => {
                self.early_lp_addresses.push(*depositor);
                self.lp_shares.push(amount);
                proof {
                    assert(!lp_share_overflows(old(self).early_lp_addresses@, old(self).lp_shares@, *depositor, amount));
                }
            },
            Some(pos) => {
                let cur = self.lp_shares[pos];
                match cur.checked_add(amount) {
                    Some(v) => {
                        self.lp_shares.set(pos, v);
                        proof {
                            assert(!lp_share_overflows(old(self).early_lp_addresses@, old(self).lp_shares@, *depositor, amount));
                        }
                    },
                    None => {
                        proof {
                            assert(lp_share_overflows(old(self).early_lp_addresses@, old(self).lp_shares@, *depositor, amount));
                        }
                        return Err(BettingPlatformError::MathOverflow);
                    },
                }
            },
        }
        self.mmt_distributed = match self.mmt_distributed.checked_add(reward) {
            Some(v) => v,
            None => return Err(BettingPlatformError::MathOverflow),
        };
        self.mmt_pool_remaining = self.mmt_pool_remaining - reward;
        match self.update_coverage_ratio() {
            Ok(()) => {},
            Err(e) => return Err(e),
        }
        if !self.bootstrap_complete && self.vault >= MINIMUM_VIABLE_VAULT {
            self.bootstrap_complete = true;
        }
        Ok(reward)
    }

    /// Whether the withdrawal window has run out at `slot` (more than 150
    /// slots, about 60 seconds, after it opened).
    pub open spec fn window_expired(&self, slot: u64) -> bool {
        slot > self.withdrawal_window_start + 150
    }

    /// The state with the withdrawal window reopened where it has run out.
    pub open spec fn after_window(&self, slot: u64) -> Self {
        if self.window_expired(slot) {
            EnhancedBootstrapCoordinator { withdrawal_count_current_window: 0, withdrawal_window_start: slot, ..*self }
        } else {
            *self
        }
    }

    /// Whether withdrawing `w` would leave a vault under half the open
    /// interest: remaining vault * 10000 / open interest below the halt
    /// threshold.
    pub open spec fn coverage_would_trip(&self, w: u64) -> bool {
        self.total_oi > 0 && (self.vault - w) * 10000 / (self.total_oi as int) < COVERAGE_HALT_THRESHOLD as int
    }

    /// Whether `w` is more than 20% of the vault.
    pub open spec fn withdrawal_too_large(&self, w: u64) -> bool {
        w * 10000 / (self.vault as int) > VAMPIRE_ATTACK_WITHDRAWAL_LIMIT as int
    }

    /// Inputs on which the vampire check computes without overflow or
    /// division by zero.
    pub open spec fn vampire_check_defined(&self, w: u64, slot: u64) -> bool {
        let s = self.after_window(slot);
        w > self.vault || {
            &&& (self.total_oi > 0 ==> (self.vault - w) * 10000 <= u64::MAX)
            &&& (self.coverage_would_trip(w) || {
                &&& self.vault > 0
                &&& w * 10000 <= u64::MAX
                &&& (self.withdrawal_too_large(w) || s.withdrawal_count_current_window < 255)
            })
        }
    }

    /// State and answer of the vampire check for a withdrawal of `w` at `slot`.
    pub open spec fn vampire_outcome(&self, w: u64, slot: u64) -> (Self, Result<bool, BettingPlatformError>) {
        let s = self.after_window(slot);
        if w > self.vault {
            (s, Err(BettingPlatformError::InsufficientFunds))
        } else if self.coverage_would_trip(w) {
            (EnhancedBootstrapCoordinator { is_halted: true, halt_reason: BootstrapHaltReason::LowCoverage, ..s }, Ok(true))
        } else if self.withdrawal_too_large(w) {
            (s, Ok(true))
        } else {
            let count = (s.withdrawal_count_current_window + 1) as u8;
            if count > 3 {
                (EnhancedBootstrapCoordinator {
                    withdrawal_count_current_window: count,
                    is_halted: true,
                    halt_reason: BootstrapHaltReason::VampireAttack,
                    ..s
                }, Ok(true))
            } else {
                (EnhancedBootstrapCoordinator { withdrawal_count_current_window: count, ..s }, Ok(false))
            }
        }
    }

    /// Checks whether a withdrawal looks like a vampire attack: it would take
    /// the vault under half the open interest (halts), it is more than 20% of the vault, or it is
    /// the fourth in one window (halts).
    pub fn check_vampire_attack(&mut self, withdrawal_amount: u64, current_slot: u64) -> (r: Result<bool, BettingPlatformError>)
        requires
            old(self).vampire_check_defined(withdrawal_amount, current_slot),
        ensures
            (*final(self), r) == old(self).vampire_outcome(withdrawal_amount, current_slot),
    {
        if current_slot > self.withdrawal_window_start && current_slot - self.withdrawal_window_start > 150 {
            self.withdrawal_count_current_window = 0;
            self.withdrawal_window_start = current_slot;
        }
        if withdrawal_amount > self.vault {
            return Err(BettingPlatformError::InsufficientFunds);
        }
        let new_vault_balance = self.vault - withdrawal_amount;
        if self.total_oi > 0 {
            let new_coverage = (new_vault_balance * 10000) / self.total_oi;
            if new_coverage < COVERAGE_HALT_THRESHOLD {
                self.is_halted = true;
                self.halt_reason = BootstrapHaltReason::LowCoverage;
                return Ok(true);
            }
        }
        let withdrawal_percentage = (withdrawal_amount * 10000) / self.vault;
        if withdrawal_percentage > VAMPIRE_ATTACK_WITHDRAWAL_LIMIT {
            return Ok(true);
        }
        self.withdrawal_count_current_window = self.withdrawal_count_current_window + 1;
        if self.withdrawal_count_current_window > 3 {
            self.is_halted = true;
            self.halt_reason = BootstrapHaltReason::VampireAttack;
            return Ok(true);
        }
        Ok(false)
    }

    /// State and answer of a withdrawal of `amount` at `slot`: refused when
    /// the vampire check fails or fires; otherwise the vault shrinks, coverage
    /// is recomputed, and three low readings in a row halt the system.
    pub open spec fn withdrawal_outcome(&self, amount: u64, slot: u64) -> (Self, Result<(), BettingPlatformError>) {
        let (s, v) = self.vampire_outcome(amount, slot);
        match v {
            Err(e) => (s, Err(e)),
            Ok(true) => (s, Err(BettingPlatformError::VampireAttackDetected)),
            Ok(false) => {
                let nv = (s.vault - amount) as u64;
                let cov = spec_coverage(nv as int, s.total_oi as int) as u64;
                let s2 = EnhancedBootstrapCoordinator { vault: nv, coverage_ratio: cov, ..s };
                if cov < COVERAGE_HALT_THRESHOLD && s.total_oi > 0 {
                    let c = (s.consecutive_low_coverage + 1) as u8;
                    if c >= 3 {
                        (EnhancedBootstrapCoordinator {
                            consecutive_low_coverage: c,
                            is_halted: true,
                            halt_reason: BootstrapHaltReason::LowCoverage,
                            ..s2
                        }, Ok(()))
                    } else {
                        (EnhancedBootstrapCoordinator { consecutive_low_coverage: c, ..s2 }, Ok(()))
                    }
                } else {
                    (EnhancedBootstrapCoordinator { consecutive_low_coverage: 0, ..s2 }, Ok(()))
                }
            },
        }
    }

    /// Inputs on which a withdrawal computes without overflow or division by zero.
    pub open spec fn withdrawal_defined(&self, amount: u64, slot: u64) -> bool {
        &&& self.vampire_check_defined(amount, slot)
        &&& (self.vampire_outcome(amount, slot).1 == Ok::<bool, BettingPlatformError>(false) && self.total_oi > 0
            && spec_coverage(self.vault - amount, self.total_oi as int) < COVERAGE_HALT_THRESHOLD
            ==> self.consecutive_low_coverage < 255)
    }

    /// Withdraws `amount` after the vampire check.
    pub fn process_withdrawal(&mut self, amount: u64, current_slot: u64) -> (r: Result<(), BettingPlatformError>)
        requires
            old(self).withdrawal_defined(amount, current_slot),
        ensures
            (*final(self), r) == old(self).withdrawal_outcome(amount, current_slot),
    {
        match self.check_vampire_attack(amount, current_slot) {
            Err(e) => return Err(e),
            Ok(true) => return Err(BettingPlatformError::VampireAttackDetected),
            Ok(false) => {},
        }
        self.vault = self.vault - amount;
        match self.update_coverage_ratio() {
            Ok(()) => {},
            Err(e) => return Err(e),
        }
        if self.coverage_ratio < COVERAGE_HALT_THRESHOLD && self.total_oi > 0 {
            self.consecutive_low_coverage = self.consecutive_low_coverage + 1;
            if self.consecutive_low_coverage >= 3 {
                self.is_halted = true;
                self.halt_reason = BootstrapHaltReason::LowCoverage;
            }
        } else {
            self.consecutive_low_coverage = 0;
        }
        Ok(())
    }

    /// Recomputes `coverage_ratio` from the vault and open interest.
    pub fn update_coverage_ratio(&mut self) -> (r: Result<(), BettingPlatformError>)
        ensures
            coverage_overflows(old(self).vault as int, old(self).total_oi as int) ==> r == Err::<(), BettingPlatformError>(BettingPlatformError::MathOverflow) && *final(self) == *old(self),
            !coverage_overflows(old(self).vault as int, old(self).total_oi as int) ==> r is Ok && *final(self) == (EnhancedBootstrapCoordinator {
                coverage_ratio: spec_coverage(old(self).vault as int, old(self).total_oi as int) as u64,
                ..*old(self)
            }),
    {
        if self.total_oi == 0 {
            self.coverage_ratio = 0;
            return Ok(());
        }
        let numerator = match self.vault.checked_mul(10000) {
            Some(n) => n,
            None => return Err(BettingPlatformError::MathOverflow),
        };
        let denominator = self.total_oi / 2;
        self.coverage_ratio = if denominator == 0 { 0 } else { numerator / denominator };
        Ok(())
    }

    /// Largest leverage the vault supports (0 to 10).
    pub fn calculate_max_leverage(&self) -> (r: u64)
        ensures
            r == spec_max_leverage(self.vault as int, self.coverage_ratio as int),
            r <= 10,
    {
        if self.vault < 1_000_000_000 {
            return 0;
        }
        let steps = self.vault / 1_000_000_000;
        let leverage = if steps < 10 { steps } else { 10 };
        if self.coverage_ratio > 0 && self.coverage_ratio < 10000 {
            assert(self.coverage_ratio * leverage <= 10000 * 10) by (nonlinear_arith)
                requires self.coverage_ratio < 10000, leverage <= 10;
            let coverage_limited = (self.coverage_ratio * leverage) / 10000;
            if coverage_limited < leverage { coverage_limited } else { leverage }
        } else {
            leverage
        }
    }

    /// Snapshot for display.
    pub fn get_status(&self) -> (r: BootstrapStatus)
        requires
            self.vault * 100 <= u64::MAX,
        ensures
            r.vault_balance == self.vault,
            r.coverage_ratio == self.coverage_ratio,
            r.is_complete == self.bootstrap_complete,
            r.is_halted == self.is_halted,
            r.progress_percentage == self.vault * 100 / MINIMUM_VIABLE_VAULT as int,
            r.max_leverage == spec_max_leverage(self.vault as int, self.coverage_ratio as int),
            r.mmt_remaining == self.mmt_pool_remaining,
            r.early_lp_count == self.early_lp_addresses@.len() as u32,
    {
        BootstrapStatus {
            vault_balance: self.vault,
            coverage_ratio: self.coverage_ratio,
            is_complete: self.bootstrap_complete,
            is_halted: self.is_halted,
            progress_percentage: (self.vault * 100) / MINIMUM_VIABLE_VAULT,
            max_leverage: self.calculate_max_leverage(),
            mmt_remaining: self.mmt_pool_remaining,
            early_lp_count: self.early_lp_addresses.len() as u32,
        }
    }

    /// What a deposit made now earns compared with later ones.
    pub fn get_deposit_timing_edge(&self) -> (r: &'static str)
        ensures
            spec_timing_tier(self.vault as int) == 0 ==> r@ == "Maximum edge: 2x MMT multiplier + first mover advantage"@,
            spec_timing_tier(self.vault as int) == 1 ==> r@ == "High edge: 1.5x MMT multiplier"@,
            spec_timing_tier(self.vault as int) == 2 ==> r@ == "Good edge: Standard MMT + leverage unlock soon"@,
            spec_timing_tier(self.vault as int) == 3 ==> r@ == "Normal returns: Bootstrap complete, standard APY"@,
    {
        if self.vault <= 999_999_999 {
            "Maximum edge: 2x MMT multiplier + first mover advantage"
        } else if self.vault <= 4_999_999_999 {
            "High edge: 1.5x MMT multiplier"
        } else if self.vault <= 9_999_999_999 {
            "Good edge: Standard MMT + leverage unlock soon"
        } else {
            "Normal returns: Bootstrap complete, standard APY"
        }
    }
}

/// A withdrawal never lifts a halt, and a refused withdrawal leaves the
/// vault and the open interest as they were.
pub proof fn lemma_withdrawal_keeps_halt_and_funds(c: EnhancedBootstrapCoordinator, amount: u64, slot: u64)
    ensures
        c.is_halted ==> c.withdrawal_outcome(amount, slot).0.is_halted,
        c.withdrawal_outcome(amount, slot).1 is Err ==> c.withdrawal_outcome(amount, slot).0.vault == c.vault,
        c.withdrawal_outcome(amount, slot).0.total_oi == c.total_oi,
{
}

/// The MMT a deposit earns is never more than what is left in the pool.
pub proof fn lemma_deposit_reward_within_pool(c: EnhancedBootstrapCoordinator, amount: u64)
    ensures
        0 <= c.deposit_reward(amount) <= c.mmt_pool_remaining,
{
}

} // verus!
