//! End-to-end scenarios run on chain against simulated users and markets:
//! basic trading, a stress run, a liquidation cascade, manipulation
//! detection, recovery and a full user journey, with assertion counts and
//! a report per test and per suite.
use vstd::prelude::*;
use crate::crypto::new_unique_key;
use crate::error::BettingPlatformError;

verus! {

/// Starting balance of a simulated user ($1000).
pub const TEST_INITIAL_BALANCE: u64 = 1_000_000_000_000;
/// Simulated markets per test.
pub const TEST_MARKET_COUNT: usize = 10;
/// Simulated users per test.
pub const TEST_USER_COUNT: usize = 100;
/// Longest test (~48 hours).
pub const MAX_TEST_DURATION_SLOTS: u64 = 432_000;
/// Trades per second the stress test aims for.
pub const STRESS_TEST_TPS: u32 = 1000;

/// Kinds of scenario.
#[derive(Clone, Copy, Debug, PartialEq, Eq, Structural)]
pub enum TestType {
    BasicTrading,
    StressTest,
    LiquidationScenario,
    MarketManipulation,
    SystemRecovery,
    FullUserJourney,
}

/// State of a test.
#[derive(Clone, Copy, Debug, PartialEq, Eq, Structural)]
pub enum TestStatus {
    Initialized,
    Running,
    Passed,
    Failed,
    Aborted,
}

/// A leveraged position of a simulated user.
#[derive(Clone, Copy, Debug)]
pub struct TestPosition {
    pub market_id: [u8; 32],
    pub size: u64,
    pub leverage: u32,
    pub entry_price: u64,
    pub liquidation_price: u64,
}

/// A simulated user.
#[derive(Clone, Debug)]
pub struct TestUser {
    pub pubkey: [u8; 32],
    pub balance: u64,
    pub positions: Vec<TestPosition>,
    pub trades_executed: u32,
    pub pnl: i64,
}

/// A simulated market.
#[derive(Clone, Copy, Debug)]
pub struct TestMarket {
    pub market_id: [u8; 32],
    pub yes_price: u64,
    pub no_price: u64,
    pub liquidity: u64,
    pub volume: u64,
    pub trades: u32,
}

/// What a test observed.
#[derive(Clone, Copy, Debug)]
pub struct TestResults {
    pub trades_processed: u64,
    pub peak_tps: u32,
    pub liquidations_processed: u32,
    pub markets_settled: u32,
    pub errors_encountered: u32,
    pub security_events_detected: u32,
    pub recovery_successful: bool,
    pub full_journeys_completed: u32,
}

impl TestResults {
    pub const SIZE: usize = 33;
}

impl Default for TestResults {
    fn default() -> (r: Self)
        ensures
            r == spec_no_results(),
    {
        TestResults {
            trades_processed: 0,
            peak_tps: 0,
            liquidations_processed: 0,
            markets_settled: 0,
            errors_encountered: 0,
            security_events_detected: 0,
            recovery_successful: false,
            full_journeys_completed: 0,
        }
    }
}

/// Results of a test that observed nothing yet.
pub open spec fn spec_no_results() -> TestResults {
    TestResults {
        trades_processed: 0,
        peak_tps: 0,
        liquidations_processed: 0,
        markets_settled: 0,
        errors_encountered: 0,
        security_events_detected: 0,
        recovery_successful: false,
        full_journeys_completed: 0,
    }
}

/// Report of one test.
#[derive(Clone, Copy, Debug)]
pub struct TestReport {
    pub test_id: u128,
    pub test_type: TestType,
    pub status: TestStatus,
    pub duration_slots: u64,
    pub assertions_passed: u32,
    pub assertions_failed: u32,
    pub results: TestResults,
}

/// A test run.
#[derive(Clone, Debug)]
pub struct E2ETestFramework {
    pub test_id: u128,
    pub test_type: TestType,
    pub test_status: TestStatus,
    pub start_slot: u64,
    pub end_slot: Option<u64>,
    pub test_users: Vec<TestUser>,
    pub test_markets: Vec<TestMarket>,
    pub test_results: TestResults,
    pub assertions_passed: u32,
    pub assertions_failed: u32,
}

/// Runs a list of tests.
#[derive(Clone, Debug)]
pub struct TestHarness {
    pub test_suite_id: u128,
    pub tests_to_run: Vec<TestType>,
    pub tests_completed: Vec<TestReport>,
    pub suite_start_time: i64,
    pub suite_end_time: Option<i64>,
}

/// Report of a suite.
#[derive(Clone, Debug)]
pub struct TestSuiteReport {
    pub suite_id: u128,
    pub total_tests: u32,
    pub passed_tests: u32,
    pub failed_tests: u32,
    pub total_assertions: u32,
    pub passed_assertions: u32,
    pub duration_seconds: i64,
    pub test_reports: Vec<TestReport>,
}

/// A freshly created simulated user, apart from its key.
pub open spec fn spec_fresh_user(u: TestUser) -> bool {
    &&& u.balance == TEST_INITIAL_BALANCE
    &&& u.positions@.len() == 0
    &&& u.trades_executed == 0
    &&& u.pnl == 0
}

/// A freshly created simulated market at 50/50 with $100k liquidity, apart
/// from its key.
pub open spec fn spec_fresh_market(m: TestMarket) -> bool {
    &&& m.yes_price == 5000
    &&& m.no_price == 5000
    &&& m.liquidity == 100_000_000_000
    &&& m.volume == 0
    &&& m.trades == 0
}

/// The position the liquidation and journey scenarios open: $10k or $1000
/// at 10x from 50%, liquidated below 45%.
pub open spec fn spec_scenario_position(market_id: [u8; 32], size: u64) -> TestPosition {
    TestPosition { market_id, size, leverage: 10, entry_price: 5000, liquidation_price: 4500 }
}

/// What a scenario needs of the simulated users and markets: as many as
/// it touches, and room in the counters it raises.
pub open spec fn spec_scenario_fits(f: E2ETestFramework) -> bool {
    let us = f.test_users@;
    let ms = f.test_markets@;
    match f.test_type {
        TestType::BasicTrading => {
            &&& us.len() >= 10
            &&& ms.len() >= 1
            &&& forall|i: int| 0 <= i < 10 ==> (#[trigger] us[i]).trades_executed < u32::MAX
            &&& ms[0].trades + 10 <= u32::MAX
            &&& ms[0].volume + 10_000_000_000 <= u64::MAX
        },
        TestType::StressTest => {
            &&& us.len() >= TEST_USER_COUNT
            &&& ms.len() >= TEST_MARKET_COUNT
            &&& forall|i: int| 0 <= i < TEST_USER_COUNT ==> (#[trigger] us[i]).trades_executed + 10 <= u32::MAX
            &&& forall|i: int| 0 <= i < TEST_MARKET_COUNT ==> (#[trigger] ms[i]).trades + 100 <= u32::MAX
            &&& f.assertions_passed < u32::MAX
            &&& f.assertions_failed < u32::MAX
        },
        TestType::LiquidationScenario => {
            &&& us.len() >= 5
            &&& ms.len() >= 1
            &&& forall|i: int| 0 <= i < 5 ==> (#[trigger] us[i]).pnl - spec_first_position(
                us[i],
                spec_scenario_position(ms[0].market_id, 10_000_000_000),
            ).size / 2 >= i64::MIN
            &&& f.assertions_passed < u32::MAX
            &&& f.assertions_failed < u32::MAX
        },
        TestType::MarketManipulation => {
            &&& us.len() >= 1
            &&& ms.len() >= 1
            &&& us[0].trades_executed + 200 <= u32::MAX
            &&& ms[0].trades + 200 <= u32::MAX
            &&& f.assertions_passed + 2 <= u32::MAX
        },
        TestType::SystemRecovery => f.assertions_passed < u32::MAX,
        TestType::FullUserJourney => us.len() >= 1 && ms.len() >= 1,
    }
}

/// The users after the basic trading scenario: the first ten trade once.
pub open spec fn spec_traded_once(old_us: Seq<TestUser>, new_us: Seq<TestUser>) -> bool {
    &&& new_us.len() == old_us.len()
    &&& forall|i: int| 0 <= i < new_us.len() ==> (#[trigger] new_us[i]).pubkey == old_us[i].pubkey && new_us[i].balance
        == old_us[i].balance && new_us[i].positions == old_us[i].positions && new_us[i].pnl == old_us[i].pnl
        && new_us[i].trades_executed == old_us[i].trades_executed + (if i < 10 { 1int } else { 0int })
}

/// A test just set up: nothing observed, no assertion counted, and 100
/// fresh users and 10 fresh markets.
pub open spec fn spec_fresh_environment(f: E2ETestFramework) -> bool {
    &&& f.test_results == spec_no_results()
    &&& f.assertions_passed == 0
    &&& f.assertions_failed == 0
    &&& f.test_users@.len() == TEST_USER_COUNT
    &&& f.test_markets@.len() == TEST_MARKET_COUNT
    &&& forall|i: int| 0 <= i < f.test_users@.len() ==> spec_fresh_user(#[trigger] f.test_users@[i])
    &&& forall|i: int| 0 <= i < f.test_markets@.len() ==> spec_fresh_market(#[trigger] f.test_markets@[i])
}

/// What each scenario observes in a fresh environment when no time passes
/// during the stress run.
pub open spec fn spec_expected_results(t: TestType) -> TestResults {
    let none = spec_no_results();
    match t {
        TestType::BasicTrading => TestResults { trades_processed: 10, markets_settled: 1, ..none },
        TestType::StressTest => TestResults { peak_tps: 1000, trades_processed: 1000, ..none },
        TestType::LiquidationScenario => TestResults { liquidations_processed: 5, ..none },
        TestType::MarketManipulation => TestResults { security_events_detected: 2, ..none },
        TestType::SystemRecovery => TestResults { recovery_successful: true, ..none },
        TestType::FullUserJourney => TestResults { full_journeys_completed: 1, ..none },
    }
}

/// Assertions each scenario passes in a fresh environment.
pub open spec fn spec_expected_passes(t: TestType) -> u32 {
    match t {
        TestType::BasicTrading => 0,
        TestType::StressTest => 1,
        TestType::LiquidationScenario => 1,
        TestType::MarketManipulation => 2,
        TestType::SystemRecovery => 1,
        TestType::FullUserJourney => 0,
    }
}

proof fn lemma_fresh_fits(f: E2ETestFramework)
    requires
        spec_fresh_environment(f),
    ensures
        spec_scenario_fits(f),
{
    let us = f.test_users@;
    let ms = f.test_markets@;
    assert(spec_fresh_user(us[0]));
    assert(spec_fresh_market(ms[0]));
    let p = spec_scenario_position(ms[0].market_id, 10_000_000_000);
    assert forall|i: int| 0 <= i < 5 implies (#[trigger] us[i]).pnl - spec_first_position(us[i], p).size / 2 >= i64::MIN by {
        assert(spec_fresh_user(us[i]));
    }
}

proof fn lemma_fresh_all_liquidated(us: Seq<TestUser>, p: TestPosition)
    requires
        us.len() >= 5,
        forall|i: int| 0 <= i < us.len() ==> spec_fresh_user(#[trigger] us[i]),
        p.liquidation_price == 4500,
    ensures
        spec_liquidated_count(us.take(5), p) == 5,
{
    let t = us.take(5);
    assert forall|i: int| 0 <= i < 5 implies spec_liquidated(#[trigger] t[i], p) by {
        assert(spec_fresh_user(us[i]));
    }
    assert(t.drop_last().drop_last().drop_last().drop_last().drop_last().len() == 0);
    reveal_with_fuel(spec_liquidated_count, 6);
    assert(spec_liquidated(t[4], p));
    assert(spec_liquidated(t.drop_last()[3], p));
    assert(spec_liquidated(t.drop_last().drop_last()[2], p));
    assert(spec_liquidated(t.drop_last().drop_last().drop_last()[1], p));
    assert(spec_liquidated(t.drop_last().drop_last().drop_last().drop_last()[0], p));
}

impl E2ETestFramework {
    /// Serialized size without users and markets.
    pub const SIZE: usize = 16 + 1 + 1 + 8 + 9 + 4 + 4 + 33 + 4 + 4;

    /// Starts a test of a kind at the current slot, with nothing set up.
    pub fn initialize(&mut self, test_id: u128, test_type: TestType, current_slot: u64) -> (r: Result<(), BettingPlatformError>)
        ensures
            r is Ok,
            final(self).test_id == test_id,
            final(self).test_type == test_type,
            final(self).test_status == TestStatus::Initialized,
            final(self).start_slot == current_slot,
            final(self).end_slot is None,
            final(self).test_users@.len() == 0,
            final(self).test_markets@.len() == 0,
            final(self).test_results == spec_no_results(),
            final(self).assertions_passed == 0,
            final(self).assertions_failed == 0,
    {
        self.test_id = test_id;
        self.test_type = test_type;
        self.test_status = TestStatus::Initialized;
        self.start_slot = current_slot;
        self.end_slot = None;
        self.test_users = Vec::new();
        self.test_markets = Vec::new();
        self.test_results = TestResults::default();
        self.assertions_passed = 0;
        self.assertions_failed = 0;
        Ok(())
    }

    /// Adds 100 users with $1000 each and 10 markets at 50/50, each under a
    /// new key, and starts the test.
    pub fn setup_test_environment(&mut self) -> (r: Result<(), BettingPlatformError>)
        ensures
            r is Ok,
            final(self).test_users@.len() == old(self).test_users@.len() + TEST_USER_COUNT,
            final(self).test_users@.take(old(self).test_users@.len() as int) == old(self).test_users@,
            forall|i: int| old(self).test_users@.len() <= i < final(self).test_users@.len() ==> spec_fresh_user(
                #[trigger] final(self).test_users@[i],
            ),
            final(self).test_markets@.len() == old(self).test_markets@.len() + TEST_MARKET_COUNT,
            final(self).test_markets@.take(old(self).test_markets@.len() as int) == old(self).test_markets@,
            forall|i: int| old(self).test_markets@.len() <= i < final(self).test_markets@.len() ==> spec_fresh_market(
                #[trigger] final(self).test_markets@[i],
            ),
            final(self).test_status == TestStatus::Running,
            final(self).test_id == old(self).test_id,
            final(self).test_type == old(self).test_type,
            final(self).start_slot == old(self).start_slot,
            final(self).end_slot == old(self).end_slot,
            final(self).test_results == old(self).test_results,
            final(self).assertions_passed == old(self).assertions_passed,
            final(self).assertions_failed == old(self).assertions_failed,
    {
        let ghost us0 = self.test_users@;
        let mut i: usize = 0;
        while i < TEST_USER_COUNT
            invariant
                i <= TEST_USER_COUNT,
                us0 == old(self).test_users@,
                self.test_markets == old(self).test_markets,
                self.test_status == old(self).test_status,
                self.test_id == old(self).test_id,
                self.test_type == old(self).test_type,
                self.start_slot == old(self).start_slot,
                self.test_id == old(self).test_id,
                self.start_slot == old(self).start_slot,
                self.end_slot == old(self).end_slot,
                self.test_results == old(self).test_results,
                self.assertions_passed == old(self).assertions_passed,
                self.assertions_failed == old(self).assertions_failed,
                self.test_users@.len() == us0.len() + i,
                self.test_users@.take(us0.len() as int) == us0,
                forall|k: int| us0.len() <= k < self.test_users@.len() ==> spec_fresh_user(#[trigger] self.test_users@[k]),
            decreases TEST_USER_COUNT - i,
        {
            let user = TestUser {
                pubkey: new_unique_key(),
                balance: TEST_INITIAL_BALANCE,
                positions: Vec::new(),
                trades_executed: 0,
                pnl: 0,
            };
            let ghost before = self.test_users@;
            self.test_users.push(user);
            assert(self.test_users@.take(us0.len() as int) =~= before.take(us0.len() as int));
            i = i + 1;
        }
        let ghost ms0 = self.test_markets@;
        let ghost us1 = self.test_users@;
        let mut j: usize = 0;
        while j < TEST_MARKET_COUNT
            invariant
                j <= TEST_MARKET_COUNT,
                ms0 == old(self).test_markets@,
                self.test_users@ == us1,
                us1.len() == old(self).test_users@.len() + TEST_USER_COUNT,
                us1.take(old(self).test_users@.len() as int) == old(self).test_users@,
                forall|k: int| old(self).test_users@.len() <= k < us1.len() ==> spec_fresh_user(#[trigger] us1[k]),
                self.test_status == old(self).test_status,
                self.test_id == old(self).test_id,
                self.test_type == old(self).test_type,
                self.start_slot == old(self).start_slot,
                self.test_id == old(self).test_id,
                self.start_slot == old(self).start_slot,
                self.end_slot == old(self).end_slot,
                self.test_results == old(self).test_results,
                self.assertions_passed == old(self).assertions_passed,
                self.assertions_failed == old(self).assertions_failed,
                self.test_markets@.len() == ms0.len() + j,
                self.test_markets@.take(ms0.len() as int) == ms0,
                forall|k: int| ms0.len() <= k < self.test_markets@.len() ==> spec_fresh_market(#[trigger] self.test_markets@[k]),
            decreases TEST_MARKET_COUNT - j,
        {
            let market = TestMarket {
                market_id: new_unique_key(),
                yes_price: 5000,
                no_price: 5000,
                liquidity: 100_000_000_000,
                volume: 0,
                trades: 0,
            };
            let ghost before = self.test_markets@;
            self.test_markets.push(market);
            assert(self.test_markets@.take(ms0.len() as int) =~= before.take(ms0.len() as int));
            j = j + 1;
        }
        self.test_status = TestStatus::Running;
        Ok(())
    }

    /// Counts an assertion: passed when `condition` holds, else failed
    /// with `TestAssertionFailed`.
    fn assert_true(&mut self, condition: bool) -> (r: Result<(), BettingPlatformError>)
        requires
            condition ==> old(self).assertions_passed < u32::MAX,
            !condition ==> old(self).assertions_failed < u32::MAX,
        ensures
            condition ==> r is Ok && final(self).assertions_passed == old(self).assertions_passed + 1
                && final(self).assertions_failed == old(self).assertions_failed,
            !condition ==> r == Err::<(), BettingPlatformError>(BettingPlatformError::TestAssertionFailed)
                && final(self).assertions_failed == old(self).assertions_failed + 1
                && final(self).assertions_passed == old(self).assertions_passed,
            final(self).test_id == old(self).test_id,
            final(self).test_type == old(self).test_type,
            final(self).test_status == old(self).test_status,
            final(self).start_slot == old(self).start_slot,
            final(self).end_slot == old(self).end_slot,
            final(self).test_users == old(self).test_users,
            final(self).test_markets == old(self).test_markets,
            final(self).test_results == old(self).test_results,
    {
        if condition {
            self.assertions_passed = self.assertions_passed + 1;
            Ok(())
        } else {
            self.assertions_failed = self.assertions_failed + 1;
            Err(BettingPlatformError::TestAssertionFailed)
        }
    }

    /// Basic trading: the first ten users buy $1000 each in the first
    /// market, every market moves to 60/40, and ten trades settle one market.
    fn run_basic_trading_test(&mut self) -> (r: Result<(), BettingPlatformError>)
        requires
            old(self).test_type == TestType::BasicTrading,
            spec_scenario_fits(*old(self)),
        ensures
            r is Ok,
            spec_traded_once(old(self).test_users@, final(self).test_users@),
            final(self).test_markets@.len() == old(self).test_markets@.len(),
            final(self).test_markets@[0].trades == old(self).test_markets@[0].trades + 10,
            final(self).test_markets@[0].volume == old(self).test_markets@[0].volume + 10_000_000_000,
            forall|i: int| 0 <= i < final(self).test_markets@.len() ==> {
                let m = #[trigger] final(self).test_markets@[i];
                let o = old(self).test_markets@[i];
                &&& m.yes_price == 6000
                &&& m.no_price == 4000
                &&& m.market_id == o.market_id
                &&& m.liquidity == o.liquidity
                &&& i > 0 ==> m.volume == o.volume && m.trades == o.trades
            },
            final(self).test_results == (TestResults { trades_processed: 10, markets_settled: 1, ..old(self).test_results }),
            final(self).assertions_passed == old(self).assertions_passed,
            final(self).assertions_failed == old(self).assertions_failed,
            final(self).test_status == old(self).test_status,
            final(self).test_type == old(self).test_type,
            final(self).start_slot == old(self).start_slot,
            final(self).test_id == old(self).test_id,
    {
        let ghost us0 = self.test_users@;
        let mut i: usize = 0;
        while i < 10
            invariant
                i <= 10,
                us0.len() >= 10,
                self.test_users@.len() == us0.len(),
                forall|k: int| 0 <= k < 10 ==> (#[trigger] us0[k]).trades_executed < u32::MAX,
                forall|k: int| 0 <= k < us0.len() ==> (#[trigger] self.test_users@[k]).pubkey == us0[k].pubkey
                    && self.test_users@[k].balance == us0[k].balance && self.test_users@[k].positions == us0[k].positions
                    && self.test_users@[k].pnl == us0[k].pnl && self.test_users@[k].trades_executed == us0[k].trades_executed
                    + (if k < i { 1int } else { 0int }),
                self.test_markets == old(self).test_markets,
                self.test_results == old(self).test_results,
                self.assertions_passed == old(self).assertions_passed,
                self.assertions_failed == old(self).assertions_failed,
                self.test_status == old(self).test_status,
                self.test_type == old(self).test_type,
                self.start_slot == old(self).start_slot,
                self.test_id == old(self).test_id,
            decreases 10 - i,
        {
            let mut user = self.test_users.remove(i);
            user.trades_executed = user.trades_executed + 1;
            self.test_users.insert(i, user);
            i = i + 1;
        }
        let mut m0 = self.test_markets[0];
        m0.trades = m0.trades + 10;
        m0.volume = m0.volume + 10_000_000_000;
        self.test_markets.set(0, m0);
        let ghost ms1 = self.test_markets@;
        let ghost us1 = self.test_users@;
        let mut k: usize = 0;
        while k < self.test_markets.len()
            invariant
                k <= ms1.len(),
                self.test_users@ == us1,
                self.test_results == old(self).test_results,
                self.assertions_passed == old(self).assertions_passed,
                self.assertions_failed == old(self).assertions_failed,
                self.test_status == old(self).test_status,
                self.test_type == old(self).test_type,
                self.start_slot == old(self).start_slot,
                self.test_id == old(self).test_id,
                self.test_markets@.len() == ms1.len(),
                forall|q: int| 0 <= q < ms1.len() ==> {
                    let m = #[trigger] self.test_markets@[q];
                    &&& m.market_id == ms1[q].market_id
                    &&& m.liquidity == ms1[q].liquidity
                    &&& m.volume == ms1[q].volume
                    &&& m.trades == ms1[q].trades
                    &&& q < k ==> m.yes_price == 6000 && m.no_price == 4000
                    &&& q >= k ==> m.yes_price == ms1[q].yes_price && m.no_price == ms1[q].no_price
                },
            decreases ms1.len() - k,
        {
            let mut m = self.test_markets[k];
            m.yes_price = 6000;
            m.no_price = 4000;
            self.test_markets.set(k, m);
            k = k + 1;
        }
        self.test_results.trades_processed = 10;
        self.test_results.markets_settled = 1;
        Ok(())
    }

    /// Stress run: 1000 trades spread round-robin over the first 100 users
    /// and 10 markets; the throughput is the trades over the elapsed
    /// seconds (all of them when no time passed), and must reach 80% of
    /// the target.
    fn run_stress_test(&mut self, elapsed_seconds: i64) -> (r: Result<(), BettingPlatformError>)
        requires
            old(self).test_type == TestType::StressTest,
            spec_scenario_fits(*old(self)),
        ensures
            ({
                let tps: int = if elapsed_seconds > 0 { 1000int / (elapsed_seconds as int) } else { 1000int };
                &&& final(self).test_results == (TestResults {
                    peak_tps: tps as u32,
                    trades_processed: 1000,
                    ..old(self).test_results
                })
                &&& if tps >= 800 {
                    r is Ok && final(self).assertions_passed == old(self).assertions_passed + 1
                        && final(self).assertions_failed == old(self).assertions_failed
                } else {
                    r == Err::<(), BettingPlatformError>(BettingPlatformError::TestAssertionFailed)
                        && final(self).assertions_failed == old(self).assertions_failed + 1
                        && final(self).assertions_passed == old(self).assertions_passed
                }
            }),
            final(self).test_users@.len() == old(self).test_users@.len(),
            forall|i: int| 0 <= i < old(self).test_users@.len() ==> (#[trigger] final(self).test_users@[i]).trades_executed
                == old(self).test_users@[i].trades_executed + (if i < TEST_USER_COUNT { 10int } else { 0int }),
            final(self).test_markets@.len() == old(self).test_markets@.len(),
            forall|i: int| 0 <= i < old(self).test_markets@.len() ==> (#[trigger] final(self).test_markets@[i]).trades
                == old(self).test_markets@[i].trades + (if i < TEST_MARKET_COUNT { 100int } else { 0int }),
            final(self).test_status == old(self).test_status,
            final(self).test_type == old(self).test_type,
            final(self).start_slot == old(self).start_slot,
            final(self).test_id == old(self).test_id,
    {
        let ghost us0 = self.test_users@;
        let ghost ms0 = self.test_markets@;
        // trade t = 100 * round + 10 * group + q goes to user t % 100 = 10 * group + q
        // and market t % 10 = q
        let mut trades_executed: u64 = 0;
        let mut round: usize = 0;
        while round < 10
            invariant
                round <= 10,
                trades_executed == 100 * round,
                self.test_users@.len() == us0.len(),
                self.test_markets@.len() == ms0.len(),
                us0.len() >= TEST_USER_COUNT,
                ms0.len() >= TEST_MARKET_COUNT,
                forall|k: int| 0 <= k < TEST_USER_COUNT ==> (#[trigger] us0[k]).trades_executed + 10 <= u32::MAX,
                forall|k: int| 0 <= k < TEST_MARKET_COUNT ==> (#[trigger] ms0[k]).trades + 100 <= u32::MAX,
                forall|k: int| 0 <= k < us0.len() ==> (#[trigger] self.test_users@[k]).trades_executed == us0[k].trades_executed
                    + (if k < TEST_USER_COUNT { round as int } else { 0int }),
                forall|k: int| 0 <= k < ms0.len() ==> (#[trigger] self.test_markets@[k]).trades == ms0[k].trades + (if k
                    < TEST_MARKET_COUNT {
                    10 * round
                } else {
                    0int
                }),
                self.test_results == old(self).test_results,
                self.assertions_passed == old(self).assertions_passed,
                self.assertions_failed == old(self).assertions_failed,
                self.test_status == old(self).test_status,
                self.test_type == old(self).test_type,
                self.start_slot == old(self).start_slot,
                self.test_id == old(self).test_id,
            decreases 10 - round,
        {
            let mut group: usize = 0;
            while group < 10
                invariant
                    round < 10,
                    group <= 10,
                    trades_executed == 100 * round + 10 * group,
                    self.test_users@.len() == us0.len(),
                    self.test_markets@.len() == ms0.len(),
                    us0.len() >= TEST_USER_COUNT,
                    ms0.len() >= TEST_MARKET_COUNT,
                    forall|k: int| 0 <= k < TEST_USER_COUNT ==> (#[trigger] us0[k]).trades_executed + 10 <= u32::MAX,
                    forall|k: int| 0 <= k < TEST_MARKET_COUNT ==> (#[trigger] ms0[k]).trades + 100 <= u32::MAX,
                    forall|k: int| 0 <= k < us0.len() ==> (#[trigger] self.test_users@[k]).trades_executed
                        == us0[k].trades_executed + (if k < 10 * group { round + 1 } else if k < TEST_USER_COUNT {
                        round as int
                    } else {
                        0int
                    }),
                    forall|k: int| 0 <= k < ms0.len() ==> (#[trigger] self.test_markets@[k]).trades == ms0[k].trades + (if k
                        < TEST_MARKET_COUNT {
                        10 * round + group
                    } else {
                        0int
                    }),
                    self.test_results == old(self).test_results,
                    self.assertions_passed == old(self).assertions_passed,
                    self.assertions_failed == old(self).assertions_failed,
                    self.test_status == old(self).test_status,
                    self.test_type == old(self).test_type,
                    self.start_slot == old(self).start_slot,
                    self.test_id == old(self).test_id,
                decreases 10 - group,
            {
                let mut q: usize = 0;
                while q < 10
                    invariant
                        round < 10,
                        group < 10,
                        q <= 10,
                        trades_executed == 100 * round + 10 * group + q,
                        self.test_users@.len() == us0.len(),
                        self.test_markets@.len() == ms0.len(),
                        us0.len() >= TEST_USER_COUNT,
                        ms0.len() >= TEST_MARKET_COUNT,
                        forall|k: int| 0 <= k < TEST_USER_COUNT ==> (#[trigger] us0[k]).trades_executed + 10 <= u32::MAX,
                        forall|k: int| 0 <= k < TEST_MARKET_COUNT ==> (#[trigger] ms0[k]).trades + 100 <= u32::MAX,
                        forall|k: int| 0 <= k < us0.len() ==> (#[trigger] self.test_users@[k]).trades_executed
                            == us0[k].trades_executed + (if k < 10 * group + q { round + 1 } else if k < TEST_USER_COUNT {
                            round as int
                        } else {
                            0int
                        }),
                        forall|k: int| 0 <= k < ms0.len() ==> (#[trigger] self.test_markets@[k]).trades == ms0[k].trades + (if k
                            < q {
                            10 * round + group + 1
                        } else if k < TEST_MARKET_COUNT {
                            10 * round + group
                        } else {
                            0int
                        }),
                        self.test_results == old(self).test_results,
                        self.assertions_passed == old(self).assertions_passed,
                        self.assertions_failed == old(self).assertions_failed,
                        self.test_status == old(self).test_status,
                        self.test_type == old(self).test_type,
                        self.start_slot == old(self).start_slot,
                        self.test_id == old(self).test_id,
                    decreases 10 - q,
                {
                    let user_idx = 10 * group + q;
                    let mut user = self.test_users.remove(user_idx);
                    user.trades_executed = user.trades_executed + 1;
                    self.test_users.insert(user_idx, user);
                    let mut market = self.test_markets[q];
                    market.trades = market.trades + 1;
                    self.test_markets.set(q, market);
                    trades_executed = trades_executed + 1;
                    q = q + 1;
                }
                group = group + 1;
            }
            round = round + 1;
        }
        let actual_tps: u64 = if elapsed_seconds > 0 {
            trades_executed / elapsed_seconds as u64
        } else {
            trades_executed
        };
        self.test_results.peak_tps = actual_tps as u32;
        self.test_results.trades_processed = trades_executed;
        self.assert_true(actual_tps >= 800)
    }

    /// Manipulation: a user wash-trades 200 times in the first market and
    /// spoofs 50 orders cancelling 49; both are flagged.
    fn run_manipulation_test(&mut self) -> (r: Result<(), BettingPlatformError>)
        requires
            old(self).test_type == TestType::MarketManipulation,
            spec_scenario_fits(*old(self)),
        ensures
            r is Ok,
            final(self).test_users@.len() == old(self).test_users@.len(),
            final(self).test_users@[0].trades_executed == old(self).test_users@[0].trades_executed + 200,
            forall|i: int| 0 < i < old(self).test_users@.len() ==> #[trigger] final(self).test_users@[i] == old(self).test_users@[i],
            final(self).test_markets@ == old(self).test_markets@.update(
                0,
                (TestMarket { trades: (old(self).test_markets@[0].trades + 200) as u32, ..old(self).test_markets@[0] }),
            ),
            final(self).assertions_passed == old(self).assertions_passed + 2,
            final(self).assertions_failed == old(self).assertions_failed,
            final(self).test_results == (TestResults { security_events_detected: 2, ..old(self).test_results }),
            final(self).test_status == old(self).test_status,
            final(self).test_type == old(self).test_type,
            final(self).start_slot == old(self).start_slot,
            final(self).test_id == old(self).test_id,
    {
        let mut manipulator = self.test_users.remove(0);
        manipulator.trades_executed = manipulator.trades_executed + 200;
        self.test_users.insert(0, manipulator);
        let mut market = self.test_markets[0];
        market.trades = market.trades + 200;
        self.test_markets.set(0, market);
        let wash_trade_ratio: u32 = 100;
        match self.assert_true(wash_trade_ratio > 50) {
            Err(e) => return Err(e),
            Ok(()) => {},
        }
        let spoof_orders_placed: u32 = 50;
        let spoof_orders_cancelled: u32 = 49;
        let cancel_ratio = (spoof_orders_cancelled * 100) / spoof_orders_placed;
        match self.assert_true(cancel_ratio > 90) {
            Err(e) => return Err(e),
            Ok(()) => {},
        }
        self.test_results.security_events_detected = 2;
        Ok(())
    }

    /// Recovery: the test fails and comes back to running with its state
    /// consistent.
    fn run_recovery_test(&mut self) -> (r: Result<(), BettingPlatformError>)
        requires
            old(self).test_type == TestType::SystemRecovery,
            spec_scenario_fits(*old(self)),
        ensures
            r is Ok,
            final(self).test_status == TestStatus::Running,
            final(self).assertions_passed == old(self).assertions_passed + 1,
            final(self).assertions_failed == old(self).assertions_failed,
            final(self).test_results == (TestResults { recovery_successful: true, ..old(self).test_results }),
            final(self).test_users == old(self).test_users,
            final(self).test_markets == old(self).test_markets,
            final(self).test_type == old(self).test_type,
            final(self).start_slot == old(self).start_slot,
            final(self).test_id == old(self).test_id,
    {
        self.test_status = TestStatus::Failed;
        self.test_status = TestStatus::Running;
        let state_consistent = true;
        match self.assert_true(state_consistent) {
            Err(e) => return Err(e),
            Ok(()) => {},
        }
        self.test_results.recovery_successful = true;
        Ok(())
    }

    /// Full journey of the first user: a $100 trade, a $1000 position at
    /// 10x, a $400 profit when the first market rises to 70%, and a
    /// withdrawal that must leave more than the starting balance.
    fn run_full_journey_test(&mut self) -> (r: Result<(), BettingPlatformError>)
        requires
            old(self).test_type == TestType::FullUserJourney,
            spec_scenario_fits(*old(self)),
        ensures
            ({
                let u0 = old(self).test_users@[0];
                let spent: int = if u0.balance >= 100_000_000 { u0.balance - 100_000_000 } else { 0 };
                let withdrawn: int = if spent + 400_000_000 <= u64::MAX { spent + 400_000_000 } else { u64::MAX as int };
                if u0.balance == 0 {
                    r == Err::<(), BettingPlatformError>(BettingPlatformError::TestAssertionFailed) && *final(self) == *old(self)
                } else {
                    let u = final(self).test_users@[0];
                    &&& final(self).test_users@.len() == old(self).test_users@.len()
                    &&& forall|i: int| 0 < i < old(self).test_users@.len() ==> #[trigger] final(self).test_users@[i]
                        == old(self).test_users@[i]
                    &&& u.pubkey == u0.pubkey
                    &&& u.trades_executed == 1
                    &&& u.balance == withdrawn
                    &&& u.pnl == 400_000_000
                    &&& u.positions@ == u0.positions@.push(
                        spec_scenario_position(old(self).test_markets@[0].market_id, 1_000_000_000),
                    )
                    &&& final(self).test_markets@ == old(self).test_markets@.update(
                        0,
                        (TestMarket { yes_price: 7000, ..old(self).test_markets@[0] }),
                    )
                    &&& if withdrawn <= TEST_INITIAL_BALANCE {
                        r == Err::<(), BettingPlatformError>(BettingPlatformError::TestAssertionFailed)
                            && final(self).test_results == old(self).test_results
                    } else {
                        r is Ok && final(self).test_results == (TestResults {
                            full_journeys_completed: 1,
                            ..old(self).test_results
                        })
                    }
                }
            }),
            final(self).assertions_passed == old(self).assertions_passed,
            final(self).assertions_failed == old(self).assertions_failed,
            final(self).test_status == old(self).test_status,
            final(self).test_type == old(self).test_type,
            final(self).start_slot == old(self).start_slot,
            final(self).test_id == old(self).test_id,
    {
        if self.test_users[0].balance == 0 {
            return Err(BettingPlatformError::TestAssertionFailed);
        }
        let mut user = self.test_users.remove(0);
        user.trades_executed = 1;
        user.balance = user.balance.saturating_sub(100_000_000);
        let market_id = self.test_markets[0].market_id;
        let position = TestPosition {
            market_id,
            size: 1_000_000_000,
            leverage: 10,
            entry_price: 5000,
            liquidation_price: 4500,
        };
        user.positions.push(position);
        let mut market = self.test_markets[0];
        market.yes_price = 7000;
        self.test_markets.set(0, market);
        user.pnl = 400_000_000;
        let pnl = user.pnl;
        user.balance = user.balance.saturating_add(pnl as u64);
        let balance = user.balance;
        self.test_users.insert(0, user);
        if balance <= TEST_INITIAL_BALANCE {
            return Err(BettingPlatformError::TestAssertionFailed);
        }
        self.test_results.full_journeys_completed = 1;
        Ok(())
    }

    /// Liquidation cascade: the first five users open a $10k position at
    /// 10x in the first market, which drops to 44%; each of them whose
    /// first position is now below its liquidation price loses half its
    /// size, and all five must have been liquidated.
    fn run_liquidation_test(&mut self) -> (r: Result<(), BettingPlatformError>)
        requires
            old(self).test_type == TestType::LiquidationScenario,
            spec_scenario_fits(*old(self)),
        ensures
            ({
                let p = spec_scenario_position(old(self).test_markets@[0].market_id, 10_000_000_000);
                let count = spec_liquidated_count(old(self).test_users@.take(5), p);
                &&& final(self).test_users@.len() == old(self).test_users@.len()
                &&& forall|i: int| 0 <= i < old(self).test_users@.len() ==> spec_liquidation_user(
                    old(self).test_users@[i],
                    #[trigger] final(self).test_users@[i],
                    i,
                    p,
                )
                &&& final(self).test_markets@ == old(self).test_markets@.update(
                    0,
                    (TestMarket { yes_price: 4400, no_price: 5600, ..old(self).test_markets@[0] }),
                )
                &&& final(self).test_results == (TestResults { liquidations_processed: count as u32, ..old(self).test_results })
                &&& if count == 5 {
                    r is Ok && final(self).assertions_passed == old(self).assertions_passed + 1
                        && final(self).assertions_failed == old(self).assertions_failed
                } else {
                    r == Err::<(), BettingPlatformError>(BettingPlatformError::TestAssertionFailed)
                        && final(self).assertions_failed == old(self).assertions_failed + 1
                        && final(self).assertions_passed == old(self).assertions_passed
                }
            }),
            final(self).test_status == old(self).test_status,
            final(self).test_type == old(self).test_type,
            final(self).start_slot == old(self).start_slot,
            final(self).test_id == old(self).test_id,
    {
        let ghost us0 = self.test_users@;
        let market_id = self.test_markets[0].market_id;
        let ghost p = spec_scenario_position(market_id, 10_000_000_000);
        let mut market = self.test_markets[0];
        market.yes_price = 4400;
        market.no_price = 5600;
        self.test_markets.set(0, market);
        let mut liquidations_processed: u32 = 0;
        let mut i: usize = 0;
        while i < 5
            invariant
                i <= 5,
                us0.len() >= 5,
                self.test_users@.len() == us0.len(),
                p == spec_scenario_position(market_id, 10_000_000_000),
                forall|k: int| 0 <= k < 5 ==> (#[trigger] us0[k]).pnl - spec_first_position(us0[k], p).size / 2 >= i64::MIN,
                liquidations_processed <= i,
                us0 == old(self).test_users@,
                market_id == old(self).test_markets@[0].market_id,
                self.test_markets@ == old(self).test_markets@.update(
                    0,
                    (TestMarket { yes_price: 4400, no_price: 5600, ..old(self).test_markets@[0] }),
                ),
                self.test_results == old(self).test_results,
                self.assertions_passed == old(self).assertions_passed,
                self.assertions_failed == old(self).assertions_failed,
                self.test_status == old(self).test_status,
                self.test_type == old(self).test_type,
                self.start_slot == old(self).start_slot,
                self.test_id == old(self).test_id,
                forall|k: int| 0 <= k < us0.len() ==> if k < i {
                    spec_liquidation_user(us0[k], #[trigger] self.test_users@[k], k, p)
                } else {
                    self.test_users@[k] == us0[k]
                },
                liquidations_processed == spec_liquidated_count(us0.take(i as int), p),
            decreases 5 - i,
        {
            let mut user = self.test_users.remove(i);
            let position = TestPosition {
                market_id,
                size: 10_000_000_000,
                leverage: 10,
                entry_price: 5000,
                liquidation_price: 4500,
            };
            user.positions.push(position);
            let first = user.positions[0];
            let hit = 4400 < first.liquidation_price;
            if hit {
                user.pnl = user.pnl - (first.size / 2) as i64;
                liquidations_processed = liquidations_processed + 1;
            }
            proof {
                assert(us0.take(i + 1).drop_last() =~= us0.take(i as int));
                assert(first == spec_first_position(us0[i as int], p));
            }
            self.test_users.insert(i, user);
            i = i + 1;
        }
        proof {
            assert(us0.take(5) =~= us0.take(i as int));
        }
        self.test_results.liquidations_processed = liquidations_processed;
        self.assert_true(liquidations_processed == 5)
    }

    /// Runs the scenario of the test's kind; `elapsed_seconds` is the time
    /// the stress run took by the clock.
    pub fn run_test_scenario(&mut self, elapsed_seconds: i64) -> (r: Result<(), BettingPlatformError>)
        requires
            spec_scenario_fits(*old(self)),
        ensures
            final(self).test_type == old(self).test_type,
            old(self).test_type != TestType::SystemRecovery ==> final(self).test_status == old(self).test_status,
            old(self).test_type == TestType::SystemRecovery ==> final(self).test_status == TestStatus::Running,
            old(self).test_type == TestType::BasicTrading || old(self).test_type == TestType::MarketManipulation
                || old(self).test_type == TestType::SystemRecovery ==> r is Ok,
            spec_fresh_environment(*old(self)) && elapsed_seconds == 0 ==> r is Ok && final(self).test_results
                == spec_expected_results(old(self).test_type) && final(self).assertions_passed == spec_expected_passes(
                old(self).test_type,
            ) && final(self).assertions_failed == 0,
            final(self).start_slot == old(self).start_slot,
            final(self).test_id == old(self).test_id,
    {
        proof {
            if spec_fresh_environment(*self) {
                assert(spec_fresh_user(self.test_users@[0]));
                if self.test_type == TestType::LiquidationScenario {
                    lemma_fresh_all_liquidated(
                        self.test_users@,
                        spec_scenario_position(self.test_markets@[0].market_id, 10_000_000_000),
                    );
                }
            }
        }
        match self.test_type {
            TestType::BasicTrading => self.run_basic_trading_test(),
            TestType::StressTest => self.run_stress_test(elapsed_seconds),
            TestType::LiquidationScenario => self.run_liquidation_test(),
            TestType::MarketManipulation => self.run_manipulation_test(),
            TestType::SystemRecovery => self.run_recovery_test(),
            TestType::FullUserJourney => self.run_full_journey_test(),
        }
    }

    /// Ends the test at the current slot: passed when no assertion failed,
    /// else failed; reports its duration, counts and results.
    pub fn complete_test(&mut self, current_slot: u64) -> (r: Result<TestReport, BettingPlatformError>)
        requires
            current_slot >= old(self).start_slot,
        ensures
            ({
                let status = if old(self).assertions_failed == 0 { TestStatus::Passed } else { TestStatus::Failed };
                &&& final(self).end_slot == Some(current_slot)
                &&& final(self).test_status == status
                &&& r == Ok::<TestReport, BettingPlatformError>(
                    (TestReport {
                        test_id: old(self).test_id,
                        test_type: old(self).test_type,
                        status,
                        duration_slots: (current_slot - old(self).start_slot) as u64,
                        assertions_passed: old(self).assertions_passed,
                        assertions_failed: old(self).assertions_failed,
                        results: old(self).test_results,
                    }),
                )
            }),
            final(self).test_id == old(self).test_id,
            final(self).test_type == old(self).test_type,
            final(self).start_slot == old(self).start_slot,
            final(self).test_users == old(self).test_users,
            final(self).test_markets == old(self).test_markets,
            final(self).test_results == old(self).test_results,
            final(self).assertions_passed == old(self).assertions_passed,
            final(self).assertions_failed == old(self).assertions_failed,
    {
        self.end_slot = Some(current_slot);
        self.test_status = if self.assertions_failed == 0 {
            TestStatus::Passed
        } else {
            TestStatus::Failed
        };
        let duration = current_slot - self.start_slot;
        Ok(
            TestReport {
                test_id: self.test_id,
                test_type: self.test_type,
                status: self.test_status,
                duration_slots: duration,
                assertions_passed: self.assertions_passed,
                assertions_failed: self.assertions_failed,
                results: self.test_results,
            },
        )
    }
}

/// The first position of a user after the liquidation scenario opened `p`.
pub open spec fn spec_first_position(u: TestUser, p: TestPosition) -> TestPosition {
    if u.positions@.len() > 0 { u.positions@[0] } else { p }
}

/// Whether the scenario liquidates a user: its first position's
/// liquidation price is above the market's 44%.
pub open spec fn spec_liquidated(u: TestUser, p: TestPosition) -> bool {
    4400 < spec_first_position(u, p).liquidation_price
}

/// A user after the liquidation scenario: the first five open `p`, and
/// those liquidated lose half of their first position's size.
pub open spec fn spec_liquidation_user(o: TestUser, n: TestUser, i: int, p: TestPosition) -> bool {
    if 0 <= i < 5 {
        &&& n.pubkey == o.pubkey
        &&& n.balance == o.balance
        &&& n.trades_executed == o.trades_executed
        &&& n.positions@ == o.positions@.push(p)
        &&& n.pnl == (if spec_liquidated(o, p) { o.pnl - spec_first_position(o, p).size / 2 } else { o.pnl as int })
    } else {
        n == o
    }
}

/// How many of the users the scenario liquidates.
pub open spec fn spec_liquidated_count(us: Seq<TestUser>, p: TestPosition) -> int
    decreases us.len(),
{
    if us.len() == 0 {
        0
    } else {
        spec_liquidated_count(us.drop_last(), p) + if spec_liquidated(us.last(), p) { 1int } else { 0int }
    }
}

/// Report of a scenario run in a fresh environment within one slot.
pub open spec fn spec_fresh_report(test_id: u128, t: TestType) -> TestReport {
    TestReport {
        test_id,
        test_type: t,
        status: TestStatus::Passed,
        duration_slots: 0,
        assertions_passed: spec_expected_passes(t),
        assertions_failed: 0,
        results: spec_expected_results(t),
    }
}

/// Reports of a suite's tests, numbered from `first_id`.
pub open spec fn spec_suite_reports(first_id: int, tests: Seq<TestType>) -> Seq<TestReport> {
    Seq::new(tests.len(), |i: int| spec_fresh_report((first_id + i) as u128, tests[i]))
}

/// How many reports passed.
pub open spec fn spec_passed_count(rs: Seq<TestReport>) -> int
    decreases rs.len(),
{
    if rs.len() == 0 {
        0
    } else {
        spec_passed_count(rs.drop_last()) + if rs.last().status == TestStatus::Passed { 1int } else { 0int }
    }
}

/// Assertions counted over the reports, passed and failed.
pub open spec fn spec_assertion_total(rs: Seq<TestReport>) -> int
    decreases rs.len(),
{
    if rs.len() == 0 {
        0
    } else {
        spec_assertion_total(rs.drop_last()) + rs.last().assertions_passed + rs.last().assertions_failed
    }
}

/// Passed assertions over the reports.
pub open spec fn spec_passed_assertions(rs: Seq<TestReport>) -> int
    decreases rs.len(),
{
    if rs.len() == 0 {
        0
    } else {
        spec_passed_assertions(rs.drop_last()) + rs.last().assertions_passed
    }
}

proof fn lemma_report_sums_step(rs: Seq<TestReport>, j: int)
    requires
        0 <= j < rs.len(),
    ensures
        spec_passed_count(rs.take(j + 1)) == spec_passed_count(rs.take(j)) + if rs[j].status == TestStatus::Passed {
            1int
        } else {
            0int
        },
        spec_assertion_total(rs.take(j + 1)) == spec_assertion_total(rs.take(j)) + rs[j].assertions_passed
            + rs[j].assertions_failed,
        spec_passed_assertions(rs.take(j + 1)) == spec_passed_assertions(rs.take(j)) + rs[j].assertions_passed,
{
    assert(rs.take(j + 1).drop_last() =~= rs.take(j));
}

proof fn lemma_report_prefix(rs: Seq<TestReport>, j: int)
    requires
        0 <= j <= rs.len(),
    ensures
        spec_passed_count(rs.take(j)) <= j,
        spec_passed_assertions(rs.take(j)) <= spec_assertion_total(rs.take(j)),
    decreases j,
{
    if j > 0 {
        lemma_report_prefix(rs, j - 1);
        lemma_report_sums_step(rs, j - 1);
    } else {
        assert(rs.take(0) =~= Seq::<TestReport>::empty());
    }
}

proof fn lemma_report_total_le(rs: Seq<TestReport>, j: int)
    requires
        0 <= j <= rs.len(),
    ensures
        spec_assertion_total(rs.take(j)) <= spec_assertion_total(rs),
    decreases rs.len() - j,
{
    if j < rs.len() {
        lemma_report_sums_step(rs, j);
        lemma_report_total_le(rs, j + 1);
    } else {
        assert(rs.take(j) =~= rs);
    }
}

impl TestHarness {
    /// Runs every listed test in a fresh environment of its own, numbered
    /// from the suite id after the tests already completed, at the current
    /// slot and time, and reports on all completed tests.
    pub fn run_test_suite(&mut self, current_slot: u64, current_timestamp: i64) -> (r: Result<TestSuiteReport, BettingPlatformError>)
        requires
            old(self).test_suite_id + old(self).tests_completed@.len() + old(self).tests_to_run@.len() <= u128::MAX,
            spec_assertion_total(
                old(self).tests_completed@ + spec_suite_reports(
                    old(self).test_suite_id + old(self).tests_completed@.len(),
                    old(self).tests_to_run@,
                ),
            ) <= u32::MAX,
        ensures
            final(self).tests_completed@ == old(self).tests_completed@ + spec_suite_reports(
                old(self).test_suite_id + old(self).tests_completed@.len(),
                old(self).tests_to_run@,
            ),
            final(self).suite_start_time == current_timestamp,
            final(self).suite_end_time == Some(current_timestamp),
            final(self).test_suite_id == old(self).test_suite_id,
            final(self).tests_to_run == old(self).tests_to_run,
            r matches Ok(rep) && spec_is_suite_report(rep, *final(self)),
    {
        let ghost first = self.test_suite_id + self.tests_completed@.len();
        let ghost done0 = self.tests_completed@;
        self.suite_start_time = current_timestamp;
        let mut k: usize = 0;
        while k < self.tests_to_run.len()
            invariant
                k <= self.tests_to_run@.len(),
                self.tests_to_run == old(self).tests_to_run,
                self.test_suite_id == old(self).test_suite_id,
                first == self.test_suite_id + done0.len(),
                done0 == old(self).tests_completed@,
                first + self.tests_to_run@.len() <= u128::MAX,
                self.tests_completed@ == done0 + spec_suite_reports(first, self.tests_to_run@.take(k as int)),
                self.suite_start_time == current_timestamp,
            decreases self.tests_to_run@.len() - k,
        {
            let test_type = self.tests_to_run[k];
            let test_id = self.test_suite_id + self.tests_completed.len() as u128;
            let mut framework = E2ETestFramework {
                test_id,
                test_type,
                test_status: TestStatus::Initialized,
                start_slot: 0,
                end_slot: None,
                test_users: Vec::new(),
                test_markets: Vec::new(),
                test_results: TestResults::default(),
                assertions_passed: 0,
                assertions_failed: 0,
            };
            let _ = framework.initialize(test_id, test_type, current_slot);
            let _ = framework.setup_test_environment();
            proof {
                assert(framework.test_users@.take(0) =~= Seq::<TestUser>::empty());
                assert(framework.test_markets@.take(0) =~= Seq::<TestMarket>::empty());
                lemma_fresh_fits(framework);
            }
            match framework.run_test_scenario(0) {
                Ok(()) => {},
                Err(_) => {
                    framework.test_status = TestStatus::Failed;
                },
            }
            let report = match framework.complete_test(current_slot) {
                Ok(rep) => rep,
                Err(e) => return Err(e),
            };
            let ghost before = self.tests_completed@;
            self.tests_completed.push(report);
            proof {
                assert(report == spec_fresh_report((first + k) as u128, self.tests_to_run@[k as int]));
                assert(spec_suite_reports(first, self.tests_to_run@.take(k + 1)) =~= spec_suite_reports(
                    first,
                    self.tests_to_run@.take(k as int),
                ).push(report));
                assert(self.tests_completed@ =~= done0 + spec_suite_reports(first, self.tests_to_run@.take(k + 1)));
            }
            k = k + 1;
        }
        proof {
            assert(self.tests_to_run@.take(k as int) =~= self.tests_to_run@);
        }
        self.suite_end_time = Some(current_timestamp);
        Ok(self.generate_suite_report())
    }

    /// Totals of the completed tests: how many passed and failed, the
    /// assertions counted and passed, and the suite's duration.
    fn generate_suite_report(&self) -> (r: TestSuiteReport)
        requires
            spec_assertion_total(self.tests_completed@) <= u32::MAX,
            i64::MIN <= (match self.suite_end_time {
                Some(t) => t as int,
                None => 0int,
            }) - self.suite_start_time <= i64::MAX,
        ensures
            spec_is_suite_report(r, *self),
    {
        let rs = &self.tests_completed;
        let total_tests = rs.len();
        let mut passed_tests: usize = 0;
        let mut total_assertions: u32 = 0;
        let mut passed_assertions: u32 = 0;
        let mut reports: Vec<TestReport> = Vec::new();
        let mut i: usize = 0;
        while i < rs.len()
            invariant
                i <= rs@.len(),
                rs == &self.tests_completed,
                total_tests == rs@.len(),
                spec_assertion_total(rs@) <= u32::MAX,
                passed_tests == spec_passed_count(rs@.take(i as int)),
                total_assertions == spec_assertion_total(rs@.take(i as int)),
                passed_assertions == spec_passed_assertions(rs@.take(i as int)),
                reports@ == rs@.take(i as int),
            decreases rs@.len() - i,
        {
            let t = rs[i];
            proof {
                lemma_report_sums_step(rs@, i as int);
                lemma_report_prefix(rs@, i + 1);
                lemma_report_total_le(rs@, i + 1);
            }
            if t.status == TestStatus::Passed {
                passed_tests = passed_tests + 1;
            }
            total_assertions = total_assertions + t.assertions_passed + t.assertions_failed;
            passed_assertions = passed_assertions + t.assertions_passed;
            reports.push(t);
            assert(reports@ =~= rs@.take(i + 1));
            i = i + 1;
        }
        proof {
            assert(rs@.take(i as int) =~= rs@);
            lemma_report_prefix(rs@, i as int);
        }
        let end = match self.suite_end_time {
            Some(t) => t,
            None => 0,
        };
        TestSuiteReport {
            suite_id: self.test_suite_id,
            total_tests: total_tests as u32,
            passed_tests: passed_tests as u32,
            failed_tests: (total_tests - passed_tests) as u32,
            total_assertions,
            passed_assertions,
            duration_seconds: end - self.suite_start_time,
            test_reports: reports,
        }
    }
}

/// Whether `r` reports on a suite's completed tests: how many passed and
/// failed, the assertions counted and passed, the duration, and the
/// reports themselves.
pub open spec fn spec_is_suite_report(r: TestSuiteReport, h: TestHarness) -> bool {
    let rs = h.tests_completed@;
    &&& r.suite_id == h.test_suite_id
    &&& r.total_tests == rs.len() as u32
    &&& r.passed_tests == spec_passed_count(rs) as u32
    &&& r.failed_tests == (rs.len() - spec_passed_count(rs)) as u32
    &&& r.total_assertions == spec_assertion_total(rs)
    &&& r.passed_assertions == spec_passed_assertions(rs)
    &&& r.duration_seconds == (match h.suite_end_time {
        Some(t) => t as int,
        None => 0int,
    }) - h.suite_start_time
    &&& r.test_reports@ == rs
}

} // verus!
