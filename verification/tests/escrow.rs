use escrow::emission::delta;
use escrow::escrow::{initialize, precheck, release, split, upgrade, Funding, Payout};
use escrow::storage::{Extension, Instance};
use escrow::types::{EmissionParams, Error, Identity};
use escrow::Escrow;

const MAX_TTL: u32 = 3_110_400;

const ADMIN: Identity = Identity { id: 1 };
const TOKEN: Identity = Identity { id: 2 };
const FUND: Identity = Identity { id: 3 };
const REWARDS: Identity = Identity { id: 4 };

/// The balances that the host keeps, and how it carries out what the
/// controller answers.
struct Balances {
    admin: i128,
    custody: i128,
    fund: i128,
    rewards: i128,
}

impl Balances {
    fn minted(admin: i128) -> Self {
        Balances { admin, custody: 0, fund: 0, rewards: 0 }
    }

    fn fund(&mut self, funding: &Funding) {
        assert!(self.admin >= funding.deposit);
        self.admin -= funding.deposit;
        self.custody += funding.deposit;
        assert!(self.custody >= funding.allocation);
        self.custody -= funding.allocation;
        self.fund += funding.allocation;
    }

    fn pay(&mut self, paid: &Payout) {
        assert!(self.custody >= paid.fund_share + paid.rewards_share);
        self.custody -= paid.fund_share;
        self.fund += paid.fund_share;
        self.custody -= paid.rewards_share;
        self.rewards += paid.rewards_share;
    }
}

fn started(ledger: u32) -> (Instance, Balances) {
    let params = EmissionParams::default();
    let mut store = Instance::new();
    let mut balances = Balances::minted(params.total_supply);
    let funding = Escrow::initialize(
        &mut store, ADMIN, TOKEN, FUND, REWARDS, ledger, balances.admin, balances.custody, MAX_TTL,
    )
    .unwrap();
    balances.fund(&funding);
    (store, balances)
}

#[test]
#[should_panic]
fn test_escrow_provenance() {
    let params = EmissionParams::default();
    let mut store = Instance::new();
    let ledger: u32 = 1_000;
    let balances = Balances::minted(params.total_supply - 1);
    Escrow::initialize(
        &mut store, ADMIN, TOKEN, FUND, REWARDS, ledger, balances.admin, balances.custody, MAX_TTL,
    )
    .unwrap();
}

#[test]
fn test_escrow_release() {
    let params = EmissionParams::default();
    let allocation = params.allocation;
    let mut current_ledger = 1000u32;
    let mut cumulative_fund = allocation;
    let mut cumulative_rewards = 0i128;

    const REF: [(u32, i128, i128, i128); 20] = [
        ( 7,          1553779572,           15537795,         1538241777),
        (15,          3329525995,           33295259,         3296230736),
        (21,          4661332591,           46613325,         4614719266),
        (37,          8212813301,           82128133,         8130685168),
        (42,          9322636255,           93226362,         9229409893),
        (13,          2885574294,           28855742,         2856718552),
        (28,          6215077323,           62150773,         6152926550),
        ( 9,          1997701751,           19977017,         1977724734),
        (51,         11320294538,          113202945,        11207091593),
        (19,          4217357945,           42173579,         4175184366),
        (33,          7324876225,           73248762,         7251627463),
        ( 8,          1775725921,           17757259,         1757968662),
        (44,          9766481061,           97664810,         9668816251),
        (11,          2441617224,           24416172,         2417201052),
        (29,          6436985030,           64369850,         6372615180),
        (17,          3773401087,           37734010,         3735667077),
        (38,          8434650745,           84346507,         8350304238),
        (12,          2663570903,           26635709,         2636935194),
        (25,          5549101397,           55491013,         5493610384),
        (16,          3551421597,           35514215,         3515907382)
    ];

    let (mut store, mut balances) = started(current_ledger);

    for (increment, expected_emissions, expected_fund, expected_rewards) in REF.iter() {
        current_ledger += increment;

        let paid = Escrow::release(&mut store, current_ledger, MAX_TTL);
        balances.pay(&paid);
        let released = paid.amount;
        cumulative_fund += expected_fund;
        cumulative_rewards += expected_rewards;

        assert_eq!(released, *expected_emissions, "emissions mismatch at ledger {}", current_ledger);
        assert_eq!(balances.fund, cumulative_fund, "fund mismatch at ledger {}", current_ledger);
        assert_eq!(balances.rewards, cumulative_rewards, "rewards mismatch at ledger {}", current_ledger);
    }
}

#[test]
fn test_invariants() {
    let params = EmissionParams::default();
    let ledger: u32 = 1_000;
    let (mut store, mut balances) = started(ledger);

    // Check allocation payment.
    let allocation = params.allocation;
    assert_eq!(balances.fund, allocation);
    assert_eq!(balances.custody, params.total_supply - allocation);

    // Release.
    let r0 = Escrow::release(&mut store, ledger, MAX_TTL);
    balances.pay(&r0);
    assert_eq!(r0.amount, 0);

    // Release at ledger + 1000.
    let r1 = Escrow::release(&mut store, ledger + 1_000, MAX_TTL);
    balances.pay(&r1);
    assert!(r1.amount > 0);

    // Balances.
    let fund_balance = balances.fund;
    let rewards_balance = balances.rewards;
    let emitted = fund_balance + rewards_balance - allocation;
    let expected_fund = (emitted * params.fund_bps) / 10_000; // 1%
    let expected_rewards = emitted - expected_fund; // 99%

    assert_eq!(fund_balance - allocation, expected_fund, "fund should receive 1%");
    assert_eq!(rewards_balance, expected_rewards, "rewards should receive 99%");

    // Idempotence.
    let r3 = Escrow::release(&mut store, ledger + 2_001, MAX_TTL);
    balances.pay(&r3);
    let r4 = Escrow::release(&mut store, ledger + 2_001, MAX_TTL);
    balances.pay(&r4);

    assert!(r3.amount > 0);
    assert_eq!(r4.amount, 0);
}

#[test]
#[should_panic]
fn test_double_init() {
    let mut store = Instance::new();
    let ledger: u32 = 1_000;
    let params = EmissionParams::default();
    Escrow::initialize(&mut store, ADMIN, TOKEN, FUND, REWARDS, ledger, params.total_supply, 0, MAX_TTL)
        .unwrap();
    Escrow::initialize(&mut store, ADMIN, TOKEN, FUND, REWARDS, ledger, params.total_supply, 0, MAX_TTL)
        .unwrap();
}

#[test]
fn test_upgrade() {
    let start_ledger = 1_000u32;
    let wasm_hash: [u8; 32] = [7u8; 32];
    let (mut store, _balances) = started(start_ledger);
    let before = store;
    let replaced = Escrow::upgrade(&store, wasm_hash, MAX_TTL).unwrap();
    assert_eq!(replaced.authorizer, ADMIN);
    assert_eq!(replaced.hash, wasm_hash);
    assert_eq!(replaced.extension, Extension { threshold: MAX_TTL - 120_960, extend_to: MAX_TTL });
    assert_eq!(store, before);
    assert!(Escrow::release(&mut store, start_ledger + 1_000, MAX_TTL).amount >= 0);
}

#[test]
fn initialize_creates_the_state() {
    let params = EmissionParams::default();
    let mut store = Instance::new();
    let funding = initialize(&mut store, ADMIN, TOKEN, FUND, REWARDS, 1_000, params.total_supply, 0, MAX_TTL);
    assert_eq!(
        funding,
        Ok(Funding {
            authorizer: ADMIN,
            deposit: 10_000_000_070_000_000,
            allocation: 200_000_001_400_000,
            extension: Extension { threshold: 2_989_440, extend_to: 3_110_400 },
        })
    );
    assert_eq!(
        store,
        Instance {
            admin: Some(ADMIN),
            token: Some(TOKEN),
            fund: Some(FUND),
            rewards: Some(REWARDS),
            ledger: Some(1_000),
            emitted: Some(0),
        }
    );
    assert!(store.is_active());
}

#[test]
fn initialize_rejects_short_supply() {
    let params = EmissionParams::default();
    let mut store = Instance::new();
    let outcome =
        initialize(&mut store, ADMIN, TOKEN, FUND, REWARDS, 1_000, params.total_supply - 1, 0, MAX_TTL);
    assert_eq!(outcome, Err(Error::InvalidSupply));
    assert_eq!(store, Instance::new());
}

#[test]
fn initialize_rejects_excess_supply_and_held_custody() {
    let params = EmissionParams::default();
    let mut store = Instance::new();
    assert_eq!(
        initialize(&mut store, ADMIN, TOKEN, FUND, REWARDS, 1_000, params.total_supply + 1, 0, MAX_TTL),
        Err(Error::InvalidSupply)
    );
    assert_eq!(
        initialize(&mut store, ADMIN, TOKEN, FUND, REWARDS, 1_000, params.total_supply, 1, MAX_TTL),
        Err(Error::InvalidSupply)
    );
    assert_eq!(
        initialize(&mut store, ADMIN, TOKEN, FUND, REWARDS, 1_000, 0, 0, MAX_TTL),
        Err(Error::InvalidSupply)
    );
    assert_eq!(store, Instance::new());
}

#[test]
fn initialize_rejects_shared_identities() {
    let params = EmissionParams::default();
    let supply = params.total_supply;
    let mut store = Instance::new();
    assert_eq!(
        initialize(&mut store, ADMIN, TOKEN, ADMIN, REWARDS, 1_000, supply, 0, MAX_TTL),
        Err(Error::InvalidAddress)
    );
    assert_eq!(
        initialize(&mut store, ADMIN, TOKEN, FUND, ADMIN, 1_000, supply, 0, MAX_TTL),
        Err(Error::InvalidAddress)
    );
    assert_eq!(
        initialize(&mut store, ADMIN, TOKEN, FUND, FUND, 1_000, supply, 0, MAX_TTL),
        Err(Error::InvalidAddress)
    );
    // The address check comes before the supply check.
    assert_eq!(
        initialize(&mut store, ADMIN, TOKEN, FUND, FUND, 1_000, 0, 5, MAX_TTL),
        Err(Error::InvalidAddress)
    );
    assert_eq!(store, Instance::new());
    // The token may be any identity.
    assert!(initialize(&mut store, ADMIN, ADMIN, FUND, REWARDS, 1_000, supply, 0, MAX_TTL).is_ok());
}

#[test]
fn second_initialize_is_refused_and_changes_nothing() {
    let (mut store, _balances) = started(1_000);
    release(&mut store, 5_000, MAX_TTL);
    let before = store;
    let supply = EmissionParams::default().total_supply;
    assert_eq!(
        initialize(&mut store, ADMIN, TOKEN, FUND, REWARDS, 1_000, supply, 0, MAX_TTL),
        Err(Error::AlreadyInitialized)
    );
    // Being initialized is checked before anything else.
    assert_eq!(
        initialize(&mut store, FUND, TOKEN, FUND, FUND, 7, 0, 9, MAX_TTL),
        Err(Error::AlreadyInitialized)
    );
    assert_eq!(store, before);
}

#[test]
fn precheck_order() {
    let (store, _balances) = started(1_000);
    assert_eq!(precheck(&store, ADMIN, FUND, REWARDS), Err(Error::AlreadyInitialized));
    assert_eq!(precheck(&store, ADMIN, ADMIN, REWARDS), Err(Error::AlreadyInitialized));
    let empty = Instance::new();
    assert_eq!(precheck(&empty, ADMIN, FUND, REWARDS), Ok(()));
    assert_eq!(precheck(&empty, ADMIN, ADMIN, REWARDS), Err(Error::InvalidAddress));
    assert_eq!(precheck(&empty, ADMIN, FUND, ADMIN), Err(Error::InvalidAddress));
    assert_eq!(precheck(&empty, ADMIN, FUND, FUND), Err(Error::InvalidAddress));
}

#[test]
fn release_is_idempotent_at_one_clock_value() {
    let params = EmissionParams::default();
    let (mut store, mut balances) = started(1_000);

    let first = release(&mut store, 1_000, MAX_TTL);
    balances.pay(&first);
    assert_eq!(first, Payout { amount: 0, fund_share: 0, rewards_share: 0, extension: None });
    assert_eq!(store.emitted, Some(0));

    let second = release(&mut store, 2_000, MAX_TTL);
    balances.pay(&second);
    assert_eq!(
        second,
        Payout {
            amount: 221_963_518_000,
            fund_share: 2_219_635_180,
            rewards_share: 219_743_882_820,
            extension: Some(Extension { threshold: 2_989_440, extend_to: 3_110_400 }),
        }
    );
    assert_eq!(store.emitted, Some(221_963_518_000));

    let before = store;
    let third = release(&mut store, 2_000, MAX_TTL);
    balances.pay(&third);
    assert_eq!(third, Payout { amount: 0, fund_share: 0, rewards_share: 0, extension: None });
    assert_eq!(store, before);

    assert_eq!(balances.fund, params.allocation + 2_219_635_180);
    assert_eq!(balances.rewards, 219_743_882_820);
    assert_eq!(balances.custody, params.pool() - 221_963_518_000);
    assert_eq!(balances.admin, 0);
}

#[test]
fn release_ignores_a_clock_that_ran_backward() {
    let (mut store, _balances) = started(1_000);
    release(&mut store, 3_001, MAX_TTL);
    let before = store;
    assert_eq!(release(&mut store, 2_000, MAX_TTL).amount, 0);
    assert_eq!(release(&mut store, 999, MAX_TTL).amount, 0);
    assert_eq!(release(&mut store, 0, MAX_TTL).amount, 0);
    assert_eq!(store, before);
}

#[test]
fn releases_converge() {
    let (mut stepwise, _a) = started(1_000);
    let (mut direct, _b) = started(1_000);
    let first = release(&mut stepwise, 2_000, MAX_TTL).amount;
    let second = release(&mut stepwise, 3_001, MAX_TTL).amount;
    let both = release(&mut direct, 3_001, MAX_TTL).amount;
    assert_eq!(first, 221_963_518_000);
    assert_eq!(second, 222_175_412_005);
    assert_eq!(both, 444_138_930_005);
    assert_eq!(first + second, both);
    assert_eq!(stepwise, direct);
    assert_eq!(stepwise.emitted, Some(delta(1_000, 3_001, 0)));
}

#[test]
fn release_keeps_the_emitted_total_within_the_pool() {
    let pool = EmissionParams::default().pool();
    let (mut store, mut balances) = started(0);
    let clock: [u32; 6] = [1, 44_150_400, 44_150_400, 1_000_000_000, u32::MAX, u32::MAX];
    let mut last: i128 = 0;
    for now in clock {
        let paid = release(&mut store, now, MAX_TTL);
        balances.pay(&paid);
        let emitted = store.emitted.unwrap();
        assert!(emitted >= last);
        assert!(emitted < pool);
        assert_eq!(emitted, delta(0, now, 0));
        assert_eq!(balances.custody, pool - emitted);
        last = emitted;
    }
    assert_eq!(last, 9_700_285_344_676_450);
}

#[test]
fn release_leaves_the_identities_alone() {
    let (mut store, _balances) = started(1_000);
    release(&mut store, 9_000, MAX_TTL);
    assert_eq!(store.admin, Some(ADMIN));
    assert_eq!(store.token, Some(TOKEN));
    assert_eq!(store.fund, Some(FUND));
    assert_eq!(store.rewards, Some(REWARDS));
    assert_eq!(store.ledger, Some(1_000));
}

#[test]
fn split_exact_values() {
    assert_eq!(split(0), (0, 0));
    assert_eq!(split(1), (0, 1));
    assert_eq!(split(99), (0, 99));
    assert_eq!(split(100), (1, 99));
    assert_eq!(split(199), (1, 198));
    assert_eq!(split(10_000), (100, 9_900));
    assert_eq!(split(1_553_779_572), (15_537_795, 1_538_241_777));
    assert_eq!(split(1_225_000_178_519_665), (12_250_001_785_196, 1_212_750_176_734_469));
}

#[test]
fn split_adds_up() {
    let amounts: [i128; 7] = [0, 1, 9_999, 10_001, 221_963_518_000, 9_800_000_068_599_999, i128::MAX];
    for amount in amounts {
        let (fund, rewards) = split(amount);
        assert_eq!(fund + rewards, amount);
        assert!(fund >= 0 && rewards >= 0);
        assert!(fund <= amount / 100);
    }
}

#[test]
fn split_of_the_largest_amount() {
    let (fund, rewards) = split(i128::MAX);
    assert_eq!(fund, 1_701_411_834_604_692_317_316_873_037_158_841_057);
    assert_eq!(rewards, i128::MAX - 1_701_411_834_604_692_317_316_873_037_158_841_057);
}

#[test]
fn upgrade_names_the_admin() {
    let (store, _balances) = started(1_000);
    let replaced = upgrade(&store, [0u8; 32], 100).unwrap();
    assert_eq!(replaced.authorizer, ADMIN);
    assert_eq!(replaced.hash, [0u8; 32]);
    assert_eq!(replaced.extension, Extension { threshold: 0, extend_to: 100 });
}
