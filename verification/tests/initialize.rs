use meditation_plan::{Identity, Initialize, MeditationPlan, MeditationPlanError};
use meditation_plan::{DAY_IN_SECONDS, USDC_MINT};

const USDC_TOKEN: u64 = 1_000_000;
const FIFTY_USDC: u64 = 50 * USDC_TOKEN;
const HUNDY_USDC: u64 = 100 * USDC_TOKEN;

const COMMITMENT_STAKE: u64 = FIFTY_USDC;
const DAILY_FREQUENCY: u8 = 1;
const DURATION_MINUTES: u8 = 20;
const NUMBER_OF_DAYS: u8 = 7;

const ALICE: Identity = [1u8; 32];
const BOB: Identity = [2u8; 32];

/// Ids count up within a test, so that no two plans of one owner share one.
struct IdSource {
    next: u64,
}

impl IdSource {
    fn new() -> Self {
        IdSource { next: 1 }
    }

    fn generate_id(&mut self) -> u64 {
        let id = self.next;
        self.next += 1;
        id
    }
}

/// Creates a plan at time 0 with bump 255.
fn execute_initialize(
    usdc_mint: Identity,
    owner: Identity,
    id: u64,
    number_of_days: u8,
    daily_frequency: u8,
    duration_minutes: u8,
    commitment_stake: u64,
) -> Result<MeditationPlan, MeditationPlanError> {
    let request = Initialize { owner, mint: usdc_mint };
    request.initialize(
        id,
        number_of_days,
        daily_frequency,
        duration_minutes,
        commitment_stake,
        255,
        0,
    )
}

fn fake_usdc_mint() -> Identity {
    let mut mint = USDC_MINT;
    mint[0] ^= 0xff;
    mint
}

#[test]
fn tests_test_initialize_succeeds() {
    let mut ids = IdSource::new();
    let mut alice_balance = USDC_TOKEN * 100;
    assert_eq!(alice_balance, USDC_TOKEN * 100);

    let id = ids.generate_id();
    let number_of_days: u8 = 7;
    let daily_frequency: u8 = 1;
    let duration_minutes: u8 = 20;
    let commitment_stake: u64 = USDC_TOKEN * 50;

    let plan = execute_initialize(
        USDC_MINT,
        ALICE,
        id,
        number_of_days,
        daily_frequency,
        duration_minutes,
        commitment_stake,
    )
    .expect("Initialize  meditation plan should succeed");

    alice_balance -= plan.commitment_stake;
    assert_eq!(alice_balance, USDC_TOKEN * 50);

    assert_eq!(plan.attestations.len(), 0);
    assert_eq!(plan.bump, 255);
    assert_eq!(plan.commitment_stake, commitment_stake);
    assert_eq!(plan.daily_frequency, daily_frequency);
    assert_eq!(plan.duration_minutes, duration_minutes);
    assert_eq!(plan.id, id);
    assert_eq!(plan.is_active, false);
    assert_eq!(plan.is_completed, false);
    assert_eq!(plan.number_of_days, number_of_days);
    assert_eq!(plan.owner, ALICE);
    assert_eq!(plan.penalties, 0);
    assert_eq!(plan.rewards, 0);
    assert_eq!(plan.start_at, 0);
    assert_eq!(plan.end_at, number_of_days as i64 * 24 * 60 * 60);
}

#[test]
fn initialize_test_initialize_succeeds() {
    let mut ids = IdSource::new();
    let mut alice_balance = HUNDY_USDC;
    let mut vault_balance = 0;
    assert_eq!(alice_balance, HUNDY_USDC);

    let id = ids.generate_id();
    let result = execute_initialize(
        USDC_MINT,
        ALICE,
        id,
        NUMBER_OF_DAYS,
        DAILY_FREQUENCY,
        DURATION_MINUTES,
        COMMITMENT_STAKE,
    );
    assert!(result.is_ok(), "Initialize should succeed");

    let plan = result.unwrap();
    alice_balance -= plan.commitment_stake;
    vault_balance += plan.commitment_stake;

    assert_eq!(alice_balance, FIFTY_USDC);
    assert_eq!(vault_balance, FIFTY_USDC);

    assert_eq!(plan.attestations.len(), 0);
    assert_eq!(plan.bump, 255);
    assert_eq!(plan.commitment_stake, COMMITMENT_STAKE);
    assert_eq!(plan.daily_frequency, DAILY_FREQUENCY);
    assert_eq!(plan.duration_minutes, DURATION_MINUTES);
    assert_eq!(plan.id, id);
    // A plan becomes active with its first attestation, not before.
    assert_eq!(plan.is_active, false);
    assert_eq!(plan.is_completed, false);
    assert_eq!(plan.number_of_days, NUMBER_OF_DAYS);
    assert_eq!(plan.owner, ALICE);
    assert_eq!(plan.penalties, 0);
    assert_eq!(plan.rewards, 0);
    assert_eq!(plan.start_at, 0);
    assert_eq!(plan.end_at, NUMBER_OF_DAYS as i64 * DAY_IN_SECONDS);
}

#[test]
fn test_non_usdc_commitment_stake_fails() {
    let mut ids = IdSource::new();
    let fake_usdc_mint = fake_usdc_mint();

    let result = execute_initialize(
        fake_usdc_mint,
        ALICE,
        ids.generate_id(),
        NUMBER_OF_DAYS,
        DAILY_FREQUENCY,
        DURATION_MINUTES,
        COMMITMENT_STAKE,
    );
    assert!(result.is_err(), "Non-USDC token should fail");
    assert!(
        result
            .unwrap_err()
            .to_string()
            .contains("Error Code: InvalidMint"),
        "Incorrect error for non-USDC mint"
    );
}

#[test]
fn test_commitment_stake_below_minimum_fails() {
    let mut ids = IdSource::new();

    let result = execute_initialize(
        USDC_MINT,
        ALICE,
        ids.generate_id(),
        NUMBER_OF_DAYS,
        DAILY_FREQUENCY,
        DURATION_MINUTES,
        USDC_TOKEN * 9,
    );
    assert!(result.is_err(), "commitment stake below 10 should fail");
    assert!(
        result
            .unwrap_err()
            .to_string()
            .contains("Error Code: InvalidCommitmentStakeAmount"),
        "Incorrect error for commitment stake below minimum"
    );
}

#[test]
fn test_commitment_stake_above_maximum_fails() {
    let mut ids = IdSource::new();

    let alice_balance = USDC_TOKEN * 600;
    assert_eq!(alice_balance, USDC_TOKEN * 600);

    let result = execute_initialize(
        USDC_MINT,
        ALICE,
        ids.generate_id(),
        NUMBER_OF_DAYS,
        DAILY_FREQUENCY,
        DURATION_MINUTES,
        USDC_TOKEN * 501,
    );
    assert!(result.is_err(), "commitment stake above 500 should fail");
    assert!(
        result
            .unwrap_err()
            .to_string()
            .contains("Error Code: InvalidCommitmentStakeAmount"),
        "Incorrect error for commitment stake above maximum"
    );
}

#[test]
fn test_number_of_days_below_minimum_fails() {
    let mut ids = IdSource::new();

    let result = execute_initialize(
        USDC_MINT,
        ALICE,
        ids.generate_id(),
        6,
        DAILY_FREQUENCY,
        DURATION_MINUTES,
        COMMITMENT_STAKE,
    );
    assert!(result.is_err(), "number of days below 7 should fail");
    assert!(
        result
            .unwrap_err()
            .to_string()
            .contains("Error Code: InvalidNumberOfDays"),
        "Incorrect error for number of days below minimum"
    );
}

#[test]
fn test_number_of_days_above_maximum_fails() {
    let mut ids = IdSource::new();

    let result = execute_initialize(
        USDC_MINT,
        ALICE,
        ids.generate_id(),
        31,
        DAILY_FREQUENCY,
        DURATION_MINUTES,
        COMMITMENT_STAKE,
    );
    assert!(result.is_err(), "number of days above 30 should fail");
    assert!(
        result
            .unwrap_err()
            .to_string()
            .contains("Error Code: InvalidNumberOfDays"),
        "Incorrect error for number of days above maximum"
    );
}

#[test]
fn test_daily_frequency_below_minimum_fails() {
    let mut ids = IdSource::new();

    let result = execute_initialize(
        USDC_MINT,
        ALICE,
        ids.generate_id(),
        NUMBER_OF_DAYS,
        0,
        DURATION_MINUTES,
        COMMITMENT_STAKE,
    );
    assert!(result.is_err(), "daily frequency below 1 should fail");
    assert!(
        result
            .unwrap_err()
            .to_string()
            .contains("Error Code: InvalidDailyFrequency"),
        "Incorrect error for daily frequency below minimum"
    );
}

#[test]
fn test_daily_frequency_above_maximum_fails() {
    let mut ids = IdSource::new();

    let result = execute_initialize(
        USDC_MINT,
        ALICE,
        ids.generate_id(),
        NUMBER_OF_DAYS,
        5,
        DURATION_MINUTES,
        COMMITMENT_STAKE,
    );
    assert!(result.is_err(), "daily frequency above 4 should fail");
    assert!(
        result
            .unwrap_err()
            .to_string()
            .contains("Error Code: InvalidDailyFrequency"),
        "Incorrect error for daily frequency above maximum"
    );
}

#[test]
fn test_duration_minutes_below_minimum_fails() {
    let mut ids = IdSource::new();

    let result = execute_initialize(
        USDC_MINT,
        ALICE,
        ids.generate_id(),
        NUMBER_OF_DAYS,
        DAILY_FREQUENCY,
        4,
        COMMITMENT_STAKE,
    );
    assert!(result.is_err(), "duration minutes below 5 should fail");
    assert!(
        result
            .unwrap_err()
            .to_string()
            .contains("Error Code: InvalidDurationMinutes"),
        "Incorrect error for duration below minimum"
    );
}

#[test]
fn test_duration_minutes_above_maximum_fails() {
    let mut ids = IdSource::new();

    let result = execute_initialize(
        USDC_MINT,
        ALICE,
        ids.generate_id(),
        NUMBER_OF_DAYS,
        DAILY_FREQUENCY,
        61,
        COMMITMENT_STAKE,
    );
    assert!(result.is_err(), "duration minutes above 60 should fail");
    assert!(
        result
            .unwrap_err()
            .to_string()
            .contains("Error Code: InvalidDurationMinutes"),
        "Incorrect error for duration above maximum"
    );
}

#[test]
fn number_of_days_is_accepted_from_7_to_30() {
    for (number_of_days, accepted) in [(6u8, false), (7, true), (30, true), (31, false)] {
        let result = execute_initialize(
            USDC_MINT,
            ALICE,
            1,
            number_of_days,
            DAILY_FREQUENCY,
            DURATION_MINUTES,
            COMMITMENT_STAKE,
        );
        if accepted {
            let plan = result.expect("a schedule of 7 to 30 days is accepted");
            assert_eq!(plan.number_of_days, number_of_days);
            assert_eq!(plan.end_at, number_of_days as i64 * 86_400);
        } else {
            assert_eq!(result, Err(MeditationPlanError::InvalidNumberOfDays));
        }
    }
}

#[test]
fn daily_frequency_is_accepted_from_1_to_4() {
    for (daily_frequency, accepted) in [(0u8, false), (1, true), (4, true), (5, false)] {
        let result = execute_initialize(
            USDC_MINT,
            ALICE,
            1,
            NUMBER_OF_DAYS,
            daily_frequency,
            DURATION_MINUTES,
            COMMITMENT_STAKE,
        );
        if accepted {
            assert_eq!(result.unwrap().daily_frequency, daily_frequency);
        } else {
            assert_eq!(result, Err(MeditationPlanError::InvalidDailyFrequency));
        }
    }
}

#[test]
fn duration_minutes_is_accepted_from_5_to_60() {
    for (duration_minutes, accepted) in [(4u8, false), (5, true), (60, true), (61, false)] {
        let result = execute_initialize(
            USDC_MINT,
            ALICE,
            1,
            NUMBER_OF_DAYS,
            DAILY_FREQUENCY,
            duration_minutes,
            COMMITMENT_STAKE,
        );
        if accepted {
            assert_eq!(result.unwrap().duration_minutes, duration_minutes);
        } else {
            assert_eq!(result, Err(MeditationPlanError::InvalidDurationMinutes));
        }
    }
}

#[test]
fn commitment_stake_is_accepted_from_10_to_500_usdc() {
    for (commitment_stake, accepted) in [
        (10 * USDC_TOKEN - 1, false),
        (10 * USDC_TOKEN, true),
        (500 * USDC_TOKEN, true),
        (500 * USDC_TOKEN + 1, false),
        (0, false),
        (u64::MAX, false),
    ] {
        let result = execute_initialize(
            USDC_MINT,
            ALICE,
            1,
            NUMBER_OF_DAYS,
            DAILY_FREQUENCY,
            DURATION_MINUTES,
            commitment_stake,
        );
        if accepted {
            assert_eq!(result.unwrap().commitment_stake, commitment_stake);
        } else {
            assert_eq!(
                result,
                Err(MeditationPlanError::InvalidCommitmentStakeAmount)
            );
        }
    }
}

#[test]
fn the_first_broken_rule_of_creation_is_reported() {
    let request = Initialize { owner: ALICE, mint: fake_usdc_mint() };
    assert_eq!(
        request.initialize(1, 6, 0, 4, 0, 0, 0),
        Err(MeditationPlanError::InvalidNumberOfDays)
    );
    assert_eq!(
        request.initialize(1, 7, 0, 4, 0, 0, 0),
        Err(MeditationPlanError::InvalidDailyFrequency)
    );
    assert_eq!(
        request.initialize(1, 7, 1, 4, 0, 0, 0),
        Err(MeditationPlanError::InvalidDurationMinutes)
    );
    assert_eq!(
        request.initialize(1, 7, 1, 5, 0, 0, 0),
        Err(MeditationPlanError::InvalidCommitmentStakeAmount)
    );
    assert_eq!(
        request.initialize(1, 7, 1, 5, 10 * USDC_TOKEN, 0, 0),
        Err(MeditationPlanError::InvalidMint)
    );
}

#[test]
fn a_plan_that_would_end_after_the_last_instant_is_refused() {
    let request = Initialize { owner: ALICE, mint: USDC_MINT };
    let last_start = i64::MAX - 7 * 86_400;
    let plan = request
        .initialize(1, 7, 1, 20, FIFTY_USDC, 0, last_start)
        .expect("the schedule ends at the last instant");
    assert_eq!(plan.start_at, last_start);
    assert_eq!(plan.end_at, i64::MAX);
    assert_eq!(
        request.initialize(1, 7, 1, 20, FIFTY_USDC, 0, last_start + 1),
        Err(MeditationPlanError::ArithmeticOverflow)
    );
    assert_eq!(
        request.initialize(1, 30, 1, 20, FIFTY_USDC, 0, i64::MAX),
        Err(MeditationPlanError::ArithmeticOverflow)
    );
}

#[test]
fn a_plan_may_start_before_the_epoch() {
    let request = Initialize { owner: BOB, mint: USDC_MINT };
    let plan = request
        .initialize(9, 10, 2, 30, 20 * USDC_TOKEN, 3, -1_000_000)
        .unwrap();
    assert_eq!(plan.start_at, -1_000_000);
    assert_eq!(plan.end_at, -1_000_000 + 864_000);
    assert_eq!(plan.owner, BOB);
    assert_eq!(plan.id, 9);
    assert_eq!(plan.bump, 3);
}

#[test]
fn two_owners_may_use_the_same_id() {
    let mut ids = IdSource::new();
    let id = ids.generate_id();
    let first = execute_initialize(
        USDC_MINT,
        ALICE,
        id,
        NUMBER_OF_DAYS,
        DAILY_FREQUENCY,
        DURATION_MINUTES,
        COMMITMENT_STAKE,
    )
    .unwrap();
    let second = execute_initialize(
        USDC_MINT,
        BOB,
        id,
        NUMBER_OF_DAYS,
        DAILY_FREQUENCY,
        DURATION_MINUTES,
        COMMITMENT_STAKE,
    )
    .unwrap();
    assert_eq!(first.id, second.id);
    assert_eq!(first.owner, ALICE);
    assert_eq!(second.owner, BOB);
    assert_ne!(ids.generate_id(), id);
}

#[test]
fn the_usdc_mint_is_the_address_that_the_constant_names() {
    // 4zMMC9srt5Ri5X14GAgXhaHii3GnPAEERYPJgZJDncDU, decoded from base 58.
    let alphabet = "123456789ABCDEFGHJKLMNPQRSTUVWXYZabcdefghijkmnopqrstuvwxyz";
    let mut bytes = [0u8; 32];
    for letter in "4zMMC9srt5Ri5X14GAgXhaHii3GnPAEERYPJgZJDncDU".chars() {
        let mut carry = alphabet.find(letter).unwrap();
        for byte in bytes.iter_mut().rev() {
            let value = *byte as usize * 58 + carry;
            *byte = (value % 256) as u8;
            carry = value / 256;
        }
        assert_eq!(carry, 0);
    }
    assert_eq!(bytes, USDC_MINT);
}
