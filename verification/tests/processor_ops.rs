//! Transition engine tests: each operation's acceptance and rejection
//! behavior, driven against real derived addresses and real token account
//! records.

use solana_program::program_option::COption;
use solana_program::program_pack::Pack;
use solana_program::pubkey::Pubkey;
use token_vesting::error::VestingError;
use token_vesting::instruction::{Schedule, VestingInstruction};
use token_vesting::processor::{AccountView, InstructionOutcome, Processor, LOCK_3_MONTHS};
use token_vesting::state::{pack_state, VestingSchedule, VestingScheduleHeader};

const PROGRAM_ID: [u8; 32] = [9u8; 32];
const TOKEN_PROGRAM: [u8; 32] = [10u8; 32];
const MINT: [u8; 32] = [1u8; 32];

fn derive(seeds: &[u8; 32]) -> Option<[u8; 32]> {
    Pubkey::create_program_address(&[seeds], &Pubkey::new_from_array(PROGRAM_ID))
        .ok()
        .map(|k| k.to_bytes())
}

fn find_seed(base: [u8; 32]) -> ([u8; 32], [u8; 32]) {
    let mut seeds = base;
    let mut bump = 255u8;
    loop {
        seeds[31] = bump;
        if let Some(key) = derive(&seeds) {
            return (seeds, key);
        }
        if bump == 0 {
            panic!("no valid bump byte for the seed");
        }
        bump -= 1;
    }
}

fn token_account_bytes(
    owner: [u8; 32],
    amount: u64,
    delegate: Option<[u8; 32]>,
    close_authority: Option<[u8; 32]>,
) -> Vec<u8> {
    let account = spl_token::state::Account {
        mint: Pubkey::new_from_array(MINT),
        owner: Pubkey::new_from_array(owner),
        amount,
        delegate: match delegate {
            Some(d) => COption::Some(Pubkey::new_from_array(d)),
            None => COption::None,
        },
        state: spl_token::state::AccountState::Initialized,
        is_native: COption::None,
        delegated_amount: 0,
        close_authority: match close_authority {
            Some(c) => COption::Some(Pubkey::new_from_array(c)),
            None => COption::None,
        },
    };
    let mut buf = vec![0u8; 165];
    spl_token::state::Account::pack(account, &mut buf).unwrap();
    buf
}

fn record(destination: [u8; 32], initialized: bool, release_time: u64, amount: u64) -> Vec<u8> {
    pack_state(
        &VestingScheduleHeader { destination_address: destination, is_initialized: initialized },
        &VestingSchedule { release_time, amount },
    )
}

fn account(key: [u8; 32], owner: [u8; 32], is_signer: bool, data: Vec<u8>) -> AccountView {
    AccountView { key, owner, is_signer, data }
}

struct CreateSetup {
    seeds: [u8; 32],
    vesting_key: [u8; 32],
    vesting_account: AccountView,
    escrow: AccountView,
    source_owner: AccountView,
    source: AccountView,
}

const SOURCE_OWNER_KEY: [u8; 32] = [2u8; 32];
const SOURCE_KEY: [u8; 32] = [3u8; 32];
const ESCROW_KEY: [u8; 32] = [4u8; 32];

fn create_setup(base: [u8; 32], funding: u64) -> CreateSetup {
    let (seeds, vesting_key) = find_seed(base);
    CreateSetup {
        seeds,
        vesting_key,
        vesting_account: account(vesting_key, PROGRAM_ID, false, vec![0u8; 49]),
        escrow: account(
            ESCROW_KEY,
            TOKEN_PROGRAM,
            false,
            token_account_bytes(vesting_key, 0, None, None),
        ),
        source_owner: account(SOURCE_OWNER_KEY, [0u8; 32], true, Vec::new()),
        source: account(
            SOURCE_KEY,
            TOKEN_PROGRAM,
            false,
            token_account_bytes(SOURCE_OWNER_KEY, funding, None, None),
        ),
    }
}

#[test]
fn test_init_succeeds_only_at_derived_address() {
    let (seeds, vesting_key) = find_seed([42u8; 32]);
    let payer = [5u8; 32];

    let order = Processor::process_init(&PROGRAM_ID, &payer, &vesting_key, &seeds).unwrap();
    assert_eq!(order.payer, payer);
    assert_eq!(order.address, vesting_key);
    assert_eq!(order.space, 49);
    assert_eq!(order.owner, PROGRAM_ID);

    let mut wrong_key = vesting_key;
    wrong_key[0] ^= 1;
    assert_eq!(
        Processor::process_init(&PROGRAM_ID, &payer, &wrong_key, &seeds),
        Err(VestingError::InvalidArgument)
    );
}

#[test]
fn test_create_immediate_path() {
    let s = create_setup([42u8; 32], 5_000_000);
    let now = 1_000_000u64;
    let out = Processor::process_create(
        &PROGRAM_ID,
        &s.seeds,
        &s.vesting_account,
        &s.escrow,
        &s.source_owner,
        &s.source,
        &Schedule { time_delta: 0, amount: 100 },
        now,
    )
    .unwrap();
    assert_eq!(out.vesting_data, record(SOURCE_KEY, true, 0, 100));
    assert_eq!(out.transfer.source, SOURCE_KEY);
    assert_eq!(out.transfer.destination, ESCROW_KEY);
    assert_eq!(out.transfer.authority, SOURCE_OWNER_KEY);
    assert_eq!(out.transfer.amount, 100);
    assert!(!out.transfer.derived_authority);
}

#[test]
fn test_create_whitelisted_duration_sets_absolute_release_time() {
    let s = create_setup([43u8; 32], 5_000_000);
    let now = 1_000_000u64;
    let out = Processor::process_create(
        &PROGRAM_ID,
        &s.seeds,
        &s.vesting_account,
        &s.escrow,
        &s.source_owner,
        &s.source,
        &Schedule { time_delta: LOCK_3_MONTHS, amount: 100 },
        now,
    )
    .unwrap();
    assert_eq!(out.vesting_data, record(SOURCE_KEY, true, now + 7_776_000, 100));
}

#[test]
fn test_create_rejects_unsupported_duration() {
    let s = create_setup([44u8; 32], 5_000_000);
    let r = Processor::process_create(
        &PROGRAM_ID,
        &s.seeds,
        &s.vesting_account,
        &s.escrow,
        &s.source_owner,
        &s.source,
        &Schedule { time_delta: 12345, amount: 100 },
        1_000_000,
    );
    assert_eq!(r, Err(VestingError::InvalidInstructionData));
}

#[test]
fn test_create_rejects_double_create() {
    let mut s = create_setup([45u8; 32], 5_000_000);
    s.vesting_account.data = record(SOURCE_KEY, true, 0, 100);
    let r = Processor::process_create(
        &PROGRAM_ID,
        &s.seeds,
        &s.vesting_account,
        &s.escrow,
        &s.source_owner,
        &s.source,
        &Schedule { time_delta: 0, amount: 100 },
        1_000_000,
    );
    assert_eq!(r, Err(VestingError::InvalidArgument));
}

#[test]
fn test_create_rejects_escrow_delegate_or_close_authority() {
    let mut s = create_setup([46u8; 32], 5_000_000);
    s.escrow.data = token_account_bytes(s.vesting_key, 0, Some([6u8; 32]), None);
    let r = Processor::process_create(
        &PROGRAM_ID,
        &s.seeds,
        &s.vesting_account,
        &s.escrow,
        &s.source_owner,
        &s.source,
        &Schedule { time_delta: 0, amount: 100 },
        1_000_000,
    );
    assert_eq!(r, Err(VestingError::InvalidAccountData));

    s.escrow.data = token_account_bytes(s.vesting_key, 0, None, Some([6u8; 32]));
    let r = Processor::process_create(
        &PROGRAM_ID,
        &s.seeds,
        &s.vesting_account,
        &s.escrow,
        &s.source_owner,
        &s.source,
        &Schedule { time_delta: 0, amount: 100 },
        1_000_000,
    );
    assert_eq!(r, Err(VestingError::InvalidAccountData));
}

#[test]
fn test_create_rejects_insufficient_funds() {
    let s = create_setup([47u8; 32], 99);
    let r = Processor::process_create(
        &PROGRAM_ID,
        &s.seeds,
        &s.vesting_account,
        &s.escrow,
        &s.source_owner,
        &s.source,
        &Schedule { time_delta: 0, amount: 100 },
        1_000_000,
    );
    assert_eq!(r, Err(VestingError::InsufficientFunds));
}

#[test]
fn test_create_rejects_missing_signer() {
    let mut s = create_setup([48u8; 32], 5_000_000);
    s.source_owner.is_signer = false;
    let r = Processor::process_create(
        &PROGRAM_ID,
        &s.seeds,
        &s.vesting_account,
        &s.escrow,
        &s.source_owner,
        &s.source,
        &Schedule { time_delta: 0, amount: 100 },
        1_000_000,
    );
    assert_eq!(r, Err(VestingError::InvalidArgument));
}

#[test]
fn test_initialize_unlock_rejects_claimed_or_already_initialized() {
    let (seeds, vesting_key) = find_seed([49u8; 32]);
    let destination = [3u8; 32];
    let escrow = account(
        ESCROW_KEY,
        TOKEN_PROGRAM,
        false,
        token_account_bytes(vesting_key, 100, None, None),
    );
    let now = 2_000_000u64;

    // Amount already fully claimed.
    let vesting_account =
        account(vesting_key, PROGRAM_ID, false, record(destination, true, 0, 0));
    let r = Processor::process_initialize_unlock(
        &PROGRAM_ID,
        &seeds,
        &vesting_account,
        &escrow,
        &destination,
        now,
    );
    assert_eq!(r, Err(VestingError::InvalidArgument));

    // Timer already started.
    let vesting_account =
        account(vesting_key, PROGRAM_ID, false, record(destination, true, 7, 100));
    let r = Processor::process_initialize_unlock(
        &PROGRAM_ID,
        &seeds,
        &vesting_account,
        &escrow,
        &destination,
        now,
    );
    assert_eq!(r, Err(VestingError::InvalidArgument));
}

#[test]
fn test_initialize_unlock_sets_release_time_once() {
    let (seeds, vesting_key) = find_seed([50u8; 32]);
    let destination = [3u8; 32];
    let escrow = account(
        ESCROW_KEY,
        TOKEN_PROGRAM,
        false,
        token_account_bytes(vesting_key, 100, None, None),
    );
    let now = 2_000_000u64;
    let vesting_account =
        account(vesting_key, PROGRAM_ID, false, record(destination, true, 0, 100));
    let new_data = Processor::process_initialize_unlock(
        &PROGRAM_ID,
        &seeds,
        &vesting_account,
        &escrow,
        &destination,
        now,
    )
    .unwrap();
    assert_eq!(new_data, record(destination, true, now + 604_800, 100));
}

#[test]
fn test_unlock_premature_and_matured() {
    let (seeds, vesting_key) = find_seed([51u8; 32]);
    let destination = [3u8; 32];
    let release_time = 5_000_000u64;
    let escrow = account(
        ESCROW_KEY,
        TOKEN_PROGRAM,
        false,
        token_account_bytes(vesting_key, 100, None, None),
    );
    let vesting_account = account(
        vesting_key,
        PROGRAM_ID,
        false,
        record(destination, true, release_time, 100),
    );

    // Before the release time: rejected, nothing staged.
    let r = Processor::process_unlock(
        &PROGRAM_ID,
        &seeds,
        &vesting_account,
        &escrow,
        &destination,
        release_time - 1,
    );
    assert_eq!(r, Err(VestingError::InvalidArgument));

    // At the release time: the whole amount moves and the record is zeroed.
    let out = Processor::process_unlock(
        &PROGRAM_ID,
        &seeds,
        &vesting_account,
        &escrow,
        &destination,
        release_time,
    )
    .unwrap();
    assert_eq!(out.transfer.amount, 100);
    assert_eq!(out.transfer.source, ESCROW_KEY);
    assert_eq!(out.transfer.destination, destination);
    assert_eq!(out.transfer.authority, vesting_key);
    assert!(out.transfer.derived_authority);
    assert_eq!(out.vesting_data, record(destination, true, release_time, 0));

    // A second unlock on the written-back record: the same error code as a
    // premature unlock.
    let drained = account(vesting_key, PROGRAM_ID, false, out.vesting_data);
    let r = Processor::process_unlock(
        &PROGRAM_ID,
        &seeds,
        &drained,
        &escrow,
        &destination,
        release_time + 10,
    );
    assert_eq!(r, Err(VestingError::InvalidArgument));
}

#[test]
fn test_unlock_rejects_wrong_destination_and_uninitialized_timer() {
    let (seeds, vesting_key) = find_seed([52u8; 32]);
    let destination = [3u8; 32];
    let escrow = account(
        ESCROW_KEY,
        TOKEN_PROGRAM,
        false,
        token_account_bytes(vesting_key, 100, None, None),
    );

    let vesting_account = account(
        vesting_key,
        PROGRAM_ID,
        false,
        record(destination, true, 5_000_000, 100),
    );
    let wrong_destination = [30u8; 32];
    let r = Processor::process_unlock(
        &PROGRAM_ID,
        &seeds,
        &vesting_account,
        &escrow,
        &wrong_destination,
        9_000_000,
    );
    assert_eq!(r, Err(VestingError::InvalidArgument));

    // Timer never started: unlock must be initialized first.
    let vesting_account =
        account(vesting_key, PROGRAM_ID, false, record(destination, true, 0, 100));
    let r = Processor::process_unlock(
        &PROGRAM_ID,
        &seeds,
        &vesting_account,
        &escrow,
        &destination,
        9_000_000,
    );
    assert_eq!(r, Err(VestingError::InvalidArgument));
}

#[test]
fn test_change_destination_requires_owner_signature() {
    let (seeds, vesting_key) = find_seed([53u8; 32]);
    let destination_key = [3u8; 32];
    let owner_key = [2u8; 32];
    let new_destination_key = [31u8; 32];
    let vesting_account = account(
        vesting_key,
        PROGRAM_ID,
        false,
        record(destination_key, true, 77, 100),
    );
    let destination = account(
        destination_key,
        TOKEN_PROGRAM,
        false,
        token_account_bytes(owner_key, 5, None, None),
    );

    // The signer is not the destination's recorded owner.
    let stranger = account([66u8; 32], [0u8; 32], true, Vec::new());
    let r = Processor::process_change_destination(
        &PROGRAM_ID,
        &seeds,
        &vesting_account,
        &destination,
        &stranger,
        &new_destination_key,
    );
    assert_eq!(r, Err(VestingError::InvalidArgument));

    // The right owner, but it did not sign.
    let owner_not_signing = account(owner_key, [0u8; 32], false, Vec::new());
    let r = Processor::process_change_destination(
        &PROGRAM_ID,
        &seeds,
        &vesting_account,
        &destination,
        &owner_not_signing,
        &new_destination_key,
    );
    assert_eq!(r, Err(VestingError::InvalidArgument));

    // The right owner signing: the destination changes, the schedule stays.
    let owner = account(owner_key, [0u8; 32], true, Vec::new());
    let new_data = Processor::process_change_destination(
        &PROGRAM_ID,
        &seeds,
        &vesting_account,
        &destination,
        &owner,
        &new_destination_key,
    )
    .unwrap();
    assert_eq!(new_data, record(new_destination_key, true, 77, 100));
}

#[test]
fn test_create_rejects_unparsable_source_account() {
    // A buffer of the wrong length is not a token account.
    let mut s = create_setup([55u8; 32], 5_000_000);
    s.source.data = vec![0u8; 10];
    let r = Processor::process_create(
        &PROGRAM_ID,
        &s.seeds,
        &s.vesting_account,
        &s.escrow,
        &s.source_owner,
        &s.source,
        &Schedule { time_delta: 0, amount: 100 },
        1_000_000,
    );
    assert_eq!(r, Err(VestingError::InvalidAccountData));

    // An uninitialized token account is rejected too.
    let mut s = create_setup([56u8; 32], 5_000_000);
    let uninitialized = spl_token::state::Account {
        mint: Pubkey::new_from_array(MINT),
        owner: Pubkey::new_from_array(SOURCE_OWNER_KEY),
        amount: 5_000_000,
        delegate: COption::None,
        state: spl_token::state::AccountState::Uninitialized,
        is_native: COption::None,
        delegated_amount: 0,
        close_authority: COption::None,
    };
    let mut buf = vec![0u8; 165];
    spl_token::state::Account::pack(uninitialized, &mut buf).unwrap();
    s.source.data = buf;
    let r = Processor::process_create(
        &PROGRAM_ID,
        &s.seeds,
        &s.vesting_account,
        &s.escrow,
        &s.source_owner,
        &s.source,
        &Schedule { time_delta: 0, amount: 100 },
        1_000_000,
    );
    assert_eq!(r, Err(VestingError::InvalidAccountData));
}

#[test]
fn test_create_rejects_wrong_record_length() {
    let mut s = create_setup([57u8; 32], 5_000_000);
    s.vesting_account.data = vec![0u8; 48];
    let r = Processor::process_create(
        &PROGRAM_ID,
        &s.seeds,
        &s.vesting_account,
        &s.escrow,
        &s.source_owner,
        &s.source,
        &Schedule { time_delta: 0, amount: 100 },
        1_000_000,
    );
    assert_eq!(r, Err(VestingError::InvalidAccountData));
}

#[test]
fn test_create_rejects_escrow_not_owned_by_derived_address() {
    let mut s = create_setup([58u8; 32], 5_000_000);
    s.escrow.data = token_account_bytes([77u8; 32], 0, None, None);
    let r = Processor::process_create(
        &PROGRAM_ID,
        &s.seeds,
        &s.vesting_account,
        &s.escrow,
        &s.source_owner,
        &s.source,
        &Schedule { time_delta: 0, amount: 100 },
        1_000_000,
    );
    assert_eq!(r, Err(VestingError::InvalidArgument));
}

#[test]
fn test_process_instruction_dispatches_change_destination() {
    let (seeds, vesting_key) = find_seed([59u8; 32]);
    let destination_key = [3u8; 32];
    let owner_key = [2u8; 32];
    let new_destination_key = [31u8; 32];
    let accounts = vec![
        account(vesting_key, PROGRAM_ID, false, record(destination_key, true, 77, 100)),
        account(
            destination_key,
            TOKEN_PROGRAM,
            false,
            token_account_bytes(owner_key, 5, None, None),
        ),
        account(owner_key, [0u8; 32], true, Vec::new()),
        account(new_destination_key, TOKEN_PROGRAM, false, Vec::new()),
    ];
    let data = VestingInstruction::ChangeDestination { seeds }.pack();
    match Processor::process_instruction(&PROGRAM_ID, &accounts, &data, 0).unwrap() {
        InstructionOutcome::ChangeDestination(new_data) => {
            assert_eq!(new_data, record(new_destination_key, true, 77, 100));
        },
        other => panic!("wrong outcome variant: {:?}", other),
    }
}

#[test]
fn test_process_instruction_dispatches_positionally() {
    let s = create_setup([54u8; 32], 5_000_000);
    let now = 1_000_000u64;
    let data = VestingInstruction::Create {
        seeds: s.seeds,
        schedule: Schedule { time_delta: 0, amount: 100 },
    }
    .pack();
    let service = account([70u8; 32], [0u8; 32], false, Vec::new());
    let clock = account([71u8; 32], [0u8; 32], false, Vec::new());
    let accounts = vec![
        service,
        clock,
        s.vesting_account,
        s.escrow,
        s.source_owner,
        s.source,
    ];
    match Processor::process_instruction(&PROGRAM_ID, &accounts, &data, now).unwrap() {
        InstructionOutcome::Create(out) => {
            assert_eq!(out.vesting_data, record(SOURCE_KEY, true, 0, 100));
            assert_eq!(out.transfer.amount, 100);
        },
        other => panic!("wrong outcome variant: {:?}", other),
    }

    // A short account list is rejected.
    let short = vec![account([70u8; 32], [0u8; 32], false, Vec::new())];
    assert_eq!(
        Processor::process_instruction(&PROGRAM_ID, &short, &data, now).unwrap_err(),
        VestingError::InvalidArgument
    );

    // An unknown tag is rejected before any account is read.
    assert_eq!(
        Processor::process_instruction(&PROGRAM_ID, &Vec::new(), &[9u8; 49], now).unwrap_err(),
        VestingError::InvalidInstruction
    );
}
