//! The validation and transition engine. Every operation takes the accounts
//! it touches as plain values, re-validates the derived address, program
//! ownership and exact record length, and either returns a typed error or
//! the staged state write and orders for the host to apply as one atomic
//! unit; on an error nothing is staged and the host discards the
//! instruction.

use crate::authority::{addr_eq, create_program_address, derived_address};
use crate::error::VestingError;
use crate::instruction::{decodable, decodes_to, Schedule, VestingInstruction};
use crate::state::{
    lemma_record_bytes_fields, pack_state, spec_record_bytes, spec_record_destination,
    spec_record_is_initialized, spec_record_schedule, spec_state_bytes, unpack_schedule,
    VestingSchedule, VestingScheduleHeader, HEADER_LEN, STATE_LEN,
};
use crate::token_account::{
    spec_token_amount, spec_token_has_close_authority, spec_token_has_delegate, spec_token_owner,
    token_account_parse_ok, unpack_token_account,
};
use vstd::prelude::*;
use vstd::slice::slice_subrange;

verus! {

/// The lock durations (in seconds) accepted at creation besides `0`: three,
/// six, nine and twelve 30-day months.
pub const LOCK_3_MONTHS: u64 = 7_776_000;

/// Six 30-day months, in seconds.
pub const LOCK_6_MONTHS: u64 = 15_552_000;

/// Nine 30-day months, in seconds.
pub const LOCK_9_MONTHS: u64 = 23_328_000;

/// Twelve 30-day months, in seconds.
pub const LOCK_12_MONTHS: u64 = 31_104_000;

/// The fixed grace window (seven days, in seconds) between starting the
/// unlock timer and the funds becoming releasable.
pub const WITHDRAWAL_PERIOD: u64 = 604_800;

/// Whether a non-zero lock duration is on the accepted whitelist.
pub open spec fn spec_whitelisted_delta(d: u64) -> bool {
    d == LOCK_3_MONTHS || d == LOCK_6_MONTHS || d == LOCK_9_MONTHS || d == LOCK_12_MONTHS
}

/// One account of the host's positional account list, as plain values: its
/// address, the program that owns it, whether it signed the instruction, and
/// its stored bytes.
#[derive(Clone, Debug)]
pub struct AccountView {
    /// The account's address.
    pub key: [u8; 32],
    /// The program that owns the account.
    pub owner: [u8; 32],
    /// Whether this account signed the instruction.
    pub is_signer: bool,
    /// The account's stored bytes.
    pub data: Vec<u8>,
}

/// The mathematical value of an [`AccountView`].
#[verifier::ext_equal]
pub struct AccountModel {
    /// The account's address.
    pub key: Seq<u8>,
    /// The program that owns the account.
    pub owner: Seq<u8>,
    /// Whether this account signed the instruction.
    pub is_signer: bool,
    /// The account's stored bytes.
    pub data: Seq<u8>,
}

impl View for AccountView {
    type V = AccountModel;

    open spec fn view(&self) -> AccountModel {
        AccountModel {
            key: self.key@,
            owner: self.owner@,
            is_signer: self.is_signer,
            data: self.data@,
        }
    }
}

/// An order to the host to allocate a zeroed, program-owned account of the
/// given size at the given address, funded by the payer to the minimum
/// balance for permanent retention.
#[derive(Clone, Copy, Debug, PartialEq, Eq)]
pub struct AllocateOrder {
    /// The account paying for the allocation.
    pub payer: [u8; 32],
    /// The address the account is created at.
    pub address: [u8; 32],
    /// The byte length to allocate.
    pub space: u64,
    /// The program given ownership of the new account.
    pub owner: [u8; 32],
}

/// The mathematical value of an [`AllocateOrder`].
#[verifier::ext_equal]
pub struct AllocateModel {
    /// The account paying for the allocation.
    pub payer: Seq<u8>,
    /// The address the account is created at.
    pub address: Seq<u8>,
    /// The byte length to allocate.
    pub space: u64,
    /// The program given ownership of the new account.
    pub owner: Seq<u8>,
}

impl View for AllocateOrder {
    type V = AllocateModel;

    open spec fn view(&self) -> AllocateModel {
        AllocateModel {
            payer: self.payer@,
            address: self.address@,
            space: self.space,
            owner: self.owner@,
        }
    }
}

/// An order to the external token-transfer collaborator to move a balance.
#[derive(Clone, Copy, Debug, PartialEq, Eq)]
pub struct TransferOrder {
    /// The token account debited.
    pub source: [u8; 32],
    /// The token account credited.
    pub destination: [u8; 32],
    /// The authority the transfer is made under.
    pub authority: [u8; 32],
    /// The amount moved.
    pub amount: u64,
    /// Whether the authority is the contract's derived address, signed with
    /// the seed at invocation time, rather than an external signer.
    pub derived_authority: bool,
}

/// The mathematical value of a [`TransferOrder`].
#[verifier::ext_equal]
pub struct TransferModel {
    /// The token account debited.
    pub source: Seq<u8>,
    /// The token account credited.
    pub destination: Seq<u8>,
    /// The authority the transfer is made under.
    pub authority: Seq<u8>,
    /// The amount moved.
    pub amount: u64,
    /// Whether the authority is the contract's derived address.
    pub derived_authority: bool,
}

impl View for TransferOrder {
    type V = TransferModel;

    open spec fn view(&self) -> TransferModel {
        TransferModel {
            source: self.source@,
            destination: self.destination@,
            authority: self.authority@,
            amount: self.amount,
            derived_authority: self.derived_authority,
        }
    }
}

/// The staged effect of an operation that both rewrites the contract record
/// and orders a transfer.
#[derive(Clone, Debug, PartialEq, Eq)]
pub struct TransferOutcome {
    /// The new contents of the contract account record.
    pub vesting_data: Vec<u8>,
    /// The transfer to perform.
    pub transfer: TransferOrder,
}

/// The mathematical value of a [`TransferOutcome`].
#[verifier::ext_equal]
pub struct TransferOutcomeModel {
    /// The new contents of the contract account record.
    pub vesting_data: Seq<u8>,
    /// The transfer to perform.
    pub transfer: TransferModel,
}

impl View for TransferOutcome {
    type V = TransferOutcomeModel;

    open spec fn view(&self) -> TransferOutcomeModel {
        TransferOutcomeModel { vesting_data: self.vesting_data@, transfer: self.transfer@ }
    }
}

/// A `Result` seen at the specification level: the payload replaced by its
/// mathematical value.
pub open spec fn res_view<T: View>(r: Result<T, VestingError>) -> Result<T::V, VestingError> {
    match r {
        Ok(v) => Ok(v@),
        Err(e) => Err(e),
    }
}

/// What allocating a contract account returns: the allocation order exactly
/// when the supplied contract address equals the address derived from the
/// seed and the program identity, and `InvalidArgument` otherwise.
pub open spec fn spec_process_init(
    program: Seq<u8>,
    seeds: Seq<u8>,
    payer: Seq<u8>,
    vesting_key: Seq<u8>,
) -> Result<AllocateModel, VestingError> {
    if derived_address(seeds, program) == Some(vesting_key) {
        Ok(
            AllocateModel {
                payer: payer,
                address: vesting_key,
                space: STATE_LEN as u64,
                owner: program,
            },
        )
    } else {
        Err(VestingError::InvalidArgument)
    }
}

/// What populating a contract returns. The checks, in order: the funding
/// account parses as a token account; the contract account sits at the
/// derived address; the funding owner signed; the contract account is owned
/// by this program, has the exact record length, and is not yet initialized;
/// the escrow parses, is owned by the derived address, and has neither a
/// delegate nor a close authority; the lock duration is `0` or whitelisted
/// and the release time does not overflow; and the funding balance covers
/// the requested amount. On success the record holds the funding account as
/// destination, the initialized flag, the computed absolute release time and
/// the amount, and the amount is ordered moved from the funding account into
/// escrow under the funding owner's signature.
pub open spec fn spec_process_create(
    program: Seq<u8>,
    seeds: Seq<u8>,
    vesting: AccountModel,
    escrow: AccountModel,
    source_owner: AccountModel,
    source: AccountModel,
    schedule: Schedule,
    now: u64,
) -> Result<TransferOutcomeModel, VestingError> {
    if !token_account_parse_ok(source.data) {
        Err(VestingError::InvalidAccountData)
    } else if derived_address(seeds, program) != Some(vesting.key) {
        Err(VestingError::InvalidArgument)
    } else if !source_owner.is_signer {
        Err(VestingError::InvalidArgument)
    } else if vesting.owner != program {
        Err(VestingError::InvalidArgument)
    } else if vesting.data.len() != STATE_LEN {
        Err(VestingError::InvalidAccountData)
    } else if spec_record_is_initialized(vesting.data) {
        Err(VestingError::InvalidArgument)
    } else if !token_account_parse_ok(escrow.data) {
        Err(VestingError::InvalidAccountData)
    } else if spec_token_owner(escrow.data) != vesting.key {
        Err(VestingError::InvalidArgument)
    } else if spec_token_has_delegate(escrow.data) {
        Err(VestingError::InvalidAccountData)
    } else if spec_token_has_close_authority(escrow.data) {
        Err(VestingError::InvalidAccountData)
    } else if !(schedule.time_delta == 0 || spec_whitelisted_delta(schedule.time_delta)) {
        Err(VestingError::InvalidInstructionData)
    } else if now + schedule.time_delta > u64::MAX {
        Err(VestingError::InvalidInstructionData)
    } else if spec_token_amount(source.data) < schedule.amount {
        Err(VestingError::InsufficientFunds)
    } else {
        let release_time: u64 = if schedule.time_delta == 0 {
            0u64
        } else {
            (now + schedule.time_delta) as u64
        };
        Ok(
            TransferOutcomeModel {
                vesting_data: spec_record_bytes(
                    source.key,
                    true,
                    VestingSchedule { release_time, amount: schedule.amount },
                ),
                transfer: TransferModel {
                    source: source.key,
                    destination: escrow.key,
                    authority: source_owner.key,
                    amount: schedule.amount,
                    derived_authority: false,
                },
            },
        )
    }
}

/// What releasing matured funds returns. The checks, in order: the contract
/// account is owned by this program and sits at the derived address; the
/// record has the exact length and is initialized; the supplied destination
/// equals the stored destination; the escrow parses and is owned by the
/// derived address; the unlock timer has been started; and the release time
/// has been reached with a non-zero amount remaining. The rejection for a
/// premature unlock and for an already fully released contract is the same
/// `InvalidArgument`. On success the record keeps its destination and
/// release time, the amount is zeroed, and the whole former amount is
/// ordered moved from escrow to the destination under the contract's
/// derived authority.
pub open spec fn spec_process_unlock(
    program: Seq<u8>,
    seeds: Seq<u8>,
    vesting: AccountModel,
    escrow: AccountModel,
    destination_key: Seq<u8>,
    now: u64,
) -> Result<TransferOutcomeModel, VestingError> {
    if vesting.owner != program {
        Err(VestingError::InvalidArgument)
    } else if derived_address(seeds, program) != Some(vesting.key) {
        Err(VestingError::InvalidArgument)
    } else if vesting.data.len() != STATE_LEN {
        Err(VestingError::InvalidAccountData)
    } else if !spec_record_is_initialized(vesting.data) {
        Err(VestingError::InvalidArgument)
    } else if spec_record_destination(vesting.data) != destination_key {
        Err(VestingError::InvalidArgument)
    } else if !token_account_parse_ok(escrow.data) {
        Err(VestingError::InvalidAccountData)
    } else if spec_token_owner(escrow.data) != vesting.key {
        Err(VestingError::InvalidArgument)
    } else if spec_record_schedule(vesting.data).release_time == 0 {
        Err(VestingError::InvalidArgument)
    } else if now < spec_record_schedule(vesting.data).release_time || spec_record_schedule(
        vesting.data,
    ).amount == 0 {
        Err(VestingError::InvalidArgument)
    } else {
        Ok(
            TransferOutcomeModel {
                vesting_data: spec_record_bytes(
                    spec_record_destination(vesting.data),
                    true,
                    VestingSchedule {
                        release_time: spec_record_schedule(vesting.data).release_time,
                        amount: 0,
                    },
                ),
                transfer: TransferModel {
                    source: escrow.key,
                    destination: destination_key,
                    authority: vesting.key,
                    amount: spec_record_schedule(vesting.data).amount,
                    derived_authority: true,
                },
            },
        )
    }
}

/// What starting the unlock timer returns. The checks, in order: the
/// contract account sits at the derived address and is owned by this
/// program; the record has the exact length and is initialized; the
/// supplied destination equals the stored destination; the escrow parses
/// and is owned by the derived address; the amount has not been fully
/// claimed; the timer has not been started before; and the release time
/// does not overflow. On success the record keeps its destination and
/// amount and the release time becomes `now` plus the fixed grace window.
pub open spec fn spec_process_initialize_unlock(
    program: Seq<u8>,
    seeds: Seq<u8>,
    vesting: AccountModel,
    escrow: AccountModel,
    destination_key: Seq<u8>,
    now: u64,
) -> Result<Seq<u8>, VestingError> {
    if derived_address(seeds, program) != Some(vesting.key) {
        Err(VestingError::InvalidArgument)
    } else if vesting.owner != program {
        Err(VestingError::InvalidArgument)
    } else if vesting.data.len() != STATE_LEN {
        Err(VestingError::InvalidAccountData)
    } else if !spec_record_is_initialized(vesting.data) {
        Err(VestingError::InvalidArgument)
    } else if spec_record_destination(vesting.data) != destination_key {
        Err(VestingError::InvalidArgument)
    } else if !token_account_parse_ok(escrow.data) {
        Err(VestingError::InvalidAccountData)
    } else if spec_token_owner(escrow.data) != vesting.key {
        Err(VestingError::InvalidArgument)
    } else if spec_record_schedule(vesting.data).amount == 0 {
        Err(VestingError::InvalidArgument)
    } else if spec_record_schedule(vesting.data).release_time != 0 {
        Err(VestingError::InvalidArgument)
    } else if now + WITHDRAWAL_PERIOD > u64::MAX {
        Err(VestingError::InvalidInstructionData)
    } else {
        Ok(
            spec_record_bytes(
                spec_record_destination(vesting.data),
                true,
                VestingSchedule {
                    release_time: (now + WITHDRAWAL_PERIOD) as u64,
                    amount: spec_record_schedule(vesting.data).amount,
                },
            ),
        )
    }
}

/// What redirecting the destination returns. The checks, in order: the
/// contract account sits at the derived address and is owned by this
/// program; the record has the exact length and is initialized; the
/// supplied destination account equals the stored destination; that
/// destination parses as a token account; its recorded owner signed the
/// instruction; and that owner equals the signer supplied. On success the
/// record's destination becomes the new destination account's address and
/// the schedule is untouched.
pub open spec fn spec_process_change_destination(
    program: Seq<u8>,
    seeds: Seq<u8>,
    vesting: AccountModel,
    destination: AccountModel,
    destination_owner: AccountModel,
    new_destination_key: Seq<u8>,
) -> Result<Seq<u8>, VestingError> {
    if derived_address(seeds, program) != Some(vesting.key) {
        Err(VestingError::InvalidArgument)
    } else if vesting.owner != program {
        Err(VestingError::InvalidArgument)
    } else if vesting.data.len() != STATE_LEN {
        Err(VestingError::InvalidAccountData)
    } else if !spec_record_is_initialized(vesting.data) {
        Err(VestingError::InvalidArgument)
    } else if spec_record_destination(vesting.data) != destination.key {
        Err(VestingError::InvalidArgument)
    } else if !token_account_parse_ok(destination.data) {
        Err(VestingError::InvalidAccountData)
    } else if !destination_owner.is_signer {
        Err(VestingError::InvalidArgument)
    } else if spec_token_owner(destination.data) != destination_owner.key {
        Err(VestingError::InvalidArgument)
    } else {
        Ok(
            spec_record_bytes(
                new_destination_key,
                true,
                spec_record_schedule(vesting.data),
            ),
        )
    }
}

/// A contract is populated exactly once: a second `Create` against the
/// record a successful `Create` wrote is rejected, whatever funding
/// account, schedule or time the second call carries, because the
/// initialized flag never reverts.
pub proof fn lemma_create_only_once(
    program: Seq<u8>,
    seeds: Seq<u8>,
    vesting: AccountModel,
    escrow: AccountModel,
    source_owner: AccountModel,
    source: AccountModel,
    schedule: Schedule,
    now: u64,
    outcome: TransferOutcomeModel,
    vesting2: AccountModel,
    escrow2: AccountModel,
    source_owner2: AccountModel,
    source2: AccountModel,
    schedule2: Schedule,
    now2: u64,
)
    requires
        spec_process_create(program, seeds, vesting, escrow, source_owner, source, schedule, now)
            == Ok::<TransferOutcomeModel, VestingError>(outcome),
        source.key.len() == 32,
        vesting2.key == vesting.key,
        vesting2.owner == program,
        vesting2.data == outcome.vesting_data,
        token_account_parse_ok(source2.data),
        source_owner2.is_signer,
    ensures
        spec_process_create(
            program,
            seeds,
            vesting2,
            escrow2,
            source_owner2,
            source2,
            schedule2,
            now2,
        ) == Err::<TransferOutcomeModel, VestingError>(VestingError::InvalidArgument),
{
    let written = VestingSchedule {
        release_time: if schedule.time_delta == 0 {
            0u64
        } else {
            (now + schedule.time_delta) as u64
        },
        amount: schedule.amount,
    };
    lemma_record_bytes_fields(source.key, true, written);
}

/// The unlock timer is started exactly once: a second `InitializeUnlock`
/// against the record a successful one wrote is rejected, at any later
/// time, because the written release time is never zero.
pub proof fn lemma_initialize_unlock_only_once(
    program: Seq<u8>,
    seeds: Seq<u8>,
    vesting: AccountModel,
    escrow: AccountModel,
    destination_key: Seq<u8>,
    now: u64,
    written: Seq<u8>,
    vesting2: AccountModel,
    now2: u64,
)
    requires
        spec_process_initialize_unlock(program, seeds, vesting, escrow, destination_key, now)
            == Ok::<Seq<u8>, VestingError>(written),
        vesting2.key == vesting.key,
        vesting2.owner == program,
        vesting2.data == written,
    ensures
        spec_process_initialize_unlock(program, seeds, vesting2, escrow, destination_key, now2)
            == Err::<Seq<u8>, VestingError>(VestingError::InvalidArgument),
{
    lemma_record_bytes_fields(
        spec_record_destination(vesting.data),
        true,
        VestingSchedule {
            release_time: (now + WITHDRAWAL_PERIOD) as u64,
            amount: spec_record_schedule(vesting.data).amount,
        },
    );
}

/// A contract releases exactly once: an `Unlock` against the record a
/// successful `Unlock` wrote is rejected, at any time, with the same error
/// code as a premature unlock, because the remaining amount is zero.
pub proof fn lemma_unlock_is_terminal(
    program: Seq<u8>,
    seeds: Seq<u8>,
    vesting: AccountModel,
    escrow: AccountModel,
    destination_key: Seq<u8>,
    now: u64,
    outcome: TransferOutcomeModel,
    vesting2: AccountModel,
    now2: u64,
)
    requires
        spec_process_unlock(program, seeds, vesting, escrow, destination_key, now)
            == Ok::<TransferOutcomeModel, VestingError>(outcome),
        vesting2.key == vesting.key,
        vesting2.owner == program,
        vesting2.data == outcome.vesting_data,
    ensures
        spec_process_unlock(program, seeds, vesting2, escrow, destination_key, now2)
            == Err::<TransferOutcomeModel, VestingError>(VestingError::InvalidArgument),
{
    lemma_record_bytes_fields(
        spec_record_destination(vesting.data),
        true,
        VestingSchedule {
            release_time: spec_record_schedule(vesting.data).release_time,
            amount: 0,
        },
    );
}

/// The staged effect of one dispatched instruction.
#[derive(Clone, Debug, PartialEq, Eq)]
pub enum InstructionOutcome {
    /// `Init`: allocate the contract account.
    Init(AllocateOrder),
    /// `Create`: write the populated record and fund the escrow.
    Create(TransferOutcome),
    /// `Unlock`: write the zeroed-amount record and pay the destination.
    Unlock(TransferOutcome),
    /// `InitializeUnlock`: write the record with the timer started.
    InitializeUnlock(Vec<u8>),
    /// `ChangeDestination`: write the record with the destination replaced.
    ChangeDestination(Vec<u8>),
}

/// The mathematical value of an [`InstructionOutcome`].
#[verifier::ext_equal]
pub enum OutcomeModel {
    /// `Init`: allocate the contract account.
    Init(AllocateModel),
    /// `Create`: write the populated record and fund the escrow.
    Create(TransferOutcomeModel),
    /// `Unlock`: write the zeroed-amount record and pay the destination.
    Unlock(TransferOutcomeModel),
    /// `InitializeUnlock`: write the record with the timer started.
    InitializeUnlock(Seq<u8>),
    /// `ChangeDestination`: write the record with the destination replaced.
    ChangeDestination(Seq<u8>),
}

impl View for InstructionOutcome {
    type V = OutcomeModel;

    open spec fn view(&self) -> OutcomeModel {
        match self {
            InstructionOutcome::Init(a) => OutcomeModel::Init(a@),
            InstructionOutcome::Create(o) => OutcomeModel::Create(o@),
            InstructionOutcome::Unlock(o) => OutcomeModel::Unlock(o@),
            InstructionOutcome::InitializeUnlock(d) => OutcomeModel::InitializeUnlock(d@),
            InstructionOutcome::ChangeDestination(d) => OutcomeModel::ChangeDestination(d@),
        }
    }
}

/// How many accounts the host must supply, in order, for each operation.
pub open spec fn spec_accounts_needed(i: VestingInstruction) -> int {
    match i {
        VestingInstruction::Init { .. } => 4,
        VestingInstruction::Create { .. } => 6,
        VestingInstruction::Unlock { .. } => 5,
        VestingInstruction::InitializeUnlock { .. } => 5,
        VestingInstruction::ChangeDestination { .. } => 4,
    }
}

/// What dispatching a decoded instruction over the positional account list
/// returns: `InvalidArgument` when the list is shorter than the operation's
/// fixed account order, and the operation's own result otherwise.
pub open spec fn spec_dispatch(
    program: Seq<u8>,
    accounts: Seq<AccountModel>,
    i: VestingInstruction,
    now: u64,
) -> Result<OutcomeModel, VestingError> {
    if accounts.len() < spec_accounts_needed(i) {
        Err(VestingError::InvalidArgument)
    } else {
        match i {
            VestingInstruction::Init { seeds } => match spec_process_init(
                program,
                seeds@,
                accounts[2].key,
                accounts[3].key,
            ) {
                Ok(a) => Ok(OutcomeModel::Init(a)),
                Err(e) => Err(e),
            },
            VestingInstruction::Create { seeds, schedule } => match spec_process_create(
                program,
                seeds@,
                accounts[2],
                accounts[3],
                accounts[4],
                accounts[5],
                schedule,
                now,
            ) {
                Ok(o) => Ok(OutcomeModel::Create(o)),
                Err(e) => Err(e),
            },
            VestingInstruction::Unlock { seeds } => match spec_process_unlock(
                program,
                seeds@,
                accounts[2],
                accounts[3],
                accounts[4].key,
                now,
            ) {
                Ok(o) => Ok(OutcomeModel::Unlock(o)),
                Err(e) => Err(e),
            },
            VestingInstruction::InitializeUnlock { seeds } => match spec_process_initialize_unlock(
                program,
                seeds@,
                accounts[2],
                accounts[3],
                accounts[4].key,
                now,
            ) {
                Ok(d) => Ok(OutcomeModel::InitializeUnlock(d)),
                Err(e) => Err(e),
            },
            VestingInstruction::ChangeDestination { seeds } => match spec_process_change_destination(
                program,
                seeds@,
                accounts[0],
                accounts[1],
                accounts[2],
                accounts[3].key,
            ) {
                Ok(d) => Ok(OutcomeModel::ChangeDestination(d)),
                Err(e) => Err(e),
            },
        }
    }
}

/// The account list as a sequence of mathematical account values.
pub open spec fn spec_accounts_view(accounts: Seq<AccountView>) -> Seq<AccountModel> {
    accounts.map_values(|a: AccountView| a@)
}

/// The transition engine.
pub struct Processor {}

impl Processor {
    /// Validate an `Init` operation and stage the allocation of the zeroed
    /// contract account at the derived address.
    pub fn process_init(
        program_id: &[u8; 32],
        payer_key: &[u8; 32],
        vesting_account_key: &[u8; 32],
        seeds: &[u8; 32],
    ) -> (r: Result<AllocateOrder, VestingError>)
        ensures
            res_view(r) == spec_process_init(
                program_id@,
                seeds@,
                payer_key@,
                vesting_account_key@,
            ),
            r is Ok <==> derived_address(seeds@, program_id@) == Some(vesting_account_key@),
    {
        let derived = match create_program_address(seeds, program_id) {
            Some(d) => d,
            None => {
                return Err(VestingError::InvalidArgument);
            },
        };
        if !addr_eq(&derived, vesting_account_key) {
            return Err(VestingError::InvalidArgument);
        }
        Ok(
            AllocateOrder {
                payer: *payer_key,
                address: *vesting_account_key,
                space: STATE_LEN as u64,
                owner: *program_id,
            },
        )
    }

    /// Validate a `Create` operation, stage the populated contract record,
    /// and order the locked amount moved from the funding account into
    /// escrow.
    pub fn process_create(
        program_id: &[u8; 32],
        seeds: &[u8; 32],
        vesting_account: &AccountView,
        vesting_token_account: &AccountView,
        source_token_account_owner: &AccountView,
        source_token_account: &AccountView,
        schedule: &Schedule,
        now: u64,
    ) -> (r: Result<TransferOutcome, VestingError>)
        ensures
            res_view(r) == spec_process_create(
                program_id@,
                seeds@,
                vesting_account@,
                vesting_token_account@,
                source_token_account_owner@,
                source_token_account@,
                *schedule,
                now,
            ),
            r is Ok ==> !spec_record_is_initialized(vesting_account@.data),
            r is Ok ==> !spec_token_has_delegate(vesting_token_account@.data)
                && !spec_token_has_close_authority(vesting_token_account@.data),
            r is Ok ==> schedule.amount <= spec_token_amount(source_token_account@.data),
            r is Ok ==> schedule.time_delta == 0 || spec_whitelisted_delta(schedule.time_delta),
            r matches Ok(out) ==> {
                &&& spec_record_destination(out.vesting_data@) == source_token_account@.key
                &&& spec_record_is_initialized(out.vesting_data@)
                &&& spec_record_schedule(out.vesting_data@) == (VestingSchedule {
                    release_time: if schedule.time_delta == 0 {
                        0u64
                    } else {
                        (now + schedule.time_delta) as u64
                    },
                    amount: schedule.amount,
                })
                &&& out.transfer.amount == schedule.amount
            },
    {
        let source_parsed = match unpack_token_account(source_token_account.data.as_slice()) {
            Some(t) => t,
            None => {
                return Err(VestingError::InvalidAccountData);
            },
        };
        let derived = match create_program_address(seeds, program_id) {
            Some(d) => d,
            None => {
                return Err(VestingError::InvalidArgument);
            },
        };
        if !addr_eq(&derived, &vesting_account.key) {
            return Err(VestingError::InvalidArgument);
        }
        if !source_token_account_owner.is_signer {
            return Err(VestingError::InvalidArgument);
        }
        if !addr_eq(&vesting_account.owner, program_id) {
            return Err(VestingError::InvalidArgument);
        }
        if vesting_account.data.len() != STATE_LEN {
            return Err(VestingError::InvalidAccountData);
        }
        let header = match VestingScheduleHeader::unpack_from_slice(
            vesting_account.data.as_slice(),
        ) {
            Ok(h) => h,
            Err(_) => {
                return Err(VestingError::InvalidAccountData);
            },
        };
        if header.is_initialized {
            return Err(VestingError::InvalidArgument);
        }
        let escrow_parsed = match unpack_token_account(vesting_token_account.data.as_slice()) {
            Some(t) => t,
            None => {
                return Err(VestingError::InvalidAccountData);
            },
        };
        if !addr_eq(&escrow_parsed.owner, &vesting_account.key) {
            return Err(VestingError::InvalidArgument);
        }
        if escrow_parsed.has_delegate {
            return Err(VestingError::InvalidAccountData);
        }
        if escrow_parsed.has_close_authority {
            return Err(VestingError::InvalidAccountData);
        }
        let release_time: u64;
        if schedule.time_delta == 0 {
            release_time = 0;
        } else if schedule.time_delta == LOCK_3_MONTHS || schedule.time_delta == LOCK_6_MONTHS
            || schedule.time_delta == LOCK_9_MONTHS || schedule.time_delta == LOCK_12_MONTHS {
            if now > u64::MAX - schedule.time_delta {
                return Err(VestingError::InvalidInstructionData);
            }
            release_time = now + schedule.time_delta;
        } else {
            return Err(VestingError::InvalidInstructionData);
        }
        if source_parsed.amount < schedule.amount {
            return Err(VestingError::InsufficientFunds);
        }
        let state_header = VestingScheduleHeader {
            destination_address: source_token_account.key,
            is_initialized: true,
        };
        let state_schedule = VestingSchedule { release_time, amount: schedule.amount };
        let vesting_data = pack_state(&state_header, &state_schedule);
        let out = TransferOutcome {
            vesting_data,
            transfer: TransferOrder {
                source: source_token_account.key,
                destination: vesting_token_account.key,
                authority: source_token_account_owner.key,
                amount: schedule.amount,
                derived_authority: false,
            },
        };
        proof {
            lemma_record_bytes_fields(source_token_account@.key, true, state_schedule);
            assert(spec_state_bytes(state_header, state_schedule) =~= spec_record_bytes(
                source_token_account@.key,
                true,
                state_schedule,
            ));
            assert(out@ =~= TransferOutcomeModel {
                vesting_data: spec_record_bytes(source_token_account@.key, true, state_schedule),
                transfer: TransferModel {
                    source: source_token_account@.key,
                    destination: vesting_token_account@.key,
                    authority: source_token_account_owner@.key,
                    amount: schedule.amount,
                    derived_authority: false,
                },
            });
        }
        Ok(out)
    }

    /// Validate an `Unlock` operation, stage the record with the amount
    /// zeroed, and order the matured amount paid from escrow to the stored
    /// destination under the contract's derived authority.
    pub fn process_unlock(
        program_id: &[u8; 32],
        seeds: &[u8; 32],
        vesting_account: &AccountView,
        vesting_token_account: &AccountView,
        destination_token_account_key: &[u8; 32],
        now: u64,
    ) -> (r: Result<TransferOutcome, VestingError>)
        ensures
            res_view(r) == spec_process_unlock(
                program_id@,
                seeds@,
                vesting_account@,
                vesting_token_account@,
                destination_token_account_key@,
                now,
            ),
            r is Ok ==> {
                &&& spec_record_schedule(vesting_account@.data).release_time != 0
                &&& now >= spec_record_schedule(vesting_account@.data).release_time
                &&& spec_record_schedule(vesting_account@.data).amount != 0
            },
            r matches Ok(out) ==> {
                &&& out.transfer.amount == spec_record_schedule(vesting_account@.data).amount
                &&& spec_record_schedule(out.vesting_data@).amount == 0
                &&& spec_record_schedule(out.vesting_data@).release_time == spec_record_schedule(
                    vesting_account@.data,
                ).release_time
                &&& spec_record_destination(out.vesting_data@) == spec_record_destination(
                    vesting_account@.data,
                )
            },
    {
        if !addr_eq(&vesting_account.owner, program_id) {
            return Err(VestingError::InvalidArgument);
        }
        let derived = match create_program_address(seeds, program_id) {
            Some(d) => d,
            None => {
                return Err(VestingError::InvalidArgument);
            },
        };
        if !addr_eq(&derived, &vesting_account.key) {
            return Err(VestingError::InvalidArgument);
        }
        if vesting_account.data.len() != STATE_LEN {
            return Err(VestingError::InvalidAccountData);
        }
        let header = match VestingScheduleHeader::unpack_from_slice(
            vesting_account.data.as_slice(),
        ) {
            Ok(h) => h,
            Err(_) => {
                return Err(VestingError::InvalidAccountData);
            },
        };
        if !header.is_initialized {
            return Err(VestingError::InvalidArgument);
        }
        if !addr_eq(&header.destination_address, destination_token_account_key) {
            return Err(VestingError::InvalidArgument);
        }
        let escrow_parsed = match unpack_token_account(vesting_token_account.data.as_slice()) {
            Some(t) => t,
            None => {
                return Err(VestingError::InvalidAccountData);
            },
        };
        if !addr_eq(&escrow_parsed.owner, &vesting_account.key) {
            return Err(VestingError::InvalidArgument);
        }
        let schedule = match unpack_schedule(
            slice_subrange(vesting_account.data.as_slice(), HEADER_LEN, STATE_LEN),
        ) {
            Ok(s) => s,
            Err(_) => {
                return Err(VestingError::InvalidAccountData);
            },
        };
        if schedule.release_time == 0 {
            return Err(VestingError::InvalidArgument);
        }
        if now < schedule.release_time || schedule.amount == 0 {
            return Err(VestingError::InvalidArgument);
        }
        let state_schedule = VestingSchedule { release_time: schedule.release_time, amount: 0 };
        let state_header = VestingScheduleHeader {
            destination_address: header.destination_address,
            is_initialized: true,
        };
        let vesting_data = pack_state(&state_header, &state_schedule);
        let out = TransferOutcome {
            vesting_data,
            transfer: TransferOrder {
                source: vesting_token_account.key,
                destination: *destination_token_account_key,
                authority: vesting_account.key,
                amount: schedule.amount,
                derived_authority: true,
            },
        };
        proof {
            lemma_record_bytes_fields(
                spec_record_destination(vesting_account@.data),
                true,
                state_schedule,
            );
            assert(spec_state_bytes(state_header, state_schedule) =~= spec_record_bytes(
                spec_record_destination(vesting_account@.data),
                true,
                state_schedule,
            ));
            assert(out@ =~= TransferOutcomeModel {
                vesting_data: spec_record_bytes(
                    spec_record_destination(vesting_account@.data),
                    true,
                    state_schedule,
                ),
                transfer: TransferModel {
                    source: vesting_token_account@.key,
                    destination: destination_token_account_key@,
                    authority: vesting_account@.key,
                    amount: spec_record_schedule(vesting_account@.data).amount,
                    derived_authority: true,
                },
            });
        }
        Ok(out)
    }

    /// Validate an `InitializeUnlock` operation and stage the record with
    /// the release time set to `now` plus the fixed grace window. No funds
    /// move.
    pub fn process_initialize_unlock(
        program_id: &[u8; 32],
        seeds: &[u8; 32],
        vesting_account: &AccountView,
        vesting_token_account: &AccountView,
        destination_token_account_key: &[u8; 32],
        now: u64,
    ) -> (r: Result<Vec<u8>, VestingError>)
        ensures
            res_view(r) == spec_process_initialize_unlock(
                program_id@,
                seeds@,
                vesting_account@,
                vesting_token_account@,
                destination_token_account_key@,
                now,
            ),
            r is Ok ==> {
                &&& spec_record_schedule(vesting_account@.data).release_time == 0
                &&& spec_record_schedule(vesting_account@.data).amount != 0
            },
            r matches Ok(new_data) ==> {
                &&& spec_record_schedule(new_data@).release_time == now + WITHDRAWAL_PERIOD
                &&& spec_record_schedule(new_data@).amount == spec_record_schedule(
                    vesting_account@.data,
                ).amount
                &&& spec_record_destination(new_data@) == spec_record_destination(
                    vesting_account@.data,
                )
            },
    {
        let derived = match create_program_address(seeds, program_id) {
            Some(d) => d,
            None => {
                return Err(VestingError::InvalidArgument);
            },
        };
        if !addr_eq(&derived, &vesting_account.key) {
            return Err(VestingError::InvalidArgument);
        }
        if !addr_eq(&vesting_account.owner, program_id) {
            return Err(VestingError::InvalidArgument);
        }
        if vesting_account.data.len() != STATE_LEN {
            return Err(VestingError::InvalidAccountData);
        }
        let header = match VestingScheduleHeader::unpack_from_slice(
            vesting_account.data.as_slice(),
        ) {
            Ok(h) => h,
            Err(_) => {
                return Err(VestingError::InvalidAccountData);
            },
        };
        if !header.is_initialized {
            return Err(VestingError::InvalidArgument);
        }
        if !addr_eq(&header.destination_address, destination_token_account_key) {
            return Err(VestingError::InvalidArgument);
        }
        let escrow_parsed = match unpack_token_account(vesting_token_account.data.as_slice()) {
            Some(t) => t,
            None => {
                return Err(VestingError::InvalidAccountData);
            },
        };
        if !addr_eq(&escrow_parsed.owner, &vesting_account.key) {
            return Err(VestingError::InvalidArgument);
        }
        let schedule = match unpack_schedule(
            slice_subrange(vesting_account.data.as_slice(), HEADER_LEN, STATE_LEN),
        ) {
            Ok(s) => s,
            Err(_) => {
                return Err(VestingError::InvalidAccountData);
            },
        };
        if schedule.amount == 0 {
            return Err(VestingError::InvalidArgument);
        }
        if schedule.release_time != 0 {
            return Err(VestingError::InvalidArgument);
        }
        if now > u64::MAX - WITHDRAWAL_PERIOD {
            return Err(VestingError::InvalidInstructionData);
        }
        let state_schedule = VestingSchedule {
            release_time: now + WITHDRAWAL_PERIOD,
            amount: schedule.amount,
        };
        let state_header = VestingScheduleHeader {
            destination_address: header.destination_address,
            is_initialized: true,
        };
        let vesting_data = pack_state(&state_header, &state_schedule);
        proof {
            lemma_record_bytes_fields(
                spec_record_destination(vesting_account@.data),
                true,
                state_schedule,
            );
            assert(vesting_data@ =~= spec_record_bytes(
                spec_record_destination(vesting_account@.data),
                true,
                state_schedule,
            ));
        }
        Ok(vesting_data)
    }

    /// Validate a `ChangeDestination` operation and stage the record with
    /// the destination replaced; the schedule is untouched.
    pub fn process_change_destination(
        program_id: &[u8; 32],
        seeds: &[u8; 32],
        vesting_account: &AccountView,
        destination_token_account: &AccountView,
        destination_token_account_owner: &AccountView,
        new_destination_token_account_key: &[u8; 32],
    ) -> (r: Result<Vec<u8>, VestingError>)
        ensures
            res_view(r) == spec_process_change_destination(
                program_id@,
                seeds@,
                vesting_account@,
                destination_token_account@,
                destination_token_account_owner@,
                new_destination_token_account_key@,
            ),
            r is Ok ==> {
                &&& destination_token_account_owner@.is_signer
                &&& spec_token_owner(destination_token_account@.data)
                    == destination_token_account_owner@.key
            },
            r matches Ok(new_data) ==> {
                &&& spec_record_destination(new_data@) == new_destination_token_account_key@
                &&& spec_record_is_initialized(new_data@)
                &&& spec_record_schedule(new_data@) == spec_record_schedule(vesting_account@.data)
            },
    {
        let derived = match create_program_address(seeds, program_id) {
            Some(d) => d,
            None => {
                return Err(VestingError::InvalidArgument);
            },
        };
        if !addr_eq(&derived, &vesting_account.key) {
            return Err(VestingError::InvalidArgument);
        }
        if !addr_eq(&vesting_account.owner, program_id) {
            return Err(VestingError::InvalidArgument);
        }
        if vesting_account.data.len() != STATE_LEN {
            return Err(VestingError::InvalidAccountData);
        }
        let header = match VestingScheduleHeader::unpack_from_slice(
            vesting_account.data.as_slice(),
        ) {
            Ok(h) => h,
            Err(_) => {
                return Err(VestingError::InvalidAccountData);
            },
        };
        if !header.is_initialized {
            return Err(VestingError::InvalidArgument);
        }
        if !addr_eq(&header.destination_address, &destination_token_account.key) {
            return Err(VestingError::InvalidArgument);
        }
        let destination_parsed = match unpack_token_account(
            destination_token_account.data.as_slice(),
        ) {
            Some(t) => t,
            None => {
                return Err(VestingError::InvalidAccountData);
            },
        };
        if !destination_token_account_owner.is_signer {
            return Err(VestingError::InvalidArgument);
        }
        if !addr_eq(&destination_parsed.owner, &destination_token_account_owner.key) {
            return Err(VestingError::InvalidArgument);
        }
        let schedule = match unpack_schedule(
            slice_subrange(vesting_account.data.as_slice(), HEADER_LEN, STATE_LEN),
        ) {
            Ok(s) => s,
            Err(_) => {
                return Err(VestingError::InvalidAccountData);
            },
        };
        let state_header = VestingScheduleHeader {
            destination_address: *new_destination_token_account_key,
            is_initialized: true,
        };
        let vesting_data = pack_state(&state_header, &schedule);
        proof {
            lemma_record_bytes_fields(new_destination_token_account_key@, true, schedule);
            assert(vesting_data@ =~= spec_record_bytes(
                new_destination_token_account_key@,
                true,
                spec_record_schedule(vesting_account@.data),
            ));
        }
        Ok(vesting_data)
    }

    /// Decode an instruction and dispatch it over the host's positional
    /// account list, staging the operation's effect.
    pub fn process_instruction(
        program_id: &[u8; 32],
        accounts: &Vec<AccountView>,
        instruction_data: &[u8],
        now: u64,
    ) -> (r: Result<InstructionOutcome, VestingError>)
        ensures
            !decodable(instruction_data@) ==> r == Err::<InstructionOutcome, VestingError>(
                VestingError::InvalidInstruction,
            ),
            forall|i: VestingInstruction| #[trigger]
                decodes_to(instruction_data@, i) ==> res_view(r) == spec_dispatch(
                    program_id@,
                    spec_accounts_view(accounts@),
                    i,
                    now,
                ),
    {
        let instruction = match VestingInstruction::unpack(instruction_data) {
            Ok(i) => i,
            Err(e) => {
                return Err(e);
            },
        };
        let ghost decoded = instruction;
        let result: Result<InstructionOutcome, VestingError> = match &instruction {
            VestingInstruction::Init { seeds } => {
                if accounts.len() < 4 {
                    Err(VestingError::InvalidArgument)
                } else {
                    let payer = &accounts[2];
                    let vesting_account = &accounts[3];
                    match Processor::process_init(
                        program_id,
                        &payer.key,
                        &vesting_account.key,
                        seeds,
                    ) {
                        Ok(a) => Ok(InstructionOutcome::Init(a)),
                        Err(e) => Err(e),
                    }
                }
            },
            VestingInstruction::Create { seeds, schedule } => {
                if accounts.len() < 6 {
                    Err(VestingError::InvalidArgument)
                } else {
                    match Processor::process_create(
                        program_id,
                        seeds,
                        &accounts[2],
                        &accounts[3],
                        &accounts[4],
                        &accounts[5],
                        schedule,
                        now,
                    ) {
                        Ok(o) => Ok(InstructionOutcome::Create(o)),
                        Err(e) => Err(e),
                    }
                }
            },
            VestingInstruction::Unlock { seeds } => {
                if accounts.len() < 5 {
                    Err(VestingError::InvalidArgument)
                } else {
                    let destination = &accounts[4];
                    match Processor::process_unlock(
                        program_id,
                        seeds,
                        &accounts[2],
                        &accounts[3],
                        &destination.key,
                        now,
                    ) {
                        Ok(o) => Ok(InstructionOutcome::Unlock(o)),
                        Err(e) => Err(e),
                    }
                }
            },
            VestingInstruction::InitializeUnlock { seeds } => {
                if accounts.len() < 5 {
                    Err(VestingError::InvalidArgument)
                } else {
                    let destination = &accounts[4];
                    match Processor::process_initialize_unlock(
                        program_id,
                        seeds,
                        &accounts[2],
                        &accounts[3],
                        &destination.key,
                        now,
                    ) {
                        Ok(d) => Ok(InstructionOutcome::InitializeUnlock(d)),
                        Err(e) => Err(e),
                    }
                }
            },
            VestingInstruction::ChangeDestination { seeds } => {
                if accounts.len() < 4 {
                    Err(VestingError::InvalidArgument)
                } else {
                    let new_destination = &accounts[3];
                    match Processor::process_change_destination(
                        program_id,
                        seeds,
                        &accounts[0],
                        &accounts[1],
                        &accounts[2],
                        &new_destination.key,
                    ) {
                        Ok(d) => Ok(InstructionOutcome::ChangeDestination(d)),
                        Err(e) => Err(e),
                    }
                }
            },
        };
        proof {
            assert forall|i: VestingInstruction| #[trigger]
                decodes_to(instruction_data@, i) implies res_view(result) == spec_dispatch(
                program_id@,
                spec_accounts_view(accounts@),
                i,
                now,
            ) by {
                crate::instruction::lemma_decode_deterministic(instruction_data@, i, decoded);
            };
        }
        result
    }
}

} // verus!
