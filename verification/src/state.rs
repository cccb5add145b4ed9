//! The persistent account state layout: a fixed-length byte record holding
//! the header (destination address and initialization flag) followed by the
//! schedule (release time and remaining amount), little-endian throughout.

use crate::authority::addr_eq;
use crate::error::VestingError;
use vstd::bytes::{
    lemma_auto_spec_u64_to_from_le_bytes, spec_u64_from_le_bytes, spec_u64_to_le_bytes,
    u64_from_le_bytes, u64_to_le_bytes,
};
use vstd::prelude::*;
use vstd::slice::slice_subrange;

verus! {

/// Byte length of the packed header: a 32-byte destination address and one
/// initialization flag byte.
pub const HEADER_LEN: usize = 33;

/// Byte length of the packed schedule: two little-endian `u64` fields.
pub const SCHEDULE_LEN: usize = 16;

/// Exact byte length of a contract account record; any other length is
/// corrupt and rejected.
pub const STATE_LEN: usize = HEADER_LEN + SCHEDULE_LEN;

/// One vesting schedule: when the locked amount may be released, and how
/// much of it remains.
#[derive(Clone, Copy, Debug, PartialEq, Eq, Structural)]
pub struct VestingSchedule {
    /// Unix time at which the amount unlocks; `0` means the unlock timer has
    /// not been started yet.
    pub release_time: u64,
    /// Remaining locked amount; `0` means fully released.
    pub amount: u64,
}

/// The header of a contract account record.
#[derive(Clone, Copy, Debug)]
pub struct VestingScheduleHeader {
    /// The token account the locked funds will be paid to.
    pub destination_address: [u8; 32],
    /// Set exactly once, when the contract is populated.
    pub is_initialized: bool,
}

impl PartialEq for VestingScheduleHeader {
    fn eq(&self, other: &Self) -> (r: bool) {
        addr_eq(&self.destination_address, &other.destination_address)
            && self.is_initialized == other.is_initialized
    }
}

impl vstd::std_specs::cmp::PartialEqSpecImpl for VestingScheduleHeader {
    open spec fn obeys_eq_spec() -> bool {
        true
    }

    open spec fn eq_spec(&self, other: &Self) -> bool {
        self.destination_address@ == other.destination_address@
            && self.is_initialized == other.is_initialized
    }
}

/// The packed form of a header: the destination address followed by the
/// initialization flag as a single `0x00`/`0x01` byte.
pub open spec fn spec_header_bytes(h: VestingScheduleHeader) -> Seq<u8> {
    h.destination_address@ + seq![
        if h.is_initialized {
            1u8
        } else {
            0u8
        },
    ]
}

/// The packed form of a schedule: release time then amount, little-endian.
pub open spec fn spec_schedule_bytes(s: VestingSchedule) -> Seq<u8> {
    spec_u64_to_le_bytes(s.release_time) + spec_u64_to_le_bytes(s.amount)
}

/// The packed form of a whole contract account record.
pub open spec fn spec_state_bytes(h: VestingScheduleHeader, s: VestingSchedule) -> Seq<u8> {
    spec_header_bytes(h) + spec_schedule_bytes(s)
}

/// The schedule stored in a byte buffer whose first 16 bytes are a packed
/// schedule.
pub open spec fn spec_schedule_of(s: Seq<u8>) -> VestingSchedule
    recommends
        s.len() >= SCHEDULE_LEN,
{
    VestingSchedule {
        release_time: spec_u64_from_le_bytes(s.subrange(0, 8)),
        amount: spec_u64_from_le_bytes(s.subrange(8, 16)),
    }
}

/// The destination address stored in a contract account record.
pub open spec fn spec_record_destination(record: Seq<u8>) -> Seq<u8>
    recommends
        record.len() == STATE_LEN,
{
    record.subrange(0, 32)
}

/// Whether a contract account record is marked as initialized.
pub open spec fn spec_record_is_initialized(record: Seq<u8>) -> bool
    recommends
        record.len() == STATE_LEN,
{
    record[32] == 1
}

/// The schedule stored in a contract account record.
pub open spec fn spec_record_schedule(record: Seq<u8>) -> VestingSchedule
    recommends
        record.len() == STATE_LEN,
{
    spec_schedule_of(record.subrange(HEADER_LEN as int, STATE_LEN as int))
}

/// The packed record holding the given destination, initialization flag and
/// schedule.
pub open spec fn spec_record_bytes(
    destination: Seq<u8>,
    is_initialized: bool,
    schedule: VestingSchedule,
) -> Seq<u8> {
    destination + seq![
        if is_initialized {
            1u8
        } else {
            0u8
        },
    ] + spec_schedule_bytes(schedule)
}

/// Record layout round trip: reading any field back from a packed record
/// yields exactly the value that was packed into it.
pub proof fn lemma_record_bytes_fields(
    destination: Seq<u8>,
    is_initialized: bool,
    schedule: VestingSchedule,
)
    requires
        destination.len() == 32,
    ensures
        spec_record_bytes(destination, is_initialized, schedule).len() == STATE_LEN,
        spec_record_destination(spec_record_bytes(destination, is_initialized, schedule))
            == destination,
        spec_record_is_initialized(spec_record_bytes(destination, is_initialized, schedule))
            == is_initialized,
        spec_record_schedule(spec_record_bytes(destination, is_initialized, schedule)) == schedule,
{
    lemma_auto_spec_u64_to_from_le_bytes();
    let r = spec_record_bytes(destination, is_initialized, schedule);
    assert(spec_record_destination(r) =~= destination);
    let tail = r.subrange(HEADER_LEN as int, STATE_LEN as int);
    assert(tail.subrange(0, 8) =~= spec_u64_to_le_bytes(schedule.release_time));
    assert(tail.subrange(8, 16) =~= spec_u64_to_le_bytes(schedule.amount));
}

impl VestingScheduleHeader {
    /// Write the packed header into the first `HEADER_LEN` bytes of
    /// `target`, leaving the rest of the buffer untouched.
    pub fn pack_into_slice(&self, target: &mut Vec<u8>)
        requires
            old(target)@.len() >= HEADER_LEN,
        ensures
            final(target)@.len() == old(target)@.len(),
            final(target)@.subrange(0, HEADER_LEN as int) == spec_header_bytes(*self),
            final(target)@.skip(HEADER_LEN as int) == old(target)@.skip(HEADER_LEN as int),
    {
        let mut i: usize = 0;
        while i < 32
            invariant
                0 <= i <= 32,
                target@.len() == old(target)@.len() >= HEADER_LEN,
                forall|j: int| 0 <= j < i ==> target@[j] == self.destination_address@[j],
                forall|j: int| i <= j < target@.len() ==> target@[j] == old(target)@[j],
            decreases 32 - i,
        {
            target[i] = self.destination_address[i];
            i += 1;
        }
        target[32] = if self.is_initialized {
            1
        } else {
            0
        };
        proof {
            assert(target@.subrange(0, HEADER_LEN as int) =~= spec_header_bytes(*self));
            assert(target@.skip(HEADER_LEN as int) =~= old(target)@.skip(HEADER_LEN as int));
        }
    }

    /// Read a header back from a packed buffer; rejects a buffer too short
    /// to hold one.
    pub fn unpack_from_slice(src: &[u8]) -> (r: Result<Self, VestingError>)
        ensures
            match r {
                Ok(h) => {
                    &&& src@.len() >= HEADER_LEN
                    &&& h.destination_address@ == src@.subrange(0, 32)
                    &&& h.is_initialized == (src@[32] == 1)
                },
                Err(e) => src@.len() < HEADER_LEN && e == VestingError::InvalidAccountData,
            },
    {
        if src.len() < HEADER_LEN {
            return Err(VestingError::InvalidAccountData);
        }
        let mut destination_address = [0u8; 32];
        let mut i: usize = 0;
        while i < 32
            invariant
                0 <= i <= 32,
                src@.len() >= HEADER_LEN,
                forall|j: int| 0 <= j < i ==> destination_address@[j] == src@[j],
            decreases 32 - i,
        {
            destination_address[i] = src[i];
            i += 1;
        }
        let is_initialized = src[32] == 1;
        proof {
            assert(destination_address@ =~= src@.subrange(0, 32));
        }
        Ok(VestingScheduleHeader { destination_address, is_initialized })
    }
}

impl VestingSchedule {
    /// Write the packed schedule into `dst` at `offset`, leaving every other
    /// byte of the buffer untouched.
    pub fn pack_into_slice(&self, dst: &mut Vec<u8>, offset: usize)
        requires
            offset + SCHEDULE_LEN <= old(dst)@.len(),
        ensures
            final(dst)@.len() == old(dst)@.len(),
            final(dst)@.subrange(offset as int, offset + SCHEDULE_LEN) == spec_schedule_bytes(
                *self,
            ),
            final(dst)@.take(offset as int) == old(dst)@.take(offset as int),
            final(dst)@.skip(offset + SCHEDULE_LEN) == old(dst)@.skip(offset + SCHEDULE_LEN),
    {
        let release_time_bytes = u64_to_le_bytes(self.release_time);
        let amount_bytes = u64_to_le_bytes(self.amount);
        let buf_len = dst.len();
        let mut i: usize = 0;
        while i < 8
            invariant
                0 <= i <= 8,
                offset + SCHEDULE_LEN <= buf_len,
                buf_len == dst@.len() == old(dst)@.len(),
                release_time_bytes@ == spec_u64_to_le_bytes(self.release_time),
                release_time_bytes@.len() == 8,
                forall|j: int| 0 <= j < i ==> dst@[offset + j] == release_time_bytes@[j],
                forall|j: int|
                    0 <= j < dst@.len() && !(offset <= j < offset + i) ==> dst@[j] == old(
                        dst,
                    )@[j],
            decreases 8 - i,
        {
            dst[offset + i] = release_time_bytes[i];
            i += 1;
        }
        let mut k: usize = 0;
        while k < 8
            invariant
                0 <= k <= 8,
                offset + SCHEDULE_LEN <= buf_len,
                buf_len == dst@.len() == old(dst)@.len(),
                release_time_bytes@ == spec_u64_to_le_bytes(self.release_time),
                amount_bytes@ == spec_u64_to_le_bytes(self.amount),
                release_time_bytes@.len() == 8,
                amount_bytes@.len() == 8,
                forall|j: int| 0 <= j < 8 ==> dst@[offset + j] == release_time_bytes@[j],
                forall|j: int| 0 <= j < k ==> dst@[offset + 8 + j] == amount_bytes@[j],
                forall|j: int|
                    0 <= j < dst@.len() && !(offset <= j < offset + 8 + k) ==> dst@[j] == old(
                        dst,
                    )@[j],
            decreases 8 - k,
        {
            dst[offset + 8 + k] = amount_bytes[k];
            k += 1;
        }
        proof {
            assert(dst@.subrange(offset as int, offset + SCHEDULE_LEN) =~= spec_schedule_bytes(
                *self,
            ));
            assert(dst@.take(offset as int) =~= old(dst)@.take(offset as int));
            assert(dst@.skip(offset + SCHEDULE_LEN) =~= old(dst)@.skip(offset + SCHEDULE_LEN));
        }
    }

    /// Read a schedule back from the first 16 bytes of a packed buffer;
    /// rejects a buffer too short to hold one.
    pub fn unpack_from_slice(src: &[u8]) -> (r: Result<Self, VestingError>)
        ensures
            match r {
                Ok(s) => src@.len() >= SCHEDULE_LEN && s == spec_schedule_of(src@),
                Err(e) => src@.len() < SCHEDULE_LEN && e == VestingError::InvalidAccountData,
            },
    {
        if src.len() < SCHEDULE_LEN {
            return Err(VestingError::InvalidAccountData);
        }
        let release_time = u64_from_le_bytes(slice_subrange(src, 0, 8));
        let amount = u64_from_le_bytes(slice_subrange(src, 8, 16));
        Ok(VestingSchedule { release_time, amount })
    }
}

/// Read the schedule stored at the start of `input`.
pub fn unpack_schedule(input: &[u8]) -> (r: Result<VestingSchedule, VestingError>)
    ensures
        match r {
            Ok(s) => input@.len() >= SCHEDULE_LEN && s == spec_schedule_of(input@),
            Err(e) => input@.len() < SCHEDULE_LEN && e == VestingError::InvalidAccountData,
        },
{
    VestingSchedule::unpack_from_slice(input)
}

/// Write `schedule` into `target` at `offset`.
pub fn pack_schedule_into_slice(schedule: VestingSchedule, target: &mut Vec<u8>, offset: usize)
    requires
        offset + SCHEDULE_LEN <= old(target)@.len(),
    ensures
        final(target)@.len() == old(target)@.len(),
        final(target)@.subrange(offset as int, offset + SCHEDULE_LEN) == spec_schedule_bytes(
            schedule,
        ),
        final(target)@.take(offset as int) == old(target)@.take(offset as int),
        final(target)@.skip(offset + SCHEDULE_LEN) == old(target)@.skip(offset + SCHEDULE_LEN),
{
    schedule.pack_into_slice(target, offset);
}

/// Build a fresh contract account record from a header and a schedule.
pub fn pack_state(header: &VestingScheduleHeader, schedule: &VestingSchedule) -> (r: Vec<u8>)
    ensures
        r@ == spec_state_bytes(*header, *schedule),
        r@.len() == STATE_LEN,
{
    let mut record: Vec<u8> = vec![0u8; STATE_LEN];
    header.pack_into_slice(&mut record);
    schedule.pack_into_slice(&mut record, HEADER_LEN);
    proof {
        lemma_auto_spec_u64_to_from_le_bytes();
        assert(record@ =~= spec_state_bytes(*header, *schedule));
    }
    record
}

} // verus!
