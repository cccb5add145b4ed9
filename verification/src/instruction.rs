//! The instruction wire protocol: a one-byte tag, the 32-byte seed used to
//! derive the contract's address, and a fixed-width, little-endian payload
//! for the variants that carry one. Encoding and decoding round-trip
//! byte-exactly.

use crate::authority::{addr_eq, push_address, read_address};
use crate::error::VestingError;
use vstd::bytes::{
    lemma_auto_spec_u64_to_from_le_bytes, spec_u64_from_le_bytes, spec_u64_to_le_bytes,
    u64_from_le_bytes, u64_to_le_bytes,
};
use vstd::prelude::*;
use vstd::slice::slice_subrange;

verus! {

broadcast use vstd::array::group_array_axioms;

/// A requested lock: how long the amount stays locked (`0` for the
/// immediate, manually unlocked path) and how much is locked.
#[derive(Clone, Copy, Debug, PartialEq, Eq, Structural)]
pub struct Schedule {
    /// Relative lock duration in seconds; only a small whitelist of values
    /// is accepted by the transition engine.
    pub time_delta: u64,
    /// Amount to lock.
    pub amount: u64,
}

/// Byte length of the packed [`Schedule`] payload.
pub const SCHEDULE_SIZE: usize = 16;

/// One operation of the vesting contract, as carried on the wire.
#[derive(Clone, Copy, Debug)]
pub enum VestingInstruction {
    /// Allocate the zeroed contract account at the derived address.
    Init { seeds: [u8; 32] },
    /// Populate the contract once and move the locked amount into escrow.
    Create { seeds: [u8; 32], schedule: Schedule },
    /// Pay the matured amount out to the stored destination.
    Unlock { seeds: [u8; 32] },
    /// Start the unlock timer of a contract created on the immediate path.
    InitializeUnlock { seeds: [u8; 32] },
    /// Point the contract at a new destination account.
    ChangeDestination { seeds: [u8; 32] },
}

impl PartialEq for VestingInstruction {
    fn eq(&self, other: &Self) -> (r: bool) {
        match (self, other) {
            (
                VestingInstruction::Init { seeds: a },
                VestingInstruction::Init { seeds: b },
            ) => addr_eq(a, b),
            (
                VestingInstruction::Create { seeds: a, schedule: sa },
                VestingInstruction::Create { seeds: b, schedule: sb },
            ) => addr_eq(a, b) && sa == sb,
            (
                VestingInstruction::Unlock { seeds: a },
                VestingInstruction::Unlock { seeds: b },
            ) => addr_eq(a, b),
            (
                VestingInstruction::InitializeUnlock { seeds: a },
                VestingInstruction::InitializeUnlock { seeds: b },
            ) => addr_eq(a, b),
            (
                VestingInstruction::ChangeDestination { seeds: a },
                VestingInstruction::ChangeDestination { seeds: b },
            ) => addr_eq(a, b),
            _ => false,
        }
    }
}

impl vstd::std_specs::cmp::PartialEqSpecImpl for VestingInstruction {
    open spec fn obeys_eq_spec() -> bool {
        true
    }

    open spec fn eq_spec(&self, other: &Self) -> bool {
        match (*self, *other) {
            (
                VestingInstruction::Init { seeds: a },
                VestingInstruction::Init { seeds: b },
            ) => a@ == b@,
            (
                VestingInstruction::Create { seeds: a, schedule: sa },
                VestingInstruction::Create { seeds: b, schedule: sb },
            ) => a@ == b@ && sa == sb,
            (
                VestingInstruction::Unlock { seeds: a },
                VestingInstruction::Unlock { seeds: b },
            ) => a@ == b@,
            (
                VestingInstruction::InitializeUnlock { seeds: a },
                VestingInstruction::InitializeUnlock { seeds: b },
            ) => a@ == b@,
            (
                VestingInstruction::ChangeDestination { seeds: a },
                VestingInstruction::ChangeDestination { seeds: b },
            ) => a@ == b@,
            _ => false,
        }
    }
}

/// The exact byte encoding of an instruction.
pub open spec fn spec_pack(i: VestingInstruction) -> Seq<u8> {
    match i {
        VestingInstruction::Init { seeds } => seq![0u8] + seeds@,
        VestingInstruction::Create { seeds, schedule } => seq![1u8] + seeds@
            + spec_u64_to_le_bytes(schedule.time_delta) + spec_u64_to_le_bytes(schedule.amount),
        VestingInstruction::Unlock { seeds } => seq![2u8] + seeds@,
        VestingInstruction::InitializeUnlock { seeds } => seq![3u8] + seeds@,
        VestingInstruction::ChangeDestination { seeds } => seq![4u8] + seeds@,
    }
}

/// Whether a buffer decodes to some instruction: it is non-empty, its tag is
/// known, and it is long enough to slice every fixed-width field of that
/// tag's payload. Trailing bytes are ignored.
pub open spec fn decodable(s: Seq<u8>) -> bool {
    &&& s.len() >= 1
    &&& (s[0] == 0 || s[0] == 1 || s[0] == 2 || s[0] == 3 || s[0] == 4)
    &&& (s[0] == 1 ==> s.len() >= 49)
    &&& (s[0] != 1 ==> s.len() >= 33)
}

/// Whether the buffer `s` decodes to exactly the instruction `i`.
pub open spec fn decodes_to(s: Seq<u8>, i: VestingInstruction) -> bool {
    s.len() >= 1 && match i {
        VestingInstruction::Init { seeds } => {
            &&& s[0] == 0
            &&& s.len() >= 33
            &&& seeds@ == s.subrange(1, 33)
        },
        VestingInstruction::Create { seeds, schedule } => {
            &&& s[0] == 1
            &&& s.len() >= 49
            &&& seeds@ == s.subrange(1, 33)
            &&& schedule.time_delta == spec_u64_from_le_bytes(s.subrange(33, 41))
            &&& schedule.amount == spec_u64_from_le_bytes(s.subrange(41, 49))
        },
        VestingInstruction::Unlock { seeds } => {
            &&& s[0] == 2
            &&& s.len() >= 33
            &&& seeds@ == s.subrange(1, 33)
        },
        VestingInstruction::InitializeUnlock { seeds } => {
            &&& s[0] == 3
            &&& s.len() >= 33
            &&& seeds@ == s.subrange(1, 33)
        },
        VestingInstruction::ChangeDestination { seeds } => {
            &&& s[0] == 4
            &&& s.len() >= 33
            &&& seeds@ == s.subrange(1, 33)
        },
    }
}

impl VestingInstruction {
    /// The seed carried by any instruction variant.
    pub open spec fn spec_seeds(self) -> Seq<u8> {
        match self {
            VestingInstruction::Init { seeds } => seeds@,
            VestingInstruction::Create { seeds, .. } => seeds@,
            VestingInstruction::Unlock { seeds } => seeds@,
            VestingInstruction::InitializeUnlock { seeds } => seeds@,
            VestingInstruction::ChangeDestination { seeds } => seeds@,
        }
    }

    /// Decode an instruction from its wire form. Fails exactly on an empty
    /// buffer, an unknown tag, or a buffer truncated before a fixed field
    /// boundary.
    pub fn unpack(input: &[u8]) -> (r: Result<Self, VestingError>)
        ensures
            match r {
                Ok(i) => decodes_to(input@, i),
                Err(e) => e == VestingError::InvalidInstruction,
            },
            r is Ok <==> decodable(input@),
    {
        if input.len() == 0 {
            return Err(VestingError::InvalidInstruction);
        }
        let tag = input[0];
        if tag == 1 {
            if input.len() < 49 {
                return Err(VestingError::InvalidInstruction);
            }
            let seeds = read_address(input, 1);
            let time_delta = u64_from_le_bytes(slice_subrange(input, 33, 41));
            let amount = u64_from_le_bytes(slice_subrange(input, 41, 49));
            Ok(VestingInstruction::Create { seeds, schedule: Schedule { time_delta, amount } })
        } else if tag <= 4 {
            if input.len() < 33 {
                return Err(VestingError::InvalidInstruction);
            }
            let seeds = read_address(input, 1);
            Ok(
                if tag == 0 {
                    VestingInstruction::Init { seeds }
                } else if tag == 2 {
                    VestingInstruction::Unlock { seeds }
                } else if tag == 3 {
                    VestingInstruction::InitializeUnlock { seeds }
                } else {
                    VestingInstruction::ChangeDestination { seeds }
                },
            )
        } else {
            Err(VestingError::InvalidInstruction)
        }
    }

    /// Encode an instruction into its wire form.
    pub fn pack(&self) -> (buf: Vec<u8>)
        ensures
            buf@ == spec_pack(*self),
    {
        let mut buf: Vec<u8> = Vec::new();
        match self {
            VestingInstruction::Init { seeds } => {
                buf.push(0);
                push_address(&mut buf, seeds);
            },
            VestingInstruction::Create { seeds, schedule } => {
                buf.push(1);
                push_address(&mut buf, seeds);
                let mut time_delta_bytes = u64_to_le_bytes(schedule.time_delta);
                buf.append(&mut time_delta_bytes);
                let mut amount_bytes = u64_to_le_bytes(schedule.amount);
                buf.append(&mut amount_bytes);
            },
            VestingInstruction::Unlock { seeds } => {
                buf.push(2);
                push_address(&mut buf, seeds);
            },
            VestingInstruction::InitializeUnlock { seeds } => {
                buf.push(3);
                push_address(&mut buf, seeds);
            },
            VestingInstruction::ChangeDestination { seeds } => {
                buf.push(4);
                push_address(&mut buf, seeds);
            },
        }
        proof {
            assert(buf@ =~= spec_pack(*self));
        }
        buf
    }
}

/// Packing always yields a decodable buffer that decodes back to the packed
/// instruction.
pub proof fn lemma_pack_decodes(x: VestingInstruction)
    ensures
        decodable(spec_pack(x)),
        decodes_to(spec_pack(x), x),
{
    lemma_auto_spec_u64_to_from_le_bytes();
    let s = spec_pack(x);
    match x {
        VestingInstruction::Init { seeds } => {
            assert(seeds@ =~= s.subrange(1, 33));
        },
        VestingInstruction::Create { seeds, schedule } => {
            assert(seeds@ =~= s.subrange(1, 33));
            assert(spec_u64_to_le_bytes(schedule.time_delta) =~= s.subrange(33, 41));
            assert(spec_u64_to_le_bytes(schedule.amount) =~= s.subrange(41, 49));
        },
        VestingInstruction::Unlock { seeds } => {
            assert(seeds@ =~= s.subrange(1, 33));
        },
        VestingInstruction::InitializeUnlock { seeds } => {
            assert(seeds@ =~= s.subrange(1, 33));
        },
        VestingInstruction::ChangeDestination { seeds } => {
            assert(seeds@ =~= s.subrange(1, 33));
        },
    }
}

/// A buffer decodes to at most one instruction.
pub proof fn lemma_decode_deterministic(s: Seq<u8>, x: VestingInstruction, y: VestingInstruction)
    requires
        decodes_to(s, x),
        decodes_to(s, y),
    ensures
        x == y,
{
    match (x, y) {
        (
            VestingInstruction::Init { seeds: a },
            VestingInstruction::Init { seeds: b },
        ) => {
            assert(a =~= b);
        },
        (
            VestingInstruction::Create { seeds: a, schedule: sa },
            VestingInstruction::Create { seeds: b, schedule: sb },
        ) => {
            assert(a =~= b);
        },
        (
            VestingInstruction::Unlock { seeds: a },
            VestingInstruction::Unlock { seeds: b },
        ) => {
            assert(a =~= b);
        },
        (
            VestingInstruction::InitializeUnlock { seeds: a },
            VestingInstruction::InitializeUnlock { seeds: b },
        ) => {
            assert(a =~= b);
        },
        (
            VestingInstruction::ChangeDestination { seeds: a },
            VestingInstruction::ChangeDestination { seeds: b },
        ) => {
            assert(a =~= b);
        },
        _ => {},
    }
}

/// Round trip: any decoding of a packed instruction is the instruction
/// itself, byte-exactly.
pub proof fn lemma_pack_roundtrip(x: VestingInstruction, y: VestingInstruction)
    requires
        decodes_to(spec_pack(x), y),
    ensures
        y == x,
{
    lemma_pack_decodes(x);
    lemma_decode_deterministic(spec_pack(x), x, y);
}

} // verus!
