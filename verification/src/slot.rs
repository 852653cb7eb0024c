//! Times and the slots of the beacon chain.
use vstd::prelude::*;
use crate::error::PreflightError;

verus! {

/// The slot that runs at `block_time`: the whole slots of `block_per_slot` seconds that have
/// passed since genesis.
pub open spec fn slot_at(block_time: int, genesis_time: int, block_per_slot: int) -> int {
    (block_time - genesis_time) / block_per_slot
}

/// What the slot of a time is, or why it has none.
pub open spec fn slot_result(block_time: u64, genesis_time: u64, block_per_slot: u64) -> Result<
    u64,
    PreflightError,
> {
    if genesis_time == 0 {
        Err(PreflightError::GenesisTimeZero)
    } else if block_time < genesis_time {
        Err(PreflightError::BlockTimeBeforeGenesis)
    } else {
        Ok(slot_at(block_time as int, genesis_time as int, block_per_slot as int) as u64)
    }
}

/// Whether a slot can be asked for: where it comes to a division, slots have a length.
pub open spec fn slot_defined(block_time: u64, genesis_time: u64, block_per_slot: u64) -> bool {
    genesis_time != 0 && block_time >= genesis_time ==> block_per_slot != 0
}

/// The slot of the given time.
pub fn block_time_to_block_slot(block_time: u64, genesis_time: u64, block_per_slot: u64) -> (r:
    Result<u64, PreflightError>)
    requires
        slot_defined(block_time, genesis_time, block_per_slot),
    ensures
        r == slot_result(block_time, genesis_time, block_per_slot),
        r is Ok ==> r->Ok_0 == slot_at(
            block_time as int,
            genesis_time as int,
            block_per_slot as int,
        ),
{
    if genesis_time == 0 {
        Err(PreflightError::GenesisTimeZero)
    } else if block_time < genesis_time {
        Err(PreflightError::BlockTimeBeforeGenesis)
    } else {
        let slot: u64 = (block_time - genesis_time) / block_per_slot;
        Ok(slot)
    }
}

/// A time lies in its slot: not before the slot starts, and before the next one does.
pub proof fn law_time_lies_in_its_slot(block_time: int, genesis_time: int, block_per_slot: int)
    requires
        genesis_time <= block_time,
        0 < block_per_slot,
    ensures
        0 <= slot_at(block_time, genesis_time, block_per_slot),
        genesis_time + slot_at(block_time, genesis_time, block_per_slot) * block_per_slot
            <= block_time,
        block_time < genesis_time + (slot_at(block_time, genesis_time, block_per_slot) + 1)
            * block_per_slot,
{
    let t = block_time - genesis_time;
    let q = t / block_per_slot;
    vstd::arithmetic::div_mod::lemma_fundamental_div_mod(t, block_per_slot);
    vstd::arithmetic::div_mod::lemma_mod_division_less_than_divisor(t, block_per_slot);
    vstd::arithmetic::div_mod::lemma_div_pos_is_pos(t, block_per_slot);
    assert(q * block_per_slot == block_per_slot * q) by (nonlinear_arith);
    assert((q + 1) * block_per_slot == q * block_per_slot + block_per_slot) by (nonlinear_arith);
}

/// A later time never has an earlier slot.
pub proof fn law_slots_do_not_go_back(
    earlier: int,
    later: int,
    genesis_time: int,
    block_per_slot: int,
)
    requires
        genesis_time <= earlier <= later,
        0 < block_per_slot,
    ensures
        slot_at(earlier, genesis_time, block_per_slot) <= slot_at(
            later,
            genesis_time,
            block_per_slot,
        ),
{
    vstd::arithmetic::div_mod::lemma_div_is_ordered(
        earlier - genesis_time,
        later - genesis_time,
        block_per_slot,
    );
}

/// So many slots later, the slot is so many further on.
pub proof fn law_slots_pass_one_by_one(
    block_time: int,
    genesis_time: int,
    block_per_slot: int,
    slots: int,
)
    requires
        0 < block_per_slot,
    ensures
        slot_at(block_time + slots * block_per_slot, genesis_time, block_per_slot) == slot_at(
            block_time,
            genesis_time,
            block_per_slot,
        ) + slots,
{
    let t = block_time - genesis_time;
    vstd::arithmetic::div_mod::lemma_hoist_over_denominator(t, slots, block_per_slot as nat);
    assert(block_time + slots * block_per_slot - genesis_time == t + slots * block_per_slot);
}

/// Only the time since genesis counts: where both times move together, the slot stays.
pub proof fn law_slot_counts_from_genesis(
    block_time: int,
    genesis_time: int,
    block_per_slot: int,
    shift: int,
)
    ensures
        slot_at(block_time + shift, genesis_time + shift, block_per_slot) == slot_at(
            block_time,
            genesis_time,
            block_per_slot,
        ),
{
}

/// A time has a slot exactly where it is not before a genesis that is set, and then lies in it.
pub proof fn law_slot_is_owed_from_genesis_on(
    block_time: u64,
    genesis_time: u64,
    block_per_slot: u64,
)
    requires
        block_per_slot > 0,
    ensures
        match slot_result(block_time, genesis_time, block_per_slot) {
            Ok(slot) => {
                &&& 0 < genesis_time <= block_time
                &&& genesis_time + slot * block_per_slot <= block_time
                &&& block_time < genesis_time + (slot + 1) * block_per_slot
            },
            Err(PreflightError::GenesisTimeZero) => genesis_time == 0,
            Err(PreflightError::BlockTimeBeforeGenesis) => 0 < genesis_time && block_time
                < genesis_time,
            Err(_) => false,
        },
{
    if 0 < genesis_time <= block_time {
        let t = block_time - genesis_time;
        let q = slot_at(block_time as int, genesis_time as int, block_per_slot as int);
        law_time_lies_in_its_slot(block_time as int, genesis_time as int, block_per_slot as int);
        assert(q <= q * block_per_slot) by (nonlinear_arith)
            requires
                0 <= q,
                block_per_slot >= 1,
        ;
        assert(q as u64 == q);
    }
}

/// A slot can be asked for wherever no division by nothing comes of it.
pub proof fn law_slot_can_be_asked_for(block_time: u64, genesis_time: u64, block_per_slot: u64)
    ensures
        slot_defined(block_time, genesis_time, block_per_slot) <==> (genesis_time == 0 || block_time
            < genesis_time || block_per_slot != 0),
{
}

} // verus!
