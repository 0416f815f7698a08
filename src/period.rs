use vstd::prelude::*;

verus! {

/// Slots in one beacon-chain epoch.
pub const SLOTS_PER_EPOCH: u64 = 32;

/// Epochs over which one sync committee is valid.
pub const EPOCHS_PER_PERIOD: u64 = 256;

/// Slots in one sync-committee period.
pub const SLOTS_PER_PERIOD: u64 = SLOTS_PER_EPOCH * EPOCHS_PER_PERIOD;

/// The sync-committee period that a slot falls in: 8192 slots, 32 per epoch times 256
/// epochs, make a period.
pub open spec fn period_of(slot: nat) -> nat {
    slot / 8192
}

/// The period that the next light-client update has to cover is the one after
/// the last proven period, so at initialisation the last proven period is the
/// one before the initial slot's, saturating at zero.
pub open spec fn seeded_period_of(slot: nat) -> nat {
    if period_of(slot) == 0 { 0 } else { (period_of(slot) - 1) as nat }
}

/// Maps a slot to its sync-committee period.
pub fn derive_period(slot: u64) -> (r: u64)
    ensures
        r as nat == period_of(slot as nat),
{
    assert(SLOTS_PER_PERIOD == 8192);
    slot / SLOTS_PER_PERIOD
}

/// The `last_period` with which a gateway starts from `initial_slot`.
pub fn seed_last_period(initial_slot: u64) -> (r: u64)
    ensures
        r as nat == seeded_period_of(initial_slot as nat),
{
    let p = derive_period(initial_slot);
    p.saturating_sub(1)
}

/// `derive_period` never decreases as the slot grows.
pub proof fn lemma_derive_period_monotonic(a: u64, b: u64)
    requires
        a <= b,
    ensures
        period_of(a as nat) <= period_of(b as nat),
{
    vstd::arithmetic::div_mod::lemma_div_is_ordered(a as int, b as int, 8192);
}

/// The first period boundaries: slots 0 and 8191 lie in period 0, slot 8192 in period 1.
pub proof fn lemma_derive_period_boundaries()
    ensures
        period_of(0) == 0,
        period_of(8191) == 0,
        period_of(8192) == 1,
{
}

} // verus!
