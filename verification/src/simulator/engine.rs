use vstd::prelude::*;
use vstd::string::StringSliceAdditionalSpecFns;

verus! {

/// One step of the rolling hash that seeds a run's noise generator: the
/// accumulator times 31 plus the next byte, modulo 2^64.
pub open spec fn seed_step(acc: u64, byte: u8) -> u64 {
    ((acc * 31 + byte) % 0x1_0000_0000_0000_0000) as u64
}

/// The seed of a run whose identifier has the UTF-8 bytes `bytes`: the
/// rolling hash of the bytes, starting from 0.
pub open spec fn seed_of(bytes: Seq<u8>) -> u64
    decreases bytes.len(),
{
    if bytes.len() == 0 {
        0
    } else {
        seed_step(seed_of(bytes.drop_last()), bytes.last())
    }
}

proof fn lemma_wrapping_step(acc: u64, byte: u8)
    ensures
        vstd::wrapping::u64_specs::wrapping_add(
            vstd::wrapping::u64_specs::wrapping_mul(acc, 31),
            byte as u64,
        ) == seed_step(acc, byte),
{
    let r: int = 0x1_0000_0000_0000_0000;
    let p: int = acc * 31;
    vstd::arithmetic::div_mod::lemma_add_mod_noop(p, byte as int, r);
    vstd::arithmetic::div_mod::lemma_small_mod(byte as nat, r as nat);
    let m = p % r;
    if m + byte < r {
        vstd::arithmetic::div_mod::lemma_small_mod((m + byte) as nat, r as nat);
    } else {
        vstd::arithmetic::div_mod::lemma_small_mod((m + byte - r) as nat, r as nat);
        vstd::arithmetic::div_mod::lemma_mod_sub_multiples_vanish((m + byte) as int, r);
    }
}

/// The seed of the noise generator of run `run_id`: the rolling hash
/// (times 31, plus the byte, wrapping at 2^64) of the identifier's bytes.
pub fn run_seed(run_id: &str) -> (seed: u64)
    ensures
        seed == seed_of(run_id.spec_bytes()),
{
    let bytes = run_id.as_bytes();
    let mut acc: u64 = 0;
    let mut i: usize = 0;
    assert(bytes@.take(0) =~= Seq::<u8>::empty());
    while i < bytes.len()
        invariant
            i <= bytes@.len(),
            bytes@ == run_id.spec_bytes(),
            acc == seed_of(bytes@.take(i as int)),
        decreases bytes@.len() - i,
    {
        let byte = bytes[i];
        proof {
            lemma_wrapping_step(acc, byte);
            assert(bytes@.take(i + 1).drop_last() =~= bytes@.take(i as int));
        }
        acc = acc.wrapping_mul(31).wrapping_add(byte as u64);
        i = i + 1;
    }
    assert(bytes@.take(i as int) =~= bytes@);
    acc
}

/// The labels that a simulator tick reports.
#[derive(Debug, Clone)]
pub struct TickLabels {
    /// "complete" once the recipe is done, "running" before.
    pub status: String,
    /// The stage shown with the tick's telemetry.
    pub stage: String,
    /// The stage that comes next in the run state.
    pub next_stage: String,
}

/// The labels of a tick that simulated `stage_name`: once the recipe is
/// complete the telemetry shows "Complete" and the status is "complete";
/// before, it shows the simulated stage and the status is "running". The next
/// stage is the sequencer's current stage after the tick, or "Complete" when
/// none is left.
pub fn tick_labels(complete: bool, stage_name: &str, next_stage: Option<&str>) -> (labels:
    TickLabels)
    ensures
        labels.status@ == (if complete {
            "complete"@
        } else {
            "running"@
        }),
        labels.stage@ == (if complete {
            "Complete"@
        } else {
            stage_name@
        }),
        labels.next_stage@ == (match next_stage {
            Some(name) => name@,
            None => "Complete"@,
        }),
{
    let status = if complete {
        "complete"
    } else {
        "running"
    };
    let stage = if complete {
        "Complete"
    } else {
        stage_name
    };
    let next = match next_stage {
        Some(name) => name,
        None => "Complete",
    };
    TickLabels { status: status.to_owned(), stage: stage.to_owned(), next_stage: next.to_owned() }
}

} // verus!
