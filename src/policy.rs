use vstd::prelude::*;

verus! {

/// The write a controller asks for, given the level the device holds now and
/// the level it wants: the wanted level when the two differ, none otherwise.
pub open spec fn write_plan(current: u32, target: u32) -> Option<u32> {
    if current != target {
        Some(target)
    } else {
        None
    }
}

/// The level a device holds once a plan has been carried out.
pub open spec fn level_after(current: u32, plan: Option<u32>) -> u32 {
    match plan {
        Some(level) => level,
        None => current,
    }
}

/// A transfer function from an ambient-light value to a hardware level.
pub trait LevelPolicy {
    spec fn spec_target_level(&self, value: u32) -> u32;

    fn target_level(&self, value: u32) -> (r: u32)
        ensures
            r == self.spec_target_level(value),
    ;
}

/// Decides whether a write is due: `Some(target)` exactly when the device
/// holds another level.
pub fn write_needed(current: u32, target: u32) -> (r: Option<u32>)
    ensures
        r == write_plan(current, target),
{
    if current != target {
        Some(target)
    } else {
        None
    }
}

/// One adjustment step of any policy: compute the wanted level for `value`
/// and compare it with the level read from the device.
pub fn plan_adjust<P: LevelPolicy>(policy: &P, value: u32, current: u32) -> (r: Option<u32>)
    ensures
        r == write_plan(current, policy.spec_target_level(value)),
{
    let target = policy.target_level(value);
    write_needed(current, target)
}

/// Adjusting twice to the same value, with nothing else touching the device
/// in between, writes at most once: the first step writes exactly when the
/// device held another level, and the second step never writes.
pub proof fn lemma_adjust_idempotent<P: LevelPolicy>(policy: &P, value: u32, current: u32)
    ensures
        write_plan(current, policy.spec_target_level(value)) is Some <==> current
            != policy.spec_target_level(value),
        write_plan(
            level_after(current, write_plan(current, policy.spec_target_level(value))),
            policy.spec_target_level(value),
        ) is None,
{
}

} // verus!
