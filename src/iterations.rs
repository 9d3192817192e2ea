use vstd::prelude::*;

verus! {

/// Step by which the iteration budget is raised or lowered.
pub const ITERATION_STEP: u32 = 128;

/// Smallest budget the view may have.
pub const MIN_ITERATIONS: u32 = 128;

/// Largest multiple of the step that fits the 32-bit uniform field.
pub const MAX_ITERATIONS: u32 = 4294967168;

/// A budget is valid when it is a positive multiple of the step, at least
/// the minimum.
pub open spec fn valid_iterations(n: u32) -> bool {
    n >= MIN_ITERATIONS && n % ITERATION_STEP == 0
}

/// Budget after one Arrow-Up press: one step more, held at the largest
/// multiple of the step that the 32-bit field can carry.
pub open spec fn raised(n: u32) -> u32 {
    if n < MAX_ITERATIONS {
        (n + ITERATION_STEP) as u32
    } else {
        n
    }
}

/// Budget after one Arrow-Down press: one step less, never below the minimum.
pub open spec fn lowered(n: u32) -> u32 {
    if n >= MIN_ITERATIONS + ITERATION_STEP {
        (n - ITERATION_STEP) as u32
    } else {
        MIN_ITERATIONS
    }
}

/// Budget after a press of Arrow-Up (`true`) or Arrow-Down (`false`).
pub open spec fn after_press(n: u32, up: bool) -> u32 {
    if up {
        raised(n)
    } else {
        lowered(n)
    }
}

/// Budget after a whole sequence of presses, first press first.
pub open spec fn after_presses(n: u32, presses: Seq<bool>) -> u32
    decreases presses.len(),
{
    if presses.len() == 0 {
        n
    } else {
        after_presses(after_press(n, presses[0]), presses.drop_first())
    }
}

/// Raises the budget by one step.
pub fn increase_iterations(n: u32) -> (r: u32)
    ensures
        r == raised(n),
        valid_iterations(n) ==> valid_iterations(r),
{
    if n < MAX_ITERATIONS {
        n + ITERATION_STEP
    } else {
        n
    }
}

/// Lowers the budget by one step, saturating at the minimum.
pub fn decrease_iterations(n: u32) -> (r: u32)
    ensures
        r == lowered(n),
        valid_iterations(n) ==> valid_iterations(r),
        n <= MIN_ITERATIONS ==> r == MIN_ITERATIONS,
{
    if n >= MIN_ITERATIONS + ITERATION_STEP {
        n - ITERATION_STEP
    } else {
        MIN_ITERATIONS
    }
}

/// One press keeps a valid budget valid.
pub proof fn lemma_press_keeps_valid(n: u32, up: bool)
    requires
        valid_iterations(n),
    ensures
        valid_iterations(after_press(n, up)),
{
}

/// Whatever sequence of Arrow-Up and Arrow-Down presses arrives, a valid
/// budget stays a positive multiple of the step and never drops below the
/// minimum.
pub proof fn lemma_presses_keep_valid(n: u32, presses: Seq<bool>)
    requires
        valid_iterations(n),
    ensures
        valid_iterations(after_presses(n, presses)),
    decreases presses.len(),
{
    if presses.len() > 0 {
        lemma_press_keeps_valid(n, presses[0]);
        lemma_presses_keep_valid(after_press(n, presses[0]), presses.drop_first());
    }
}

} // verus!
