use vstd::prelude::*;

verus! {

/// How long the LED stays in each state while blinking.
pub const BLINK_PAUSE_MS: u32 = 200;
/// How many times the LED blinks when a host connects.
pub const CONNECT_BLINKS: u32 = 5;

/// Set the LED to `level`, then wait `pause_ms`.
#[derive(Debug, Clone, Copy, PartialEq, Eq)]
pub struct LedStep {
    pub level: u32,
    pub pause_ms: u32,
}

/// The `i`-th step of a blink sequence: on at even steps, off at odd ones.
pub open spec fn blink_step(i: int) -> LedStep {
    LedStep {
        level: if i % 2 == 0 {
            1
        } else {
            0
        },
        pause_ms: BLINK_PAUSE_MS,
    }
}

/// The steps that blink the LED `count` times: on, wait, off, wait, and so on.
pub fn blink_steps(count: u32) -> (steps: Vec<LedStep>)
    ensures
        steps@.len() == 2 * count,
        forall|i: int| 0 <= i < steps@.len() ==> #[trigger] steps@[i] == blink_step(i),
        forall|i: int|
            0 <= i < steps@.len() ==> (#[trigger] steps@[i]).pause_ms == 200 && (steps@[i].level
                == 1 <==> i % 2 == 0) && (steps@[i].level == 0 <==> i % 2 == 1),
{
    let mut steps: Vec<LedStep> = Vec::new();
    let mut n: u32 = 0;
    while n < count
        invariant
            n <= count,
            steps@.len() == 2 * n,
            forall|i: int| 0 <= i < steps@.len() ==> #[trigger] steps@[i] == blink_step(i),
        decreases count - n,
    {
        steps.push(LedStep { level: 1, pause_ms: BLINK_PAUSE_MS });
        steps.push(LedStep { level: 0, pause_ms: BLINK_PAUSE_MS });
        n = n + 1;
    }
    steps
}

} // verus!
