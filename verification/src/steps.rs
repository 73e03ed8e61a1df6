//! Learning steps: how many fit into the day, and how long each one waits.

use crate::card::CardQueue;
use crate::scheduler::Scheduler;
use vstd::prelude::*;

verus! {

/// The delay of a step when no steps are configured, in seconds.
pub const DEFAULT_STEP_DELAY: i64 = 60;

/// The longest jitter of a learning step, in seconds.
pub const MAX_STEP_JITTER: i64 = 300;

/// The number of steps at the front of `steps` that can be passed one
/// after the other, starting at `now`, without going past `cut_off`.
pub open spec fn reachable_steps(steps: Seq<u32>, now: int, cut_off: int) -> nat
    decreases steps.len(),
{
    if steps.len() == 0 || now + steps[0] > cut_off {
        0
    } else {
        1 + reachable_steps(steps.drop_first(), now + steps[0], cut_off)
    }
}

/// The last `remaining` steps of `steps`, or all of them if there are fewer.
pub open spec fn last_steps(steps: Seq<u32>, remaining: int) -> Seq<u32> {
    if 0 <= remaining < steps.len() {
        steps.subrange(steps.len() - remaining, steps.len() as int)
    } else {
        steps
    }
}

/// The number of the last `remaining` steps that fit between `now` and
/// `cut_off`, counted as one if not even the first of them fits.
pub open spec fn steps_before_cut_off(
    steps: Seq<u32>,
    remaining: int,
    now: int,
    cut_off: int,
) -> int {
    let fit = reachable_steps(last_steps(steps, remaining), now, cut_off);
    if fit > 1 {
        fit as int
    } else {
        1
    }
}

/// The place in `steps` of the step at which `remaining` steps are left.
/// Only the count of steps left, `remaining` modulo 1000, is read; a count
/// that names no step stands for the first step.
pub open spec fn step_index(steps: Seq<u32>, remaining: int) -> int {
    let left = remaining % 1_000;
    if 1 <= left <= steps.len() {
        steps.len() - left
    } else {
        0
    }
}

/// The delay of the step at which `remaining` steps are left, in seconds.
/// Without steps the delay is a minute.
pub open spec fn step_delay(steps: Seq<u32>, remaining: int) -> int {
    if steps.len() == 0 {
        DEFAULT_STEP_DELAY as int
    } else {
        steps[step_index(steps, remaining)] as int
    }
}

/// The delay when the current step is repeated: the average of its own
/// delay and the delay of the step after it. Where only one step exists,
/// or none, the delay after it counts as double its own; the last of
/// several steps is repeated after its own delay.
pub open spec fn repeat_delay(steps: Seq<u32>, remaining: int) -> int {
    let current = step_delay(steps, remaining);
    let index = step_index(steps, remaining);
    let following = if steps.len() <= 1 {
        current * 2
    } else if index + 1 < steps.len() {
        steps[index + 1] as int
    } else {
        current
    };
    (current + following) / 2
}

/// The longest jitter that a step of `delay` seconds can get: a quarter of
/// the delay, at most five minutes, at least one second.
pub open spec fn jitter_limit(delay: int) -> int {
    let quarter = if delay / 4 < MAX_STEP_JITTER { delay / 4 } else { MAX_STEP_JITTER as int };
    if quarter > 1 {
        quarter
    } else {
        1
    }
}

/// Where a card goes that has to wait `delay` seconds from `now`: into the
/// learn queue, due at that time plus `jitter` but before the cutoff, if
/// that time lies before the cutoff; else into the day-learn queue, due
/// on the first day whose cutoff lies after that time.
pub open spec fn learn_placement(
    now: int,
    delay: int,
    jitter: int,
    cut_off: int,
    today: int,
) -> (CardQueue, int) {
    let due = now + delay;
    if due < cut_off {
        (
            CardQueue::Learn,
            if due + jitter < cut_off - 1 {
                due + jitter
            } else {
                cut_off - 1
            },
        )
    } else {
        (CardQueue::DayLearn, today + (due - cut_off) / 86_400 + 1)
    }
}

/// A step that fits leaves the steps after it to be counted from its end.
proof fn lemma_reachable_unfold(steps: Seq<u32>, from: int, now: int, cut_off: int)
    requires
        0 <= from < steps.len(),
    ensures
        reachable_steps(steps.subrange(from, steps.len() as int), now, cut_off) == if now
            + steps[from] > cut_off {
            0nat
        } else {
            1 + reachable_steps(
                steps.subrange(from + 1, steps.len() as int),
                now + steps[from],
                cut_off,
            )
        },
{
    let tail = steps.subrange(from, steps.len() as int);
    assert(tail[0] == steps[from]);
    assert(tail.drop_first() =~= steps.subrange(from + 1, steps.len() as int));
}

impl Scheduler {
    /// The number of the last `remaining` steps that can be completed from
    /// `now` until the day cutoff, counted as one if there is none.
    pub fn remaining_today(&self, steps: &[u32], remaining: usize, now: i64) -> (fit: i32)
        requires
            steps@.len() <= i32::MAX,
        ensures
            fit == steps_before_cut_off(
                steps@,
                remaining as int,
                now as int,
                self.day_cut_off as int,
            ),
            1 <= fit,
            fit <= steps@.len() || fit == 1,
    {
        let len = steps.len();
        let from: usize = if len > remaining {
            len - remaining
        } else {
            0
        };
        let cut_off: i128 = self.day_cut_off as i128;
        let mut time: i128 = now as i128;
        let mut fit: i32 = 0;
        let mut index: usize = from;
        assert(steps@.subrange(from as int, len as int) =~= last_steps(steps@, remaining as int));
        while index < len
            invariant_except_break
                from <= index <= len,
                fit == index - from,
                i64::MIN <= time <= i64::MAX,
                fit + reachable_steps(steps@.subrange(index as int, len as int), time as int, cut_off as int)
                    == reachable_steps(steps@.subrange(from as int, len as int), now as int, cut_off as int),
            invariant
                len == steps@.len(),
                len <= i32::MAX,
                cut_off == self.day_cut_off,
            ensures
                fit == reachable_steps(
                    steps@.subrange(from as int, len as int),
                    now as int,
                    cut_off as int,
                ),
                0 <= fit <= len,
            decreases len - index,
        {
            proof {
                lemma_reachable_unfold(steps@, index as int, time as int, cut_off as int);
            }
            time = time + steps[index] as i128;
            if time > cut_off {
                break ;
            }
            fit = fit + 1;
            index = index + 1;
        }
        if fit > 1 {
            fit
        } else {
            1
        }
    }

    /// The place in `steps` of the step at which `remaining` steps are left.
    fn index_for_grade(steps: &[u32], remaining: i32) -> (index: usize)
        ensures
            index == step_index(steps@, remaining as int),
            index < steps@.len() || steps@.len() == 0,
    {
        let rest: i32 = remaining % 1_000;
        let left: usize = if rest < 0 {
            (rest + 1_000) as usize
        } else {
            rest as usize
        };
        let len = steps.len();
        if 1 <= left && left <= len {
            len - left
        } else {
            0
        }
    }

    /// The delay, in seconds, of the step at which `remaining` steps are left.
    pub fn delay_for_grade(steps: &[u32], remaining: i32) -> (delay: i64)
        ensures
            delay == step_delay(steps@, remaining as int),
            0 <= delay <= u32::MAX,
    {
        if steps.len() == 0 {
            DEFAULT_STEP_DELAY
        } else {
            steps[Self::index_for_grade(steps, remaining)] as i64
        }
    }

    /// The delay, in seconds, of repeating the step at which `remaining`
    /// steps are left.
    pub fn delay_for_repeating_grade(steps: &[u32], remaining: i32) -> (delay: i64)
        ensures
            delay == repeat_delay(steps@, remaining as int),
            0 <= delay <= 2 * u32::MAX,
    {
        let current = Self::delay_for_grade(steps, remaining);
        let index = Self::index_for_grade(steps, remaining);
        let following = if steps.len() <= 1 {
            current * 2
        } else if index + 1 < steps.len() {
            steps[index + 1] as i64
        } else {
            current
        };
        (current + following) / 2
    }
}

} // verus!
