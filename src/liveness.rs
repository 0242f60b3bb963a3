use vstd::prelude::*;

verus! {

/// Longest sleep between two renewals of the supervisor's deadline.
pub const SLICE_MS: u32 = 10;

/// Pause at the end of each pass of the application loop.
pub const LOOP_DELAY_MS: u32 = 20;

/// One unit of work of the application loop. Each is bounded: bus and display
/// calls by the bus timeout, sleeps by their duration.
#[derive(Debug, Clone, Copy, PartialEq, Eq, Structural)]
pub enum Step {
    /// Renew the supervisor's deadline.
    Renew,
    /// Block for the given number of milliseconds.
    Sleep(u32),
    /// Draw the time of day in the status bar.
    DrawClock,
    /// Read the battery charge and draw it in the status bar.
    DrawBattery,
    /// Poll the touch controller once and apply the transition table.
    PollTouch,
    /// Clear the screen below the status bar.
    ClearScreen,
    /// Draw the current screen's content.
    DrawBody,
}

/// A step is short enough for the cadence: a sleep lasts at most `slice`, and
/// is not empty.
pub open spec fn fits(step: Step, slice: u32) -> bool {
    match step {
        Step::Sleep(ms) => 0 < ms <= slice,
        _ => true,
    }
}

/// Every unit of work is followed at once by a renewal, and every sleep lasts
/// at most `slice`: so, once a renewal has come first, between two consecutive
/// renewals there is at most one unit of work, and at most `slice` of sleep.
pub open spec fn paced(steps: Seq<Step>, slice: u32) -> bool {
    forall|i: int|
        #![trigger steps[i]]
        0 <= i < steps.len() && steps[i] != Step::Renew ==> {
            &&& i + 1 < steps.len()
            &&& steps[i + 1] == Step::Renew
            &&& fits(steps[i], slice)
        }
}

pub open spec fn slept(step: Step) -> int {
    match step {
        Step::Sleep(ms) => ms as int,
        _ => 0,
    }
}

/// The time spent sleeping over a run of steps.
pub open spec fn total_sleep(steps: Seq<Step>) -> int
    decreases steps.len(),
{
    if steps.len() == 0 {
        0
    } else {
        total_sleep(steps.drop_last()) + slept(steps.last())
    }
}

proof fn lemma_total_sleep_push(steps: Seq<Step>, s: Step)
    ensures
        total_sleep(steps.push(s)) == total_sleep(steps) + slept(s),
{
    assert(steps.push(s).drop_last() =~= steps);
}

/// In a paced run of steps, any stretch without a renewal sleeps at most
/// `slice`: the deadline is never left unrenewed for longer than one slice of
/// sleep (plus one bounded unit of work).
pub proof fn lemma_gap_between_renewals(steps: Seq<Step>, slice: u32, i: int, j: int)
    requires
        paced(steps, slice),
        0 <= i <= j <= steps.len(),
        forall|k: int| i <= k < j ==> steps[k] != Step::Renew,
    ensures
        j - i <= 1,
        total_sleep(steps.subrange(i, j)) <= slice,
{
    if j - i >= 2 {
        assert(steps[i] != Step::Renew);
        assert(steps[i + 1] != Step::Renew);
    } else if j - i == 1 {
        let w = steps.subrange(i, j);
        assert(steps[i] != Step::Renew);
        assert(w.drop_last() =~= Seq::<Step>::empty());
        assert(w.last() == steps[i]);
        assert(total_sleep(w.drop_last()) == 0);
        assert(total_sleep(w) == slept(steps[i]));
        assert(fits(steps[i], slice));
    } else {
        assert(steps.subrange(i, j) =~= Seq::<Step>::empty());
    }
}

/// Sleeping through a run of steps after another sleeps for both.
pub proof fn lemma_total_sleep_concat(a: Seq<Step>, b: Seq<Step>)
    ensures
        total_sleep(a + b) == total_sleep(a) + total_sleep(b),
    decreases b.len(),
{
    if b.len() == 0 {
        assert(a + b =~= a);
    } else {
        lemma_total_sleep_concat(a, b.drop_last());
        assert((a + b).drop_last() =~= a + b.drop_last());
    }
}

/// Waits one after another keep the cadence: each renewal follows its sleep at
/// once, and the sleeps add up.
pub proof fn lemma_waits_compose(a: Seq<Step>, b: Seq<Step>, slice: u32)
    requires
        paced(a, slice),
        paced(b, slice),
    ensures
        paced(a + b, slice),
        total_sleep(a + b) == total_sleep(a) + total_sleep(b),
{
    lemma_total_sleep_concat(a, b);
    assert forall|i: int|
        0 <= i < (a + b).len() && (a + b)[i] != Step::Renew implies {
            &&& i + 1 < (a + b).len()
            &&& (a + b)[i + 1] == Step::Renew
            &&& fits((a + b)[i], slice)
        } by {
        if i < a.len() {
            assert((a + b)[i] == a[i]);
            assert(a[i] != Step::Renew);
            assert(i + 1 < a.len());
            assert((a + b)[i + 1] == a[i + 1]);
        } else {
            assert((a + b)[i] == b[i - a.len()]);
            assert((a + b)[i + 1] == b[i + 1 - a.len()]);
        }
    }
}

/// The steps of a wait of `total` milliseconds: a sleep of `slice` (or of what
/// is left, if less) and a renewal, until nothing is left.
pub open spec fn sliced(total: nat, slice: nat) -> Seq<Step>
    decreases total,
{
    if total == 0 || slice == 0 {
        Seq::empty()
    } else {
        let s = if total < slice {
            total
        } else {
            slice
        };
        seq![Step::Sleep(s as u32), Step::Renew] + sliced((total - s) as nat, slice)
    }
}

/// A wait of `total` milliseconds cut into sleeps of at most `slice`, each
/// followed by a renewal of the deadline.
pub fn sliced_wait(total: u32, slice: u32) -> (steps: Vec<Step>)
    requires
        slice > 0,
    ensures
        steps@ == sliced(total as nat, slice as nat),
        paced(steps@, slice),
        total_sleep(steps@) == total,
        total == 0 <==> steps@.len() == 0,
{
    let mut steps: Vec<Step> = Vec::new();
    let mut remaining: u32 = total;
    while remaining > 0
        invariant
            slice > 0,
            remaining <= total,
            paced(steps@, slice),
            total_sleep(steps@) + remaining == total,
            steps@.len() == 0 <==> remaining == total,
            steps@ + sliced(remaining as nat, slice as nat) == sliced(total as nat, slice as nat),
        decreases remaining,
    {
        let step: u32 = if remaining < slice {
            remaining
        } else {
            slice
        };
        let ghost before = steps@;
        steps.push(Step::Sleep(step));
        steps.push(Step::Renew);
        proof {
            lemma_total_sleep_push(before, Step::Sleep(step));
            lemma_total_sleep_push(before.push(Step::Sleep(step)), Step::Renew);
            assert(steps@ == before.push(Step::Sleep(step)).push(Step::Renew));
            assert forall|i: int|
                0 <= i < steps@.len() && steps@[i] != Step::Renew implies {
                    &&& i + 1 < steps@.len()
                    &&& steps@[i + 1] == Step::Renew
                    &&& fits(steps@[i], slice)
                } by {
                if i < before.len() {
                    assert(steps@[i] == before[i]);
                    assert(before[i] != Step::Renew);
                    assert(i + 1 < before.len());
                    assert(steps@[i + 1] == before[i + 1]);
                } else if i == before.len() {
                    assert(steps@[i] == Step::Sleep(step));
                    assert(steps@[i + 1] == Step::Renew);
                } else {
                    assert(steps@[i] == Step::Renew);
                }
            }
        }
        proof {
            let rest = sliced((remaining - step) as nat, slice as nat);
            assert(sliced(remaining as nat, slice as nat) == seq![Step::Sleep(step), Step::Renew]
                + rest);
            assert(steps@ + rest =~= before + (seq![Step::Sleep(step), Step::Renew] + rest));
        }
        remaining = remaining - step;
    }
    assert(steps@ + sliced(0, slice as nat) =~= steps@);
    steps
}

} // verus!
