//! The emission loop: each round pauses for a fixed time and then adds a fixed
//! amount to the counter, with a fixed set of attributes. The caller does the
//! pausing; export runs on the reader's own timer and is not driven from here.

use vstd::prelude::*;

use crate::sdk::{attributes_view, counter_add, global_u64_counter, MetricCounter};

verus! {

/// The amount added to the counter on each step.
pub const EMIT_INCREMENT: u64 = 10;

/// The pause between two steps, in milliseconds.
pub const EMIT_INTERVAL_MS: u64 = 1000;

/// The attributes recorded with every addition, as key/value pairs.
pub open spec fn counter_attributes_of() -> Seq<(Seq<char>, Seq<char>)> {
    seq![("k1"@, "v1"@), ("k2"@, "v2"@)]
}

/// One addition as the loop makes it: the increment, with the fixed attributes.
pub open spec fn loop_addition() -> (u64, Seq<(Seq<char>, Seq<char>)>) {
    (EMIT_INCREMENT, counter_attributes_of())
}

/// Every addition in `s` is one that the loop makes.
pub open spec fn all_loop_additions(s: Seq<(u64, Seq<(Seq<char>, Seq<char>)>)>) -> bool {
    forall|i: int| 0 <= i < s.len() ==> #[trigger] s[i] == loop_addition()
}

/// The sum of the values of the additions in `s`.
pub open spec fn recorded_sum(s: Seq<(u64, Seq<(Seq<char>, Seq<char>)>)>) -> nat
    decreases s.len(),
{
    if s.len() == 0 {
        0
    } else {
        recorded_sum(s.drop_last()) + s.last().0 as nat
    }
}

/// How many additions the loop has made once `t_ms` milliseconds have passed
/// since it started: one after each full pause.
pub open spec fn additions_by(t_ms: nat) -> nat {
    t_ms / (EMIT_INTERVAL_MS as nat)
}

/// The counter's cumulative value once `t_ms` milliseconds have passed.
pub open spec fn total_by(t_ms: nat) -> nat {
    (EMIT_INCREMENT as nat) * additions_by(t_ms)
}

/// The attributes recorded with every addition: `k1 = v1` and `k2 = v2`.
pub fn counter_attributes() -> (r: Vec<(String, String)>)
    ensures
        attributes_view(r@) == counter_attributes_of(),
{
    let mut r: Vec<(String, String)> = Vec::new();
    r.push((String::from_str("k1"), String::from_str("v1")));
    r.push((String::from_str("k2"), String::from_str("v2")));
    assert(attributes_view(r@) =~= counter_attributes_of());
    r
}

/// The `process_counter` counter of the `app` meter of the process-wide provider.
pub fn process_counter() -> (r: MetricCounter)
    ensures
        r.names() == ("app"@, "process_counter"@),
        r.recorded().len() == 0,
{
    global_u64_counter("app", "process_counter")
}

/// The emission loop: the counter it adds to, and its own account of what it
/// has added so far. Each round pauses for `pause_ms()` and then takes one `step`.
pub struct EmissionLoop {
    /// The counter the loop adds to.
    pub counter: MetricCounter,
    /// How many additions have been made.
    pub additions: u64,
    /// The sum of all additions made.
    pub total: u64,
}

impl EmissionLoop {
    /// The loop adds to `process_counter` of the `app` meter; the counter has
    /// received exactly the loop's additions, and the total is their sum.
    pub open spec fn wf(&self) -> bool {
        &&& self.counter.names() == ("app"@, "process_counter"@)
        &&& self.counter.recorded().len() == self.additions
        &&& all_loop_additions(self.counter.recorded())
        &&& self.total as nat == (EMIT_INCREMENT as nat) * (self.additions as nat)
    }

    /// Whether another step fits in the loop's counters.
    pub open spec fn has_room_spec(&self) -> bool {
        self.total <= u64::MAX - EMIT_INCREMENT && self.additions < u64::MAX
    }

    /// A loop on `process_counter` that has added nothing yet.
    pub fn new() -> (r: EmissionLoop)
        ensures
            r.wf(),
            r.additions == 0,
            r.total == 0,
            r.counter.recorded().len() == 0,
    {
        EmissionLoop { counter: process_counter(), additions: 0, total: 0 }
    }

    /// Whether another step fits in the loop's counters.
    pub fn has_room(&self) -> (r: bool)
        ensures
            r == self.has_room_spec(),
    {
        self.total <= u64::MAX - EMIT_INCREMENT && self.additions < u64::MAX
    }

    /// How long to pause before each step, in milliseconds.
    pub fn pause_ms(&self) -> (r: u64)
        ensures
            r == EMIT_INTERVAL_MS,
    {
        EMIT_INTERVAL_MS
    }

    /// One step, taken after a pause: adds the fixed increment to the counter
    /// with the fixed attributes.
    pub fn step(&mut self)
        requires
            old(self).wf(),
            old(self).has_room_spec(),
        ensures
            final(self).wf(),
            final(self).additions == old(self).additions + 1,
            final(self).total == old(self).total + EMIT_INCREMENT,
            final(self).counter.recorded() == old(self).counter.recorded().push(loop_addition()),
    {
        let attributes = counter_attributes();
        counter_add(&mut self.counter, EMIT_INCREMENT, &attributes);
        self.additions = self.additions + 1;
        self.total = self.total + EMIT_INCREMENT;
        proof {
            let s = self.counter.recorded();
            assert forall|i: int| 0 <= i < s.len() implies #[trigger] s[i] == loop_addition() by {
                if i < s.len() - 1 {
                    assert(s[i] == old(self).counter.recorded()[i]);
                }
            }
        }
    }
}

/// Additions that all come from the loop sum to the increment times their number.
pub proof fn lemma_loop_sum(s: Seq<(u64, Seq<(Seq<char>, Seq<char>)>)>)
    requires
        all_loop_additions(s),
    ensures
        recorded_sum(s) == (EMIT_INCREMENT as nat) * s.len(),
    decreases s.len(),
{
    if s.len() > 0 {
        let t = s.drop_last();
        assert(all_loop_additions(t)) by {
            assert forall|i: int| 0 <= i < t.len() implies #[trigger] t[i] == loop_addition() by {
                assert(t[i] == s[i]);
            }
        }
        lemma_loop_sum(t);
        assert(s.last() == s[s.len() - 1]);
        assert((EMIT_INCREMENT as nat) * t.len() + 10 == (EMIT_INCREMENT as nat) * s.len())
            by (nonlinear_arith)
            requires
                t.len() + 1 == s.len(),
        ;
    }
}

/// Every addition that a loop has handed its counter carries exactly the
/// attributes `k1 = v1` and `k2 = v2`, and the value `EMIT_INCREMENT`.
pub proof fn lemma_every_addition_attributes(s: EmissionLoop)
    requires
        s.wf(),
    ensures
        forall|i: int|
            0 <= i < s.counter.recorded().len() ==> (#[trigger] s.counter.recorded()[i]).1
                == counter_attributes_of() && s.counter.recorded()[i].0 == EMIT_INCREMENT,
{
    assert forall|i: int| 0 <= i < s.counter.recorded().len() implies (#[trigger] s.counter.recorded()[i]).1
        == counter_attributes_of() && s.counter.recorded()[i].0 == EMIT_INCREMENT by {
        assert(s.counter.recorded()[i] == loop_addition());
    }
}

/// A loop that has taken the steps due by `t_ms` milliseconds (one after each
/// full pause) has handed its counter a cumulative value of
/// `EMIT_INCREMENT * floor(t_ms / EMIT_INTERVAL_MS)`, which is also its own total.
pub proof fn lemma_total_after(s: EmissionLoop, t_ms: nat)
    requires
        s.wf(),
        s.additions as nat == additions_by(t_ms),
    ensures
        recorded_sum(s.counter.recorded()) == total_by(t_ms),
        recorded_sum(s.counter.recorded()) == (EMIT_INCREMENT as nat) * (t_ms / (
        EMIT_INTERVAL_MS as nat)),
        s.total as nat == total_by(t_ms),
{
    lemma_loop_sum(s.counter.recorded());
}

} // verus!
