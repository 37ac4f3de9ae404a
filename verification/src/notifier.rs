use vstd::prelude::*;

verus! {

use crate::text::spec_decimal;
use crate::text::u64_to_decimal;
use vstd::arithmetic::div_mod::lemma_div_nonincreasing;
use vstd::arithmetic::div_mod::lemma_fundamental_div_mod;
use vstd::arithmetic::mul::lemma_mul_inequality;

/// The fixed period, in seconds, between two notifications.
pub const NOTIFIER_INTERVAL_SECS: u64 = 1;

/// The message a notification carries for an elapsed runtime of `secs`
/// seconds.
pub open spec fn spec_notifier_message(secs: nat) -> Seq<char> {
    "Time: "@ + spec_decimal(secs)
}

/// Renders the notification message for an elapsed runtime of `secs` seconds.
pub fn notifier_message(secs: u64) -> (r: String)
    ensures
        r@ == spec_notifier_message(secs as nat),
{
    let mut out = String::from_str("Time: ");
    let digits = u64_to_decimal(secs);
    out.append(digits.as_str());
    out
}

/// The periodic notifier: every fixed interval it computes the runtime
/// elapsed since a start instant captured once at task creation and emits it
/// to the presentation layer. It alternates forever between waiting out the
/// interval and emitting; the waiting and the clock belong to the surrounding
/// task, which hands each reading to `tick`.
#[derive(Clone, Copy, Debug, PartialEq, Eq, Structural)]
pub struct Notifier {
    /// The period, in seconds, between two emissions.
    pub interval_secs: u64,
    /// How many notifications have been emitted.
    pub emitted: u64,
    /// The elapsed-seconds value carried by the latest emission.
    pub last_elapsed_secs: u64,
}

/// The notifier after one emission at elapsed time `elapsed_secs`.
pub open spec fn spec_tick(n: Notifier, elapsed_secs: u64) -> Notifier {
    Notifier {
        interval_secs: n.interval_secs,
        emitted: (n.emitted + 1) as u64,
        last_elapsed_secs: elapsed_secs,
    }
}

/// The notifier after one emission per entry of `schedule`, in order; each
/// entry is the elapsed-seconds reading at that emission.
pub open spec fn spec_run(n: Notifier, schedule: Seq<u64>) -> Notifier
    decreases schedule.len(),
{
    if schedule.len() == 0 {
        n
    } else {
        spec_run(spec_tick(n, schedule[0]), schedule.drop_first())
    }
}

/// The messages emitted over `schedule`, in order.
pub open spec fn spec_run_messages(n: Notifier, schedule: Seq<u64>) -> Seq<Seq<char>>
    decreases schedule.len(),
{
    if schedule.len() == 0 {
        Seq::empty()
    } else {
        seq![spec_notifier_message(schedule[0] as nat)] + spec_run_messages(
            spec_tick(n, schedule[0]),
            schedule.drop_first(),
        )
    }
}

/// The elapsed-seconds readings of a run in which every emission happens on
/// time: one at each whole multiple of the interval up to `t` seconds.
pub open spec fn on_time_schedule(interval_secs: u64, t: u64) -> Seq<u64>
    recommends
        interval_secs >= 1,
{
    Seq::new((t / interval_secs) as nat, |k: int| ((k + 1) * (interval_secs as int)) as u64)
}

impl Notifier {
    /// Creates a notifier that has emitted nothing yet.
    pub fn new(interval_secs: u64) -> (r: Notifier)
        requires
            interval_secs >= 1,
        ensures
            r.interval_secs == interval_secs,
            r.emitted == 0,
            r.last_elapsed_secs == 0,
    {
        Notifier { interval_secs, emitted: 0, last_elapsed_secs: 0 }
    }

    /// One emission: takes the elapsed runtime in whole seconds — the clock
    /// is monotonic, so readings never decrease — counts it, and returns the
    /// message to push to the presentation layer.
    pub fn tick(&mut self, elapsed_secs: u64) -> (msg: String)
        requires
            elapsed_secs >= old(self).last_elapsed_secs,
            old(self).emitted < u64::MAX,
        ensures
            *final(self) == spec_tick(*old(self), elapsed_secs),
            final(self).emitted == old(self).emitted + 1,
            final(self).last_elapsed_secs == elapsed_secs,
            final(self).interval_secs == old(self).interval_secs,
            msg@ == spec_notifier_message(elapsed_secs as nat),
    {
        self.emitted = self.emitted + 1;
        self.last_elapsed_secs = elapsed_secs;
        notifier_message(elapsed_secs)
    }
}

/// Emissions are counted one for one: a run over a schedule adds exactly the
/// schedule's length to the emission count.
pub proof fn lemma_run_count(n: Notifier, schedule: Seq<u64>)
    requires
        n.emitted + schedule.len() <= u64::MAX,
    ensures
        spec_run(n, schedule).emitted == n.emitted + schedule.len(),
        spec_run(n, schedule).interval_secs == n.interval_secs,
    decreases schedule.len(),
{
    if schedule.len() == 0 {
    } else {
        lemma_run_count(spec_tick(n, schedule[0]), schedule.drop_first());
    }
}

/// The `k`-th on-time emission happens at elapsed time `(k + 1) * interval`,
/// which never exceeds `t`.
pub proof fn lemma_on_time_entry(interval_secs: u64, t: u64, k: int)
    requires
        interval_secs >= 1,
        0 <= k < on_time_schedule(interval_secs, t).len(),
    ensures
        on_time_schedule(interval_secs, t)[k] == (k + 1) * (interval_secs as int),
        (k + 1) * (interval_secs as int) <= t,
{
    let i = interval_secs as int;
    let q = (t / interval_secs) as int;
    lemma_mul_inequality(k + 1, q, i);
    lemma_fundamental_div_mod(t as int, i);
    assert((k + 1) * i <= q * i);
    assert(t as int == i * q + (t as int) % i);
    assert(((k + 1) * i) as u64 == (k + 1) * i);
}

/// After `t` seconds of on-time running, the number of emitted notifications
/// is exactly the number of whole intervals in `t`, that is `t / interval`.
pub proof fn lemma_on_time_count(n: Notifier, interval_secs: u64, t: u64)
    requires
        interval_secs >= 1,
        n.emitted == 0,
    ensures
        spec_run(n, on_time_schedule(interval_secs, t)).emitted == t / interval_secs,
{
    lemma_div_nonincreasing(t as int, interval_secs as int);
    lemma_run_count(n, on_time_schedule(interval_secs, t));
}

/// A run emits one message per schedule entry: the `k`-th message is the
/// notifier message for the `k`-th elapsed-seconds reading.
pub proof fn lemma_run_messages(n: Notifier, schedule: Seq<u64>)
    ensures
        spec_run_messages(n, schedule) =~= Seq::new(
            schedule.len(),
            |k: int| spec_notifier_message(schedule[k] as nat),
        ),
    decreases schedule.len(),
{
    if schedule.len() == 0 {
    } else {
        lemma_run_messages(spec_tick(n, schedule[0]), schedule.drop_first());
    }
}

/// Successive on-time emissions carry non-decreasing elapsed-time values: the
/// reading at the `a`-th emission never exceeds the reading at a later one.
pub proof fn lemma_on_time_monotone(interval_secs: u64, t: u64, a: int, b: int)
    requires
        interval_secs >= 1,
        0 <= a <= b < on_time_schedule(interval_secs, t).len(),
    ensures
        on_time_schedule(interval_secs, t)[a] <= on_time_schedule(interval_secs, t)[b],
{
    lemma_on_time_entry(interval_secs, t, a);
    lemma_on_time_entry(interval_secs, t, b);
    lemma_mul_inequality(a + 1, b + 1, interval_secs as int);
}

} // verus!
