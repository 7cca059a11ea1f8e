//! The decisions of the control loop: when to sample, what to write after a
//! sample, when to stop, and how to hand the fans back.

use vstd::prelude::*;
use nonempty::NonEmpty;
use crate::error::Error;
use crate::fan_controller::{FanController, FileWrite};
use crate::filter::{pushed, spec_mean, MovingAverageFilter, MAX_WINDOW};
use crate::sensor::{hottest, spec_hottest};

verus! {

/// How long to rest after an iteration that wrote to the fans.
pub const ACTIVE_PAUSE_MILLIS: u64 = 100;

/// How long to rest after an iteration that changed nothing.
pub const IDLE_PAUSE_MILLIS: u64 = 1000;

/// `nonempty::NonEmpty`, a list with at least one item. Verus cannot look
/// into it; the fans in one are `fan_list`.
#[verifier::external_type_specification]
#[verifier::external_body]
#[verifier::reject_recursive_types(T)]
pub struct ExNonEmpty<T>(NonEmpty<T>);

/// The fans in a list that is never empty, in the order they were put in.
pub uninterp spec fn fan_list(fans: NonEmpty<FanController>) -> Seq<FanController>;

/// `NonEmpty::len`: the number of fans in the list, which is at least one.
#[verifier::external_body]
fn fan_count(fans: &NonEmpty<FanController>) -> (count: usize)
    ensures
        count == fan_list(*fans).len(),
        count >= 1,
{
    fans.len()
}

/// `NonEmpty::get`: the fan at a place in the list, or nothing past its end.
#[verifier::external_body]
fn fan_at(fans: &NonEmpty<FanController>, index: usize) -> (fan: Option<&FanController>)
    ensures
        index < fan_list(*fans).len() ==> fan == Some(&fan_list(*fans)[index as int]),
        index >= fan_list(*fans).len() ==> fan is None,
{
    fans.get(index)
}

/// Where the loop stands.
#[derive(Clone, Copy, Debug, PartialEq, Eq, Structural)]
pub enum LoopState {
    /// Sampling and actuating.
    Running,
    /// Stopped by cancellation or by a failure; the fans are yet to be
    /// handed back.
    ShuttingDown,
    /// The fans have been handed back.
    Terminated,
}

/// What to do after a sample: the writes to perform, in order, and the rest
/// to take afterwards.
#[derive(Debug)]
pub struct Plan {
    /// One write per fan, in the fans' order, or none where nothing changed.
    pub writes: Vec<FileWrite>,
    /// Milliseconds to sleep before the next iteration.
    pub pause_millis: u64,
}

/// The writes that ask each fan for the speed its curve gives at `temp`.
pub open spec fn speed_writes(fans: Seq<FanController>, temp: u8) -> Seq<(Seq<char>, Seq<char>)> {
    Seq::new(fans.len(), |i: int| fans[i].spec_set_speed(fans[i].spec_calc_speed(temp) as u32))
}

/// The writes that hand each fan back to the firmware.
pub open spec fn restore_writes(fans: Seq<FanController>) -> Seq<(Seq<char>, Seq<char>)> {
    Seq::new(fans.len(), |i: int| fans[i].spec_set_manual(false))
}

/// What a list of writes says, as text.
pub open spec fn write_views(writes: Seq<FileWrite>) -> Seq<(Seq<char>, Seq<char>)> {
    Seq::new(writes.len(), |i: int| writes[i]@)
}

/// The state after the cancellation flag was looked at: a running loop
/// that finds it set shuts down; nothing else changes.
pub open spec fn spec_poll(state: LoopState, cancelled: bool) -> LoopState {
    if state == LoopState::Running && cancelled {
        LoopState::ShuttingDown
    } else {
        state
    }
}

/// Whether a loop in this state asks for a sample: only a running one does.
pub open spec fn spec_samples(state: LoopState) -> bool {
    state == LoopState::Running
}

/// The mean of a window of `window` samples once the hotter of two new
/// samples has entered it.
pub open spec fn spec_next_mean(samples: Seq<u8>, window: nat, cpu: u8, gpu: Option<u8>) -> u8 {
    match spec_mean(pushed(samples, window, spec_hottest(cpu, gpu))) {
        Some(mean) => mean,
        None => 0,
    }
}

/// What one iteration writes and how long it then rests, in a loop in
/// state `state` that last acted on the mean `last_mean`: nothing and no
/// rest unless running; nothing and a long rest where the new mean is the
/// old one; otherwise a speed for each fan and a short rest.
pub open spec fn spec_plan(
    state: LoopState,
    last_mean: u8,
    next_mean: u8,
    fans: Seq<FanController>,
) -> (Seq<(Seq<char>, Seq<char>)>, u64) {
    if state != LoopState::Running {
        (Seq::empty(), 0)
    } else if next_mean == last_mean {
        (Seq::empty(), IDLE_PAUSE_MILLIS)
    } else {
        (speed_writes(fans, next_mean), ACTIVE_PAUSE_MILLIS)
    }
}

/// What handing the fans back does in state `state`: a loop that is
/// shutting down terminates and switches manual control off on every fan;
/// in any other state nothing happens.
pub open spec fn spec_shut_down(state: LoopState, fans: Seq<FanController>) -> (
    LoopState,
    Seq<(Seq<char>, Seq<char>)>,
) {
    if state == LoopState::ShuttingDown {
        (LoopState::Terminated, restore_writes(fans))
    } else {
        (state, Seq::empty())
    }
}

/// The first failure among the outcomes of a run of steps, if any failed.
pub open spec fn first_error(outcomes: Seq<Result<(), Error>>) -> Option<Error>
    decreases outcomes.len(),
{
    if outcomes.len() == 0 {
        None
    } else {
        match outcomes.first() {
            Err(error) => Some(error),
            Ok(_) => first_error(outcomes.drop_first()),
        }
    }
}

/// How the daemon ends: with the loop's failure if it had one, else with the
/// first failure of the cleanup, else well.
pub open spec fn spec_outcome(failure: Option<Error>, cleanup: Seq<Result<(), Error>>) -> Result<
    (),
    Error,
> {
    match failure {
        Some(error) => Err(error),
        None => match first_error(cleanup) {
            Some(error) => Err(error),
            None => Ok(()),
        },
    }
}

/// The control loop's memory: its state, the recent samples, the mean it
/// last acted on, and the failure that stopped it, if one did.
pub struct ControlLoop {
    state: LoopState,
    filter: MovingAverageFilter,
    last_mean: u8,
    failure: Option<Error>,
}

impl ControlLoop {
    /// Where the loop stands.
    pub closed spec fn state(&self) -> LoopState {
        self.state
    }

    /// The samples in the smoothing window, oldest first.
    pub closed spec fn samples(&self) -> Seq<u8> {
        self.filter.samples()
    }

    /// The most samples the smoothing window holds.
    pub closed spec fn window(&self) -> nat {
        self.filter.capacity()
    }

    /// The mean that the fans were last set for; 0 before the first.
    pub closed spec fn last_mean(&self) -> u8 {
        self.last_mean
    }

    /// The failure that stopped the loop, if one did.
    pub closed spec fn failure(&self) -> Option<Error> {
        self.failure
    }

    /// What every loop satisfies, from `new` on: a window of one to
    /// `MAX_WINDOW` samples that is not overfull, and a failure on record
    /// only once the loop has stopped.
    pub closed spec fn wf(&self) -> bool {
        &&& self.filter.wf()
        &&& self.state == LoopState::Running ==> self.failure is None
    }

    /// What `wf` says in terms of what can be seen from outside.
    pub proof fn lemma_wf(&self)
        requires
            self.wf(),
        ensures
            1 <= self.window() <= MAX_WINDOW,
            self.samples().len() <= self.window(),
            self.state() == LoopState::Running ==> self.failure() is None,
    {
    }

    /// A running loop with an empty window for `window` samples; none where
    /// `window` is zero or above `MAX_WINDOW`.
    pub fn new(window: usize) -> (made: Option<ControlLoop>)
        ensures
            made is Some <==> 1 <= window <= MAX_WINDOW,
            made matches Some(control) ==> control.wf() && control.state() == LoopState::Running
                && control.window() == window && control.samples() == Seq::<u8>::empty()
                && control.last_mean() == 0 && control.failure() is None,
    {
        match MovingAverageFilter::new(window) {
            Some(filter) => Some(
                ControlLoop { state: LoopState::Running, filter, last_mean: 0, failure: None },
            ),
            None => None,
        }
    }

    /// Where the loop stands.
    pub fn current_state(&self) -> (state: LoopState)
        ensures
            state == self.state(),
    {
        self.state
    }

    /// The iteration boundary: looks at the cancellation flag and says
    /// whether to sample. A running loop that finds the flag set shuts down.
    /// Only a loop that is still running afterwards samples.
    pub fn poll(&mut self, cancelled: bool) -> (sample: bool)
        requires
            old(self).wf(),
        ensures
            final(self).wf(),
            final(self).state() == spec_poll(old(self).state(), cancelled),
            sample == spec_samples(final(self).state()),
            final(self).samples() == old(self).samples(),
            final(self).window() == old(self).window(),
            final(self).last_mean() == old(self).last_mean(),
            final(self).failure() == old(self).failure(),
    {
        if self.state == LoopState::Running && cancelled {
            self.state = LoopState::ShuttingDown;
        }
        self.state == LoopState::Running
    }

    /// One iteration's decisions. While running: the hotter of the two
    /// samples enters the window; if the window's mean is the one last acted
    /// on, nothing is written and the rest is long; otherwise each fan is
    /// asked for the speed its curve gives at the mean, and the rest is
    /// short. A loop that is not running does nothing.
    pub fn on_sample(&mut self, fans: &NonEmpty<FanController>, cpu: u8, gpu: Option<u8>) -> (plan:
        Plan)
        requires
            old(self).wf(),
        ensures
            final(self).wf(),
            final(self).state() == old(self).state(),
            final(self).window() == old(self).window(),
            final(self).failure() == old(self).failure(),
            old(self).state() != LoopState::Running ==> {
                &&& final(self).samples() == old(self).samples()
                &&& final(self).last_mean() == old(self).last_mean()
            },
            old(self).state() == LoopState::Running ==> {
                &&& final(self).samples() == pushed(
                    old(self).samples(),
                    old(self).window(),
                    spec_hottest(cpu, gpu),
                )
                &&& final(self).last_mean() == spec_next_mean(
                    old(self).samples(),
                    old(self).window(),
                    cpu,
                    gpu,
                )
                &&& spec_mean(final(self).samples()) == Some(final(self).last_mean())
            },
            (write_views(plan.writes@), plan.pause_millis) == spec_plan(
                old(self).state(),
                old(self).last_mean(),
                spec_next_mean(old(self).samples(), old(self).window(), cpu, gpu),
                fan_list(*fans),
            ),
    {
        if self.state != LoopState::Running {
            let writes: Vec<FileWrite> = Vec::new();
            assert(write_views(writes@) =~= Seq::empty());
            return Plan { writes, pause_millis: 0 };
        }
        self.filter.push(hottest(cpu, gpu));
        let mean = match self.filter.mean() {
            Some(mean) => mean,
            None => self.last_mean,
        };
        if mean == self.last_mean {
            let writes: Vec<FileWrite> = Vec::new();
            assert(write_views(writes@) =~= Seq::empty());
            return Plan { writes, pause_millis: IDLE_PAUSE_MILLIS };
        }
        self.last_mean = mean;
        let count = fan_count(fans);
        let mut writes: Vec<FileWrite> = Vec::new();
        let mut at: usize = 0;
        while at < count
            invariant
                at <= count == fan_list(*fans).len(),
                writes@.len() == at,
                forall|i: int|
                    0 <= i < at ==> (#[trigger] writes@[i])@ == fan_list(*fans)[i].spec_set_speed(
                        fan_list(*fans)[i].spec_calc_speed(mean) as u32,
                    ),
            decreases count - at,
        {
            if let Some(fan) = fan_at(fans, at) {
                writes.push(fan.set_speed(fan.calc_speed(mean)));
            }
            at = at + 1;
        }
        assert(write_views(writes@) =~= speed_writes(fan_list(*fans), mean));
        Plan { writes, pause_millis: ACTIVE_PAUSE_MILLIS }
    }

    /// Records a failure of sampling or actuation: a running loop shuts down
    /// and keeps the failure; a loop that has stopped keeps what it has.
    pub fn fail(&mut self, error: Error)
        requires
            old(self).wf(),
        ensures
            final(self).wf(),
            final(self).samples() == old(self).samples(),
            final(self).window() == old(self).window(),
            final(self).last_mean() == old(self).last_mean(),
            old(self).state() == LoopState::Running ==> final(self).state()
                == LoopState::ShuttingDown && final(self).failure() == Some(error),
            old(self).state() != LoopState::Running ==> final(self).state() == old(self).state()
                && final(self).failure() == old(self).failure(),
    {
        if self.state == LoopState::Running {
            self.state = LoopState::ShuttingDown;
            self.failure = Some(error);
        }
    }

    /// Hands the fans back: a loop that is shutting down terminates and
    /// yields one write per fan, in the fans' order, each switching manual
    /// control off. In any other state nothing is yielded and nothing
    /// changes, so that no fan is handed back twice.
    pub fn shut_down(&mut self, fans: &NonEmpty<FanController>) -> (writes: Vec<FileWrite>)
        requires
            old(self).wf(),
        ensures
            final(self).wf(),
            final(self).samples() == old(self).samples(),
            final(self).window() == old(self).window(),
            final(self).last_mean() == old(self).last_mean(),
            final(self).failure() == old(self).failure(),
            (final(self).state(), write_views(writes@)) == spec_shut_down(
                old(self).state(),
                fan_list(*fans),
            ),
    {
        let mut writes: Vec<FileWrite> = Vec::new();
        if self.state != LoopState::ShuttingDown {
            assert(write_views(writes@) =~= Seq::empty());
            return writes;
        }
        self.state = LoopState::Terminated;
        let count = fan_count(fans);
        let mut at: usize = 0;
        while at < count
            invariant
                at <= count == fan_list(*fans).len(),
                writes@.len() == at,
                forall|i: int|
                    0 <= i < at ==> (#[trigger] writes@[i])@ == fan_list(*fans)[i].spec_set_manual(
                        false,
                    ),
            decreases count - at,
        {
            if let Some(fan) = fan_at(fans, at) {
                writes.push(fan.set_manual(false));
            }
            at = at + 1;
        }
        assert(write_views(writes@) =~= restore_writes(fan_list(*fans)));
        writes
    }

    /// How the daemon ends, given how each step of the cleanup went: with
    /// the loop's failure if it had one, else with the first failure of the
    /// cleanup, else well.
    pub fn outcome(&self, cleanup: &Vec<Result<(), Error>>) -> (end: Result<(), Error>)
        ensures
            end == spec_outcome(self.failure(), cleanup@),
    {
        if let Some(error) = self.failure {
            return Err(error);
        }
        let mut at: usize = 0;
        assert(cleanup@.skip(0) =~= cleanup@);
        while at < cleanup.len()
            invariant
                at <= cleanup.len(),
                self.failure() is None,
                first_error(cleanup@) == first_error(cleanup@.skip(at as int)),
            decreases cleanup.len() - at,
        {
            assert(cleanup@.skip(at as int).first() == cleanup@[at as int]);
            if let Err(error) = cleanup[at] {
                return Err(error);
            }
            assert(cleanup@.skip(at as int).drop_first() =~= cleanup@.skip(at + 1));
            at = at + 1;
        }
        Ok(())
    }
}

/// Cancellation: a running loop that finds the flag set at the iteration
/// boundary shuts down. From then on it asks for no sample and, whatever
/// sample it is handed, writes to no fan. Handing the fans back then yields
/// exactly one write per fan, in the fans' order, which switches that fan's
/// manual control off, and terminates the loop; asked again, it yields
/// nothing.
pub proof fn lemma_cancellation(fans: Seq<FanController>, last_mean: u8, next_mean: u8)
    ensures
        spec_poll(LoopState::Running, true) == LoopState::ShuttingDown,
        !spec_samples(LoopState::ShuttingDown),
        forall|cancelled: bool| #[trigger]
            spec_poll(LoopState::ShuttingDown, cancelled) == LoopState::ShuttingDown,
        spec_plan(LoopState::ShuttingDown, last_mean, next_mean, fans).0.len() == 0,
        spec_shut_down(LoopState::ShuttingDown, fans).0 == LoopState::Terminated,
        spec_shut_down(LoopState::ShuttingDown, fans).1.len() == fans.len(),
        forall|i: int|
            0 <= i < fans.len() ==> #[trigger] spec_shut_down(LoopState::ShuttingDown, fans).1[i]
                == fans[i].spec_set_manual(false),
        spec_shut_down(LoopState::Terminated, fans).1.len() == 0,
        spec_plan(LoopState::Terminated, last_mean, next_mean, fans).0.len() == 0,
{
}

/// A failure of the loop comes before any failure of the cleanup; without
/// either the daemon ends well.
pub proof fn lemma_outcome_precedence(
    failure: Option<Error>,
    cleanup: Seq<Result<(), Error>>,
)
    ensures
        failure matches Some(error) ==> spec_outcome(failure, cleanup) == Err::<(), Error>(error),
        failure is None && first_error(cleanup) is None ==> spec_outcome(failure, cleanup) is Ok,
        spec_outcome(failure, cleanup) is Ok ==> failure is None && forall|i: int|
            0 <= i < cleanup.len() ==> cleanup[i] is Ok,
{
    lemma_first_error_none(cleanup);
}

/// No first failure means no failure at all.
pub proof fn lemma_first_error_none(outcomes: Seq<Result<(), Error>>)
    ensures
        first_error(outcomes) is None <==> forall|i: int|
            0 <= i < outcomes.len() ==> outcomes[i] is Ok,
    decreases outcomes.len(),
{
    if outcomes.len() > 0 {
        let rest = outcomes.drop_first();
        lemma_first_error_none(rest);
        if first_error(outcomes) is None {
            assert forall|i: int| 0 <= i < outcomes.len() implies outcomes[i] is Ok by {
                if i > 0 {
                    assert(outcomes[i] == rest[i - 1]);
                }
            }
        } else if outcomes.first() is Ok {
            let bad = choose|i: int| 0 <= i < rest.len() && !(rest[i] is Ok);
            assert(outcomes[bad + 1] == rest[bad]);
        }
    }
}

} // verus!
