//! The background task's decision logic, as a state machine.
//!
//! The task that backs a monitor has two working phases: it first turns a
//! one-shot directory listing into startup `Added` events, then translates
//! live notifications until it is cancelled or a source fails. Everything the
//! task decides is here, verified; the surrounding driver loop only performs
//! the blocking reads and hands each observation to [`TaskState::step`],
//! delivering whatever events come back, in order.

use vstd::prelude::*;
use crate::event::Event;
use crate::event::EventV;
use crate::event::RawEvent;
use crate::event::RawEventV;
use crate::event::spec_translate;
use crate::event::spec_name_matches;
use crate::event::spec_device_path;
use crate::event::name_matches;
use crate::event::device_path;

verus! {

/// Why the background task stopped.
#[derive(Clone, Copy, Debug, PartialEq, Eq, Structural)]
pub enum ExitStatus {
    /// Cancellation was requested and observed; the clean ending.
    Cancelled,
    /// The device directory could not be listed at all.
    ListingFailed,
    /// The live source's read failed.
    ReadFailed,
    /// An event could not be delivered to the consumer.
    DeliveryFailed,
}

/// The phase the background task is in.
#[derive(Clone, Copy, Debug, PartialEq, Eq, Structural)]
pub enum TaskState {
    /// Waiting for the one-shot listing of pre-existing devices.
    Enumerating,
    /// Translating live notifications.
    Live,
    /// Stopped, for the recorded reason; final.
    Ended(ExitStatus),
}

/// One observation made by the driver loop between two decisions.
#[derive(Debug)]
pub enum TaskInput {
    /// The device directory was listed: the entries' short names, in
    /// listing order.
    Listing(Vec<String>),
    /// The device directory could not be listed.
    ListingFailed,
    /// The live source produced a raw notification.
    Raw(RawEvent),
    /// The live source produced nothing within its waiting period.
    Idle,
    /// The live source failed.
    ReadFailed,
    /// An event could not be delivered to the consumer.
    DeliveryFailed,
    /// Cancellation was requested.
    Cancel,
}

/// The mathematical value of a [`TaskInput`].
pub enum TaskInputV {
    Listing(Seq<Seq<char>>),
    ListingFailed,
    Raw(RawEventV),
    Idle,
    ReadFailed,
    DeliveryFailed,
    Cancel,
}

impl View for TaskInput {
    type V = TaskInputV;

    open spec fn view(&self) -> TaskInputV {
        match self {
            TaskInput::Listing(names) => TaskInputV::Listing(names.deep_view()),
            TaskInput::ListingFailed => TaskInputV::ListingFailed,
            TaskInput::Raw(raw) => TaskInputV::Raw(raw@),
            TaskInput::Idle => TaskInputV::Idle,
            TaskInput::ReadFailed => TaskInputV::ReadFailed,
            TaskInput::DeliveryFailed => TaskInputV::DeliveryFailed,
            TaskInput::Cancel => TaskInputV::Cancel,
        }
    }
}

/// The startup events for a directory listing: one `Added` per matching
/// short name, with the joined path, in listing order.
pub open spec fn spec_startup_events(names: Seq<Seq<char>>) -> Seq<EventV>
    decreases names.len(),
{
    if names.len() == 0 {
        Seq::empty()
    } else {
        spec_startup_events(names.drop_last()) + (if spec_name_matches(names.last()) {
            seq![EventV::Added(spec_device_path(names.last()))]
        } else {
            Seq::empty()
        })
    }
}

/// The transition relation of the task: from a state and one observation to
/// the next state and the events to deliver, in order. Total: observations
/// that a phase does not expect change nothing, and an ended task ignores
/// everything.
pub open spec fn spec_step(s: TaskState, input: TaskInputV) -> (TaskState, Seq<EventV>) {
    match s {
        TaskState::Enumerating => match input {
            TaskInputV::Listing(names) => (TaskState::Live, spec_startup_events(names)),
            TaskInputV::ListingFailed => (
                TaskState::Ended(ExitStatus::ListingFailed),
                Seq::empty(),
            ),
            TaskInputV::Raw(_) => (TaskState::Enumerating, Seq::empty()),
            TaskInputV::Idle => (TaskState::Enumerating, Seq::empty()),
            TaskInputV::ReadFailed => (TaskState::Ended(ExitStatus::ReadFailed), Seq::empty()),
            TaskInputV::DeliveryFailed => (
                TaskState::Ended(ExitStatus::DeliveryFailed),
                Seq::empty(),
            ),
            TaskInputV::Cancel => (TaskState::Ended(ExitStatus::Cancelled), Seq::empty()),
        },
        TaskState::Live => match input {
            TaskInputV::Listing(_) => (TaskState::Live, Seq::empty()),
            TaskInputV::ListingFailed => (TaskState::Live, Seq::empty()),
            TaskInputV::Raw(raw) => (
                TaskState::Live,
                match spec_translate(raw) {
                    Some(e) => seq![e],
                    None => Seq::empty(),
                },
            ),
            TaskInputV::Idle => (TaskState::Live, Seq::empty()),
            TaskInputV::ReadFailed => (TaskState::Ended(ExitStatus::ReadFailed), Seq::empty()),
            TaskInputV::DeliveryFailed => (
                TaskState::Ended(ExitStatus::DeliveryFailed),
                Seq::empty(),
            ),
            TaskInputV::Cancel => (TaskState::Ended(ExitStatus::Cancelled), Seq::empty()),
        },
        TaskState::Ended(st) => (TaskState::Ended(st), Seq::empty()),
    }
}

/// The listing entries that match the watched prefix, in listing order.
pub open spec fn matching_names(names: Seq<Seq<char>>) -> Seq<Seq<char>> {
    names.filter(|n: Seq<char>| spec_name_matches(n))
}

/// One `Added` event, with the joined path, per given short name, in order.
pub open spec fn added_events(names: Seq<Seq<char>>) -> Seq<EventV> {
    names.map_values(|n: Seq<char>| EventV::Added(spec_device_path(n)))
}

/// Law: the startup events are exactly one `Added(path)` per matching entry
/// of the listing, in listing order; non-matching entries contribute
/// nothing.
pub proof fn lemma_startup_events_exact(names: Seq<Seq<char>>)
    ensures
        spec_startup_events(names) == added_events(matching_names(names)),
    decreases names.len(),
{
    reveal(Seq::filter);
    if names.len() == 0 {
        assert(added_events(matching_names(names)) =~= Seq::<EventV>::empty());
    } else {
        let pre = names.drop_last();
        let l = names.last();
        lemma_startup_events_exact(pre);
        if spec_name_matches(l) {
            assert(matching_names(names) == matching_names(pre).push(l));
            assert(added_events(matching_names(pre).push(l)) =~= added_events(
                matching_names(pre),
            ) + seq![EventV::Added(spec_device_path(l))]);
        } else {
            assert(matching_names(names) == matching_names(pre));
            assert(spec_startup_events(names) =~= spec_startup_events(pre));
        }
    }
}

/// The result of feeding a whole sequence of observations to the task: the
/// final state, and everything delivered along the way, concatenated in
/// order.
pub open spec fn spec_run(s: TaskState, inputs: Seq<TaskInputV>) -> (TaskState, Seq<EventV>)
    decreases inputs.len(),
{
    if inputs.len() == 0 {
        (s, Seq::empty())
    } else {
        let head = spec_step(s, inputs.first());
        let tail = spec_run(head.0, inputs.drop_first());
        (tail.0, head.1 + tail.1)
    }
}

/// Law: an ended task stays ended and never delivers another event,
/// whatever is observed afterwards.
pub proof fn lemma_ended_emits_nothing(status: ExitStatus, inputs: Seq<TaskInputV>)
    ensures
        spec_run(TaskState::Ended(status), inputs).0 == TaskState::Ended(status),
        spec_run(TaskState::Ended(status), inputs).1 == Seq::<EventV>::empty(),
    decreases inputs.len(),
{
    if inputs.len() == 0 {
    } else {
        lemma_ended_emits_nothing(status, inputs.drop_first());
        assert(spec_run(TaskState::Ended(status), inputs).1 =~= Seq::<EventV>::empty());
    }
}

/// Law: once cancellation, a read failure or a delivery failure is
/// observed, the step delivers nothing and the task is no longer running;
/// with [`lemma_ended_emits_nothing`], nothing is ever delivered after it.
pub proof fn lemma_stop_is_final(s: TaskState, input: TaskInputV)
    requires
        input == TaskInputV::Cancel || input == TaskInputV::ReadFailed || input
            == TaskInputV::DeliveryFailed,
    ensures
        spec_step(s, input).1 == Seq::<EventV>::empty(),
        !spec_step(s, input).0.spec_is_running(),
{
}

/// Law: a run that begins with a successful listing delivers exactly the
/// startup events first, before anything the live phase delivers.
pub proof fn lemma_enumeration_precedes_live(names: Seq<Seq<char>>, rest: Seq<TaskInputV>)
    ensures
        spec_run(TaskState::Enumerating, seq![TaskInputV::Listing(names)] + rest).1
            == spec_startup_events(names) + spec_run(TaskState::Live, rest).1,
{
    let inputs = seq![TaskInputV::Listing(names)] + rest;
    assert(inputs.first() == TaskInputV::Listing(names));
    assert(inputs.drop_first() =~= rest);
}

/// Synthesize the startup events for a directory listing: exactly one
/// `Added(path)` per short name that matches the watched prefix, in listing
/// order; other entries contribute nothing.
pub fn startup_events(names: &Vec<String>) -> (evs: Vec<Event>)
    ensures
        evs.deep_view() == spec_startup_events(names.deep_view()),
{
    let ghost dv = names.deep_view();
    let mut evs: Vec<Event> = Vec::new();
    let mut i: usize = 0;
    while i < names.len()
        invariant
            i <= names.len(),
            dv == names.deep_view(),
            dv.len() == names@.len(),
            evs.deep_view() == spec_startup_events(dv.take(i as int)),
        decreases names@.len() - i,
    {
        proof {
            assert(dv.take(i + 1).drop_last() =~= dv.take(i as int));
            assert(dv.take(i + 1).last() == dv[i as int]);
            assert(dv[i as int] == names@[i as int]@);
        }
        let name = &names[i];
        if name_matches(name.as_str()) {
            let ghost pre = evs.deep_view();
            evs.push(Event::Added(device_path(name.as_str())));
            proof {
                assert(evs.deep_view() =~= pre + seq![EventV::Added(spec_device_path(dv[i as int]))]);
            }
        }
        i = i + 1;
    }
    proof {
        assert(dv.take(names@.len() as int) =~= dv);
    }
    evs
}

/// An empty delivery.
fn no_events() -> (out: Vec<Event>)
    ensures
        out.deep_view() == Seq::<EventV>::empty(),
{
    let out: Vec<Event> = Vec::new();
    assert(out.deep_view() =~= Seq::<EventV>::empty());
    out
}

impl TaskState {
    /// Whether the task is still in a working phase.
    pub open spec fn spec_is_running(self) -> bool {
        self == TaskState::Enumerating || self == TaskState::Live
    }

    /// Whether the task is still in a working phase; the driver loop's exit
    /// test.
    pub fn is_running(&self) -> (b: bool)
        ensures
            b == self.spec_is_running(),
    {
        match self {
            TaskState::Enumerating => true,
            TaskState::Live => true,
            TaskState::Ended(_) => false,
        }
    }

    /// Advance the task by one observation, returning the events to deliver
    /// to the consumer, in order. The transition taken is exactly
    /// [`spec_step`].
    pub fn step(&mut self, input: TaskInput) -> (out: Vec<Event>)
        ensures
            *final(self) == spec_step(*old(self), input@).0,
            out.deep_view() == spec_step(*old(self), input@).1,
    {
        match *self {
            TaskState::Ended(_) => no_events(),
            TaskState::Enumerating => match input {
                TaskInput::Listing(names) => {
                    *self = TaskState::Live;
                    startup_events(&names)
                },
                TaskInput::ListingFailed => {
                    *self = TaskState::Ended(ExitStatus::ListingFailed);
                    no_events()
                },
                TaskInput::Raw(_) => no_events(),
                TaskInput::Idle => no_events(),
                TaskInput::ReadFailed => {
                    *self = TaskState::Ended(ExitStatus::ReadFailed);
                    no_events()
                },
                TaskInput::DeliveryFailed => {
                    *self = TaskState::Ended(ExitStatus::DeliveryFailed);
                    no_events()
                },
                TaskInput::Cancel => {
                    *self = TaskState::Ended(ExitStatus::Cancelled);
                    no_events()
                },
            },
            TaskState::Live => match input {
                TaskInput::Listing(_) => no_events(),
                TaskInput::ListingFailed => no_events(),
                TaskInput::Raw(raw) => {
                    let mut out = no_events();
                    match Event::from_devd(&raw) {
                        Some(e) => {
                            out.push(e);
                            assert(out.deep_view() =~= seq![spec_step(
                                *old(self),
                                input@,
                            ).1[0]]);
                            out
                        },
                        None => out,
                    }
                },
                TaskInput::Idle => no_events(),
                TaskInput::ReadFailed => {
                    *self = TaskState::Ended(ExitStatus::ReadFailed);
                    no_events()
                },
                TaskInput::DeliveryFailed => {
                    *self = TaskState::Ended(ExitStatus::DeliveryFailed);
                    no_events()
                },
                TaskInput::Cancel => {
                    *self = TaskState::Ended(ExitStatus::Cancelled);
                    no_events()
                },
            },
        }
    }
}

} // verus!
