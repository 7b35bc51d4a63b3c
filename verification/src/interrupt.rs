//! The decisions of an interruptible event loop future.
//!
//! An event loop runs a future (the loop's work) beside a receiver of interrupt messages. The
//! first message decides: `true` asks to cancel, `false` (sent by the work when it ends) or the
//! end of the channel means no cancel. On a cancel the registered cancel hook, if any, runs,
//! and its value is what the loop resolves with; without a hook the loop resolves with `None`.
//! Otherwise the loop resolves with the work's value, or `None` when the work failed.
//!
//! The futures that produce the events are driven by the caller, which hands each event to
//! `Race::step` and performs the action that it returns.
use vstd::prelude::*;

verus! {

/// Where an interruptible loop stands.
pub enum Race<T> {
    /// Neither the work nor the interrupt channel has resolved.
    Racing,
    /// The work resolved with this value; the first interrupt message is awaited.
    Finished(T),
    /// The first interrupt message asked for no cancel; the work is awaited.
    Uncanceled,
    /// The first interrupt message asked to cancel; the cancel hook is looked up.
    Canceling,
    /// The cancel hook runs.
    Hooked,
    /// The loop resolved with this value.
    Done(Option<T>),
}

/// What happened to an interruptible loop.
pub enum RaceEvent<T> {
    /// The work resolved: `Some` value on success, `None` on failure.
    WorkResolved(Option<T>),
    /// The interrupt channel resolved with its first message, or with `None` when it ended or
    /// failed.
    Signal(Option<bool>),
    /// The cancel hook was taken from its slot: whether there was one.
    HookFound(bool),
    /// The cancel hook resolved: `Some` value on success, `None` on failure.
    HookResolved(Option<T>),
}

/// What the driver does after an event.
#[derive(Clone, Copy, Debug, PartialEq, Eq, Structural)]
pub enum RaceAction {
    /// Nothing: keep polling.
    Wait,
    /// Send `false` on the interrupt channel: the work has ended.
    SendStop,
    /// Take the cancel hook out of its slot and report whether there was one.
    TakeHook,
    /// Run the cancel hook that was taken.
    RunHook,
}

/// The next state of a loop in state `race` after `event`, and the action to perform.
pub open spec fn race_next<T>(race: Race<T>, event: RaceEvent<T>) -> (Race<T>, RaceAction) {
    match race {
        Race::Done(v) => (Race::Done(v), RaceAction::Wait),
        Race::Racing => match event {
            RaceEvent::WorkResolved(Some(v)) => (Race::Finished(v), RaceAction::SendStop),
            RaceEvent::WorkResolved(None) => (Race::Done(None), RaceAction::SendStop),
            RaceEvent::Signal(Some(true)) => (Race::Canceling, RaceAction::TakeHook),
            RaceEvent::Signal(_) => (Race::Uncanceled, RaceAction::Wait),
            _ => (Race::Racing, RaceAction::Wait),
        },
        Race::Finished(v) => match event {
            RaceEvent::Signal(Some(true)) => (Race::Canceling, RaceAction::TakeHook),
            RaceEvent::Signal(_) => (Race::Done(Some(v)), RaceAction::Wait),
            _ => (Race::Finished(v), RaceAction::Wait),
        },
        Race::Uncanceled => match event {
            RaceEvent::WorkResolved(r) => (Race::Done(r), RaceAction::SendStop),
            _ => (Race::Uncanceled, RaceAction::Wait),
        },
        Race::Canceling => match event {
            RaceEvent::WorkResolved(Some(_)) => (Race::Canceling, RaceAction::SendStop),
            RaceEvent::WorkResolved(None) => (Race::Done(None), RaceAction::SendStop),
            RaceEvent::HookFound(true) => (Race::Hooked, RaceAction::RunHook),
            RaceEvent::HookFound(false) => (Race::Done(None), RaceAction::Wait),
            _ => (Race::Canceling, RaceAction::Wait),
        },
        Race::Hooked => match event {
            RaceEvent::WorkResolved(Some(_)) => (Race::Hooked, RaceAction::SendStop),
            RaceEvent::WorkResolved(None) => (Race::Done(None), RaceAction::SendStop),
            RaceEvent::HookResolved(r) => (Race::Done(r), RaceAction::Wait),
            _ => (Race::Hooked, RaceAction::Wait),
        },
    }
}

impl<T> Race<T> {
    /// The state of a loop that has just started.
    pub fn start() -> (race: Race<T>)
        ensures
            race == Race::<T>::Racing,
    {
        Race::Racing
    }

    /// Hands `event` to the loop: the next state, and the action that the driver performs.
    pub fn step(self, event: RaceEvent<T>) -> (next: (Race<T>, RaceAction))
        ensures
            next == race_next(self, event),
    {
        match self {
            Race::Done(v) => (Race::Done(v), RaceAction::Wait),
            Race::Racing => match event {
                RaceEvent::WorkResolved(Some(v)) => (Race::Finished(v), RaceAction::SendStop),
                RaceEvent::WorkResolved(None) => (Race::Done(None), RaceAction::SendStop),
                RaceEvent::Signal(Some(true)) => (Race::Canceling, RaceAction::TakeHook),
                RaceEvent::Signal(_) => (Race::Uncanceled, RaceAction::Wait),
                _ => (Race::Racing, RaceAction::Wait),
            },
            Race::Finished(v) => match event {
                RaceEvent::Signal(Some(true)) => (Race::Canceling, RaceAction::TakeHook),
                RaceEvent::Signal(_) => (Race::Done(Some(v)), RaceAction::Wait),
                _ => (Race::Finished(v), RaceAction::Wait),
            },
            Race::Uncanceled => match event {
                RaceEvent::WorkResolved(r) => (Race::Done(r), RaceAction::SendStop),
                _ => (Race::Uncanceled, RaceAction::Wait),
            },
            Race::Canceling => match event {
                RaceEvent::WorkResolved(Some(_)) => (Race::Canceling, RaceAction::SendStop),
                RaceEvent::WorkResolved(None) => (Race::Done(None), RaceAction::SendStop),
                RaceEvent::HookFound(true) => (Race::Hooked, RaceAction::RunHook),
                RaceEvent::HookFound(false) => (Race::Done(None), RaceAction::Wait),
                _ => (Race::Canceling, RaceAction::Wait),
            },
            Race::Hooked => match event {
                RaceEvent::WorkResolved(Some(_)) => (Race::Hooked, RaceAction::SendStop),
                RaceEvent::WorkResolved(None) => (Race::Done(None), RaceAction::SendStop),
                RaceEvent::HookResolved(r) => (Race::Done(r), RaceAction::Wait),
                _ => (Race::Hooked, RaceAction::Wait),
            },
        }
    }

    /// Whether the loop has resolved.
    pub fn is_done(&self) -> (done: bool)
        ensures
            done <==> self is Done,
    {
        match self {
            Race::Done(_) => true,
            _ => false,
        }
    }
}

/// The state of a loop in state `race` after `events`, one after the other.
pub open spec fn race_run<T>(race: Race<T>, events: Seq<RaceEvent<T>>) -> Race<T>
    decreases events.len(),
{
    if events.len() == 0 {
        race
    } else {
        race_run(race_next(race, events[0]).0, events.drop_first())
    }
}

/// Whether a value is the one that the work or the cancel hook resolved with in `events`.
pub open spec fn produced_by<T>(value: T, events: Seq<RaceEvent<T>>) -> bool {
    exists|i: int|
        0 <= i < events.len() && (#[trigger] events[i] == RaceEvent::WorkResolved(Some(value))
            || events[i] == RaceEvent::HookResolved(Some(value)))
}

/// Running two lists of events one after the other is running their concatenation.
proof fn lemma_run_concat<T>(race: Race<T>, first: Seq<RaceEvent<T>>, second: Seq<RaceEvent<T>>)
    ensures
        race_run(race, first + second) == race_run(race_run(race, first), second),
    decreases first.len(),
{
    if first.len() > 0 {
        assert((first + second).drop_first() =~= first.drop_first() + second);
        lemma_run_concat(race_next(race, first[0]).0, first.drop_first(), second);
    } else {
        assert(first + second =~= second);
    }
}

/// A loop that has resolved stays resolved with the same value, whatever happens after, and
/// asks the driver for nothing more.
pub proof fn lemma_resolution_is_final<T>(value: Option<T>, events: Seq<RaceEvent<T>>)
    ensures
        race_run(Race::Done(value), events) == Race::<T>::Done(value),
        forall|e: RaceEvent<T>| #[trigger] race_next(Race::Done(value), e) == (Race::<T>::Done(value), RaceAction::Wait),
    decreases events.len(),
{
    if events.len() > 0 {
        lemma_resolution_is_final(value, events.drop_first());
    }
}

/// Without a cancel request, a loop resolves with its work's value, whichever of the work and
/// the interrupt channel resolves first; when the work resolves, the driver is asked to send
/// the stop message.
pub proof fn lemma_work_value_without_cancel<T>(value: T, signal: Option<bool>)
    requires
        signal != Some(true),
    ensures
        race_next(Race::Racing, RaceEvent::WorkResolved(Some(value))).1 == RaceAction::SendStop,
        race_run(Race::Racing, seq![RaceEvent::WorkResolved(Some(value)), RaceEvent::Signal(signal)])
            == Race::Done(Some(value)),
        race_run(Race::Racing, seq![RaceEvent::Signal(signal), RaceEvent::WorkResolved(Some(value))])
            == Race::Done(Some(value)),
{
    reveal_with_fuel(race_run, 3);
}

/// A loop whose work fails before any cancel request resolves with `None`, whichever of the
/// work and the interrupt channel resolves first.
pub proof fn lemma_failed_work_without_cancel<T>(signal: Option<bool>)
    requires
        signal != Some(true),
    ensures
        race_run(Race::<T>::Racing, seq![RaceEvent::WorkResolved(None), RaceEvent::Signal(signal)])
            == Race::<T>::Done(None),
        race_run(Race::<T>::Racing, seq![RaceEvent::Signal(signal), RaceEvent::WorkResolved(None)])
            == Race::<T>::Done(None),
{
    reveal_with_fuel(race_run, 3);
}

/// A loop that is still running resolves with `None` as soon as its work fails.
pub proof fn lemma_failed_work_resolves_none<T>(race: Race<T>)
    requires
        race is Racing || race is Uncanceled || race is Canceling || race is Hooked,
    ensures
        race_next(race, RaceEvent::WorkResolved(None)) == (Race::<T>::Done(None), RaceAction::SendStop),
{
}

/// A cancel request that comes first, while a cancel hook is registered, runs the hook, and
/// the loop resolves with the hook's value (`None` where the hook fails), even where the work
/// resolves with a value while the hook runs.
pub proof fn lemma_cancel_with_hook<T>(race: Race<T>, works: Seq<T>, hook: Option<T>)
    requires
        race is Racing || race is Finished,
    ensures
        race_next(race, RaceEvent::Signal(Some(true))) == (Race::<T>::Canceling, RaceAction::TakeHook),
        race_next(Race::<T>::Canceling, RaceEvent::HookFound(true)) == (Race::<T>::Hooked, RaceAction::RunHook),
        race_run(
            race,
            seq![RaceEvent::Signal(Some(true)), RaceEvent::HookFound(true)]
                + works.map_values(|w: T| RaceEvent::WorkResolved(Some(w)))
                + seq![RaceEvent::HookResolved(hook)],
        ) == Race::Done(hook),
{
    let start = seq![RaceEvent::Signal(Some(true)), RaceEvent::HookFound(true)];
    let middle = works.map_values(|w: T| RaceEvent::WorkResolved(Some(w)));
    let end = seq![RaceEvent::HookResolved(hook)];
    reveal_with_fuel(race_run, 3);
    assert(race_run(race, start) == Race::<T>::Hooked);
    lemma_hooked_ignores_work_values(works);
    lemma_run_concat(race, start, middle);
    lemma_run_concat(race, start + middle, end);
}

/// While the cancel hook runs, values of the work change nothing.
proof fn lemma_hooked_ignores_work_values<T>(works: Seq<T>)
    ensures
        race_run(Race::<T>::Hooked, works.map_values(|w: T| RaceEvent::WorkResolved(Some(w))))
            == Race::<T>::Hooked,
    decreases works.len(),
{
    let events = works.map_values(|w: T| RaceEvent::WorkResolved(Some(w)));
    if works.len() > 0 {
        assert(events.drop_first() =~= works.drop_first().map_values(
            |w: T| RaceEvent::WorkResolved(Some(w)),
        ));
        lemma_hooked_ignores_work_values(works.drop_first());
    }
}

/// A cancel request that comes first, while no cancel hook is registered, resolves the loop
/// with `None`.
pub proof fn lemma_cancel_without_hook<T>(race: Race<T>)
    requires
        race is Racing || race is Finished,
    ensures
        race_run(race, seq![RaceEvent::Signal(Some(true)), RaceEvent::HookFound(false)])
            == Race::<T>::Done(None),
{
    reveal_with_fuel(race_run, 3);
}

/// A loop resolves with a value only where the work or the cancel hook resolved with it.
pub proof fn lemma_value_comes_from_work_or_hook<T>(events: Seq<RaceEvent<T>>, value: T)
    requires
        race_run(Race::Racing, events) == Race::Done(Some(value)),
    ensures
        produced_by(value, events),
{
    lemma_value_origin(Race::Racing, events, value);
}

/// Where a run ends resolved with a value, the value was held by the starting state or
/// produced by one of the events.
proof fn lemma_value_origin<T>(race: Race<T>, events: Seq<RaceEvent<T>>, value: T)
    requires
        race_run(race, events) == Race::Done(Some(value)),
    ensures
        race == Race::Done(Some(value)) || race == Race::Finished(value) || produced_by(value, events),
    decreases events.len(),
{
    if events.len() > 0 {
        let next = race_next(race, events[0]).0;
        lemma_value_origin(next, events.drop_first(), value);
        if produced_by(value, events.drop_first()) {
            let i = choose|i: int|
                0 <= i < events.drop_first().len() && (#[trigger] events.drop_first()[i]
                    == RaceEvent::WorkResolved(Some(value)) || events.drop_first()[i]
                    == RaceEvent::HookResolved(Some(value)));
            assert(events[i + 1] == events.drop_first()[i]);
        } else if next == Race::Done(Some(value)) || next == Race::Finished(value) {
            if !(race == Race::Done(Some(value)) || race == Race::Finished(value)) {
                assert(events[0] == RaceEvent::WorkResolved(Some(value)) || events[0]
                    == RaceEvent::HookResolved(Some(value)));
            }
        }
    }
}

/// Each action answers one kind of event: the cancel hook is taken only on a cancel signal
/// that comes while the interrupt channel is awaited, it runs only when it was found, and the
/// stop message is sent exactly when the work resolves while it is awaited.
pub proof fn lemma_actions_answer_their_events<T>(race: Race<T>, event: RaceEvent<T>)
    ensures
        race_next(race, event).1 == RaceAction::TakeHook <==> ((race is Racing || race is Finished)
            && event == RaceEvent::<T>::Signal(Some(true))),
        race_next(race, event).1 == RaceAction::RunHook <==> (race is Canceling && event
            == RaceEvent::<T>::HookFound(true)),
        race_next(race, event).1 == RaceAction::SendStop <==> (event is WorkResolved && (race is Racing
            || race is Uncanceled || race is Canceling || race is Hooked)),
{
}

/// Once the cancel hook runs, the loop resolves only with the hook's value, or with `None`
/// where the work fails first; any other event leaves it waiting for the hook.
pub proof fn lemma_running_hook_decides<T>(event: RaceEvent<T>)
    ensures
        race_next(Race::<T>::Hooked, event).0 is Done <==> (event is HookResolved || event
            == RaceEvent::<T>::WorkResolved(None)),
        !(race_next(Race::<T>::Hooked, event).0 is Done) ==> race_next(Race::<T>::Hooked, event).0
            == Race::<T>::Hooked,
        event matches RaceEvent::HookResolved(r) ==> race_next(Race::<T>::Hooked, event).0
            == Race::<T>::Done(r),
        event is WorkResolved ==> race_next(Race::<T>::Hooked, event).1 == RaceAction::SendStop,
{
}

} // verus!
