use wombo::{Race, RaceAction, RaceEvent};

fn run(events: Vec<RaceEvent<usize>>) -> (Race<usize>, Vec<RaceAction>) {
    let mut race = Race::start();
    let mut actions = Vec::new();
    for event in events {
        let (next, action) = race.step(event);
        race = next;
        actions.push(action);
    }
    (race, actions)
}

fn value(race: Race<usize>) -> Option<Option<usize>> {
    match race {
        Race::Done(v) => Some(v),
        _ => None,
    }
}

// A ten second timer interrupted after a tenth of a second: the interrupt message comes first,
// and no cancel hook is registered.
#[test]
fn should_interrupt_timer_without_callback() {
    let (race, actions) = run(vec![RaceEvent::Signal(Some(true)), RaceEvent::HookFound(false)]);
    assert_eq!(actions, vec![RaceAction::TakeHook, RaceAction::Wait]);
    assert_eq!(value(race), Some(None));
}

// The same with a cancel hook that resolves with 2.
#[test]
fn should_interrupt_timer_with_callback() {
    let (race, actions) = run(vec![
        RaceEvent::Signal(Some(true)),
        RaceEvent::HookFound(true),
        RaceEvent::HookResolved(Some(2)),
    ]);
    assert_eq!(actions, vec![RaceAction::TakeHook, RaceAction::RunHook, RaceAction::Wait]);
    assert_eq!(value(race), Some(Some(2)));
}

#[test]
fn work_value_wins_without_cancel() {
    let (race, actions) = run(vec![RaceEvent::WorkResolved(Some(1)), RaceEvent::Signal(Some(false))]);
    assert_eq!(actions, vec![RaceAction::SendStop, RaceAction::Wait]);
    assert_eq!(value(race), Some(Some(1)));
    let (race, _) = run(vec![RaceEvent::Signal(None), RaceEvent::WorkResolved(Some(1))]);
    assert_eq!(value(race), Some(Some(1)));
}

#[test]
fn cancel_queued_before_stop_wins() {
    let (race, _) = run(vec![
        RaceEvent::WorkResolved(Some(1)),
        RaceEvent::Signal(Some(true)),
        RaceEvent::HookFound(true),
        RaceEvent::HookResolved(Some(2)),
    ]);
    assert_eq!(value(race), Some(Some(2)));
}

#[test]
fn failing_work_resolves_none() {
    let (race, actions) = run(vec![RaceEvent::WorkResolved(None)]);
    assert_eq!(actions, vec![RaceAction::SendStop]);
    assert_eq!(value(race), Some(None));
    let (race, _) = run(vec![
        RaceEvent::Signal(Some(true)),
        RaceEvent::HookFound(true),
        RaceEvent::WorkResolved(None),
    ]);
    assert_eq!(value(race), Some(None));
}

#[test]
fn failing_hook_resolves_none() {
    let (race, _) = run(vec![
        RaceEvent::Signal(Some(true)),
        RaceEvent::HookFound(true),
        RaceEvent::WorkResolved(Some(1)),
        RaceEvent::HookResolved(None),
    ]);
    assert_eq!(value(race), Some(None));
}

#[test]
fn resolution_is_final() {
    let (race, actions) = run(vec![
        RaceEvent::WorkResolved(Some(1)),
        RaceEvent::Signal(None),
        RaceEvent::Signal(Some(true)),
        RaceEvent::WorkResolved(None),
        RaceEvent::HookResolved(Some(9)),
    ]);
    assert_eq!(actions[2..], [RaceAction::Wait, RaceAction::Wait, RaceAction::Wait]);
    assert!(race.is_done());
    assert_eq!(value(race), Some(Some(1)));
}

#[test]
fn fresh_race_is_not_done() {
    assert!(!Race::<usize>::start().is_done());
}
