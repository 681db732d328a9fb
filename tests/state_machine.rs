use autochess::action_progression::TICKS_PER_UNIT;
use autochess::state_machine::{BattleStateMachine, FRAME_TICKS, WAITING_TICKS};
use autochess::{ActionFault, ActionType, BattleAction, BattleError, BattleEvent, BattleState};

const CYCLE: [BattleState; 6] = [
    BattleState::Init,
    BattleState::Waiting,
    BattleState::Fighting,
    BattleState::Ended,
    BattleState::Result,
    BattleState::NextRound,
];

fn move_action(unit: &str, time: i64) -> BattleAction {
    BattleAction {
        action_type: ActionType::Move,
        unit_id: unit.to_string(),
        target_id: None,
        execution_time: time,
    }
}

fn fighting_machine() -> BattleStateMachine {
    let mut m = BattleStateMachine::new();
    m.transition_to(BattleState::Waiting).unwrap();
    m.transition_to(BattleState::Fighting).unwrap();
    m
}

#[test]
fn test_initial_state() {
    let state_machine = BattleStateMachine::new();
    assert_eq!(*state_machine.get_state(), BattleState::Init);
}

#[test]
fn test_valid_transitions() {
    let mut state_machine = BattleStateMachine::new();
    let result = state_machine.transition_to(BattleState::Waiting);
    assert!(result.is_ok());
    assert_eq!(*state_machine.get_state(), BattleState::Waiting);
    let result = state_machine.transition_to(BattleState::Fighting);
    assert!(result.is_ok());
    assert_eq!(*state_machine.get_state(), BattleState::Fighting);
}

#[test]
fn test_invalid_transition_error() {
    let mut state_machine = BattleStateMachine::new();
    let result = state_machine.transition_to(BattleState::Fighting);
    assert!(result.is_err());
    match result {
        Err(BattleError::InvalidStateTransition(from, to)) => {
            assert_eq!(from, BattleState::Init);
            assert_eq!(to, BattleState::Fighting);
        }
        _ => panic!("Expected InvalidStateTransition error"),
    }
}

#[test]
fn test_history_tracking() {
    let mut state_machine = BattleStateMachine::new();
    let _ = state_machine.transition_to(BattleState::Waiting);
    let _ = state_machine.transition_to(BattleState::Fighting);
    assert_eq!(
        state_machine.get_history(),
        &vec![BattleState::Init, BattleState::Waiting, BattleState::Fighting]
    );
}

#[test]
fn test_waiting_timeout() {
    let mut state_machine = BattleStateMachine::new();
    let _ = state_machine.transition_to(BattleState::Waiting);
    state_machine.tick(61 * TICKS_PER_UNIT);
    assert_eq!(*state_machine.get_state(), BattleState::Fighting);
}

#[test]
fn test_invalid_event_error() {
    let mut state_machine = BattleStateMachine::new();
    let result = state_machine.handle_event(BattleEvent::BattleEnd);
    assert!(result.is_err());
}

#[test]
fn test_state_callbacks() {
    let mut state_machine = BattleStateMachine::new();
    let result = state_machine.transition_to(BattleState::Waiting);
    assert!(result.is_ok());
    assert!(state_machine.waiting_start_time().is_some());
}

#[test]
fn test_state_duration_tracking() {
    let mut state_machine = BattleStateMachine::new();
    let _ = state_machine.transition_to(BattleState::Waiting);
    state_machine.tick(2 * TICKS_PER_UNIT);
    let _ = state_machine.transition_to(BattleState::Fighting);
    let waiting_duration = state_machine.get_state_duration(BattleState::Waiting);
    assert!(waiting_duration.is_some());
    assert!(waiting_duration.unwrap() >= 2 * TICKS_PER_UNIT);
}

#[test]
fn test_action_integration() {
    let mut state_machine = BattleStateMachine::new();
    let _ = state_machine.transition_to(BattleState::Waiting);
    let _ = state_machine.transition_to(BattleState::Fighting);

    let result = state_machine.add_action(move_action("unit1", TICKS_PER_UNIT as i64));
    assert!(result.is_ok());

    for _ in 0..60 {
        state_machine.handle_fighting();
    }

    assert_eq!(*state_machine.get_state(), BattleState::Ended);
}

#[test]
fn legal_cycle_visits_phases_in_order() {
    let mut m = BattleStateMachine::new();
    for n in 1..=13usize {
        let target = CYCLE[n % 6];
        assert!(m.transition_to(target).is_ok());
        assert_eq!(*m.get_state(), CYCLE[n % 6]);
        assert_eq!(m.get_history().len(), n + 1);
    }
}

#[test]
fn illegal_transitions_fail_without_change() {
    for (i, from) in CYCLE.iter().enumerate() {
        for to in CYCLE.iter() {
            if *to == CYCLE[(i + 1) % 6] {
                continue;
            }
            let mut m = BattleStateMachine::new();
            for step in 1..=i {
                m.transition_to(CYCLE[step]).unwrap();
            }
            assert_eq!(*m.get_state(), *from);
            let history = m.get_history().clone();
            let durations: Vec<Option<u64>> = CYCLE.iter().map(|p| m.get_state_duration(*p)).collect();
            let r = m.transition_to(*to);
            assert!(matches!(r, Err(BattleError::InvalidStateTransition(f, t)) if f == *from && t == *to));
            assert_eq!(*m.get_state(), *from);
            assert_eq!(m.get_history(), &history);
            let after: Vec<Option<u64>> = CYCLE.iter().map(|p| m.get_state_duration(*p)).collect();
            assert_eq!(after, durations);
        }
    }
}

#[test]
fn waiting_timeout_enters_fighting_once() {
    let mut m = BattleStateMachine::new();
    m.tick(FRAME_TICKS);
    assert_eq!(*m.get_state(), BattleState::Waiting);
    m.tick(WAITING_TICKS - 1);
    assert_eq!(*m.get_state(), BattleState::Waiting);
    m.tick(1);
    assert_eq!(*m.get_state(), BattleState::Fighting);
    m.tick(FRAME_TICKS);
    m.tick(FRAME_TICKS);
    let fights = m.get_history().iter().filter(|p| **p == BattleState::Fighting).count();
    assert_eq!(fights, 1);
}

#[test]
fn waiting_event_moves_to_fighting() {
    let mut m = BattleStateMachine::new();
    m.transition_to(BattleState::Waiting).unwrap();
    assert!(m.handle_event(BattleEvent::WaitingTimeOut).is_ok());
    assert_eq!(*m.get_state(), BattleState::Fighting);
    assert!(m.waiting_start_time().is_none());
    let r = m.handle_event(BattleEvent::WaitingTimeOut);
    assert!(matches!(
        r,
        Err(BattleError::InvalidEventHandling(BattleEvent::WaitingTimeOut, BattleState::Fighting))
    ));
}

#[test]
fn actions_outside_fighting_are_rejected() {
    for target in [BattleState::Waiting, BattleState::Ended] {
        let mut m = BattleStateMachine::new();
        let mut phase = BattleState::Init;
        let r = m.add_action(move_action("u", 5));
        assert!(matches!(
            r,
            Err(BattleError::InvalidStateTransition(BattleState::Init, BattleState::Fighting))
        ));
        while phase != target {
            m.tick(WAITING_TICKS);
            phase = *m.get_state();
        }
        let r = m.add_action(move_action("u", 5));
        assert!(matches!(r, Err(BattleError::InvalidStateTransition(p, BattleState::Fighting)) if p == target));
        assert!(m.get_remaining_actions().is_empty());
    }
}

#[test]
fn negative_action_time_is_rejected_in_fighting() {
    let mut m = fighting_machine();
    let r = m.add_action(move_action("u", -5));
    assert!(matches!(r, Err(BattleError::InvalidAction(ActionFault::NegativeExecutionTime))));
    assert!(m.get_remaining_actions().is_empty());
}

#[test]
fn reset_returns_to_init_from_every_phase() {
    for steps in 0..6usize {
        let mut m = BattleStateMachine::new();
        for step in 1..=steps {
            m.transition_to(CYCLE[step]).unwrap();
            if CYCLE[step] == BattleState::Fighting {
                m.add_action(move_action("u", 1_000)).unwrap();
                m.tick(3);
            }
        }
        assert!(m.reset().is_ok());
        assert_eq!(*m.get_state(), BattleState::Init);
        assert_eq!(m.get_history(), &vec![BattleState::Init]);
        for p in CYCLE.iter() {
            assert_eq!(m.get_state_duration(*p), None);
        }
        assert!(m.get_remaining_actions().is_empty());
        assert_eq!(m.action_progression().current_time(), 0);
        assert!(m.waiting_start_time().is_none());
    }
}

#[test]
fn durations_accumulate_over_visits() {
    let mut m = BattleStateMachine::new();
    m.tick(5);
    assert_eq!(*m.get_state(), BattleState::Waiting);
    assert_eq!(m.get_state_duration(BattleState::Init), Some(5));
    m.tick(7);
    m.transition_to(BattleState::Fighting).unwrap();
    assert_eq!(m.get_state_duration(BattleState::Waiting), Some(7));
    for p in [BattleState::Ended, BattleState::Result, BattleState::NextRound, BattleState::Init] {
        m.transition_to(p).unwrap();
    }
    m.tick(4);
    assert_eq!(m.get_state_duration(BattleState::Init), Some(9));
}

#[test]
fn leaving_fighting_drops_pending_actions() {
    let mut m = fighting_machine();
    m.add_action(move_action("u", 500)).unwrap();
    m.tick(1);
    m.transition_to(BattleState::Ended).unwrap();
    assert!(m.get_remaining_actions().is_empty());
    assert_eq!(m.action_progression().current_time(), 100);
}

#[test]
fn end_to_end_round() {
    let mut m = BattleStateMachine::new();
    m.tick(FRAME_TICKS);
    assert_eq!(*m.get_state(), BattleState::Waiting);
    m.tick(61 * TICKS_PER_UNIT);
    assert_eq!(*m.get_state(), BattleState::Fighting);
    assert!(m
        .submit_action("u1".to_string(), None, ActionType::Move, TICKS_PER_UNIT as i64)
        .is_ok());
    let mut completed: Vec<BattleAction> = Vec::new();
    let mut ticks = 0;
    while *m.get_state() == BattleState::Fighting {
        completed.extend(m.tick(FRAME_TICKS));
        ticks += 1;
        assert!(ticks <= 61);
    }
    assert_eq!(ticks, 60);
    assert_eq!(m.action_progression().current_time(), 60 * 100);
    assert_eq!(completed.len(), 1);
    assert_eq!(completed[0].unit_id, "u1");
    assert_eq!(completed[0].action_type, ActionType::Move);
    assert!(m.get_remaining_actions().is_empty());
    assert_eq!(*m.get_state(), BattleState::Ended);
}

#[test]
fn update_is_one_frame() {
    let mut m = BattleStateMachine::new();
    m.update();
    assert_eq!(*m.get_state(), BattleState::Waiting);
    assert_eq!(m.now(), FRAME_TICKS);
}
