use autochess::action_progression::{SCALE_ONE, TICKS_PER_UNIT};
use autochess::{ActionFault, ActionProgressionModule, ActionType, BattleAction, BattleError};

fn action(kind: ActionType, unit: &str, target: Option<&str>, time: i64) -> BattleAction {
    BattleAction {
        action_type: kind,
        unit_id: unit.to_string(),
        target_id: target.map(|t| t.to_string()),
        execution_time: time,
    }
}

#[test]
fn test_action_queue() {
    let mut progression = ActionProgressionModule::new();
    let action1 = action(ActionType::Move, "unit1", None, TICKS_PER_UNIT as i64);
    let action2 = action(ActionType::Attack, "unit1", Some("unit2"), 2 * TICKS_PER_UNIT as i64);

    progression.add_action(action1.clone()).unwrap();
    progression.add_action(action2.clone()).unwrap();

    let completed = progression.update(TICKS_PER_UNIT * 3 / 2);
    assert_eq!(completed.len(), 1);
    assert_eq!(completed[0].action_type, ActionType::Move);

    let completed = progression.update(TICKS_PER_UNIT);
    assert_eq!(completed.len(), 1);
    assert_eq!(completed[0].action_type, ActionType::Attack);
}

#[test]
fn test_time_scale() {
    let mut progression = ActionProgressionModule::new();
    progression.set_time_scale(2 * SCALE_ONE as i64);
    progression.add_action(action(ActionType::Move, "unit1", None, TICKS_PER_UNIT as i64)).unwrap();
    let completed = progression.update(TICKS_PER_UNIT / 2);
    assert_eq!(completed.len(), 1);
}

#[test]
fn release_order_is_by_time_then_enqueue_order() {
    let mut q = ActionProgressionModule::new();
    q.add_action(action(ActionType::Move, "a", None, 2 * TICKS_PER_UNIT as i64)).unwrap();
    q.add_action(action(ActionType::Attack, "b", None, TICKS_PER_UNIT as i64)).unwrap();
    q.add_action(action(ActionType::Skill, "c", None, TICKS_PER_UNIT as i64)).unwrap();
    let out = q.update(2 * TICKS_PER_UNIT);
    let ids: Vec<&str> = out.iter().map(|a| a.unit_id.as_str()).collect();
    assert_eq!(ids, vec!["b", "c", "a"]);
    assert!(q.get_remaining_actions().is_empty());
}

#[test]
fn double_scale_moves_clock_by_twice_the_delta() {
    let mut q = ActionProgressionModule::new();
    q.set_time_scale(200);
    q.add_action(action(ActionType::Move, "a", None, 60)).unwrap();
    q.add_action(action(ActionType::Move, "b", None, 61)).unwrap();
    let out = q.update(30);
    assert_eq!(q.current_time(), 60 * SCALE_ONE);
    assert_eq!(out.len(), 1);
    assert_eq!(out[0].unit_id, "a");
    assert_eq!(q.get_remaining_actions().len(), 1);
}

#[test]
fn half_scale_keeps_fractions_of_a_tick() {
    let mut q = ActionProgressionModule::new();
    q.set_time_scale(50);
    q.add_action(action(ActionType::Item, "a", None, 1)).unwrap();
    assert!(q.update(1).is_empty());
    assert_eq!(q.current_time(), 50);
    assert_eq!(q.update(1).len(), 1);
    assert_eq!(q.current_time(), 100);
}

#[test]
fn zero_scale_pauses_the_clock() {
    let mut q = ActionProgressionModule::new();
    q.set_time_scale(0);
    q.add_action(action(ActionType::Move, "a", None, 1)).unwrap();
    assert!(q.update(1_000).is_empty());
    assert_eq!(q.current_time(), 0);
    assert_eq!(q.get_remaining_actions().len(), 1);
}

#[test]
fn negative_scale_is_clamped_to_zero() {
    let mut q = ActionProgressionModule::new();
    q.set_time_scale(-150);
    assert_eq!(q.time_scale(), 0);
}

#[test]
fn negative_time_is_rejected_and_changes_nothing() {
    let mut q = ActionProgressionModule::new();
    let r = q.add_action(action(ActionType::Move, "a", None, -1));
    assert!(matches!(r, Err(BattleError::InvalidAction(ActionFault::NegativeExecutionTime))));
    assert!(q.get_remaining_actions().is_empty());
}

#[test]
fn zero_delta_after_an_advance_releases_nothing() {
    let mut q = ActionProgressionModule::new();
    q.add_action(action(ActionType::Move, "a", None, 10)).unwrap();
    q.add_action(action(ActionType::Move, "b", None, 20)).unwrap();
    assert_eq!(q.update(10).len(), 1);
    assert!(q.update(0).is_empty());
    assert_eq!(q.get_remaining_actions()[0].unit_id, "b");
}

#[test]
fn action_due_at_time_zero_fires_on_zero_delta() {
    let mut q = ActionProgressionModule::new();
    q.add_action(action(ActionType::Move, "a", None, 0)).unwrap();
    assert_eq!(q.update(0).len(), 1);
}

#[test]
fn clear_empties_queue_and_resets_clock() {
    let mut q = ActionProgressionModule::new();
    q.set_time_scale(300);
    q.add_action(action(ActionType::Move, "a", None, 500)).unwrap();
    q.update(5);
    q.clear();
    assert!(q.get_remaining_actions().is_empty());
    assert_eq!(q.current_time(), 0);
    assert_eq!(q.time_scale(), 300);
}

#[test]
fn clock_stops_at_its_largest_value() {
    let mut q = ActionProgressionModule::new();
    q.set_time_scale(i64::MAX);
    q.update(u64::MAX);
    assert_eq!(q.current_time(), u64::MAX);
    q.add_action(action(ActionType::Move, "a", None, i64::MAX)).unwrap();
    assert!(q.update(1).is_empty());
}
