use autochess::{PlayerData, PlayerManager, XPData};

#[test]
fn new_ledger_holds_the_default_player() {
    let m = PlayerManager::new();
    let p = m.get_player("p1").unwrap();
    assert_eq!(p.id, "p1");
    assert_eq!(p.money, 100);
    assert_eq!(p.xp.current, 0);
    assert_eq!(p.xp.required, 2);
    assert!(m.get_player("p2").is_none());
}

#[test]
fn create_player_starts_with_nothing() {
    let mut m = PlayerManager::new();
    let p = m.create_player("alice");
    assert_eq!(p.id, "alice");
    assert_eq!(p.money, 0);
    assert_eq!((p.xp.current, p.xp.required), (0, 2));
    assert_eq!(m.get_player("alice").unwrap().money, 0);
    assert_eq!(m.get_player("p1").unwrap().money, 100);
}

#[test]
fn update_player_replaces_the_record() {
    let mut m = PlayerManager::new();
    m.update_player(PlayerData {
        id: "p1".to_string(),
        money: 7,
        xp: XPData { current: 1, required: 5 },
    });
    let p = m.get_player("p1").unwrap();
    assert_eq!((p.money, p.xp.current, p.xp.required), (7, 1, 5));
}

#[test]
fn buy_xp_pays_and_levels_up() {
    let mut m = PlayerManager::new();
    let p = m.buy_xp("p1").unwrap();
    assert_eq!((p.money, p.xp.current, p.xp.required), (96, 1, 2));
    let p = m.buy_xp("p1").unwrap();
    assert_eq!((p.money, p.xp.current, p.xp.required), (92, 0, 3));
    for _ in 0..3 {
        m.buy_xp("p1").unwrap();
    }
    let p = m.get_player("p1").unwrap();
    assert_eq!((p.money, p.xp.current, p.xp.required), (80, 0, 5));
}

#[test]
fn buy_xp_for_unknown_player_fails() {
    let mut m = PlayerManager::new();
    assert_eq!(m.buy_xp("nobody").unwrap_err(), "Player not found");
}

#[test]
fn buy_xp_without_money_fails_and_changes_nothing() {
    let mut m = PlayerManager::new();
    m.update_player(PlayerData {
        id: "poor".to_string(),
        money: 3,
        xp: XPData { current: 0, required: 2 },
    });
    assert_eq!(m.buy_xp("poor").unwrap_err(), "not enough money");
    let p = m.get_player("poor").unwrap();
    assert_eq!((p.money, p.xp.current), (3, 0));
}

#[test]
fn requirement_growth_stays_in_range() {
    let mut m = PlayerManager::new();
    m.update_player(PlayerData {
        id: "big".to_string(),
        money: 4,
        xp: XPData { current: i32::MAX, required: i32::MAX },
    });
    let p = m.buy_xp("big").unwrap();
    assert_eq!((p.money, p.xp.current, p.xp.required), (0, 0, i32::MAX));
}

#[test]
fn negative_requirement_rounds_up() {
    let mut m = PlayerManager::new();
    m.update_player(PlayerData {
        id: "odd".to_string(),
        money: 10,
        xp: XPData { current: -10, required: -3 },
    });
    let p = m.buy_xp("odd").unwrap();
    assert_eq!((p.xp.current, p.xp.required), (-9, -3));
    m.update_player(PlayerData {
        id: "odd".to_string(),
        money: 10,
        xp: XPData { current: -3, required: -3 },
    });
    let p = m.buy_xp("odd").unwrap();
    assert_eq!((p.xp.current, p.xp.required), (0, -4));
}
