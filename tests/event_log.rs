use btd6_tool::game::Previous;
use btd6_tool::log::{GameLog, GameLogState, LogData, LogEntry, TowerState};
use btd6_tool::session::session_label;

fn tower(id: &str, base_id: &str, upgrades: &[&str]) -> TowerState {
    TowerState {
        id: id.to_string(),
        base_id: base_id.to_string(),
        upgrades: upgrades.iter().map(|u| u.to_string()).collect(),
    }
}

fn state(time: u64, towers: Vec<TowerState>) -> GameLogState {
    GameLogState { label: "Map Mode".to_string(), seed: 1, time, towers }
}

fn buy_tower(time: u64, base_id: &str, tower_id: &str) -> LogEntry {
    LogEntry { time, data: LogData::BuyTower { base_id: base_id.to_string(), tower_id: tower_id.to_string() } }
}

fn buy_upgrade(time: u64, tower_id: &str, upgrade_id: &str) -> LogEntry {
    LogEntry { time, data: LogData::BuyUpgrade { tower_id: tower_id.to_string(), upgrade_id: upgrade_id.to_string() } }
}

fn sell_tower(time: u64, tower_id: &str) -> LogEntry {
    LogEntry { time, data: LogData::SellTower { tower_id: tower_id.to_string() } }
}

fn same(a: &[LogEntry], b: &[LogEntry]) -> bool {
    format!("{:?}", a) == format!("{:?}", b)
}

#[test]
fn same_state_twice_adds_nothing() {
    let a = state(50, vec![tower("t1", "DART", &["u1", "u2"]), tower("t2", "BOMB", &[])]);
    let mut log = GameLog::new();
    log.entries.push(buy_tower(10, "DART", "t1"));
    log.update(&a, &a);
    assert!(same(&log.entries, &[buy_tower(10, "DART", "t1")]));
}

#[test]
fn first_tower_is_bought() {
    let a = state(0, vec![]);
    let b = state(100, vec![tower("t1", "DART", &[])]);
    let mut log = GameLog::new();
    log.update(&a, &b);
    assert!(same(&log.entries, &[buy_tower(100, "DART", "t1")]));
}

#[test]
fn new_upgrade_is_bought() {
    let b = state(100, vec![tower("t1", "DART", &[])]);
    let c = state(200, vec![tower("t1", "DART", &["u1"])]);
    let mut log = GameLog::new();
    log.update(&b, &c);
    assert!(same(&log.entries, &[buy_upgrade(200, "t1", "u1")]));
}

#[test]
fn removed_tower_is_sold_and_nothing_is_pruned() {
    let a = state(0, vec![]);
    let b = state(100, vec![tower("t1", "DART", &[])]);
    let c = state(200, vec![tower("t1", "DART", &["u1"])]);
    let d = state(300, vec![]);
    let mut log = GameLog::new();
    log.update(&a, &b);
    log.update(&b, &c);
    log.update(&c, &d);
    let expected = [buy_tower(100, "DART", "t1"), buy_upgrade(200, "t1", "u1"), sell_tower(300, "t1")];
    assert!(same(&log.entries, &expected));
    log.update(&d, &d);
    assert!(same(&log.entries, &expected));
}

#[test]
fn tower_seen_upgraded_gets_its_upgrades_after_purchase() {
    let a = state(0, vec![]);
    let b = state(40, vec![tower("t9", "SUB", &["x", "y"])]);
    let mut log = GameLog::new();
    log.update(&a, &b);
    assert!(same(&log.entries, &[buy_tower(40, "SUB", "t9"), buy_upgrade(40, "t9", "x"), buy_upgrade(40, "t9", "y")]));
}

#[test]
fn entries_after_the_new_time_are_dropped() {
    let a = state(500, vec![]);
    let b = state(150, vec![]);
    let mut log = GameLog::new();
    log.entries.push(buy_tower(100, "DART", "t1"));
    log.entries.push(buy_tower(150, "DART", "t2"));
    log.entries.push(buy_tower(400, "DART", "t3"));
    log.update(&a, &b);
    assert!(same(&log.entries, &[buy_tower(100, "DART", "t1"), buy_tower(150, "DART", "t2")]));
}

#[test]
fn mixed_changes_in_one_tick() {
    let a = state(10, vec![tower("t1", "DART", &["a"]), tower("t2", "BOMB", &[])]);
    let b = state(20, vec![tower("t1", "DART", &["a", "b"]), tower("t3", "ICE", &[])]);
    let mut log = GameLog::new();
    log.update(&a, &b);
    assert!(same(&log.entries, &[buy_upgrade(20, "t1", "b"), buy_tower(20, "ICE", "t3"), sell_tower(20, "t2")]));
}

#[test]
fn empty_state_has_no_towers() {
    let s = GameLogState::empty();
    assert_eq!(s.time, 0);
    assert!(s.towers.is_empty());
}

#[test]
fn session_label_joins_map_and_mode() {
    assert_eq!(session_label(&"Monkey Meadow".to_string(), &"Easy".to_string()), "Monkey Meadow Easy");
}

#[test]
fn previous_reports_changes() {
    let mut p = Previous::new();
    assert!(p.set(5));
    assert!(!p.set(5));
    assert!(p.set(6));
    assert_eq!(p.value, Some(6));
}
