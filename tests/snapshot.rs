use std::collections::HashMap;

use btd6_tool::game::{upgrade_became_affordable, BloonsGame, GameState, GameSummary, TYPE_OFFSET_IN_GAME};
use btd6_tool::heap::SyntheticHeap;
use btd6_tool::log::{GameLog, GameLogState, LogData};
use btd6_tool::memory::ReadError;
use btd6_tool::object::{from_pointer, RemoteObject};
use btd6_tool::schema::{self, INVALID_OBJECT_ID};
use btd6_tool::snapshot::{TowerLookup, Upgrade, UpgradeLookup};
use btd6_tool::summary::{self, InGameSummary, ModelCache};

const BASE: u64 = 0x1000_0000;

/// A synthetic game heap, laid out object by object.
struct Fixture {
    heap: SyntheticHeap,
    next: u64,
    types: HashMap<String, u64>,
}

impl Fixture {
    fn new() -> Fixture {
        Fixture { heap: SyntheticHeap::new(BASE, 0x10_0000, 16), next: BASE + 0x4_0000, types: HashMap::new() }
    }

    fn type_info(&mut self, name: &str) -> u64 {
        if let Some(t) = self.types.get(name) {
            return *t;
        }
        let info = BASE + self.types.len() as u64 * 0x600;
        let name_at = info + 0x100;
        self.heap.write_bytes(name_at, name.as_bytes());
        self.heap.write_u64(info + 0x10, name_at);
        self.types.insert(name.to_string(), info);
        info
    }

    /// A zeroed object of runtime type `name` with room for `size` bytes of fields.
    fn object(&mut self, name: &str, size: u64) -> u64 {
        let info = self.type_info(name);
        let at = self.next;
        self.next += (0x10 + size + 0xf) & !0xf;
        self.heap.write_u64(at, info);
        at
    }

    fn string(&mut self, text: &str) -> u64 {
        let at = self.object("String", 0x8 + 2 * text.len() as u64);
        self.heap.write_string_object(at, text).unwrap();
        at
    }

    fn pointer_array(&mut self, items: &[u64]) -> u64 {
        let at = self.object("Object[]", 0x10 + 8 * items.len() as u64);
        self.heap.write_u32(at + 0x18, items.len() as u32);
        for (i, p) in items.iter().enumerate() {
            self.heap.write_u64(at + 0x20 + 8 * i as u64, *p);
        }
        at
    }

    fn u32_array(&mut self, items: &[u32]) -> u64 {
        let at = self.object("UInt32[]", 0x10 + 4 * items.len() as u64);
        self.heap.write_u32(at + 0x18, items.len() as u32);
        for (i, v) in items.iter().enumerate() {
            self.heap.write_u32(at + 0x20 + 4 * i as u64, *v);
        }
        at
    }

    fn list(&mut self, items: &[u64]) -> u64 {
        let array = self.pointer_array(items);
        let at = self.object("List`1", 0x10);
        self.heap.write_u64(at + 0x10, array);
        self.heap.write_u32(at + 0x18, items.len() as u32);
        at
    }

    fn dictionary(&mut self, entries: &[(u64, u64)]) -> u64 {
        let table = self.object("Entry[]", 0x10 + 0x18 * entries.len() as u64);
        self.heap.write_u32(table + 0x18, entries.len() as u32);
        for (i, (k, v)) in entries.iter().enumerate() {
            self.heap.write_u64(table + 0x28 + 0x18 * i as u64, *k);
            self.heap.write_u64(table + 0x30 + 0x18 * i as u64, *v);
        }
        let at = self.object("Dictionary`2", 0x18);
        self.heap.write_u64(at + 0x18, table);
        self.heap.write_u32(at + 0x20, entries.len() as u32);
        at
    }

    fn konfuze(&mut self, name: &str, value: f64) -> u64 {
        let at = self.object(name, 0x10);
        self.heap.write_u64(at + 0x28, value.to_bits());
        at
    }

    fn set(&mut self, object: u64, offset: u64, value: u64) {
        self.heap.write_u64(object + 0x10 + offset, value);
    }
}

struct Game {
    fixture: Fixture,
    module_base: u64,
    simulation: u64,
    game_model: u64,
}

fn tower_model(f: &mut Fixture, base_id: &str, set: u32, links: &[u64], applied: &[&str]) -> u64 {
    let at = f.object("TowerModel", 0xe0);
    let id = f.string(base_id);
    f.set(at, 0x28, id);
    f.heap.write_u32(at + 0x10 + 0x44, 2);
    let tiers = f.u32_array(&[0, 1, 0]);
    f.set(at, 0x48, tiers);
    f.heap.write_u32(at + 0x10 + 0x50, set);
    let links = f.pointer_array(links);
    f.set(at, 0xb8, links);
    let applied: Vec<u64> = applied.iter().map(|a| f.string(a)).collect();
    let applied = f.pointer_array(&applied);
    f.set(at, 0xc0, applied);
    at
}

fn placed_tower(f: &mut Fixture, id: &str, model: u64, parent: u32, worth: f32) -> u64 {
    let at = f.object("Tower", 0xe0);
    let entity = f.object("Entity", 0x70);
    f.set(at, 0x38, entity);
    let id = f.string(id);
    f.set(at, 0x90, id);
    f.heap.write_u32(at + 0x10 + 0x98, worth.to_bits());
    f.heap.write_u32(at + 0x10 + 0xc4, parent);
    f.set(at, 0xd0, model);
    at
}

/// A match on "Meadow" in "Easy": one dart monkey with one upgrade applied,
/// one sub-tower it made, one upgrade model.
fn game() -> Game {
    let mut f = Fixture::new();

    let upgrade = f.object("UpgradeModel", 0x40);
    let name = f.string("Sharp Shots");
    f.set(upgrade, 0x0, name);
    f.heap.write_u32(upgrade + 0x10 + 0x20, 140);
    f.heap.write_u32(upgrade + 0x10 + 0x30, 0);
    f.heap.write_u32(upgrade + 0x10 + 0x34, 1);
    let link = f.object("UpgradePathModel", 0x10);
    let link_name = f.string("Sharp Shots");
    f.set(link, 0x8, link_name);

    let dart = tower_model(&mut f, "DartMonkey", 1, &[link], &["Sharp Shots"]);

    let game_model = f.object("GameModel", 0x110);
    let map_model = f.object("MapModel", 0x80);
    let map_name = f.string("Meadow");
    f.set(map_model, 0x70, map_name);
    f.set(game_model, 0xd0, map_model);
    let mode = f.string("Easy");
    f.set(game_model, 0x78, mode);
    f.heap.write_u32(game_model + 0x10 + 0x84, 42);
    let towers = f.pointer_array(&[dart]);
    f.set(game_model, 0xf0, towers);
    let upgrades = f.pointer_array(&[upgrade]);
    f.set(game_model, 0xf8, upgrades);

    let t1 = placed_tower(&mut f, "t1", dart, INVALID_OBJECT_ID, 170.0);
    let child = placed_tower(&mut f, "t1-child", dart, 7, 0.0);
    let area = f.list(&[t1, child]);
    let by_area = f.dictionary(&[(0x1234, area)]);

    let paths = f.list(&[]);
    let path_manager = f.object("PathManager", 0x50);
    f.set(path_manager, 0x48, paths);
    let round = f.konfuze("KonFuze_NoShuffle", 12.0);
    let spawner = f.object("Spawner", 0xf0);
    f.set(spawner, 0xe8, round);

    let map = f.object("Map", 0xa0);
    f.set(map, 0x80, path_manager);
    f.set(map, 0x88, spawner);
    f.set(map, 0x98, by_area);

    let cash = f.konfuze("KonFuze", 650.0);
    let manager = f.object("CashManager", 0x10);
    f.set(manager, 0x0, cash);
    let player = f.object("Player", 0x10);
    let cash_managers = f.dictionary(&[(player, manager)]);
    let health = f.konfuze("KonFuze", 150.0);
    let clock = f.object("Time", 0x10);
    f.heap.write_u32(clock + 0x10, 1234);

    let simulation = f.object("Simulation", 0x410);
    f.set(simulation, 0x10, game_model);
    f.set(simulation, 0x20, clock);
    f.set(simulation, 0x3d8, cash_managers);
    f.set(simulation, 0x3f8, health);
    f.set(simulation, 0x400, map);

    let bridge = f.object("UnityToSimulation", 0x20);
    f.set(bridge, 0x18, simulation);
    let input = f.object("InputManager", 0x1b0);
    let ingame = f.object("InGame", 0x170);
    f.set(ingame, 0x60, input);
    f.set(ingame, 0xb8, bridge);

    let statics = f.object("Statics", 0x10);
    f.heap.write_u64(statics, ingame);
    let class = f.object("Il2CppClass", 0xc0);
    f.heap.write_u64(class + 0xb8, statics);
    let root_slot = f.object("Slot", 0x10);
    f.heap.write_u64(root_slot, class);

    Game { fixture: f, module_base: root_slot - TYPE_OFFSET_IN_GAME, simulation, game_model }
}

#[test]
fn snapshot_of_a_match() {
    let g = game();
    let heap = &g.fixture.heap;
    let mut tracker = BloonsGame::new(g.module_base);
    let state = match tracker.get_state(heap) {
        GameState::InGame(s) => s,
        GameState::NotInGame => panic!("expected a match"),
    };
    assert_eq!(state.model.map_name, "Meadow");
    assert_eq!(state.model.game_mode, "Easy");
    assert_eq!(state.model.seed, 42);
    assert_eq!(state.model.upgrades.upgrades, vec![Upgrade { id: "Sharp Shots".to_string(), path: 0, tier: 1, cost: 140 }]);
    assert_eq!(state.model.towers.towers.len(), 1);
    assert_eq!(state.model.towers.towers[0].id, "DartMonkey");
    assert_eq!(state.model.towers.towers[0].tiers, [0, 1, 0]);
    assert_eq!(state.model.towers.towers[0].applied_upgrades, vec![0]);
    assert_eq!(state.model.towers.towers[0].available_upgrades, vec![0]);
    assert_eq!(state.towers.len(), 1);
    assert_eq!(state.towers[0].id, "t1");
    assert_eq!(state.towers[0].kind, 0);
    assert_eq!(f32::from_bits(state.towers[0].worth_bits), 170.0);
    assert_eq!(f64::from_bits(state.cash_bits), 650.0);
    assert_eq!(f64::from_bits(state.round_bits), 12.0);
    assert_eq!(f64::from_bits(state.lives_bits), 150.0);
    assert!(state.paths.is_empty());
    assert_eq!(state.selected_tower, None);
    assert_eq!(tracker.ingame_addr.value.is_some(), true);
    assert!(tracker.model_cache.is_some());
    assert!(upgrade_became_affordable(&state, 100, 650));
    assert!(!upgrade_became_affordable(&state, 141, 650));
    assert!(!upgrade_became_affordable(&state, 0, 140));

    let again = tracker.get_state(heap);
    assert_eq!(again, GameState::InGame(state));
}

#[test]
fn no_match_without_a_scene() {
    let mut g = game();
    let root_slot = g.module_base + TYPE_OFFSET_IN_GAME;
    let class = {
        let heap = &g.fixture.heap;
        btd6_tool::scalar::read_u64(heap, root_slot).unwrap()
    };
    let statics = btd6_tool::scalar::read_u64(&g.fixture.heap, class + 0xb8).unwrap();
    g.fixture.heap.write_u64(statics, 0);
    let mut tracker = BloonsGame::new(g.module_base);
    assert_eq!(tracker.get_ingame(&g.fixture.heap).map(|o| o.is_none()), Ok(true));
    assert_eq!(tracker.get_state(&g.fixture.heap), GameState::NotInGame);
    let mut lost = BloonsGame::new(0);
    assert_eq!(lost.get_state(&g.fixture.heap), GameState::NotInGame);
}

#[test]
fn log_state_of_a_match() {
    let g = game();
    let heap = &g.fixture.heap;
    let sim: schema::Simulation = from_pointer(heap, g.simulation).unwrap();
    let state = GameLogState::load(&sim, heap).unwrap();
    assert_eq!(state.label, "Meadow Easy");
    assert_eq!(state.seed, 42);
    assert_eq!(state.time, 1234);
    assert_eq!(state.towers.len(), 1);
    assert_eq!(state.towers[0].id, "t1");
    assert_eq!(state.towers[0].base_id, "DartMonkey");
    assert_eq!(state.towers[0].upgrades, vec!["Sharp Shots".to_string()]);

    let mut log = GameLog::new();
    log.advance(&GameLogState::empty(), &state);
    assert_eq!(log.entries.len(), 2);
    assert!(matches!(&log.entries[0].data, LogData::BuyTower { base_id, tower_id } if base_id == "DartMonkey" && tower_id == "t1"));
    assert!(matches!(&log.entries[1].data, LogData::BuyUpgrade { upgrade_id, .. } if upgrade_id == "Sharp Shots"));
}

#[test]
fn missing_tower_kind_is_inconsistent() {
    let g = game();
    let heap = &g.fixture.heap;
    let model: schema::GameModel = from_pointer(heap, g.game_model).unwrap();
    let upgrades = UpgradeLookup::load(&model, heap).unwrap();
    let towers = TowerLookup::load(&model, &upgrades, heap).unwrap();
    assert_eq!(towers.by_id(&"DartMonkey".to_string()), Ok(0));
    assert_eq!(towers.by_id(&"SuperMonkey".to_string()), Err(ReadError::Inconsistent));
    assert_eq!(upgrades.by_id(&"Sharp Shots".to_string()), Ok(0));
    assert_eq!(upgrades.by_id(&"Razor".to_string()), Err(ReadError::Inconsistent));
}

#[test]
fn summary_of_a_match() {
    let g = game();
    let heap = &g.fixture.heap;
    let model: schema::GameModel = from_pointer(heap, g.game_model).unwrap();
    let cache = ModelCache::load(&model, heap).unwrap();
    let tracker = BloonsGame::new(g.module_base);
    let ingame = tracker.get_ingame(heap).unwrap().unwrap();
    let s = InGameSummary::load(&cache, &ingame, heap).unwrap();
    assert_eq!(s.map_name, "Meadow");
    assert_eq!(s.mode, "Easy");
    assert_eq!(f64::from_bits(s.cash_bits), 650.0);
    assert_eq!(s.towers.len(), 1);
    match &s.towers[0] {
        summary::Tower::Basic(b) => {
            assert_eq!(b.id, "t1");
            assert_eq!(b.name, "DartMonkey");
            assert_eq!(b.tiers, [0, 1, 0]);
        }
        summary::Tower::Hero(_) => panic!("expected a basic tower"),
    }
    assert_eq!(
        s.upgrades,
        vec![summary::Upgrade { tower_index: 0, path: 0, tier: 1, cost: 140, name: "Sharp Shots".to_string() }]
    );
    assert!(s.segments.is_empty());
    assert_eq!(s.selected_index, None);
}

#[test]
fn hero_and_cache_lookups() {
    let g = game();
    let heap = &g.fixture.heap;
    let model: schema::GameModel = from_pointer(heap, g.game_model).unwrap();
    let cache = ModelCache::load(&model, heap).unwrap();
    let towers = model.towers(heap).unwrap();
    let dart = towers.get(heap, 0).unwrap();
    let link = dart.upgrades(heap).unwrap().get(heap, 0).unwrap();
    let found = cache.get_upgrade(&link, heap).unwrap();
    assert_eq!(found.address(), model.upgrades(heap).unwrap().get(heap, 0).unwrap().address);
    let tracker = BloonsGame::new(g.module_base);
    let sim = tracker.get_ingame(heap).unwrap().unwrap().unwrap_sim(heap);
    let map = sim.map(heap).unwrap();
    let placed = btd6_tool::state::map_towers(&map, heap).unwrap();
    assert_eq!(placed.len(), 2);
    let hero = summary::Hero::load(&placed[0], heap).unwrap();
    assert_eq!(hero.level, 2);
    assert_eq!(hero.name, "DartMonkey");
}

trait SimulationOf {
    fn unwrap_sim(&self, heap: &SyntheticHeap) -> schema::Simulation;
}

impl SimulationOf for schema::InGame {
    fn unwrap_sim(&self, heap: &SyntheticHeap) -> schema::Simulation {
        self.unity_to_simulation(heap).unwrap().simulation(heap).unwrap()
    }
}

#[test]
fn summary_poll_keeps_its_cache() {
    let g = game();
    let heap = &g.fixture.heap;
    let mut tracker = BloonsGame::new(g.module_base);
    match tracker.get_summary(heap) {
        GameSummary::InGame(s) => assert_eq!(s.upgrades.len(), 1),
        GameSummary::NotInGame => panic!("expected a match"),
    }
    assert!(tracker.summary_cache.is_some());
    let first = tracker.summary_cache.clone();
    assert!(matches!(tracker.get_summary(heap), GameSummary::InGame(_)));
    assert_eq!(tracker.summary_cache, first);
    let mut lost = BloonsGame::new(0);
    assert_eq!(lost.get_summary(heap), GameSummary::NotInGame);
}

#[test]
fn values_out_of_range_are_refused() {
    let mut g = game();
    let model: schema::GameModel = from_pointer(&g.fixture.heap, g.game_model).unwrap();
    let upgrade = model.upgrades(&g.fixture.heap).unwrap().get(&g.fixture.heap, 0).unwrap();
    g.fixture.heap.write_u32(upgrade.address + 0x10 + 0x20, (-5i32) as u32);
    assert_eq!(Upgrade::load(&upgrade, &g.fixture.heap), Err(ReadError::ValueOutOfRange));
    g.fixture.heap.write_u32(upgrade.address + 0x10 + 0x20, 140);
    g.fixture.heap.write_u32(upgrade.address + 0x10 + 0x34, 300);
    assert_eq!(UpgradeLookup::load(&model, &g.fixture.heap), Err(ReadError::ValueOutOfRange));

    let sim: schema::Simulation = from_pointer(&g.fixture.heap, g.simulation).unwrap();
    let clock = sim.time(&g.fixture.heap).unwrap();
    g.fixture.heap.write_u32(clock.address + 0x10, (-1i32) as u32);
    assert_eq!(GameLogState::load(&sim, &g.fixture.heap).map(|s| s.time), Ok(u64::MAX));
}

#[test]
fn tower_model_needs_three_tiers() {
    let mut g = game();
    let model: schema::GameModel = from_pointer(&g.fixture.heap, g.game_model).unwrap();
    let dart = model.towers(&g.fixture.heap).unwrap().get(&g.fixture.heap, 0).unwrap();
    let tiers = dart.tiers(&g.fixture.heap).unwrap();
    g.fixture.heap.write_u32(tiers.address + 0x18, 2);
    let upgrades = UpgradeLookup::load(&model, &g.fixture.heap).unwrap();
    assert_eq!(TowerLookup::load(&model, &upgrades, &g.fixture.heap), Err(ReadError::ValueOutOfRange));
}

#[test]
fn failed_model_load_keeps_no_model() {
    let mut g = game();
    let model: schema::GameModel = from_pointer(&g.fixture.heap, g.game_model).unwrap();
    let upgrade = model.upgrades(&g.fixture.heap).unwrap().get(&g.fixture.heap, 0).unwrap();
    g.fixture.heap.write_u32(upgrade.address + 0x10 + 0x34, 300);
    let mut tracker = BloonsGame::new(g.module_base);
    assert_eq!(tracker.try_get_state(&g.fixture.heap), Err(ReadError::ValueOutOfRange));
    assert!(tracker.ingame_addr.value.is_some());
    assert!(tracker.model_cache.is_none());
    assert_eq!(tracker.get_state(&g.fixture.heap), GameState::NotInGame);
    assert!(tracker.summary_cache.is_none());
}
