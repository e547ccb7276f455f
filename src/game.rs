//! The snapshot of a whole match, and the poll step that keeps the model
//! lookups across snapshots of the same match.
use vstd::prelude::*;

use crate::containers::{spec_dictionary_get, spec_dictionary_len, Dictionary};
use crate::memory::{ReadError, ReadMemory};
use crate::object::{cast, spec_verify, MemoryRead, Object, RemoteObject, TypeInfo, HEADER_SIZE, TYPE_STATICS_OFFSET};
use crate::schema;
use crate::snapshot::{
    agrees, read_text, spec_text_at, spec_tower_lookup, spec_upgrade_lookup, tower_kind_views, upgrade_views,
    TowerKind, TowerKindView, TowerLookup, Upgrade, UpgradeLookup, UpgradeView,
};
use crate::state::{
    load_paths, map_towers, path_views, record_items, spec_map_towers, spec_paths, tower_records, tower_views, Path,
    PathView, Tower, TowerView,
};
use crate::snapshot::collect_concat;
use crate::summary::{spec_model_cache, spec_summary, CachedUpgradeView, InGameSummary, InGameSummaryView, ModelCache};

verus! {

/// Where, in the game's module, the runtime type of the in-match scene is found.
pub const TYPE_OFFSET_IN_GAME: u64 = 76052240;

/// What the static instance of the in-match scene holds: the scene, or `None`
/// outside a match.
pub open spec fn spec_root(image: Map<int, u8>, module_base: u64) -> Result<Option<schema::InGame>, ReadError> {
    match TypeInfo::decode(image, module_base + TYPE_OFFSET_IN_GAME) {
        Err(e) => Err(e),
        Ok(t) => match crate::object::TypeStatics::decode(image, t.address + TYPE_STATICS_OFFSET) {
            Err(e) => Err(e),
            Ok(statics) => Option::<schema::InGame>::decode(image, statics.address + 0),
        },
    }
}

/// Resolves the static instance of the in-match scene from the game module
/// loaded at `module_base`.
pub fn get_instance<M: ReadMemory>(mem: &M, module_base: u64) -> (r: Result<Option<schema::InGame>, ReadError>)
    ensures
        r == spec_root(mem.image().bytes@, module_base),
{
    let t: TypeInfo = crate::object::read_at(mem, module_base, TYPE_OFFSET_IN_GAME)?;
    let statics = t.get_statics(mem)?;
    statics.static_field(mem, 0)
}

/// The cash manager of the simulation at `sim`: the one value of its
/// dictionary of cash managers, which must hold exactly one.
pub open spec fn spec_cash_manager(image: Map<int, u8>, sim: int) -> Result<schema::CashManager, ReadError> {
    match Dictionary::<Object, schema::CashManager>::decode(image, sim + HEADER_SIZE + 0x3d8) {
        Err(e) => Err(e),
        Ok(d) => match spec_dictionary_len(image, d.address as int) {
            Err(e) => Err(e),
            Ok(n) => if n != 1 {
                Err(ReadError::Inconsistent)
            } else {
                match spec_dictionary_get::<Object, schema::CashManager>(image, d.address as int, 0) {
                    Err(e) => Err(e),
                    Ok(entry) => Ok(entry.1),
                }
            },
        },
    }
}

/// The cash manager of the single player.
pub fn cash_manager<M: ReadMemory>(sim: &schema::Simulation, mem: &M) -> (r: Result<schema::CashManager, ReadError>)
    ensures
        r == spec_cash_manager(mem.image().bytes@, sim.address as int),
{
    let managers = sim.cash_managers(mem)?;
    if managers.len(mem)? != 1 {
        return Err(ReadError::Inconsistent);
    }
    let entry = managers.get(mem, 0)?;
    Ok(entry.1)
}

/// The value of the obfuscated number at `k`, as a double-precision bit pattern.
pub open spec fn spec_konfuze(image: Map<int, u8>, k: int) -> Result<u64, ReadError> {
    u64::decode(image, k + HEADER_SIZE + 0x18)
}

/// The rules of a match, with the lookups built from them.
#[derive(Debug, Clone, PartialEq, Eq)]
pub struct GameModel {
    pub map_name: String,
    pub game_mode: String,
    pub seed: i32,
    pub upgrades: UpgradeLookup,
    pub towers: TowerLookup,
}

pub struct GameModelView {
    pub map_name: Seq<char>,
    pub game_mode: Seq<char>,
    pub seed: i32,
    pub upgrades: Seq<UpgradeView>,
    pub towers: Seq<TowerKindView>,
}

impl View for GameModel {
    type V = GameModelView;

    open spec fn view(&self) -> GameModelView {
        GameModelView {
            map_name: self.map_name@,
            game_mode: self.game_mode@,
            seed: self.seed,
            upgrades: self.upgrades@,
            towers: self.towers@,
        }
    }
}

/// What loading the game model at `a` gives.
pub open spec fn spec_game_model(image: Map<int, u8>, a: int) -> Result<GameModelView, ReadError> {
    match i32::decode(image, a + HEADER_SIZE + 0x84) {
        Err(e) => Err(e),
        Ok(seed) => match schema::MapModel::decode(image, a + HEADER_SIZE + 0xd0) {
            Err(e) => Err(e),
            Ok(map) => match spec_text_at(image, map.address + HEADER_SIZE + 0x70) {
                Err(e) => Err(e),
                Ok(map_name) => match spec_text_at(image, a + HEADER_SIZE + 0x78) {
                    Err(e) => Err(e),
                    Ok(game_mode) => match spec_upgrade_lookup(image, a) {
                        Err(e) => Err(e),
                        Ok(upgrades) => match spec_tower_lookup(image, a, upgrades) {
                            Err(e) => Err(e),
                            Ok(towers) => Ok(GameModelView { map_name, game_mode, seed, upgrades, towers }),
                        },
                    },
                },
            },
        },
    }
}

impl Upgrade {
    /// A copy of the upgrade.
    pub fn copied(&self) -> (r: Upgrade)
        ensures
            r@ == self@,
    {
        Upgrade { id: self.id.clone(), path: self.path, tier: self.tier, cost: self.cost }
    }
}

fn copy_indices(v: &Vec<usize>) -> (r: Vec<usize>)
    ensures
        r@ == v@,
{
    let mut out: Vec<usize> = Vec::new();
    let mut i: usize = 0;
    while i < v.len()
        invariant
            i <= v@.len(),
            out@ == v@.take(i as int),
        decreases v@.len() - i,
    {
        out.push(v[i]);
        i = i + 1;
        assert(out@ =~= v@.take(i as int));
    }
    assert(v@.take(i as int) =~= v@);
    out
}

impl TowerKind {
    /// A copy of the tower kind.
    pub fn copied(&self) -> (r: TowerKind)
        ensures
            r@ == self@,
    {
        TowerKind {
            id: self.id.clone(),
            set: self.set,
            tiers: self.tiers,
            applied_upgrades: copy_indices(&self.applied_upgrades),
            available_upgrades: copy_indices(&self.available_upgrades),
        }
    }
}

impl GameModel {
    /// Copies the rules of a match and builds its lookups.
    pub fn load<M: ReadMemory>(model: &schema::GameModel, mem: &M) -> (r: Result<GameModel, ReadError>)
        ensures
            agrees(r, spec_game_model(mem.image().bytes@, model.address as int)),
    {
        let seed = model.random_seed(mem)?;
        let map = model.map(mem)?;
        let map_name = read_text(&map, mem, 0x70)?;
        let game_mode = read_text(model, mem, 0x78)?;
        let upgrades = UpgradeLookup::load(model, mem)?;
        let towers = TowerLookup::load(model, &upgrades, mem)?;
        Ok(GameModel { map_name, game_mode, seed, upgrades, towers })
    }

    /// A copy of the model.
    pub fn copied(&self) -> (r: GameModel)
        ensures
            r@ == self@,
    {
        let mut upgrades: Vec<Upgrade> = Vec::new();
        let mut i: usize = 0;
        while i < self.upgrades.upgrades.len()
            invariant
                i <= self.upgrades.upgrades@.len(),
                upgrade_views(upgrades@) == upgrade_views(self.upgrades.upgrades@).take(i as int),
            decreases self.upgrades.upgrades@.len() - i,
        {
            let u = self.upgrades.upgrades[i].copied();
            let ghost before = upgrades@;
            upgrades.push(u);
            assert(upgrade_views(upgrades@) =~= upgrade_views(before).push(u@));
            assert(upgrade_views(self.upgrades.upgrades@).take(i + 1) =~= upgrade_views(self.upgrades.upgrades@).take(i as int).push(u@));
            i = i + 1;
            assert(upgrade_views(upgrades@) =~= upgrade_views(self.upgrades.upgrades@).take(i as int));
        }
        assert(upgrade_views(self.upgrades.upgrades@).take(i as int) =~= upgrade_views(self.upgrades.upgrades@));
        let mut towers: Vec<TowerKind> = Vec::new();
        let mut k: usize = 0;
        while k < self.towers.towers.len()
            invariant
                k <= self.towers.towers@.len(),
                tower_kind_views(towers@) == tower_kind_views(self.towers.towers@).take(k as int),
            decreases self.towers.towers@.len() - k,
        {
            let t = self.towers.towers[k].copied();
            let ghost before = towers@;
            towers.push(t);
            assert(tower_kind_views(towers@) =~= tower_kind_views(before).push(t@));
            assert(tower_kind_views(self.towers.towers@).take(k + 1) =~= tower_kind_views(self.towers.towers@).take(k as int).push(t@));
            k = k + 1;
            assert(tower_kind_views(towers@) =~= tower_kind_views(self.towers.towers@).take(k as int));
        }
        assert(tower_kind_views(self.towers.towers@).take(k as int) =~= tower_kind_views(self.towers.towers@));
        GameModel {
            map_name: self.map_name.clone(),
            game_mode: self.game_mode.clone(),
            seed: self.seed,
            upgrades: UpgradeLookup { upgrades },
            towers: TowerLookup { towers },
        }
    }
}

/// The simulation of the in-match scene at `g`.
pub open spec fn spec_simulation(image: Map<int, u8>, g: int) -> Result<schema::Simulation, ReadError> {
    match schema::UnityToSimulation::decode(image, g + HEADER_SIZE + 0xb8) {
        Err(e) => Err(e),
        Ok(bridge) => schema::Simulation::decode(image, bridge.address + HEADER_SIZE + 0x18),
    }
}

/// The model of the match whose in-match scene is at `g`, loaded anew.
pub open spec fn spec_fresh_model(image: Map<int, u8>, g: int) -> Result<GameModelView, ReadError> {
    match spec_simulation(image, g) {
        Err(e) => Err(e),
        Ok(sim) => match schema::GameModel::decode(image, sim.address + HEADER_SIZE + 0x10) {
            Err(e) => Err(e),
            Ok(gm) => spec_game_model(image, gm.address as int),
        },
    }
}

/// The upgrade models, by name, of the match whose in-match scene is at `g`.
pub open spec fn spec_fresh_cache(image: Map<int, u8>, g: int) -> Result<Seq<CachedUpgradeView>, ReadError> {
    match spec_simulation(image, g) {
        Err(e) => Err(e),
        Ok(sim) => match schema::GameModel::decode(image, sim.address + HEADER_SIZE + 0x10) {
            Err(e) => Err(e),
            Ok(gm) => spec_model_cache(image, gm.address as int),
        },
    }
}

/// The first of `towers` with id `id`.
pub open spec fn first_with_id(towers: Seq<TowerView>, id: Seq<char>) -> Option<usize> {
    if exists|i: int| 0 <= i < towers.len() && towers[i].id == id && forall|j: int| 0 <= j < i ==> towers[j].id != id {
        Some((choose|i: int| 0 <= i < towers.len() && towers[i].id == id && forall|j: int| 0 <= j < i ==> towers[j].id != id) as usize)
    } else {
        None
    }
}

/// The index among `towers` of the selected tower: `None` when nothing is
/// selected or the selection is not a tower.
pub open spec fn spec_selected(image: Map<int, u8>, g: int, towers: Seq<TowerView>) -> Result<Option<usize>, ReadError> {
    match schema::InputManager::decode(image, g + HEADER_SIZE + 0x60) {
        Err(e) => Err(e),
        Ok(input) => match Option::<Object>::decode(image, input.address + HEADER_SIZE + 0x1a0) {
            Err(e) => Err(e),
            Ok(selected) => match selected {
                None => Ok(None),
                Some(obj) => match spec_verify::<schema::TowerToSimulation>(image, obj.address) {
                    Err(_) => Ok(None),
                    Ok(bridge) => match schema::Tower::decode(image, bridge.address + HEADER_SIZE + 0x10) {
                        Err(e) => Err(e),
                        Ok(t) => match spec_text_at(image, t.address + HEADER_SIZE + 0x90) {
                            Err(e) => Err(e),
                            Ok(id) => Ok(first_with_id(towers, id)),
                        },
                    },
                },
            },
        },
    }
}

/// What a snapshot holds besides the model.
pub struct InGameView {
    pub paths: Seq<PathView>,
    pub cash_bits: u64,
    pub round_bits: u64,
    pub lives_bits: u64,
    pub towers: Seq<TowerView>,
    pub selected_tower: Option<usize>,
}

#[verifier::opaque]
/// What walking the in-match scene at `g` gives, tower kinds resolved
/// against `kinds`: paths, cash, round, lives, the player's towers and the
/// selected one.
pub open spec fn spec_in_game(image: Map<int, u8>, g: int, kinds: Seq<TowerKindView>) -> Result<InGameView, ReadError> {
    match spec_simulation(image, g) {
        Err(e) => Err(e),
        Ok(sim) => match schema::GameMap::decode(image, sim.address + HEADER_SIZE + 0x400) {
            Err(e) => Err(e),
            Ok(map) => match spec_paths(image, map.address as int) {
                Err(e) => Err(e),
                Ok(paths) => match spec_cash_manager(image, sim.address as int) {
                    Err(e) => Err(e),
                    Ok(cm) => match schema::KonFuze::decode(image, cm.address + HEADER_SIZE + 0x0) {
                        Err(e) => Err(e),
                        Ok(cash) => match spec_konfuze(image, cash.address as int) {
                            Err(e) => Err(e),
                            Ok(cash_bits) => match schema::Spawner::decode(image, map.address + HEADER_SIZE + 0x88) {
                                Err(e) => Err(e),
                                Ok(spawner) => match schema::KonFuze_NoShuffle::decode(image, spawner.address + HEADER_SIZE + 0xe8) {
                                    Err(e) => Err(e),
                                    Ok(round) => match spec_konfuze(image, round.address as int) {
                                        Err(e) => Err(e),
                                        Ok(round_bits) => match schema::KonFuze::decode(image, sim.address + HEADER_SIZE + 0x3f8) {
                                            Err(e) => Err(e),
                                            Ok(health) => match spec_konfuze(image, health.address as int) {
                                                Err(e) => Err(e),
                                                Ok(lives_bits) => match spec_map_towers(image, map.address as int) {
                                                    Err(e) => Err(e),
                                                    Ok(all) => match collect_concat(all.len(), record_items(image, all, kinds)) {
                                                        Err(e) => Err(e),
                                                        Ok(towers) => match spec_selected(image, g, towers) {
                                                            Err(e) => Err(e),
                                                            Ok(selected_tower) => Ok(InGameView {
                                                                paths, cash_bits, round_bits, lives_bits, towers, selected_tower,
                                                            }),
                                                        },
                                                    },
                                                },
                                            },
                                        },
                                    },
                                },
                            },
                        },
                    },
                },
            },
        },
    }
}

/// A snapshot of a match in progress. Money, round and lives are kept as the
/// bit patterns of the double-precision values the game stores.
#[derive(Debug, Clone, PartialEq, Eq)]
pub struct InGameState {
    pub model: GameModel,
    pub paths: Vec<Path>,
    pub cash_bits: u64,
    pub round_bits: u64,
    pub lives_bits: u64,
    pub towers: Vec<Tower>,
    pub selected_tower: Option<usize>,
}

impl InGameState {
    /// Everything but the model, as plain values.
    pub open spec fn body(&self) -> InGameView {
        InGameView {
            paths: path_views(self.paths@),
            cash_bits: self.cash_bits,
            round_bits: self.round_bits,
            lives_bits: self.lives_bits,
            towers: tower_views(self.towers@),
            selected_tower: self.selected_tower,
        }
    }

    /// Walks the match from its in-match scene; `model` is that match's
    /// model, which the snapshot keeps.
    pub fn load<M: ReadMemory>(ingame: &schema::InGame, model: GameModel, mem: &M) -> (r: Result<InGameState, ReadError>)
        ensures
            match r {
                Ok(s) => s.model@ == model@ && spec_in_game(mem.image().bytes@, ingame.address as int, model@.towers)
                    == Ok::<InGameView, ReadError>(s.body()),
                Err(e) => spec_in_game(mem.image().bytes@, ingame.address as int, model@.towers) == Err::<InGameView, ReadError>(e),
            },
    {
        proof { reveal(spec_in_game); }
        let bridge = ingame.unity_to_simulation(mem)?;
        let sim = bridge.simulation(mem)?;
        let map = sim.map(mem)?;
        let paths = load_paths(&map, mem)?;
        let cm = cash_manager(&sim, mem)?;
        let cash_bits = cm.cash(mem)?.get_bits(mem)?;
        let round_bits = map.spawner(mem)?.current_round(mem)?.base().get_bits(mem)?;
        let lives_bits = sim.health(mem)?.get_bits(mem)?;
        let all = map_towers(&map, mem)?;
        let towers = tower_records(&all, &model.towers, mem)?;
        let selected_tower = selected_index(ingame, &towers, mem)?;
        Ok(InGameState { model, paths, cash_bits, round_bits, lives_bits, towers, selected_tower })
    }
}

fn position_of(towers: &Vec<Tower>, id: &String) -> (r: Option<usize>)
    ensures
        r == first_with_id(tower_views(towers@), id@),
{
    let ghost ts = tower_views(towers@);
    let mut i: usize = 0;
    while i < towers.len()
        invariant
            ts == tower_views(towers@),
            i <= ts.len(),
            forall|j: int| 0 <= j < i ==> ts[j].id != id@,
        decreases ts.len() - i,
    {
        if towers[i].id == *id {
            proof {
                let p = |k: int| 0 <= k < ts.len() && ts[k].id == id@ && forall|j: int| 0 <= j < k ==> ts[j].id != id@;
                assert(p(i as int));
                let c = choose|k: int| 0 <= k < ts.len() && ts[k].id == id@ && forall|j: int| 0 <= j < k ==> ts[j].id != id@;
                assert(p(c));
                if c < i {
                    assert(ts[c].id != id@);
                } else if c > i {
                    assert(ts[i as int].id != id@);
                }
            }
            return Some(i);
        }
        i = i + 1;
    }
    None
}

fn selected_index<M: ReadMemory>(ingame: &schema::InGame, towers: &Vec<Tower>, mem: &M) -> (r: Result<Option<usize>, ReadError>)
    ensures
        r == spec_selected(mem.image().bytes@, ingame.address as int, tower_views(towers@)),
{
    let input = ingame.input_manager(mem)?;
    match input.selected(mem)? {
        None => Ok(None),
        Some(obj) => match cast::<Object, schema::TowerToSimulation, M>(&obj, mem) {
            Err(_) => Ok(None),
            Ok(bridge) => {
                let t = bridge.tower(mem)?;
                let id = read_text(&t, mem, 0x90)?;
                Ok(position_of(towers, &id))
            },
        },
    }
}

/// What the poll loop hands the display: no match, or a snapshot of one.
#[derive(Debug, Clone, PartialEq, Eq)]
pub enum GameState {
    NotInGame,
    InGame(InGameState),
}

/// The last value seen, to tell when it changes.
#[derive(Debug, Clone, Copy, PartialEq, Eq)]
pub struct Previous {
    pub value: Option<u64>,
}

impl Previous {
    /// Nothing seen yet.
    pub fn new() -> (r: Previous)
        ensures
            r.value is None,
    {
        Previous { value: None }
    }

    /// Records `value`; true when it differs from the one seen before, or when
    /// none was.
    pub fn set(&mut self, value: u64) -> (r: bool)
        ensures
            r == (old(self).value != Some(value)),
            final(self).value == Some(value),
    {
        let is_update = match self.value {
            Some(v) => v != value,
            None => true,
        };
        self.value = Some(value);
        is_update
    }
}

/// The poll step over a game process: finds the match and snapshots it,
/// keeping the model lookups for as long as the in-match scene stays at one
/// address.
pub struct BloonsGame {
    pub ingame_addr: Previous,
    pub model_cache: Option<GameModel>,
    pub summary_addr: Previous,
    pub summary_cache: Option<ModelCache>,
    pub module_offset: u64,
}

/// What the summary poll hands the display: no match, or a summary of one.
#[derive(Debug, Clone, PartialEq, Eq)]
pub enum GameSummary {
    NotInGame,
    InGame(InGameSummary),
}

/// The model a snapshot poll of the match at `g` works with: the kept one
/// when the scene is where the poll last saw it and one is kept, else one
/// loaded anew.
pub open spec fn spec_poll_model(game: BloonsGame, image: Map<int, u8>, g: u64) -> Result<GameModelView, ReadError> {
    if game.ingame_addr.value == Some(g) && game.model_cache is Some {
        Ok(game.model_cache->Some_0@)
    } else {
        spec_fresh_model(image, g as int)
    }
}

/// What one snapshot poll gives: nothing outside a match, else the model and
/// the rest of the snapshot.
pub open spec fn spec_poll_state(game: BloonsGame, image: Map<int, u8>) -> Result<Option<(GameModelView, InGameView)>, ReadError> {
    match spec_root(image, game.module_offset) {
        Err(e) => Err(e),
        Ok(None) => Ok(None),
        Ok(Some(g)) => match spec_poll_model(game, image, g.address) {
            Err(e) => Err(e),
            Ok(m) => match spec_in_game(image, g.address as int, m.towers) {
                Err(e) => Err(e),
                Ok(v) => Ok(Some((m, v))),
            },
        },
    }
}

/// How a snapshot poll leaves the tracker: in a match it records the scene's
/// address and keeps the model it worked with (none when loading it failed);
/// otherwise nothing changes. The summary's part is never touched.
pub open spec fn state_poll_done(before: BloonsGame, after: BloonsGame, image: Map<int, u8>) -> bool {
    &&& after.module_offset == before.module_offset
    &&& after.summary_addr == before.summary_addr
    &&& after.summary_cache == before.summary_cache
    &&& match spec_root(image, before.module_offset) {
        Ok(Some(g)) => {
            &&& after.ingame_addr.value == Some(g.address)
            &&& match spec_poll_model(before, image, g.address) {
                Ok(m) => after.model_cache is Some && after.model_cache->Some_0@ == m,
                Err(_) => after.model_cache is None,
            }
        },
        _ => after.ingame_addr == before.ingame_addr && after.model_cache == before.model_cache,
    }
}

/// The upgrade models a summary poll of the match at `g` works with: the
/// kept ones when the scene is where the poll last saw it and some are kept,
/// else ones named anew.
pub open spec fn spec_poll_cache(game: BloonsGame, image: Map<int, u8>, g: u64) -> Result<Seq<CachedUpgradeView>, ReadError> {
    if game.summary_addr.value == Some(g) && game.summary_cache is Some {
        Ok(game.summary_cache->Some_0@)
    } else {
        spec_fresh_cache(image, g as int)
    }
}

/// What one summary poll gives: nothing outside a match, else the summary.
pub open spec fn spec_poll_summary(game: BloonsGame, image: Map<int, u8>) -> Result<Option<InGameSummaryView>, ReadError> {
    match spec_root(image, game.module_offset) {
        Err(e) => Err(e),
        Ok(None) => Ok(None),
        Ok(Some(g)) => match spec_poll_cache(game, image, g.address) {
            Err(e) => Err(e),
            Ok(c) => match spec_summary(image, g.address as int, c) {
                Err(e) => Err(e),
                Ok(v) => Ok(Some(v)),
            },
        },
    }
}

/// How a summary poll leaves the tracker: in a match it records the scene's
/// address and keeps the upgrade models it worked with, unchanged when they
/// were kept already (none when naming them failed); otherwise nothing
/// changes. The snapshot's part is never touched.
pub open spec fn summary_poll_done(before: BloonsGame, after: BloonsGame, image: Map<int, u8>) -> bool {
    &&& after.module_offset == before.module_offset
    &&& after.ingame_addr == before.ingame_addr
    &&& after.model_cache == before.model_cache
    &&& match spec_root(image, before.module_offset) {
        Ok(Some(g)) => {
            &&& after.summary_addr.value == Some(g.address)
            &&& (before.summary_addr.value == Some(g.address) && before.summary_cache is Some)
                ==> after.summary_cache == before.summary_cache
            &&& match spec_poll_cache(before, image, g.address) {
                Ok(c) => after.summary_cache is Some && after.summary_cache->Some_0@ == c,
                Err(_) => after.summary_cache is None,
            }
        },
        _ => after.summary_addr == before.summary_addr && after.summary_cache == before.summary_cache,
    }
}

impl BloonsGame {
    /// Nothing seen yet, the game module loaded at `module_offset`.
    pub fn new(module_offset: u64) -> (r: BloonsGame)
        ensures
            r.ingame_addr.value is None,
            r.model_cache is None,
            r.summary_addr.value is None,
            r.summary_cache is None,
            r.module_offset == module_offset,
    {
        BloonsGame {
            ingame_addr: Previous::new(),
            model_cache: None,
            summary_addr: Previous::new(),
            summary_cache: None,
            module_offset,
        }
    }

    /// The in-match scene, or `None` outside a match.
    pub fn get_ingame<M: ReadMemory>(&self, mem: &M) -> (r: Result<Option<schema::InGame>, ReadError>)
        ensures
            r == spec_root(mem.image().bytes@, self.module_offset),
    {
        get_instance(mem, self.module_offset)
    }

    /// One snapshot. Outside a match it is `NotInGame`. In a match the model
    /// is loaded anew when the scene's address differs from the last one seen
    /// (a new match) or none is kept; else the kept one is used. Any failed
    /// read makes it fail with the first error met.
    pub fn try_get_state<M: ReadMemory>(&mut self, mem: &M) -> (r: Result<GameState, ReadError>)
        ensures
            state_poll_done(*old(self), *final(self), mem.image().bytes@),
            match spec_poll_state(*old(self), mem.image().bytes@) {
                Err(e) => r == Err::<GameState, ReadError>(e),
                Ok(None) => r matches Ok(GameState::NotInGame),
                Ok(Some(v)) => r matches Ok(GameState::InGame(s)) && s.model@ == v.0 && s.body() == v.1,
            },
    {
        let found = self.get_ingame(mem)?;
        match found {
            None => Ok(GameState::NotInGame),
            Some(ingame) => {
                if self.ingame_addr.set(ingame.address) {
                    self.model_cache = None;
                }
                let model = match &self.model_cache {
                    Some(m) => m.copied(),
                    None => {
                        let sim = ingame.unity_to_simulation(mem)?.simulation(mem)?;
                        let gm = sim.model(mem)?;
                        let loaded = GameModel::load(&gm, mem)?;
                        let kept = loaded.copied();
                        self.model_cache = Some(kept);
                        loaded
                    },
                };
                let state = InGameState::load(&ingame, model, mem)?;
                Ok(GameState::InGame(state))
            },
        }
    }

    /// One summary. Outside a match it is `NotInGame`. In a match the upgrade
    /// models are named anew when the scene's address differs from the last
    /// one seen by this poll, or none are kept; else the kept ones are used.
    /// Any failed read makes it fail with the first error met.
    pub fn try_get_summary<M: ReadMemory>(&mut self, mem: &M) -> (r: Result<GameSummary, ReadError>)
        ensures
            summary_poll_done(*old(self), *final(self), mem.image().bytes@),
            match spec_poll_summary(*old(self), mem.image().bytes@) {
                Err(e) => r == Err::<GameSummary, ReadError>(e),
                Ok(None) => r matches Ok(GameSummary::NotInGame),
                Ok(Some(v)) => r matches Ok(GameSummary::InGame(s)) && s@ == v,
            },
    {
        let found = self.get_ingame(mem)?;
        match found {
            None => Ok(GameSummary::NotInGame),
            Some(ingame) => {
                if self.summary_addr.set(ingame.address) {
                    self.summary_cache = None;
                }
                if self.summary_cache.is_none() {
                    let sim = ingame.unity_to_simulation(mem)?.simulation(mem)?;
                    let model = sim.model(mem)?;
                    let cache = ModelCache::load(&model, mem)?;
                    self.summary_cache = Some(cache);
                }
                match &self.summary_cache {
                    Some(cache) => {
                        let summary = InGameSummary::load(cache, &ingame, mem)?;
                        Ok(GameSummary::InGame(summary))
                    },
                    None => Ok(GameSummary::NotInGame),
                }
            },
        }
    }

    /// One summary; any failure to read the match counts as being out of it.
    pub fn get_summary<M: ReadMemory>(&mut self, mem: &M) -> (r: GameSummary)
        ensures
            summary_poll_done(*old(self), *final(self), mem.image().bytes@),
            match spec_poll_summary(*old(self), mem.image().bytes@) {
                Ok(Some(v)) => r matches GameSummary::InGame(s) && s@ == v,
                _ => r matches GameSummary::NotInGame,
            },
    {
        match self.try_get_summary(mem) {
            Ok(s) => s,
            Err(_) => GameSummary::NotInGame,
        }
    }

    /// One snapshot; any failure to read the match counts as being out of it.
    pub fn get_state<M: ReadMemory>(&mut self, mem: &M) -> (r: GameState)
        ensures
            state_poll_done(*old(self), *final(self), mem.image().bytes@),
            match spec_poll_state(*old(self), mem.image().bytes@) {
                Ok(Some(v)) => r matches GameState::InGame(s) && s.model@ == v.0 && s.body() == v.1,
                _ => r matches GameState::NotInGame,
            },
    {
        match self.try_get_state(mem) {
            Ok(s) => s,
            Err(_) => GameState::NotInGame,
        }
    }
}

/// Tower `t` of `s` is one the player is looking at: the selected one, or any
/// when none is selected.
pub open spec fn watched(s: InGameState, t: int) -> bool {
    match s.selected_tower {
        Some(v) => t == v,
        None => true,
    }
}

/// Some upgrade available to a watched tower of `s` costs at least
/// `previous_cash` and less than `cash`: it became affordable.
pub open spec fn spec_became_affordable(s: InGameState, previous_cash: u64, cash: u64) -> bool {
    exists|t: int, j: int| {
        &&& 0 <= t < s.towers@.len()
        &&& watched(s, t)
        &&& s.towers@[t].kind < s.model.towers.towers@.len()
        &&& 0 <= j < s.model.towers.towers@[s.towers@[t].kind as int].available_upgrades@.len()
        &&& #[trigger] s.model.towers.towers@[s.towers@[t].kind as int].available_upgrades@[j]
            < s.model.upgrades.upgrades@.len()
        &&& previous_cash <= s.model.upgrades.upgrades@[
            s.model.towers.towers@[s.towers@[t].kind as int].available_upgrades@[j] as int].cost < cash
    }
}

/// Whether, between a snapshot with `previous_cash` and `state` with `cash`,
/// an upgrade of a watched tower became affordable.
pub fn upgrade_became_affordable(state: &InGameState, previous_cash: u64, cash: u64) -> (r: bool)
    ensures
        r == spec_became_affordable(*state, previous_cash, cash),
{
    let mut t: usize = 0;
    while t < state.towers.len()
        invariant
            t <= state.towers@.len(),
            forall|t0: int, j: int| 0 <= t0 < t ==> !({
                &&& watched(*state, t0)
                &&& state.towers@[t0].kind < state.model.towers.towers@.len()
                &&& 0 <= j < state.model.towers.towers@[state.towers@[t0].kind as int].available_upgrades@.len()
                &&& #[trigger] state.model.towers.towers@[state.towers@[t0].kind as int].available_upgrades@[j]
                    < state.model.upgrades.upgrades@.len()
                &&& previous_cash <= state.model.upgrades.upgrades@[
                    state.model.towers.towers@[state.towers@[t0].kind as int].available_upgrades@[j] as int].cost < cash
            }),
        decreases state.towers@.len() - t,
    {
        let is_watched = match state.selected_tower {
            Some(v) => v == t,
            None => true,
        };
        let kind = state.towers[t].kind;
        assert(is_watched == watched(*state, t as int));
        if is_watched && kind < state.model.towers.towers.len() {
            let available = &state.model.towers.towers[kind].available_upgrades;
            let mut j: usize = 0;
            while j < available.len()
                invariant
                    t < state.towers@.len(),
                    watched(*state, t as int),
                    kind == state.towers@[t as int].kind,
                    kind < state.model.towers.towers@.len(),
                    *available == state.model.towers.towers@[kind as int].available_upgrades,
                    j <= available@.len(),
                    forall|j0: int| 0 <= j0 < j ==> !({
                        &&& #[trigger] available@[j0] < state.model.upgrades.upgrades@.len()
                        &&& previous_cash <= state.model.upgrades.upgrades@[available@[j0] as int].cost < cash
                    }),
                decreases available@.len() - j,
            {
                let u = available[j];
                if u < state.model.upgrades.upgrades.len() {
                    let cost = state.model.upgrades.upgrades[u].cost;
                    if previous_cash <= cost && cost < cash {
                        assert(watched(*state, t as int));
                        assert(state.model.towers.towers@[state.towers@[t as int].kind as int].available_upgrades@[j as int] == u);
                        return true;
                    }
                }
                j = j + 1;
            }
            assert forall|j0: int| 0 <= j0 < available@.len() implies !({
                &&& #[trigger] available@[j0] < state.model.upgrades.upgrades@.len()
                &&& previous_cash <= state.model.upgrades.upgrades@[available@[j0] as int].cost < cash
            }) by {}
        }
        t = t + 1;
    }
    false
}

} // verus!
