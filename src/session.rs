//! The state of a match as the event log follows it, read from the simulation.
use vstd::prelude::*;
use vstd::string::StringExecFns;

use crate::containers::{spec_array_get, spec_array_len, spec_string_text, Array, CSharpString};
use crate::log::{distinct_upgrades, texts, tower_views, unique_ids, GameLogState, TowerState, TowerStateView};
use crate::memory::{ReadError, ReadMemory};
use crate::object::{MemoryRead, HEADER_SIZE};
use crate::schema::{self, ObjectId, INVALID_OBJECT_ID};
use crate::snapshot::{collect, collect_concat, lemma_collect_concat_fails, lemma_collect_fails, read_text, spec_text_at};
use crate::state::{map_towers, spec_map_towers};
use crate::scalar::{i32_as_u64, widen_i32};

verus! {

/// `texts` with `t` added unless it is there already.
pub open spec fn insert_text(texts: Seq<Seq<char>>, t: Seq<char>) -> Seq<Seq<char>> {
    if texts.contains(t) {
        texts
    } else {
        texts.push(t)
    }
}

/// The distinct texts of `items`, each where it first appears.
pub open spec fn distinct_texts(items: Seq<Seq<char>>) -> Seq<Seq<char>>
    decreases items.len(),
{
    if items.len() == 0 {
        Seq::empty()
    } else {
        insert_text(distinct_texts(items.drop_last()), items.last())
    }
}

/// `towers` with `t` in place of the tower with its id, or added after them
/// when none has it.
pub open spec fn insert_tower(towers: Seq<TowerStateView>, t: TowerStateView) -> Seq<TowerStateView> {
    if exists|i: int| 0 <= i < towers.len() && towers[i].id == t.id {
        towers.update(choose|i: int| 0 <= i < towers.len() && towers[i].id == t.id, t)
    } else {
        towers.push(t)
    }
}

/// The towers of `items` keyed by id, a later tower replacing an earlier one
/// with the same id.
pub open spec fn keyed_towers(items: Seq<TowerStateView>) -> Seq<TowerStateView>
    decreases items.len(),
{
    if items.len() == 0 {
        Seq::empty()
    } else {
        insert_tower(keyed_towers(items.drop_last()), items.last())
    }
}

/// `distinct_texts` holds each text once.
pub proof fn lemma_distinct_texts(items: Seq<Seq<char>>)
    ensures
        distinct_texts(items).no_duplicates(),
    decreases items.len(),
{
    if items.len() > 0 {
        let prev = distinct_texts(items.drop_last());
        lemma_distinct_texts(items.drop_last());
        let t = items.last();
        if !prev.contains(t) {
            let r = prev.push(t);
            assert forall|i: int, j: int| 0 <= i < r.len() && 0 <= j < r.len() && i != j implies r[i] != r[j] by {
                if i == prev.len() {
                    assert(prev[j] != t);
                } else if j == prev.len() {
                    assert(prev[i] != t);
                }
            }
        }
    }
}

proof fn lemma_log_tower_distinct(image: Map<int, u8>, t: int)
    ensures
        spec_log_tower(image, t) matches Ok(x) ==> distinct_upgrades(x),
{
    if let Ok(model) = schema::TowerModel::decode(image, t + HEADER_SIZE + 0xd0) {
        if let Ok(ids) = spec_applied_ids(image, model.address as int) {
            lemma_distinct_texts(ids);
        }
    }
}

/// The text of each applied upgrade id of the array at `array`.
pub open spec fn applied_text_items(image: Map<int, u8>, array: int) -> spec_fn(int) -> Result<Seq<char>, ReadError> {
    |i: int| match spec_array_get::<CSharpString>(image, array, i) {
        Err(e) => Err(e),
        Ok(s) => spec_string_text(image, s.address as int),
    }
}

/// The ids of the upgrades applied to the tower model at `model`, in order.
pub open spec fn spec_applied_ids(image: Map<int, u8>, model: int) -> Result<Seq<Seq<char>>, ReadError> {
    match Array::<CSharpString>::decode(image, model + HEADER_SIZE + 0xc0) {
        Err(e) => Err(e),
        Ok(arr) => match spec_array_len(image, arr.address as int) {
            Err(e) => Err(e),
            Ok(n) => collect(n as nat, applied_text_items(image, arr.address as int)),
        },
    }
}

/// What the log keeps of the tower at `t`: nothing unless it is attached to
/// an entity and was not made by another tower; else its id, kind and
/// distinct upgrades.
pub open spec fn spec_log_tower(image: Map<int, u8>, t: int) -> Result<Seq<TowerStateView>, ReadError> {
    match Option::<schema::Entity>::decode(image, t + HEADER_SIZE + 0x38) {
        Err(e) => Err(e),
        Ok(entity) => if entity is None {
            Ok(Seq::empty())
        } else {
            match ObjectId::decode(image, t + HEADER_SIZE + 0xc4) {
                Err(e) => Err(e),
                Ok(parent) => if parent.0 != INVALID_OBJECT_ID {
                    Ok(Seq::empty())
                } else {
                    match spec_text_at(image, t + HEADER_SIZE + 0x90) {
                        Err(e) => Err(e),
                        Ok(id) => match schema::TowerModel::decode(image, t + HEADER_SIZE + 0xd0) {
                            Err(e) => Err(e),
                            Ok(model) => match spec_text_at(image, model.address + HEADER_SIZE + 0x28) {
                                Err(e) => Err(e),
                                Ok(base_id) => match spec_applied_ids(image, model.address as int) {
                                    Err(e) => Err(e),
                                    Ok(ids) => Ok(seq![TowerStateView { id, base_id, upgrades: distinct_texts(ids) }]),
                                },
                            },
                        },
                    }
                },
            }
        },
    }
}

/// The log's record of each of `towers`.
pub open spec fn log_tower_items(image: Map<int, u8>, towers: Seq<schema::Tower>) -> spec_fn(int) -> Result<Seq<TowerStateView>, ReadError> {
    |i: int| spec_log_tower(image, towers[i].address as int)
}

pub struct LogStateView {
    pub map_name: Seq<char>,
    pub mode: Seq<char>,
    pub seed: i32,
    pub time: u64,
    pub towers: Seq<TowerStateView>,
}

#[verifier::opaque]
/// What reading the log state of the simulation at `sim` gives; the elapsed
/// time is taken as unsigned, modulo 2^64.
pub open spec fn spec_log_state(image: Map<int, u8>, sim: int) -> Result<LogStateView, ReadError> {
    match schema::GameModel::decode(image, sim + HEADER_SIZE + 0x10) {
        Err(e) => Err(e),
        Ok(model) => match schema::MapModel::decode(image, model.address + HEADER_SIZE + 0xd0) {
            Err(e) => Err(e),
            Ok(map_model) => match spec_text_at(image, map_model.address + HEADER_SIZE + 0x70) {
                Err(e) => Err(e),
                Ok(map_name) => match spec_text_at(image, model.address + HEADER_SIZE + 0x78) {
                    Err(e) => Err(e),
                    Ok(mode) => match i32::decode(image, model.address + HEADER_SIZE + 0x84) {
                        Err(e) => Err(e),
                        Ok(seed) => match schema::SimulationTime::decode(image, sim + HEADER_SIZE + 0x20) {
                            Err(e) => Err(e),
                            Ok(clock) => match i32::decode(image, clock.address + HEADER_SIZE + 0x0) {
                                Err(e) => Err(e),
                                Ok(elapsed) => {
                                    match schema::GameMap::decode(image, sim + HEADER_SIZE + 0x400) {
                                        Err(e) => Err(e),
                                        Ok(map) => match spec_map_towers(image, map.address as int) {
                                            Err(e) => Err(e),
                                            Ok(all) => match collect_concat(all.len(), log_tower_items(image, all)) {
                                                Err(e) => Err(e),
                                                Ok(records) => Ok(LogStateView {
                                                    map_name,
                                                    mode,
                                                    seed,
                                                    time: i32_as_u64(elapsed),
                                                    towers: keyed_towers(records),
                                                }),
                                            },
                                        },
                                    }
                                },
                            },
                        },
                    },
                },
            },
        },
    }
}

/// The label of a session: the map's name and the mode, a space between.
pub fn session_label(map_name: &String, mode: &String) -> (r: String)
    ensures
        r@ == map_name@ + seq![' '] + mode@,
{
    let mut label = map_name.clone();
    label.append(" ");
    label.append(mode.as_str());
    proof {
        reveal_strlit(" ");
    }
    assert(label@ =~= map_name@ + seq![' '] + mode@);
    label
}

fn contains_text(v: &Vec<String>, s: &String) -> (r: bool)
    ensures
        r == texts(v@).contains(s@),
{
    crate::log::contains_text(v, s)
}

fn applied_ids<M: ReadMemory>(model: &schema::TowerModel, mem: &M) -> (r: Result<Vec<String>, ReadError>)
    ensures
        match spec_applied_ids(mem.image().bytes@, model.address as int) {
            Err(e) => r == Err::<Vec<String>, ReadError>(e),
            Ok(ids) => r matches Ok(v) && texts(v@) == distinct_texts(ids),
        },
{
    let ghost image = mem.image().bytes@;
    let items = model.applied_upgrades(mem)?;
    let n = items.len(mem)?;
    let ghost f = applied_text_items(image, items.address as int);
    let mut out: Vec<String> = Vec::new();
    assert(texts(out@) =~= Seq::<Seq<char>>::empty());
    let mut i: u32 = 0;
    while i < n
        invariant
            image == mem.image().bytes@,
            f == applied_text_items(image, items.address as int),
            Array::<CSharpString>::decode(image, model.address + HEADER_SIZE + 0xc0) == Ok::<Array<CSharpString>, ReadError>(items),
            spec_array_len(image, items.address as int) == Ok::<u32, ReadError>(n),
            i <= n,
            collect(i as nat, f) matches Ok(ids) && texts(out@) == distinct_texts(ids),
        decreases n - i,
    {
        let ghost ids = collect(i as nat, f)->Ok_0;
        let step = match items.get(mem, i as usize) {
            Ok(s) => s.text(mem),
            Err(e) => Err(e),
        };
        match step {
            Err(e) => {
                proof { lemma_collect_fails((i + 1) as nat, n as nat, f, e); }
                return Err(e);
            },
            Ok(t) => {
                proof {
                    let next = ids.push(t@);
                    assert(next.drop_last() =~= ids);
                }
                if !contains_text(&out, &t) {
                    let ghost before = out@;
                    out.push(t);
                    assert(texts(out@) =~= texts(before).push(out@.last()@));
                }
            },
        }
        i = i + 1;
    }
    Ok(out)
}

fn log_tower<M: ReadMemory>(tower: &schema::Tower, mem: &M, out: &mut Vec<TowerState>) -> (r: Result<(), ReadError>)
    ensures
        match spec_log_tower(mem.image().bytes@, tower.address as int) {
            Err(e) => r == Err::<(), ReadError>(e),
            Ok(x) => r is Ok && tower_views(final(out)@) == tower_views(old(out)@) + x,
        },
{
    let entity = tower.base().entity(mem)?;
    if entity.is_none() {
        assert(tower_views(out@) =~= tower_views(out@) + Seq::<TowerStateView>::empty());
        return Ok(());
    }
    let parent = tower.parent_tower_id(mem)?;
    if parent.0 != INVALID_OBJECT_ID {
        assert(tower_views(out@) =~= tower_views(out@) + Seq::<TowerStateView>::empty());
        return Ok(());
    }
    let id = read_text(tower, mem, 0x90)?;
    let model = tower.model(mem)?;
    let base_id = read_text(&model, mem, 0x28)?;
    let upgrades = applied_ids(&model, mem)?;
    let ghost before = out@;
    out.push(TowerState { id, base_id, upgrades });
    assert(tower_views(out@) =~= tower_views(before) + seq![out@.last()@]);
    Ok(())
}

proof fn lemma_insert_tower_unique(towers: Seq<TowerStateView>, t: TowerStateView)
    requires
        unique_ids(towers),
    ensures
        unique_ids(insert_tower(towers, t)),
{
    if exists|i: int| 0 <= i < towers.len() && towers[i].id == t.id {
        let c = choose|i: int| 0 <= i < towers.len() && towers[i].id == t.id;
        let r = towers.update(c, t);
        assert forall|i: int, j: int| 0 <= i < r.len() && 0 <= j < r.len() && i != j implies #[trigger] r[i].id != #[trigger] r[j].id by {
            if i == c {
                assert(towers[j].id != towers[c].id);
            } else if j == c {
                assert(towers[i].id != towers[c].id);
            } else {
                assert(towers[i].id != towers[j].id);
            }
        }
    } else {
        let r = towers.push(t);
        assert forall|i: int, j: int| 0 <= i < r.len() && 0 <= j < r.len() && i != j implies #[trigger] r[i].id != #[trigger] r[j].id by {
            if i < towers.len() && j < towers.len() {
                assert(towers[i].id != towers[j].id);
            }
        }
    }
}

fn insert_state(towers: &mut Vec<TowerState>, t: TowerState)
    requires
        unique_ids(tower_views(old(towers)@)),
        distinct_upgrades(tower_views(old(towers)@)),
        t@.upgrades.no_duplicates(),
    ensures
        distinct_upgrades(tower_views(final(towers)@)),
        tower_views(final(towers)@) == insert_tower(tower_views(old(towers)@), t@),
        unique_ids(tower_views(final(towers)@)),
{
    let ghost ts = tower_views(towers@);
    proof { lemma_insert_tower_unique(ts, t@); }
    let mut i: usize = 0;
    while i < towers.len()
        invariant
            ts == tower_views(towers@),
            ts == tower_views(old(towers)@),
            unique_ids(ts),
            distinct_upgrades(ts),
            t@.upgrades.no_duplicates(),
            i <= ts.len(),
            forall|j: int| 0 <= j < i ==> ts[j].id != t@.id,
        decreases ts.len() - i,
    {
        if towers[i].id == t.id {
            proof {
                assert(ts[i as int].id == t@.id);
                let c = choose|k: int| 0 <= k < ts.len() && ts[k].id == t@.id;
                if c != i {
                    assert(ts[c].id != ts[i as int].id);
                }
            }
            let ghost tv = t@;
            towers.set(i, t);
            assert(tower_views(towers@) =~= ts.update(i as int, tv));
            assert(distinct_upgrades(ts.update(i as int, tv)));
            return;
        }
        i = i + 1;
    }
    let ghost tv = t@;
    towers.push(t);
    assert(tower_views(towers@) =~= ts.push(tv));
    assert(distinct_upgrades(ts.push(tv)));
}

fn log_records<M: ReadMemory>(all: &Vec<schema::Tower>, mem: &M) -> (r: Result<Vec<TowerState>, ReadError>)
    ensures
        match collect_concat(all@.len(), log_tower_items(mem.image().bytes@, all@)) {
            Err(e) => r == Err::<Vec<TowerState>, ReadError>(e),
            Ok(x) => r matches Ok(v) && tower_views(v@) == x && distinct_upgrades(x),
        },
{
    let ghost image = mem.image().bytes@;
    let ghost f = log_tower_items(image, all@);
    let mut records: Vec<TowerState> = Vec::new();
    assert(tower_views(records@) =~= Seq::<TowerStateView>::empty());
    let mut i: usize = 0;
    while i < all.len()
        invariant
            image == mem.image().bytes@,
            f == log_tower_items(image, all@),
            i <= all@.len(),
            collect_concat(i as nat, f) == Ok::<Seq<TowerStateView>, ReadError>(tower_views(records@)),
            distinct_upgrades(tower_views(records@)),
        decreases all@.len() - i,
    {
        let ghost before = tower_views(records@);
        proof { lemma_log_tower_distinct(image, all@[i as int].address as int); }
        if let Err(e) = log_tower(&all[i], mem, &mut records) {
            proof { lemma_collect_concat_fails((i + 1) as nat, all@.len(), f, e); }
            return Err(e);
        }
        i = i + 1;
    }
    Ok(records)
}

fn keyed(records: &Vec<TowerState>) -> (r: Vec<TowerState>)
    requires
        distinct_upgrades(tower_views(records@)),
    ensures
        distinct_upgrades(tower_views(r@)),
        tower_views(r@) == keyed_towers(tower_views(records@)),
        unique_ids(tower_views(r@)),
{
    let ghost rs = tower_views(records@);
    let mut towers: Vec<TowerState> = Vec::new();
    assert(tower_views(towers@) =~= keyed_towers(rs.take(0)));
    let mut k: usize = 0;
    while k < records.len()
        invariant
            rs == tower_views(records@),
            k <= rs.len(),
            tower_views(towers@) == keyed_towers(rs.take(k as int)),
            unique_ids(tower_views(towers@)),
            distinct_upgrades(tower_views(towers@)),
            distinct_upgrades(rs),
        decreases rs.len() - k,
    {
        let copy = records[k].copied();
        assert(rs[k as int].upgrades.no_duplicates());
        insert_state(&mut towers, copy);
        assert(rs.take(k + 1).drop_last() =~= rs.take(k as int));
        k = k + 1;
    }
    assert(rs.take(k as int) =~= rs);
    towers
}

impl GameLogState {
    /// Reads the state the log follows from the simulation `sim`: the session
    /// label (map and mode), seed, elapsed time and the player's towers, one
    /// per id.
    pub fn load<M: ReadMemory>(sim: &schema::Simulation, mem: &M) -> (r: Result<GameLogState, ReadError>)
        ensures
            match spec_log_state(mem.image().bytes@, sim.address as int) {
                Err(e) => r matches Err(f) && f == e,
                Ok(v) => r matches Ok(s) && s.wf() && s.label@ == v.map_name + seq![' '] + v.mode
                    && s.seed == v.seed && s@.time == v.time && s@.towers == v.towers,
            },
    {
        proof { reveal(spec_log_state); }
        let ghost image = mem.image().bytes@;
        let model = sim.model(mem)?;
        let map_model = model.map(mem)?;
        let map_name = read_text(&map_model, mem, 0x70)?;
        let mode = read_text(&model, mem, 0x78)?;
        let seed = model.random_seed(mem)?;
        let elapsed = sim.time(mem)?.elapsed(mem)?;
        let map = sim.map(mem)?;
        let all = map_towers(&map, mem)?;

        let records = log_records(&all, mem)?;
        let towers = keyed(&records);
        let label = session_label(&map_name, &mode);
        Ok(GameLogState { label, seed, time: widen_i32(elapsed), towers })
    }
}

} // verus!
