//! The summary view of a match for display: its towers, and the upgrade
//! models looked up by id.
use vstd::prelude::*;

use crate::containers::{spec_array_get, spec_array_len, spec_list_get, spec_list_len, Array, List};
use crate::game::{cash_manager, spec_cash_manager, spec_konfuze, spec_simulation};
use crate::object::{cast, spec_verify, Object};
use crate::schema::{ObjectId, TowerSet, INVALID_OBJECT_ID};
use crate::snapshot::{collect_concat, lemma_collect_concat_fails};
use crate::scalar::{i32_as_u64, widen_i32};
use crate::state::{map_towers, spec_map_towers};
use crate::memory::{ReadError, ReadMemory};
use crate::object::{MemoryRead, HEADER_SIZE};
use crate::schema;
use crate::snapshot::{agrees, collect, lemma_collect_fails, read_text, spec_text_at, spec_tiers};

verus! {

/// A hero tower: its id, kind, level and the bit pattern of its
/// single-precision sell value.
#[derive(Debug, Clone, PartialEq, Eq)]
pub struct Hero {
    pub id: String,
    pub name: String,
    pub level: u8,
    pub worth_bits: u32,
}

pub struct HeroView {
    pub id: Seq<char>,
    pub name: Seq<char>,
    pub level: u8,
    pub worth_bits: u32,
}

impl View for Hero {
    type V = HeroView;

    open spec fn view(&self) -> HeroView {
        HeroView { id: self.id@, name: self.name@, level: self.level, worth_bits: self.worth_bits }
    }
}

/// What loading the tower at `t` as a hero gives; the level is the low byte
/// of the model's tier.
pub open spec fn spec_hero(image: Map<int, u8>, t: int) -> Result<HeroView, ReadError> {
    match spec_text_at(image, t + HEADER_SIZE + 0x90) {
        Err(e) => Err(e),
        Ok(id) => match schema::TowerModel::decode(image, t + HEADER_SIZE + 0xd0) {
            Err(e) => Err(e),
            Ok(model) => match spec_text_at(image, model.address + HEADER_SIZE + 0x28) {
                Err(e) => Err(e),
                Ok(name) => match u32::decode(image, model.address + HEADER_SIZE + 0x44) {
                    Err(e) => Err(e),
                    Ok(tier) => match u32::decode(image, t + HEADER_SIZE + 0x98) {
                        Err(e) => Err(e),
                        Ok(worth_bits) => Ok(HeroView { id, name, level: (tier % 256) as u8, worth_bits }),
                    },
                },
            },
        },
    }
}

impl Hero {
    /// Copies a hero tower.
    pub fn load<M: ReadMemory>(tower: &schema::Tower, mem: &M) -> (r: Result<Hero, ReadError>)
        ensures
            agrees(r, spec_hero(mem.image().bytes@, tower.address as int)),
    {
        let id = read_text(tower, mem, 0x90)?;
        let model = tower.model(mem)?;
        let name = read_text(&model, mem, 0x28)?;
        let tier = model.tier(mem)?;
        let worth_bits = tower.worth_bits(mem)?;
        Ok(Hero { id, name, level: (tier % 256) as u8, worth_bits })
    }
}

/// A tower other than a hero: its id, kind, the tier of each of its three
/// upgrade paths and the bit pattern of its single-precision sell value.
#[derive(Debug, Clone, PartialEq, Eq)]
pub struct BasicTower {
    pub id: String,
    pub name: String,
    pub tiers: [u8; 3],
    pub worth_bits: u32,
}

pub struct BasicTowerView {
    pub id: Seq<char>,
    pub name: Seq<char>,
    pub tiers: Seq<u8>,
    pub worth_bits: u32,
}

impl View for BasicTower {
    type V = BasicTowerView;

    open spec fn view(&self) -> BasicTowerView {
        BasicTowerView { id: self.id@, name: self.name@, tiers: self.tiers@, worth_bits: self.worth_bits }
    }
}

/// What loading the tower at `t` gives; its model must have three tiers.
pub open spec fn spec_basic_tower(image: Map<int, u8>, t: int) -> Result<BasicTowerView, ReadError> {
    match spec_text_at(image, t + HEADER_SIZE + 0x90) {
        Err(e) => Err(e),
        Ok(id) => match schema::TowerModel::decode(image, t + HEADER_SIZE + 0xd0) {
            Err(e) => Err(e),
            Ok(model) => match spec_text_at(image, model.address + HEADER_SIZE + 0x28) {
                Err(e) => Err(e),
                Ok(name) => match spec_tiers(image, model.address as int) {
                    Err(e) => Err(e),
                    Ok(tiers) => if tiers.len() != 3 {
                        Err(ReadError::ValueOutOfRange)
                    } else {
                        match u32::decode(image, t + HEADER_SIZE + 0x98) {
                            Err(e) => Err(e),
                            Ok(worth_bits) => Ok(BasicTowerView { id, name, tiers, worth_bits }),
                        }
                    },
                },
            },
        },
    }
}

impl BasicTower {
    /// Copies a tower other than a hero.
    pub fn load<M: ReadMemory>(tower: &schema::Tower, mem: &M) -> (r: Result<BasicTower, ReadError>)
        ensures
            agrees(r, spec_basic_tower(mem.image().bytes@, tower.address as int)),
    {
        let id = read_text(tower, mem, 0x90)?;
        let model = tower.model(mem)?;
        let name = read_text(&model, mem, 0x28)?;
        let tiers = crate::snapshot::load_tiers(&model, mem)?;
        if tiers.len() != 3 {
            return Err(ReadError::ValueOutOfRange);
        }
        let worth_bits = tower.worth_bits(mem)?;
        let three = [tiers[0], tiers[1], tiers[2]];
        assert(three@ =~= tiers@);
        Ok(BasicTower { id, name, tiers: three, worth_bits })
    }
}

/// An upgrade model with the name it is looked up by.
#[derive(Debug, Clone, PartialEq, Eq)]
pub struct CachedUpgrade {
    pub name: String,
    pub model: schema::UpgradeModel,
}

pub struct CachedUpgradeView {
    pub name: Seq<char>,
    pub model: schema::UpgradeModel,
}

impl View for CachedUpgrade {
    type V = CachedUpgradeView;

    open spec fn view(&self) -> CachedUpgradeView {
        CachedUpgradeView { name: self.name@, model: self.model }
    }
}

/// The views of a sequence of cached upgrades.
pub open spec fn cached_views(v: Seq<CachedUpgrade>) -> Seq<CachedUpgradeView> {
    Seq::new(v.len(), |i: int| v[i]@)
}

/// Each upgrade model of the array at `array` with its name.
pub open spec fn cached_items(image: Map<int, u8>, array: int) -> spec_fn(int) -> Result<CachedUpgradeView, ReadError> {
    |i: int| match spec_array_get::<schema::UpgradeModel>(image, array, i) {
        Err(e) => Err(e),
        Ok(m) => match spec_text_at(image, m.address + HEADER_SIZE + 0x0) {
            Err(e) => Err(e),
            Ok(name) => Ok(CachedUpgradeView { name, model: m }),
        },
    }
}

/// Every upgrade model of the game model at `model` with its name, in order.
pub open spec fn spec_model_cache(image: Map<int, u8>, model: int) -> Result<Seq<CachedUpgradeView>, ReadError> {
    match Array::<schema::UpgradeModel>::decode(image, model + HEADER_SIZE + 0xf8) {
        Err(e) => Err(e),
        Ok(arr) => match spec_array_len(image, arr.address as int) {
            Err(e) => Err(e),
            Ok(n) => collect(n as nat, cached_items(image, arr.address as int)),
        },
    }
}

/// The model of the last upgrade named `name`: a later model with a name
/// takes the place of an earlier one. A missing name means the model changed
/// while it was read.
pub open spec fn spec_cached(entries: Seq<CachedUpgradeView>, name: Seq<char>) -> Result<schema::UpgradeModel, ReadError> {
    if exists|i: int| 0 <= i < entries.len() && entries[i].name == name && forall|j: int| i < j < entries.len() ==> entries[j].name != name {
        Ok(entries[choose|i: int| 0 <= i < entries.len() && entries[i].name == name && forall|j: int| i < j < entries.len() ==> entries[j].name != name].model)
    } else {
        Err(ReadError::Inconsistent)
    }
}

/// The upgrade models of a game model, looked up by name.
#[derive(Debug, Clone, PartialEq, Eq)]
pub struct ModelCache {
    pub upgrades: Vec<CachedUpgrade>,
}

impl View for ModelCache {
    type V = Seq<CachedUpgradeView>;

    open spec fn view(&self) -> Seq<CachedUpgradeView> {
        cached_views(self.upgrades@)
    }
}

impl ModelCache {
    /// Names every upgrade model of `model`.
    pub fn load<M: ReadMemory>(model: &schema::GameModel, mem: &M) -> (r: Result<ModelCache, ReadError>)
        ensures
            agrees(r, spec_model_cache(mem.image().bytes@, model.address as int)),
    {
        let ghost image = mem.image().bytes@;
        let models = model.upgrades(mem)?;
        let n = models.len(mem)?;
        let ghost f = cached_items(image, models.address as int);
        let mut upgrades: Vec<CachedUpgrade> = Vec::new();
        assert(cached_views(upgrades@) =~= Seq::<CachedUpgradeView>::empty());
        let mut i: u32 = 0;
        while i < n
            invariant
                image == mem.image().bytes@,
                f == cached_items(image, models.address as int),
                Array::<schema::UpgradeModel>::decode(image, model.address + HEADER_SIZE + 0xf8)
                    == Ok::<Array<schema::UpgradeModel>, ReadError>(models),
                spec_array_len(image, models.address as int) == Ok::<u32, ReadError>(n),
                i <= n,
                collect(i as nat, f) == Ok::<Seq<CachedUpgradeView>, ReadError>(cached_views(upgrades@)),
            decreases n - i,
        {
            let step = match models.get(mem, i as usize) {
                Err(e) => Err(e),
                Ok(m) => match read_text(&m, mem, 0x0) {
                    Err(e) => Err(e),
                    Ok(name) => Ok(CachedUpgrade { name, model: m }),
                },
            };
            match step {
                Err(e) => {
                    proof { lemma_collect_fails((i + 1) as nat, n as nat, f, e); }
                    return Err(e);
                },
                Ok(c) => {
                    let ghost before = upgrades@;
                    upgrades.push(c);
                    assert(cached_views(upgrades@) =~= cached_views(before).push(c@));
                },
            }
            i = i + 1;
        }
        Ok(ModelCache { upgrades })
    }

    /// The model of the upgrade that the link `id` names.
    pub fn get_upgrade<M: ReadMemory>(&self, id: &schema::UpgradePathModel, mem: &M) -> (r: Result<schema::UpgradeModel, ReadError>)
        ensures
            match spec_text_at(mem.image().bytes@, id.address + HEADER_SIZE + 0x8) {
                Err(e) => r == Err::<schema::UpgradeModel, ReadError>(e),
                Ok(name) => r == spec_cached(self@, name),
            },
    {
        let name = read_text(id, mem, 0x8)?;
        let ghost es = self@;
        let mut i: usize = self.upgrades.len();
        while i > 0
            invariant
                es == self@,
                spec_text_at(mem.image().bytes@, id.address + HEADER_SIZE + 0x8) == Ok::<Seq<char>, ReadError>(name@),
                i <= es.len(),
                forall|j: int| i <= j < es.len() ==> es[j].name != name@,
            decreases i,
        {
            i = i - 1;
            if self.upgrades[i].name == name {
                proof {
                    let p = |k: int| 0 <= k < es.len() && es[k].name == name@ && forall|j: int| k < j < es.len() ==> es[j].name != name@;
                    assert(p(i as int));
                    let c = choose|k: int| 0 <= k < es.len() && es[k].name == name@ && forall|j: int| k < j < es.len() ==> es[j].name != name@;
                    assert(p(c));
                    if c < i {
                        assert(es[i as int].name != name@);
                    } else if c > i {
                        assert(es[c].name != name@);
                    }
                }
                return Ok(self.upgrades[i].model);
            }
        }
        Err(ReadError::Inconsistent)
    }
}

/// A tower of the summary.
#[derive(Debug, Clone, PartialEq, Eq)]
pub enum Tower {
    Basic(BasicTower),
    Hero(Hero),
}

pub enum TowerView {
    Basic(BasicTowerView),
    Hero(HeroView),
}

impl View for Tower {
    type V = TowerView;

    open spec fn view(&self) -> TowerView {
        match self {
            Tower::Basic(t) => TowerView::Basic(t@),
            Tower::Hero(h) => TowerView::Hero(h@),
        }
    }
}

/// The views of a sequence of summary towers.
pub open spec fn summary_tower_views(v: Seq<Tower>) -> Seq<TowerView> {
    Seq::new(v.len(), |i: int| v[i]@)
}

/// What the summary keeps of the tower at `t`: nothing unless it is attached
/// to an entity and was not made by another tower; else a hero or a basic
/// tower, as its model's tower set says.
pub open spec fn spec_summary_tower(image: Map<int, u8>, t: int) -> Result<Seq<TowerView>, ReadError> {
    match Option::<schema::Entity>::decode(image, t + HEADER_SIZE + 0x38) {
        Err(e) => Err(e),
        Ok(entity) => if entity is None {
            Ok(Seq::empty())
        } else {
            match ObjectId::decode(image, t + HEADER_SIZE + 0xc4) {
                Err(e) => Err(e),
                Ok(parent) => if parent.0 != INVALID_OBJECT_ID {
                    Ok(Seq::empty())
                } else {
                    match schema::TowerModel::decode(image, t + HEADER_SIZE + 0xd0) {
                        Err(e) => Err(e),
                        Ok(model) => match u32::decode(image, model.address + HEADER_SIZE + 0x50) {
                            Err(e) => Err(e),
                            Ok(set) => if set == TowerSet::HERO {
                                match spec_hero(image, t) {
                                    Err(e) => Err(e),
                                    Ok(h) => Ok(seq![TowerView::Hero(h)]),
                                }
                            } else {
                                match spec_basic_tower(image, t) {
                                    Err(e) => Err(e),
                                    Ok(b) => Ok(seq![TowerView::Basic(b)]),
                                }
                            },
                        },
                    }
                },
            }
        },
    }
}

/// The summary's record of each of `towers`.
pub open spec fn summary_tower_items(image: Map<int, u8>, towers: Seq<schema::Tower>) -> spec_fn(int) -> Result<Seq<TowerView>, ReadError> {
    |i: int| spec_summary_tower(image, towers[i].address as int)
}

fn summary_tower<M: ReadMemory>(tower: &schema::Tower, mem: &M, out: &mut Vec<Tower>) -> (r: Result<(), ReadError>)
    ensures
        match spec_summary_tower(mem.image().bytes@, tower.address as int) {
            Err(e) => r == Err::<(), ReadError>(e),
            Ok(x) => r is Ok && summary_tower_views(final(out)@) == summary_tower_views(old(out)@) + x,
        },
{
    let entity = tower.base().entity(mem)?;
    if entity.is_none() {
        assert(summary_tower_views(out@) =~= summary_tower_views(out@) + Seq::<TowerView>::empty());
        return Ok(());
    }
    let parent = tower.parent_tower_id(mem)?;
    if parent.0 != INVALID_OBJECT_ID {
        assert(summary_tower_views(out@) =~= summary_tower_views(out@) + Seq::<TowerView>::empty());
        return Ok(());
    }
    let set = tower.model(mem)?.tower_set(mem)?;
    let t = if set == TowerSet::HERO {
        Tower::Hero(Hero::load(tower, mem)?)
    } else {
        Tower::Basic(BasicTower::load(tower, mem)?)
    };
    let ghost before = out@;
    out.push(t);
    assert(summary_tower_views(out@) =~= summary_tower_views(before) + seq![out@.last()@]);
    Ok(())
}

fn summary_towers<M: ReadMemory>(towers: &Vec<schema::Tower>, mem: &M) -> (r: Result<Vec<Tower>, ReadError>)
    ensures
        match collect_concat(towers@.len(), summary_tower_items(mem.image().bytes@, towers@)) {
            Err(e) => r == Err::<Vec<Tower>, ReadError>(e),
            Ok(x) => r matches Ok(v) && summary_tower_views(v@) == x,
        },
{
    let ghost image = mem.image().bytes@;
    let ghost f = summary_tower_items(image, towers@);
    let mut out: Vec<Tower> = Vec::new();
    assert(summary_tower_views(out@) =~= Seq::<TowerView>::empty());
    let mut i: usize = 0;
    while i < towers.len()
        invariant
            image == mem.image().bytes@,
            f == summary_tower_items(image, towers@),
            i <= towers@.len(),
            collect_concat(i as nat, f) == Ok::<Seq<TowerView>, ReadError>(summary_tower_views(out@)),
        decreases towers@.len() - i,
    {
        if let Err(e) = summary_tower(&towers[i], mem, &mut out) {
            proof { lemma_collect_concat_fails((i + 1) as nat, towers@.len(), f, e); }
            return Err(e);
        }
        i = i + 1;
    }
    Ok(out)
}

/// An upgrade open to a tower, with its cost as an unsigned number.
#[derive(Debug, Clone, Copy, PartialEq, Eq)]
pub struct AvailableUpgrade {
    pub tower: schema::Tower,
    pub upgrade: schema::UpgradeModel,
    pub cost: u64,
}

/// Each upgrade link of the array at `links`, resolved through `cache`, for `tower`.
pub open spec fn link_items(image: Map<int, u8>, cache: Seq<CachedUpgradeView>, tower: schema::Tower, links: int) -> spec_fn(int) -> Result<AvailableUpgrade, ReadError> {
    |j: int| spec_link(image, cache, tower, links, j)
}

#[verifier::opaque]
/// Link `j` of the array at `links`, resolved through `cache`, for `tower`.
pub open spec fn spec_link(image: Map<int, u8>, cache: Seq<CachedUpgradeView>, tower: schema::Tower, links: int, j: int) -> Result<AvailableUpgrade, ReadError> {
    match spec_array_get::<schema::UpgradePathModel>(image, links, j) {
        Err(e) => Err(e),
        Ok(link) => match spec_text_at(image, link.address + HEADER_SIZE + 0x8) {
            Err(e) => Err(e),
            Ok(name) => match spec_cached(cache, name) {
                Err(e) => Err(e),
                Ok(m) => match i32::decode(image, m.address + HEADER_SIZE + 0x20) {
                    Err(e) => Err(e),
                    Ok(cost) => Ok(AvailableUpgrade { tower, upgrade: m, cost: i32_as_u64(cost) }),
                },
            },
        },
    }
}

/// The upgrades open to the tower at `tower`, in its model's order.
pub open spec fn spec_tower_upgrades(image: Map<int, u8>, cache: Seq<CachedUpgradeView>, tower: schema::Tower) -> Result<Seq<AvailableUpgrade>, ReadError> {
    match schema::TowerModel::decode(image, tower.address + HEADER_SIZE + 0xd0) {
        Err(e) => Err(e),
        Ok(model) => match Array::<schema::UpgradePathModel>::decode(image, model.address + HEADER_SIZE + 0xb8) {
            Err(e) => Err(e),
            Ok(links) => match spec_array_len(image, links.address as int) {
                Err(e) => Err(e),
                Ok(n) => collect(n as nat, link_items(image, cache, tower, links.address as int)),
            },
        },
    }
}

/// The upgrades open to each of `towers`.
pub open spec fn available_items(image: Map<int, u8>, cache: Seq<CachedUpgradeView>, towers: Seq<schema::Tower>) -> spec_fn(int) -> Result<Seq<AvailableUpgrade>, ReadError> {
    |i: int| spec_tower_upgrades(image, cache, towers[i])
}

#[verifier::opaque]
/// `sorted` with `x` placed after every item that costs no more than it.
pub open spec fn insert_by_cost(sorted: Seq<AvailableUpgrade>, x: AvailableUpgrade) -> Seq<AvailableUpgrade>
    decreases sorted.len(),
{
    if sorted.len() == 0 {
        seq![x]
    } else if sorted.last().cost <= x.cost {
        sorted.push(x)
    } else {
        insert_by_cost(sorted.drop_last(), x).push(sorted.last())
    }
}

#[verifier::opaque]
/// `items` in order of cost; items of equal cost keep their order.
pub open spec fn sort_by_cost(items: Seq<AvailableUpgrade>) -> Seq<AvailableUpgrade>
    decreases items.len(),
{
    if items.len() == 0 {
        Seq::empty()
    } else {
        insert_by_cost(sort_by_cost(items.drop_last()), items.last())
    }
}

proof fn lemma_insert_at(sorted: Seq<AvailableUpgrade>, x: AvailableUpgrade, p: int)
    requires
        0 <= p <= sorted.len(),
        p == 0 || sorted[p - 1].cost <= x.cost,
        forall|k: int| p <= k < sorted.len() ==> sorted[k].cost > x.cost,
    ensures
        insert_by_cost(sorted, x) == sorted.insert(p, x),
    decreases sorted.len(),
{
    reveal(insert_by_cost);
    if sorted.len() == 0 {
        assert(sorted.insert(p, x) =~= seq![x]);
    } else if p == sorted.len() {
        assert(sorted.insert(p, x) =~= sorted.push(x));
    } else {
        let rest = sorted.drop_last();
        lemma_insert_at(rest, x, p);
        assert(sorted.insert(p, x) =~= rest.insert(p, x).push(sorted.last()));
    }
}

/// Costs never decrease along `items`.
pub open spec fn cost_sorted(items: Seq<AvailableUpgrade>) -> bool {
    forall|i: int, j: int| 0 <= i < j < items.len() ==> #[trigger] items[i].cost <= #[trigger] items[j].cost
}

proof fn lemma_insert_bounded(sorted: Seq<AvailableUpgrade>, x: AvailableUpgrade, bound: u64)
    requires
        forall|i: int| 0 <= i < sorted.len() ==> #[trigger] sorted[i].cost <= bound,
        x.cost <= bound,
    ensures
        forall|i: int| 0 <= i < insert_by_cost(sorted, x).len() ==> #[trigger] insert_by_cost(sorted, x)[i].cost <= bound,
    decreases sorted.len(),
{
    reveal(insert_by_cost);
    if sorted.len() == 0 {
        assert(insert_by_cost(sorted, x) =~= seq![x]);
    } else if sorted.last().cost <= x.cost {
        let r = sorted.push(x);
        assert(insert_by_cost(sorted, x) == r);
        assert forall|i: int| 0 <= i < r.len() implies #[trigger] r[i].cost <= bound by {
            if i < sorted.len() {
                assert(sorted[i].cost <= bound);
            }
        }
    } else {
        let rest = sorted.drop_last();
        assert forall|i: int| 0 <= i < rest.len() implies #[trigger] rest[i].cost <= bound by {
            assert(sorted[i].cost <= bound);
        }
        lemma_insert_bounded(rest, x, bound);
        let ins = insert_by_cost(rest, x);
        let r = ins.push(sorted.last());
        assert(insert_by_cost(sorted, x) == r);
        assert(sorted[sorted.len() - 1].cost <= bound);
        assert forall|i: int| 0 <= i < r.len() implies #[trigger] r[i].cost <= bound by {
            if i < ins.len() {
                assert(ins[i].cost <= bound);
            }
        }
    }
}

proof fn lemma_insert_keeps_sorted(sorted: Seq<AvailableUpgrade>, x: AvailableUpgrade)
    requires
        cost_sorted(sorted),
    ensures
        cost_sorted(insert_by_cost(sorted, x)),
    decreases sorted.len(),
{
    reveal(insert_by_cost);
    if sorted.len() == 0 {
    } else if sorted.last().cost <= x.cost {
        let r = sorted.push(x);
        assert forall|i: int, j: int| 0 <= i < j < r.len() implies #[trigger] r[i].cost <= #[trigger] r[j].cost by {
            if j == r.len() - 1 && i < sorted.len() - 1 {
                assert(sorted[i].cost <= sorted[sorted.len() - 1].cost);
            }
        }
    } else {
        let rest = sorted.drop_last();
        let last = sorted.last();
        lemma_insert_keeps_sorted(rest, x);
        assert forall|i: int| 0 <= i < rest.len() implies #[trigger] rest[i].cost <= last.cost by {
            assert(sorted[i].cost <= sorted[sorted.len() - 1].cost);
        }
        lemma_insert_bounded(rest, x, last.cost);
        let ins = insert_by_cost(rest, x);
        let r = ins.push(last);
        assert forall|i: int, j: int| 0 <= i < j < r.len() implies #[trigger] r[i].cost <= #[trigger] r[j].cost by {
            if j == r.len() - 1 {
                assert(ins[i].cost <= last.cost);
            } else {
                assert(ins[i].cost <= ins[j].cost);
            }
        }
    }
}

/// The upgrades come out cheapest first.
pub proof fn lemma_sort_by_cost_sorted(items: Seq<AvailableUpgrade>)
    ensures
        cost_sorted(sort_by_cost(items)),
    decreases items.len(),
{
    reveal(sort_by_cost);
    if items.len() > 0 {
        lemma_sort_by_cost_sorted(items.drop_last());
        lemma_insert_keeps_sorted(sort_by_cost(items.drop_last()), items.last());
    }
}

fn insert_sorted(out: &mut Vec<AvailableUpgrade>, x: AvailableUpgrade)
    ensures
        final(out)@ == insert_by_cost(old(out)@, x),
{
    let mut p = out.len();
    while p > 0 && out[p - 1].cost > x.cost
        invariant
            p <= out@.len(),
            out@ == old(out)@,
            forall|k: int| p <= k < out@.len() ==> out@[k].cost > x.cost,
        decreases p,
    {
        p = p - 1;
    }
    proof { lemma_insert_at(out@, x, p as int); }
    out.insert(p, x);
}

/// The upgrades open to each of `towers`, cheapest first; upgrades of equal
/// cost keep the order of the towers and of each tower's model.
pub fn get_all_available_upgrades<M: ReadMemory>(cache: &ModelCache, towers: &Vec<schema::Tower>, mem: &M) -> (r: Result<Vec<AvailableUpgrade>, ReadError>)
    ensures
        match collect_concat(towers@.len(), available_items(mem.image().bytes@, cache@, towers@)) {
            Err(e) => r == Err::<Vec<AvailableUpgrade>, ReadError>(e),
            Ok(all) => r matches Ok(v) && v@ == sort_by_cost(all),
        },
{
    let ghost image = mem.image().bytes@;
    let ghost f = available_items(image, cache@, towers@);
    let mut sorted: Vec<AvailableUpgrade> = Vec::new();
    let ghost mut all: Seq<AvailableUpgrade> = Seq::empty();
    proof { reveal(sort_by_cost); }
    assert(sorted@ =~= sort_by_cost(all));
    let mut i: usize = 0;
    while i < towers.len()
        invariant
            image == mem.image().bytes@,
            f == available_items(image, cache@, towers@),
            i <= towers@.len(),
            collect_concat(i as nat, f) == Ok::<Seq<AvailableUpgrade>, ReadError>(all),
            sorted@ == sort_by_cost(all),
        decreases towers@.len() - i,
    {
        let tower = towers[i];
        let ghost g = i;
        let step = tower_upgrades(cache, &tower, mem, &mut sorted, Ghost(all));
        match step {
            Err(e) => {
                proof { lemma_collect_concat_fails((i + 1) as nat, towers@.len(), f, e); }
                return Err(e);
            },
            Ok(ups) => {
                proof { all = all + ups@; }
            },
        }
        i = i + 1;
    }
    Ok(sorted)
}

fn link_upgrade<M: ReadMemory>(cache: &ModelCache, tower: &schema::Tower, links: &Array<schema::UpgradePathModel>, j: u32, mem: &M) -> (r: Result<AvailableUpgrade, ReadError>)
    ensures
        r == spec_link(mem.image().bytes@, cache@, *tower, links.address as int, j as int),
{
    proof { reveal(spec_link); }
    let link = links.get(mem, j as usize)?;
    let m = cache.get_upgrade(&link, mem)?;
    let c = m.cost(mem)?;
    Ok(AvailableUpgrade { tower: *tower, upgrade: m, cost: widen_i32(c) })
}

proof fn lemma_sort_append(all: Seq<AvailableUpgrade>, more: Seq<AvailableUpgrade>, j: int)
    requires
        0 <= j < more.len(),
    ensures
        sort_by_cost(all + more.take(j + 1)) == insert_by_cost(sort_by_cost(all + more.take(j)), more[j]),
{
    reveal(sort_by_cost);
    assert((all + more.take(j + 1)).drop_last() =~= all + more.take(j));
    assert((all + more.take(j + 1)).last() == more[j]);
}

fn tower_upgrades<M: ReadMemory>(cache: &ModelCache, tower: &schema::Tower, mem: &M, sorted: &mut Vec<AvailableUpgrade>, all: Ghost<Seq<AvailableUpgrade>>) -> (r: Result<Ghost<Seq<AvailableUpgrade>>, ReadError>)
    requires
        old(sorted)@ == sort_by_cost(all@),
    ensures
        match spec_tower_upgrades(mem.image().bytes@, cache@, *tower) {
            Err(e) => r matches Err(f) && f == e,
            Ok(ups) => r matches Ok(g) && g@ == ups && final(sorted)@ == sort_by_cost(all@ + ups),
        },
{
    let ghost image = mem.image().bytes@;
    let model = tower.model(mem)?;
    let links = model.upgrades(mem)?;
    let n = links.len(mem)?;
    let ghost f = link_items(image, cache@, *tower, links.address as int);
    let ghost mut ups: Seq<AvailableUpgrade> = Seq::empty();
    assert(all@ + ups =~= all@);
    let mut j: u32 = 0;
    while j < n
        invariant
            image == mem.image().bytes@,
            f == link_items(image, cache@, *tower, links.address as int),
            schema::TowerModel::decode(image, tower.address + HEADER_SIZE + 0xd0) == Ok::<schema::TowerModel, ReadError>(model),
            Array::<schema::UpgradePathModel>::decode(image, model.address + HEADER_SIZE + 0xb8)
                == Ok::<Array<schema::UpgradePathModel>, ReadError>(links),
            spec_array_len(image, links.address as int) == Ok::<u32, ReadError>(n),
            j <= n,
            collect(j as nat, f) == Ok::<Seq<AvailableUpgrade>, ReadError>(ups),
            ups.len() == j,
            sorted@ == sort_by_cost(all@ + ups),
        decreases n - j,
    {
        let step = link_upgrade(cache, tower, &links, j, mem);
        match step {
            Err(e) => {
                proof { lemma_collect_fails((j + 1) as nat, n as nat, f, e); }
                return Err(e);
            },
            Ok(x) => {
                proof {
                    let next = ups.push(x);
                    lemma_sort_append(all@, next, j as int);
                    assert(next.take(j as int) =~= ups);
                    assert(next.take(j + 1) =~= next);
                }
                insert_sorted(sorted, x);
                proof { ups = ups.push(x); }
            },
        }
        j = j + 1;
    }
    Ok(Ghost(ups))
}

/// An upgrade open to one of the summary's basic towers.
#[derive(Debug, Clone, PartialEq, Eq)]
pub struct Upgrade {
    pub tower_index: usize,
    pub path: usize,
    pub tier: u8,
    pub cost: u64,
    pub name: String,
}

pub struct UpgradeView {
    pub tower_index: usize,
    pub path: usize,
    pub tier: u8,
    pub cost: u64,
    pub name: Seq<char>,
}

impl View for Upgrade {
    type V = UpgradeView;

    open spec fn view(&self) -> UpgradeView {
        UpgradeView { tower_index: self.tower_index, path: self.path, tier: self.tier, cost: self.cost, name: self.name@ }
    }
}

/// The views of a sequence of summary upgrades.
pub open spec fn summary_upgrade_views(v: Seq<Upgrade>) -> Seq<UpgradeView> {
    Seq::new(v.len(), |i: int| v[i]@)
}

/// The summary's upgrade for the model at `m`, open to tower `tower_index`:
/// path, tier and cost must fit their types here.
pub open spec fn spec_summary_upgrade(image: Map<int, u8>, tower_index: usize, m: int) -> Result<UpgradeView, ReadError> {
    match i32::decode(image, m + HEADER_SIZE + 0x30) {
        Err(e) => Err(e),
        Ok(path) => if path < 0 {
            Err(ReadError::ValueOutOfRange)
        } else {
            match i32::decode(image, m + HEADER_SIZE + 0x34) {
                Err(e) => Err(e),
                Ok(tier) => if !(0 <= tier <= 255) {
                    Err(ReadError::ValueOutOfRange)
                } else {
                    match i32::decode(image, m + HEADER_SIZE + 0x20) {
                        Err(e) => Err(e),
                        Ok(cost) => if cost < 0 {
                            Err(ReadError::ValueOutOfRange)
                        } else {
                            match spec_text_at(image, m + HEADER_SIZE + 0x0) {
                                Err(e) => Err(e),
                                Ok(name) => Ok(UpgradeView {
                                    tower_index,
                                    path: path as usize,
                                    tier: tier as u8,
                                    cost: cost as u64,
                                    name,
                                }),
                            }
                        },
                    }
                },
            }
        },
    }
}

impl Upgrade {
    /// The summary's upgrade for `upgrade`, open to tower `tower_index`.
    pub fn new<M: ReadMemory>(tower_index: usize, upgrade: &schema::UpgradeModel, mem: &M) -> (r: Result<Upgrade, ReadError>)
        ensures
            agrees(r, spec_summary_upgrade(mem.image().bytes@, tower_index, upgrade.address as int)),
    {
        let path = upgrade.path(mem)?;
        if path < 0 {
            return Err(ReadError::ValueOutOfRange);
        }
        let tier = upgrade.tier(mem)?;
        if tier < 0 || tier > 255 {
            return Err(ReadError::ValueOutOfRange);
        }
        let cost = upgrade.cost(mem)?;
        if cost < 0 {
            return Err(ReadError::ValueOutOfRange);
        }
        let name = read_text(&upgrade.base(), mem, 0x0)?;
        Ok(Upgrade { tower_index, path: path as usize, tier: tier as u8, cost: cost as u64, name })
    }
}

/// Tower `k` of `towers` is a basic tower with id `id`.
pub open spec fn is_basic_with_id(towers: Seq<TowerView>, id: Seq<char>, k: int) -> bool {
    0 <= k < towers.len() && (towers[k] matches TowerView::Basic(b) && b.id == id)
}

/// The index of the first basic tower of `towers` with id `id`.
pub open spec fn basic_position(towers: Seq<TowerView>, id: Seq<char>) -> Option<usize> {
    if exists|k: int| is_basic_with_id(towers, id, k) && forall|j: int| 0 <= j < k ==> !is_basic_with_id(towers, id, j) {
        Some((choose|k: int| is_basic_with_id(towers, id, k) && forall|j: int| 0 <= j < k ==> !is_basic_with_id(towers, id, j)) as usize)
    } else {
        None
    }
}

fn find_basic(towers: &Vec<Tower>, id: &String) -> (r: Option<usize>)
    ensures
        r == basic_position(summary_tower_views(towers@), id@),
{
    let ghost ts = summary_tower_views(towers@);
    let mut i: usize = 0;
    while i < towers.len()
        invariant
            ts == summary_tower_views(towers@),
            i <= ts.len(),
            forall|j: int| 0 <= j < i ==> !is_basic_with_id(ts, id@, j),
        decreases ts.len() - i,
    {
        let found = match &towers[i] {
            Tower::Basic(b) => b.id == *id,
            Tower::Hero(_) => false,
        };
        if found {
            proof {
                assert(is_basic_with_id(ts, id@, i as int));
                let c = choose|k: int| is_basic_with_id(ts, id@, k) && forall|j: int| 0 <= j < k ==> !is_basic_with_id(ts, id@, j);
                if c < i {
                    assert(!is_basic_with_id(ts, id@, c));
                } else if c > i {
                    assert(!is_basic_with_id(ts, id@, i as int));
                }
            }
            return Some(i);
        }
        assert(!is_basic_with_id(ts, id@, i as int));
        i = i + 1;
    }
    None
}

/// The summary upgrade, if any, of each of `sorted` whose tower is a basic
/// tower among `towers`.
pub open spec fn summary_upgrade_items(image: Map<int, u8>, sorted: Seq<AvailableUpgrade>, towers: Seq<TowerView>) -> spec_fn(int) -> Result<Seq<UpgradeView>, ReadError> {
    |k: int| match spec_text_at(image, sorted[k].tower.address + HEADER_SIZE + 0x90) {
        Err(e) => Err(e),
        Ok(id) => match basic_position(towers, id) {
            None => Ok(Seq::empty()),
            Some(index) => match spec_summary_upgrade(image, index, sorted[k].upgrade.address as int) {
                Err(e) => Err(e),
                Ok(u) => Ok(seq![u]),
            },
        },
    }
}

fn summary_upgrades<M: ReadMemory>(sorted: &Vec<AvailableUpgrade>, towers: &Vec<Tower>, mem: &M) -> (r: Result<Vec<Upgrade>, ReadError>)
    ensures
        match collect_concat(sorted@.len(), summary_upgrade_items(mem.image().bytes@, sorted@, summary_tower_views(towers@))) {
            Err(e) => r == Err::<Vec<Upgrade>, ReadError>(e),
            Ok(x) => r matches Ok(v) && summary_upgrade_views(v@) == x,
        },
{
    let ghost image = mem.image().bytes@;
    let ghost f = summary_upgrade_items(image, sorted@, summary_tower_views(towers@));
    let mut out: Vec<Upgrade> = Vec::new();
    assert(summary_upgrade_views(out@) =~= Seq::<UpgradeView>::empty());
    let mut k: usize = 0;
    while k < sorted.len()
        invariant
            image == mem.image().bytes@,
            f == summary_upgrade_items(image, sorted@, summary_tower_views(towers@)),
            k <= sorted@.len(),
            collect_concat(k as nat, f) == Ok::<Seq<UpgradeView>, ReadError>(summary_upgrade_views(out@)),
        decreases sorted@.len() - k,
    {
        let item = sorted[k];
        let step: Result<Option<Upgrade>, ReadError> = match read_text(&item.tower, mem, 0x90) {
            Err(e) => Err(e),
            Ok(id) => match find_basic(towers, &id) {
                None => Ok(None),
                Some(index) => match Upgrade::new(index, &item.upgrade, mem) {
                    Err(e) => Err(e),
                    Ok(u) => Ok(Some(u)),
                },
            },
        };
        match step {
            Err(e) => {
                proof { lemma_collect_concat_fails((k + 1) as nat, sorted@.len(), f, e); }
                return Err(e);
            },
            Ok(None) => {
                assert(summary_upgrade_views(out@) =~= summary_upgrade_views(out@) + Seq::<UpgradeView>::empty());
            },
            Ok(Some(u)) => {
                let ghost before = out@;
                out.push(u);
                assert(summary_upgrade_views(out@) =~= summary_upgrade_views(before) + seq![u@]);
            },
        }
        k = k + 1;
    }
    Ok(out)
}

/// What the danger gauge needs of a path segment: the bit pattern of its
/// single-precision distance left until the exit, and whether bloons are on it.
#[derive(Debug, Clone, Copy, PartialEq, Eq)]
pub struct SegmentDanger {
    pub leak_distance_bits: u32,
    pub has_bloons: bool,
}

/// What the gauge keeps of the segment at `segment`.
pub open spec fn spec_segment_danger(image: Map<int, u8>, segment: int) -> Result<SegmentDanger, ReadError> {
    match u32::decode(image, segment + HEADER_SIZE + 0x28) {
        Err(e) => Err(e),
        Ok(leak_distance_bits) => match List::<schema::BloonTargetProxy>::decode(image, segment + HEADER_SIZE + 0x0) {
            Err(e) => Err(e),
            Ok(bloons) => match spec_list_len(image, bloons.address as int) {
                Err(e) => Err(e),
                Ok(n) => Ok(SegmentDanger { leak_distance_bits, has_bloons: n > 0 }),
            },
        },
    }
}

/// The gauge's record of each segment of the array at `segments`.
pub open spec fn segment_items(image: Map<int, u8>, segments: int) -> spec_fn(int) -> Result<SegmentDanger, ReadError> {
    |i: int| match spec_array_get::<schema::PathSegment>(image, segments, i) {
        Err(e) => Err(e),
        Ok(s) => spec_segment_danger(image, s.address as int),
    }
}

/// The gauge's records of the segments of the path at `path`.
pub open spec fn spec_path_dangers(image: Map<int, u8>, path: int) -> Result<Seq<SegmentDanger>, ReadError> {
    match Array::<schema::PathSegment>::decode(image, path + HEADER_SIZE + 0x0) {
        Err(e) => Err(e),
        Ok(segments) => match spec_array_len(image, segments.address as int) {
            Err(e) => Err(e),
            Ok(n) => collect(n as nat, segment_items(image, segments.address as int)),
        },
    }
}

/// The gauge's records of each path of the list at `list`.
pub open spec fn path_items(image: Map<int, u8>, list: int) -> spec_fn(int) -> Result<Seq<SegmentDanger>, ReadError> {
    |i: int| match spec_list_get::<schema::Path>(image, list, i) {
        Err(e) => Err(e),
        Ok(p) => spec_path_dangers(image, p.address as int),
    }
}

/// The gauge's records of every segment of every path of the map at `map`.
pub open spec fn spec_dangers(image: Map<int, u8>, map: int) -> Result<Seq<SegmentDanger>, ReadError> {
    match schema::PathManager::decode(image, map + HEADER_SIZE + 0x80) {
        Err(e) => Err(e),
        Ok(manager) => match List::<schema::Path>::decode(image, manager.address + HEADER_SIZE + 0x48) {
            Err(e) => Err(e),
            Ok(list) => match spec_list_len(image, list.address as int) {
                Err(e) => Err(e),
                Ok(n) => collect_concat(n as nat, path_items(image, list.address as int)),
            },
        },
    }
}

fn segment_danger<M: ReadMemory>(segment: &schema::PathSegment, mem: &M) -> (r: Result<SegmentDanger, ReadError>)
    ensures
        r == spec_segment_danger(mem.image().bytes@, segment.address as int),
{
    let leak_distance_bits = segment.leak_distance_bits(mem)?;
    let n = segment.bloons(mem)?.len(mem)?;
    Ok(SegmentDanger { leak_distance_bits, has_bloons: n > 0 })
}

fn path_dangers<M: ReadMemory>(path: &schema::Path, mem: &M, out: &mut Vec<SegmentDanger>) -> (r: Result<(), ReadError>)
    ensures
        match spec_path_dangers(mem.image().bytes@, path.address as int) {
            Err(e) => r == Err::<(), ReadError>(e),
            Ok(x) => r is Ok && final(out)@ == old(out)@ + x,
        },
{
    let ghost image = mem.image().bytes@;
    let ghost start = out@;
    let segments = path.segments(mem)?;
    let n = segments.len(mem)?;
    let ghost f = segment_items(image, segments.address as int);
    assert(out@ =~= start + Seq::<SegmentDanger>::empty());
    let mut i: u32 = 0;
    while i < n
        invariant
            image == mem.image().bytes@,
            f == segment_items(image, segments.address as int),
            Array::<schema::PathSegment>::decode(image, path.address + HEADER_SIZE + 0x0)
                == Ok::<Array<schema::PathSegment>, ReadError>(segments),
            spec_array_len(image, segments.address as int) == Ok::<u32, ReadError>(n),
            i <= n,
            start == old(out)@,
            collect(i as nat, f) matches Ok(x) && out@ == start + x,
        decreases n - i,
    {
        let step = match segments.get(mem, i as usize) {
            Err(e) => Err(e),
            Ok(s) => segment_danger(&s, mem),
        };
        match step {
            Err(e) => {
                proof { lemma_collect_fails((i + 1) as nat, n as nat, f, e); }
                return Err(e);
            },
            Ok(d) => {
                out.push(d);
            },
        }
        i = i + 1;
        assert(out@ =~= start + collect(i as nat, f)->Ok_0);
    }
    Ok(())
}

fn dangers<M: ReadMemory>(map: &schema::GameMap, mem: &M) -> (r: Result<Vec<SegmentDanger>, ReadError>)
    ensures
        match spec_dangers(mem.image().bytes@, map.address as int) {
            Err(e) => r == Err::<Vec<SegmentDanger>, ReadError>(e),
            Ok(x) => r matches Ok(v) && v@ == x,
        },
{
    let ghost image = mem.image().bytes@;
    let manager = map.path_manager(mem)?;
    let list = manager.paths(mem)?;
    let n = list.len(mem)?;
    let ghost f = path_items(image, list.address as int);
    let mut out: Vec<SegmentDanger> = Vec::new();
    assert(out@ =~= Seq::<SegmentDanger>::empty());
    let mut i: u32 = 0;
    while i < n
        invariant
            image == mem.image().bytes@,
            f == path_items(image, list.address as int),
            schema::PathManager::decode(image, map.address + HEADER_SIZE + 0x80) == Ok::<schema::PathManager, ReadError>(manager),
            List::<schema::Path>::decode(image, manager.address + HEADER_SIZE + 0x48) == Ok::<List<schema::Path>, ReadError>(list),
            spec_list_len(image, list.address as int) == Ok::<u32, ReadError>(n),
            i <= n,
            collect_concat(i as nat, f) == Ok::<Seq<SegmentDanger>, ReadError>(out@),
        decreases n - i,
    {
        let step = match list.get(mem, i as usize) {
            Err(e) => Err(e),
            Ok(p) => path_dangers(&p, mem, &mut out),
        };
        if let Err(e) = step {
            proof { lemma_collect_concat_fails((i + 1) as nat, n as nat, f, e); }
            return Err(e);
        }
        i = i + 1;
    }
    Ok(out)
}

/// The index among the basic towers of `towers` of the selected tower.
pub open spec fn spec_summary_selected(image: Map<int, u8>, g: int, towers: Seq<TowerView>) -> Result<Option<usize>, ReadError> {
    match schema::InputManager::decode(image, g + HEADER_SIZE + 0x60) {
        Err(e) => Err(e),
        Ok(input) => match Option::<Object>::decode(image, input.address + HEADER_SIZE + 0x1a0) {
            Err(e) => Err(e),
            Ok(selected) => match selected {
                None => Ok(None),
                Some(obj) => match spec_verify::<schema::TowerToSimulation>(image, obj.address) {
                    Err(_) => Ok(None),
                    Ok(bridge) => match schema::Tower::decode(image, bridge.address + HEADER_SIZE + 0x10) {
                        Err(e) => Err(e),
                        Ok(t) => match spec_text_at(image, t.address + HEADER_SIZE + 0x90) {
                            Err(e) => Err(e),
                            Ok(id) => Ok(basic_position(towers, id)),
                        },
                    },
                },
            },
        },
    }
}

fn summary_selected<M: ReadMemory>(ingame: &schema::InGame, towers: &Vec<Tower>, mem: &M) -> (r: Result<Option<usize>, ReadError>)
    ensures
        r == spec_summary_selected(mem.image().bytes@, ingame.address as int, summary_tower_views(towers@)),
{
    let input = ingame.input_manager(mem)?;
    match input.selected(mem)? {
        None => Ok(None),
        Some(obj) => match cast::<Object, schema::TowerToSimulation, M>(&obj, mem) {
            Err(_) => Ok(None),
            Ok(bridge) => {
                let t = bridge.tower(mem)?;
                let id = read_text(&t, mem, 0x90)?;
                Ok(find_basic(towers, &id))
            },
        },
    }
}

/// What the summary of a match holds, as plain values.
pub struct InGameSummaryView {
    pub map_name: Seq<char>,
    pub mode: Seq<char>,
    pub seed: i32,
    pub cash_bits: u64,
    pub segments: Seq<SegmentDanger>,
    pub selected_index: Option<usize>,
    pub towers: Seq<TowerView>,
    pub upgrades: Seq<UpgradeView>,
}

#[verifier::opaque]
/// What summarising the match whose in-match scene is at `g` gives, upgrade
/// models looked up in `cache`.
pub open spec fn spec_summary(image: Map<int, u8>, g: int, cache: Seq<CachedUpgradeView>) -> Result<InGameSummaryView, ReadError> {
    match spec_simulation(image, g) {
        Err(e) => Err(e),
        Ok(sim) => match spec_cash_manager(image, sim.address as int) {
            Err(e) => Err(e),
            Ok(cm) => match schema::KonFuze::decode(image, cm.address + HEADER_SIZE + 0x0) {
                Err(e) => Err(e),
                Ok(cash) => match spec_konfuze(image, cash.address as int) {
                    Err(e) => Err(e),
                    Ok(cash_bits) => match schema::GameModel::decode(image, sim.address + HEADER_SIZE + 0x10) {
                        Err(e) => Err(e),
                        Ok(model) => match schema::MapModel::decode(image, model.address + HEADER_SIZE + 0xd0) {
                            Err(e) => Err(e),
                            Ok(map_model) => match spec_text_at(image, map_model.address + HEADER_SIZE + 0x70) {
                                Err(e) => Err(e),
                                Ok(map_name) => match spec_text_at(image, model.address + HEADER_SIZE + 0x78) {
                                    Err(e) => Err(e),
                                    Ok(mode) => match i32::decode(image, model.address + HEADER_SIZE + 0x84) {
                                        Err(e) => Err(e),
                                        Ok(seed) => match schema::GameMap::decode(image, sim.address + HEADER_SIZE + 0x400) {
                                            Err(e) => Err(e),
                                            Ok(map) => match spec_map_towers(image, map.address as int) {
                                                Err(e) => Err(e),
                                                Ok(all) => match collect_concat(all.len(), summary_tower_items(image, all)) {
                                                    Err(e) => Err(e),
                                                    Ok(towers) => match collect_concat(all.len(), available_items(image, cache, all)) {
                                                        Err(e) => Err(e),
                                                        Ok(available) => match collect_concat(
                                                            available.len(),
                                                            summary_upgrade_items(image, sort_by_cost(available), towers),
                                                        ) {
                                                            Err(e) => Err(e),
                                                            Ok(upgrades) => match spec_summary_selected(image, g, towers) {
                                                                Err(e) => Err(e),
                                                                Ok(selected_index) => match spec_dangers(image, map.address as int) {
                                                                    Err(e) => Err(e),
                                                                    Ok(segments) => Ok(InGameSummaryView {
                                                                        map_name, mode, seed, cash_bits, segments, selected_index, towers, upgrades,
                                                                    }),
                                                                },
                                                            },
                                                        },
                                                    },
                                                },
                                            },
                                        },
                                    },
                                },
                            },
                        },
                    },
                },
            },
        },
    }
}

/// The summary of a match for display. Cash is the bit pattern of the
/// double-precision value the game stores.
#[derive(Debug, Clone, PartialEq, Eq)]
pub struct InGameSummary {
    pub map_name: String,
    pub mode: String,
    pub seed: i32,
    pub cash_bits: u64,
    pub segments: Vec<SegmentDanger>,
    pub selected_index: Option<usize>,
    pub towers: Vec<Tower>,
    pub upgrades: Vec<Upgrade>,
}

impl View for InGameSummary {
    type V = InGameSummaryView;

    open spec fn view(&self) -> InGameSummaryView {
        InGameSummaryView {
            map_name: self.map_name@,
            mode: self.mode@,
            seed: self.seed,
            cash_bits: self.cash_bits,
            segments: self.segments@,
            selected_index: self.selected_index,
            towers: summary_tower_views(self.towers@),
            upgrades: summary_upgrade_views(self.upgrades@),
        }
    }
}

proof fn lemma_sort_len(items: Seq<AvailableUpgrade>)
    ensures
        sort_by_cost(items).len() == items.len(),
    decreases items.len(),
{
    reveal(sort_by_cost);
    if items.len() > 0 {
        lemma_sort_len(items.drop_last());
        lemma_insert_len(sort_by_cost(items.drop_last()), items.last());
    }
}

proof fn lemma_insert_len(sorted: Seq<AvailableUpgrade>, x: AvailableUpgrade)
    ensures
        insert_by_cost(sorted, x).len() == sorted.len() + 1,
    decreases sorted.len(),
{
    reveal(insert_by_cost);
    if sorted.len() > 0 && sorted.last().cost > x.cost {
        lemma_insert_len(sorted.drop_last(), x);
    }
}

impl InGameSummary {
    /// Summarises the match whose in-match scene is `ingame`: cash, map, mode,
    /// seed, the player's towers, the upgrades open to them cheapest first,
    /// the selected tower and what the danger gauge needs.
    pub fn load<M: ReadMemory>(cache: &ModelCache, ingame: &schema::InGame, mem: &M) -> (r: Result<InGameSummary, ReadError>)
        ensures
            agrees(r, spec_summary(mem.image().bytes@, ingame.address as int, cache@)),
    {
        proof { reveal(spec_summary); }
        let sim = ingame.unity_to_simulation(mem)?.simulation(mem)?;
        let cm = cash_manager(&sim, mem)?;
        let cash_bits = cm.cash(mem)?.get_bits(mem)?;
        let model = sim.model(mem)?;
        let map_name = read_text(&model.map(mem)?, mem, 0x70)?;
        let mode = read_text(&model, mem, 0x78)?;
        let seed = model.random_seed(mem)?;
        let map = sim.map(mem)?;
        let all = map_towers(&map, mem)?;
        let towers = summary_towers(&all, mem)?;
        let sorted = get_all_available_upgrades(cache, &all, mem)?;
        proof { lemma_sort_len(collect_concat(all@.len(), available_items(mem.image().bytes@, cache@, all@))->Ok_0); }
        let upgrades = summary_upgrades(&sorted, &towers, mem)?;
        let selected_index = summary_selected(ingame, &towers, mem)?;
        let segments = dangers(&map, mem)?;
        Ok(InGameSummary { map_name, mode, seed, cash_bits, segments, selected_index, towers, upgrades })
    }
}

} // verus!
