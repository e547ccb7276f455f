//! The snapshot of a match: plain values copied out of the foreign heap in
//! one walk from the game's root object.
use vstd::prelude::*;

use crate::containers::{spec_array_get, spec_array_len, spec_string_text, text_agrees, Array, CSharpString};
use crate::memory::{ReadError, ReadMemory};
use crate::object::{MemoryRead, RemoteObject, HEADER_SIZE};
use crate::schema;

verus! {

/// The text of the string that the field at `location` points at.
pub open spec fn spec_text_at(image: Map<int, u8>, location: int) -> Result<Seq<char>, ReadError> {
    match CSharpString::decode(image, location) {
        Err(e) => Err(e),
        Ok(s) => spec_string_text(image, s.address as int),
    }
}

/// Reads the text of the string that the field at `offset` of `obj` points at.
pub fn read_text<O: RemoteObject, M: ReadMemory>(obj: &O, mem: &M, offset: u64) -> (r: Result<String, ReadError>)
    ensures
        text_agrees(r, spec_text_at(mem.image().bytes@, obj.spec_address() + HEADER_SIZE + offset)),
{
    let s: CSharpString = crate::object::field(obj, mem, offset)?;
    s.text(mem)
}

/// The items `f(0)`, ..., `f(n - 1)` in order, or the error of the first that fails.
pub open spec fn collect<T>(n: nat, f: spec_fn(int) -> Result<T, ReadError>) -> Result<Seq<T>, ReadError>
    decreases n,
{
    if n == 0 {
        Ok(Seq::empty())
    } else {
        match collect((n - 1) as nat, f) {
            Err(e) => Err(e),
            Ok(p) => match f(n - 1) {
                Err(e) => Err(e),
                Ok(x) => Ok(p.push(x)),
            },
        }
    }
}

/// The sequences `f(0)`, ..., `f(n - 1)` joined in order, or the error of the
/// first that fails.
pub open spec fn collect_concat<T>(n: nat, f: spec_fn(int) -> Result<Seq<T>, ReadError>) -> Result<Seq<T>, ReadError>
    decreases n,
{
    if n == 0 {
        Ok(Seq::empty())
    } else {
        match collect_concat((n - 1) as nat, f) {
            Err(e) => Err(e),
            Ok(p) => match f(n - 1) {
                Err(e) => Err(e),
                Ok(x) => Ok(p + x),
            },
        }
    }
}

/// Once a part fails, every longer join fails with its error.
pub proof fn lemma_collect_concat_fails<T>(m: nat, n: nat, f: spec_fn(int) -> Result<Seq<T>, ReadError>, e: ReadError)
    requires
        m <= n,
        collect_concat(m, f) == Err::<Seq<T>, ReadError>(e),
    ensures
        collect_concat(n, f) == Err::<Seq<T>, ReadError>(e),
    decreases n - m,
{
    if m < n {
        lemma_collect_concat_fails(m, (n - 1) as nat, f, e);
    }
}

/// Once an item fails, every longer collection fails with its error.
pub proof fn lemma_collect_fails<T>(m: nat, n: nat, f: spec_fn(int) -> Result<T, ReadError>, e: ReadError)
    requires
        m <= n,
        collect(m, f) == Err::<Seq<T>, ReadError>(e),
    ensures
        collect(n, f) == Err::<Seq<T>, ReadError>(e),
    decreases n - m,
{
    if m < n {
        lemma_collect_fails(m, (n - 1) as nat, f, e);
    }
}

/// An upgrade as the lookup keeps it.
#[derive(Debug, Clone, PartialEq, Eq)]
pub struct Upgrade {
    pub id: String,
    pub path: i8,
    pub tier: u8,
    pub cost: u64,
}

pub struct UpgradeView {
    pub id: Seq<char>,
    pub path: i8,
    pub tier: u8,
    pub cost: u64,
}

impl View for Upgrade {
    type V = UpgradeView;

    open spec fn view(&self) -> UpgradeView {
        UpgradeView { id: self.id@, path: self.path, tier: self.tier, cost: self.cost }
    }
}

#[verifier::opaque]
/// What loading the upgrade model at `a` gives: its name, path, tier and cost,
/// each of which must fit its type here.
pub open spec fn spec_upgrade(image: Map<int, u8>, a: int) -> Result<UpgradeView, ReadError> {
    match spec_text_at(image, a + HEADER_SIZE + 0x0) {
        Err(e) => Err(e),
        Ok(id) => match i32::decode(image, a + HEADER_SIZE + 0x30) {
            Err(e) => Err(e),
            Ok(path) => if !(-128 <= path <= 127) {
                Err(ReadError::ValueOutOfRange)
            } else {
                match i32::decode(image, a + HEADER_SIZE + 0x34) {
                    Err(e) => Err(e),
                    Ok(tier) => if !(0 <= tier <= 255) {
                        Err(ReadError::ValueOutOfRange)
                    } else {
                        match i32::decode(image, a + HEADER_SIZE + 0x20) {
                            Err(e) => Err(e),
                            Ok(cost) => if cost < 0 {
                                Err(ReadError::ValueOutOfRange)
                            } else {
                                Ok(UpgradeView { id, path: path as i8, tier: tier as u8, cost: cost as u64 })
                            },
                        }
                    },
                }
            },
        },
    }
}

/// `r` holds the value, or the error, that `s` gives.
pub open spec fn agrees<T: View>(r: Result<T, ReadError>, s: Result<T::V, ReadError>) -> bool {
    match r {
        Ok(v) => s == Ok::<T::V, ReadError>(v@),
        Err(e) => s == Err::<T::V, ReadError>(e),
    }
}

impl Upgrade {
    /// Copies an upgrade model.
    pub fn load<M: ReadMemory>(model: &schema::UpgradeModel, mem: &M) -> (r: Result<Upgrade, ReadError>)
        ensures
            agrees(r, spec_upgrade(mem.image().bytes@, model.address as int)),
    {
        proof { reveal(spec_upgrade); }
        let base = model.base();
        let id = read_text(&base, mem, 0x0)?;
        let path = model.path(mem)?;
        if path < -128 || path > 127 {
            return Err(ReadError::ValueOutOfRange);
        }
        let tier = model.tier(mem)?;
        if tier < 0 || tier > 255 {
            return Err(ReadError::ValueOutOfRange);
        }
        let cost = model.cost(mem)?;
        if cost < 0 {
            return Err(ReadError::ValueOutOfRange);
        }
        Ok(Upgrade { id, path: path as i8, tier: tier as u8, cost: cost as u64 })
    }
}

/// The views of a sequence of upgrades.
pub open spec fn upgrade_views(v: Seq<Upgrade>) -> Seq<UpgradeView> {
    Seq::new(v.len(), |i: int| v[i]@)
}

/// Every upgrade model of a game model, copied once per model.
#[derive(Debug, Clone, PartialEq, Eq)]
pub struct UpgradeLookup {
    pub upgrades: Vec<Upgrade>,
}

impl View for UpgradeLookup {
    type V = Seq<UpgradeView>;

    open spec fn view(&self) -> Seq<UpgradeView> {
        upgrade_views(self.upgrades@)
    }
}

/// What loading each upgrade model of the array at `array` gives.
pub open spec fn upgrade_items(image: Map<int, u8>, array: int) -> spec_fn(int) -> Result<UpgradeView, ReadError> {
    |i: int| match spec_array_get::<schema::UpgradeModel>(image, array, i) {
        Err(e) => Err(e),
        Ok(m) => spec_upgrade(image, m.address as int),
    }
}

/// The upgrade lookup of the game model at `model`: every upgrade model, in order.
pub open spec fn spec_upgrade_lookup(image: Map<int, u8>, model: int) -> Result<Seq<UpgradeView>, ReadError> {
    match Array::<schema::UpgradeModel>::decode(image, model + HEADER_SIZE + 0xf8) {
        Err(e) => Err(e),
        Ok(arr) => match spec_array_len(image, arr.address as int) {
            Err(e) => Err(e),
            Ok(n) => collect(n as nat, upgrade_items(image, arr.address as int)),
        },
    }
}

/// The index of the first upgrade with id `id`; a missing id means the model
/// changed while it was read.
pub open spec fn spec_upgrade_index(upgrades: Seq<UpgradeView>, id: Seq<char>) -> Result<usize, ReadError> {
    if exists|i: int| 0 <= i < upgrades.len() && upgrades[i].id == id && forall|j: int| 0 <= j < i ==> upgrades[j].id != id {
        Ok((choose|i: int| 0 <= i < upgrades.len() && upgrades[i].id == id && forall|j: int| 0 <= j < i ==> upgrades[j].id != id) as usize)
    } else {
        Err(ReadError::Inconsistent)
    }
}

impl UpgradeLookup {
    /// Copies every upgrade model of `model`, in the model's order.
    pub fn load<M: ReadMemory>(model: &schema::GameModel, mem: &M) -> (r: Result<UpgradeLookup, ReadError>)
        ensures
            agrees(r, spec_upgrade_lookup(mem.image().bytes@, model.address as int)),
    {
        let ghost image = mem.image().bytes@;
        let models = model.upgrades(mem)?;
        let n = models.len(mem)?;
        let ghost f = upgrade_items(image, models.address as int);
        let mut upgrades: Vec<Upgrade> = Vec::new();
        assert(upgrade_views(upgrades@) =~= Seq::<UpgradeView>::empty());
        let mut i: u32 = 0;
        while i < n
            invariant
                image == mem.image().bytes@,
                f == upgrade_items(image, models.address as int),
                Array::<schema::UpgradeModel>::decode(image, model.address + HEADER_SIZE + 0xf8)
                    == Ok::<Array<schema::UpgradeModel>, ReadError>(models),
                spec_array_len(image, models.address as int) == Ok::<u32, ReadError>(n),
                i <= n,
                collect(i as nat, f) == Ok::<Seq<UpgradeView>, ReadError>(upgrade_views(upgrades@)),
            decreases n - i,
        {
            let m = match models.get(mem, i as usize) {
                Ok(m) => m,
                Err(e) => {
                    proof { lemma_collect_fails((i + 1) as nat, n as nat, f, e); }
                    return Err(e);
                },
            };
            let u = match Upgrade::load(&m, mem) {
                Ok(u) => u,
                Err(e) => {
                    proof { lemma_collect_fails((i + 1) as nat, n as nat, f, e); }
                    return Err(e);
                },
            };
            upgrades.push(u);
            i = i + 1;
            assert(upgrade_views(upgrades@) =~= collect(i as nat, f)->Ok_0);
        }
        Ok(UpgradeLookup { upgrades })
    }

    /// The index of the first upgrade with id `id`.
    pub fn by_id(&self, id: &String) -> (r: Result<usize, ReadError>)
        ensures
            r == spec_upgrade_index(self@, id@),
    {
        let ghost us = self@;
        let mut i: usize = 0;
        while i < self.upgrades.len()
            invariant
                us == self@,
                i <= us.len(),
                forall|j: int| 0 <= j < i ==> us[j].id != id@,
            decreases us.len() - i,
        {
            if self.upgrades[i].id == *id {
                proof {
                    let p = |k: int| 0 <= k < us.len() && us[k].id == id@ && forall|j: int| 0 <= j < k ==> us[j].id != id@;
                    assert(p(i as int));
                    let c = choose|k: int| 0 <= k < us.len() && us[k].id == id@ && forall|j: int| 0 <= j < k ==> us[j].id != id@;
                    assert(p(c));
                    if c < i {
                        assert(us[c].id != id@);
                    } else if c > i {
                        assert(us[i as int].id != id@);
                    }
                }
                return Ok(i);
            }
            i = i + 1;
        }
        Err(ReadError::Inconsistent)
    }
}

/// A tower model as the lookup keeps it: the upgrades are indices into the
/// upgrade lookup.
#[derive(Debug, Clone, PartialEq, Eq)]
pub struct TowerKind {
    pub id: String,
    pub set: u32,
    pub tiers: [u8; 3],
    pub applied_upgrades: Vec<usize>,
    pub available_upgrades: Vec<usize>,
}

pub struct TowerKindView {
    pub id: Seq<char>,
    pub set: u32,
    pub tiers: Seq<u8>,
    pub applied_upgrades: Seq<usize>,
    pub available_upgrades: Seq<usize>,
}

impl View for TowerKind {
    type V = TowerKindView;

    open spec fn view(&self) -> TowerKindView {
        TowerKindView {
            id: self.id@,
            set: self.set,
            tiers: self.tiers@,
            applied_upgrades: self.applied_upgrades@,
            available_upgrades: self.available_upgrades@,
        }
    }
}

/// Each tier of the array at `array`, kept to its low byte.
pub open spec fn tier_items(image: Map<int, u8>, array: int) -> spec_fn(int) -> Result<u8, ReadError> {
    |i: int| match spec_array_get::<u32>(image, array, i) {
        Err(e) => Err(e),
        Ok(v) => Ok((v % 256) as u8),
    }
}

/// The upgrade index of each applied upgrade id of the array at `array`.
pub open spec fn applied_items(image: Map<int, u8>, array: int, upgrades: Seq<UpgradeView>) -> spec_fn(int) -> Result<usize, ReadError> {
    |i: int| match spec_array_get::<CSharpString>(image, array, i) {
        Err(e) => Err(e),
        Ok(s) => match spec_string_text(image, s.address as int) {
            Err(e) => Err(e),
            Ok(id) => spec_upgrade_index(upgrades, id),
        },
    }
}

/// The upgrade index of each upgrade link of the array at `array`.
pub open spec fn available_items(image: Map<int, u8>, array: int, upgrades: Seq<UpgradeView>) -> spec_fn(int) -> Result<usize, ReadError> {
    |i: int| match spec_array_get::<schema::UpgradePathModel>(image, array, i) {
        Err(e) => Err(e),
        Ok(p) => match spec_text_at(image, p.address + HEADER_SIZE + 0x8) {
            Err(e) => Err(e),
            Ok(id) => spec_upgrade_index(upgrades, id),
        },
    }
}

/// The items of the array that the field at `location` points at, each
/// loaded by `items` of the array's address.
pub open spec fn spec_array_items<T: MemoryRead, V>(
    image: Map<int, u8>,
    location: int,
    items: spec_fn(int) -> spec_fn(int) -> Result<V, ReadError>,
) -> Result<Seq<V>, ReadError> {
    match Array::<T>::decode(image, location) {
        Err(e) => Err(e),
        Ok(arr) => match spec_array_len(image, arr.address as int) {
            Err(e) => Err(e),
            Ok(n) => collect(n as nat, items(arr.address as int)),
        },
    }
}

/// The tiers of the tower model at `a`.
pub open spec fn spec_tiers(image: Map<int, u8>, a: int) -> Result<Seq<u8>, ReadError> {
    spec_array_items::<u32, u8>(image, a + HEADER_SIZE + 0x48, |arr: int| tier_items(image, arr))
}

/// The upgrade indices of the upgrades applied to the tower model at `a`.
pub open spec fn spec_applied(image: Map<int, u8>, a: int, upgrades: Seq<UpgradeView>) -> Result<Seq<usize>, ReadError> {
    spec_array_items::<CSharpString, usize>(image, a + HEADER_SIZE + 0xc0, |arr: int| applied_items(image, arr, upgrades))
}

/// The upgrade indices of the upgrades available to the tower model at `a`.
pub open spec fn spec_available(image: Map<int, u8>, a: int, upgrades: Seq<UpgradeView>) -> Result<Seq<usize>, ReadError> {
    spec_array_items::<schema::UpgradePathModel, usize>(image, a + HEADER_SIZE + 0xb8, |arr: int| available_items(image, arr, upgrades))
}

#[verifier::opaque]
/// What loading the tower model at `a` against `upgrades` gives: its three
/// tiers, the indices of its applied and available upgrades, its id and set.
pub open spec fn spec_tower_kind(image: Map<int, u8>, a: int, upgrades: Seq<UpgradeView>) -> Result<TowerKindView, ReadError> {
    match spec_tiers(image, a) {
        Err(e) => Err(e),
        Ok(tiers) => if tiers.len() != 3 {
            Err(ReadError::ValueOutOfRange)
        } else {
            match spec_applied(image, a, upgrades) {
                Err(e) => Err(e),
                Ok(applied) => match spec_available(image, a, upgrades) {
                    Err(e) => Err(e),
                    Ok(available) => match spec_text_at(image, a + HEADER_SIZE + 0x28) {
                        Err(e) => Err(e),
                        Ok(id) => match u32::decode(image, a + HEADER_SIZE + 0x50) {
                            Err(e) => Err(e),
                            Ok(set) => Ok(TowerKindView { id, set, tiers, applied_upgrades: applied, available_upgrades: available }),
                        },
                    },
                },
            }
        },
    }
}

pub(crate) fn load_tiers<M: ReadMemory>(model: &schema::TowerModel, mem: &M) -> (r: Result<Vec<u8>, ReadError>)
    ensures
        match r {
            Ok(v) => spec_tiers(mem.image().bytes@, model.address as int) == Ok::<Seq<u8>, ReadError>(v@),
            Err(e) => spec_tiers(mem.image().bytes@, model.address as int) == Err::<Seq<u8>, ReadError>(e),
        },
{
    let ghost image = mem.image().bytes@;
    let items = model.tiers(mem)?;
    let n = items.len(mem)?;
    let ghost f = tier_items(image, items.address as int);
    let mut out: Vec<u8> = Vec::new();
    let mut i: u32 = 0;
    while i < n
        invariant
            image == mem.image().bytes@,
            f == tier_items(image, items.address as int),
            Array::<u32>::decode(image, model.address + HEADER_SIZE + 0x48) == Ok::<Array<u32>, ReadError>(items),
            spec_array_len(image, items.address as int) == Ok::<u32, ReadError>(n),
            i <= n,
            collect(i as nat, f) == Ok::<Seq<u8>, ReadError>(out@),
        decreases n - i,
    {
        let v = match items.get(mem, i as usize) {
            Ok(v) => v,
            Err(e) => {
                proof { lemma_collect_fails((i + 1) as nat, n as nat, f, e); }
                return Err(e);
            },
        };
        out.push((v % 256) as u8);
        i = i + 1;
        assert(out@ =~= collect(i as nat, f)->Ok_0);
    }
    Ok(out)
}

fn load_applied<M: ReadMemory>(model: &schema::TowerModel, mem: &M, upgrades: &UpgradeLookup) -> (r: Result<Vec<usize>, ReadError>)
    ensures
        match r {
            Ok(v) => spec_applied(mem.image().bytes@, model.address as int, upgrades@) == Ok::<Seq<usize>, ReadError>(v@),
            Err(e) => spec_applied(mem.image().bytes@, model.address as int, upgrades@) == Err::<Seq<usize>, ReadError>(e),
        },
{
    let ghost image = mem.image().bytes@;
    let items = model.applied_upgrades(mem)?;
    let n = items.len(mem)?;
    let ghost f = applied_items(image, items.address as int, upgrades@);
    let mut out: Vec<usize> = Vec::new();
    let mut i: u32 = 0;
    while i < n
        invariant
            image == mem.image().bytes@,
            f == applied_items(image, items.address as int, upgrades@),
            Array::<CSharpString>::decode(image, model.address + HEADER_SIZE + 0xc0) == Ok::<Array<CSharpString>, ReadError>(items),
            spec_array_len(image, items.address as int) == Ok::<u32, ReadError>(n),
            i <= n,
            collect(i as nat, f) == Ok::<Seq<usize>, ReadError>(out@),
        decreases n - i,
    {
        let step = match items.get(mem, i as usize) {
            Ok(s) => match s.text(mem) {
                Ok(id) => upgrades.by_id(&id),
                Err(e) => Err(e),
            },
            Err(e) => Err(e),
        };
        match step {
            Ok(k) => out.push(k),
            Err(e) => {
                proof { lemma_collect_fails((i + 1) as nat, n as nat, f, e); }
                return Err(e);
            },
        }
        i = i + 1;
        assert(out@ =~= collect(i as nat, f)->Ok_0);
    }
    Ok(out)
}

fn load_available<M: ReadMemory>(model: &schema::TowerModel, mem: &M, upgrades: &UpgradeLookup) -> (r: Result<Vec<usize>, ReadError>)
    ensures
        match r {
            Ok(v) => spec_available(mem.image().bytes@, model.address as int, upgrades@) == Ok::<Seq<usize>, ReadError>(v@),
            Err(e) => spec_available(mem.image().bytes@, model.address as int, upgrades@) == Err::<Seq<usize>, ReadError>(e),
        },
{
    let ghost image = mem.image().bytes@;
    let items = model.upgrades(mem)?;
    let n = items.len(mem)?;
    let ghost f = available_items(image, items.address as int, upgrades@);
    let mut out: Vec<usize> = Vec::new();
    let mut i: u32 = 0;
    while i < n
        invariant
            image == mem.image().bytes@,
            f == available_items(image, items.address as int, upgrades@),
            Array::<schema::UpgradePathModel>::decode(image, model.address + HEADER_SIZE + 0xb8)
                == Ok::<Array<schema::UpgradePathModel>, ReadError>(items),
            spec_array_len(image, items.address as int) == Ok::<u32, ReadError>(n),
            i <= n,
            collect(i as nat, f) == Ok::<Seq<usize>, ReadError>(out@),
        decreases n - i,
    {
        let step = match items.get(mem, i as usize) {
            Ok(p) => match read_text(&p, mem, 0x8) {
                Ok(id) => upgrades.by_id(&id),
                Err(e) => Err(e),
            },
            Err(e) => Err(e),
        };
        match step {
            Ok(k) => out.push(k),
            Err(e) => {
                proof { lemma_collect_fails((i + 1) as nat, n as nat, f, e); }
                return Err(e);
            },
        }
        i = i + 1;
        assert(out@ =~= collect(i as nat, f)->Ok_0);
    }
    Ok(out)
}

impl TowerKind {
    /// Copies a tower model, resolving its upgrades against `upgrades`; an
    /// upgrade id missing there fails with `Inconsistent`.
    pub fn load<M: ReadMemory>(model: &schema::TowerModel, upgrades: &UpgradeLookup, mem: &M) -> (r: Result<TowerKind, ReadError>)
        ensures
            agrees(r, spec_tower_kind(mem.image().bytes@, model.address as int, upgrades@)),
    {
        proof { reveal(spec_tower_kind); }
        let tiers = load_tiers(model, mem)?;
        if tiers.len() != 3 {
            return Err(ReadError::ValueOutOfRange);
        }
        let applied_upgrades = load_applied(model, mem, upgrades)?;
        let available_upgrades = load_available(model, mem, upgrades)?;
        let id = read_text(model, mem, 0x28)?;
        let set = model.tower_set(mem)?;
        let three = [tiers[0], tiers[1], tiers[2]];
        assert(three@ =~= tiers@);
        let r = TowerKind { id, set, tiers: three, applied_upgrades, available_upgrades };
        Ok(r)
    }
}

/// The views of a sequence of tower kinds.
pub open spec fn tower_kind_views(v: Seq<TowerKind>) -> Seq<TowerKindView> {
    Seq::new(v.len(), |i: int| v[i]@)
}

/// Every tower model of a game model, copied once per model.
#[derive(Debug, Clone, PartialEq, Eq)]
pub struct TowerLookup {
    pub towers: Vec<TowerKind>,
}

impl View for TowerLookup {
    type V = Seq<TowerKindView>;

    open spec fn view(&self) -> Seq<TowerKindView> {
        tower_kind_views(self.towers@)
    }
}

/// What loading each tower model of the array at `array` gives.
pub open spec fn tower_items(image: Map<int, u8>, array: int, upgrades: Seq<UpgradeView>) -> spec_fn(int) -> Result<TowerKindView, ReadError> {
    |i: int| match spec_array_get::<schema::TowerModel>(image, array, i) {
        Err(e) => Err(e),
        Ok(m) => spec_tower_kind(image, m.address as int, upgrades),
    }
}

/// The tower lookup of the game model at `model`: every tower model, in order.
pub open spec fn spec_tower_lookup(image: Map<int, u8>, model: int, upgrades: Seq<UpgradeView>) -> Result<Seq<TowerKindView>, ReadError> {
    spec_array_items::<schema::TowerModel, TowerKindView>(image, model + HEADER_SIZE + 0xf0, |arr: int| tower_items(image, arr, upgrades))
}

/// The index of the first tower kind with id `id`; a missing id means the
/// model changed while it was read.
pub open spec fn spec_tower_index(towers: Seq<TowerKindView>, id: Seq<char>) -> Result<usize, ReadError> {
    if exists|i: int| 0 <= i < towers.len() && towers[i].id == id && forall|j: int| 0 <= j < i ==> towers[j].id != id {
        Ok((choose|i: int| 0 <= i < towers.len() && towers[i].id == id && forall|j: int| 0 <= j < i ==> towers[j].id != id) as usize)
    } else {
        Err(ReadError::Inconsistent)
    }
}

impl TowerLookup {
    /// Copies every tower model of `model`, in the model's order.
    pub fn load<M: ReadMemory>(model: &schema::GameModel, upgrades: &UpgradeLookup, mem: &M) -> (r: Result<TowerLookup, ReadError>)
        ensures
            agrees(r, spec_tower_lookup(mem.image().bytes@, model.address as int, upgrades@)),
    {
        let ghost image = mem.image().bytes@;
        let models = model.towers(mem)?;
        let n = models.len(mem)?;
        let ghost f = tower_items(image, models.address as int, upgrades@);
        let mut towers: Vec<TowerKind> = Vec::new();
        assert(tower_kind_views(towers@) =~= Seq::<TowerKindView>::empty());
        let mut i: u32 = 0;
        while i < n
            invariant
                image == mem.image().bytes@,
                f == tower_items(image, models.address as int, upgrades@),
                Array::<schema::TowerModel>::decode(image, model.address + HEADER_SIZE + 0xf0)
                    == Ok::<Array<schema::TowerModel>, ReadError>(models),
                spec_array_len(image, models.address as int) == Ok::<u32, ReadError>(n),
                i <= n,
                collect(i as nat, f) == Ok::<Seq<TowerKindView>, ReadError>(tower_kind_views(towers@)),
            decreases n - i,
        {
            let m = match models.get(mem, i as usize) {
                Ok(m) => m,
                Err(e) => {
                    proof { lemma_collect_fails((i + 1) as nat, n as nat, f, e); }
                    return Err(e);
                },
            };
            let t = match TowerKind::load(&m, upgrades, mem) {
                Ok(t) => t,
                Err(e) => {
                    proof { lemma_collect_fails((i + 1) as nat, n as nat, f, e); }
                    return Err(e);
                },
            };
            towers.push(t);
            i = i + 1;
            assert(tower_kind_views(towers@) =~= collect(i as nat, f)->Ok_0);
        }
        Ok(TowerLookup { towers })
    }

    /// The index of the first tower kind with id `id`.
    pub fn by_id(&self, id: &String) -> (r: Result<usize, ReadError>)
        ensures
            r == spec_tower_index(self@, id@),
    {
        let ghost ts = self@;
        let mut i: usize = 0;
        while i < self.towers.len()
            invariant
                ts == self@,
                i <= ts.len(),
                forall|j: int| 0 <= j < i ==> ts[j].id != id@,
            decreases ts.len() - i,
        {
            if self.towers[i].id == *id {
                proof {
                    let p = |k: int| 0 <= k < ts.len() && ts[k].id == id@ && forall|j: int| 0 <= j < k ==> ts[j].id != id@;
                    assert(p(i as int));
                    let c = choose|k: int| 0 <= k < ts.len() && ts[k].id == id@ && forall|j: int| 0 <= j < k ==> ts[j].id != id@;
                    assert(p(c));
                    if c < i {
                        assert(ts[c].id != id@);
                    } else if c > i {
                        assert(ts[i as int].id != id@);
                    }
                }
                return Ok(i);
            }
            i = i + 1;
        }
        Err(ReadError::Inconsistent)
    }
}

} // verus!
