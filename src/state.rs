//! The walk from the simulation to the towers and bloons of a match.
use vstd::prelude::*;

use crate::containers::{
    spec_array_get, spec_array_len, spec_dictionary_get, spec_dictionary_len, spec_list_get, spec_list_len, Array,
    Dictionary, List,
};
use crate::memory::{ReadError, ReadMemory};
use crate::object::{MemoryRead, Pointer, HEADER_SIZE};
use crate::schema::{self, ObjectId, INVALID_OBJECT_ID};
use crate::snapshot::{
    collect, collect_concat, lemma_collect_concat_fails, lemma_collect_fails, read_text, spec_text_at,
    spec_tower_index, TowerKindView, TowerLookup,
};

verus! {

/// What each area of the map at `d`'s dictionary holds: its list of towers.
pub open spec fn area_items(image: Map<int, u8>, dict: int) -> spec_fn(int) -> Result<Seq<schema::Tower>, ReadError> {
    |i: int| match spec_dictionary_get::<Pointer, List<schema::Tower>>(image, dict, i) {
        Err(e) => Err(e),
        Ok(entry) => match spec_list_len(image, entry.1.address as int) {
            Err(e) => Err(e),
            Ok(k) => collect(k as nat, |j: int| spec_list_get::<schema::Tower>(image, entry.1.address as int, j)),
        },
    }
}

/// Every tower placed on the map at `map`, area by area.
pub open spec fn spec_map_towers(image: Map<int, u8>, map: int) -> Result<Seq<schema::Tower>, ReadError> {
    match Dictionary::<Pointer, List<schema::Tower>>::decode(image, map + HEADER_SIZE + 0x98) {
        Err(e) => Err(e),
        Ok(d) => match spec_dictionary_len(image, d.address as int) {
            Err(e) => Err(e),
            Ok(n) => collect_concat(n as nat, area_items(image, d.address as int)),
        },
    }
}

fn load_area<M: ReadMemory>(list: &List<schema::Tower>, mem: &M, out: &mut Vec<schema::Tower>) -> (r: Result<(), ReadError>)
    ensures
        match spec_list_len(mem.image().bytes@, list.address as int) {
            Err(e) => r == Err::<(), ReadError>(e),
            Ok(k) => match collect(k as nat, |j: int| spec_list_get::<schema::Tower>(mem.image().bytes@, list.address as int, j)) {
                Err(e) => r == Err::<(), ReadError>(e),
                Ok(ts) => r is Ok && final(out)@ == old(out)@ + ts,
            },
        },
{
    let ghost image = mem.image().bytes@;
    let ghost start = out@;
    let k = list.len(mem)?;
    let ghost f = |j: int| spec_list_get::<schema::Tower>(image, list.address as int, j);
    let mut j: u32 = 0;
    assert(out@ =~= start + Seq::<schema::Tower>::empty());
    while j < k
        invariant
            image == mem.image().bytes@,
            f == (|j: int| spec_list_get::<schema::Tower>(image, list.address as int, j)),
            spec_list_len(image, list.address as int) == Ok::<u32, ReadError>(k),
            j <= k,
            start == old(out)@,
            collect(j as nat, f) matches Ok(ts) && out@ == start + ts,
        decreases k - j,
    {
        let t = match list.get(mem, j as usize) {
            Ok(t) => t,
            Err(e) => {
                proof { lemma_collect_fails((j + 1) as nat, k as nat, f, e); }
                return Err(e);
            },
        };
        out.push(t);
        j = j + 1;
        assert(out@ =~= start + collect(j as nat, f)->Ok_0);
    }
    Ok(())
}

/// Every tower placed on `map`, area by area.
pub fn map_towers<M: ReadMemory>(map: &schema::GameMap, mem: &M) -> (r: Result<Vec<schema::Tower>, ReadError>)
    ensures
        match r {
            Ok(v) => spec_map_towers(mem.image().bytes@, map.address as int) == Ok::<Seq<schema::Tower>, ReadError>(v@),
            Err(e) => spec_map_towers(mem.image().bytes@, map.address as int) == Err::<Seq<schema::Tower>, ReadError>(e),
        },
{
    let ghost image = mem.image().bytes@;
    let areas = map.towers_by_area(mem)?;
    let n = areas.len(mem)?;
    let ghost f = area_items(image, areas.address as int);
    let mut out: Vec<schema::Tower> = Vec::new();
    let mut i: u32 = 0;
    assert(out@ =~= Seq::<schema::Tower>::empty());
    while i < n
        invariant
            image == mem.image().bytes@,
            f == area_items(image, areas.address as int),
            Dictionary::<Pointer, List<schema::Tower>>::decode(image, map.address + HEADER_SIZE + 0x98)
                == Ok::<Dictionary<Pointer, List<schema::Tower>>, ReadError>(areas),
            spec_dictionary_len(image, areas.address as int) == Ok::<u32, ReadError>(n),
            i <= n,
            collect_concat(i as nat, f) == Ok::<Seq<schema::Tower>, ReadError>(out@),
        decreases n - i,
    {
        let ghost before = out@;
        let step = match areas.get(mem, i as usize) {
            Ok(entry) => load_area(&entry.1, mem, &mut out),
            Err(e) => Err(e),
        };
        if let Err(e) = step {
            proof { lemma_collect_concat_fails((i + 1) as nat, n as nat, f, e); }
            return Err(e);
        }
        i = i + 1;
    }
    Ok(out)
}

/// One tower of the snapshot: its id, the index of its kind in the tower
/// lookup, and the bit pattern of its single-precision sell value.
#[derive(Debug, Clone, PartialEq, Eq)]
pub struct Tower {
    pub id: String,
    pub kind: usize,
    pub worth_bits: u32,
}

pub struct TowerView {
    pub id: Seq<char>,
    pub kind: usize,
    pub worth_bits: u32,
}

impl View for Tower {
    type V = TowerView;

    open spec fn view(&self) -> TowerView {
        TowerView { id: self.id@, kind: self.kind, worth_bits: self.worth_bits }
    }
}

/// What the snapshot keeps of the tower at `t`: nothing unless it is attached
/// to an entity and was not made by another tower; else its record, whose
/// kind must be in `kinds`.
pub open spec fn spec_tower_record(image: Map<int, u8>, t: int, kinds: Seq<TowerKindView>) -> Result<Seq<TowerView>, ReadError> {
    match Option::<schema::Entity>::decode(image, t + HEADER_SIZE + 0x38) {
        Err(e) => Err(e),
        Ok(entity) => if entity is None {
            Ok(Seq::empty())
        } else {
            match ObjectId::decode(image, t + HEADER_SIZE + 0xc4) {
                Err(e) => Err(e),
                Ok(parent) => if parent.0 != INVALID_OBJECT_ID {
                    Ok(Seq::empty())
                } else {
                    match spec_text_at(image, t + HEADER_SIZE + 0x90) {
                        Err(e) => Err(e),
                        Ok(id) => match schema::TowerModel::decode(image, t + HEADER_SIZE + 0xd0) {
                            Err(e) => Err(e),
                            Ok(model) => match spec_text_at(image, model.address + HEADER_SIZE + 0x28) {
                                Err(e) => Err(e),
                                Ok(base_id) => match spec_tower_index(kinds, base_id) {
                                    Err(e) => Err(e),
                                    Ok(kind) => match u32::decode(image, t + HEADER_SIZE + 0x98) {
                                        Err(e) => Err(e),
                                        Ok(worth_bits) => Ok(seq![TowerView { id, kind, worth_bits }]),
                                    },
                                },
                            },
                        },
                    }
                },
            }
        },
    }
}

/// The records of the towers `towers`, in order.
pub open spec fn record_items(image: Map<int, u8>, towers: Seq<schema::Tower>, kinds: Seq<TowerKindView>) -> spec_fn(int) -> Result<Seq<TowerView>, ReadError> {
    |i: int| spec_tower_record(image, towers[i].address as int, kinds)
}

/// The views of a sequence of tower records.
pub open spec fn tower_views(v: Seq<Tower>) -> Seq<TowerView> {
    Seq::new(v.len(), |i: int| v[i]@)
}

fn load_record<M: ReadMemory>(tower: &schema::Tower, lookup: &TowerLookup, mem: &M, out: &mut Vec<Tower>) -> (r: Result<(), ReadError>)
    ensures
        match spec_tower_record(mem.image().bytes@, tower.address as int, lookup@) {
            Err(e) => r == Err::<(), ReadError>(e),
            Ok(x) => r is Ok && tower_views(final(out)@) == tower_views(old(out)@) + x,
        },
{
    let entity = tower.base().entity(mem)?;
    if entity.is_none() {
        assert(tower_views(out@) =~= tower_views(out@) + Seq::<TowerView>::empty());
        return Ok(());
    }
    let parent = tower.parent_tower_id(mem)?;
    if parent.0 != INVALID_OBJECT_ID {
        assert(tower_views(out@) =~= tower_views(out@) + Seq::<TowerView>::empty());
        return Ok(());
    }
    let id = read_text(tower, mem, 0x90)?;
    let model = tower.model(mem)?;
    let base_id = read_text(&model, mem, 0x28)?;
    let kind = lookup.by_id(&base_id)?;
    let worth_bits = tower.worth_bits(mem)?;
    let ghost before = out@;
    out.push(Tower { id, kind, worth_bits });
    assert(tower_views(out@) =~= tower_views(before) + seq![out@.last()@]);
    Ok(())
}

/// The records of the towers among `towers` that are placed by the player.
pub fn tower_records<M: ReadMemory>(towers: &Vec<schema::Tower>, lookup: &TowerLookup, mem: &M) -> (r: Result<Vec<Tower>, ReadError>)
    ensures
        match r {
            Ok(v) => collect_concat(towers@.len(), record_items(mem.image().bytes@, towers@, lookup@))
                == Ok::<Seq<TowerView>, ReadError>(tower_views(v@)),
            Err(e) => collect_concat(towers@.len(), record_items(mem.image().bytes@, towers@, lookup@))
                == Err::<Seq<TowerView>, ReadError>(e),
        },
{
    let ghost image = mem.image().bytes@;
    let ghost f = record_items(image, towers@, lookup@);
    let mut out: Vec<Tower> = Vec::new();
    assert(tower_views(out@) =~= Seq::<TowerView>::empty());
    let mut i: usize = 0;
    while i < towers.len()
        invariant
            image == mem.image().bytes@,
            f == record_items(image, towers@, lookup@),
            i <= towers@.len(),
            collect_concat(i as nat, f) == Ok::<Seq<TowerView>, ReadError>(tower_views(out@)),
        decreases towers@.len() - i,
    {
        if let Err(e) = load_record(&towers[i], lookup, mem, &mut out) {
            proof { lemma_collect_concat_fails((i + 1) as nat, towers@.len(), f, e); }
            return Err(e);
        }
        i = i + 1;
    }
    Ok(out)
}

/// A bloon on a path: its kind, and the bit patterns of the single-precision
/// distance it has travelled and of the distance its segment has left until
/// the exit.
#[derive(Debug, Clone, PartialEq, Eq)]
pub struct Bloon {
    pub kind: String,
    pub distance_bits: u32,
    pub leak_distance_bits: u32,
}

pub struct BloonView {
    pub kind: Seq<char>,
    pub distance_bits: u32,
    pub leak_distance_bits: u32,
}

impl View for Bloon {
    type V = BloonView;

    open spec fn view(&self) -> BloonView {
        BloonView { kind: self.kind@, distance_bits: self.distance_bits, leak_distance_bits: self.leak_distance_bits }
    }
}

/// The views of a sequence of bloons.
pub open spec fn bloon_views(v: Seq<Bloon>) -> Seq<BloonView> {
    Seq::new(v.len(), |i: int| v[i]@)
}

/// The bloon at `b` on the segment at `segment`.
pub open spec fn spec_bloon(image: Map<int, u8>, b: int, segment: int) -> Result<BloonView, ReadError> {
    match schema::BloonModel::decode(image, b + HEADER_SIZE + 0xa8) {
        Err(e) => Err(e),
        Ok(model) => match spec_text_at(image, model.address + HEADER_SIZE + 0x28) {
            Err(e) => Err(e),
            Ok(kind) => match u32::decode(image, b + HEADER_SIZE + 0x158) {
                Err(e) => Err(e),
                Ok(distance_bits) => match u32::decode(image, segment + HEADER_SIZE + 0x28) {
                    Err(e) => Err(e),
                    Ok(leak_distance_bits) => Ok(BloonView { kind, distance_bits, leak_distance_bits }),
                },
            },
        },
    }
}

/// The bloons of each item of the segment's bloon list at `list`.
pub open spec fn bloon_items(image: Map<int, u8>, list: int, segment: int) -> spec_fn(int) -> Result<BloonView, ReadError> {
    |j: int| match spec_list_get::<schema::BloonTargetProxy>(image, list, j) {
        Err(e) => Err(e),
        Ok(p) => spec_bloon(image, p.bloon.address as int, segment),
    }
}

/// The bloons on the segment at `segment`, in list order.
pub open spec fn spec_segment_bloons(image: Map<int, u8>, segment: int) -> Result<Seq<BloonView>, ReadError> {
    match List::<schema::BloonTargetProxy>::decode(image, segment + HEADER_SIZE + 0x0) {
        Err(e) => Err(e),
        Ok(list) => match spec_list_len(image, list.address as int) {
            Err(e) => Err(e),
            Ok(k) => collect(k as nat, bloon_items(image, list.address as int, segment)),
        },
    }
}

fn load_segment<M: ReadMemory>(segment: &schema::PathSegment, mem: &M, out: &mut Vec<Bloon>) -> (r: Result<(), ReadError>)
    ensures
        match spec_segment_bloons(mem.image().bytes@, segment.address as int) {
            Err(e) => r == Err::<(), ReadError>(e),
            Ok(bs) => r is Ok && bloon_views(final(out)@) == bloon_views(old(out)@) + bs,
        },
{
    let ghost image = mem.image().bytes@;
    let ghost start = bloon_views(out@);
    let list = segment.bloons(mem)?;
    let k = list.len(mem)?;
    let ghost f = bloon_items(image, list.address as int, segment.address as int);
    assert(bloon_views(out@) =~= start + Seq::<BloonView>::empty());
    let mut j: u32 = 0;
    while j < k
        invariant
            image == mem.image().bytes@,
            f == bloon_items(image, list.address as int, segment.address as int),
            List::<schema::BloonTargetProxy>::decode(image, segment.address + HEADER_SIZE + 0x0)
                == Ok::<List<schema::BloonTargetProxy>, ReadError>(list),
            spec_list_len(image, list.address as int) == Ok::<u32, ReadError>(k),
            j <= k,
            start == bloon_views(old(out)@),
            collect(j as nat, f) matches Ok(bs) && bloon_views(out@) == start + bs,
        decreases k - j,
    {
        let step = match list.get(mem, j as usize) {
            Err(e) => Err(e),
            Ok(p) => {
                let b = p.bloon;
                match b.model(mem) {
                    Err(e) => Err(e),
                    Ok(model) => match read_text(&model, mem, 0x28) {
                        Err(e) => Err(e),
                        Ok(kind) => match b.distance_travelled_bits(mem) {
                            Err(e) => Err(e),
                            Ok(distance_bits) => match segment.leak_distance_bits(mem) {
                                Err(e) => Err(e),
                                Ok(leak_distance_bits) => Ok(Bloon { kind, distance_bits, leak_distance_bits }),
                            },
                        },
                    },
                }
            },
        };
        match step {
            Err(e) => {
                proof { lemma_collect_fails((j + 1) as nat, k as nat, f, e); }
                return Err(e);
            },
            Ok(b) => {
                let ghost before = out@;
                out.push(b);
                assert(bloon_views(out@) =~= bloon_views(before).push(b@));
            },
        }
        j = j + 1;
        assert(bloon_views(out@) =~= start + collect(j as nat, f)->Ok_0);
    }
    Ok(())
}

/// A bloon path: its bloons, segment by segment, and the bit pattern of its
/// single-precision leak distance.
#[derive(Debug, Clone, PartialEq, Eq)]
pub struct Path {
    pub bloons: Vec<Bloon>,
    pub leak_distance_bits: u32,
}

pub struct PathView {
    pub bloons: Seq<BloonView>,
    pub leak_distance_bits: u32,
}

impl View for Path {
    type V = PathView;

    open spec fn view(&self) -> PathView {
        PathView { bloons: bloon_views(self.bloons@), leak_distance_bits: self.leak_distance_bits }
    }
}

/// The bloons of each segment of the array at `segments`.
pub open spec fn segment_items(image: Map<int, u8>, segments: int) -> spec_fn(int) -> Result<Seq<BloonView>, ReadError> {
    |i: int| match spec_array_get::<schema::PathSegment>(image, segments, i) {
        Err(e) => Err(e),
        Ok(s) => spec_segment_bloons(image, s.address as int),
    }
}

/// The path at `p`.
pub open spec fn spec_path(image: Map<int, u8>, p: int) -> Result<PathView, ReadError> {
    match Array::<schema::PathSegment>::decode(image, p + HEADER_SIZE + 0x0) {
        Err(e) => Err(e),
        Ok(segments) => match spec_array_len(image, segments.address as int) {
            Err(e) => Err(e),
            Ok(n) => match collect_concat(n as nat, segment_items(image, segments.address as int)) {
                Err(e) => Err(e),
                Ok(bloons) => match u32::decode(image, p + HEADER_SIZE + 0x18) {
                    Err(e) => Err(e),
                    Ok(leak_distance_bits) => Ok(PathView { bloons, leak_distance_bits }),
                },
            },
        },
    }
}

impl Path {
    /// Copies a path and the bloons on it.
    pub fn load<M: ReadMemory>(path: &schema::Path, mem: &M) -> (r: Result<Path, ReadError>)
        ensures
            match r {
                Ok(v) => spec_path(mem.image().bytes@, path.address as int) == Ok::<PathView, ReadError>(v@),
                Err(e) => spec_path(mem.image().bytes@, path.address as int) == Err::<PathView, ReadError>(e),
            },
    {
        let ghost image = mem.image().bytes@;
        let segments = path.segments(mem)?;
        let n = segments.len(mem)?;
        let ghost f = segment_items(image, segments.address as int);
        let mut bloons: Vec<Bloon> = Vec::new();
        assert(bloon_views(bloons@) =~= Seq::<BloonView>::empty());
        let mut i: u32 = 0;
        while i < n
            invariant
                image == mem.image().bytes@,
                f == segment_items(image, segments.address as int),
                Array::<schema::PathSegment>::decode(image, path.address + HEADER_SIZE + 0x0)
                    == Ok::<Array<schema::PathSegment>, ReadError>(segments),
                spec_array_len(image, segments.address as int) == Ok::<u32, ReadError>(n),
                i <= n,
                collect_concat(i as nat, f) == Ok::<Seq<BloonView>, ReadError>(bloon_views(bloons@)),
            decreases n - i,
        {
            let step = match segments.get(mem, i as usize) {
                Ok(s) => load_segment(&s, mem, &mut bloons),
                Err(e) => Err(e),
            };
            if let Err(e) = step {
                proof { lemma_collect_concat_fails((i + 1) as nat, n as nat, f, e); }
                return Err(e);
            }
            i = i + 1;
        }
        let leak_distance_bits = path.leak_distance_bits(mem)?;
        Ok(Path { bloons, leak_distance_bits })
    }
}

/// The views of a sequence of paths.
pub open spec fn path_views(v: Seq<Path>) -> Seq<PathView> {
    Seq::new(v.len(), |i: int| v[i]@)
}

/// Each path of the path list at `list`.
pub open spec fn path_items(image: Map<int, u8>, list: int) -> spec_fn(int) -> Result<PathView, ReadError> {
    |i: int| match spec_list_get::<schema::Path>(image, list, i) {
        Err(e) => Err(e),
        Ok(p) => spec_path(image, p.address as int),
    }
}

/// Every path of the map at `map`, in order.
pub open spec fn spec_paths(image: Map<int, u8>, map: int) -> Result<Seq<PathView>, ReadError> {
    match schema::PathManager::decode(image, map + HEADER_SIZE + 0x80) {
        Err(e) => Err(e),
        Ok(manager) => match List::<schema::Path>::decode(image, manager.address + HEADER_SIZE + 0x48) {
            Err(e) => Err(e),
            Ok(list) => match spec_list_len(image, list.address as int) {
                Err(e) => Err(e),
                Ok(n) => collect(n as nat, path_items(image, list.address as int)),
            },
        },
    }
}

/// Copies every path of `map` with its bloons.
pub fn load_paths<M: ReadMemory>(map: &schema::GameMap, mem: &M) -> (r: Result<Vec<Path>, ReadError>)
    ensures
        match r {
            Ok(v) => spec_paths(mem.image().bytes@, map.address as int) == Ok::<Seq<PathView>, ReadError>(path_views(v@)),
            Err(e) => spec_paths(mem.image().bytes@, map.address as int) == Err::<Seq<PathView>, ReadError>(e),
        },
{
    let ghost image = mem.image().bytes@;
    let manager = map.path_manager(mem)?;
    let list = manager.paths(mem)?;
    let n = list.len(mem)?;
    let ghost f = path_items(image, list.address as int);
    let mut paths: Vec<Path> = Vec::new();
    assert(path_views(paths@) =~= Seq::<PathView>::empty());
    let mut i: u32 = 0;
    while i < n
        invariant
            image == mem.image().bytes@,
            f == path_items(image, list.address as int),
            schema::PathManager::decode(image, map.address + HEADER_SIZE + 0x80) == Ok::<schema::PathManager, ReadError>(manager),
            List::<schema::Path>::decode(image, manager.address + HEADER_SIZE + 0x48) == Ok::<List<schema::Path>, ReadError>(list),
            spec_list_len(image, list.address as int) == Ok::<u32, ReadError>(n),
            i <= n,
            collect(i as nat, f) == Ok::<Seq<PathView>, ReadError>(path_views(paths@)),
        decreases n - i,
    {
        let step = match list.get(mem, i as usize) {
            Ok(p) => Path::load(&p, mem),
            Err(e) => Err(e),
        };
        match step {
            Err(e) => {
                proof { lemma_collect_fails((i + 1) as nat, n as nat, f, e); }
                return Err(e);
            },
            Ok(p) => {
                paths.push(p);
            },
        }
        i = i + 1;
        assert(path_views(paths@) =~= collect(i as nat, f)->Ok_0);
    }
    Ok(paths)
}

} // verus!
