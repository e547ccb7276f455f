//! The layout of the game's classes: the runtime name of each, and the offset
//! and type of each field that the snapshot reads. Offsets count from the end
//! of the object header.
#![allow(non_camel_case_types)]
use vstd::prelude::*;

use crate::containers::{Array, CSharpString, Dictionary, List, LockList};
use crate::memory::{ReadError, ReadMemory};
use crate::object::{field, MemoryRead, NameCheck, Object, Pointer, RemoteObject, HEADER_SIZE};
use crate::scalar::{spec_read_u32, read_u32};

verus! {

/// Holds a player's cash.
#[derive(Debug, Clone, Copy, PartialEq, Eq)]
pub struct CashManager {
    pub address: u64,
}

impl RemoteObject for CashManager {
    open spec fn spec_address(&self) -> u64 {
        self.address
    }

    open spec fn at(address: u64) -> CashManager {
        CashManager { address }
    }

    open spec fn spec_expected_name() -> Seq<char> {
        "CashManager"@
    }

    open spec fn spec_check() -> NameCheck {
        NameCheck::Exact
    }

    fn address(&self) -> (r: u64) {
        self.address
    }

    fn from_address(address: u64) -> (r: CashManager) {
        CashManager { address }
    }

    fn expected_name() -> (r: &'static str) {
        "CashManager"
    }

    fn check() -> (r: NameCheck) {
        NameCheck::Exact
    }
}

impl CashManager {
    /// The obfuscated cash amount.
    pub fn cash<M: ReadMemory>(&self, mem: &M) -> (r: Result<KonFuze, ReadError>)
        ensures
            r == <KonFuze as MemoryRead>::decode(mem.image().bytes@, self.address + HEADER_SIZE + 0x0000),
    {
        field(self, mem, 0x0000)
    }
}

/// The in-match scene; its static instance is the root of the walk.
#[derive(Debug, Clone, Copy, PartialEq, Eq)]
pub struct InGame {
    pub address: u64,
}

impl RemoteObject for InGame {
    open spec fn spec_address(&self) -> u64 {
        self.address
    }

    open spec fn at(address: u64) -> InGame {
        InGame { address }
    }

    open spec fn spec_expected_name() -> Seq<char> {
        "InGame"@
    }

    open spec fn spec_check() -> NameCheck {
        NameCheck::Exact
    }

    fn address(&self) -> (r: u64) {
        self.address
    }

    fn from_address(address: u64) -> (r: InGame) {
        InGame { address }
    }

    fn expected_name() -> (r: &'static str) {
        "InGame"
    }

    fn check() -> (r: NameCheck) {
        NameCheck::Exact
    }
}

impl InGame {
    /// Player input state.
    pub fn input_manager<M: ReadMemory>(&self, mem: &M) -> (r: Result<InputManager, ReadError>)
        ensures
            r == <InputManager as MemoryRead>::decode(mem.image().bytes@, self.address + HEADER_SIZE + 0x0060),
    {
        field(self, mem, 0x0060)
    }

    /// The bridge to the simulation.
    pub fn unity_to_simulation<M: ReadMemory>(&self, mem: &M) -> (r: Result<UnityToSimulation, ReadError>)
        ensures
            r == <UnityToSimulation as MemoryRead>::decode(mem.image().bytes@, self.address + HEADER_SIZE + 0x00b8),
    {
        field(self, mem, 0x00b8)
    }

    /// Whether a menu has paused the match.
    pub fn stopped_clock_for_menu_open<M: ReadMemory>(&self, mem: &M) -> (r: Result<bool, ReadError>)
        ensures
            r == <bool as MemoryRead>::decode(mem.image().bytes@, self.address + HEADER_SIZE + 0x0160),
    {
        field(self, mem, 0x0160)
    }
}

/// Player input state.
#[derive(Debug, Clone, Copy, PartialEq, Eq)]
pub struct InputManager {
    pub address: u64,
}

impl RemoteObject for InputManager {
    open spec fn spec_address(&self) -> u64 {
        self.address
    }

    open spec fn at(address: u64) -> InputManager {
        InputManager { address }
    }

    open spec fn spec_expected_name() -> Seq<char> {
        "InputManager"@
    }

    open spec fn spec_check() -> NameCheck {
        NameCheck::Exact
    }

    fn address(&self) -> (r: u64) {
        self.address
    }

    fn from_address(address: u64) -> (r: InputManager) {
        InputManager { address }
    }

    fn expected_name() -> (r: &'static str) {
        "InputManager"
    }

    fn check() -> (r: NameCheck) {
        NameCheck::Exact
    }
}

impl InputManager {
    /// The selected object, if any.
    pub fn selected<M: ReadMemory>(&self, mem: &M) -> (r: Result<Option<Object>, ReadError>)
        ensures
            r == <Option<Object> as MemoryRead>::decode(mem.image().bytes@, self.address + HEADER_SIZE + 0x01a0),
    {
        field(self, mem, 0x01a0)
    }
}

/// The bridge between the engine and the simulation.
#[derive(Debug, Clone, Copy, PartialEq, Eq)]
pub struct UnityToSimulation {
    pub address: u64,
}

impl RemoteObject for UnityToSimulation {
    open spec fn spec_address(&self) -> u64 {
        self.address
    }

    open spec fn at(address: u64) -> UnityToSimulation {
        UnityToSimulation { address }
    }

    open spec fn spec_expected_name() -> Seq<char> {
        "UnityToSimulation"@
    }

    open spec fn spec_check() -> NameCheck {
        NameCheck::Exact
    }

    fn address(&self) -> (r: u64) {
        self.address
    }

    fn from_address(address: u64) -> (r: UnityToSimulation) {
        UnityToSimulation { address }
    }

    fn expected_name() -> (r: &'static str) {
        "UnityToSimulation"
    }

    fn check() -> (r: NameCheck) {
        NameCheck::Exact
    }
}

impl UnityToSimulation {
    /// The running simulation.
    pub fn simulation<M: ReadMemory>(&self, mem: &M) -> (r: Result<Simulation, ReadError>)
        ensures
            r == <Simulation as MemoryRead>::decode(mem.image().bytes@, self.address + HEADER_SIZE + 0x0018),
    {
        field(self, mem, 0x0018)
    }
}

/// The bridge object of one tower.
#[derive(Debug, Clone, Copy, PartialEq, Eq)]
pub struct TowerToSimulation {
    pub address: u64,
}

impl RemoteObject for TowerToSimulation {
    open spec fn spec_address(&self) -> u64 {
        self.address
    }

    open spec fn at(address: u64) -> TowerToSimulation {
        TowerToSimulation { address }
    }

    open spec fn spec_expected_name() -> Seq<char> {
        "TowerToSimulation"@
    }

    open spec fn spec_check() -> NameCheck {
        NameCheck::Exact
    }

    fn address(&self) -> (r: u64) {
        self.address
    }

    fn from_address(address: u64) -> (r: TowerToSimulation) {
        TowerToSimulation { address }
    }

    fn expected_name() -> (r: &'static str) {
        "TowerToSimulation"
    }

    fn check() -> (r: NameCheck) {
        NameCheck::Exact
    }
}

impl TowerToSimulation {
    /// The tower.
    pub fn tower<M: ReadMemory>(&self, mem: &M) -> (r: Result<Tower, ReadError>)
        ensures
            r == <Tower as MemoryRead>::decode(mem.image().bytes@, self.address + HEADER_SIZE + 0x0010),
    {
        field(self, mem, 0x0010)
    }
}

/// The running match.
#[derive(Debug, Clone, Copy, PartialEq, Eq)]
pub struct Simulation {
    pub address: u64,
}

impl RemoteObject for Simulation {
    open spec fn spec_address(&self) -> u64 {
        self.address
    }

    open spec fn at(address: u64) -> Simulation {
        Simulation { address }
    }

    open spec fn spec_expected_name() -> Seq<char> {
        "Simulation"@
    }

    open spec fn spec_check() -> NameCheck {
        NameCheck::Exact
    }

    fn address(&self) -> (r: u64) {
        self.address
    }

    fn from_address(address: u64) -> (r: Simulation) {
        Simulation { address }
    }

    fn expected_name() -> (r: &'static str) {
        "Simulation"
    }

    fn check() -> (r: NameCheck) {
        NameCheck::Exact
    }
}

impl Simulation {
    /// The simulation's entity.
    pub fn entity<M: ReadMemory>(&self, mem: &M) -> (r: Result<Object, ReadError>)
        ensures
            r == <Object as MemoryRead>::decode(mem.image().bytes@, self.address + HEADER_SIZE + 0x0000),
    {
        field(self, mem, 0x0000)
    }

    /// The rules the match runs under.
    pub fn model<M: ReadMemory>(&self, mem: &M) -> (r: Result<GameModel, ReadError>)
        ensures
            r == <GameModel as MemoryRead>::decode(mem.image().bytes@, self.address + HEADER_SIZE + 0x0010),
    {
        field(self, mem, 0x0010)
    }

    /// Time elapsed in the match.
    pub fn time<M: ReadMemory>(&self, mem: &M) -> (r: Result<SimulationTime, ReadError>)
        ensures
            r == <SimulationTime as MemoryRead>::decode(mem.image().bytes@, self.address + HEADER_SIZE + 0x0020),
    {
        field(self, mem, 0x0020)
    }

    /// Time elapsed in the round.
    pub fn round_time<M: ReadMemory>(&self, mem: &M) -> (r: Result<SimulationTime, ReadError>)
        ensures
            r == <SimulationTime as MemoryRead>::decode(mem.image().bytes@, self.address + HEADER_SIZE + 0x0028),
    {
        field(self, mem, 0x0028)
    }

    /// The tower manager.
    pub fn tower_manager<M: ReadMemory>(&self, mem: &M) -> (r: Result<TowerManager, ReadError>)
        ensures
            r == <TowerManager as MemoryRead>::decode(mem.image().bytes@, self.address + HEADER_SIZE + 0x0058),
    {
        field(self, mem, 0x0058)
    }

    /// Cash per player.
    pub fn cash_managers<M: ReadMemory>(&self, mem: &M) -> (r: Result<Dictionary<Object, CashManager>, ReadError>)
        ensures
            r == <Dictionary<Object, CashManager> as MemoryRead>::decode(mem.image().bytes@, self.address + HEADER_SIZE + 0x03d8),
    {
        field(self, mem, 0x03d8)
    }

    /// Lives left.
    pub fn health<M: ReadMemory>(&self, mem: &M) -> (r: Result<KonFuze, ReadError>)
        ensures
            r == <KonFuze as MemoryRead>::decode(mem.image().bytes@, self.address + HEADER_SIZE + 0x03f8),
    {
        field(self, mem, 0x03f8)
    }

    /// The map being played.
    pub fn map<M: ReadMemory>(&self, mem: &M) -> (r: Result<GameMap, ReadError>)
        ensures
            r == <GameMap as MemoryRead>::decode(mem.image().bytes@, self.address + HEADER_SIZE + 0x0400),
    {
        field(self, mem, 0x0400)
    }
}

/// A simulation clock.
#[derive(Debug, Clone, Copy, PartialEq, Eq)]
pub struct SimulationTime {
    pub address: u64,
}

impl RemoteObject for SimulationTime {
    open spec fn spec_address(&self) -> u64 {
        self.address
    }

    open spec fn at(address: u64) -> SimulationTime {
        SimulationTime { address }
    }

    open spec fn spec_expected_name() -> Seq<char> {
        "Time"@
    }

    open spec fn spec_check() -> NameCheck {
        NameCheck::Exact
    }

    fn address(&self) -> (r: u64) {
        self.address
    }

    fn from_address(address: u64) -> (r: SimulationTime) {
        SimulationTime { address }
    }

    fn expected_name() -> (r: &'static str) {
        "Time"
    }

    fn check() -> (r: NameCheck) {
        NameCheck::Exact
    }
}

impl SimulationTime {
    /// Elapsed ticks.
    pub fn elapsed<M: ReadMemory>(&self, mem: &M) -> (r: Result<i32, ReadError>)
        ensures
            r == <i32 as MemoryRead>::decode(mem.image().bytes@, self.address + HEADER_SIZE + 0x0000),
    {
        field(self, mem, 0x0000)
    }
}

/// A simulation entity.
#[derive(Debug, Clone, Copy, PartialEq, Eq)]
pub struct Entity {
    pub address: u64,
}

impl RemoteObject for Entity {
    open spec fn spec_address(&self) -> u64 {
        self.address
    }

    open spec fn at(address: u64) -> Entity {
        Entity { address }
    }

    open spec fn spec_expected_name() -> Seq<char> {
        "Entity"@
    }

    open spec fn spec_check() -> NameCheck {
        NameCheck::Exact
    }

    fn address(&self) -> (r: u64) {
        self.address
    }

    fn from_address(address: u64) -> (r: Entity) {
        Entity { address }
    }

    fn expected_name() -> (r: &'static str) {
        "Entity"
    }

    fn check() -> (r: NameCheck) {
        NameCheck::Exact
    }
}

impl Entity {
    /// Objects that depend on it.
    pub fn dependants<M: ReadMemory>(&self, mem: &M) -> (r: Result<LockList<RootObject>, ReadError>)
        ensures
            r == <LockList<RootObject> as MemoryRead>::decode(mem.image().bytes@, self.address + HEADER_SIZE + 0x0060),
    {
        field(self, mem, 0x0060)
    }
}

/// The root of the simulation's object hierarchy.
#[derive(Debug, Clone, Copy, PartialEq, Eq)]
pub struct RootObject {
    pub address: u64,
}

impl RemoteObject for RootObject {
    open spec fn spec_address(&self) -> u64 {
        self.address
    }

    open spec fn at(address: u64) -> RootObject {
        RootObject { address }
    }

    open spec fn spec_expected_name() -> Seq<char> {
        "RootObject"@
    }

    open spec fn spec_check() -> NameCheck {
        NameCheck::Exact
    }

    fn address(&self) -> (r: u64) {
        self.address
    }

    fn from_address(address: u64) -> (r: RootObject) {
        RootObject { address }
    }

    fn expected_name() -> (r: &'static str) {
        "RootObject"
    }

    fn check() -> (r: NameCheck) {
        NameCheck::Exact
    }
}

/// A behaviour attached to an entity.
#[derive(Debug, Clone, Copy, PartialEq, Eq)]
pub struct RootBehavior {
    pub address: u64,
}

impl RemoteObject for RootBehavior {
    open spec fn spec_address(&self) -> u64 {
        self.address
    }

    open spec fn at(address: u64) -> RootBehavior {
        RootBehavior { address }
    }

    open spec fn spec_expected_name() -> Seq<char> {
        "RootBehavior"@
    }

    open spec fn spec_check() -> NameCheck {
        NameCheck::Exact
    }

    fn address(&self) -> (r: u64) {
        self.address
    }

    fn from_address(address: u64) -> (r: RootBehavior) {
        RootBehavior { address }
    }

    fn expected_name() -> (r: &'static str) {
        "RootBehavior"
    }

    fn check() -> (r: NameCheck) {
        NameCheck::Exact
    }
}

impl RootBehavior {
    /// The same object seen as its base class.
    pub fn base(&self) -> (r: RootObject)
        ensures
            r.address == self.address,
    {
        RootObject { address: self.address }
    }

    /// The entity it is attached to, if any.
    pub fn entity<M: ReadMemory>(&self, mem: &M) -> (r: Result<Option<Entity>, ReadError>)
        ensures
            r == <Option<Entity> as MemoryRead>::decode(mem.image().bytes@, self.address + HEADER_SIZE + 0x0038),
    {
        field(self, mem, 0x0038)
    }
}

/// Keeps the towers of a match.
#[derive(Debug, Clone, Copy, PartialEq, Eq)]
pub struct TowerManager {
    pub address: u64,
}

impl RemoteObject for TowerManager {
    open spec fn spec_address(&self) -> u64 {
        self.address
    }

    open spec fn at(address: u64) -> TowerManager {
        TowerManager { address }
    }

    open spec fn spec_expected_name() -> Seq<char> {
        "TowerManager"@
    }

    open spec fn spec_check() -> NameCheck {
        NameCheck::Exact
    }

    fn address(&self) -> (r: u64) {
        self.address
    }

    fn from_address(address: u64) -> (r: TowerManager) {
        TowerManager { address }
    }

    fn expected_name() -> (r: &'static str) {
        "TowerManager"
    }

    fn check() -> (r: NameCheck) {
        NameCheck::Exact
    }
}

/// The map of a match.
#[derive(Debug, Clone, Copy, PartialEq, Eq)]
pub struct GameMap {
    pub address: u64,
}

impl RemoteObject for GameMap {
    open spec fn spec_address(&self) -> u64 {
        self.address
    }

    open spec fn at(address: u64) -> GameMap {
        GameMap { address }
    }

    open spec fn spec_expected_name() -> Seq<char> {
        "Map"@
    }

    open spec fn spec_check() -> NameCheck {
        NameCheck::Exact
    }

    fn address(&self) -> (r: u64) {
        self.address
    }

    fn from_address(address: u64) -> (r: GameMap) {
        GameMap { address }
    }

    fn expected_name() -> (r: &'static str) {
        "Map"
    }

    fn check() -> (r: NameCheck) {
        NameCheck::Exact
    }
}

impl GameMap {
    /// The same object seen as its base class.
    pub fn base(&self) -> (r: RootBehavior)
        ensures
            r.address == self.address,
    {
        RootBehavior { address: self.address }
    }

    /// The map's model.
    pub fn model<M: ReadMemory>(&self, mem: &M) -> (r: Result<MapModel, ReadError>)
        ensures
            r == <MapModel as MemoryRead>::decode(mem.image().bytes@, self.address + HEADER_SIZE + 0x0048),
    {
        field(self, mem, 0x0048)
    }

    /// The bloon paths.
    pub fn path_manager<M: ReadMemory>(&self, mem: &M) -> (r: Result<PathManager, ReadError>)
        ensures
            r == <PathManager as MemoryRead>::decode(mem.image().bytes@, self.address + HEADER_SIZE + 0x0080),
    {
        field(self, mem, 0x0080)
    }

    /// The bloon spawner.
    pub fn spawner<M: ReadMemory>(&self, mem: &M) -> (r: Result<Spawner, ReadError>)
        ensures
            r == <Spawner as MemoryRead>::decode(mem.image().bytes@, self.address + HEADER_SIZE + 0x0088),
    {
        field(self, mem, 0x0088)
    }

    /// The towers placed on each area.
    pub fn towers_by_area<M: ReadMemory>(&self, mem: &M) -> (r: Result<Dictionary<Pointer, List<Tower>>, ReadError>)
        ensures
            r == <Dictionary<Pointer, List<Tower>> as MemoryRead>::decode(mem.image().bytes@, self.address + HEADER_SIZE + 0x0098),
    {
        field(self, mem, 0x0098)
    }
}

/// Keeps the bloon paths of a map.
#[derive(Debug, Clone, Copy, PartialEq, Eq)]
pub struct PathManager {
    pub address: u64,
}

impl RemoteObject for PathManager {
    open spec fn spec_address(&self) -> u64 {
        self.address
    }

    open spec fn at(address: u64) -> PathManager {
        PathManager { address }
    }

    open spec fn spec_expected_name() -> Seq<char> {
        "PathManager"@
    }

    open spec fn spec_check() -> NameCheck {
        NameCheck::Exact
    }

    fn address(&self) -> (r: u64) {
        self.address
    }

    fn from_address(address: u64) -> (r: PathManager) {
        PathManager { address }
    }

    fn expected_name() -> (r: &'static str) {
        "PathManager"
    }

    fn check() -> (r: NameCheck) {
        NameCheck::Exact
    }
}

impl PathManager {
    /// The paths.
    pub fn paths<M: ReadMemory>(&self, mem: &M) -> (r: Result<List<Path>, ReadError>)
        ensures
            r == <List<Path> as MemoryRead>::decode(mem.image().bytes@, self.address + HEADER_SIZE + 0x0048),
    {
        field(self, mem, 0x0048)
    }
}

/// One bloon path.
#[derive(Debug, Clone, Copy, PartialEq, Eq)]
pub struct Path {
    pub address: u64,
}

impl RemoteObject for Path {
    open spec fn spec_address(&self) -> u64 {
        self.address
    }

    open spec fn at(address: u64) -> Path {
        Path { address }
    }

    open spec fn spec_expected_name() -> Seq<char> {
        "Path"@
    }

    open spec fn spec_check() -> NameCheck {
        NameCheck::Exact
    }

    fn address(&self) -> (r: u64) {
        self.address
    }

    fn from_address(address: u64) -> (r: Path) {
        Path { address }
    }

    fn expected_name() -> (r: &'static str) {
        "Path"
    }

    fn check() -> (r: NameCheck) {
        NameCheck::Exact
    }
}

impl Path {
    /// The segments, from spawn to exit.
    pub fn segments<M: ReadMemory>(&self, mem: &M) -> (r: Result<Array<PathSegment>, ReadError>)
        ensures
            r == <Array<PathSegment> as MemoryRead>::decode(mem.image().bytes@, self.address + HEADER_SIZE + 0x0000),
    {
        field(self, mem, 0x0000)
    }

    /// The path's model.
    pub fn model<M: ReadMemory>(&self, mem: &M) -> (r: Result<PathModel, ReadError>)
        ensures
            r == <PathModel as MemoryRead>::decode(mem.image().bytes@, self.address + HEADER_SIZE + 0x0008),
    {
        field(self, mem, 0x0008)
    }

    /// Whether bloons use the path.
    pub fn is_active<M: ReadMemory>(&self, mem: &M) -> (r: Result<bool, ReadError>)
        ensures
            r == <bool as MemoryRead>::decode(mem.image().bytes@, self.address + HEADER_SIZE + 0x0010),
    {
        field(self, mem, 0x0010)
    }

    /// Whether the path is hidden.
    pub fn is_hidden<M: ReadMemory>(&self, mem: &M) -> (r: Result<bool, ReadError>)
        ensures
            r == <bool as MemoryRead>::decode(mem.image().bytes@, self.address + HEADER_SIZE + 0x0011),
    {
        field(self, mem, 0x0011)
    }

    /// Bit pattern of the single-precision spawn distance.
    pub fn spawn_distance_bits<M: ReadMemory>(&self, mem: &M) -> (r: Result<u32, ReadError>)
        ensures
            r == <u32 as MemoryRead>::decode(mem.image().bytes@, self.address + HEADER_SIZE + 0x0014),
    {
        field(self, mem, 0x0014)
    }

    /// Bit pattern of the single-precision leak distance.
    pub fn leak_distance_bits<M: ReadMemory>(&self, mem: &M) -> (r: Result<u32, ReadError>)
        ensures
            r == <u32 as MemoryRead>::decode(mem.image().bytes@, self.address + HEADER_SIZE + 0x0018),
    {
        field(self, mem, 0x0018)
    }

    /// The bloons on the path.
    pub fn bloons<M: ReadMemory>(&self, mem: &M) -> (r: Result<LockList<Bloon>, ReadError>)
        ensures
            r == <LockList<Bloon> as MemoryRead>::decode(mem.image().bytes@, self.address + HEADER_SIZE + 0x0030),
    {
        field(self, mem, 0x0030)
    }

    /// Bit pattern of the single-precision path length.
    pub fn total_path_length_bits<M: ReadMemory>(&self, mem: &M) -> (r: Result<u32, ReadError>)
        ensures
            r == <u32 as MemoryRead>::decode(mem.image().bytes@, self.address + HEADER_SIZE + 0x0120),
    {
        field(self, mem, 0x0120)
    }
}

/// A stretch of a bloon path.
#[derive(Debug, Clone, Copy, PartialEq, Eq)]
pub struct PathSegment {
    pub address: u64,
}

impl RemoteObject for PathSegment {
    open spec fn spec_address(&self) -> u64 {
        self.address
    }

    open spec fn at(address: u64) -> PathSegment {
        PathSegment { address }
    }

    open spec fn spec_expected_name() -> Seq<char> {
        "PathSegment"@
    }

    open spec fn spec_check() -> NameCheck {
        NameCheck::Exact
    }

    fn address(&self) -> (r: u64) {
        self.address
    }

    fn from_address(address: u64) -> (r: PathSegment) {
        PathSegment { address }
    }

    fn expected_name() -> (r: &'static str) {
        "PathSegment"
    }

    fn check() -> (r: NameCheck) {
        NameCheck::Exact
    }
}

impl PathSegment {
    /// The bloons on the segment.
    pub fn bloons<M: ReadMemory>(&self, mem: &M) -> (r: Result<List<BloonTargetProxy>, ReadError>)
        ensures
            r == <List<BloonTargetProxy> as MemoryRead>::decode(mem.image().bytes@, self.address + HEADER_SIZE + 0x0000),
    {
        field(self, mem, 0x0000)
    }

    /// Bit pattern of the single-precision start distance.
    pub fn min_bits<M: ReadMemory>(&self, mem: &M) -> (r: Result<u32, ReadError>)
        ensures
            r == <u32 as MemoryRead>::decode(mem.image().bytes@, self.address + HEADER_SIZE + 0x0010),
    {
        field(self, mem, 0x0010)
    }

    /// Bit pattern of the single-precision end distance.
    pub fn max_bits<M: ReadMemory>(&self, mem: &M) -> (r: Result<u32, ReadError>)
        ensures
            r == <u32 as MemoryRead>::decode(mem.image().bytes@, self.address + HEADER_SIZE + 0x0014),
    {
        field(self, mem, 0x0014)
    }

    /// Bit pattern of the single-precision centre distance.
    pub fn center_bits<M: ReadMemory>(&self, mem: &M) -> (r: Result<u32, ReadError>)
        ensures
            r == <u32 as MemoryRead>::decode(mem.image().bytes@, self.address + HEADER_SIZE + 0x0018),
    {
        field(self, mem, 0x0018)
    }

    /// Bit pattern of the single-precision distance left until the exit.
    pub fn leak_distance_bits<M: ReadMemory>(&self, mem: &M) -> (r: Result<u32, ReadError>)
        ensures
            r == <u32 as MemoryRead>::decode(mem.image().bytes@, self.address + HEADER_SIZE + 0x0028),
    {
        field(self, mem, 0x0028)
    }
}

/// Sends the bloons of each round.
#[derive(Debug, Clone, Copy, PartialEq, Eq)]
pub struct Spawner {
    pub address: u64,
}

impl RemoteObject for Spawner {
    open spec fn spec_address(&self) -> u64 {
        self.address
    }

    open spec fn at(address: u64) -> Spawner {
        Spawner { address }
    }

    open spec fn spec_expected_name() -> Seq<char> {
        "Spawner"@
    }

    open spec fn spec_check() -> NameCheck {
        NameCheck::Exact
    }

    fn address(&self) -> (r: u64) {
        self.address
    }

    fn from_address(address: u64) -> (r: Spawner) {
        Spawner { address }
    }

    fn expected_name() -> (r: &'static str) {
        "Spawner"
    }

    fn check() -> (r: NameCheck) {
        NameCheck::Exact
    }
}

impl Spawner {
    /// Data per round.
    pub fn round_data<M: ReadMemory>(&self, mem: &M) -> (r: Result<Dictionary<u32, RoundData>, ReadError>)
        ensures
            r == <Dictionary<u32, RoundData> as MemoryRead>::decode(mem.image().bytes@, self.address + HEADER_SIZE + 0x0060),
    {
        field(self, mem, 0x0060)
    }

    /// The obfuscated current round.
    pub fn current_round<M: ReadMemory>(&self, mem: &M) -> (r: Result<KonFuze_NoShuffle, ReadError>)
        ensures
            r == <KonFuze_NoShuffle as MemoryRead>::decode(mem.image().bytes@, self.address + HEADER_SIZE + 0x00e8),
    {
        field(self, mem, 0x00e8)
    }
}

/// Data of one round.
#[derive(Debug, Clone, Copy, PartialEq, Eq)]
pub struct RoundData {
    pub address: u64,
}

impl RemoteObject for RoundData {
    open spec fn spec_address(&self) -> u64 {
        self.address
    }

    open spec fn at(address: u64) -> RoundData {
        RoundData { address }
    }

    open spec fn spec_expected_name() -> Seq<char> {
        "RoundData"@
    }

    open spec fn spec_check() -> NameCheck {
        NameCheck::Exact
    }

    fn address(&self) -> (r: u64) {
        self.address
    }

    fn from_address(address: u64) -> (r: RoundData) {
        RoundData { address }
    }

    fn expected_name() -> (r: &'static str) {
        "RoundData"
    }

    fn check() -> (r: NameCheck) {
        NameCheck::Exact
    }
}

/// The model of a path.
#[derive(Debug, Clone, Copy, PartialEq, Eq)]
pub struct PathModel {
    pub address: u64,
}

impl RemoteObject for PathModel {
    open spec fn spec_address(&self) -> u64 {
        self.address
    }

    open spec fn at(address: u64) -> PathModel {
        PathModel { address }
    }

    open spec fn spec_expected_name() -> Seq<char> {
        "PathModel"@
    }

    open spec fn spec_check() -> NameCheck {
        NameCheck::Exact
    }

    fn address(&self) -> (r: u64) {
        self.address
    }

    fn from_address(address: u64) -> (r: PathModel) {
        PathModel { address }
    }

    fn expected_name() -> (r: &'static str) {
        "PathModel"
    }

    fn check() -> (r: NameCheck) {
        NameCheck::Exact
    }
}

/// A placed tower.
#[derive(Debug, Clone, Copy, PartialEq, Eq)]
pub struct Tower {
    pub address: u64,
}

impl RemoteObject for Tower {
    open spec fn spec_address(&self) -> u64 {
        self.address
    }

    open spec fn at(address: u64) -> Tower {
        Tower { address }
    }

    open spec fn spec_expected_name() -> Seq<char> {
        "Tower"@
    }

    open spec fn spec_check() -> NameCheck {
        NameCheck::Exact
    }

    fn address(&self) -> (r: u64) {
        self.address
    }

    fn from_address(address: u64) -> (r: Tower) {
        Tower { address }
    }

    fn expected_name() -> (r: &'static str) {
        "Tower"
    }

    fn check() -> (r: NameCheck) {
        NameCheck::Exact
    }
}

impl Tower {
    /// The same object seen as its base class.
    pub fn base(&self) -> (r: RootBehavior)
        ensures
            r.address == self.address,
    {
        RootBehavior { address: self.address }
    }

    /// The tower's unique id.
    pub fn id<M: ReadMemory>(&self, mem: &M) -> (r: Result<CSharpString, ReadError>)
        ensures
            r == <CSharpString as MemoryRead>::decode(mem.image().bytes@, self.address + HEADER_SIZE + 0x0090),
    {
        field(self, mem, 0x0090)
    }

    /// Bit pattern of the single-precision sell value.
    pub fn worth_bits<M: ReadMemory>(&self, mem: &M) -> (r: Result<u32, ReadError>)
        ensures
            r == <u32 as MemoryRead>::decode(mem.image().bytes@, self.address + HEADER_SIZE + 0x0098),
    {
        field(self, mem, 0x0098)
    }

    /// Damage dealt.
    pub fn damage_dealt<M: ReadMemory>(&self, mem: &M) -> (r: Result<u64, ReadError>)
        ensures
            r == <u64 as MemoryRead>::decode(mem.image().bytes@, self.address + HEADER_SIZE + 0x00a0),
    {
        field(self, mem, 0x00a0)
    }

    /// Cash earned.
    pub fn cash_earned<M: ReadMemory>(&self, mem: &M) -> (r: Result<u64, ReadError>)
        ensures
            r == <u64 as MemoryRead>::decode(mem.image().bytes@, self.address + HEADER_SIZE + 0x00a8),
    {
        field(self, mem, 0x00a8)
    }

    /// Bit pattern of the single-precision cash applied.
    pub fn applied_cash_bits<M: ReadMemory>(&self, mem: &M) -> (r: Result<u32, ReadError>)
        ensures
            r == <u32 as MemoryRead>::decode(mem.image().bytes@, self.address + HEADER_SIZE + 0x00b0),
    {
        field(self, mem, 0x00b0)
    }

    /// The tower that made this one, or an invalid id.
    pub fn parent_tower_id<M: ReadMemory>(&self, mem: &M) -> (r: Result<ObjectId, ReadError>)
        ensures
            r == <ObjectId as MemoryRead>::decode(mem.image().bytes@, self.address + HEADER_SIZE + 0x00c4),
    {
        field(self, mem, 0x00c4)
    }

    /// The tower's model.
    pub fn model<M: ReadMemory>(&self, mem: &M) -> (r: Result<TowerModel, ReadError>)
        ensures
            r == <TowerModel as MemoryRead>::decode(mem.image().bytes@, self.address + HEADER_SIZE + 0x00d0),
    {
        field(self, mem, 0x00d0)
    }
}

/// A bloon on a path.
#[derive(Debug, Clone, Copy, PartialEq, Eq)]
pub struct Bloon {
    pub address: u64,
}

impl RemoteObject for Bloon {
    open spec fn spec_address(&self) -> u64 {
        self.address
    }

    open spec fn at(address: u64) -> Bloon {
        Bloon { address }
    }

    open spec fn spec_expected_name() -> Seq<char> {
        "Bloon"@
    }

    open spec fn spec_check() -> NameCheck {
        NameCheck::Exact
    }

    fn address(&self) -> (r: u64) {
        self.address
    }

    fn from_address(address: u64) -> (r: Bloon) {
        Bloon { address }
    }

    fn expected_name() -> (r: &'static str) {
        "Bloon"
    }

    fn check() -> (r: NameCheck) {
        NameCheck::Exact
    }
}

impl Bloon {
    /// The bloon's model.
    pub fn model<M: ReadMemory>(&self, mem: &M) -> (r: Result<BloonModel, ReadError>)
        ensures
            r == <BloonModel as MemoryRead>::decode(mem.image().bytes@, self.address + HEADER_SIZE + 0x00a8),
    {
        field(self, mem, 0x00a8)
    }

    /// Bit pattern of the single-precision distance travelled.
    pub fn distance_travelled_bits<M: ReadMemory>(&self, mem: &M) -> (r: Result<u32, ReadError>)
        ensures
            r == <u32 as MemoryRead>::decode(mem.image().bytes@, self.address + HEADER_SIZE + 0x0158),
    {
        field(self, mem, 0x0158)
    }
}

/// The base of all models.
#[derive(Debug, Clone, Copy, PartialEq, Eq)]
pub struct Model {
    pub address: u64,
}

impl RemoteObject for Model {
    open spec fn spec_address(&self) -> u64 {
        self.address
    }

    open spec fn at(address: u64) -> Model {
        Model { address }
    }

    open spec fn spec_expected_name() -> Seq<char> {
        "Model"@
    }

    open spec fn spec_check() -> NameCheck {
        NameCheck::Exact
    }

    fn address(&self) -> (r: u64) {
        self.address
    }

    fn from_address(address: u64) -> (r: Model) {
        Model { address }
    }

    fn expected_name() -> (r: &'static str) {
        "Model"
    }

    fn check() -> (r: NameCheck) {
        NameCheck::Exact
    }
}

impl Model {
    /// The model's name.
    pub fn name<M: ReadMemory>(&self, mem: &M) -> (r: Result<CSharpString, ReadError>)
        ensures
            r == <CSharpString as MemoryRead>::decode(mem.image().bytes@, self.address + HEADER_SIZE + 0x0000),
    {
        field(self, mem, 0x0000)
    }
}

/// The rules of a match.
#[derive(Debug, Clone, Copy, PartialEq, Eq)]
pub struct GameModel {
    pub address: u64,
}

impl RemoteObject for GameModel {
    open spec fn spec_address(&self) -> u64 {
        self.address
    }

    open spec fn at(address: u64) -> GameModel {
        GameModel { address }
    }

    open spec fn spec_expected_name() -> Seq<char> {
        "GameModel"@
    }

    open spec fn spec_check() -> NameCheck {
        NameCheck::Exact
    }

    fn address(&self) -> (r: u64) {
        self.address
    }

    fn from_address(address: u64) -> (r: GameModel) {
        GameModel { address }
    }

    fn expected_name() -> (r: &'static str) {
        "GameModel"
    }

    fn check() -> (r: NameCheck) {
        NameCheck::Exact
    }
}

impl GameModel {
    /// The difficulty.
    pub fn difficulty_id<M: ReadMemory>(&self, mem: &M) -> (r: Result<CSharpString, ReadError>)
        ensures
            r == <CSharpString as MemoryRead>::decode(mem.image().bytes@, self.address + HEADER_SIZE + 0x0048),
    {
        field(self, mem, 0x0048)
    }

    /// The game type.
    pub fn game_type<M: ReadMemory>(&self, mem: &M) -> (r: Result<CSharpString, ReadError>)
        ensures
            r == <CSharpString as MemoryRead>::decode(mem.image().bytes@, self.address + HEADER_SIZE + 0x0070),
    {
        field(self, mem, 0x0070)
    }

    /// The game mode.
    pub fn game_mode<M: ReadMemory>(&self, mem: &M) -> (r: Result<CSharpString, ReadError>)
        ensures
            r == <CSharpString as MemoryRead>::decode(mem.image().bytes@, self.address + HEADER_SIZE + 0x0078),
    {
        field(self, mem, 0x0078)
    }

    /// The match's random seed.
    pub fn random_seed<M: ReadMemory>(&self, mem: &M) -> (r: Result<i32, ReadError>)
        ensures
            r == <i32 as MemoryRead>::decode(mem.image().bytes@, self.address + HEADER_SIZE + 0x0084),
    {
        field(self, mem, 0x0084)
    }

    /// Whether bloons run backwards.
    pub fn reverse_mode<M: ReadMemory>(&self, mem: &M) -> (r: Result<bool, ReadError>)
        ensures
            r == <bool as MemoryRead>::decode(mem.image().bytes@, self.address + HEADER_SIZE + 0x0088),
    {
        field(self, mem, 0x0088)
    }

    /// The map's model.
    pub fn map<M: ReadMemory>(&self, mem: &M) -> (r: Result<MapModel, ReadError>)
        ensures
            r == <MapModel as MemoryRead>::decode(mem.image().bytes@, self.address + HEADER_SIZE + 0x00d0),
    {
        field(self, mem, 0x00d0)
    }

    /// The rounds.
    pub fn round_set<M: ReadMemory>(&self, mem: &M) -> (r: Result<RoundSetModel, ReadError>)
        ensures
            r == <RoundSetModel as MemoryRead>::decode(mem.image().bytes@, self.address + HEADER_SIZE + 0x00d8),
    {
        field(self, mem, 0x00d8)
    }

    /// The income rules.
    pub fn income_set<M: ReadMemory>(&self, mem: &M) -> (r: Result<IncomeSetModel, ReadError>)
        ensures
            r == <IncomeSetModel as MemoryRead>::decode(mem.image().bytes@, self.address + HEADER_SIZE + 0x00e0),
    {
        field(self, mem, 0x00e0)
    }

    /// Every tower model.
    pub fn towers<M: ReadMemory>(&self, mem: &M) -> (r: Result<Array<TowerModel>, ReadError>)
        ensures
            r == <Array<TowerModel> as MemoryRead>::decode(mem.image().bytes@, self.address + HEADER_SIZE + 0x00f0),
    {
        field(self, mem, 0x00f0)
    }

    /// Every upgrade model.
    pub fn upgrades<M: ReadMemory>(&self, mem: &M) -> (r: Result<Array<UpgradeModel>, ReadError>)
        ensures
            r == <Array<UpgradeModel> as MemoryRead>::decode(mem.image().bytes@, self.address + HEADER_SIZE + 0x00f8),
    {
        field(self, mem, 0x00f8)
    }

    /// Every bloon model.
    pub fn bloons<M: ReadMemory>(&self, mem: &M) -> (r: Result<Array<BloonModel>, ReadError>)
        ensures
            r == <Array<BloonModel> as MemoryRead>::decode(mem.image().bytes@, self.address + HEADER_SIZE + 0x0100),
    {
        field(self, mem, 0x0100)
    }
}

/// The model of a map.
#[derive(Debug, Clone, Copy, PartialEq, Eq)]
pub struct MapModel {
    pub address: u64,
}

impl RemoteObject for MapModel {
    open spec fn spec_address(&self) -> u64 {
        self.address
    }

    open spec fn at(address: u64) -> MapModel {
        MapModel { address }
    }

    open spec fn spec_expected_name() -> Seq<char> {
        "MapModel"@
    }

    open spec fn spec_check() -> NameCheck {
        NameCheck::Exact
    }

    fn address(&self) -> (r: u64) {
        self.address
    }

    fn from_address(address: u64) -> (r: MapModel) {
        MapModel { address }
    }

    fn expected_name() -> (r: &'static str) {
        "MapModel"
    }

    fn check() -> (r: NameCheck) {
        NameCheck::Exact
    }
}

impl MapModel {
    /// The map's difficulty.
    pub fn map_difficulty<M: ReadMemory>(&self, mem: &M) -> (r: Result<i32, ReadError>)
        ensures
            r == <i32 as MemoryRead>::decode(mem.image().bytes@, self.address + HEADER_SIZE + 0x0068),
    {
        field(self, mem, 0x0068)
    }

    /// The map's name.
    pub fn map_name<M: ReadMemory>(&self, mem: &M) -> (r: Result<CSharpString, ReadError>)
        ensures
            r == <CSharpString as MemoryRead>::decode(mem.image().bytes@, self.address + HEADER_SIZE + 0x0070),
    {
        field(self, mem, 0x0070)
    }
}

/// The model of a round.
#[derive(Debug, Clone, Copy, PartialEq, Eq)]
pub struct RoundModel {
    pub address: u64,
}

impl RemoteObject for RoundModel {
    open spec fn spec_address(&self) -> u64 {
        self.address
    }

    open spec fn at(address: u64) -> RoundModel {
        RoundModel { address }
    }

    open spec fn spec_expected_name() -> Seq<char> {
        "RoundModel"@
    }

    open spec fn spec_check() -> NameCheck {
        NameCheck::Exact
    }

    fn address(&self) -> (r: u64) {
        self.address
    }

    fn from_address(address: u64) -> (r: RoundModel) {
        RoundModel { address }
    }

    fn expected_name() -> (r: &'static str) {
        "RoundModel"
    }

    fn check() -> (r: NameCheck) {
        NameCheck::Exact
    }
}

impl RoundModel {
    /// The bloon groups.
    pub fn groups<M: ReadMemory>(&self, mem: &M) -> (r: Result<Array<BloonGroupModel>, ReadError>)
        ensures
            r == <Array<BloonGroupModel> as MemoryRead>::decode(mem.image().bytes@, self.address + HEADER_SIZE + 0x0020),
    {
        field(self, mem, 0x0020)
    }

    /// The emissions, if computed.
    pub fn emissions<M: ReadMemory>(&self, mem: &M) -> (r: Result<Option<Array<BloonEmissionModel>>, ReadError>)
        ensures
            r == <Option<Array<BloonEmissionModel>> as MemoryRead>::decode(mem.image().bytes@, self.address + HEADER_SIZE + 0x0028),
    {
        field(self, mem, 0x0028)
    }
}

/// The rounds of a match.
#[derive(Debug, Clone, Copy, PartialEq, Eq)]
pub struct RoundSetModel {
    pub address: u64,
}

impl RemoteObject for RoundSetModel {
    open spec fn spec_address(&self) -> u64 {
        self.address
    }

    open spec fn at(address: u64) -> RoundSetModel {
        RoundSetModel { address }
    }

    open spec fn spec_expected_name() -> Seq<char> {
        "RoundSetModel"@
    }

    open spec fn spec_check() -> NameCheck {
        NameCheck::Exact
    }

    fn address(&self) -> (r: u64) {
        self.address
    }

    fn from_address(address: u64) -> (r: RoundSetModel) {
        RoundSetModel { address }
    }

    fn expected_name() -> (r: &'static str) {
        "RoundSetModel"
    }

    fn check() -> (r: NameCheck) {
        NameCheck::Exact
    }
}

impl RoundSetModel {
    /// The rounds.
    pub fn rounds<M: ReadMemory>(&self, mem: &M) -> (r: Result<Array<RoundModel>, ReadError>)
        ensures
            r == <Array<RoundModel> as MemoryRead>::decode(mem.image().bytes@, self.address + HEADER_SIZE + 0x0020),
    {
        field(self, mem, 0x0020)
    }
}

/// A group of bloons sent in a round.
#[derive(Debug, Clone, Copy, PartialEq, Eq)]
pub struct BloonGroupModel {
    pub address: u64,
}

impl RemoteObject for BloonGroupModel {
    open spec fn spec_address(&self) -> u64 {
        self.address
    }

    open spec fn at(address: u64) -> BloonGroupModel {
        BloonGroupModel { address }
    }

    open spec fn spec_expected_name() -> Seq<char> {
        "BloonGroupModel"@
    }

    open spec fn spec_check() -> NameCheck {
        NameCheck::Exact
    }

    fn address(&self) -> (r: u64) {
        self.address
    }

    fn from_address(address: u64) -> (r: BloonGroupModel) {
        BloonGroupModel { address }
    }

    fn expected_name() -> (r: &'static str) {
        "BloonGroupModel"
    }

    fn check() -> (r: NameCheck) {
        NameCheck::Exact
    }
}

impl BloonGroupModel {
    /// The bloon kind.
    pub fn bloon<M: ReadMemory>(&self, mem: &M) -> (r: Result<CSharpString, ReadError>)
        ensures
            r == <CSharpString as MemoryRead>::decode(mem.image().bytes@, self.address + HEADER_SIZE + 0x0020),
    {
        field(self, mem, 0x0020)
    }

    /// Bit pattern of the single-precision start time.
    pub fn start_bits<M: ReadMemory>(&self, mem: &M) -> (r: Result<u32, ReadError>)
        ensures
            r == <u32 as MemoryRead>::decode(mem.image().bytes@, self.address + HEADER_SIZE + 0x0028),
    {
        field(self, mem, 0x0028)
    }

    /// Bit pattern of the single-precision end time.
    pub fn end_bits<M: ReadMemory>(&self, mem: &M) -> (r: Result<u32, ReadError>)
        ensures
            r == <u32 as MemoryRead>::decode(mem.image().bytes@, self.address + HEADER_SIZE + 0x002c),
    {
        field(self, mem, 0x002c)
    }

    /// How many bloons.
    pub fn count<M: ReadMemory>(&self, mem: &M) -> (r: Result<i32, ReadError>)
        ensures
            r == <i32 as MemoryRead>::decode(mem.image().bytes@, self.address + HEADER_SIZE + 0x0030),
    {
        field(self, mem, 0x0030)
    }
}

/// One bloon sent in a round.
#[derive(Debug, Clone, Copy, PartialEq, Eq)]
pub struct BloonEmissionModel {
    pub address: u64,
}

impl RemoteObject for BloonEmissionModel {
    open spec fn spec_address(&self) -> u64 {
        self.address
    }

    open spec fn at(address: u64) -> BloonEmissionModel {
        BloonEmissionModel { address }
    }

    open spec fn spec_expected_name() -> Seq<char> {
        "BloonEmissionModel"@
    }

    open spec fn spec_check() -> NameCheck {
        NameCheck::Exact
    }

    fn address(&self) -> (r: u64) {
        self.address
    }

    fn from_address(address: u64) -> (r: BloonEmissionModel) {
        BloonEmissionModel { address }
    }

    fn expected_name() -> (r: &'static str) {
        "BloonEmissionModel"
    }

    fn check() -> (r: NameCheck) {
        NameCheck::Exact
    }
}

impl BloonEmissionModel {
    /// The bloon kind.
    pub fn bloon<M: ReadMemory>(&self, mem: &M) -> (r: Result<CSharpString, ReadError>)
        ensures
            r == <CSharpString as MemoryRead>::decode(mem.image().bytes@, self.address + HEADER_SIZE + 0x0020),
    {
        field(self, mem, 0x0020)
    }

    /// Bit pattern of the single-precision emission time.
    pub fn time_bits<M: ReadMemory>(&self, mem: &M) -> (r: Result<u32, ReadError>)
        ensures
            r == <u32 as MemoryRead>::decode(mem.image().bytes@, self.address + HEADER_SIZE + 0x0028),
    {
        field(self, mem, 0x0028)
    }

    /// Index of the emission.
    pub fn emission_index<M: ReadMemory>(&self, mem: &M) -> (r: Result<i32, ReadError>)
        ensures
            r == <i32 as MemoryRead>::decode(mem.image().bytes@, self.address + HEADER_SIZE + 0x002c),
    {
        field(self, mem, 0x002c)
    }

    /// Whether a boss is sent.
    pub fn is_custom_boss_emission<M: ReadMemory>(&self, mem: &M) -> (r: Result<bool, ReadError>)
        ensures
            r == <bool as MemoryRead>::decode(mem.image().bytes@, self.address + HEADER_SIZE + 0x0030),
    {
        field(self, mem, 0x0030)
    }

    /// Tower sets the bloon is immune to.
    pub fn tower_set_immunity<M: ReadMemory>(&self, mem: &M) -> (r: Result<u32, ReadError>)
        ensures
            r == <u32 as MemoryRead>::decode(mem.image().bytes@, self.address + HEADER_SIZE + 0x0034),
    {
        field(self, mem, 0x0034)
    }
}

/// The income rules of a match.
#[derive(Debug, Clone, Copy, PartialEq, Eq)]
pub struct IncomeSetModel {
    pub address: u64,
}

impl RemoteObject for IncomeSetModel {
    open spec fn spec_address(&self) -> u64 {
        self.address
    }

    open spec fn at(address: u64) -> IncomeSetModel {
        IncomeSetModel { address }
    }

    open spec fn spec_expected_name() -> Seq<char> {
        "IncomeSetModel"@
    }

    open spec fn spec_check() -> NameCheck {
        NameCheck::Exact
    }

    fn address(&self) -> (r: u64) {
        self.address
    }

    fn from_address(address: u64) -> (r: IncomeSetModel) {
        IncomeSetModel { address }
    }

    fn expected_name() -> (r: &'static str) {
        "IncomeSetModel"
    }

    fn check() -> (r: NameCheck) {
        NameCheck::Exact
    }
}

/// The model of a bloon kind.
#[derive(Debug, Clone, Copy, PartialEq, Eq)]
pub struct BloonModel {
    pub address: u64,
}

impl RemoteObject for BloonModel {
    open spec fn spec_address(&self) -> u64 {
        self.address
    }

    open spec fn at(address: u64) -> BloonModel {
        BloonModel { address }
    }

    open spec fn spec_expected_name() -> Seq<char> {
        "BloonModel"@
    }

    open spec fn spec_check() -> NameCheck {
        NameCheck::Exact
    }

    fn address(&self) -> (r: u64) {
        self.address
    }

    fn from_address(address: u64) -> (r: BloonModel) {
        BloonModel { address }
    }

    fn expected_name() -> (r: &'static str) {
        "BloonModel"
    }

    fn check() -> (r: NameCheck) {
        NameCheck::Exact
    }
}

impl BloonModel {
    /// The bloon's id.
    pub fn id<M: ReadMemory>(&self, mem: &M) -> (r: Result<CSharpString, ReadError>)
        ensures
            r == <CSharpString as MemoryRead>::decode(mem.image().bytes@, self.address + HEADER_SIZE + 0x0020),
    {
        field(self, mem, 0x0020)
    }

    /// The bloon's base kind.
    pub fn base_id<M: ReadMemory>(&self, mem: &M) -> (r: Result<CSharpString, ReadError>)
        ensures
            r == <CSharpString as MemoryRead>::decode(mem.image().bytes@, self.address + HEADER_SIZE + 0x0028),
    {
        field(self, mem, 0x0028)
    }

    /// Health of one layer.
    pub fn max_health<M: ReadMemory>(&self, mem: &M) -> (r: Result<i32, ReadError>)
        ensures
            r == <i32 as MemoryRead>::decode(mem.image().bytes@, self.address + HEADER_SIZE + 0x00a4),
    {
        field(self, mem, 0x00a4)
    }

    /// Bit pattern of the single-precision leak damage.
    pub fn leak_damage_bits<M: ReadMemory>(&self, mem: &M) -> (r: Result<u32, ReadError>)
        ensures
            r == <u32 as MemoryRead>::decode(mem.image().bytes@, self.address + HEADER_SIZE + 0x00b0),
    {
        field(self, mem, 0x00b0)
    }

    /// The layer number.
    pub fn layer_number<M: ReadMemory>(&self, mem: &M) -> (r: Result<i32, ReadError>)
        ensures
            r == <i32 as MemoryRead>::decode(mem.image().bytes@, self.address + HEADER_SIZE + 0x00b4),
    {
        field(self, mem, 0x00b4)
    }

    /// The bloons released when it pops.
    pub fn children<M: ReadMemory>(&self, mem: &M) -> (r: Result<List<BloonModel>, ReadError>)
        ensures
            r == <List<BloonModel> as MemoryRead>::decode(mem.image().bytes@, self.address + HEADER_SIZE + 0x00d8),
    {
        field(self, mem, 0x00d8)
    }
}

/// The model of a tower at given upgrade tiers.
#[derive(Debug, Clone, Copy, PartialEq, Eq)]
pub struct TowerModel {
    pub address: u64,
}

impl RemoteObject for TowerModel {
    open spec fn spec_address(&self) -> u64 {
        self.address
    }

    open spec fn at(address: u64) -> TowerModel {
        TowerModel { address }
    }

    open spec fn spec_expected_name() -> Seq<char> {
        "TowerModel"@
    }

    open spec fn spec_check() -> NameCheck {
        NameCheck::Exact
    }

    fn address(&self) -> (r: u64) {
        self.address
    }

    fn from_address(address: u64) -> (r: TowerModel) {
        TowerModel { address }
    }

    fn expected_name() -> (r: &'static str) {
        "TowerModel"
    }

    fn check() -> (r: NameCheck) {
        NameCheck::Exact
    }
}

impl TowerModel {
    /// The tower kind.
    pub fn base_id<M: ReadMemory>(&self, mem: &M) -> (r: Result<CSharpString, ReadError>)
        ensures
            r == <CSharpString as MemoryRead>::decode(mem.image().bytes@, self.address + HEADER_SIZE + 0x0028),
    {
        field(self, mem, 0x0028)
    }

    /// The highest tier.
    pub fn tier<M: ReadMemory>(&self, mem: &M) -> (r: Result<u32, ReadError>)
        ensures
            r == <u32 as MemoryRead>::decode(mem.image().bytes@, self.address + HEADER_SIZE + 0x0044),
    {
        field(self, mem, 0x0044)
    }

    /// The tier of each upgrade path.
    pub fn tiers<M: ReadMemory>(&self, mem: &M) -> (r: Result<Array<u32>, ReadError>)
        ensures
            r == <Array<u32> as MemoryRead>::decode(mem.image().bytes@, self.address + HEADER_SIZE + 0x0048),
    {
        field(self, mem, 0x0048)
    }

    /// The tower set; see `TowerSet`.
    pub fn tower_set<M: ReadMemory>(&self, mem: &M) -> (r: Result<u32, ReadError>)
        ensures
            r == <u32 as MemoryRead>::decode(mem.image().bytes@, self.address + HEADER_SIZE + 0x0050),
    {
        field(self, mem, 0x0050)
    }

    /// The upgrades available next.
    pub fn upgrades<M: ReadMemory>(&self, mem: &M) -> (r: Result<Array<UpgradePathModel>, ReadError>)
        ensures
            r == <Array<UpgradePathModel> as MemoryRead>::decode(mem.image().bytes@, self.address + HEADER_SIZE + 0x00b8),
    {
        field(self, mem, 0x00b8)
    }

    /// The ids of the upgrades applied.
    pub fn applied_upgrades<M: ReadMemory>(&self, mem: &M) -> (r: Result<Array<CSharpString>, ReadError>)
        ensures
            r == <Array<CSharpString> as MemoryRead>::decode(mem.image().bytes@, self.address + HEADER_SIZE + 0x00c0),
    {
        field(self, mem, 0x00c0)
    }

    /// Whether the model can be baked.
    pub fn is_bakable<M: ReadMemory>(&self, mem: &M) -> (r: Result<bool, ReadError>)
        ensures
            r == <bool as MemoryRead>::decode(mem.image().bytes@, self.address + HEADER_SIZE + 0x00d9),
    {
        field(self, mem, 0x00d9)
    }
}

/// The model of an upgrade.
#[derive(Debug, Clone, Copy, PartialEq, Eq)]
pub struct UpgradeModel {
    pub address: u64,
}

impl RemoteObject for UpgradeModel {
    open spec fn spec_address(&self) -> u64 {
        self.address
    }

    open spec fn at(address: u64) -> UpgradeModel {
        UpgradeModel { address }
    }

    open spec fn spec_expected_name() -> Seq<char> {
        "UpgradeModel"@
    }

    open spec fn spec_check() -> NameCheck {
        NameCheck::Exact
    }

    fn address(&self) -> (r: u64) {
        self.address
    }

    fn from_address(address: u64) -> (r: UpgradeModel) {
        UpgradeModel { address }
    }

    fn expected_name() -> (r: &'static str) {
        "UpgradeModel"
    }

    fn check() -> (r: NameCheck) {
        NameCheck::Exact
    }
}

impl UpgradeModel {
    /// The same object seen as its base class.
    pub fn base(&self) -> (r: Model)
        ensures
            r.address == self.address,
    {
        Model { address: self.address }
    }

    /// The cost.
    pub fn cost<M: ReadMemory>(&self, mem: &M) -> (r: Result<i32, ReadError>)
        ensures
            r == <i32 as MemoryRead>::decode(mem.image().bytes@, self.address + HEADER_SIZE + 0x0020),
    {
        field(self, mem, 0x0020)
    }

    /// The experience cost.
    pub fn xp_cost<M: ReadMemory>(&self, mem: &M) -> (r: Result<i32, ReadError>)
        ensures
            r == <i32 as MemoryRead>::decode(mem.image().bytes@, self.address + HEADER_SIZE + 0x0024),
    {
        field(self, mem, 0x0024)
    }

    /// The upgrade path.
    pub fn path<M: ReadMemory>(&self, mem: &M) -> (r: Result<i32, ReadError>)
        ensures
            r == <i32 as MemoryRead>::decode(mem.image().bytes@, self.address + HEADER_SIZE + 0x0030),
    {
        field(self, mem, 0x0030)
    }

    /// The tier on that path.
    pub fn tier<M: ReadMemory>(&self, mem: &M) -> (r: Result<i32, ReadError>)
        ensures
            r == <i32 as MemoryRead>::decode(mem.image().bytes@, self.address + HEADER_SIZE + 0x0034),
    {
        field(self, mem, 0x0034)
    }

    /// Whether the upgrade is locked.
    pub fn locked<M: ReadMemory>(&self, mem: &M) -> (r: Result<i32, ReadError>)
        ensures
            r == <i32 as MemoryRead>::decode(mem.image().bytes@, self.address + HEADER_SIZE + 0x0038),
    {
        field(self, mem, 0x0038)
    }
}

/// A link from a tower model to an upgrade.
#[derive(Debug, Clone, Copy, PartialEq, Eq)]
pub struct UpgradePathModel {
    pub address: u64,
}

impl RemoteObject for UpgradePathModel {
    open spec fn spec_address(&self) -> u64 {
        self.address
    }

    open spec fn at(address: u64) -> UpgradePathModel {
        UpgradePathModel { address }
    }

    open spec fn spec_expected_name() -> Seq<char> {
        "UpgradePathModel"@
    }

    open spec fn spec_check() -> NameCheck {
        NameCheck::Exact
    }

    fn address(&self) -> (r: u64) {
        self.address
    }

    fn from_address(address: u64) -> (r: UpgradePathModel) {
        UpgradePathModel { address }
    }

    fn expected_name() -> (r: &'static str) {
        "UpgradePathModel"
    }

    fn check() -> (r: NameCheck) {
        NameCheck::Exact
    }
}

impl UpgradePathModel {
    /// The tower reached.
    pub fn tower<M: ReadMemory>(&self, mem: &M) -> (r: Result<CSharpString, ReadError>)
        ensures
            r == <CSharpString as MemoryRead>::decode(mem.image().bytes@, self.address + HEADER_SIZE + 0x0000),
    {
        field(self, mem, 0x0000)
    }

    /// The id of the upgrade.
    pub fn upgrade<M: ReadMemory>(&self, mem: &M) -> (r: Result<CSharpString, ReadError>)
        ensures
            r == <CSharpString as MemoryRead>::decode(mem.image().bytes@, self.address + HEADER_SIZE + 0x0008),
    {
        field(self, mem, 0x0008)
    }
}

/// A number kept obfuscated by the game.
#[derive(Debug, Clone, Copy, PartialEq, Eq)]
pub struct KonFuze {
    pub address: u64,
}

impl RemoteObject for KonFuze {
    open spec fn spec_address(&self) -> u64 {
        self.address
    }

    open spec fn at(address: u64) -> KonFuze {
        KonFuze { address }
    }

    open spec fn spec_expected_name() -> Seq<char> {
        "KonFuze"@
    }

    open spec fn spec_check() -> NameCheck {
        NameCheck::Exact
    }

    fn address(&self) -> (r: u64) {
        self.address
    }

    fn from_address(address: u64) -> (r: KonFuze) {
        KonFuze { address }
    }

    fn expected_name() -> (r: &'static str) {
        "KonFuze"
    }

    fn check() -> (r: NameCheck) {
        NameCheck::Exact
    }
}

impl KonFuze {
    /// Bit pattern of the double-precision value.
    pub fn get_bits<M: ReadMemory>(&self, mem: &M) -> (r: Result<u64, ReadError>)
        ensures
            r == <u64 as MemoryRead>::decode(mem.image().bytes@, self.address + HEADER_SIZE + 0x0018),
    {
        field(self, mem, 0x0018)
    }
}

/// An obfuscated number.
#[derive(Debug, Clone, Copy, PartialEq, Eq)]
pub struct KonFuze_NoShuffle {
    pub address: u64,
}

impl RemoteObject for KonFuze_NoShuffle {
    open spec fn spec_address(&self) -> u64 {
        self.address
    }

    open spec fn at(address: u64) -> KonFuze_NoShuffle {
        KonFuze_NoShuffle { address }
    }

    open spec fn spec_expected_name() -> Seq<char> {
        "KonFuze_NoShuffle"@
    }

    open spec fn spec_check() -> NameCheck {
        NameCheck::Exact
    }

    fn address(&self) -> (r: u64) {
        self.address
    }

    fn from_address(address: u64) -> (r: KonFuze_NoShuffle) {
        KonFuze_NoShuffle { address }
    }

    fn expected_name() -> (r: &'static str) {
        "KonFuze_NoShuffle"
    }

    fn check() -> (r: NameCheck) {
        NameCheck::Exact
    }
}

impl KonFuze_NoShuffle {
    /// The same object seen as its base class.
    pub fn base(&self) -> (r: KonFuze)
        ensures
            r.address == self.address,
    {
        KonFuze { address: self.address }
    }
}


/// The id of a simulation object.
#[derive(Debug, Clone, Copy, PartialEq, Eq, Structural)]
pub struct ObjectId(pub u32);

/// The id that no object has.
pub const INVALID_OBJECT_ID: u32 = 0xffff_ffff;

impl ObjectId {
    /// Whether the id names an object.
    pub fn is_valid(&self) -> (r: bool)
        ensures
            r == (self.0 != INVALID_OBJECT_ID),
    {
        self.0 != INVALID_OBJECT_ID
    }
}

impl MemoryRead for ObjectId {
    open spec fn decode(image: Map<int, u8>, address: int) -> Result<ObjectId, ReadError> {
        match spec_read_u32(image, address) {
            Ok(v) => Ok(ObjectId(v)),
            Err(e) => Err(e),
        }
    }

    open spec fn spec_size() -> nat {
        4
    }

    fn size() -> (r: u64) {
        4
    }

    fn read<M: ReadMemory>(mem: &M, address: u64) -> (r: Result<ObjectId, ReadError>) {
        let v = read_u32(mem, address)?;
        Ok(ObjectId(v))
    }

    proof fn lemma_past_end(image: Map<int, u8>, address: int) {
    }
}

/// The tower sets, as flags.
pub struct TowerSet;

impl TowerSet {
    pub const NONE: u32 = 0;
    pub const PRIMARY: u32 = 1;
    pub const MILITARY: u32 = 2;
    pub const MAGIC: u32 = 4;
    pub const SUPPORT: u32 = 8;
    pub const HERO: u32 = 16;
    pub const PARAGON: u32 = 32;
    pub const ITEMS: u32 = 64;
}

/// An item of a segment's bloon list: the bloon and the segment it is on,
/// stored inline one after the other.
#[derive(Debug, Clone, Copy, PartialEq, Eq)]
pub struct BloonTargetProxy {
    pub bloon: Bloon,
    pub segment: PathSegment,
}

impl MemoryRead for BloonTargetProxy {
    open spec fn decode(image: Map<int, u8>, address: int) -> Result<BloonTargetProxy, ReadError> {
        match <Bloon as MemoryRead>::decode(image, address) {
            Err(e) => Err(e),
            Ok(bloon) => match <PathSegment as MemoryRead>::decode(image, address + 8) {
                Err(e) => Err(e),
                Ok(segment) => Ok(BloonTargetProxy { bloon, segment }),
            },
        }
    }

    open spec fn spec_size() -> nat {
        16
    }

    fn size() -> (r: u64) {
        16
    }

    fn read<M: ReadMemory>(mem: &M, address: u64) -> (r: Result<BloonTargetProxy, ReadError>) {
        let bloon: Bloon = Bloon::read(mem, address)?;
        let segment: PathSegment = crate::object::read_at(mem, address, 8)?;
        Ok(BloonTargetProxy { bloon, segment })
    }

    proof fn lemma_past_end(image: Map<int, u8>, address: int) {
    }
}


} // verus!
