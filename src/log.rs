//! The play-session event log: towers bought, upgraded and sold, derived by
//! comparing consecutive states of a match.
use vstd::prelude::*;

verus! {

/// What the log knows of one tower.
#[derive(Debug, Clone)]
pub struct TowerState {
    pub id: String,
    pub base_id: String,
    pub upgrades: Vec<String>,
}

impl TowerState {
    /// A copy of the tower.
    pub fn copied(&self) -> (r: TowerState)
        ensures
            r@ == self@,
    {
        let mut upgrades: Vec<String> = Vec::new();
        let mut i: usize = 0;
        while i < self.upgrades.len()
            invariant
                i <= self.upgrades@.len(),
                texts(upgrades@) == texts(self.upgrades@).take(i as int),
            decreases self.upgrades@.len() - i,
        {
            let u = self.upgrades[i].clone();
            let ghost before = upgrades@;
            upgrades.push(u);
            assert(texts(upgrades@) =~= texts(before).push(u@));
            assert(texts(self.upgrades@).take(i + 1) =~= texts(self.upgrades@).take(i as int).push(u@));
            i = i + 1;
        }
        assert(texts(self.upgrades@).take(i as int) =~= texts(self.upgrades@));
        TowerState { id: self.id.clone(), base_id: self.base_id.clone(), upgrades }
    }
}

pub struct TowerStateView {
    pub id: Seq<char>,
    pub base_id: Seq<char>,
    pub upgrades: Seq<Seq<char>>,
}

/// The views of a sequence of strings.
pub open spec fn texts(v: Seq<String>) -> Seq<Seq<char>> {
    Seq::new(v.len(), |i: int| v[i]@)
}

impl View for TowerState {
    type V = TowerStateView;

    open spec fn view(&self) -> TowerStateView {
        TowerStateView { id: self.id@, base_id: self.base_id@, upgrades: texts(self.upgrades@) }
    }
}

/// The state of a match as far as the log follows it.
#[derive(Debug, Clone)]
pub struct GameLogState {
    /// Names the session: map and mode.
    pub label: String,
    pub seed: i32,
    /// Elapsed match time.
    pub time: u64,
    /// The towers, at most one per id.
    pub towers: Vec<TowerState>,
}

pub struct GameLogStateView {
    pub time: u64,
    pub towers: Seq<TowerStateView>,
}

/// The views of a sequence of towers.
pub open spec fn tower_views(v: Seq<TowerState>) -> Seq<TowerStateView> {
    Seq::new(v.len(), |i: int| v[i]@)
}

impl View for GameLogState {
    type V = GameLogStateView;

    open spec fn view(&self) -> GameLogStateView {
        GameLogStateView { time: self.time, towers: tower_views(self.towers@) }
    }
}

/// No two towers share an id.
pub open spec fn unique_ids(towers: Seq<TowerStateView>) -> bool {
    forall|i: int, j: int| 0 <= i < towers.len() && 0 <= j < towers.len() && i != j
        ==> #[trigger] towers[i].id != #[trigger] towers[j].id
}

/// No tower lists an upgrade twice.
pub open spec fn distinct_upgrades(towers: Seq<TowerStateView>) -> bool {
    forall|i: int| 0 <= i < towers.len() ==> #[trigger] towers[i].upgrades.no_duplicates()
}

impl GameLogState {
    /// At most one tower per id, and no upgrade twice on one tower.
    pub open spec fn wf(&self) -> bool {
        unique_ids(self@.towers) && distinct_upgrades(self@.towers)
    }

    /// A state with no towers, at time zero.
    pub fn empty() -> (r: GameLogState)
        ensures
            r.wf(),
            r@.time == 0,
            r@.towers.len() == 0,
    {
        let r = GameLogState { label: String::new(), seed: 0, time: 0, towers: Vec::new() };
        assert(r@.towers.len() == 0);
        r
    }
}

/// What happened to the towers.
#[derive(Debug, Clone)]
pub enum LogData {
    BuyTower { base_id: String, tower_id: String },
    BuyUpgrade { tower_id: String, upgrade_id: String },
    SellTower { tower_id: String },
}

pub enum EventView {
    BuyTower { base_id: Seq<char>, tower_id: Seq<char> },
    BuyUpgrade { tower_id: Seq<char>, upgrade_id: Seq<char> },
    SellTower { tower_id: Seq<char> },
}

impl View for LogData {
    type V = EventView;

    open spec fn view(&self) -> EventView {
        match self {
            LogData::BuyTower { base_id, tower_id } => EventView::BuyTower { base_id: base_id@, tower_id: tower_id@ },
            LogData::BuyUpgrade { tower_id, upgrade_id } => EventView::BuyUpgrade { tower_id: tower_id@, upgrade_id: upgrade_id@ },
            LogData::SellTower { tower_id } => EventView::SellTower { tower_id: tower_id@ },
        }
    }
}

/// One event of the log, with the match time at which it was seen.
#[derive(Debug, Clone)]
pub struct LogEntry {
    pub time: u64,
    pub data: LogData,
}

pub struct EntryView {
    pub time: u64,
    pub event: EventView,
}

impl View for LogEntry {
    type V = EntryView;

    open spec fn view(&self) -> EntryView {
        EntryView { time: self.time, event: self.data@ }
    }
}

/// The views of a sequence of entries.
pub open spec fn entry_views(v: Seq<LogEntry>) -> Seq<EntryView> {
    Seq::new(v.len(), |i: int| v[i]@)
}

impl LogEntry {
    /// A copy of the entry.
    pub fn copied(&self) -> (r: LogEntry)
        ensures
            r@ == self@,
    {
        let data = match &self.data {
            LogData::BuyTower { base_id, tower_id } => LogData::BuyTower { base_id: base_id.clone(), tower_id: tower_id.clone() },
            LogData::BuyUpgrade { tower_id, upgrade_id } => LogData::BuyUpgrade { tower_id: tower_id.clone(), upgrade_id: upgrade_id.clone() },
            LogData::SellTower { tower_id } => LogData::SellTower { tower_id: tower_id.clone() },
        };
        LogEntry { time: self.time, data }
    }
}

proof fn lemma_push_view(v: Seq<LogEntry>, e: LogEntry)
    ensures
        entry_views(v.push(e)) == entry_views(v).push(e@),
{
    assert(entry_views(v.push(e)) =~= entry_views(v).push(e@));
}

/// The ordered event log of one session.
#[derive(Debug, Clone)]
pub struct GameLog {
    pub entries: Vec<LogEntry>,
}

impl View for GameLog {
    type V = Seq<EntryView>;

    open spec fn view(&self) -> Seq<EntryView> {
        entry_views(self.entries@)
    }
}

/// The entries of `log` seen at or before `time`, in order.
pub open spec fn entries_up_to(log: Seq<EntryView>, time: u64) -> Seq<EntryView>
    decreases log.len(),
{
    if log.len() == 0 {
        Seq::empty()
    } else {
        entries_up_to(log.drop_last(), time) + if log.last().time <= time {
            seq![log.last()]
        } else {
            Seq::empty()
        }
    }
}

/// `i` is the first tower of `towers` with id `id`.
pub open spec fn is_first_with_id(towers: Seq<TowerStateView>, id: Seq<char>, i: int) -> bool {
    0 <= i < towers.len() && towers[i].id == id && forall|j: int| 0 <= j < i ==> towers[j].id != id
}

/// The first tower of `towers` with id `id`.
pub open spec fn lookup(towers: Seq<TowerStateView>, id: Seq<char>) -> Option<TowerStateView> {
    if exists|i: int| is_first_with_id(towers, id, i) {
        Some(towers[choose|i: int| is_first_with_id(towers, id, i)])
    } else {
        None
    }
}

/// A `BuyUpgrade` at `time` for each of `upgrades` that `known` lacks, in order.
pub open spec fn upgrade_events(time: u64, tower_id: Seq<char>, upgrades: Seq<Seq<char>>, known: Seq<Seq<char>>) -> Seq<EntryView>
    decreases upgrades.len(),
{
    if upgrades.len() == 0 {
        Seq::empty()
    } else {
        upgrade_events(time, tower_id, upgrades.drop_last(), known) + if known.contains(upgrades.last()) {
            Seq::empty()
        } else {
            seq![EntryView { time, event: EventView::BuyUpgrade { tower_id, upgrade_id: upgrades.last() } }]
        }
    }
}

/// The events for one tower of the new state: its new upgrades if it was
/// there before; else its purchase, then each upgrade it already has.
pub open spec fn tower_events(time: u64, before: Seq<TowerStateView>, tower: TowerStateView) -> Seq<EntryView> {
    match lookup(before, tower.id) {
        Some(old) => upgrade_events(time, tower.id, tower.upgrades, old.upgrades),
        None => seq![EntryView { time, event: EventView::BuyTower { base_id: tower.base_id, tower_id: tower.id } }]
            + upgrade_events(time, tower.id, tower.upgrades, Seq::empty()),
    }
}

/// The events for the towers of the new state, in order.
pub open spec fn arrival_events(time: u64, before: Seq<TowerStateView>, after: Seq<TowerStateView>) -> Seq<EntryView>
    decreases after.len(),
{
    if after.len() == 0 {
        Seq::empty()
    } else {
        arrival_events(time, before, after.drop_last()) + tower_events(time, before, after.last())
    }
}

/// A `SellTower` for each tower of the old state that the new one lacks, in order.
pub open spec fn sale_events(time: u64, before: Seq<TowerStateView>, after: Seq<TowerStateView>) -> Seq<EntryView>
    decreases before.len(),
{
    if before.len() == 0 {
        Seq::empty()
    } else {
        sale_events(time, before.drop_last(), after) + if lookup(after, before.last().id) is None {
            seq![EntryView { time, event: EventView::SellTower { tower_id: before.last().id } }]
        } else {
            Seq::empty()
        }
    }
}

/// The events that lead from state `a` to state `b`, stamped with `b`'s time.
pub open spec fn diff_events(a: GameLogStateView, b: GameLogStateView) -> Seq<EntryView> {
    arrival_events(b.time, a.towers, b.towers) + sale_events(b.time, a.towers, b.towers)
}

/// The index of the first tower with id `id`.
pub fn find_tower(towers: &Vec<TowerState>, id: &String) -> (r: Option<usize>)
    ensures
        r matches Some(i) ==> is_first_with_id(tower_views(towers@), id@, i as int)
            && lookup(tower_views(towers@), id@) == Some(tower_views(towers@)[i as int]),
        r is None ==> lookup(tower_views(towers@), id@) is None,
{
    let ghost ts = tower_views(towers@);
    let mut i: usize = 0;
    while i < towers.len()
        invariant
            ts == tower_views(towers@),
            i <= towers@.len(),
            forall|j: int| 0 <= j < i ==> ts[j].id != id@,
        decreases towers@.len() - i,
    {
        if towers[i].id == *id {
            assert(is_first_with_id(ts, id@, i as int));
            proof {
                let c = choose|c: int| is_first_with_id(ts, id@, c);
                if c < i {
                    assert(ts[c].id != id@);
                } else if c > i {
                    assert(ts[i as int].id != id@);
                }
            }
            return Some(i);
        }
        i = i + 1;
    }
    None
}

/// Whether `v` holds a string equal to `s`.
pub fn contains_text(v: &Vec<String>, s: &String) -> (r: bool)
    ensures
        r == texts(v@).contains(s@),
{
    let mut i: usize = 0;
    while i < v.len()
        invariant
            i <= v@.len(),
            forall|j: int| 0 <= j < i ==> v@[j]@ != s@,
        decreases v@.len() - i,
    {
        if v[i] == *s {
            assert(texts(v@)[i as int] == s@);
            return true;
        }
        i = i + 1;
    }
    assert(!texts(v@).contains(s@)) by {
        if texts(v@).contains(s@) {
            let j = choose|j: int| 0 <= j < texts(v@).len() && texts(v@)[j] == s@;
            assert(v@[j]@ == s@);
        }
    }
    false
}

impl GameLog {
    /// A log with no entries.
    pub fn new() -> (r: GameLog)
        ensures
            r@.len() == 0,
    {
        GameLog { entries: Vec::new() }
    }

    /// Appends a `BuyUpgrade` at `time` for each of `upgrades` that `known` lacks.
    fn push_upgrades(&mut self, time: u64, tower_id: &String, upgrades: &Vec<String>, known: &Vec<String>)
        ensures
            final(self)@ == old(self)@ + upgrade_events(time, tower_id@, texts(upgrades@), texts(known@)),
    {
        let mut i: usize = 0;
        while i < upgrades.len()
            invariant
                i <= upgrades@.len(),
                self@ == old(self)@ + upgrade_events(time, tower_id@, texts(upgrades@).take(i as int), texts(known@)),
            decreases upgrades@.len() - i,
        {
            let ghost before = self@;
            let found = contains_text(known, &upgrades[i]);
            if !found {
                let e = LogEntry {
                    time,
                    data: LogData::BuyUpgrade { tower_id: tower_id.clone(), upgrade_id: upgrades[i].clone() },
                };
                proof { lemma_push_view(self.entries@, e); }
                self.entries.push(e);
            }
            proof {
                let ups = texts(upgrades@);
                assert(ups.take(i + 1).drop_last() =~= ups.take(i as int));
                assert(ups.take(i + 1).last() == upgrades@[i as int]@);
            }
            i = i + 1;
            assert(self@ =~= old(self)@ + upgrade_events(time, tower_id@, texts(upgrades@).take(i as int), texts(known@)));
        }
        assert(texts(upgrades@).take(i as int) =~= texts(upgrades@));
    }

    /// Brings the log from state `a` to state `b`: drops the entries stamped
    /// after `b`'s time, then appends, stamped with `b`'s time, the purchase and
    /// upgrades of each tower new in `b`, the new upgrades of each tower in
    /// both, and the sale of each tower of `a` that `b` lacks.
    pub fn update(&mut self, a: &GameLogState, b: &GameLogState)
        requires
            a.wf(),
            b.wf(),
        ensures
            final(self)@ == entries_up_to(old(self)@, b.time) + diff_events(a@, b@),
    {
        let mut kept: Vec<LogEntry> = Vec::new();
        let mut i: usize = 0;
        while i < self.entries.len()
            invariant
                i <= self.entries@.len(),
                self@ == old(self)@,
                entry_views(kept@) == entries_up_to(old(self)@.take(i as int), b.time),
            decreases self.entries@.len() - i,
        {
            if self.entries[i].time <= b.time {
                let e = self.entries[i].copied();
                proof { lemma_push_view(kept@, e); }
                kept.push(e);
            }
            proof {
                assert(old(self)@.take(i + 1).drop_last() =~= old(self)@.take(i as int));
            }
            i = i + 1;
            assert(entry_views(kept@) =~= entries_up_to(old(self)@.take(i as int), b.time));
        }
        assert(old(self)@.take(i as int) =~= old(self)@);
        self.entries = kept;
        let ghost pruned = self@;
        let time = b.time;

        let mut k: usize = 0;
        while k < b.towers.len()
            invariant
                time == b.time,
                k <= b.towers@.len(),
                self@ == pruned + arrival_events(time, a@.towers, b@.towers.take(k as int)),
            decreases b.towers@.len() - k,
        {
            let tower = &b.towers[k];
            let ghost before = self@;
            match find_tower(&a.towers, &tower.id) {
                Some(j) => {
                    self.push_upgrades(time, &tower.id, &tower.upgrades, &a.towers[j].upgrades);
                },
                None => {
                    let e = LogEntry {
                        time,
                        data: LogData::BuyTower { base_id: tower.base_id.clone(), tower_id: tower.id.clone() },
                    };
                    proof { lemma_push_view(self.entries@, e); }
                    self.entries.push(e);
                    let none: Vec<String> = Vec::new();
                    assert(texts(none@) =~= Seq::<Seq<char>>::empty());
                    self.push_upgrades(time, &tower.id, &tower.upgrades, &none);
                },
            }
            proof {
                let bs = b@.towers;
                assert(bs.take(k + 1).drop_last() =~= bs.take(k as int));
                assert(bs.take(k + 1).last() == b.towers@[k as int]@);
            }
            k = k + 1;
            assert(self@ =~= pruned + arrival_events(time, a@.towers, b@.towers.take(k as int)));
        }
        assert(b@.towers.take(k as int) =~= b@.towers);
        let ghost arrived = self@;

        let mut m: usize = 0;
        while m < a.towers.len()
            invariant
                time == b.time,
                m <= a.towers@.len(),
                self@ == arrived + sale_events(time, a@.towers.take(m as int), b@.towers),
            decreases a.towers@.len() - m,
        {
            let tower = &a.towers[m];
            if find_tower(&b.towers, &tower.id).is_none() {
                let e = LogEntry { time, data: LogData::SellTower { tower_id: tower.id.clone() } };
                proof { lemma_push_view(self.entries@, e); }
                self.entries.push(e);
            }
            proof {
                let aseq = a@.towers;
                assert(aseq.take(m + 1).drop_last() =~= aseq.take(m as int));
                assert(aseq.take(m + 1).last() == a.towers@[m as int]@);
            }
            m = m + 1;
            assert(self@ =~= arrived + sale_events(time, a@.towers.take(m as int), b@.towers));
        }
        assert(a@.towers.take(m as int) =~= a@.towers);
    }
}

impl GameLog {
    /// One tick of the session log. A state with no towers marks a new match,
    /// so it is compared with the empty state rather than with `previous`.
    pub fn advance(&mut self, previous: &GameLogState, next: &GameLogState)
        requires
            previous.wf(),
            next.wf(),
        ensures
            next@.towers.len() == 0 ==> final(self)@ == entries_up_to(old(self)@, next.time)
                + diff_events((GameLogStateView { time: 0, towers: Seq::empty() }), next@),
            next@.towers.len() > 0 ==> final(self)@ == entries_up_to(old(self)@, next.time) + diff_events(previous@, next@),
    {
        if next.towers.len() == 0 {
            let empty = GameLogState::empty();
            assert(empty@.towers =~= Seq::<TowerStateView>::empty());
            self.update(&empty, next);
        } else {
            self.update(previous, next);
        }
    }
}

proof fn lemma_lookup_unique(towers: Seq<TowerStateView>, i: int)
    requires
        unique_ids(towers),
        0 <= i < towers.len(),
    ensures
        lookup(towers, towers[i].id) == Some(towers[i]),
{
    let id = towers[i].id;
    assert(is_first_with_id(towers, id, i));
    let c = choose|c: int| is_first_with_id(towers, id, c);
    assert(c == i) by {
        if c != i {
            assert(towers[c].id != towers[i].id);
        }
    }
}

proof fn lemma_known_upgrades(time: u64, tower_id: Seq<char>, upgrades: Seq<Seq<char>>, known: Seq<Seq<char>>)
    requires
        forall|i: int| 0 <= i < upgrades.len() ==> known.contains(#[trigger] upgrades[i]),
    ensures
        upgrade_events(time, tower_id, upgrades, known) == Seq::<EntryView>::empty(),
    decreases upgrades.len(),
{
    if upgrades.len() > 0 {
        lemma_known_upgrades(time, tower_id, upgrades.drop_last(), known);
        assert(known.contains(upgrades[upgrades.len() - 1]));
        assert(upgrade_events(time, tower_id, upgrades, known) =~= Seq::<EntryView>::empty());
    }
}

proof fn lemma_no_arrivals(time: u64, towers: Seq<TowerStateView>, n: int)
    requires
        unique_ids(towers),
        0 <= n <= towers.len(),
    ensures
        arrival_events(time, towers, towers.take(n)) == Seq::<EntryView>::empty(),
    decreases n,
{
    if n > 0 {
        let prefix = towers.take(n);
        assert(prefix.drop_last() =~= towers.take(n - 1));
        lemma_no_arrivals(time, towers, n - 1);
        let t = towers[n - 1];
        lemma_lookup_unique(towers, n - 1);
        assert forall|i: int| 0 <= i < t.upgrades.len() implies t.upgrades.contains(#[trigger] t.upgrades[i]) by {
        }
        lemma_known_upgrades(time, t.id, t.upgrades, t.upgrades);
        assert(arrival_events(time, towers, prefix) =~= Seq::<EntryView>::empty());
    }
}

proof fn lemma_no_sales(time: u64, towers: Seq<TowerStateView>, n: int)
    requires
        unique_ids(towers),
        0 <= n <= towers.len(),
    ensures
        sale_events(time, towers.take(n), towers) == Seq::<EntryView>::empty(),
    decreases n,
{
    if n > 0 {
        let prefix = towers.take(n);
        assert(prefix.drop_last() =~= towers.take(n - 1));
        lemma_no_sales(time, towers, n - 1);
        lemma_lookup_unique(towers, n - 1);
        assert(sale_events(time, prefix, towers) =~= Seq::<EntryView>::empty());
    }
}

/// Comparing a state with itself yields no event: updating a log with the
/// same state twice only drops the entries stamped after that state's time.
pub proof fn lemma_same_state_no_events(s: GameLogStateView)
    requires
        unique_ids(s.towers),
    ensures
        diff_events(s, s) == Seq::<EntryView>::empty(),
{
    lemma_no_arrivals(s.time, s.towers, s.towers.len() as int);
    lemma_no_sales(s.time, s.towers, s.towers.len() as int);
    assert(s.towers.take(s.towers.len() as int) =~= s.towers);
    assert(diff_events(s, s) =~= Seq::<EntryView>::empty());
}

} // verus!
