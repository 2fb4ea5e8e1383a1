//! Multi-agent state aggregation.
//!
//! External coding agents each own a state file named `ds4cc_agent_<id>`
//! holding one of the tokens `idle`, `working`, `done`, `error`. A scan of
//! the state directory is classified by `classify_scan` (staleness and
//! idle eviction), and a tick of the `Aggregator` collapses the active
//! agents into one global state by priority, tracks per-agent transitions,
//! fires the done-rumble and idle-reminder signals, and prunes finished
//! records. All file and clock access stays with the caller: the tick
//! takes the scanned entries and the current time in milliseconds.

use vstd::prelude::*;
use vstd::string::StringSliceAdditionalSpecFns;

use crate::bytes::{bytes_eq, ends_with, lower_vec, spec_ends_with, spec_lower_seq,
    spec_starts_with, spec_trim, starts_with, trim};

verus! {

/// Agent states, by rising priority: Idle < Done < Error < Working.
#[derive(Debug, Clone, Copy, PartialEq, Eq, Structural)]
pub enum AgentState {
    Idle,
    Working,
    Done,
    Error,
}

/// Aggregation priority: higher wins.
pub open spec fn spec_priority(s: AgentState) -> u8 {
    match s {
        AgentState::Idle => 0,
        AgentState::Done => 1,
        AgentState::Error => 2,
        AgentState::Working => 3,
    }
}

/// The token an agent state file may hold, after trimming and lowercasing:
/// `idle`, `working`, `done` or `error`.
pub open spec fn spec_parse_agent_state(s: Seq<u8>) -> Option<AgentState> {
    let l = spec_lower_seq(spec_trim(s));
    if l == seq![105u8, 100u8, 108u8, 101u8] {  // "idle"
        Some(AgentState::Idle)
    } else if l == seq![119u8, 111u8, 114u8, 107u8, 105u8, 110u8, 103u8] {  // "working"
        Some(AgentState::Working)
    } else if l == seq![100u8, 111u8, 110u8, 101u8] {  // "done"
        Some(AgentState::Done)
    } else if l == seq![101u8, 114u8, 114u8, 111u8, 114u8] {  // "error"
        Some(AgentState::Error)
    } else {
        None
    }
}

fn parse_agent_state_bytes(s: &[u8]) -> (r: Option<AgentState>)
    ensures
        r == spec_parse_agent_state(s@),
{
    let t = trim(s);
    let l = lower_vec(t.as_slice());
    let lit_idle: [u8; 4] = [105, 100, 108, 101];
    let lit_working: [u8; 7] = [119, 111, 114, 107, 105, 110, 103];
    let lit_done: [u8; 4] = [100, 111, 110, 101];
    let lit_error: [u8; 5] = [101, 114, 114, 111, 114];
    proof {
        assert(lit_idle@ =~= seq![105u8, 100u8, 108u8, 101u8]);
        assert(lit_working@ =~= seq![119u8, 111u8, 114u8, 107u8, 105u8, 110u8, 103u8]);
        assert(lit_done@ =~= seq![100u8, 111u8, 110u8, 101u8]);
        assert(lit_error@ =~= seq![101u8, 114u8, 114u8, 111u8, 114u8]);
    }
    if bytes_eq(l.as_slice(), lit_idle.as_slice()) {
        Some(AgentState::Idle)
    } else if bytes_eq(l.as_slice(), lit_working.as_slice()) {
        Some(AgentState::Working)
    } else if bytes_eq(l.as_slice(), lit_done.as_slice()) {
        Some(AgentState::Done)
    } else if bytes_eq(l.as_slice(), lit_error.as_slice()) {
        Some(AgentState::Error)
    } else {
        None
    }
}

impl AgentState {
    /// Parse a state file token: whitespace-trimmed, case-insensitive.
    pub fn parse(s: &str) -> (r: Option<AgentState>)
        ensures
            r == spec_parse_agent_state(s.spec_bytes()),
    {
        parse_agent_state_bytes(s.as_bytes())
    }

    /// Aggregation priority (higher wins): Working > Error > Done > Idle.
    pub fn priority(self) -> (r: u8)
        ensures
            r == spec_priority(self),
    {
        match self {
            AgentState::Idle => 0,
            AgentState::Done => 1,
            AgentState::Error => 2,
            AgentState::Working => 3,
        }
    }
}

/// The state with the higher priority.
pub open spec fn spec_max_state(a: AgentState, b: AgentState) -> AgentState {
    if spec_priority(a) >= spec_priority(b) {
        a
    } else {
        b
    }
}

/// The highest-priority state in the sequence; Idle when it is empty.
pub open spec fn spec_aggregate(states: Seq<AgentState>) -> AgentState
    decreases states.len(),
{
    if states.len() == 0 {
        AgentState::Idle
    } else {
        spec_max_state(states[0], spec_aggregate(states.skip(1)))
    }
}

/// Priority is strict and total: distinct states have distinct priorities,
/// ordered Working > Error > Done > Idle.
pub proof fn lemma_priority_strict_total(a: AgentState, b: AgentState)
    ensures
        a != b ==> spec_priority(a) != spec_priority(b),
        spec_priority(AgentState::Working) > spec_priority(AgentState::Error),
        spec_priority(AgentState::Error) > spec_priority(AgentState::Done),
        spec_priority(AgentState::Done) > spec_priority(AgentState::Idle),
{
}

/// The aggregate dominates every listed state and is itself either Idle or
/// one of the listed states.
pub proof fn lemma_aggregate_max(states: Seq<AgentState>)
    ensures
        forall|i: int|
            0 <= i < states.len() ==> spec_priority(states[i]) <= spec_priority(
                spec_aggregate(states),
            ),
        spec_aggregate(states) == AgentState::Idle || exists|i: int|
            0 <= i < states.len() && states[i] == spec_aggregate(states),
    decreases states.len(),
{
    if states.len() > 0 {
        lemma_aggregate_max(states.skip(1));
        let rest = spec_aggregate(states.skip(1));
        assert(forall|i: int| 1 <= i < states.len() ==> states[i] == states.skip(1)[i - 1]);
        if rest != AgentState::Idle && spec_priority(rest) > spec_priority(states[0]) {
            let j = choose|j: int| 0 <= j < states.skip(1).len() && states.skip(1)[j] == rest;
            assert(states[j + 1] == rest);
        }
    }
}

/// Collapse a list of agent states into one global state by priority; an
/// empty list aggregates to Idle.
pub fn aggregate_states(states: &Vec<AgentState>) -> (r: AgentState)
    ensures
        r == spec_aggregate(states@),
{
    let mut best = AgentState::Idle;
    let mut i: usize = states.len();
    while i > 0
        invariant
            i <= states.len(),
            best == spec_aggregate(states@.skip(i as int)),
        decreases i,
    {
        i -= 1;
        let s = states[i];
        proof {
            assert(states@.skip(i as int)[0] == states@[i as int]);
            assert(states@.skip(i as int).skip(1) =~= states@.skip(i + 1));
        }
        if s.priority() > best.priority() {
            best = s;
        } else {
            proof {
                lemma_priority_strict_total(s, best);
            }
        }
    }
    proof {
        assert(states@.skip(0) =~= states@);
    }
    best
}

// ── Scan classification ─────────────────────────────────────────────

/// The `ds4cc_agent_` file name prefix, as bytes.
pub open spec fn spec_agent_prefix() -> Seq<u8> {
    seq![100u8, 115u8, 52u8, 99u8, 99u8, 95u8, 97u8, 103u8, 101u8, 110u8, 116u8, 95u8]
}

/// The `_start` companion suffix, as bytes.
pub open spec fn spec_start_suffix() -> Seq<u8> {
    seq![95u8, 115u8, 116u8, 97u8, 114u8, 116u8]
}

/// The agent id carried by a state file name: the part after the
/// `ds4cc_agent_` prefix — unless the name is a `_start` companion.
pub open spec fn spec_agent_id_of_name(name: Seq<u8>) -> Option<Seq<u8>> {
    if spec_starts_with(name, spec_agent_prefix()) && !spec_ends_with(name, spec_start_suffix()) {
        Some(name.skip(spec_agent_prefix().len() as int))
    } else {
        None
    }
}

/// Extract the agent id from a state file name, or None for names that are
/// not agent state files (wrong prefix, or a `_start` companion).
pub fn agent_id_of_name(name: &[u8]) -> (r: Option<Vec<u8>>)
    ensures
        match r {
            Some(id) => spec_agent_id_of_name(name@) == Some(id@),
            None => spec_agent_id_of_name(name@) is None,
        },
{
    let prefix: [u8; 12] = [100, 115, 52, 99, 99, 95, 97, 103, 101, 110, 116, 95];
    let suffix: [u8; 6] = [95, 115, 116, 97, 114, 116];
    proof {
        assert(prefix@ =~= spec_agent_prefix());
        assert(suffix@ =~= spec_start_suffix());
    }
    if starts_with(name, prefix.as_slice()) && !ends_with(name, suffix.as_slice()) {
        let mut id: Vec<u8> = Vec::new();
        let mut i: usize = 12;
        while i < name.len()
            invariant
                12 <= i <= name.len(),
                id@ =~= name@.subrange(12, i as int),
            decreases name.len() - i,
        {
            id.push(name[i]);
            proof {
                assert(id@ =~= name@.subrange(12, i + 1));
            }
            i += 1;
        }
        proof {
            assert(id@ =~= name@.skip(12));
        }
        Some(id)
    } else {
        None
    }
}

/// One entry of a directory scan, as plain values: the file name, its
/// contents if it could be read, and the age of its last modification in
/// seconds (0 when unknown).
pub struct ScanFile {
    pub name: Vec<u8>,
    pub contents: Option<Vec<u8>>,
    pub age_s: u64,
}

/// Spec view of a scanned file.
pub struct ScanFileV {
    pub name: Seq<u8>,
    pub contents: Option<Seq<u8>>,
    pub age_s: u64,
}

impl View for ScanFile {
    type V = ScanFileV;

    open spec fn view(&self) -> ScanFileV {
        ScanFileV {
            name: self.name@,
            contents: match self.contents {
                Some(ref c) => Some(c@),
                None => None,
            },
            age_s: self.age_s,
        }
    }
}

/// One active agent found by a scan.
#[derive(Debug, Clone)]
pub struct ActiveAgent {
    pub id: Vec<u8>,
    pub state: AgentState,
}

/// Spec view of an active agent.
pub struct ActiveAgentV {
    pub id: Seq<u8>,
    pub state: AgentState,
}

impl View for ActiveAgent {
    type V = ActiveAgentV;

    open spec fn view(&self) -> ActiveAgentV {
        ActiveAgentV { id: self.id@, state: self.state }
    }
}

/// The views of a sequence of active agents.
pub open spec fn spec_agents_view(v: Seq<ActiveAgent>) -> Seq<ActiveAgentV> {
    v.map_values(|a: ActiveAgent| a@)
}

/// What a scan decides: the agents that stay active, and the names of the
/// files to delete (stale Working files and Idle files).
pub struct ScanOutcome {
    pub agents: Vec<ActiveAgent>,
    pub deletions: Vec<Vec<u8>>,
}

/// What one scanned file contributes: `(active agent, file to delete)`.
/// Names without the agent prefix, `_start` companions, unreadable files
/// and unparseable tokens contribute nothing; a Working file older than
/// the stale timeout and every Idle file is deleted; the rest stay active.
pub open spec fn spec_classify_file(f: ScanFileV, stale_timeout_s: u64) -> (
    Option<ActiveAgentV>,
    Option<Seq<u8>>,
) {
    match spec_agent_id_of_name(f.name) {
        None => (None::<ActiveAgentV>, None::<Seq<u8>>),
        Some(id) => match f.contents {
            None => (None::<ActiveAgentV>, None::<Seq<u8>>),
            Some(c) => match spec_parse_agent_state(c) {
                None => (None::<ActiveAgentV>, None::<Seq<u8>>),
                Some(st) => if st == AgentState::Working && f.age_s > stale_timeout_s {
                    (None::<ActiveAgentV>, Some(f.name))
                } else if st == AgentState::Idle {
                    (None::<ActiveAgentV>, Some(f.name))
                } else {
                    (Some(ActiveAgentV { id: id, state: st }), None::<Seq<u8>>)
                },
            },
        },
    }
}

/// The agents and deletions of a whole scan, in file order.
pub open spec fn spec_classify(files: Seq<ScanFileV>, stale_timeout_s: u64) -> (
    Seq<ActiveAgentV>,
    Seq<Seq<u8>>,
)
    decreases files.len(),
{
    if files.len() == 0 {
        (Seq::empty(), Seq::empty())
    } else {
        let (a0, d0) = spec_classify_file(files[0], stale_timeout_s);
        let (ar, dr) = spec_classify(files.skip(1), stale_timeout_s);
        let ah: Seq<ActiveAgentV> = match a0 {
            Some(a) => seq![a],
            None => Seq::empty(),
        };
        let dh: Seq<Seq<u8>> = match d0 {
            Some(d) => seq![d],
            None => Seq::empty(),
        };
        (ah + ar, dh + dr)
    }
}

proof fn lemma_classify_snoc(files: Seq<ScanFileV>, f: ScanFileV, stale: u64)
    ensures
        ({
            let (a, d) = spec_classify(files, stale);
            let (a0, d0) = spec_classify_file(f, stale);
            let ah: Seq<ActiveAgentV> = match a0 {
                Some(x) => seq![x],
                None => Seq::empty(),
            };
            let dh: Seq<Seq<u8>> = match d0 {
                Some(x) => seq![x],
                None => Seq::empty(),
            };
            spec_classify(files.push(f), stale) == (a + ah, d + dh)
        }),
    decreases files.len(),
{
    let p = files.push(f);
    if files.len() == 0 {
        assert(p[0] == f);
        assert(p.skip(1) =~= Seq::<ScanFileV>::empty());
        assert(spec_classify(p.skip(1), stale).0 =~= Seq::<ActiveAgentV>::empty());
        assert(spec_classify(p.skip(1), stale).1 =~= Seq::<Seq<u8>>::empty());
        let (a0, d0) = spec_classify_file(f, stale);
        let ah: Seq<ActiveAgentV> = match a0 {
            Some(x) => seq![x],
            None => Seq::empty(),
        };
        let dh: Seq<Seq<u8>> = match d0 {
            Some(x) => seq![x],
            None => Seq::empty(),
        };
        assert(spec_classify(p, stale).0 =~= ah);
        assert(spec_classify(p, stale).1 =~= dh);
        assert(spec_classify(files, stale).0 + ah =~= ah);
        assert(spec_classify(files, stale).1 + dh =~= dh);
    } else {
        assert(p[0] == files[0]);
        assert(p.skip(1) =~= files.skip(1).push(f));
        lemma_classify_snoc(files.skip(1), f, stale);
        let (a0h, d0h) = spec_classify_file(files[0], stale);
        let a0s: Seq<ActiveAgentV> = match a0h {
            Some(x) => seq![x],
            None => Seq::empty(),
        };
        let d0s: Seq<Seq<u8>> = match d0h {
            Some(x) => seq![x],
            None => Seq::empty(),
        };
        let (af, df) = spec_classify_file(f, stale);
        let ah: Seq<ActiveAgentV> = match af {
            Some(x) => seq![x],
            None => Seq::empty(),
        };
        let dh: Seq<Seq<u8>> = match df {
            Some(x) => seq![x],
            None => Seq::empty(),
        };
        assert(spec_classify(p, stale).0 =~= spec_classify(files, stale).0 + ah);
        assert(spec_classify(p, stale).1 =~= spec_classify(files, stale).1 + dh);
    }
}

fn clone_bytes(v: &Vec<u8>) -> (r: Vec<u8>)
    ensures
        r@ == v@,
{
    let mut out: Vec<u8> = Vec::new();
    let mut i: usize = 0;
    while i < v.len()
        invariant
            i <= v.len(),
            out@ =~= v@.take(i as int),
        decreases v.len() - i,
    {
        out.push(v[i]);
        proof {
            assert(out@ =~= v@.take(i + 1));
        }
        i += 1;
    }
    proof {
        assert(out@ =~= v@);
    }
    out
}

/// Classify one directory scan: decide which files name active agents,
/// which are to be deleted (stale Working files, Idle files), and leave
/// everything else alone.
pub fn classify_scan(files: &Vec<ScanFile>, stale_timeout_s: u64) -> (r: ScanOutcome)
    ensures
        spec_agents_view(r.agents@) == spec_classify(files@.map_values(|f: ScanFile| f@), stale_timeout_s).0,
        r.deletions@.map_values(|d: Vec<u8>| d@) == spec_classify(
            files@.map_values(|f: ScanFile| f@),
            stale_timeout_s,
        ).1,
{
    let ghost fv = files@.map_values(|f: ScanFile| f@);
    let mut agents: Vec<ActiveAgent> = Vec::new();
    let mut deletions: Vec<Vec<u8>> = Vec::new();
    let mut i: usize = 0;
    while i < files.len()
        invariant
            i <= files.len(),
            fv == files@.map_values(|f: ScanFile| f@),
            fv.len() == files@.len(),
            spec_agents_view(agents@) == spec_classify(fv.take(i as int), stale_timeout_s).0,
            deletions@.map_values(|d: Vec<u8>| d@) == spec_classify(
                fv.take(i as int),
                stale_timeout_s,
            ).1,
        decreases files.len() - i,
    {
        proof {
            lemma_classify_snoc(fv.take(i as int), fv[i as int], stale_timeout_s);
            assert(fv.take(i as int).push(fv[i as int]) =~= fv.take(i + 1));
            assert(fv[i as int] == files@[i as int]@);
        }
        let f = &files[i];
        let ghost agents0 = agents@;
        let ghost dels0 = deletions@;
        match agent_id_of_name(f.name.as_slice()) {
            None => {},
            Some(id) => {
                match &f.contents {
                    None => {},
                    Some(c) => {
                        match parse_agent_state_bytes(c.as_slice()) {
                            None => {},
                            Some(st) => {
                                if st == AgentState::Working && f.age_s > stale_timeout_s {
                                    deletions.push(clone_bytes(&f.name));
                                } else if st == AgentState::Idle {
                                    deletions.push(clone_bytes(&f.name));
                                } else {
                                    agents.push(ActiveAgent { id, state: st });
                                }
                            },
                        }
                    },
                }
            },
        }
        proof {
            assert(spec_agents_view(agents@) =~= spec_classify(fv.take(i + 1), stale_timeout_s).0);
            assert(deletions@.map_values(|d: Vec<u8>| d@) =~= spec_classify(
                fv.take(i + 1),
                stale_timeout_s,
            ).1);
        }
        i += 1;
    }
    proof {
        assert(fv.take(fv.len() as int) =~= fv);
    }
    ScanOutcome { agents, deletions }
}

// ── Per-agent tracker and tick ──────────────────────────────────────

/// Milliseconds from `since` to `now`, zero when `since` lies ahead.
pub open spec fn spec_elapsed(now: u64, since: u64) -> int {
    if now >= since {
        now - since
    } else {
        0
    }
}

fn elapsed_ms(now: u64, since: u64) -> (r: u64)
    ensures
        r == spec_elapsed(now, since),
{
    if now >= since {
        now - since
    } else {
        0
    }
}

/// One tracked agent: its last observed state, when that state was first
/// observed, and whether its idle reminder has already fired.
#[derive(Debug)]
pub struct AgentRecord {
    pub id: Vec<u8>,
    pub state: AgentState,
    pub since_ms: u64,
    pub reminder_fired: bool,
}

/// Spec view of a tracked agent.
pub struct AgentRecordV {
    pub id: Seq<u8>,
    pub state: AgentState,
    pub since_ms: u64,
    pub reminder_fired: bool,
}

impl View for AgentRecord {
    type V = AgentRecordV;

    open spec fn view(&self) -> AgentRecordV {
        AgentRecordV {
            id: self.id@,
            state: self.state,
            since_ms: self.since_ms,
            reminder_fired: self.reminder_fired,
        }
    }
}

/// The views of the tracker records.
pub open spec fn spec_tracker_view(t: Seq<AgentRecord>) -> Seq<AgentRecordV> {
    t.map_values(|r: AgentRecord| r@)
}

/// First index tracking the given id, if any.
pub open spec fn spec_rec_find(t: Seq<AgentRecordV>, id: Seq<u8>) -> Option<int>
    decreases t.len(),
{
    if t.len() == 0 {
        None
    } else if t[0].id == id {
        Some(0)
    } else {
        match spec_rec_find(t.skip(1), id) {
            Some(i) => Some(i + 1),
            None => None,
        }
    }
}

/// `spec_rec_find` characterized directly: the least index tracking `id`.
pub proof fn lemma_rec_find_char(t: Seq<AgentRecordV>, id: Seq<u8>)
    ensures
        match spec_rec_find(t, id) {
            Some(i) => 0 <= i < t.len() && t[i].id == id && forall|k: int|
                0 <= k < i ==> t[k].id != id,
            None => forall|k: int| 0 <= k < t.len() ==> t[k].id != id,
        },
    decreases t.len(),
{
    if t.len() > 0 && t[0].id != id {
        lemma_rec_find_char(t.skip(1), id);
        match spec_rec_find(t.skip(1), id) {
            Some(i) => {
                assert(forall|k: int| 1 <= k < i + 1 ==> t[k] == t.skip(1)[k - 1]);
            },
            None => {
                assert(forall|k: int| 1 <= k < t.len() ==> t[k] == t.skip(1)[k - 1]);
            },
        }
    }
}

/// Some active agent carries the given id.
pub open spec fn spec_active_contains(act: Seq<ActiveAgentV>, id: Seq<u8>) -> bool {
    exists|i: int| 0 <= i < act.len() && act[i].id == id
}

/// No two tracker records track the same id.
pub open spec fn spec_ids_unique(t: Seq<AgentRecordV>) -> bool {
    forall|i: int, j: int| 0 <= i < j < t.len() ==> t[i].id != t[j].id
}

/// No two active agents carry the same id.
pub open spec fn spec_active_ids_unique(act: Seq<ActiveAgentV>) -> bool {
    forall|i: int, j: int| 0 <= i < j < act.len() ==> act[i].id != act[j].id
}

/// Applying one scanned agent to the tracker: an unseen id is added with
/// `since = now`; a changed state restamps the record and clears the fired
/// mark, counting one done-rumble when the change is Working to Done after
/// at least `thr_ms` of work; an unchanged state leaves the record alone.
pub open spec fn spec_apply_one(
    t: Seq<AgentRecordV>,
    e: ActiveAgentV,
    now: u64,
    thr_ms: u64,
) -> (Seq<AgentRecordV>, int) {
    match spec_rec_find(t, e.id) {
        None => (
            t.push(AgentRecordV { id: e.id, state: e.state, since_ms: now, reminder_fired: false }),
            0,
        ),
        Some(i) => if t[i].state == e.state {
            (t, 0)
        } else {
            (
                t.update(
                    i,
                    AgentRecordV { id: e.id, state: e.state, since_ms: now, reminder_fired: false },
                ),
                if t[i].state == AgentState::Working && e.state == AgentState::Done && spec_elapsed(
                    now,
                    t[i].since_ms,
                ) >= thr_ms {
                    1int
                } else {
                    0int
                },
            )
        },
    }
}

/// Applying a whole scan to the tracker, agent by agent, summing the
/// done-rumbles owed.
pub open spec fn spec_apply_active(
    t: Seq<AgentRecordV>,
    act: Seq<ActiveAgentV>,
    now: u64,
    thr_ms: u64,
) -> (Seq<AgentRecordV>, int)
    decreases act.len(),
{
    if act.len() == 0 {
        (t, 0)
    } else {
        let (t1, n1) = spec_apply_one(t, act[0], now, thr_ms);
        let (t2, n2) = spec_apply_active(t1, act.skip(1), now, thr_ms);
        (t2, n1 + n2)
    }
}

proof fn lemma_apply_active_snoc(
    t: Seq<AgentRecordV>,
    act: Seq<ActiveAgentV>,
    e: ActiveAgentV,
    now: u64,
    thr_ms: u64,
)
    ensures
        ({
            let (t1, n1) = spec_apply_active(t, act, now, thr_ms);
            let (t2, n2) = spec_apply_one(t1, e, now, thr_ms);
            spec_apply_active(t, act.push(e), now, thr_ms) == (t2, n1 + n2)
        }),
    decreases act.len(),
{
    let p = act.push(e);
    if act.len() == 0 {
        assert(p[0] == e);
        assert(p.skip(1) =~= Seq::<ActiveAgentV>::empty());
        let (t1, n1) = spec_apply_one(t, e, now, thr_ms);
        assert(spec_apply_active(t1, p.skip(1), now, thr_ms) == (t1, 0int));
    } else {
        assert(p[0] == act[0]);
        assert(p.skip(1) =~= act.skip(1).push(e));
        let (ta, na) = spec_apply_one(t, act[0], now, thr_ms);
        lemma_apply_active_snoc(ta, act.skip(1), e, now, thr_ms);
    }
}

/// A tracked agent that has disappeared from the scan while not Idle is
/// transitioned to Idle at `now`. If it disappeared while Working for less
/// than the subagent filter, its reminder is marked as already fired, so a
/// short-lived subagent never raises an idle reminder.
pub open spec fn spec_idle_one(
    r: AgentRecordV,
    act: Seq<ActiveAgentV>,
    now: u64,
    filter_ms: u64,
) -> AgentRecordV {
    if !spec_active_contains(act, r.id) && r.state != AgentState::Idle {
        let sub = r.state == AgentState::Working && spec_elapsed(now, r.since_ms) < filter_ms;
        AgentRecordV { id: r.id, state: AgentState::Idle, since_ms: now, reminder_fired: sub }
    } else {
        r
    }
}

/// The idle transition applied to every tracked record.
pub open spec fn spec_idle_sweep(
    t: Seq<AgentRecordV>,
    act: Seq<ActiveAgentV>,
    now: u64,
    filter_ms: u64,
) -> Seq<AgentRecordV> {
    Seq::new(t.len(), |i: int| spec_idle_one(t[i], act, now, filter_ms))
}

/// A record whose idle reminder is due: reminders enabled, Idle, not yet
/// fired, and idle for at least the reminder threshold.
pub open spec fn spec_reminder_due(r: AgentRecordV, now: u64, reminder_s: u64) -> bool {
    &&& reminder_s > 0
    &&& r.state == AgentState::Idle
    &&& !r.reminder_fired
    &&& spec_elapsed(now, r.since_ms) >= reminder_s * 1000
}

/// Mark every due reminder as fired.
pub open spec fn spec_fire_sweep(t: Seq<AgentRecordV>, now: u64, reminder_s: u64) -> Seq<
    AgentRecordV,
> {
    Seq::new(
        t.len(),
        |i: int|
            if spec_reminder_due(t[i], now, reminder_s) {
                AgentRecordV {
                    id: t[i].id,
                    state: t[i].state,
                    since_ms: t[i].since_ms,
                    reminder_fired: true,
                }
            } else {
                t[i]
            },
    )
}

/// Some record's reminder is due.
pub open spec fn spec_any_due(t: Seq<AgentRecordV>, now: u64, reminder_s: u64) -> bool {
    exists|i: int| 0 <= i < t.len() && spec_reminder_due(t[i], now, reminder_s)
}

/// A record is kept past the tick when its agent is still active, or while
/// its idle reminder is still pending.
pub open spec fn spec_keep(r: AgentRecordV, act: Seq<ActiveAgentV>, reminder_s: u64) -> bool {
    spec_active_contains(act, r.id) || (reminder_s > 0 && r.state == AgentState::Idle
        && !r.reminder_fired)
}

/// The tracker without the records that are done for: active agents are
/// always kept, idle-in-memory agents only while their reminder is pending.
pub open spec fn spec_prune(
    t: Seq<AgentRecordV>,
    act: Seq<ActiveAgentV>,
    reminder_s: u64,
) -> Seq<AgentRecordV>
    decreases t.len(),
{
    if t.len() == 0 {
        Seq::empty()
    } else {
        let rest = spec_prune(t.skip(1), act, reminder_s);
        if spec_keep(t[0], act, reminder_s) {
            seq![t[0]] + rest
        } else {
            rest
        }
    }
}

proof fn lemma_prune_snoc(
    t: Seq<AgentRecordV>,
    r: AgentRecordV,
    act: Seq<ActiveAgentV>,
    reminder_s: u64,
)
    ensures
        spec_prune(t.push(r), act, reminder_s) == if spec_keep(r, act, reminder_s) {
            spec_prune(t, act, reminder_s).push(r)
        } else {
            spec_prune(t, act, reminder_s)
        },
    decreases t.len(),
{
    let p = t.push(r);
    if t.len() == 0 {
        assert(p[0] == r);
        assert(p.skip(1) =~= Seq::<AgentRecordV>::empty());
        assert(spec_prune(p.skip(1), act, reminder_s) =~= Seq::<AgentRecordV>::empty());
        assert(spec_prune(t, act, reminder_s) =~= Seq::<AgentRecordV>::empty());
        if spec_keep(r, act, reminder_s) {
            assert(spec_prune(p, act, reminder_s) =~= spec_prune(t, act, reminder_s).push(r));
        } else {
            assert(spec_prune(p, act, reminder_s) =~= spec_prune(t, act, reminder_s));
        }
    } else {
        assert(p[0] == t[0]);
        assert(p.skip(1) =~= t.skip(1).push(r));
        lemma_prune_snoc(t.skip(1), r, act, reminder_s);
        if spec_keep(t[0], act, reminder_s) {
            if spec_keep(r, act, reminder_s) {
                assert(spec_prune(p, act, reminder_s) =~= spec_prune(t, act, reminder_s).push(r));
            } else {
                assert(spec_prune(p, act, reminder_s) =~= spec_prune(t, act, reminder_s));
            }
        } else {
            if spec_keep(r, act, reminder_s) {
                assert(spec_prune(p, act, reminder_s) =~= spec_prune(t, act, reminder_s).push(r));
            } else {
                assert(spec_prune(p, act, reminder_s) =~= spec_prune(t, act, reminder_s));
            }
        }
    }
}

/// Every id in the pruned tracker was in the tracker before.
proof fn lemma_prune_ids_subset(
    t: Seq<AgentRecordV>,
    act: Seq<ActiveAgentV>,
    reminder_s: u64,
)
    ensures
        forall|k: int|
            0 <= k < spec_prune(t, act, reminder_s).len() ==> exists|j: int|
                0 <= j < t.len() && t[j] == #[trigger] spec_prune(t, act, reminder_s)[k],
    decreases t.len(),
{
    if t.len() > 0 {
        lemma_prune_ids_subset(t.skip(1), act, reminder_s);
        let pr = spec_prune(t, act, reminder_s);
        let rest = spec_prune(t.skip(1), act, reminder_s);
        assert forall|k: int| 0 <= k < pr.len() implies exists|j: int|
            0 <= j < t.len() && t[j] == #[trigger] pr[k] by {
            if spec_keep(t[0], act, reminder_s) {
                if k == 0 {
                    assert(t[0] == pr[0]);
                } else {
                    assert(pr[k] == rest[k - 1]);
                    let j = choose|j: int| 0 <= j < t.skip(1).len() && t.skip(1)[j] == rest[k - 1];
                    assert(t[j + 1] == pr[k]);
                }
            } else {
                assert(pr[k] == rest[k]);
                let j = choose|j: int| 0 <= j < t.skip(1).len() && t.skip(1)[j] == rest[k];
                assert(t[j + 1] == pr[k]);
            }
        }
    }
}

/// Pruning keeps the records distinct.
proof fn lemma_prune_unique(t: Seq<AgentRecordV>, act: Seq<ActiveAgentV>, reminder_s: u64)
    requires
        spec_ids_unique(t),
    ensures
        spec_ids_unique(spec_prune(t, act, reminder_s)),
    decreases t.len(),
{
    if t.len() > 0 {
        assert(spec_ids_unique(t.skip(1)));
        lemma_prune_unique(t.skip(1), act, reminder_s);
        lemma_prune_ids_subset(t.skip(1), act, reminder_s);
        let pr = spec_prune(t, act, reminder_s);
        let rest = spec_prune(t.skip(1), act, reminder_s);
        if spec_keep(t[0], act, reminder_s) {
            assert forall|i: int, j: int| 0 <= i < j < pr.len() implies pr[i].id != pr[j].id by {
                if i == 0 {
                    assert(pr[j] == rest[j - 1]);
                    let k = choose|k: int|
                        0 <= k < t.skip(1).len() && t.skip(1)[k] == rest[j - 1];
                    assert(t[k + 1] == pr[j]);
                    assert(t[0].id != t[k + 1].id);
                } else {
                    assert(pr[i] == rest[i - 1] && pr[j] == rest[j - 1]);
                }
            }
        }
    }
}

/// The aggregator's configuration. The second thresholds are bounded so
/// that millisecond conversions stay inside 64 bits.
#[derive(Debug, Clone, Copy)]
pub struct AggregatorConfig {
    /// Seconds of continuous Done before the auto-idle sweep (0 disables).
    pub idle_timeout_s: u64,
    /// Seconds an agent must sit idle before its one reminder (0 disables).
    pub idle_reminder_s: u64,
    /// Minimum working duration for the Working-to-Done rumble, in ms.
    pub done_threshold_ms: u64,
    /// Agents that worked less than this are treated as subagents, in s.
    pub subagent_filter_s: u64,
}

pub open spec fn spec_cfg_wf(cfg: AggregatorConfig) -> bool {
    &&& cfg.idle_timeout_s <= 0xFFFF_FFFF
    &&& cfg.idle_reminder_s <= 0xFFFF_FFFF
    &&& cfg.subagent_filter_s <= 0xFFFF_FFFF
}

/// Milliseconds of the idle-reminder cooldown that follows a fired signal.
pub const REMINDER_COOLDOWN_MS: u64 = 5000;

/// The aggregator: the last published global state, when it changed, the
/// reminder cooldown, and the per-agent tracker.
pub struct Aggregator {
    pub cfg: AggregatorConfig,
    pub last_state: AgentState,
    pub state_changed_at_ms: u64,
    pub reminder_cooldown: Option<u64>,
    pub tracker: Vec<AgentRecord>,
}

/// What one tick decides: the state to publish (when it changed), how many
/// done-rumbles to fire, whether to fire the coalesced idle reminder, and
/// whether to sweep Done files off disk (auto-idle).
#[derive(Debug, Clone, Copy, PartialEq, Eq, Structural)]
pub struct TickOutcome {
    pub publish: Option<AgentState>,
    pub done_rumbles: usize,
    pub idle_reminder: bool,
    pub clean_done_files: bool,
}

/// The states of the active agents, in scan order.
pub open spec fn spec_active_states(act: Seq<ActiveAgentV>) -> Seq<AgentState> {
    act.map_values(|a: ActiveAgentV| a.state)
}

/// The auto-idle condition: the published state has sat at Done for the
/// whole idle timeout.
pub open spec fn spec_auto_idle(agg: Aggregator, now: u64) -> bool {
    &&& agg.cfg.idle_timeout_s > 0
    &&& agg.last_state == AgentState::Done
    &&& spec_elapsed(now, agg.state_changed_at_ms) >= agg.cfg.idle_timeout_s * 1000
}

/// The cooldown is still holding reminders back at `now`.
pub open spec fn spec_in_cooldown(cooldown: Option<u64>, now: u64) -> bool {
    match cooldown {
        Some(cd) => spec_elapsed(now, cd) < REMINDER_COOLDOWN_MS,
        None => false,
    }
}

impl Aggregator {
    /// Tracker ids are distinct and thresholds small enough to convert.
    pub open spec fn wf(self) -> bool {
        &&& spec_ids_unique(spec_tracker_view(self.tracker@))
        &&& spec_cfg_wf(self.cfg)
    }

    /// A fresh aggregator: global state Idle as of `now`, nothing tracked.
    pub fn new(cfg: AggregatorConfig, now_ms: u64) -> (r: Aggregator)
        requires
            spec_cfg_wf(cfg),
        ensures
            r.wf(),
            r.cfg == cfg,
            r.last_state == AgentState::Idle,
            r.state_changed_at_ms == now_ms,
            r.reminder_cooldown is None,
            r.tracker@.len() == 0,
    {
        let r = Aggregator {
            cfg,
            last_state: AgentState::Idle,
            state_changed_at_ms: now_ms,
            reminder_cooldown: None,
            tracker: Vec::new(),
        };
        proof {
            assert(spec_tracker_view(r.tracker@) =~= Seq::<AgentRecordV>::empty());
        }
        r
    }
}

fn find_record(tracker: &Vec<AgentRecord>, id: &Vec<u8>) -> (r: Option<usize>)
    ensures
        match r {
            Some(i) => {
                &&& spec_rec_find(spec_tracker_view(tracker@), id@) == Some(i as int)
                &&& i < tracker@.len()
                &&& spec_tracker_view(tracker@)[i as int].id == id@
            },
            None => spec_rec_find(spec_tracker_view(tracker@), id@) is None,
        },
{
    proof {
        lemma_rec_find_char(spec_tracker_view(tracker@), id@);
    }
    let mut i: usize = 0;
    while i < tracker.len()
        invariant
            i <= tracker.len(),
            forall|k: int| 0 <= k < i ==> spec_tracker_view(tracker@)[k].id != id@,
        decreases tracker.len() - i,
    {
        proof {
            assert(spec_tracker_view(tracker@)[i as int] == tracker@[i as int]@);
        }
        if bytes_eq(tracker[i].id.as_slice(), id.as_slice()) {
            proof {
                assert(spec_tracker_view(tracker@)[i as int] == tracker@[i as int]@);
                lemma_rec_find_char(spec_tracker_view(tracker@), id@);
            }
            return Some(i);
        }
        i += 1;
    }
    None
}

fn active_contains(act: &Vec<ActiveAgent>, id: &Vec<u8>) -> (r: bool)
    ensures
        r == spec_active_contains(spec_agents_view(act@), id@),
{
    let mut i: usize = 0;
    while i < act.len()
        invariant
            i <= act.len(),
            forall|k: int| 0 <= k < i ==> spec_agents_view(act@)[k].id != id@,
        decreases act.len() - i,
    {
        proof {
            assert(spec_agents_view(act@)[i as int] == act@[i as int]@);
        }
        if bytes_eq(act[i].id.as_slice(), id.as_slice()) {
            assert(spec_agents_view(act@)[i as int].id == id@);
            return true;
        }
        i += 1;
    }
    false
}

/// Phase one of a tick: fold the scanned agents into the tracker and count
/// the done-rumbles owed.
fn apply_active(
    tracker: &mut Vec<AgentRecord>,
    act: &Vec<ActiveAgent>,
    now: u64,
    thr_ms: u64,
) -> (rumbles: usize)
    ensures
        (
            spec_tracker_view(final(tracker)@),
            rumbles as int,
        ) == spec_apply_active(spec_tracker_view(old(tracker)@), spec_agents_view(act@), now, thr_ms),
{
    let ghost t0 = spec_tracker_view(old(tracker)@);
    let ghost av = spec_agents_view(act@);
    let mut rumbles: usize = 0;
    let mut i: usize = 0;
    while i < act.len()
        invariant
            i <= act.len(),
            av == spec_agents_view(act@),
            av.len() == act@.len(),
            rumbles <= i,
            (spec_tracker_view(tracker@), rumbles as int) == spec_apply_active(
                t0,
                av.take(i as int),
                now,
                thr_ms,
            ),
        decreases act.len() - i,
    {
        proof {
            lemma_apply_active_snoc(t0, av.take(i as int), av[i as int], now, thr_ms);
            assert(av.take(i as int).push(av[i as int]) =~= av.take(i + 1));
            assert(av[i as int] == act@[i as int]@);
        }
        let e = &act[i];
        let ghost tv = spec_tracker_view(tracker@);
        match find_record(tracker, &e.id) {
            None => {
                tracker.push(
                    AgentRecord {
                        id: clone_bytes(&e.id),
                        state: e.state,
                        since_ms: now,
                        reminder_fired: false,
                    },
                );
                proof {
                    assert(spec_tracker_view(tracker@) =~= spec_apply_one(
                        tv,
                        av[i as int],
                        now,
                        thr_ms,
                    ).0);
                }
            },
            Some(j) => {
                proof {
                    assert(tv[j as int] == tracker@[j as int]@);
                }
                let changed = tracker[j].state != e.state;
                if changed {
                    let was_working = tracker[j].state == AgentState::Working;
                    let worked = elapsed_ms(now, tracker[j].since_ms);
                    if was_working && e.state == AgentState::Done && worked >= thr_ms {
                        rumbles += 1;
                    }
                    tracker.set(
                        j,
                        AgentRecord {
                            id: clone_bytes(&e.id),
                            state: e.state,
                            since_ms: now,
                            reminder_fired: false,
                        },
                    );
                    proof {
                        assert(tracker@[j as int]@ == AgentRecordV {
                            id: e.id@,
                            state: e.state,
                            since_ms: now,
                            reminder_fired: false,
                        });
                        assert(spec_tracker_view(tracker@) =~= spec_apply_one(
                            tv,
                            av[i as int],
                            now,
                            thr_ms,
                        ).0);
                    }
                } else {
                    proof {
                        assert(spec_tracker_view(tracker@) =~= spec_apply_one(
                            tv,
                            av[i as int],
                            now,
                            thr_ms,
                        ).0);
                    }
                }
            },
        }
        i += 1;
    }
    proof {
        assert(av.take(av.len() as int) =~= av);
    }
    rumbles
}

/// Phase two of a tick: transition disappeared agents to Idle in memory,
/// marking short-lived Working agents (subagents) as already reminded.
fn idle_sweep(tracker: &mut Vec<AgentRecord>, act: &Vec<ActiveAgent>, now: u64, filter_ms: u64)
    ensures
        spec_tracker_view(final(tracker)@) == spec_idle_sweep(
            spec_tracker_view(old(tracker)@),
            spec_agents_view(act@),
            now,
            filter_ms,
        ),
{
    let ghost t0 = spec_tracker_view(old(tracker)@);
    let ghost av = spec_agents_view(act@);
    let mut i: usize = 0;
    while i < tracker.len()
        invariant
            i <= tracker.len(),
            av == spec_agents_view(act@),
            tracker@.len() == t0.len(),
            forall|k: int|
                i <= k < t0.len() ==> spec_tracker_view(tracker@)[k] == t0[k],
            forall|k: int|
                0 <= k < i ==> spec_tracker_view(tracker@)[k] == spec_idle_one(
                    t0[k],
                    av,
                    now,
                    filter_ms,
                ),
        decreases tracker.len() - i,
    {
        proof {
            assert(spec_tracker_view(tracker@)[i as int] == tracker@[i as int]@);
            assert(tracker@[i as int]@ == t0[i as int]);
        }
        let is_active = active_contains(act, &tracker[i].id);
        let st = tracker[i].state;
        if !is_active && st != AgentState::Idle {
            let worked = elapsed_ms(now, tracker[i].since_ms);
            let sub = st == AgentState::Working && worked < filter_ms;
            let id = clone_bytes(&tracker[i].id);
            let ghost pre = spec_tracker_view(tracker@);
            tracker.set(
                i,
                AgentRecord { id, state: AgentState::Idle, since_ms: now, reminder_fired: sub },
            );
            proof {
                assert(tracker@[i as int]@ == spec_idle_one(t0[i as int], av, now, filter_ms));
                assert(forall|k: int|
                    0 <= k < t0.len() && k != i ==> spec_tracker_view(tracker@)[k] == pre[k]);
            }
        } else {
            proof {
                assert(spec_tracker_view(tracker@)[i as int] == spec_idle_one(
                    t0[i as int],
                    av,
                    now,
                    filter_ms,
                ));
            }
        }
        i += 1;
    }
    proof {
        assert(spec_tracker_view(tracker@) =~= spec_idle_sweep(t0, av, now, filter_ms));
    }
}

/// Phase three of a tick: mark every due idle reminder as fired; report
/// whether any was due.
fn fire_sweep(tracker: &mut Vec<AgentRecord>, now: u64, reminder_s: u64) -> (fired: bool)
    requires
        reminder_s <= 0xFFFF_FFFF,
    ensures
        spec_tracker_view(final(tracker)@) == spec_fire_sweep(
            spec_tracker_view(old(tracker)@),
            now,
            reminder_s,
        ),
        fired == spec_any_due(spec_tracker_view(old(tracker)@), now, reminder_s),
{
    let ghost t0 = spec_tracker_view(old(tracker)@);
    let mut fired = false;
    let mut i: usize = 0;
    while i < tracker.len()
        invariant
            i <= tracker.len(),
            reminder_s <= 0xFFFF_FFFF,
            tracker@.len() == t0.len(),
            forall|k: int|
                i <= k < t0.len() ==> spec_tracker_view(tracker@)[k] == t0[k],
            forall|k: int|
                0 <= k < i ==> spec_tracker_view(tracker@)[k] == spec_fire_sweep(
                    t0,
                    now,
                    reminder_s,
                )[k],
            fired == exists|k: int| 0 <= k < i && spec_reminder_due(t0[k], now, reminder_s),
        decreases tracker.len() - i,
    {
        proof {
            assert(spec_tracker_view(tracker@)[i as int] == tracker@[i as int]@);
            assert(tracker@[i as int]@ == t0[i as int]);
        }
        let due = reminder_s > 0 && tracker[i].state == AgentState::Idle
            && !tracker[i].reminder_fired && elapsed_ms(now, tracker[i].since_ms) >= reminder_s
            * 1000;
        if due {
            let id = clone_bytes(&tracker[i].id);
            let st = tracker[i].state;
            let since = tracker[i].since_ms;
            let ghost pre = spec_tracker_view(tracker@);
            tracker.set(i, AgentRecord { id, state: st, since_ms: since, reminder_fired: true });
            fired = true;
            proof {
                assert(spec_reminder_due(t0[i as int], now, reminder_s));
                assert(tracker@[i as int]@ == spec_fire_sweep(t0, now, reminder_s)[i as int]);
                assert(forall|k: int|
                    0 <= k < t0.len() && k != i ==> spec_tracker_view(tracker@)[k] == pre[k]);
            }
        } else {
            proof {
                assert(!spec_reminder_due(t0[i as int], now, reminder_s));
                assert(spec_tracker_view(tracker@)[i as int] == spec_fire_sweep(
                    t0,
                    now,
                    reminder_s,
                )[i as int]);
            }
        }
        i += 1;
    }
    proof {
        assert(spec_tracker_view(tracker@) =~= spec_fire_sweep(t0, now, reminder_s));
    }
    fired
}

/// Phase four of a tick: drop records that are neither active nor waiting
/// to remind.
fn prune(tracker: &mut Vec<AgentRecord>, act: &Vec<ActiveAgent>, reminder_s: u64)
    ensures
        spec_tracker_view(final(tracker)@) == spec_prune(
            spec_tracker_view(old(tracker)@),
            spec_agents_view(act@),
            reminder_s,
        ),
{
    let ghost t0 = spec_tracker_view(old(tracker)@);
    let ghost av = spec_agents_view(act@);
    let mut kept: Vec<AgentRecord> = Vec::new();
    let mut i: usize = 0;
    while i < tracker.len()
        invariant
            i <= tracker.len(),
            av == spec_agents_view(act@),
            t0 == spec_tracker_view(tracker@),
            spec_tracker_view(kept@) == spec_prune(t0.take(i as int), av, reminder_s),
        decreases tracker.len() - i,
    {
        proof {
            lemma_prune_snoc(t0.take(i as int), t0[i as int], av, reminder_s);
            assert(t0.take(i as int).push(t0[i as int]) =~= t0.take(i + 1));
        }
        proof {
            assert(spec_tracker_view(tracker@)[i as int] == tracker@[i as int]@);
        }
        let is_active = active_contains(act, &tracker[i].id);
        let keep = is_active || (reminder_s > 0 && tracker[i].state == AgentState::Idle
            && !tracker[i].reminder_fired);
        if keep {
            let r = &tracker[i];
            kept.push(
                AgentRecord {
                    id: clone_bytes(&r.id),
                    state: r.state,
                    since_ms: r.since_ms,
                    reminder_fired: r.reminder_fired,
                },
            );
            proof {
                assert(spec_tracker_view(kept@) =~= spec_prune(t0.take(i + 1), av, reminder_s));
            }
        } else {
            proof {
                assert(spec_tracker_view(kept@) =~= spec_prune(t0.take(i + 1), av, reminder_s));
            }
        }
        i += 1;
    }
    proof {
        assert(t0.take(t0.len() as int) =~= t0);
    }
    *tracker = kept;
}

impl Aggregator {
    /// One aggregator tick over the scanned active agents at time `now_ms`.
    ///
    /// If the published state has sat at Done for the idle timeout, the
    /// tick publishes Idle, asks the caller to sweep Done files off disk,
    /// and leaves the tracker alone. Otherwise it publishes the priority
    /// aggregate when it changed, folds the scan into the per-agent
    /// tracker (counting Working-to-Done rumbles), idles disappeared
    /// agents (filtering subagents), fires at most one coalesced idle
    /// reminder outside the cooldown, and prunes settled records.
    pub fn tick(&mut self, now_ms: u64, active: &Vec<ActiveAgent>) -> (r: TickOutcome)
        requires
            old(self).wf(),
            spec_active_ids_unique(spec_agents_view(active@)),
        ensures
            final(self).wf(),
            final(self).cfg == old(self).cfg,
            ({
                let cfg = old(self).cfg;
                let av = spec_agents_view(active@);
                let t0 = spec_tracker_view(old(self).tracker@);
                if spec_auto_idle(*old(self), now_ms) {
                    &&& r == TickOutcome {
                        publish: Some(AgentState::Idle),
                        done_rumbles: 0,
                        idle_reminder: false,
                        clean_done_files: true,
                    }
                    &&& final(self).last_state == AgentState::Idle
                    &&& final(self).state_changed_at_ms == now_ms
                    &&& final(self).reminder_cooldown == old(self).reminder_cooldown
                    &&& final(self).tracker@ == old(self).tracker@
                } else {
                    let agg = spec_aggregate(spec_active_states(av));
                    let changed = agg != old(self).last_state;
                    let (t1, rumbles) = spec_apply_active(t0, av, now_ms, cfg.done_threshold_ms);
                    let t2 = spec_idle_sweep(t1, av, now_ms, (cfg.subagent_filter_s * 1000) as u64);
                    let in_cd = spec_in_cooldown(old(self).reminder_cooldown, now_ms);
                    let fired = !in_cd && spec_any_due(t2, now_ms, cfg.idle_reminder_s);
                    let t3 = if in_cd {
                        t2
                    } else {
                        spec_fire_sweep(t2, now_ms, cfg.idle_reminder_s)
                    };
                    &&& r.publish == (if changed {
                        Some(agg)
                    } else {
                        None::<AgentState>
                    })
                    &&& r.done_rumbles as int == rumbles
                    &&& r.idle_reminder == fired
                    &&& !r.clean_done_files
                    &&& final(self).last_state == agg
                    &&& final(self).state_changed_at_ms == (if changed {
                        now_ms
                    } else {
                        old(self).state_changed_at_ms
                    })
                    &&& final(self).reminder_cooldown == (if in_cd {
                        old(self).reminder_cooldown
                    } else if fired {
                        Some(now_ms)
                    } else {
                        None::<u64>
                    })
                    &&& spec_tracker_view(final(self).tracker@) == spec_prune(
                        t3,
                        av,
                        cfg.idle_reminder_s,
                    )
                }
            }),
    {
        let ghost av = spec_agents_view(active@);
        let ghost t0 = spec_tracker_view(self.tracker@);
        // Auto-idle: Done has held long enough; sweep and publish Idle.
        if self.cfg.idle_timeout_s > 0 && self.last_state == AgentState::Done && elapsed_ms(
            now_ms,
            self.state_changed_at_ms,
        ) >= self.cfg.idle_timeout_s * 1000 {
            self.last_state = AgentState::Idle;
            self.state_changed_at_ms = now_ms;
            return TickOutcome {
                publish: Some(AgentState::Idle),
                done_rumbles: 0,
                idle_reminder: false,
                clean_done_files: true,
            };
        }
        // Publish the aggregate when it changed.
        let mut states: Vec<AgentState> = Vec::new();
        let mut i: usize = 0;
        while i < active.len()
            invariant
                i <= active.len(),
                av == spec_agents_view(active@),
                states@ =~= spec_active_states(av).take(i as int),
            decreases active.len() - i,
        {
            states.push(active[i].state);
            proof {
                assert(states@ =~= spec_active_states(av).take(i + 1));
            }
            i += 1;
        }
        proof {
            assert(spec_active_states(av).take(av.len() as int) =~= spec_active_states(av));
        }
        let agg = aggregate_states(&states);
        let changed = agg != self.last_state;
        if changed {
            self.last_state = agg;
            self.state_changed_at_ms = now_ms;
        }
        // Resolve the reminder cooldown.
        let in_cd = match self.reminder_cooldown {
            Some(cd) => elapsed_ms(now_ms, cd) < REMINDER_COOLDOWN_MS,
            None => false,
        };
        // Fold the scan into the tracker, idle the disappeared, remind, prune.
        let rumbles = apply_active(
            &mut self.tracker,
            active,
            now_ms,
            self.cfg.done_threshold_ms,
        );
        idle_sweep(&mut self.tracker, active, now_ms, self.cfg.subagent_filter_s * 1000);
        let fired = if in_cd {
            false
        } else {
            fire_sweep(&mut self.tracker, now_ms, self.cfg.idle_reminder_s)
        };
        if !in_cd {
            self.reminder_cooldown = if fired {
                Some(now_ms)
            } else {
                None
            };
        }
        prune(&mut self.tracker, active, self.cfg.idle_reminder_s);
        proof {
            let (t1, _n) = spec_apply_active(t0, av, now_ms, self.cfg.done_threshold_ms);
            let t2 = spec_idle_sweep(t1, av, now_ms, (self.cfg.subagent_filter_s * 1000) as u64);
            let t3 = if spec_in_cooldown(old(self).reminder_cooldown, now_ms) {
                t2
            } else {
                spec_fire_sweep(t2, now_ms, self.cfg.idle_reminder_s)
            };
            lemma_tick_unique(t0, av, now_ms, self.cfg);
            lemma_prune_unique(t3, av, self.cfg.idle_reminder_s);
        }
        TickOutcome {
            publish: if changed {
                Some(agg)
            } else {
                None
            },
            done_rumbles: rumbles,
            idle_reminder: fired,
            clean_done_files: false,
        }
    }
}

/// Applying a scan preserves id-uniqueness of the tracker.
proof fn lemma_apply_one_unique(t: Seq<AgentRecordV>, e: ActiveAgentV, now: u64, thr: u64)
    requires
        spec_ids_unique(t),
    ensures
        spec_ids_unique(spec_apply_one(t, e, now, thr).0),
        spec_apply_one(t, e, now, thr).0.len() >= t.len(),
        forall|k: int|
            0 <= k < t.len() ==> #[trigger] spec_apply_one(t, e, now, thr).0[k].id == t[k].id,
{
    lemma_rec_find_char(t, e.id);
    match spec_rec_find(t, e.id) {
        None => {
            let p = t.push(AgentRecordV { id: e.id, state: e.state, since_ms: now, reminder_fired: false });
            assert forall|i: int, j: int| 0 <= i < j < p.len() implies p[i].id != p[j].id by {
                if j == p.len() - 1 {
                    assert(p[i].id == t[i].id);
                }
            }
        },
        Some(i) => {
            if t[i].state != e.state {
                assert(t[i].id == e.id);
            }
        },
    }
}

proof fn lemma_apply_active_unique(t: Seq<AgentRecordV>, act: Seq<ActiveAgentV>, now: u64, thr: u64)
    requires
        spec_ids_unique(t),
    ensures
        spec_ids_unique(spec_apply_active(t, act, now, thr).0),
    decreases act.len(),
{
    if act.len() > 0 {
        lemma_apply_one_unique(t, act[0], now, thr);
        lemma_apply_active_unique(spec_apply_one(t, act[0], now, thr).0, act.skip(1), now, thr);
    }
}

/// The whole pre-prune pipeline preserves id-uniqueness: the sweeps keep
/// every record's id in place.
proof fn lemma_tick_unique(t0: Seq<AgentRecordV>, av: Seq<ActiveAgentV>, now: u64, cfg: AggregatorConfig)
    requires
        spec_ids_unique(t0),
        spec_cfg_wf(cfg),
    ensures
        ({
            let (t1, _n) = spec_apply_active(t0, av, now, cfg.done_threshold_ms);
            let t2 = spec_idle_sweep(t1, av, now, (cfg.subagent_filter_s * 1000) as u64);
            spec_ids_unique(t2) && spec_ids_unique(spec_fire_sweep(t2, now, cfg.idle_reminder_s))
        }),
{
    lemma_apply_active_unique(t0, av, now, cfg.done_threshold_ms);
    let (t1, _n) = spec_apply_active(t0, av, now, cfg.done_threshold_ms);
    let t2 = spec_idle_sweep(t1, av, now, (cfg.subagent_filter_s * 1000) as u64);
    assert(forall|k: int| 0 <= k < t2.len() ==> #[trigger] t2[k].id == t1[k].id);
    let t3 = spec_fire_sweep(t2, now, cfg.idle_reminder_s);
    assert(forall|k: int| 0 <= k < t3.len() ==> #[trigger] t3[k].id == t2[k].id);
}

/// A short-lived Working agent that disappears from the scan is filtered
/// as a subagent: the idle sweep flips its record to Idle with the
/// reminder mark already set, the fire sweep never finds it due, and
/// after the tick it is no longer tracked at all, so it can never
/// contribute an idle-reminder signal. (On an auto-idle tick the tracker
/// is left untouched, so no record flips to Idle there at all.)
pub proof fn lemma_subagent_filter(
    agg: Aggregator,
    agg2: Aggregator,
    now: u64,
    act: Seq<ActiveAgentV>,
    i: int,
)
    requires
        agg.wf(),
        !spec_auto_idle(agg, now),
        0 <= i < agg.tracker@.len(),
        ({
            let t0 = spec_tracker_view(agg.tracker@);
            &&& t0[i].state == AgentState::Working
            &&& !spec_active_contains(act, t0[i].id)
            &&& spec_elapsed(now, t0[i].since_ms) < agg.cfg.subagent_filter_s * 1000
        }),
        // the tracker after the tick, as `tick` ensures it
        ({
            let t0 = spec_tracker_view(agg.tracker@);
            let (t1, _n) = spec_apply_active(t0, act, now, agg.cfg.done_threshold_ms);
            let t2 = spec_idle_sweep(t1, act, now, (agg.cfg.subagent_filter_s * 1000) as u64);
            let in_cd = spec_in_cooldown(agg.reminder_cooldown, now);
            let t3 = if in_cd {
                t2
            } else {
                spec_fire_sweep(t2, now, agg.cfg.idle_reminder_s)
            };
            spec_tracker_view(agg2.tracker@) == spec_prune(t3, act, agg.cfg.idle_reminder_s)
        }),
    ensures
        ({
            let t0 = spec_tracker_view(agg.tracker@);
            let (t1, _n) = spec_apply_active(t0, act, now, agg.cfg.done_threshold_ms);
            let t2 = spec_idle_sweep(t1, act, now, (agg.cfg.subagent_filter_s * 1000) as u64);
            let t = spec_tracker_view(agg2.tracker@);
            &&& t2[i].state == AgentState::Idle
            &&& t2[i].reminder_fired
            &&& !spec_reminder_due(t2[i], now, agg.cfg.idle_reminder_s)
            &&& forall|k: int| 0 <= k < t.len() ==> #[trigger] t[k].id != t0[i].id
        }),
{
    let t0 = spec_tracker_view(agg.tracker@);
    let id = t0[i].id;
    let (t1, _n) = spec_apply_active(t0, act, now, agg.cfg.done_threshold_ms);
    let t2 = spec_idle_sweep(t1, act, now, (agg.cfg.subagent_filter_s * 1000) as u64);
    let in_cd = spec_in_cooldown(agg.reminder_cooldown, now);
    let t3 = if in_cd {
        t2
    } else {
        spec_fire_sweep(t2, now, agg.cfg.idle_reminder_s)
    };
    // The record keeps its identity through apply (its agent is inactive),
    // turns Idle-with-fired-mark in the idle sweep, stays fired in the
    // fire sweep, and is then dropped by the prune.
    lemma_apply_inactive_unchanged(t0, act, now, agg.cfg.done_threshold_ms, i);
    assert(t1[i].id == id && t1[i] == t0[i]);
    let r2 = t2[i];
    assert(r2 == spec_idle_one(t1[i], act, now, (agg.cfg.subagent_filter_s * 1000) as u64));
    assert(r2.state == AgentState::Idle && r2.reminder_fired);
    let r3 = t3[i];
    assert(!spec_reminder_due(t2[i], now, agg.cfg.idle_reminder_s));
    assert(r3 == r2);
    assert(!spec_keep(r3, act, agg.cfg.idle_reminder_s));
    // ids unique before the prune, so no other record carries this id
    lemma_tick_unique(t0, act, now, agg.cfg);
    lemma_apply_active_unique(t0, act, now, agg.cfg.done_threshold_ms);
    assert forall|k: int| 0 <= k < t3.len() && k != i implies #[trigger] t3[k].id != id by {
        assert(t3[k].id == t2[k].id && t2[k].id == t1[k].id);
        assert(t3[i].id == id);
        assert(spec_ids_unique(t2));
    }
    lemma_prune_ids_subset(t3, act, agg.cfg.idle_reminder_s);
    let pruned = spec_prune(t3, act, agg.cfg.idle_reminder_s);
    assert forall|k: int| 0 <= k < pruned.len() implies #[trigger] pruned[k].id != id by {
        let j = choose|j: int| 0 <= j < t3.len() && t3[j] == pruned[k];
        if j == i {
            assert(pruned[k] == r3);
            lemma_prune_excludes(t3, act, agg.cfg.idle_reminder_s, r3);
            assert(false);
        }
    }
}

/// A record whose agent is not in the scan keeps its place and value
/// through the apply phase.
proof fn lemma_apply_inactive_unchanged(
    t: Seq<AgentRecordV>,
    act: Seq<ActiveAgentV>,
    now: u64,
    thr: u64,
    i: int,
)
    requires
        spec_ids_unique(t),
        0 <= i < t.len(),
        !spec_active_contains(act, t[i].id),
    ensures
        spec_apply_active(t, act, now, thr).0.len() >= t.len(),
        spec_apply_active(t, act, now, thr).0[i] == t[i],
        spec_ids_unique(spec_apply_active(t, act, now, thr).0),
    decreases act.len(),
{
    if act.len() > 0 {
        lemma_apply_one_unique(t, act[0], now, thr);
        let (t1, _n1) = spec_apply_one(t, act[0], now, thr);
        lemma_rec_find_char(t, act[0].id);
        assert(act[0].id != t[i].id);
        assert(t1[i] == t[i]);
        assert(!spec_active_contains(act.skip(1), t1[i].id));
        lemma_apply_inactive_unchanged(t1, act.skip(1), now, thr, i);
    }
}

/// A record the keep predicate rejects does not appear in the prune's
/// result.
proof fn lemma_prune_excludes(
    t: Seq<AgentRecordV>,
    act: Seq<ActiveAgentV>,
    reminder_s: u64,
    r: AgentRecordV,
)
    requires
        !spec_keep(r, act, reminder_s),
    ensures
        forall|k: int|
            0 <= k < spec_prune(t, act, reminder_s).len() ==> #[trigger] spec_prune(
                t,
                act,
                reminder_s,
            )[k] != r,
    decreases t.len(),
{
    if t.len() > 0 {
        lemma_prune_excludes(t.skip(1), act, reminder_s, r);
        let pr = spec_prune(t, act, reminder_s);
        let rest = spec_prune(t.skip(1), act, reminder_s);
        assert forall|k: int| 0 <= k < pr.len() implies #[trigger] pr[k] != r by {
            if spec_keep(t[0], act, reminder_s) {
                if k > 0 {
                    assert(pr[k] == rest[k - 1]);
                }
            } else {
                assert(pr[k] == rest[k]);
            }
        }
    }
}

} // verus!
