//! The events of the event bus as the panels read them, and the filters over
//! them: topic, level and keyword, with the list each panel shows.
use vstd::prelude::*;
use crate::panels::task_manager::positions;
use crate::text::{
    chars_contain, chars_of, dec, contains_seq, join, lowercase, push_line, push_str, string_of, to_lowercase, tone_views,
    views, LineTone, ToneLine,
};

verus! {

/// The event variants the panels tell apart, with the fields they read.
#[derive(Debug, Clone, PartialEq)]
pub enum EventKind {
    QuestCreated { quest_id: String, title: String },
    QuestProgressUpdated,
    QuestListUpdated,
    QuestCompleted,
    ThinkingModeSwitched,
    CheckpointSaved,
    CheckpointLoaded,
    ModelRouteSelected,
    VoteCast { proposal_id: String, voter: String, vote: bool },
    ConsensusReached { quest_id: String, decision_hash: String },
    DebateStarted { quest_id: String, proposal_id: String },
    RoleRegistered,
    SkepticVeto { quest_id: String, veto_reason: String },
    VetoOverridden { quest_id: String, proposal_id: String, override_reason: String },
    /// `detection` is the detection rate as the percent summary shows it.
    RedTeamAudit { vulnerability_type: String, detection: String, remediation_suggestion: String },
    AhirtProbeCompleted { probe_type: String, total: u64, failed: u64 },
    AsaIntervention { operation_id: String, action: String, block_reason: Option<String> },
    BudgetExceeded,
    BudgetAdjusted,
    BudgetStatsReported,
    BudgetMetricsUpdated,
    MemoryMetricsReported,
    MemoryTiered,
    ContextWindowSwitched,
    ContextCompressed,
    CacheHit { cache_key: String },
    CacheMiss { cache_key: String },
    CacheStatsReported,
    CachePrefetched,
    CapabilityFrozen,
    SandboxViolation,
    SlowConsumerDropped,
    McpMeshTransactionCompleted,
    EfficiencyAlertTriggered,
    NexusStateChanged,
    UserIntentEncoded,
    McpMessageReceived,
    CsnSubstitutionTriggered,
    OrphanCallDetected,
    OperationTimedOut,
    GatherTimedOut,
    OverWindowFallbackTriggered { corpus_tokens: u64, effective_window: u64, candidate_count: u32, loaded_count: u32 },
    /// The scores of the report are read by the application; the panels read the count.
    HarnessReportGenerated { findings_count: u64 },
    AuditFindingRaised { finding_severity: String, message: String, evidence_kind: String },
    /// Any other variant.
    Other,
}

/// One event of the stream.
#[derive(Debug, Clone, PartialEq)]
pub struct EventView {
    pub kind: EventKind,
    /// The name of the event variant.
    pub variant: String,
    /// The component that published the event.
    pub source: String,
    /// Publication time, in milliseconds since the epoch.
    pub timestamp_ms: i64,
    /// Whether the event's severity is critical.
    pub critical: bool,
    /// The event serialised as JSON, when serialisation succeeded.
    pub json: Option<String>,
}

/// The three filters of the event lists; `None` lets every event through.
#[derive(Debug, Clone, PartialEq)]
pub struct EventFilter {
    pub keyword: Option<String>,
    pub topic: Option<String>,
    pub level: Option<String>,
}

/// Whether an event of kind `k` belongs to the (lower-cased) topic `topic`;
/// an unknown topic takes every event.
pub open spec fn in_topic(k: EventKind, topic: Seq<char>) -> bool {
    if topic == "quest"@ {
        k is QuestCreated || k is QuestProgressUpdated || k is QuestListUpdated || k is QuestCompleted
            || k is ThinkingModeSwitched || k is CheckpointSaved || k is CheckpointLoaded
            || k is ModelRouteSelected
    } else if topic == "parliament"@ {
        k is VoteCast || k is ConsensusReached || k is DebateStarted || k is RoleRegistered
            || k is SkepticVeto || k is VetoOverridden || k is RedTeamAudit || k is AhirtProbeCompleted
    } else if topic == "budget"@ {
        k is BudgetExceeded || k is BudgetAdjusted || k is BudgetStatsReported || k is BudgetMetricsUpdated
    } else if topic == "memory"@ {
        k is MemoryMetricsReported || k is MemoryTiered || k is ContextWindowSwitched
            || k is ContextCompressed || k is CacheHit || k is CacheMiss || k is CacheStatsReported
            || k is CachePrefetched
    } else if topic == "security"@ {
        k is CapabilityFrozen || k is SandboxViolation || k is SkepticVeto || k is VetoOverridden
            || k is RedTeamAudit || k is AsaIntervention
    } else if topic == "health"@ {
        k is SlowConsumerDropped || k is McpMeshTransactionCompleted || k is EfficiencyAlertTriggered
    } else if topic == "system"@ {
        k is NexusStateChanged || k is UserIntentEncoded || k is McpMessageReceived
            || k is CsnSubstitutionTriggered || k is OrphanCallDetected || k is SlowConsumerDropped
    } else {
        true
    }
}

/// Severity rank of an event: 3 critical, 2 error, 1 warning, 0 information.
pub open spec fn severity_rank(e: EventView) -> int {
    if e.critical {
        3
    } else {
        match e.kind {
            EventKind::BudgetExceeded | EventKind::OperationTimedOut | EventKind::GatherTimedOut
            | EventKind::SandboxViolation | EventKind::OrphanCallDetected => 2,
            EventKind::AsaIntervention { action, .. } => if action@ != "Block"@ {
                1
            } else {
                0
            },
            EventKind::BudgetAdjusted | EventKind::CapabilityFrozen | EventKind::SlowConsumerDropped
            | EventKind::EfficiencyAlertTriggered => 1,
            _ => 0,
        }
    }
}

/// Whether an event reaches the (lower-cased) level `level`; an unknown level
/// takes every event.
pub open spec fn at_level(e: EventView, level: Seq<char>) -> bool {
    if level == "info"@ {
        true
    } else if level == "warn"@ {
        severity_rank(e) >= 1
    } else if level == "error"@ {
        severity_rank(e) >= 2
    } else if level == "critical"@ {
        e.critical
    } else {
        true
    }
}

/// The searchable pieces of an event: its type name, its source, and its JSON form when it has one.
pub open spec fn search_pieces(e: EventView) -> Seq<Seq<char>> {
    match e.json {
        Some(j) => seq![e.variant@, e.source@, j@],
        None => seq![e.variant@, e.source@],
    }
}

/// Whether the lower-cased search text of the event (its pieces joined by
/// spaces) contains the lower-cased keyword.
pub open spec fn keyword_in_text(e: EventView, kw: Seq<char>) -> bool {
    contains_seq(lowercase(join(search_pieces(e), " "@)), lowercase(kw))
}

/// Whether the lower-cased `s` contains `kw_lower`.
pub open spec fn hit(s: Seq<char>, kw_lower: Seq<char>) -> bool {
    contains_seq(lowercase(s), kw_lower)
}

/// The keyword test on the business fields of the frequent variants (cache
/// hits and misses, quest creation, votes), `None` for the other variants.
pub open spec fn keyword_hit_fast(e: EventView, kw: Seq<char>) -> Option<bool> {
    let k = lowercase(kw);
    match e.kind {
        EventKind::CacheHit { cache_key } => Some(
            hit(e.variant@, k) || hit(e.source@, k) || hit(cache_key@, k),
        ),
        EventKind::CacheMiss { cache_key } => Some(
            hit(e.variant@, k) || hit(e.source@, k) || hit(cache_key@, k),
        ),
        EventKind::QuestCreated { quest_id, title } => Some(
            hit(e.variant@, k) || hit(e.source@, k) || hit(quest_id@, k) || hit(title@, k),
        ),
        EventKind::VoteCast { proposal_id, voter, .. } => Some(
            hit(e.variant@, k) || hit(e.source@, k) || hit(proposal_id@, k) || hit(voter@, k),
        ),
        _ => None,
    }
}

/// The keyword test: with `fast`, the field test where a variant has one and
/// the search text otherwise; without, always the search text.
pub open spec fn keyword_ok(e: EventView, kw: Seq<char>, fast: bool) -> bool {
    if fast {
        match keyword_hit_fast(e, kw) {
            Some(h) => h,
            None => keyword_in_text(e, kw),
        }
    } else {
        keyword_in_text(e, kw)
    }
}

/// Whether an event passes all three filters (topic and level compared lower-cased).
pub open spec fn passes(e: EventView, f: EventFilter, fast: bool) -> bool {
    &&& match f.topic {
        Some(t) => in_topic(e.kind, lowercase(t@)),
        None => true,
    }
    &&& match f.level {
        Some(l) => at_level(e, lowercase(l@)),
        None => true,
    }
    &&& match f.keyword {
        Some(k) => keyword_ok(e, k@, fast),
        None => true,
    }
}

/// Positions, oldest first, of the events among the first `n` that pass.
pub open spec fn passing_upto(events: Seq<EventView>, f: EventFilter, fast: bool, n: int) -> Seq<int>
    decreases n,
{
    if n <= 0 {
        Seq::empty()
    } else {
        let r = passing_upto(events, f, fast, n - 1);
        if passes(events[n - 1], f, fast) {
            r.push(n - 1)
        } else {
            r
        }
    }
}

/// Positions, newest first, of the events among the first `n` that pass.
pub open spec fn passing_newest_first(events: Seq<EventView>, f: EventFilter, fast: bool, n: int) -> Seq<int>
    decreases n,
{
    if n <= 0 {
        Seq::empty()
    } else {
        let rest = passing_newest_first(events, f, fast, n - 1);
        if passes(events[n - 1], f, fast) {
            seq![n - 1] + rest
        } else {
            rest
        }
    }
}

/// The events the event stream lists: those passing the filters (keyword on
/// the search text), oldest first.
pub open spec fn stream_positions(events: Seq<EventView>, f: EventFilter) -> Seq<int> {
    passing_upto(events, f, false, events.len() as int)
}

/// The events the log lists: those passing the filters (keyword on the fields
/// of the frequent variants), newest first.
pub open spec fn log_positions(events: Seq<EventView>, f: EventFilter) -> Seq<int> {
    passing_newest_first(events, f, true, events.len() as int)
}

/// The topic table: which kinds of event each topic shows. Any other topic
/// shows every event.
pub proof fn lemma_topic_table(k: EventKind)
    ensures
        in_topic(k, "quest"@) <==> (k is QuestCreated || k is QuestProgressUpdated || k is QuestListUpdated
            || k is QuestCompleted || k is ThinkingModeSwitched || k is CheckpointSaved || k is CheckpointLoaded
            || k is ModelRouteSelected),
        in_topic(k, "parliament"@) <==> (k is VoteCast || k is ConsensusReached || k is DebateStarted
            || k is RoleRegistered || k is SkepticVeto || k is VetoOverridden || k is RedTeamAudit
            || k is AhirtProbeCompleted),
        in_topic(k, "budget"@) <==> (k is BudgetExceeded || k is BudgetAdjusted || k is BudgetStatsReported
            || k is BudgetMetricsUpdated),
        in_topic(k, "memory"@) <==> (k is MemoryMetricsReported || k is MemoryTiered || k is ContextWindowSwitched
            || k is ContextCompressed || k is CacheHit || k is CacheMiss || k is CacheStatsReported
            || k is CachePrefetched),
        in_topic(k, "security"@) <==> (k is CapabilityFrozen || k is SandboxViolation || k is SkepticVeto
            || k is VetoOverridden || k is RedTeamAudit || k is AsaIntervention),
        in_topic(k, "health"@) <==> (k is SlowConsumerDropped || k is McpMeshTransactionCompleted
            || k is EfficiencyAlertTriggered),
        in_topic(k, "system"@) <==> (k is NexusStateChanged || k is UserIntentEncoded || k is McpMessageReceived
            || k is CsnSubstitutionTriggered || k is OrphanCallDetected || k is SlowConsumerDropped),
        in_topic(k, "all"@),
{
    reveal_strlit("quest");
    reveal_strlit("parliament");
    reveal_strlit("budget");
    reveal_strlit("memory");
    reveal_strlit("security");
    reveal_strlit("health");
    reveal_strlit("system");
    reveal_strlit("all");
    assert("parliament"@.len() != "quest"@.len());
    assert("budget"@.len() != "quest"@.len());
    assert("budget"@.len() != "parliament"@.len());
    assert("memory"@.len() != "quest"@.len());
    assert("memory"@.len() != "parliament"@.len());
    assert("memory"@[0] != "budget"@[0]);
    assert("security"@.len() != "quest"@.len());
    assert("security"@.len() != "parliament"@.len());
    assert("security"@.len() != "budget"@.len());
    assert("security"@.len() != "memory"@.len());
    assert("health"@.len() != "quest"@.len());
    assert("health"@.len() != "parliament"@.len());
    assert("health"@[0] != "budget"@[0]);
    assert("health"@[0] != "memory"@[0]);
    assert("health"@.len() != "security"@.len());
    assert("system"@.len() != "quest"@.len());
    assert("system"@.len() != "parliament"@.len());
    assert("system"@[0] != "budget"@[0]);
    assert("system"@[0] != "memory"@[0]);
    assert("system"@.len() != "security"@.len());
    assert("system"@[0] != "health"@[0]);
    assert("all"@.len() != "quest"@.len());
    assert("all"@.len() != "parliament"@.len());
    assert("all"@.len() != "budget"@.len());
    assert("all"@.len() != "memory"@.len());
    assert("all"@.len() != "security"@.len());
    assert("all"@.len() != "health"@.len());
    assert("all"@.len() != "system"@.len());
}

/// The first `n` events' passing positions are exactly the positions below `n`
/// whose event passes, in increasing order.
proof fn lemma_passing_upto_members(events: Seq<EventView>, f: EventFilter, fast: bool, n: int)
    ensures
        forall|x: int| #[trigger] passing_upto(events, f, fast, n).contains(x) <==> (0 <= x < n && passes(events[x], f, fast)),
        forall|a: int, b: int|
            0 <= a < b < passing_upto(events, f, fast, n).len() ==> passing_upto(events, f, fast, n)[a]
                < passing_upto(events, f, fast, n)[b],
        forall|a: int| 0 <= a < passing_upto(events, f, fast, n).len() ==> passing_upto(events, f, fast, n)[a] < n,
    decreases n,
{
    if n > 0 {
        lemma_passing_upto_members(events, f, fast, n - 1);
        let r = passing_upto(events, f, fast, n - 1);
        if passes(events[n - 1], f, fast) {
            assert forall|x: int| #[trigger] r.push(n - 1).contains(x) <==> (0 <= x < n && passes(events[x], f, fast)) by {
                if x == n - 1 {
                    assert(r.push(n - 1)[r.len() as int] == x);
                }
                if r.push(n - 1).contains(x) && x != n - 1 {
                    let w = choose|w: int| 0 <= w < r.push(n - 1).len() && #[trigger] r.push(n - 1)[w] == x;
                    assert(r[w] == x);
                    assert(r.contains(x));
                }
                if r.contains(x) {
                    let w = choose|w: int| 0 <= w < r.len() && #[trigger] r[w] == x;
                    assert(r.push(n - 1)[w] == x);
                }
            }
        }
    }
}

/// With only a topic filter `t`, the event stream lists exactly the events
/// whose kind the topic (lower-cased) shows, oldest first; see
/// [`lemma_topic_table`] for what each topic shows.
pub proof fn lemma_stream_topic_filter(events: Seq<EventView>, t: String, f: EventFilter)
    requires
        f.topic == Some(t),
        f.level is None,
        f.keyword is None,
    ensures
        forall|i: int|
            #[trigger] stream_positions(events, f).contains(i) <==> (0 <= i < events.len() && in_topic(
                events[i].kind,
                lowercase(t@),
            )),
        forall|a: int, b: int|
            0 <= a < b < stream_positions(events, f).len() ==> stream_positions(events, f)[a] < stream_positions(
                events,
                f,
            )[b],
{
    lemma_passing_upto_members(events, f, false, events.len() as int);
}

/// With only the topic filter `budget`, the event stream lists exactly the
/// budget events: exceeded, adjusted, stats reported and metrics updated.
pub proof fn lemma_stream_budget_topic(events: Seq<EventView>, t: String, f: EventFilter)
    requires
        f.topic == Some(t),
        lowercase(t@) == "budget"@,
        f.level is None,
        f.keyword is None,
    ensures
        forall|i: int|
            #[trigger] stream_positions(events, f).contains(i) <==> (0 <= i < events.len() && (
            events[i].kind is BudgetExceeded || events[i].kind is BudgetAdjusted
                || events[i].kind is BudgetStatsReported || events[i].kind is BudgetMetricsUpdated)),
{
    lemma_stream_topic_filter(events, t, f);
    assert forall|i: int| 0 <= i < events.len() implies in_topic(events[i].kind, lowercase(t@)) <==> (
    events[i].kind is BudgetExceeded || events[i].kind is BudgetAdjusted || events[i].kind is BudgetStatsReported
        || events[i].kind is BudgetMetricsUpdated) by {
        lemma_topic_table(events[i].kind);
    }
}

/// Without a keyword filter the log lists exactly the events the event
/// stream lists, newest first instead of oldest first.
pub proof fn lemma_log_reverses_stream(events: Seq<EventView>, f: EventFilter)
    requires
        f.keyword is None,
    ensures
        log_positions(events, f) == stream_positions(events, f).reverse(),
{
    lemma_newest_first_is_reverse(events, f, events.len() as int);
}

/// Without a keyword filter, the newest-first positions among the first `n`
/// events are the oldest-first ones reversed.
proof fn lemma_newest_first_is_reverse(events: Seq<EventView>, f: EventFilter, n: int)
    requires
        f.keyword is None,
    ensures
        passing_newest_first(events, f, true, n) == passing_upto(events, f, false, n).reverse(),
    decreases n,
{
    if n > 0 {
        lemma_newest_first_is_reverse(events, f, n - 1);
        let up = passing_upto(events, f, false, n - 1);
        assert(passes(events[n - 1], f, true) == passes(events[n - 1], f, false));
        if passes(events[n - 1], f, false) {
            assert(up.push(n - 1).reverse() =~= seq![n - 1] + up.reverse());
        }
    } else {
        assert(Seq::<int>::empty().reverse() =~= Seq::<int>::empty());
    }
}

/// Whether `a` equals the literal `lit`.
fn str_is(a: &str, lit: &str) -> (r: bool)
    ensures
        r == (a@ == lit@),
{
    let x = string_of(a);
    let y = string_of(lit);
    x == y
}

/// Whether an event of kind `k` belongs to the topic `topic` (compared lower-cased).
pub fn event_matches_topic(k: &EventKind, topic: &str) -> (r: bool)
    ensures
        r == in_topic(*k, lowercase(topic@)),
{
    let t = to_lowercase(topic);
    let t = t.as_str();
    if str_is(t, "quest") {
        match k {
            EventKind::QuestCreated { .. } | EventKind::QuestProgressUpdated | EventKind::QuestListUpdated
            | EventKind::QuestCompleted | EventKind::ThinkingModeSwitched | EventKind::CheckpointSaved
            | EventKind::CheckpointLoaded | EventKind::ModelRouteSelected => true,
            _ => false,
        }
    } else if str_is(t, "parliament") {
        match k {
            EventKind::VoteCast { .. } | EventKind::ConsensusReached { .. } | EventKind::DebateStarted { .. }
            | EventKind::RoleRegistered | EventKind::SkepticVeto { .. } | EventKind::VetoOverridden { .. }
            | EventKind::RedTeamAudit { .. } | EventKind::AhirtProbeCompleted { .. } => true,
            _ => false,
        }
    } else if str_is(t, "budget") {
        match k {
            EventKind::BudgetExceeded | EventKind::BudgetAdjusted | EventKind::BudgetStatsReported
            | EventKind::BudgetMetricsUpdated => true,
            _ => false,
        }
    } else if str_is(t, "memory") {
        match k {
            EventKind::MemoryMetricsReported | EventKind::MemoryTiered | EventKind::ContextWindowSwitched
            | EventKind::ContextCompressed | EventKind::CacheHit { .. } | EventKind::CacheMiss { .. }
            | EventKind::CacheStatsReported | EventKind::CachePrefetched => true,
            _ => false,
        }
    } else if str_is(t, "security") {
        match k {
            EventKind::CapabilityFrozen | EventKind::SandboxViolation | EventKind::SkepticVeto { .. }
            | EventKind::VetoOverridden { .. } | EventKind::RedTeamAudit { .. }
            | EventKind::AsaIntervention { .. } => true,
            _ => false,
        }
    } else if str_is(t, "health") {
        match k {
            EventKind::SlowConsumerDropped | EventKind::McpMeshTransactionCompleted
            | EventKind::EfficiencyAlertTriggered => true,
            _ => false,
        }
    } else if str_is(t, "system") {
        match k {
            EventKind::NexusStateChanged | EventKind::UserIntentEncoded | EventKind::McpMessageReceived
            | EventKind::CsnSubstitutionTriggered | EventKind::OrphanCallDetected
            | EventKind::SlowConsumerDropped => true,
            _ => false,
        }
    } else {
        true
    }
}

/// The severity rank of an event: 3 critical, 2 error, 1 warning, 0 information.
pub fn event_severity_rank(e: &EventView) -> (r: u8)
    ensures
        r as int == severity_rank(*e),
{
    if e.critical {
        return 3;
    }
    match &e.kind {
        EventKind::BudgetExceeded | EventKind::OperationTimedOut | EventKind::GatherTimedOut
        | EventKind::SandboxViolation | EventKind::OrphanCallDetected => 2,
        EventKind::AsaIntervention { action, .. } => if str_is(action.as_str(), "Block") {
            0
        } else {
            1
        },
        EventKind::BudgetAdjusted | EventKind::CapabilityFrozen | EventKind::SlowConsumerDropped
        | EventKind::EfficiencyAlertTriggered => 1,
        _ => 0,
    }
}

/// Whether an event reaches the level `level` (compared lower-cased).
pub fn event_matches_level(e: &EventView, level: &str) -> (r: bool)
    ensures
        r == at_level(*e, lowercase(level@)),
{
    let l = to_lowercase(level);
    let l = l.as_str();
    if str_is(l, "info") {
        true
    } else if str_is(l, "warn") {
        event_severity_rank(e) >= 1
    } else if str_is(l, "error") {
        event_severity_rank(e) >= 2
    } else if str_is(l, "critical") {
        e.critical
    } else {
        true
    }
}

/// The search text of an event: type name, source and JSON form joined by spaces.
pub fn event_search_text(e: &EventView) -> (r: String)
    ensures
        r@ == join(search_pieces(*e), " "@),
{
    let mut parts: Vec<String> = Vec::new();
    parts.push(e.variant.clone());
    parts.push(e.source.clone());
    match &e.json {
        Some(j) => parts.push(j.clone()),
        None => {},
    }
    proof {
        assert(views(parts@) =~= search_pieces(*e));
    }
    crate::text::join_strings(&parts, " ")
}

/// Whether the lower-cased search text of the event contains the lower-cased keyword.
pub fn event_keyword_in_text(e: &EventView, keyword: &str) -> (r: bool)
    ensures
        r == keyword_in_text(*e, keyword@),
{
    let kw = to_lowercase(keyword);
    let hay = to_lowercase(event_search_text(e).as_str());
    chars_contain(&chars_of(hay.as_str()), &chars_of(kw.as_str()))
}

/// Whether the lower-cased `s` contains the characters `kw_lower`.
fn hits(s: &str, kw_lower: &Vec<char>) -> (r: bool)
    ensures
        r == hit(s@, kw_lower@),
{
    let l = to_lowercase(s);
    chars_contain(&chars_of(l.as_str()), kw_lower)
}

/// The keyword test on the business fields of cache hits and misses, quest
/// creations and votes; `None` for the other variants.
pub fn event_keyword_hit_fast(e: &EventView, keyword: &str) -> (r: Option<bool>)
    ensures
        r == keyword_hit_fast(*e, keyword@),
{
    let kw = to_lowercase(keyword);
    let k = chars_of(kw.as_str());
    match &e.kind {
        EventKind::CacheHit { cache_key } | EventKind::CacheMiss { cache_key } => Some(
            hits(e.variant.as_str(), &k) || hits(e.source.as_str(), &k) || hits(cache_key.as_str(), &k),
        ),
        EventKind::QuestCreated { quest_id, title } => Some(
            hits(e.variant.as_str(), &k) || hits(e.source.as_str(), &k) || hits(quest_id.as_str(), &k)
                || hits(title.as_str(), &k),
        ),
        EventKind::VoteCast { proposal_id, voter, .. } => Some(
            hits(e.variant.as_str(), &k) || hits(e.source.as_str(), &k) || hits(proposal_id.as_str(), &k)
                || hits(voter.as_str(), &k),
        ),
        _ => None,
    }
}

/// Whether an event passes the filters; `fast` selects the field test for the keyword.
pub fn event_passes(e: &EventView, f: &EventFilter, fast: bool) -> (r: bool)
    ensures
        r == passes(*e, *f, fast),
{
    match &f.topic {
        Some(t) => {
            if !event_matches_topic(&e.kind, t.as_str()) {
                return false;
            }
        },
        None => {},
    }
    match &f.level {
        Some(l) => {
            if !event_matches_level(e, l.as_str()) {
                return false;
            }
        },
        None => {},
    }
    match &f.keyword {
        Some(k) => {
            if fast {
                match event_keyword_hit_fast(e, k.as_str()) {
                    Some(h) => h,
                    None => event_keyword_in_text(e, k.as_str()),
                }
            } else {
                event_keyword_in_text(e, k.as_str())
            }
        },
        None => true,
    }
}

/// The positions, oldest first, of the events the event stream lists.
pub fn stream_filtered(events: &Vec<EventView>, f: &EventFilter) -> (r: Vec<usize>)
    ensures
        positions(r@) == stream_positions(events@, *f),
        forall|i: int| 0 <= i < r@.len() ==> (#[trigger] r@[i]) < events@.len(),
{
    let mut r: Vec<usize> = Vec::new();
    let mut k: usize = 0;
    while k < events.len()
        invariant
            k <= events@.len(),
            positions(r@) == passing_upto(events@, *f, false, k as int),
            forall|i: int| 0 <= i < r@.len() ==> (#[trigger] r@[i]) < k,
        decreases events@.len() - k,
    {
        if event_passes(&events[k], f, false) {
            let ghost before = r@;
            r.push(k);
            proof {
                assert(positions(r@) =~= positions(before).push(k as int));
            }
        }
        k = k + 1;
    }
    r
}

/// The positions, newest first, of the events the log lists.
pub fn log_filtered(events: &Vec<EventView>, f: &EventFilter) -> (r: Vec<usize>)
    ensures
        positions(r@) == log_positions(events@, *f),
        forall|i: int| 0 <= i < r@.len() ==> (#[trigger] r@[i]) < events@.len(),
{
    let mut r: Vec<usize> = Vec::new();
    let mut k: usize = events.len();
    while k > 0
        invariant
            k <= events@.len(),
            positions(r@) + passing_newest_first(events@, *f, true, k as int) == log_positions(events@, *f),
            forall|i: int| 0 <= i < r@.len() ==> (#[trigger] r@[i]) < events@.len(),
        decreases k,
    {
        let ghost before = r@;
        let ghost rest = passing_newest_first(events@, *f, true, k - 1);
        if event_passes(&events[k - 1], f, true) {
            r.push(k - 1);
            proof {
                assert(positions(r@) =~= positions(before).push((k - 1) as int));
                assert(positions(r@) + rest =~= positions(before) + (seq![(k - 1) as int] + rest));
            }
        }
        k = k - 1;
    }
    proof {
        assert(positions(r@) + Seq::<int>::empty() =~= positions(r@));
    }
    r
}

/// The wall-clock time `HH:MM:SS` (UTC) of an instant given in milliseconds
/// since the epoch, as chrono formats it; `None` outside chrono's range.
pub uninterp spec fn clock_text(millis: i64) -> Option<Seq<char>>;

/// A number below 100 as two digits, zero-padded.
pub open spec fn two_digits(n: nat) -> Seq<char> {
    if n < 10 {
        "0"@ + dec(n)
    } else {
        dec(n)
    }
}

/// The time of day `HH:MM:SS` (UTC) of an instant given in milliseconds since
/// the epoch: the whole seconds, floored, taken modulo a day.
pub open spec fn time_of_day_text(millis: i64) -> Seq<char> {
    let secs = (millis as int / 1000) % 86400;
    two_digits((secs / 3600) as nat) + ":"@ + two_digits((secs / 60 % 60) as nat) + ":"@ + two_digits(
        (secs % 60) as nat,
    )
}

/// Instants this far from the epoch (about 253,000 years) lie inside
/// chrono's range of dates.
pub const CLOCK_SAFE_MILLIS: i64 = 8_000_000_000_000_000_000;

/// Calls chrono's `DateTime::<Utc>::from_timestamp_millis` and formats the
/// instant with `%H:%M:%S`; the result is named [`clock_text`]. The contract
/// claims what chrono's source shows: a formatted result is the time of day
/// of the floored whole seconds, and every instant within
/// [`CLOCK_SAFE_MILLIS`] of the epoch is in range (chrono's years run from
/// -262143 to 262142).
#[verifier::external_body]
fn format_clock_time(millis: i64) -> (r: Option<String>)
    ensures
        crate::panels::filter_cache::string_opt_view(r) == clock_text(millis),
        r matches Some(t) ==> t@ == time_of_day_text(millis),
        -CLOCK_SAFE_MILLIS <= millis <= CLOCK_SAFE_MILLIS ==> r is Some,
{
    match chrono::DateTime::<chrono::Utc>::from_timestamp_millis(millis) {
        Some(t) => Some(t.format("%H:%M:%S").to_string()),
        None => None,
    }
}

/// The wall-clock time of an instant, empty outside chrono's range.
pub open spec fn clock_or_empty(millis: i64) -> Seq<char> {
    match clock_text(millis) {
        Some(t) => t,
        None => Seq::empty(),
    }
}

/// The list row of an event: cursor mark, time, `[source]` and variant name.
pub open spec fn event_row_text(e: EventView, selected: bool) -> Seq<char> {
    (if selected { "> "@ } else { "  "@ }) + clock_or_empty(e.timestamp_ms) + " ["@ + e.source@ + "] "@ + e.variant@
}

/// The cursor row is highlighted, another critical event is an alert.
pub open spec fn event_row_tone(e: EventView, selected: bool) -> LineTone {
    if selected {
        LineTone::Highlight
    } else if e.critical {
        LineTone::Alert
    } else {
        LineTone::Plain
    }
}

/// The rows `start..end` of the listed events `order`, with the cursor at `selected`.
pub open spec fn event_rows(events: Seq<EventView>, order: Seq<int>, selected: int, start: int, end: int) -> Seq<
    (Seq<char>, LineTone),
> {
    Seq::new(
        (end - start) as nat,
        |k: int|
            (
                event_row_text(events[order[start + k]], start + k == selected),
                event_row_tone(events[order[start + k]], start + k == selected),
            ),
    )
}

/// Appends the rows `start..end` of the listed events `order`.
pub fn push_event_rows(
    lines: &mut Vec<ToneLine>,
    events: &Vec<EventView>,
    order: &Vec<usize>,
    selected: usize,
    start: usize,
    end: usize,
)
    requires
        start <= end <= order@.len(),
        forall|i: int| 0 <= i < order@.len() ==> (#[trigger] order@[i]) < events@.len(),
    ensures
        tone_views(final(lines)@) == tone_views(old(lines)@) + event_rows(
            events@,
            positions(order@),
            selected as int,
            start as int,
            end as int,
        ),
{
    let ghost head = tone_views(lines@);
    let ghost rows = event_rows(events@, positions(order@), selected as int, start as int, end as int);
    let mut idx: usize = start;
    while idx < end
        invariant
            start <= idx <= end,
            end <= order@.len(),
            forall|i: int| 0 <= i < order@.len() ==> (#[trigger] order@[i]) < events@.len(),
            rows == event_rows(events@, positions(order@), selected as int, start as int, end as int),
            tone_views(lines@) == head + rows.take(idx - start),
        decreases end - idx,
    {
        let e = &events[order[idx]];
        let mut l = if idx == selected {
            string_of("> ")
        } else {
            string_of("  ")
        };
        match format_clock_time(e.timestamp_ms) {
            Some(ts) => push_str(&mut l, ts.as_str()),
            None => {},
        }
        push_str(&mut l, " [");
        push_str(&mut l, e.source.as_str());
        push_str(&mut l, "] ");
        push_str(&mut l, e.variant.as_str());
        let tone = if idx == selected {
            LineTone::Highlight
        } else if e.critical {
            LineTone::Alert
        } else {
            LineTone::Plain
        };
        proof {
            assert(positions(order@)[idx as int] == order@[idx as int] as int);
            assert(rows[idx - start] == (l@, tone));
            assert(rows.take(idx - start + 1) =~= rows.take(idx - start).push((l@, tone)));
        }
        push_line(lines, l, tone);
        idx = idx + 1;
    }
    proof {
        assert(rows.take(end - start) =~= rows);
    }
}

} // verus!
