//! System information panel: host, operating system, CPU and memory of the
//! machine, refreshed at most once per refresh interval.
use vstd::prelude::*;
use crate::input::{KeyCode, KeyEvent};
use crate::text::{dec, push_line, push_str, push_u64, string_of, tone_views, LineTone, ToneLine};
use crate::types::{PanelId, TuiCommand};

verus! {

/// Shortest refresh interval accepted.
pub const MIN_REFRESH_INTERVAL_MS: u64 = 100;

/// Refresh interval of a new panel.
pub const DEFAULT_REFRESH_INTERVAL_MS: u64 = 5000;

#[verifier::external_type_specification]
#[verifier::external_body]
pub struct ExSystem(sysinfo::System);

#[verifier::external_type_specification]
#[verifier::external_body]
pub struct ExInstant(std::time::Instant);

/// Calls sysinfo's `System::new_all`, which reads every system table once.
/// Nothing is stated of what it reads: that is the machine's state.
#[verifier::external_body]
fn system_new_all() -> (r: sysinfo::System) {
    sysinfo::System::new_all()
}

/// Calls sysinfo's `System::refresh_specifics` for process memory and system memory.
/// Nothing is stated of the tables it leaves: they are the machine's state.
#[verifier::external_body]
fn refresh_processes_and_memory(system: &mut sysinfo::System) {
    system.refresh_specifics(
        sysinfo::RefreshKind::new().with_processes(sysinfo::ProcessRefreshKind::new().with_memory()).with_memory(
            sysinfo::MemoryRefreshKind::everything(),
        ),
    );
}

/// Calls sysinfo's `System::refresh_specifics` for process memory.
/// Nothing is stated of the tables it leaves: they are the machine's state.
#[verifier::external_body]
fn refresh_processes(system: &mut sysinfo::System) {
    system.refresh_specifics(
        sysinfo::RefreshKind::new().with_processes(sysinfo::ProcessRefreshKind::new().with_memory()),
    );
}

/// Calls `Instant::now`. Nothing is stated of the reading: it is the clock's.
#[verifier::external_body]
fn instant_now() -> (r: std::time::Instant) {
    std::time::Instant::now()
}

/// Calls `Instant::elapsed` and reads it in whole milliseconds, saturating at
/// `u64::MAX`. Nothing is stated of the result: it depends on the clock.
#[verifier::external_body]
fn elapsed_ms(since: &std::time::Instant) -> (r: u64) {
    u64::try_from(since.elapsed().as_millis()).unwrap_or(u64::MAX)
}

/// The CPUs a sysinfo `System` holds, in its order, each as its brand and name.
pub uninterp spec fn cpu_table(system: sysinfo::System) -> Seq<(Seq<char>, Seq<char>)>;

/// The processes a sysinfo `System` holds: the memory in bytes of each, by pid.
pub uninterp spec fn process_table(system: sysinfo::System) -> Map<u32, u64>;

/// Calls sysinfo's `System::cpus` and takes the brand and name of the first
/// CPU: the first entry of [`cpu_table`], `None` when it is empty.
#[verifier::external_body]
fn first_cpu(system: &sysinfo::System) -> (r: Option<(String, String)>)
    ensures
        match r {
            Some((brand, name)) => cpu_table(*system).len() > 0 && cpu_table(*system)[0] == (brand@, name@),
            None => cpu_table(*system).len() == 0,
        },
{
    match system.cpus().first() {
        Some(c) => Some((c.brand().to_string(), c.name().to_string())),
        None => None,
    }
}

/// Calls sysinfo's `System::cpus` and counts them: the length of [`cpu_table`].
#[verifier::external_body]
fn cpu_len(system: &sysinfo::System) -> (r: usize)
    ensures
        r == cpu_table(*system).len(),
{
    system.cpus().len()
}

/// Calls sysinfo's `System::total_memory` (bytes). Nothing is stated of the
/// result: it is a reading of the machine.
#[verifier::external_body]
fn system_total_memory(system: &sysinfo::System) -> (r: u64) {
    system.total_memory()
}

/// Calls sysinfo's `System::boot_time` (seconds since the epoch). Nothing is
/// stated of the result: it is a reading of the machine.
#[verifier::external_body]
fn system_boot_time() -> (r: u64) {
    sysinfo::System::boot_time()
}

/// Calls sysinfo's `System::process` for `pid` and reads its memory (bytes):
/// the entry of `pid` in [`process_table`], `None` when it has none.
#[verifier::external_body]
fn process_memory(system: &sysinfo::System, pid: u32) -> (r: Option<u64>)
    ensures
        r == (if process_table(*system).dom().contains(pid) {
            Some(process_table(*system)[pid])
        } else {
            None
        }),
{
    match system.process(sysinfo::Pid::from_u32(pid)) {
        Some(p) => Some(p.memory()),
        None => None,
    }
}

/// Calls sysinfo's `System::long_os_version`. Nothing is stated of the result:
/// it is a reading of the machine.
#[verifier::external_body]
fn long_os_version() -> (r: Option<String>) {
    sysinfo::System::long_os_version()
}

/// Calls sysinfo's `System::kernel_version`. Nothing is stated of the result:
/// it is a reading of the machine.
#[verifier::external_body]
fn kernel_version() -> (r: Option<String>) {
    sysinfo::System::kernel_version()
}

/// Calls sysinfo's `System::host_name`. Nothing is stated of the result: it
/// is a reading of the machine.
#[verifier::external_body]
fn host_name() -> (r: Option<String>) {
    sysinfo::System::host_name()
}

/// Calls sysinfo's `System::cpu_arch`. Nothing is stated of the result: it
/// is a reading of the machine.
#[verifier::external_body]
fn cpu_arch() -> (r: Option<String>) {
    sysinfo::System::cpu_arch()
}

/// The calendar text `YYYY-MM-DD HH:MM:SS UTC` of an instant given in seconds
/// since the epoch, as chrono formats it; `None` outside chrono's range.
pub uninterp spec fn utc_seconds_text(secs: i64) -> Option<Seq<char>>;

/// Calls chrono's `DateTime::<Utc>::from_timestamp` and formats the instant with
/// `%Y-%m-%d %H:%M:%S UTC`; the result is named [`utc_seconds_text`].
#[verifier::external_body]
fn format_utc_seconds(secs: i64) -> (r: Option<String>)
    ensures
        crate::panels::filter_cache::string_opt_view(r) == utc_seconds_text(secs),
{
    match chrono::DateTime::<chrono::Utc>::from_timestamp(secs, 0) {
        Some(t) => Some(t.format("%Y-%m-%d %H:%M:%S UTC").to_string()),
        None => None,
    }
}

/// The brand of the first CPU, or its name when the brand is empty; empty
/// when there is no CPU.
pub open spec fn brand_choice(first: Option<(Seq<char>, Seq<char>)>) -> Seq<char> {
    match first {
        Some((brand, name)) => if brand.len() == 0 {
            name
        } else {
            brand
        },
        None => Seq::empty(),
    }
}

/// The text of an optional value, `unknown` when absent.
pub open spec fn or_unknown(o: Option<Seq<char>>) -> Seq<char> {
    match o {
        Some(s) => s,
        None => "unknown"@,
    }
}

/// Whether a refresh is due after `elapsed_ms` with interval `interval_ms`.
pub open spec fn refresh_due(elapsed_ms: u64, interval_ms: u64) -> bool {
    elapsed_ms >= interval_ms
}

/// The value, or `unknown`.
pub fn unwrap_or_unknown(o: Option<String>) -> (r: String)
    ensures
        r@ == or_unknown(crate::panels::filter_cache::string_opt_view(o)),
{
    match o {
        Some(s) => s,
        None => string_of("unknown"),
    }
}

/// The interval kept for a requested `interval_ms`: it, or
/// [`MIN_REFRESH_INTERVAL_MS`] when it is shorter.
pub open spec fn clamped_interval(interval_ms: u64) -> u64 {
    if interval_ms > MIN_REFRESH_INTERVAL_MS {
        interval_ms
    } else {
        MIN_REFRESH_INTERVAL_MS
    }
}

/// Whether `after` keeps the refresh interval and process of `before`, as
/// every `&mut` method of [`SysinfoPanel`] does.
pub open spec fn keeps_settings(before: SysinfoPanel, after: SysinfoPanel) -> bool {
    after.interval() == before.interval() && after.process_id() == before.process_id()
}

/// A refresh interval in milliseconds, never below [`MIN_REFRESH_INTERVAL_MS`].
struct RefreshInterval {
    ms: u64,
}

impl RefreshInterval {
    /// The interval is never below the shortest one accepted.
    #[verifier::type_invariant]
    spec fn interval_ok(self) -> bool {
        self.ms >= MIN_REFRESH_INTERVAL_MS
    }
}

/// System information panel over a sysinfo `System`, for the process `pid`.
pub struct SysinfoPanel {
    system: sysinfo::System,
    last_refresh_at: std::time::Instant,
    refresh_interval: RefreshInterval,
    pid: u32,
}

impl SysinfoPanel {
    /// The refresh interval.
    pub closed spec fn interval(&self) -> u64 {
        self.refresh_interval.ms
    }

    /// The process whose memory is shown.
    pub closed spec fn process_id(&self) -> u32 {
        self.pid
    }

    /// The time of the last refresh.
    pub closed spec fn refreshed_at(&self) -> std::time::Instant {
        self.last_refresh_at
    }

    /// The CPUs of the panel's system snapshot, each as its brand and name.
    pub closed spec fn cpus(&self) -> Seq<(Seq<char>, Seq<char>)> {
        cpu_table(self.system)
    }

    /// The processes of the panel's system snapshot: memory in bytes by pid.
    pub closed spec fn processes(&self) -> Map<u32, u64> {
        process_table(self.system)
    }

    /// A panel for process `pid` refreshing every 5 s.
    pub fn new(pid: u32) -> (r: Self)
        ensures
            r.interval() == DEFAULT_REFRESH_INTERVAL_MS,
            r.process_id() == pid,
    {
        Self::with_refresh_interval(DEFAULT_REFRESH_INTERVAL_MS, pid)
    }

    /// A panel for process `pid` refreshing every `interval_ms`, at least 100 ms,
    /// over a system snapshot read in full when it is made.
    pub fn with_refresh_interval(interval_ms: u64, pid: u32) -> (r: Self)
        ensures
            r.interval() == clamped_interval(interval_ms),
            r.process_id() == pid,
    {
        let mut system = system_new_all();
        refresh_processes_and_memory(&mut system);
        let now = instant_now();
        Self::with_snapshot(system, interval_ms, pid, now)
    }

    /// A panel over the snapshot `system` taken at the clock reading `now`,
    /// for process `pid`, refreshing every `interval_ms`, at least 100 ms.
    pub fn with_snapshot(system: sysinfo::System, interval_ms: u64, pid: u32, now: std::time::Instant) -> (r: Self)
        ensures
            r.interval() == clamped_interval(interval_ms),
            r.process_id() == pid,
            r.refreshed_at() == now,
            r.cpus() == cpu_table(system),
            r.processes() == process_table(system),
    {
        let interval_ms = if interval_ms > MIN_REFRESH_INTERVAL_MS {
            interval_ms
        } else {
            MIN_REFRESH_INTERVAL_MS
        };
        SysinfoPanel { system, last_refresh_at: now, refresh_interval: RefreshInterval { ms: interval_ms }, pid }
    }

    /// Whether a refresh is due after `elapsed_ms`: once the interval has passed.
    pub fn is_refresh_due(&self, elapsed_ms: u64) -> (r: bool)
        ensures
            r == refresh_due(elapsed_ms, self.interval()),
    {
        elapsed_ms >= self.refresh_interval.ms
    }

    /// Records `now` as the time of the last refresh.
    pub fn record_refresh(&mut self, now: std::time::Instant)
        ensures
            final(self).refreshed_at() == now,
            final(self).interval() == old(self).interval(),
            final(self).process_id() == old(self).process_id(),
            final(self).cpus() == old(self).cpus(),
            final(self).processes() == old(self).processes(),
    {
        self.last_refresh_at = now;
    }

    /// Given `elapsed_ms` since the last refresh and the clock reading `now`:
    /// when the interval has passed, refreshes the process table and records
    /// `now` as the time of the refresh; returns whether it did.
    pub fn refresh_at(&mut self, elapsed_ms: u64, now: std::time::Instant) -> (r: bool)
        ensures
            r == refresh_due(elapsed_ms, old(self).interval()),
            r ==> final(self).refreshed_at() == now,
            !r ==> final(self).refreshed_at() == old(self).refreshed_at(),
            !r ==> final(self).cpus() == old(self).cpus() && final(self).processes() == old(self).processes(),
            final(self).interval() == old(self).interval(),
            final(self).process_id() == old(self).process_id(),
    {
        if self.is_refresh_due(elapsed_ms) {
            refresh_processes(&mut self.system);
            self.record_refresh(now);
            true
        } else {
            false
        }
    }

    /// Refreshes the process table when the interval has passed since the last
    /// refresh, then records the clock reading taken after it as the time of
    /// the refresh; returns whether it refreshed. Given the readings, this is
    /// [`SysinfoPanel::refresh_at`].
    pub fn refresh_if_needed(&mut self) -> (r: bool)
        ensures
            final(self).interval() == old(self).interval(),
            final(self).process_id() == old(self).process_id(),
            !r ==> final(self).refreshed_at() == old(self).refreshed_at(),
            !r ==> final(self).cpus() == old(self).cpus() && final(self).processes() == old(self).processes(),
    {
        let elapsed = elapsed_ms(&self.last_refresh_at);
        if self.is_refresh_due(elapsed) {
            refresh_processes(&mut self.system);
            let now = instant_now();
            self.record_refresh(now);
            true
        } else {
            false
        }
    }

    /// Refreshes processes and memory and records `now` as the time of the refresh.
    pub fn force_refresh_at(&mut self, now: std::time::Instant)
        ensures
            final(self).refreshed_at() == now,
            final(self).interval() == old(self).interval(),
            final(self).process_id() == old(self).process_id(),
    {
        refresh_processes_and_memory(&mut self.system);
        self.record_refresh(now);
    }

    /// Refreshes processes and memory now, then records the clock reading taken
    /// after it as the time of the refresh; given the reading, this is
    /// [`SysinfoPanel::force_refresh_at`].
    pub fn force_refresh(&mut self)
        ensures
            final(self).interval() == old(self).interval(),
            final(self).process_id() == old(self).process_id(),
    {
        refresh_processes_and_memory(&mut self.system);
        let now = instant_now();
        self.record_refresh(now);
    }

    /// The brand of the first CPU of the snapshot, or its name when the brand
    /// is empty; empty when the snapshot holds no CPU.
    pub fn cpu_brand(&self) -> (r: String)
        ensures
            r@ == brand_choice(if self.cpus().len() > 0 { Some(self.cpus()[0]) } else { None }),
    {
        let first = first_cpu(&self.system);
        Self::pick_brand(first)
    }

    /// The brand, or the name when the brand is empty; empty without a CPU.
    pub fn pick_brand(first: Option<(String, String)>) -> (r: String)
        ensures
            r@ == brand_choice(
                match first {
                    Some((b, n)) => Some((b@, n@)),
                    None => None,
                },
            ),
    {
        match first {
            Some((brand, name)) => {
                if brand.as_str().is_empty() {
                    name
                } else {
                    brand
                }
            },
            None => String::new(),
        }
    }

    /// Number of logical CPUs in the snapshot.
    pub fn cpu_count(&self) -> (r: usize)
        ensures
            r == self.cpus().len(),
    {
        cpu_len(&self.system)
    }

    /// Total memory in bytes.
    pub fn total_memory(&self) -> (r: u64) {
        system_total_memory(&self.system)
    }

    /// Boot time in seconds since the epoch.
    pub fn boot_time(&self) -> (r: u64) {
        system_boot_time()
    }

    /// Memory of this panel's process in bytes, if the snapshot holds it.
    pub fn chimera_memory(&self) -> (r: Option<u64>)
        ensures
            r == (if self.processes().dom().contains(self.process_id()) {
                Some(self.processes()[self.process_id()])
            } else {
                None
            }),
    {
        process_memory(&self.system, self.pid)
    }

    /// The long OS version, else the kernel version, else `unknown`.
    pub fn os_version(&self) -> (r: String) {
        Self::pick_os_version(long_os_version(), kernel_version())
    }

    /// The long OS version, else the kernel version, else `unknown`.
    pub fn pick_os_version(long: Option<String>, kernel: Option<String>) -> (r: String)
        ensures
            r@ == match long {
                Some(v) => v@,
                None => or_unknown(crate::panels::filter_cache::string_opt_view(kernel)),
            },
    {
        match long {
            Some(v) => v,
            None => unwrap_or_unknown(kernel),
        }
    }

    /// The host name, or `unknown`.
    pub fn host_name(&self) -> (r: String) {
        unwrap_or_unknown(host_name())
    }

    /// The CPU architecture, or `unknown`.
    pub fn cpu_arch(&self) -> (r: String) {
        unwrap_or_unknown(cpu_arch())
    }

    /// The time of the last refresh.
    pub fn last_refresh_at(&self) -> (r: std::time::Instant)
        ensures
            r == self.refreshed_at(),
    {
        self.last_refresh_at
    }

    /// The refresh interval.
    pub fn refresh_interval_ms(&self) -> (r: u64)
        ensures
            r == self.interval(),
            r >= MIN_REFRESH_INTERVAL_MS,
    {
        proof {
            use_type_invariant(&self.refresh_interval);
        }
        self.refresh_interval.ms
    }

    /// The boot time as calendar text, or `unknown` outside chrono's range.
    pub fn format_boot_time(unix_secs: u64) -> (r: String)
        ensures
            r@ == or_unknown(utc_seconds_text(#[verifier::truncate] (unix_secs as i64))),
    {
        unwrap_or_unknown(format_utc_seconds(#[verifier::truncate] (unix_secs as i64)))
    }

    /// The six info lines: host, OS version and architecture; CPU brand and
    /// cores; total memory; boot time; this process's id and resident memory
    /// (`n/a` when unknown); and the refresh hint. The memory sizes come as text.
    pub fn info_lines(
        host: &str,
        os_version: &str,
        arch: &str,
        cpu_brand: &str,
        cores: usize,
        total_memory: &str,
        boot: &str,
        pid: u32,
        rss: Option<&str>,
    ) -> (r: Vec<ToneLine>)
        ensures
            tone_views(r@) == seq![
                ("OS: "@ + host@ + "  |  "@ + os_version@ + "  |  arch: "@ + arch@, LineTone::Plain),
                ("CPU: "@ + cpu_brand@ + "  |  cores: "@ + dec(cores as nat), LineTone::Good),
                ("Memory Total: "@ + total_memory@, LineTone::Warning),
                ("Boot: "@ + boot@, LineTone::Accent),
                (
                    "Chimera: PID "@ + dec(pid as nat) + "  |  RSS: "@ + match rss {
                        Some(m) => m@,
                        None => "n/a"@,
                    },
                    LineTone::Emphasis,
                ),
                ("Press 'r' to refresh process info"@, LineTone::Muted),
            ],
    {
        let mut lines: Vec<ToneLine> = Vec::new();
        let mut l1 = string_of("OS: ");
        push_str(&mut l1, host);
        push_str(&mut l1, "  |  ");
        push_str(&mut l1, os_version);
        push_str(&mut l1, "  |  arch: ");
        push_str(&mut l1, arch);
        push_line(&mut lines, l1, LineTone::Plain);
        let mut l2 = string_of("CPU: ");
        push_str(&mut l2, cpu_brand);
        push_str(&mut l2, "  |  cores: ");
        push_u64(&mut l2, cores as u64);
        push_line(&mut lines, l2, LineTone::Good);
        let mut l3 = string_of("Memory Total: ");
        push_str(&mut l3, total_memory);
        push_line(&mut lines, l3, LineTone::Warning);
        let mut l4 = string_of("Boot: ");
        push_str(&mut l4, boot);
        push_line(&mut lines, l4, LineTone::Accent);
        let mut l5 = string_of("Chimera: PID ");
        push_u64(&mut l5, pid as u64);
        push_str(&mut l5, "  |  RSS: ");
        match rss {
            Some(m) => push_str(&mut l5, m),
            None => push_str(&mut l5, "n/a"),
        }
        push_line(&mut lines, l5, LineTone::Emphasis);
        push_line(&mut lines, string_of("Press 'r' to refresh process info"), LineTone::Muted);
        proof {
            assert(tone_views(lines@) =~= seq![
                ("OS: "@ + host@ + "  |  "@ + os_version@ + "  |  arch: "@ + arch@, LineTone::Plain),
                ("CPU: "@ + cpu_brand@ + "  |  cores: "@ + dec(cores as nat), LineTone::Good),
                ("Memory Total: "@ + total_memory@, LineTone::Warning),
                ("Boot: "@ + boot@, LineTone::Accent),
                (
                    "Chimera: PID "@ + dec(pid as nat) + "  |  RSS: "@ + match rss {
                        Some(m) => m@,
                        None => "n/a"@,
                    },
                    LineTone::Emphasis,
                ),
                ("Press 'r' to refresh process info"@, LineTone::Muted),
            ]);
        }
        lines
    }

    /// The process id this panel shows.
    pub fn pid(&self) -> (r: u32)
        ensures
            r == self.process_id(),
    {
        self.pid
    }

    /// This panel's identity.
    pub fn id(&self) -> (r: PanelId)
        ensures
            r == PanelId::Sysinfo,
    {
        PanelId::Sysinfo
    }

    /// Given the clock reading `now`: `r` refreshes processes and memory and
    /// records `now` as the time of the refresh; every key is answered with nothing.
    pub fn handle_key_at(&mut self, key: KeyEvent, now: std::time::Instant) -> (r: Option<TuiCommand>)
        ensures
            r is None,
            final(self).interval() == old(self).interval(),
            final(self).process_id() == old(self).process_id(),
            key.code == KeyCode::Char('r') ==> final(self).refreshed_at() == now,
            key.code != KeyCode::Char('r') ==> final(self).refreshed_at() == old(self).refreshed_at(),
            key.code != KeyCode::Char('r') ==> final(self).cpus() == old(self).cpus() && final(self).processes()
                == old(self).processes(),
    {
        if key.code == KeyCode::Char('r') {
            self.force_refresh_at(now);
        }
        None
    }

    /// `r` refreshes now, as [`SysinfoPanel::force_refresh`] does; every key is
    /// answered with nothing. Given the clock reading, this is
    /// [`SysinfoPanel::handle_key_at`].
    pub fn handle_key(&mut self, key: KeyEvent) -> (r: Option<TuiCommand>)
        ensures
            r is None,
            final(self).interval() == old(self).interval(),
            final(self).process_id() == old(self).process_id(),
            key.code != KeyCode::Char('r') ==> final(self).refreshed_at() == old(self).refreshed_at(),
            key.code != KeyCode::Char('r') ==> final(self).cpus() == old(self).cpus() && final(self).processes()
                == old(self).processes(),
    {
        if key.code == KeyCode::Char('r') {
            self.force_refresh();
        }
        None
    }
}

/// A panel made with a requested interval `interval_ms` keeps the interval
/// `max(interval_ms, 100)`, never below 100 ms, and its process, through any
/// run of calls that each keep the settings (refreshes, forced refreshes, key
/// handling): `run[0]` is the new panel and `run[k + 1]` the panel after the
/// `k`-th call.
pub proof fn lemma_interval_kept_over_calls(interval_ms: u64, pid: u32, run: Seq<SysinfoPanel>)
    requires
        run.len() > 0,
        run[0].interval() == clamped_interval(interval_ms),
        run[0].process_id() == pid,
        forall|k: int| 0 <= k < run.len() - 1 ==> #[trigger] keeps_settings(run[k], run[k + 1]),
    ensures
        forall|k: int|
            0 <= k < run.len() ==> #[trigger] run[k].interval() == clamped_interval(interval_ms)
                && run[k].process_id() == pid,
        forall|k: int| 0 <= k < run.len() ==> #[trigger] run[k].interval() >= MIN_REFRESH_INTERVAL_MS,
    decreases run.len(),
{
    if run.len() > 1 {
        let front = run.drop_last();
        assert forall|k: int| 0 <= k < front.len() - 1 implies #[trigger] keeps_settings(front[k], front[k + 1]) by {
            assert(keeps_settings(run[k], run[k + 1]));
        }
        lemma_interval_kept_over_calls(interval_ms, pid, front);
        let m = run.len() - 2;
        assert(keeps_settings(run[m], run[m + 1]));
        assert(front[m] == run[m]);
        let n = m + 1;
        assert forall|k: int| 0 <= k < run.len() implies #[trigger] run[k].interval() == clamped_interval(interval_ms)
            && run[k].process_id() == pid by {
            if k < n {
                assert(front[k] == run[k]);
            }
        }
    }
}

} // verus!
