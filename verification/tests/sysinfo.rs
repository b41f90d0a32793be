use chimera_tui::input::{KeyCode, KeyEvent};
use chimera_tui::panels::sysinfo::{unwrap_or_unknown, SysinfoPanel};
use chimera_tui::types::PanelId;
use std::time::{Duration, Instant};

#[test]
fn test_new_does_not_panic() {
    let panel = SysinfoPanel::new(1);
    assert_eq!(panel.refresh_interval_ms(), 5000);
    let now = Instant::now();
    let diff = now.duration_since(panel.last_refresh_at());
    assert!(diff < Duration::from_millis(100), "diff: {diff:?}");
}

#[test]
fn test_with_refresh_interval() {
    let panel = SysinfoPanel::with_refresh_interval(1000, 1);
    assert_eq!(panel.refresh_interval_ms(), 1000);
    let panel = SysinfoPanel::with_refresh_interval(50, 1);
    assert_eq!(panel.refresh_interval_ms(), 100);
}

#[test]
fn test_cpu_brand_non_empty() {
    let panel = SysinfoPanel::new(1);
    let brand = panel.cpu_brand();
    assert!(!brand.is_empty());
}

#[test]
fn test_cpu_count_at_least_one() {
    let panel = SysinfoPanel::new(1);
    assert!(panel.cpu_count() >= 1);
}

#[test]
fn test_total_memory_positive() {
    let panel = SysinfoPanel::new(1);
    assert!(panel.total_memory() > 0);
}

#[test]
fn test_panel_trait_id() {
    let panel = SysinfoPanel::new(1);
    assert_eq!(panel.id(), PanelId::Sysinfo);
}

#[test]
fn refresh_due_only_after_interval() {
    let mut panel = SysinfoPanel::with_refresh_interval(100, 1);
    assert!(!panel.is_refresh_due(99));
    assert!(panel.is_refresh_due(100));
    let initial = panel.last_refresh_at();
    assert!(!panel.refresh_if_needed());
    assert_eq!(panel.last_refresh_at(), initial);
    assert!(panel.handle_key(KeyEvent::new(KeyCode::Char('r'))).is_none());
    assert!(panel.last_refresh_at() >= initial);
}

#[test]
fn brand_falls_back_to_name_and_boot_time_formats() {
    assert_eq!(SysinfoPanel::pick_brand(Some((String::new(), "cpu0".into()))), "cpu0");
    assert_eq!(SysinfoPanel::pick_brand(Some(("Xeon".into(), "cpu0".into()))), "Xeon");
    assert_eq!(SysinfoPanel::pick_brand(None), "");
    assert_eq!(SysinfoPanel::format_boot_time(0), "1970-01-01 00:00:00 UTC");
    assert_eq!(SysinfoPanel::format_boot_time(u64::MAX / 2), "unknown");
}

#[test]
fn sysinfo_test_render_produces_content() {
    let mut panel = SysinfoPanel::new(1);
    panel.refresh_if_needed();
    let host = panel.host_name();
    let os = panel.os_version();
    let arch = panel.cpu_arch();
    let brand = panel.cpu_brand();
    let boot = SysinfoPanel::format_boot_time(panel.boot_time());
    let lines = SysinfoPanel::info_lines(&host, &os, &arch, &brand, panel.cpu_count(), "1.0 GB", &boot, panel.pid(), None);
    let content: String = lines.iter().map(|l| l.text.clone()).collect::<Vec<_>>().join("\n");
    assert!(content.contains("OS"));
    assert!(content.contains("CPU"));
    assert!(content.contains("Chimera"));
}

#[test]
fn sysinfo_info_lines_exact() {
    let lines = SysinfoPanel::info_lines("h", "Linux 6", "x86_64", "Xeon", 8, "16.0 GB", "2024-01-01", 42, Some("12.5 MB"));
    assert_eq!(lines[0].text, "OS: h  |  Linux 6  |  arch: x86_64");
    assert_eq!(lines[1].text, "CPU: Xeon  |  cores: 8");
    assert_eq!(lines[4].text, "Chimera: PID 42  |  RSS: 12.5 MB");
    let none = SysinfoPanel::info_lines("h", "o", "a", "b", 1, "t", "b", 1, None);
    assert_eq!(none[4].text, "Chimera: PID 1  |  RSS: n/a");
}

#[test]
fn os_version_falls_back_to_kernel_then_unknown() {
    assert_eq!(SysinfoPanel::pick_os_version(Some("Linux 22.04".into()), Some("6.1".into())), "Linux 22.04");
    assert_eq!(SysinfoPanel::pick_os_version(None, Some("6.1".into())), "6.1");
    assert_eq!(SysinfoPanel::pick_os_version(None, None), "unknown");
}

#[test]
fn refresh_at_refreshes_only_once_the_interval_has_passed() {
    let mut panel = SysinfoPanel::with_refresh_interval(1000, 1);
    let before = panel.last_refresh_at();
    let later = before + Duration::from_secs(3);
    assert!(!panel.refresh_at(999, later));
    assert_eq!(panel.last_refresh_at(), before);
    assert!(panel.refresh_at(1000, later));
    assert_eq!(panel.last_refresh_at(), later);
    assert_eq!(panel.refresh_interval_ms(), 1000);
}

#[test]
fn record_refresh_and_r_key_record_the_given_time() {
    let mut panel = SysinfoPanel::new(1);
    let t = panel.last_refresh_at() + Duration::from_secs(5);
    panel.record_refresh(t);
    assert_eq!(panel.last_refresh_at(), t);
    let t2 = t + Duration::from_secs(1);
    assert_eq!(panel.handle_key_at(KeyEvent::new(KeyCode::Char('x')), t2), None);
    assert_eq!(panel.last_refresh_at(), t);
    assert_eq!(panel.handle_key_at(KeyEvent::new(KeyCode::Char('r')), t2), None);
    assert_eq!(panel.last_refresh_at(), t2);
    let t3 = t2 + Duration::from_secs(1);
    panel.force_refresh_at(t3);
    assert_eq!(panel.last_refresh_at(), t3);
}

#[test]
fn unknown_when_absent() {
    assert_eq!(unwrap_or_unknown(None), "unknown");
    assert_eq!(unwrap_or_unknown(Some("host-a".into())), "host-a");
}

#[test]
fn with_snapshot_records_the_given_reading_over_an_empty_system() {
    let t = Instant::now() + Duration::from_secs(7);
    let panel = SysinfoPanel::with_snapshot(sysinfo::System::new(), 50, 7, t);
    assert_eq!(panel.last_refresh_at(), t);
    assert_eq!(panel.refresh_interval_ms(), 100);
    assert_eq!(panel.pid(), 7);
    assert_eq!(panel.cpu_count(), 0);
    assert_eq!(panel.cpu_brand(), "");
    assert_eq!(panel.chimera_memory(), None);
}

#[test]
fn snapshot_getters_read_the_system_they_hold() {
    let system = sysinfo::System::new_all();
    let count = system.cpus().len();
    let brand = match system.cpus().first() {
        Some(c) if c.brand().is_empty() => c.name().to_string(),
        Some(c) => c.brand().to_string(),
        None => String::new(),
    };
    let listed = !system.processes().is_empty();
    let pid = system.processes().keys().map(|p| p.as_u32()).max().unwrap_or(1);
    let memory = system.process(sysinfo::Pid::from_u32(pid)).map(|p| p.memory());
    let panel = SysinfoPanel::with_snapshot(system, 1000, pid, Instant::now());
    assert_eq!(panel.cpu_count(), count);
    assert_eq!(panel.cpu_brand(), brand);
    assert_eq!(panel.chimera_memory(), memory);
    assert!(!listed || memory.is_some());
}

#[test]
fn interval_and_process_kept_through_calls() {
    let mut panel = SysinfoPanel::with_refresh_interval(50, 3);
    let t = panel.last_refresh_at() + Duration::from_secs(1);
    panel.force_refresh_at(t);
    panel.refresh_at(10_000, t);
    panel.handle_key_at(KeyEvent::new(KeyCode::Char('r')), t);
    panel.handle_key(KeyEvent::new(KeyCode::Char('j')));
    panel.refresh_if_needed();
    assert_eq!(panel.refresh_interval_ms(), 100);
    assert_eq!(panel.pid(), 3);
}
