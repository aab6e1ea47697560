use so_sysinfo::facts::{FactError, MachineFacts, ReportedFacts};
use so_sysinfo::kind::SystemComponentKind;
use so_sysinfo::model::get_model;
use so_sysinfo::process::current_shell;

fn nothing_reported() -> ReportedFacts {
    ReportedFacts {
        cpu_model: None,
        memory: None,
        board_model: None,
        os_name: None,
        distribution: None,
        terminal: None,
        window_manager: None,
        desktop_environment: None,
    }
}

fn sample_reported() -> ReportedFacts {
    ReportedFacts {
        cpu_model: Some("Exemplary CPU".to_string()),
        memory: Some("15.5 GiB".to_string()),
        board_model: Some("ThinkPad X1".to_string()),
        os_name: Some("Linux".to_string()),
        distribution: Some("Debian".to_string()),
        terminal: Some("WezTerm".to_string()),
        window_manager: Some("sway".to_string()),
        desktop_environment: Some("GNOME".to_string()),
    }
}

fn fixed_facts() -> MachineFacts {
    MachineFacts {
        cpu_cores: 8,
        cpu_model: Some("Exemplary CPU".to_string()),
        memory: Some("15.5 GiB".to_string()),
        board_model: None,
        os_name: None,
        distribution: Some("Debian GNU/Linux".to_string()),
        architecture: Some("x86_64".to_string()),
        shell: Some("zsh".to_string()),
        terminal: None,
        window_manager: Some("i3".to_string()),
        desktop_environment: None,
    }
}

#[test]
fn mod_test_get_cpu() {
    let facts = MachineFacts::gather(sample_reported());
    let info = SystemComponentKind::Cpu.collect_info(&facts).unwrap();
    assert!(!info.is_empty());
}

#[test]
fn mod_test_get_system_memory() {
    let facts = MachineFacts::gather(sample_reported());
    let info = SystemComponentKind::SystemMemory.collect_info(&facts).unwrap();
    assert!(!info.is_empty());
}

#[test]
fn mod_test_get_os() {
    let facts = MachineFacts::gather(nothing_reported());
    let info = SystemComponentKind::OperatingSystem.collect_info(&facts).unwrap();
    assert!(!info.is_empty());
}

#[test]
fn mod_test_get_model() {
    let facts = MachineFacts::gather(nothing_reported());
    let _info = SystemComponentKind::BoardModel.collect_info(&facts).unwrap();
}

#[test]
fn mod_test_get_shell() {
    let facts = fixed_facts();
    let _info = SystemComponentKind::CurrentShell.collect_info(&facts).unwrap();
}

#[test]
fn current_shell_is_never_cargo() {
    // Where the process tree is hidden (a fresh PID namespace) there is no
    // parent to ask, and the shell is simply unavailable.
    match current_shell() {
        Ok(shell) => assert_ne!(shell, "cargo"),
        Err(e) => assert_eq!(e, FactError::Unavailable),
    }
}

#[test]
fn mod_test_get_de() {
    let facts = MachineFacts::gather(sample_reported());
    let _info = SystemComponentKind::DesktopEnvironment.collect_info(&facts).unwrap();
}

#[test]
fn mod_test_get_wm() {
    let facts = MachineFacts::gather(sample_reported());
    let _info = SystemComponentKind::WindowManager.collect_info(&facts).unwrap();
}

#[test]
fn mod_test_get_terminal_with_version() {
    let mut reported = sample_reported();
    reported.terminal = Some("WezTerm".to_string());
    let facts = MachineFacts::gather(reported);
    let _info = SystemComponentKind::TerminalEmulator.collect_info(&facts).unwrap();
}

#[test]
fn mod_test_get_terminal_without_version() {
    let mut reported = sample_reported();
    reported.terminal = Some("WezTerm 20240203".to_string());
    let facts = MachineFacts::gather(reported);
    let _info = SystemComponentKind::TerminalEmulator.collect_info(&facts).unwrap();
}

#[test]
fn utils_test_get_model() {
    let facts = MachineFacts::gather(nothing_reported());
    let info = SystemComponentKind::BoardModel.collect_info(&facts).unwrap();
    assert!(!info.is_empty());
    assert!(!info[0].is_empty());
}

#[test]
fn gather_keeps_reported_values() {
    let facts = MachineFacts::gather(sample_reported());
    assert!(facts.cpu_cores >= 1);
    assert_eq!(facts.cpu_model.as_deref(), Some("Exemplary CPU"));
    assert_eq!(facts.desktop_environment.as_deref(), Some("GNOME"));
    if let Some(shell) = &facts.shell {
        assert_ne!(shell, "cargo");
    }
}

#[test]
fn cpu_line_has_core_count() {
    let info = SystemComponentKind::Cpu.collect_info(&fixed_facts()).unwrap();
    assert_eq!(info, vec!["8x Exemplary CPU".to_string()]);
}

#[test]
fn memory_line_is_reported_text() {
    let info = SystemComponentKind::SystemMemory.collect_info(&fixed_facts()).unwrap();
    assert_eq!(info, vec!["15.5 GiB".to_string()]);
}

#[test]
fn board_model_defaults_to_generic() {
    let info = SystemComponentKind::BoardModel.collect_info(&fixed_facts()).unwrap();
    assert_eq!(info, vec!["Generic".to_string()]);
}

#[test]
fn os_line_falls_back_to_distribution_and_adds_arch() {
    let info = SystemComponentKind::OperatingSystem.collect_info(&fixed_facts()).unwrap();
    assert_eq!(info, vec!["Debian GNU/Linux (x86_64)".to_string()]);
}

#[test]
fn os_line_unknown_without_arch() {
    let mut facts = fixed_facts();
    facts.distribution = None;
    facts.architecture = None;
    let info = SystemComponentKind::OperatingSystem.collect_info(&facts).unwrap();
    assert_eq!(info, vec!["Unknown".to_string()]);
}

#[test]
fn os_line_prefers_os_name() {
    let mut facts = fixed_facts();
    facts.os_name = Some("Linux".to_string());
    let info = SystemComponentKind::OperatingSystem.collect_info(&facts).unwrap();
    assert_eq!(info, vec!["Linux (x86_64)".to_string()]);
}

#[test]
fn gpu_is_unsupported() {
    let r = SystemComponentKind::Gpu.collect_info(&fixed_facts());
    assert_eq!(r, Err(FactError::Unsupported));
}

#[test]
fn missing_reading_is_unavailable() {
    let r = SystemComponentKind::TerminalEmulator.collect_info(&fixed_facts());
    assert_eq!(r, Err(FactError::Unavailable));
    let r = SystemComponentKind::DesktopEnvironment.collect_info(&fixed_facts());
    assert_eq!(r, Err(FactError::Unavailable));
}

#[test]
fn shell_and_window_manager_lines() {
    let facts = fixed_facts();
    assert_eq!(
        SystemComponentKind::CurrentShell.collect_info(&facts).unwrap(),
        vec!["zsh".to_string()]
    );
    assert_eq!(
        SystemComponentKind::WindowManager.collect_info(&facts).unwrap(),
        vec!["i3".to_string()]
    );
}

#[test]
fn hackintosh_model_is_marked() {
    let r = get_model("MacPro7,1\n", "  12 0 Lilu\n  13 0 VirtualSMC (1.3.2)\n");
    assert_eq!(r, "Hackintosh (SMBIOS: MacPro7,1\n)");
    let r = get_model("MacBookPro18,3", "FakeSMC");
    assert_eq!(r, "Hackintosh (SMBIOS: MacBookPro18,3)");
}

#[test]
fn genuine_mac_model_is_kept() {
    let r = get_model("MacBookPro18,3", "  1 0 com.apple.kpi.bsd\n  2 0 AppleSMC\n");
    assert_eq!(r, "MacBookPro18,3");
}
