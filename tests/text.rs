use so_sysinfo::facts::{cpu_text, os_text};
use so_sysinfo::kind::SystemComponentKind;
use so_sysinfo::logos::{LogoKind, GRAFFITI_HEAD, GRAFFITI_TAIL, SHADOW_HEAD, SHADOW_TAIL};
use so_sysinfo::model::contains_text;
use so_sysinfo::process::{clean_process_name, pick_window_manager, same_text, shell_name_from};
use so_sysinfo::text::{decimal_text, pad_with_zeros};

#[test]
fn decimal_numerals() {
    assert_eq!(decimal_text(0), "0");
    assert_eq!(decimal_text(7), "7");
    assert_eq!(decimal_text(10), "10");
    assert_eq!(decimal_text(2024), "2024");
    assert_eq!(decimal_text(usize::MAX), usize::MAX.to_string());
}

#[test]
fn zero_padding() {
    assert_eq!(pad_with_zeros("7", 4), "0007");
    assert_eq!(pad_with_zeros("2024", 4), "2024");
    assert_eq!(pad_with_zeros("12345", 4), "12345");
    assert_eq!(pad_with_zeros("", 2), "00");
}

#[test]
fn cpu_and_os_text() {
    assert_eq!(cpu_text(12, "Ryzen 5"), "12x Ryzen 5");
    assert_eq!(
        os_text(&None, &None, &Some("aarch64".to_string())),
        "Unknown (aarch64)"
    );
}

#[test]
fn shell_names() {
    assert_eq!(shell_name_from("-bash"), "bash");
    assert_eq!(shell_name_from("pwsh.exe"), "pwsh");
    assert_eq!(shell_name_from("-zsh.exe"), "zsh");
    assert_eq!(shell_name_from("fish"), "fish");
    assert_eq!(shell_name_from(".exe"), "");
    assert_eq!(shell_name_from("-"), "");
    assert_eq!(clean_process_name("  -BASH \n"), "bash");
    assert_eq!(clean_process_name("PowerShell.EXE"), "powershell");
}

#[test]
fn text_comparison() {
    assert!(same_text("cargo", "cargo"));
    assert!(!same_text("cargo", "cargo2"));
    assert!(!same_text("cargp", "cargo"));
    assert!(contains_text("abcFakeSMCdef", "FakeSMC"));
    assert!(!contains_text("FakeSM", "FakeSMC"));
    assert!(contains_text("", ""));
}

#[test]
fn window_manager_pick() {
    assert_eq!(pick_window_manager(&vec![false, false, true, true, false, false]), "yabai");
    assert_eq!(pick_window_manager(&vec![false; 6]), "Quartz Compositor");
    assert_eq!(pick_window_manager(&vec![]), "Quartz Compositor");
    assert_eq!(pick_window_manager(&vec![false, false, false, false, false, true]), "Rectangle");
}

#[test]
fn banners_for_a_year() {
    let (text, w, h) = LogoKind::Graffiti.render_for_year("2024");
    assert_eq!((w, h), (53, 6));
    assert_eq!(text, format!("{GRAFFITI_HEAD}2024{GRAFFITI_TAIL}"));
    assert!(text.ends_with("(C) Solaara's Network 2024"));
    assert_eq!(text.lines().count(), 6);
    let (text, w, h) = LogoKind::Shadow.render_for_year("987");
    assert_eq!((w, h), (81, 16));
    assert_eq!(text, format!("{SHADOW_HEAD}0987{SHADOW_TAIL}"));
    assert_eq!(text.lines().count(), 16);
}

#[test]
fn banner_for_now_has_a_year() {
    let (text, w, h) = LogoKind::Shadow.get_rendered();
    assert_eq!((w, h), (81, 16));
    assert!(text.starts_with(SHADOW_HEAD));
    assert!(text.len() >= SHADOW_HEAD.len() + 4);
    assert_eq!(LogoKind::Shadow.next(), LogoKind::Graffiti);
    assert_eq!(LogoKind::Graffiti.name(), "Graffiti");
}

#[test]
fn kind_titles_and_links() {
    assert_eq!(SystemComponentKind::TerminalEmulator.title(), "[ Terminal ]");
    assert_eq!(SystemComponentKind::DesktopEnvironment.title(), "[ DE ]");
    assert_eq!(
        SystemComponentKind::OperatingSystem.get_links(),
        vec![
            SystemComponentKind::TerminalEmulator,
            SystemComponentKind::DesktopEnvironment,
            SystemComponentKind::WindowManager
        ]
    );
    assert!(SystemComponentKind::CurrentShell.get_links().is_empty());
    assert!(SystemComponentKind::Gpu.links_to(SystemComponentKind::BoardModel));
    assert!(!SystemComponentKind::BoardModel.links_to(SystemComponentKind::Cpu));
    assert_eq!(SystemComponentKind::all().len(), 9);
}
