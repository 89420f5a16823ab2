use ok200_core::common::resolve_cfu_id;
use ok200_core::default_true;
use ok200_core::fs_commands::TreeEntry;
use ok200_core::native_host::{native_host_manifest_json, sidecar_base_name, sidecar_file_names};
use ok200_core::settings::{apply_menu_event, MenuEffect, Settings};
use ok200_core::strip_win_prefix;
use ok200_core::text::trim_ascii;
use ok200_core::updater::{update_check_result, update_result_json, UpdateOutcome};

#[test]
fn test_default_true() {
    assert!(default_true());
}

#[test]
fn test_strip_win_prefix_strips() {
    let p = strip_win_prefix("\\\\?\\C:\\Users\\me".to_string());
    assert_eq!(p, "C:\\Users\\me");
}

#[test]
fn test_strip_win_prefix_leaves_plain_paths() {
    let p = strip_win_prefix("C:\\Users\\me".to_string());
    assert_eq!(p, "C:\\Users\\me");
    assert_eq!(strip_win_prefix(String::new()), "");
}

#[test]
fn test_settings_default() {
    let s = Settings::default();
    assert!(!s.autostart);
    assert!(s.run_in_background);
    assert!(s.show_in_menu_bar);
}

#[test]
fn test_menu_show_and_quit() {
    let mut s = Settings::default();
    assert_eq!(apply_menu_event(&mut s, "show"), MenuEffect::ShowWindow);
    assert_eq!(apply_menu_event(&mut s, "check-updates"), MenuEffect::CheckUpdates);
    assert_eq!(apply_menu_event(&mut s, "quit"), MenuEffect::Quit);
    assert_eq!(apply_menu_event(&mut s, "nonsense"), MenuEffect::Ignore);
    assert_eq!(s, Settings::default());
}

#[test]
fn test_menu_toggles() {
    let mut s = Settings::default();
    assert_eq!(apply_menu_event(&mut s, "autostart"), MenuEffect::ApplyAutostart(true));
    assert!(s.autostart);
    assert_eq!(apply_menu_event(&mut s, "autostart"), MenuEffect::ApplyAutostart(false));
    assert!(!s.autostart);
    assert_eq!(apply_menu_event(&mut s, "run-in-background"), MenuEffect::PersistSettings);
    assert!(!s.run_in_background);
    assert_eq!(apply_menu_event(&mut s, "show-in-menu-bar"), MenuEffect::SetTrayVisible(false));
    assert!(!s.show_in_menu_bar);
    assert_eq!(apply_menu_event(&mut s, "show-in-menu-bar"), MenuEffect::SetTrayVisible(true));
    assert!(s.show_in_menu_bar);
}

#[test]
fn test_update_result_up_to_date() {
    let r = update_check_result(UpdateOutcome::UpToDate);
    assert!(!r.available);
    assert_eq!(update_result_json(&r), "{\"available\":false}");
}

#[test]
fn test_update_result_available() {
    let r = update_check_result(UpdateOutcome::Available {
        version: "1.2.3".to_string(),
        current_version: "1.0.0".to_string(),
        body: Some("notes".to_string()),
    });
    assert!(r.available);
    assert_eq!(
        update_result_json(&r),
        "{\"available\":true,\"version\":\"1.2.3\",\"current_version\":\"1.0.0\",\"body\":\"notes\"}"
    );
}

#[test]
fn test_update_result_check_failed() {
    let r = update_check_result(UpdateOutcome::CheckFailed {
        message: "Update check failed: timeout".to_string(),
    });
    assert!(!r.available);
    assert_eq!(
        update_result_json(&r),
        "{\"available\":false,\"error\":\"Update check failed: timeout\"}"
    );
}

#[test]
fn test_update_result_install_failed() {
    let r = update_check_result(UpdateOutcome::InstallFailed {
        version: "2.0.0".to_string(),
        current_version: "1.0.0".to_string(),
        body: None,
        message: "Install failed: disk full".to_string(),
    });
    assert!(r.available);
    assert_eq!(
        update_result_json(&r),
        "{\"available\":true,\"version\":\"2.0.0\",\"current_version\":\"1.0.0\",\"error\":\"Install failed: disk full\"}"
    );
}

#[test]
fn test_manifest_json() {
    let json = native_host_manifest_json("/usr/lib/ok200/ok200-host");
    let parsed: serde_json::Value = serde_json::from_str(&json).unwrap();
    assert_eq!(parsed["name"], "app.ok200.native");
    assert_eq!(parsed["type"], "stdio");
    assert_eq!(parsed["path"], "/usr/lib/ok200/ok200-host");
    assert_eq!(parsed["allowed_origins"][0], "chrome-extension://PLACEHOLDER_STABLE_ID/");
    assert_eq!(parsed["allowed_origins"][1], "chrome-extension://PLACEHOLDER_DEV_ID/");
}

#[test]
fn test_manifest_json_escapes_path() {
    let json = native_host_manifest_json("C:\\Program Files\\ok200\\host.exe");
    assert!(json.contains("C:\\\\Program Files\\\\ok200\\\\host.exe"));
}

#[test]
fn test_sidecar_names() {
    let base = sidecar_base_name("binaries/ok200-host");
    assert_eq!(base, "ok200-host");
    let names = sidecar_file_names(&base, "x86_64-unknown-linux-gnu", "");
    assert_eq!(names, vec!["ok200-host-x86_64-unknown-linux-gnu".to_string(), "ok200-host".to_string()]);
    let win = sidecar_file_names(&base, "x86_64-pc-windows-msvc", ".exe");
    assert_eq!(win[0], "ok200-host-x86_64-pc-windows-msvc.exe");
    assert_eq!(win[1], "ok200-host.exe");
}

#[test]
fn test_sidecar_base_name_plain() {
    assert_eq!(sidecar_base_name("ok200-host"), "ok200-host");
    assert_eq!(sidecar_base_name(""), "");
    assert_eq!(sidecar_base_name("a/"), "");
}

#[test]
fn test_trim_ascii() {
    assert_eq!(trim_ascii("  hello \n"), "hello");
    assert_eq!(trim_ascii("\t\r\n "), "");
    assert_eq!(trim_ascii("inner space kept"), "inner space kept");
}

#[test]
fn test_resolve_cfu_id_keeps_stored() {
    let (id, fresh) = resolve_cfu_id(Some("  11111111-2222-3333-4444-555555555555\n".to_string()));
    assert_eq!(id, "11111111-2222-3333-4444-555555555555");
    assert!(!fresh);
}

#[test]
fn test_resolve_cfu_id_generates_when_missing() {
    let (id, fresh) = resolve_cfu_id(None);
    assert_eq!(id.len(), 36, "should be a UUID with hyphens");
    assert_eq!(id.matches('-').count(), 4);
    assert!(fresh);

    let (id2, fresh2) = resolve_cfu_id(Some("   \n".to_string()));
    assert_eq!(id2.len(), 36);
    assert!(fresh2);
    assert_ne!(id, id2, "fresh ids are random");
}

#[test]
fn test_tree_entry_fields() {
    let e = TreeEntry { path: "docs/readme.txt".to_string(), size: 1024 };
    assert_eq!(e.path, "docs/readme.txt");
    assert_eq!(e.size, 1024);
}
