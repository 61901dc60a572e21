use focus_tasks::settings::{
    apply_patch, default_hotkey, default_panel_width, default_retention_days,
    default_task_update_interval_hours, default_true, maintenance_interval_secs,
    settings_file_path, settings_side_effects, validate, AppSettings, SettingsPatch,
    DEFAULT_HOTKEY, DEFAULT_PANEL_WIDTH, SETTINGS_FILE,
};
use std::path::Path;

#[test]
fn validate_retention_days() {
    let mut s = AppSettings::default();
    s.completed_retention_days = 0;
    assert!(validate(&s).is_ok());
    s.completed_retention_days = 365;
    assert!(validate(&s).is_ok());
    s.completed_retention_days = 366;
    assert!(validate(&s).is_err());
}

#[test]
fn validate_task_update_interval_hours() {
    let mut s = AppSettings::default();
    s.task_update_interval_hours = 1;
    assert!(validate(&s).is_ok());
    s.task_update_interval_hours = 168;
    assert!(validate(&s).is_ok());
    s.task_update_interval_hours = 0;
    assert!(validate(&s).is_err());
    s.task_update_interval_hours = 169;
    assert!(validate(&s).is_err());
}

#[test]
fn validate_messages() {
    let mut s = AppSettings::default();
    s.completed_retention_days = 400;
    s.task_update_interval_hours = 0;
    assert_eq!(
        validate(&s),
        Err("completed_retention_days must be <= 365".to_string())
    );
    s.completed_retention_days = 1;
    assert_eq!(
        validate(&s),
        Err("task_update_interval_hours must be between 1 and 168".to_string())
    );
    s.task_update_interval_hours = 2;
    s.hotkey = " \t ".to_string();
    assert_eq!(validate(&s), Err("hotkey must not be empty".to_string()));
    s.hotkey = " a ".to_string();
    assert_eq!(validate(&s), Ok(()));
}

#[test]
fn default_settings_values() {
    let s = AppSettings::default();
    assert_eq!(s.panel_width, 360);
    assert_eq!(s.hotkey, "ctrl+shift+space");
    assert!(!s.autostart);
    assert!(s.show_created_at);
    assert!(s.show_completed_at);
    assert_eq!(s.completed_retention_days, 3);
    assert!(s.confirm_task_delete);
    assert_eq!(s.task_update_interval_hours, 6);
    assert!(s.show_completed_tasks);
    assert!(s.use_daily && s.use_weekly && s.use_backlog);
    assert_eq!(validate(&s), Ok(()));
}

#[test]
fn serde_default_helpers() {
    assert_eq!(default_panel_width(), DEFAULT_PANEL_WIDTH);
    assert_eq!(default_hotkey(), DEFAULT_HOTKEY);
    assert!(default_true());
    assert_eq!(default_retention_days(), 3);
    assert_eq!(default_task_update_interval_hours(), 6);
}

#[test]
fn apply_patch_merges_fields() {
    let base = AppSettings::default();
    let merged = apply_patch(
        base,
        SettingsPatch {
            show_created_at: Some(false),
            show_completed_at: Some(false),
            ..Default::default()
        },
    )
    .unwrap();
    assert!(!merged.show_created_at);
    assert!(!merged.show_completed_at);
    assert_eq!(merged.hotkey, DEFAULT_HOTKEY);
}

#[test]
fn apply_patch_use_daily() {
    let merged = apply_patch(
        AppSettings::default(),
        SettingsPatch {
            use_daily: Some(false),
            ..Default::default()
        },
    )
    .unwrap();
    assert!(!merged.use_daily);
}

#[test]
fn apply_patch_use_weekly() {
    let merged = apply_patch(
        AppSettings::default(),
        SettingsPatch {
            use_weekly: Some(false),
            ..Default::default()
        },
    )
    .unwrap();
    assert!(!merged.use_weekly);
}

#[test]
fn apply_patch_use_backlog() {
    let merged = apply_patch(
        AppSettings::default(),
        SettingsPatch {
            use_backlog: Some(false),
            ..Default::default()
        },
    )
    .unwrap();
    assert!(!merged.use_backlog);
}

#[test]
fn apply_patch_rejects_invalid_result() {
    let r = apply_patch(
        AppSettings::default(),
        SettingsPatch {
            completed_retention_days: Some(366),
            hotkey: Some("alt+k".to_string()),
            ..Default::default()
        },
    );
    assert_eq!(
        r,
        Err("completed_retention_days must be <= 365".to_string())
    );
    let r = apply_patch(
        AppSettings::default(),
        SettingsPatch {
            hotkey: Some("   ".to_string()),
            ..Default::default()
        },
    );
    assert_eq!(r, Err("hotkey must not be empty".to_string()));
}

#[test]
fn apply_patch_sets_every_field() {
    let base = AppSettings::default();
    let patch = SettingsPatch {
        hotkey: Some("ctrl+alt+k".to_string()),
        autostart: Some(true),
        show_created_at: Some(false),
        show_completed_at: Some(false),
        completed_retention_days: Some(10),
        confirm_task_delete: Some(false),
        task_update_interval_hours: Some(12),
        show_completed_tasks: Some(false),
        use_daily: Some(false),
        use_weekly: Some(false),
        use_backlog: Some(false),
    };
    let merged = apply_patch(base, patch.clone()).unwrap();
    let expected = AppSettings {
        panel_width: DEFAULT_PANEL_WIDTH,
        hotkey: "ctrl+alt+k".to_string(),
        autostart: true,
        show_created_at: false,
        show_completed_at: false,
        completed_retention_days: 10,
        confirm_task_delete: false,
        task_update_interval_hours: 12,
        show_completed_tasks: false,
        use_daily: false,
        use_weekly: false,
        use_backlog: false,
    };
    assert_eq!(merged, expected);
    // applying the same patch again changes nothing
    assert_eq!(apply_patch(merged.clone(), patch).unwrap(), merged);
}

#[test]
fn apply_empty_patch_keeps_settings() {
    let mut base = AppSettings::default();
    base.panel_width = 480;
    let merged = apply_patch(base.clone(), SettingsPatch::default()).unwrap();
    assert_eq!(merged, base);
}

#[test]
fn side_effects_follow_patch_fields() {
    let e = settings_side_effects(&SettingsPatch {
        hotkey: Some("alt+x".to_string()),
        completed_retention_days: Some(5),
        ..Default::default()
    });
    assert!(e.reregister_hotkey);
    assert!(!e.sync_autostart);
    assert!(e.run_maintenance);
    let e = settings_side_effects(&SettingsPatch {
        autostart: Some(false),
        use_daily: Some(true),
        ..Default::default()
    });
    assert!(!e.reregister_hotkey);
    assert!(e.sync_autostart);
    assert!(!e.run_maintenance);
}

#[test]
fn maintenance_interval_has_a_floor() {
    assert_eq!(maintenance_interval_secs(0), 3600);
    assert_eq!(maintenance_interval_secs(1), 3600);
    assert_eq!(maintenance_interval_secs(6), 6 * 3600);
    assert_eq!(maintenance_interval_secs(168), 168 * 3600);
}

#[test]
fn settings_file_path_joins_name() {
    let p = settings_file_path(Path::new("/tmp/focus"));
    assert_eq!(p, Path::new("/tmp/focus").join(SETTINGS_FILE));
    assert!(p.ends_with("settings.json"));
}
