//! Application settings: defaults, validation and partial updates.

use vstd::prelude::*;
use crate::text::{trim, trimmed, lemma_trimmed_shape};

verus! {

pub const DEFAULT_PANEL_WIDTH: u32 = 360;

pub const DEFAULT_HOTKEY: &'static str = "ctrl+shift+space";

pub const MAX_RETENTION_DAYS: u32 = 365;

pub const MIN_TASK_UPDATE_INTERVAL_HOURS: u32 = 1;

pub const MAX_TASK_UPDATE_INTERVAL_HOURS: u32 = 168;

pub const SETTINGS_FILE: &'static str = "settings.json";

/// Days a completed urgent task is kept when nothing else is configured.
pub const DEFAULT_RETENTION_DAYS: u32 = 3;

/// Hours between two maintenance runs when nothing else is configured.
pub const DEFAULT_TASK_UPDATE_INTERVAL_HOURS: u32 = 6;

/// Seconds in an hour.
pub const SECONDS_PER_HOUR: u64 = 3600;

/// The user's settings.
#[derive(Debug, Clone, PartialEq)]
pub struct AppSettings {
    pub panel_width: u32,
    pub hotkey: String,
    pub autostart: bool,
    pub show_created_at: bool,
    pub show_completed_at: bool,
    pub completed_retention_days: u32,
    pub confirm_task_delete: bool,
    pub task_update_interval_hours: u32,
    pub show_completed_tasks: bool,
    pub use_daily: bool,
    pub use_weekly: bool,
    pub use_backlog: bool,
}

/// A partial update of the settings: each field that is `Some` replaces the
/// setting of the same name.
#[derive(Debug, Clone, PartialEq)]
pub struct SettingsPatch {
    pub hotkey: Option<String>,
    pub autostart: Option<bool>,
    pub show_created_at: Option<bool>,
    pub show_completed_at: Option<bool>,
    pub completed_retention_days: Option<u32>,
    pub confirm_task_delete: Option<bool>,
    pub task_update_interval_hours: Option<u32>,
    pub show_completed_tasks: Option<bool>,
    pub use_daily: Option<bool>,
    pub use_weekly: Option<bool>,
    pub use_backlog: Option<bool>,
}

/// Whether `s` holds the default value of every setting.
pub open spec fn is_default_settings(s: AppSettings) -> bool {
    &&& s.panel_width == DEFAULT_PANEL_WIDTH
    &&& s.hotkey@ == DEFAULT_HOTKEY@
    &&& !s.autostart
    &&& s.show_created_at
    &&& s.show_completed_at
    &&& s.completed_retention_days == DEFAULT_RETENTION_DAYS
    &&& s.confirm_task_delete
    &&& s.task_update_interval_hours == DEFAULT_TASK_UPDATE_INTERVAL_HOURS
    &&& s.show_completed_tasks
    &&& s.use_daily
    &&& s.use_weekly
    &&& s.use_backlog
}

/// Whether `p` changes nothing.
pub open spec fn is_empty_patch(p: SettingsPatch) -> bool {
    &&& p.hotkey is None
    &&& p.autostart is None
    &&& p.show_created_at is None
    &&& p.show_completed_at is None
    &&& p.completed_retention_days is None
    &&& p.confirm_task_delete is None
    &&& p.task_update_interval_hours is None
    &&& p.show_completed_tasks is None
    &&& p.use_daily is None
    &&& p.use_weekly is None
    &&& p.use_backlog is None
}

pub fn default_panel_width() -> (w: u32)
    ensures
        w == DEFAULT_PANEL_WIDTH,
{
    DEFAULT_PANEL_WIDTH
}

pub fn default_hotkey() -> (h: String)
    ensures
        h@ == DEFAULT_HOTKEY@,
{
    String::from_str(DEFAULT_HOTKEY)
}

pub fn default_true() -> (b: bool)
    ensures
        b,
{
    true
}

pub fn default_retention_days() -> (d: u32)
    ensures
        d == DEFAULT_RETENTION_DAYS,
{
    DEFAULT_RETENTION_DAYS
}

pub fn default_task_update_interval_hours() -> (h: u32)
    ensures
        h == DEFAULT_TASK_UPDATE_INTERVAL_HOURS,
{
    DEFAULT_TASK_UPDATE_INTERVAL_HOURS
}

impl Default for AppSettings {
    fn default() -> (s: Self)
        ensures
            is_default_settings(s),
    {
        AppSettings {
            panel_width: DEFAULT_PANEL_WIDTH,
            hotkey: default_hotkey(),
            autostart: false,
            show_created_at: true,
            show_completed_at: true,
            completed_retention_days: DEFAULT_RETENTION_DAYS,
            confirm_task_delete: true,
            task_update_interval_hours: DEFAULT_TASK_UPDATE_INTERVAL_HOURS,
            show_completed_tasks: true,
            use_daily: true,
            use_weekly: true,
            use_backlog: true,
        }
    }
}

impl Default for SettingsPatch {
    fn default() -> (p: Self)
        ensures
            is_empty_patch(p),
    {
        SettingsPatch {
            hotkey: None,
            autostart: None,
            show_created_at: None,
            show_completed_at: None,
            completed_retention_days: None,
            confirm_task_delete: None,
            task_update_interval_hours: None,
            show_completed_tasks: None,
            use_daily: None,
            use_weekly: None,
            use_backlog: None,
        }
    }
}

pub open spec fn retention_error() -> Seq<char> {
    "completed_retention_days must be <= 365"@
}

pub open spec fn interval_error() -> Seq<char> {
    "task_update_interval_hours must be between 1 and 168"@
}

pub open spec fn hotkey_error() -> Seq<char> {
    "hotkey must not be empty"@
}

/// The first rule that `s` breaks, as its message; `None` when `s` is valid.
pub open spec fn settings_error(s: AppSettings) -> Option<Seq<char>> {
    if s.completed_retention_days > MAX_RETENTION_DAYS {
        Some(retention_error())
    } else if s.task_update_interval_hours < MIN_TASK_UPDATE_INTERVAL_HOURS
        || s.task_update_interval_hours > MAX_TASK_UPDATE_INTERVAL_HOURS {
        Some(interval_error())
    } else if trimmed(s.hotkey@).len() == 0 {
        Some(hotkey_error())
    } else {
        None
    }
}

/// Whether `s` breaks no rule.
pub open spec fn settings_valid(s: AppSettings) -> bool {
    settings_error(s) is None
}

/// Checks the settings: retention at most `MAX_RETENTION_DAYS`, update
/// interval within bounds, hotkey not blank.
pub fn validate(settings: &AppSettings) -> (res: Result<(), String>)
    ensures
        res is Ok <==> settings_valid(*settings),
        res matches Err(e) ==> settings_error(*settings) == Some(e@),
        res is Ok <==> (settings.completed_retention_days <= 365
            && 1 <= settings.task_update_interval_hours <= 168 && trimmed(settings.hotkey@).len()
            > 0),
{
    if settings.completed_retention_days > MAX_RETENTION_DAYS {
        return Err(String::from_str("completed_retention_days must be <= 365"));
    }
    if settings.task_update_interval_hours < MIN_TASK_UPDATE_INTERVAL_HOURS
        || settings.task_update_interval_hours > MAX_TASK_UPDATE_INTERVAL_HOURS {
        return Err(String::from_str("task_update_interval_hours must be between 1 and 168"));
    }
    if trim(settings.hotkey.as_str()).unicode_len() == 0 {
        return Err(String::from_str("hotkey must not be empty"));
    }
    Ok(())
}

/// `s` with every field that `p` sets replaced.
pub open spec fn patched(s: AppSettings, p: SettingsPatch) -> AppSettings {
    AppSettings {
        panel_width: s.panel_width,
        hotkey: match p.hotkey {
            Some(v) => v,
            None => s.hotkey,
        },
        autostart: match p.autostart {
            Some(v) => v,
            None => s.autostart,
        },
        show_created_at: match p.show_created_at {
            Some(v) => v,
            None => s.show_created_at,
        },
        show_completed_at: match p.show_completed_at {
            Some(v) => v,
            None => s.show_completed_at,
        },
        completed_retention_days: match p.completed_retention_days {
            Some(v) => v,
            None => s.completed_retention_days,
        },
        confirm_task_delete: match p.confirm_task_delete {
            Some(v) => v,
            None => s.confirm_task_delete,
        },
        task_update_interval_hours: match p.task_update_interval_hours {
            Some(v) => v,
            None => s.task_update_interval_hours,
        },
        show_completed_tasks: match p.show_completed_tasks {
            Some(v) => v,
            None => s.show_completed_tasks,
        },
        use_daily: match p.use_daily {
            Some(v) => v,
            None => s.use_daily,
        },
        use_weekly: match p.use_weekly {
            Some(v) => v,
            None => s.use_weekly,
        },
        use_backlog: match p.use_backlog {
            Some(v) => v,
            None => s.use_backlog,
        },
    }
}

/// `settings` with every field that `patch` sets replaced.
fn merge_patch(settings: AppSettings, patch: SettingsPatch) -> (r: AppSettings)
    ensures
        r == patched(settings, patch),
{
    let settings = AppSettings {
        panel_width: settings.panel_width,
        hotkey: match patch.hotkey {
            Some(v) => v,
            None => settings.hotkey,
        },
        autostart: match patch.autostart {
            Some(v) => v,
            None => settings.autostart,
        },
        show_created_at: match patch.show_created_at {
            Some(v) => v,
            None => settings.show_created_at,
        },
        show_completed_at: match patch.show_completed_at {
            Some(v) => v,
            None => settings.show_completed_at,
        },
        completed_retention_days: match patch.completed_retention_days {
            Some(v) => v,
            None => settings.completed_retention_days,
        },
        confirm_task_delete: match patch.confirm_task_delete {
            Some(v) => v,
            None => settings.confirm_task_delete,
        },
        task_update_interval_hours: match patch.task_update_interval_hours {
            Some(v) => v,
            None => settings.task_update_interval_hours,
        },
        show_completed_tasks: match patch.show_completed_tasks {
            Some(v) => v,
            None => settings.show_completed_tasks,
        },
        use_daily: match patch.use_daily {
            Some(v) => v,
            None => settings.use_daily,
        },
        use_weekly: match patch.use_weekly {
            Some(v) => v,
            None => settings.use_weekly,
        },
        use_backlog: match patch.use_backlog {
            Some(v) => v,
            None => settings.use_backlog,
        },
    };
    settings
}

/// Applies `patch` to `settings`; the result is returned only if it is valid.
pub fn apply_patch(settings: AppSettings, patch: SettingsPatch) -> (res: Result<
    AppSettings,
    String,
>)
    ensures
        res is Ok <==> settings_valid(patched(settings, patch)),
        res matches Ok(r) ==> r == patched(settings, patch),
        res matches Err(e) ==> settings_error(patched(settings, patch)) == Some(e@),
        res matches Ok(r) ==> (patch.autostart matches Some(v) ==> r.autostart == v),
        res matches Ok(r) ==> (patch.autostart is None ==> r.autostart == settings.autostart),
        res matches Ok(r) ==> (patch.show_created_at matches Some(v) ==> r.show_created_at == v),
        res matches Ok(r) ==> (patch.show_created_at is None ==> r.show_created_at == settings.show_created_at),
        res matches Ok(r) ==> (patch.show_completed_at matches Some(v) ==> r.show_completed_at == v),
        res matches Ok(r) ==> (patch.show_completed_at is None ==> r.show_completed_at == settings.show_completed_at),
        res matches Ok(r) ==> (patch.completed_retention_days matches Some(v) ==> r.completed_retention_days == v),
        res matches Ok(r) ==> (patch.completed_retention_days is None ==> r.completed_retention_days == settings.completed_retention_days),
        res matches Ok(r) ==> (patch.confirm_task_delete matches Some(v) ==> r.confirm_task_delete == v),
        res matches Ok(r) ==> (patch.confirm_task_delete is None ==> r.confirm_task_delete == settings.confirm_task_delete),
        res matches Ok(r) ==> (patch.task_update_interval_hours matches Some(v) ==> r.task_update_interval_hours == v),
        res matches Ok(r) ==> (patch.task_update_interval_hours is None ==> r.task_update_interval_hours == settings.task_update_interval_hours),
        res matches Ok(r) ==> (patch.show_completed_tasks matches Some(v) ==> r.show_completed_tasks == v),
        res matches Ok(r) ==> (patch.show_completed_tasks is None ==> r.show_completed_tasks == settings.show_completed_tasks),
        res matches Ok(r) ==> (patch.use_daily matches Some(v) ==> r.use_daily == v),
        res matches Ok(r) ==> (patch.use_daily is None ==> r.use_daily == settings.use_daily),
        res matches Ok(r) ==> (patch.use_weekly matches Some(v) ==> r.use_weekly == v),
        res matches Ok(r) ==> (patch.use_weekly is None ==> r.use_weekly == settings.use_weekly),
        res matches Ok(r) ==> (patch.use_backlog matches Some(v) ==> r.use_backlog == v),
        res matches Ok(r) ==> (patch.use_backlog is None ==> r.use_backlog == settings.use_backlog),
        res matches Ok(r) ==> (patch.hotkey matches Some(v) ==> r.hotkey == v),
        res matches Ok(r) ==> (patch.hotkey is None ==> r.hotkey == settings.hotkey),
        res matches Ok(r) ==> r.panel_width == settings.panel_width,
        res matches Ok(r) ==> r.completed_retention_days <= 365 && 1
            <= r.task_update_interval_hours <= 168 && trimmed(r.hotkey@).len() > 0,
{
    proof {
        lemma_patch_sets_each_field(settings, patch);
    }
    let merged = merge_patch(settings, patch);
    match validate(&merged) {
        Ok(()) => Ok(merged),
        Err(e) => Err(e),
    }
}

/// The default settings break no rule.
pub proof fn lemma_default_settings_valid(s: AppSettings)
    requires
        is_default_settings(s),
    ensures
        settings_valid(s),
{
    reveal_strlit("ctrl+shift+space");
    lemma_trimmed_shape(s.hotkey@);
    assert(!crate::text::is_white_space(s.hotkey@[0]));
}

/// A patch that sets nothing leaves the settings as they are.
pub proof fn lemma_empty_patch_keeps_settings(s: AppSettings, p: SettingsPatch)
    requires
        is_empty_patch(p),
    ensures
        patched(s, p) == s,
{
}

/// Applying the same patch twice gives the same settings as applying it once.
pub proof fn lemma_patch_idempotent(s: AppSettings, p: SettingsPatch)
    ensures
        patched(patched(s, p), p) == patched(s, p),
{
}

/// Patching never changes the panel width, and a field the patch sets takes
/// the patch's value whatever the settings held before.
pub proof fn lemma_patch_overrides(s1: AppSettings, s2: AppSettings, p: SettingsPatch)
    ensures
        patched(s1, p).panel_width == s1.panel_width,
        p.hotkey is Some ==> patched(s1, p).hotkey == patched(s2, p).hotkey,
        p.completed_retention_days is Some ==> patched(s1, p).completed_retention_days
            == patched(s2, p).completed_retention_days,
        p.task_update_interval_hours is Some ==> patched(s1, p).task_update_interval_hours
            == patched(s2, p).task_update_interval_hours,
        p.autostart is Some ==> patched(s1, p).autostart == patched(s2, p).autostart,
{
}


/// Each field a patch sets takes the patch's value, whatever the settings held
/// before; each field it leaves out keeps its value; the panel width is kept.
pub proof fn lemma_patch_sets_each_field(s: AppSettings, p: SettingsPatch)
    ensures
        p.autostart matches Some(v) ==> patched(s, p).autostart == v,
        p.autostart is None ==> patched(s, p).autostart == s.autostart,
        p.show_created_at matches Some(v) ==> patched(s, p).show_created_at == v,
        p.show_created_at is None ==> patched(s, p).show_created_at == s.show_created_at,
        p.show_completed_at matches Some(v) ==> patched(s, p).show_completed_at == v,
        p.show_completed_at is None ==> patched(s, p).show_completed_at == s.show_completed_at,
        p.completed_retention_days matches Some(v) ==> patched(s, p).completed_retention_days == v,
        p.completed_retention_days is None ==> patched(s, p).completed_retention_days == s.completed_retention_days,
        p.confirm_task_delete matches Some(v) ==> patched(s, p).confirm_task_delete == v,
        p.confirm_task_delete is None ==> patched(s, p).confirm_task_delete == s.confirm_task_delete,
        p.task_update_interval_hours matches Some(v) ==> patched(s, p).task_update_interval_hours == v,
        p.task_update_interval_hours is None ==> patched(s, p).task_update_interval_hours == s.task_update_interval_hours,
        p.show_completed_tasks matches Some(v) ==> patched(s, p).show_completed_tasks == v,
        p.show_completed_tasks is None ==> patched(s, p).show_completed_tasks == s.show_completed_tasks,
        p.use_daily matches Some(v) ==> patched(s, p).use_daily == v,
        p.use_daily is None ==> patched(s, p).use_daily == s.use_daily,
        p.use_weekly matches Some(v) ==> patched(s, p).use_weekly == v,
        p.use_weekly is None ==> patched(s, p).use_weekly == s.use_weekly,
        p.use_backlog matches Some(v) ==> patched(s, p).use_backlog == v,
        p.use_backlog is None ==> patched(s, p).use_backlog == s.use_backlog,
        p.hotkey matches Some(v) ==> patched(s, p).hotkey == v,
        p.hotkey is None ==> patched(s, p).hotkey == s.hotkey,
        patched(s, p).panel_width == s.panel_width,
{
}

/// Settings are valid exactly when the retention is at most 365 days, the
/// update interval lies between 1 and 168 hours (every value in between is
/// accepted) and the hotkey is not blank.
pub proof fn lemma_valid_settings_bounds(s: AppSettings)
    ensures
        settings_valid(s) <==> (s.completed_retention_days <= 365 && 1
            <= s.task_update_interval_hours <= 168 && exists|i: int|
            0 <= i < s.hotkey@.len() && !crate::text::is_white_space(#[trigger] s.hotkey@[i])),
{
    lemma_trimmed_shape(s.hotkey@);
}

/// What must happen after a patch was applied and saved.
#[derive(Debug, Clone, Copy, PartialEq, Eq, Structural)]
pub struct SettingsEffects {
    /// The global shortcut must be registered again.
    pub reregister_hotkey: bool,
    /// The autostart entry must follow the new setting.
    pub sync_autostart: bool,
    /// Task maintenance must run with the new retention.
    pub run_maintenance: bool,
}

/// The follow-up work a patch calls for: a new hotkey is registered, a new
/// autostart choice is synced, a new retention triggers maintenance.
pub fn settings_side_effects(patch: &SettingsPatch) -> (e: SettingsEffects)
    ensures
        e.reregister_hotkey == patch.hotkey is Some,
        e.sync_autostart == patch.autostart is Some,
        e.run_maintenance == patch.completed_retention_days is Some,
{
    SettingsEffects {
        reregister_hotkey: patch.hotkey.is_some(),
        sync_autostart: patch.autostart.is_some(),
        run_maintenance: patch.completed_retention_days.is_some(),
    }
}

/// Seconds to wait between two maintenance runs: the configured number of
/// hours, at least `MIN_TASK_UPDATE_INTERVAL_HOURS`.
pub fn maintenance_interval_secs(interval_hours: u32) -> (secs: u64)
    ensures
        secs == SECONDS_PER_HOUR * (if interval_hours >= MIN_TASK_UPDATE_INTERVAL_HOURS {
            interval_hours
        } else {
            MIN_TASK_UPDATE_INTERVAL_HOURS
        }),
        secs >= SECONDS_PER_HOUR,
{
    let hours = if interval_hours >= MIN_TASK_UPDATE_INTERVAL_HOURS {
        interval_hours
    } else {
        MIN_TASK_UPDATE_INTERVAL_HOURS
    };
    (hours as u64) * SECONDS_PER_HOUR
}

#[verifier::external_type_specification]
#[verifier::external_body]
pub struct ExPath(std::path::Path);

#[verifier::external_type_specification]
#[verifier::external_body]
pub struct ExPathBuf(std::path::PathBuf);

/// What a borrowed path holds: its encoded bytes (`OsStr::as_encoded_bytes`).
pub uninterp spec fn path_bytes(p: &std::path::Path) -> Seq<u8>;

/// What an owned path holds: its encoded bytes (`OsStr::as_encoded_bytes`).
pub uninterp spec fn path_buf_bytes(p: std::path::PathBuf) -> Seq<u8>;

/// What `Path::join` gives for a directory holding `dir` and the relative or
/// absolute path `name`; how separators and absolute names are handled is
/// platform-specific and left to this name.
pub uninterp spec fn joined_path(dir: Seq<u8>, name: Seq<char>) -> Seq<u8>;

/// `Path::join`: the path `dir` with `name` adjoined. The contract claims only
/// that the result is a function of what `dir` holds and of `name`; the
/// separator rules, which differ between platforms, are left to `joined_path`.
#[verifier::external_body]
fn join_path(dir: &std::path::Path, name: &str) -> (r: std::path::PathBuf)
    ensures
        path_buf_bytes(r) == joined_path(path_bytes(dir), name@),
{
    dir.join(name)
}

/// Path of the settings file (`SETTINGS_FILE`) inside the data directory.
pub fn settings_file_path(data_dir: &std::path::Path) -> (p: std::path::PathBuf)
    ensures
        path_buf_bytes(p) == joined_path(path_bytes(data_dir), SETTINGS_FILE@),
{
    join_path(data_dir, SETTINGS_FILE)
}

} // verus!
