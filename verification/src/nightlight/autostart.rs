//! XDG autostart integration.
//!
//! Turning autostart on writes a desktop entry under the user's autostart
//! directory that launches the daemon at login; turning it off removes the
//! entry. Reading the environment and touching the files is the caller's
//! job; this module computes the paths, the entry's contents and the change
//! to make.

use vstd::prelude::*;

use crate::nightlight::config::APP_ID;

verus! {

/// `base` joined with the relative component `part`, as `PathBuf::join`
/// does: no separator is added after an empty base or one ending in `/`.
pub open spec fn path_join(base: Seq<char>, part: Seq<char>) -> Seq<char> {
    if base.len() == 0 {
        part
    } else if base.last() == '/' {
        base + part
    } else {
        base + seq!['/'] + part
    }
}

/// The autostart directory: `$XDG_CONFIG_HOME/autostart` when that variable
/// is set and non-empty, else `$HOME/.config/autostart`, else none.
pub open spec fn autostart_dir_of(xdg_config_home: Option<Seq<char>>, home: Option<Seq<char>>)
    -> Option<Seq<char>> {
    let config_home = match xdg_config_home {
        Some(dir) if dir.len() > 0 => Some(dir),
        _ => match home {
            Some(h) => Some(path_join(h, ".config"@)),
            None => None,
        },
    };
    match config_home {
        Some(dir) => Some(path_join(dir, "autostart"@)),
        None => None,
    }
}

/// The file name of the autostart entry: the app id with `.desktop`.
pub open spec fn entry_file_name() -> Seq<char> {
    APP_ID@ + ".desktop"@
}

/// The autostart entry's path.
pub open spec fn entry_path_of(xdg_config_home: Option<Seq<char>>, home: Option<Seq<char>>)
    -> Option<Seq<char>> {
    match autostart_dir_of(xdg_config_home, home) {
        Some(dir) => Some(path_join(dir, entry_file_name())),
        None => None,
    }
}

/// The characters of an optional environment value.
pub open spec fn env_view(value: Option<String>) -> Option<Seq<char>> {
    match value {
        Some(text) => Some(text@),
        None => None,
    }
}

/// Joins a relative component onto a path, as `PathBuf::join` does.
pub fn join_path(base: &str, part: &str) -> (res: String)
    ensures
        res@ == path_join(base@, part@),
{
    let len = base.unicode_len();
    if len == 0 {
        part.to_owned()
    } else if base.get_char(len - 1) == '/' {
        base.to_owned().concat(part)
    } else {
        proof {
            reveal_strlit("/");
        }
        base.to_owned().concat("/").concat(part)
    }
}

/// `$XDG_CONFIG_HOME/autostart`, falling back to `$HOME/.config/autostart`.
pub fn autostart_dir(xdg_config_home: &Option<String>, home: &Option<String>) -> (res: Option<
    String,
>)
    ensures
        env_view(res) == autostart_dir_of(env_view(*xdg_config_home), env_view(*home)),
{
    let config_home = match xdg_config_home {
        Some(dir) if dir.as_str().unicode_len() > 0 => Some(dir.clone()),
        _ => match home {
            Some(h) => Some(join_path(h.as_str(), ".config")),
            None => None,
        },
    };
    match config_home {
        Some(dir) => Some(join_path(dir.as_str(), "autostart")),
        None => None,
    }
}

/// The path of the autostart entry.
pub fn entry_path(xdg_config_home: &Option<String>, home: &Option<String>) -> (res: Option<String>)
    ensures
        env_view(res) == entry_path_of(env_view(*xdg_config_home), env_view(*home)),
{
    match autostart_dir(xdg_config_home, home) {
        Some(dir) => {
            let name = String::from_str(APP_ID).concat(".desktop");
            Some(join_path(dir.as_str(), name.as_str()))
        },
        None => None,
    }
}

/// Whether autostart is on: there is an entry path and a file is at it.
pub open spec fn autostart_on(
    xdg_config_home: Option<Seq<char>>,
    home: Option<Seq<char>>,
    entry_exists: bool,
) -> bool {
    entry_path_of(xdg_config_home, home) is Some && entry_exists
}

/// Whether the autostart entry currently exists. `entry_exists` is the disk's
/// answer for the path [`entry_path`] gives (the caller looks; with no entry
/// path there is nothing to look at).
pub fn is_enabled(xdg_config_home: &Option<String>, home: &Option<String>, entry_exists: bool) -> (res:
    bool)
    ensures
        res == autostart_on(env_view(*xdg_config_home), env_view(*home), entry_exists),
{
    match entry_path(xdg_config_home, home) {
        Some(_) => entry_exists,
        None => false,
    }
}

/// The running binary's path for the entry's `Exec=` line, or the bare
/// program name when it cannot be resolved.
pub fn exec_path(current_exe: &Option<String>) -> (res: String)
    ensures
        current_exe is Some ==> res@ == current_exe->0@,
        current_exe is None ==> res@ == "cosmic-nightlight"@,
{
    match current_exe {
        Some(path) => path.clone(),
        None => String::from_str("cosmic-nightlight"),
    }
}

/// The desktop entry that starts the daemon at login with executable `exec`.
pub open spec fn entry_text(exec: Seq<char>) -> Seq<char> {
    "[Desktop Entry]\nType=Application\nName=Night Light (daemon)\nComment=Apply the night-light tint on a schedule\nExec="@
        + exec + " --daemon\nIcon=weather-clear-night-symbolic\nTerminal=false\nX-GNOME-Autostart-enabled=true\n"@
}

/// Renders the desktop entry for executable `exec`.
pub fn entry_contents(exec: &str) -> (res: String)
    ensures
        res@ == entry_text(exec@),
{
    String::from_str(
        "[Desktop Entry]\nType=Application\nName=Night Light (daemon)\nComment=Apply the night-light tint on a schedule\nExec=",
    ).concat(exec).concat(
        " --daemon\nIcon=weather-clear-night-symbolic\nTerminal=false\nX-GNOME-Autostart-enabled=true\n",
    )
}

/// The autostart entry is exactly these eight lines, the `Exec=` line
/// launching `exec` with `--daemon`, and nothing else (no `Hidden` key, which
/// would make the entry count as deleted).
pub proof fn entry_is_the_eight_lines(exec: Seq<char>)
    ensures
        entry_text(exec) == "[Desktop Entry]\n"@ + "Type=Application\n"@ + "Name=Night Light (daemon)\n"@ + "Comment=Apply the night-light tint on a schedule\n"@ + "Exec="@
            + exec + " --daemon\n"@ + "Icon=weather-clear-night-symbolic\n"@ + "Terminal=false\n"@ + "X-GNOME-Autostart-enabled=true\n"@,
{
    reveal_strlit("[Desktop Entry]\n");
    reveal_strlit("Type=Application\n");
    reveal_strlit("Name=Night Light (daemon)\n");
    reveal_strlit("Comment=Apply the night-light tint on a schedule\n");
    reveal_strlit("Exec=");
    reveal_strlit(" --daemon\n");
    reveal_strlit("Icon=weather-clear-night-symbolic\n");
    reveal_strlit("Terminal=false\n");
    reveal_strlit("X-GNOME-Autostart-enabled=true\n");
    reveal_strlit("[Desktop Entry]\nType=Application\nName=Night Light (daemon)\nComment=Apply the night-light tint on a schedule\nExec=");
    reveal_strlit(" --daemon\nIcon=weather-clear-night-symbolic\nTerminal=false\nX-GNOME-Autostart-enabled=true\n");
    assert(entry_text(exec) =~= "[Desktop Entry]\n"@ + "Type=Application\n"@ + "Name=Night Light (daemon)\n"@ + "Comment=Apply the night-light tint on a schedule\n"@ + "Exec="@
            + exec + " --daemon\n"@ + "Icon=weather-clear-night-symbolic\n"@ + "Terminal=false\n"@ + "X-GNOME-Autostart-enabled=true\n"@);
}

/// The file-system change that sets autostart to the wanted state.
pub enum AutostartChange {
    /// Create `dir` (and its parents) and write `contents` to `path`.
    Write { dir: String, path: String, contents: String },
    /// Remove `path`; a missing file is not an error.
    Remove { path: String },
    /// Enabling is impossible: there is no config directory to hold the entry.
    NoConfigDir,
    /// Disabling with no config directory: nothing to remove.
    Nothing,
}

/// Whether `change` is the change that sets autostart to `enabled`, the
/// entry launching `exec` with `--daemon`.
pub open spec fn planned_change(
    enabled: bool,
    xdg_config_home: Option<Seq<char>>,
    home: Option<Seq<char>>,
    exec: Seq<char>,
    change: AutostartChange,
) -> bool {
    let path = entry_path_of(xdg_config_home, home);
    let dir = autostart_dir_of(xdg_config_home, home);
    match change {
        AutostartChange::Write { dir: d, path: p, contents } => enabled && path == Some(p@)
            && dir == Some(d@) && contents@ == entry_text(exec),
        AutostartChange::Remove { path: p } => !enabled && path == Some(p@),
        AutostartChange::NoConfigDir => enabled && path is None,
        AutostartChange::Nothing => !enabled && path is None,
    }
}

/// The path a change writes or removes.
pub open spec fn touched_path(change: AutostartChange) -> Option<Seq<char>> {
    match change {
        AutostartChange::Write { path, .. } => Some(path@),
        AutostartChange::Remove { path } => Some(path@),
        _ => None,
    }
}

/// Whether a file is at the touched path once the change is made.
pub open spec fn file_after(change: AutostartChange) -> bool {
    change is Write
}

/// Plans the change that applies the desired autostart state, the entry
/// launching `exec` with `--daemon`.
pub fn plan_set(
    enabled: bool,
    xdg_config_home: &Option<String>,
    home: &Option<String>,
    exec: &str,
) -> (res: AutostartChange)
    ensures
        planned_change(enabled, env_view(*xdg_config_home), env_view(*home), exec@, res),
{
    match autostart_dir(xdg_config_home, home) {
        Some(dir) => {
            let name = String::from_str(APP_ID).concat(".desktop");
            let path = join_path(dir.as_str(), name.as_str());
            if enabled {
                AutostartChange::Write { dir, path, contents: entry_contents(exec) }
            } else {
                AutostartChange::Remove { path }
            }
        },
        None => {
            if enabled {
                AutostartChange::NoConfigDir
            } else {
                AutostartChange::Nothing
            }
        },
    }
}

/// Setting autostart and then asking whether it is on gives back what was
/// set: the planned change writes or removes the very path whose file
/// [`is_enabled`] looks at, and once it is made (a file at that path exactly
/// when the change writes one) autostart reads as `enabled`. Enabling with
/// no config directory is an error, and is left out.
pub proof fn set_then_is_enabled(
    enabled: bool,
    xdg_config_home: Option<Seq<char>>,
    home: Option<Seq<char>>,
    exec: Seq<char>,
    change: AutostartChange,
)
    requires
        planned_change(enabled, xdg_config_home, home, exec, change),
        !(change is NoConfigDir),
    ensures
        touched_path(change) == entry_path_of(xdg_config_home, home),
        autostart_on(xdg_config_home, home, file_after(change)) == enabled,
{
}

} // verus!
