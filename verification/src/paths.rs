//! File-system paths, built as text with the joining rules of Unix paths.

use vstd::prelude::*;
use crate::text::{chars_of, push_all, string_of};

verus! {

/// `part` appended to `base` as a path component (`Path::join` on Unix): an
/// absolute `part` replaces `base`; otherwise a `/` separates the two unless
/// `base` is empty or already ends with one.
pub open spec fn spec_path_join(base: Seq<char>, part: Seq<char>) -> Seq<char> {
    if part.len() > 0 && part[0] == '/' {
        part
    } else if base.len() == 0 || base.last() == '/' {
        base + part
    } else {
        base + seq!['/'] + part
    }
}

pub fn path_join_chars(base: &Vec<char>, part: &Vec<char>) -> (r: Vec<char>)
    ensures
        r@ == spec_path_join(base@, part@),
{
    let mut out: Vec<char> = Vec::new();
    if part.len() > 0 && part[0] == '/' {
        push_all(&mut out, part);
        assert(out@ =~= part@);
        return out;
    }
    push_all(&mut out, base);
    if base.len() > 0 && base[base.len() - 1] != '/' {
        out.push('/');
    }
    push_all(&mut out, part);
    assert(out@ =~= spec_path_join(base@, part@));
    out
}

/// Joins a path and a component.
pub fn path_join(base: &str, part: &str) -> (r: String)
    ensures
        r@ == spec_path_join(base@, part@),
{
    string_of(&path_join_chars(&chars_of(base), &chars_of(part)))
}

/// The directory under which per-user files are kept: the first of the
/// given base directory, `$HOME` with `home_suffix` appended, and `/tmp`.
pub open spec fn spec_base_dir(
    base: Option<Seq<char>>,
    home: Option<Seq<char>>,
    home_suffix: Seq<Seq<char>>,
) -> Seq<char> {
    match base {
        Some(b) => b,
        None => match home {
            Some(h) => if home_suffix.len() == 1 {
                spec_path_join(h, home_suffix[0])
            } else {
                spec_path_join(spec_path_join(h, home_suffix[0]), home_suffix[1])
            },
            None => "/tmp"@,
        },
    }
}

pub open spec fn opt_view(o: Option<&str>) -> Option<Seq<char>> {
    match o {
        Some(s) => Some(s@),
        None => None,
    }
}

/// Where the alert rules are stored: the override if given, otherwise
/// `sabi/alerts.json` under `$XDG_CONFIG_HOME`, `$HOME/.config` or `/tmp`.
pub open spec fn spec_alerts_config_path(
    override_path: Option<Seq<char>>,
    xdg_config_home: Option<Seq<char>>,
    home: Option<Seq<char>>,
) -> Seq<char> {
    match override_path {
        Some(p) => p,
        None => spec_path_join(
            spec_path_join(spec_base_dir(xdg_config_home, home, seq![".config"@]), "sabi"@),
            "alerts.json"@,
        ),
    }
}

pub fn alerts_config_path(
    override_path: Option<&str>,
    xdg_config_home: Option<&str>,
    home: Option<&str>,
) -> (r: String)
    ensures
        r@ == spec_alerts_config_path(opt_view(override_path), opt_view(xdg_config_home), opt_view(home)),
{
    if let Some(p) = override_path {
        return p.to_owned();
    }
    let root = match xdg_config_home {
        Some(x) => x.to_owned(),
        None => match home {
            Some(h) => path_join(h, ".config"),
            None => "/tmp".to_owned(),
        },
    };
    let dir = path_join(root.as_str(), "sabi");
    path_join(dir.as_str(), "alerts.json")
}

/// Where the console writes its log: `sabi/logs/operator-console.log` under
/// `$XDG_STATE_HOME`, `$HOME/.local/state` or `/tmp`.
pub open spec fn spec_log_path(xdg_state_home: Option<Seq<char>>, home: Option<Seq<char>>) -> Seq<
    char,
> {
    spec_path_join(
        spec_path_join(
            spec_path_join(spec_base_dir(xdg_state_home, home, seq![".local"@, "state"@]), "sabi"@),
            "logs"@,
        ),
        "operator-console.log"@,
    )
}

pub fn default_log_path(xdg_state_home: Option<&str>, home: Option<&str>) -> (r: String)
    ensures
        r@ == spec_log_path(opt_view(xdg_state_home), opt_view(home)),
{
    let root = match xdg_state_home {
        Some(x) => x.to_owned(),
        None => match home {
            Some(h) => {
                let local = path_join(h, ".local");
                path_join(local.as_str(), "state")
            },
            None => "/tmp".to_owned(),
        },
    };
    let sabi = path_join(root.as_str(), "sabi");
    let logs = path_join(sabi.as_str(), "logs");
    path_join(logs.as_str(), "operator-console.log")
}

/// The log goes to standard error when asked to, or when standard error is
/// not a terminal (the terminal belongs to the console).
pub fn should_log_to_stderr(override_set: bool, stderr_is_terminal: bool) -> (r: bool)
    ensures
        r == (override_set || !stderr_is_terminal),
{
    override_set || !stderr_is_terminal
}

/// The log filter used when none is configured.
pub fn default_log_filter() -> (r: &'static str)
    ensures
        r@ == "info"@,
{
    "info"
}

} // verus!
