//! `canis start`: which configuration to read and which settings win.
//!
//! A setting given on the command line wins over the configuration file.

use vstd::prelude::*;
use crate::cli::{filled, filled_list, list_filled, opt_view, opt_views, StartArgs};
use crate::config::BasicSettings;
use crate::error::WatcherError;
use crate::text::{clone_strings, str_eq, to_owned_string, views};

verus! {

/// Where the settings that the command line leaves open come from.
#[derive(Debug)]
pub enum ConfigSource {
    /// The command line is complete; no configuration file is read.
    Skip,
    /// The configuration file named on the command line.
    File(String),
    /// The configuration file in the user's configuration directory.
    Xdg,
}

/// Which configuration file to read for `start`.
pub fn config_source(args: &StartArgs) -> (r: ConfigSource)
    ensures
        args.spec_is_complete() ==> r is Skip,
        !args.spec_is_complete() ==> match args.config {
            Some(p) => r matches ConfigSource::File(q) && q@ == p@,
            None => r is Xdg,
        },
{
    if args.is_complete() {
        ConfigSource::Skip
    } else {
        match &args.config {
            Some(p) => ConfigSource::File(p.clone()),
            None => ConfigSource::Xdg,
        }
    }
}

/// The watcher, targets and log file `start` runs with.
pub struct StartSettings {
    pub watcher_system: String,
    pub targets: Vec<String>,
    pub logfile: String,
}

/// The setting a configuration gives for a field, if any.
pub open spec fn setting<T>(settings: Option<BasicSettings>, f: spec_fn(BasicSettings) -> Option<T>) -> Option<T> {
    match settings {
        Some(s) => f(s),
        None => None,
    }
}

/// The watcher backend: the command line's when non-empty, else the
/// configuration's.
pub open spec fn spec_watcher(args: StartArgs, settings: Option<BasicSettings>) -> Option<Seq<char>> {
    if filled(opt_view(args.watcher)) {
        opt_view(args.watcher)
    } else {
        setting(settings, |s: BasicSettings| opt_view(s.watcher))
    }
}

/// The targets: the command line's when it lists only non-empty paths, else
/// the configuration's.
pub open spec fn spec_targets(args: StartArgs, settings: Option<BasicSettings>) -> Option<Seq<Seq<char>>> {
    if filled_list(opt_views(args.targets)) {
        opt_views(args.targets)
    } else {
        setting(settings, |s: BasicSettings| opt_views(s.targets))
    }
}

/// The log file: the command line's when non-empty, else the configuration's,
/// else the default.
pub open spec fn spec_logfile(
    args: StartArgs,
    settings: Option<BasicSettings>,
    default_logfile: Option<Seq<char>>,
) -> Option<Seq<char>> {
    if filled(opt_view(args.logfile)) {
        opt_view(args.logfile)
    } else {
        match setting(settings, |s: BasicSettings| opt_view(s.logfile)) {
            Some(l) => Some(l),
            None => default_logfile,
        }
    }
}

/// The configured ignore paths: the command line's when it lists only
/// non-empty paths, else the configuration's.
pub open spec fn spec_user_ignore(args: StartArgs, settings: Option<BasicSettings>) -> Option<Seq<Seq<char>>> {
    if filled_list(opt_views(args.ignore)) {
        opt_views(args.ignore)
    } else {
        setting(settings, |s: BasicSettings| opt_views(s.ignore))
    }
}

/// Resolves the watcher backend, the targets and the log file, in that
/// order; the first that is missing is the error.
pub fn resolve_start_settings(
    args: &StartArgs,
    settings: Option<&BasicSettings>,
    default_logfile: Option<String>,
) -> (r: Result<StartSettings, WatcherError>)
    ensures
        ({
            let s = match settings {
                Some(x) => Some(*x),
                None => None,
            };
            let w = spec_watcher(*args, s);
            let t = spec_targets(*args, s);
            let l = spec_logfile(*args, s, opt_view(default_logfile));
            if w is None {
                r matches Err(WatcherError::ConfigError(m)) && m@ == "Failed to determine watcher"@
            } else if t is None {
                r matches Err(WatcherError::ConfigError(m)) && m@ == "targets not specified"@
            } else if l is None {
                r matches Err(WatcherError::ConfigError(m)) && m@
                    == "Failed to determine log file path"@
            } else {
                r matches Ok(x) && Some(x.watcher_system@) == w && Some(views(x.targets@)) == t
                    && Some(x.logfile@) == l
            }
        }),
        r matches Ok(x) ==> ((args.watcher matches Some(w) && w@.len() > 0) ==> x.watcher_system@
            == args.watcher->Some_0@) && ((args.logfile matches Some(l) && l@.len() > 0) ==> x.logfile@
            == args.logfile->Some_0@),
{
    let watcher_system = match &args.watcher {
        Some(w) if !w.as_str().is_empty() => Some(w.clone()),
        _ => match settings {
            Some(s) => match &s.watcher {
                Some(w) => Some(w.clone()),
                None => None,
            },
            None => None,
        },
    };
    let watcher_system = match watcher_system {
        Some(w) => w,
        None => {
            return Err(WatcherError::ConfigError(to_owned_string("Failed to determine watcher")));
        },
    };
    let args_targets_ok = match &args.targets {
        Some(t) => list_filled(t),
        None => false,
    };
    let targets = if args_targets_ok {
        match &args.targets {
            Some(t) => Some(clone_strings(t)),
            None => None,
        }
    } else {
        match settings {
            Some(s) => match &s.targets {
                Some(t) => Some(clone_strings(t)),
                None => None,
            },
            None => None,
        }
    };
    let targets = match targets {
        Some(t) => t,
        None => {
            return Err(WatcherError::ConfigError(to_owned_string("targets not specified")));
        },
    };
    let logfile = match &args.logfile {
        Some(l) if !l.as_str().is_empty() => Some(l.clone()),
        _ => {
            let from_settings = match settings {
                Some(s) => match &s.logfile {
                    Some(l) => Some(l.clone()),
                    None => None,
                },
                None => None,
            };
            match from_settings {
                Some(l) => Some(l),
                None => default_logfile,
            }
        },
    };
    match logfile {
        Some(l) => Ok(StartSettings { watcher_system, targets, logfile: l }),
        None => Err(WatcherError::ConfigError(to_owned_string("Failed to determine log file path"))),
    }
}

/// The paths the watcher ignores: the log file first (so that writing the log
/// never triggers an event), then the configured ignore paths, if any.
pub fn resolve_ignore_paths(
    args: &StartArgs,
    settings: Option<&BasicSettings>,
    logfile: &str,
) -> (r: Result<Vec<String>, WatcherError>)
    ensures
        ({
            let s = match settings {
                Some(x) => Some(*x),
                None => None,
            };
            r matches Ok(v) && views(v@) == seq![logfile@] + match spec_user_ignore(*args, s) {
                Some(u) => u,
                None => Seq::empty(),
            }
        }),
{
    let args_ignore_ok = match &args.ignore {
        Some(t) => list_filled(t),
        None => false,
    };
    let user = if args_ignore_ok {
        match &args.ignore {
            Some(t) => Some(t),
            None => None,
        }
    } else {
        match settings {
            Some(s) => match &s.ignore {
                Some(t) => Some(t),
                None => None,
            },
            None => None,
        }
    };
    match user {
        Some(u) => {
            let mut out: Vec<String> = Vec::new();
            out.push(to_owned_string(logfile));
            let mut i: usize = 0;
            while i < u.len()
                invariant
                    i <= u.len(),
                    views(out@) == seq![logfile@] + views(u@).take(i as int),
                decreases u.len() - i,
            {
                let ghost before = out@;
                out.push(u[i].clone());
                assert(views(out@) =~= views(before).push(u@[i as int]@));
                assert(views(u@).take(i + 1) =~= views(u@).take(i as int).push(u@[i as int]@));
                i = i + 1;
            }
            assert(views(u@).take(u.len() as int) =~= views(u@));
            Ok(out)
        },
        None => {
            let mut out: Vec<String> = Vec::new();
            out.push(to_owned_string(logfile));
            assert(views(out@) =~= seq![logfile@] + Seq::<Seq<char>>::empty());
            Ok(out)
        },
    }
}

/// The processor level for a watcher backend: 3 for `fuse`, which reports
/// every operation, 1 otherwise.
pub open spec fn spec_processor_level(watcher_system: Seq<char>) -> u8 {
    if watcher_system == "fuse"@ {
        3
    } else {
        1
    }
}

/// The processor level for a watcher backend.
pub fn processor_level(watcher_system: &str) -> (r: u8)
    ensures
        r == spec_processor_level(watcher_system@),
        1 <= r <= 3,
{
    if str_eq(watcher_system, "fuse") {
        3
    } else {
        1
    }
}

/// A command line that names the watcher, the targets and the log file
/// decides them, whatever the configuration says.
pub proof fn law_command_line_wins(
    args: StartArgs,
    settings: Option<BasicSettings>,
    default_logfile: Option<Seq<char>>,
)
    requires
        args.spec_is_complete(),
    ensures
        spec_watcher(args, settings) == opt_view(args.watcher),
        spec_targets(args, settings) == opt_views(args.targets),
        spec_logfile(args, settings, default_logfile) == opt_view(args.logfile),
{
}

/// Each setting is decided on its own: a non-empty watcher, a list of only
/// non-empty targets, a non-empty log file or a list of only non-empty ignore
/// paths on the command line is the one used, whatever the other arguments
/// and the configuration say; a setting the command line leaves open comes
/// from the configuration (the log file, failing that, from the default).
pub proof fn law_each_setting_from_command_line(
    args: StartArgs,
    settings: Option<BasicSettings>,
    default_logfile: Option<Seq<char>>,
)
    ensures
        (args.watcher matches Some(w) && w@.len() > 0) ==> spec_watcher(args, settings) == Some(
            args.watcher->Some_0@,
        ),
        (args.logfile matches Some(l) && l@.len() > 0) ==> spec_logfile(args, settings, default_logfile)
            == Some(args.logfile->Some_0@),
        (args.targets matches Some(t) && t@.len() > 0 && forall|i: int|
            0 <= i < t@.len() ==> #[trigger] t@[i]@.len() > 0) ==> spec_targets(args, settings) == Some(
            views(args.targets->Some_0@),
        ),
        (args.ignore matches Some(t) && t@.len() > 0 && forall|i: int|
            0 <= i < t@.len() ==> #[trigger] t@[i]@.len() > 0) ==> spec_user_ignore(args, settings)
            == Some(views(args.ignore->Some_0@)),
        !(args.watcher matches Some(w) && w@.len() > 0) ==> spec_watcher(args, settings) == match settings {
            Some(s) => opt_view(s.watcher),
            None => None,
        },
        !(args.logfile matches Some(l) && l@.len() > 0) ==> spec_logfile(args, settings, default_logfile)
            == match settings {
            Some(s) => match s.logfile {
                Some(l) => Some(l@),
                None => default_logfile,
            },
            None => default_logfile,
        },
{
    if args.targets matches Some(t) && t@.len() > 0 && forall|i: int|
        0 <= i < t@.len() ==> #[trigger] t@[i]@.len() > 0 {
        let v = views(args.targets->Some_0@);
        assert forall|i: int| 0 <= i < v.len() implies v[i].len() > 0 by {
            assert(v[i] == args.targets->Some_0@[i]@);
        }
    }
    if args.ignore matches Some(t) && t@.len() > 0 && forall|i: int|
        0 <= i < t@.len() ==> #[trigger] t@[i]@.len() > 0 {
        let v = views(args.ignore->Some_0@);
        assert forall|i: int| 0 <= i < v.len() implies v[i].len() > 0 by {
            assert(v[i] == args.ignore->Some_0@[i]@);
        }
    }
}

/// The database `start` records into: the configuration's `dbfile`, else the
/// default.
pub open spec fn spec_start_database(settings: Option<BasicSettings>, default_path: Option<Seq<char>>) -> Option<
    Seq<char>,
> {
    match setting(settings, |s: BasicSettings| opt_view(s.dbfile)) {
        Some(d) => Some(d),
        None => default_path,
    }
}

/// Resolves the database `start` records into.
pub fn resolve_start_database(settings: Option<&BasicSettings>, default_path: Option<String>) -> (r:
    Result<String, WatcherError>)
    ensures
        ({
            let s = match settings {
                Some(x) => Some(*x),
                None => None,
            };
            match spec_start_database(s, opt_view(default_path)) {
                Some(p) => r matches Ok(x) && x@ == p,
                None => r matches Err(WatcherError::ConfigError(m)) && m@
                    == "Failed to determine database file path"@,
            }
        }),
{
    let from_settings = match settings {
        Some(s) => match &s.dbfile {
            Some(d) => Some(d.clone()),
            None => None,
        },
        None => None,
    };
    match from_settings {
        Some(d) => Ok(d),
        None => match default_path {
            Some(d) => Ok(d),
            None => Err(
                WatcherError::ConfigError(to_owned_string("Failed to determine database file path")),
            ),
        },
    }
}

} // verus!
