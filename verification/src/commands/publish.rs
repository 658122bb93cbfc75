//! `canis publish`: the daily hash over the day's evidence, and where and how
//! it is published.
//!
//! The application reads the entries from the database, writes the hash file
//! and talks to the GitHub API.

use vstd::prelude::*;
use crate::cli::{filled, opt_view, PublishArgs};
use crate::config::BasicSettings;
use crate::dates::{spec_parse_ymd, spec_previous_day, Ymd};
use crate::error::WatcherError;
use crate::hashing::{encode_base64, hash_bytes, spec_base64, spec_digest_text};
use crate::text::{concat2, concat3, join, join_exec, push_str, str_eq, to_owned_string, views};

verus! {

/// The day `publish` works on: `today`, `yesterday`, or a `YYYY-MM-DD` date.
pub open spec fn spec_publish_date(arg: Seq<char>, today: Ymd) -> Result<(i32, u32, u32), Seq<char>> {
    if arg == "today"@ {
        Ok((today.year, today.month, today.day))
    } else if arg == "yesterday"@ {
        match spec_previous_day(today.year, today.month, today.day) {
            Some(d) => Ok(d),
            None => Err(Seq::empty()),
        }
    } else {
        match spec_parse_ymd(arg) {
            Some(d) => Ok(d),
            None => Err(
                "Invalid date format: "@ + arg + " (expected: YYYY-MM-DD, e.g. 2026-03-24)"@,
            ),
        }
    }
}

/// The day `publish` works on. (`yesterday` of the first representable day
/// is left out: computing it panics.)
pub fn resolve_publish_date(arg: &str, today: Ymd) -> (r: Result<Ymd, WatcherError>)
    requires
        arg@ == "yesterday"@ ==> spec_previous_day(today.year, today.month, today.day) is Some,
    ensures
        match spec_publish_date(arg@, today) {
            Ok(d) => r matches Ok(x) && (x.year, x.month, x.day) == d,
            Err(m) => r matches Err(WatcherError::Other(s)) && s@ == m,
        },
{
    if str_eq(arg, "today") {
        Ok(today)
    } else if str_eq(arg, "yesterday") {
        match today.previous() {
            Some(d) => Ok(d),
            None => Err(WatcherError::Other(String::new())),
        }
    } else {
        match Ymd::parse(arg) {
            Some(d) => Ok(d),
            None => Err(
                WatcherError::Other(
                    concat3(
                        "Invalid date format: ",
                        arg,
                        " (expected: YYYY-MM-DD, e.g. 2026-03-24)",
                    ),
                ),
            ),
        }
    }
}

/// The day `publish` works on, or `None` for `yesterday` of the first day
/// `chrono` represents (where computing it panics).
pub fn publish_date(arg: &str, today: Ymd) -> (r: Option<Result<Ymd, WatcherError>>)
    ensures
        arg@ == "yesterday"@ && spec_previous_day(today.year, today.month, today.day) is None
            ==> r is None,
        !(arg@ == "yesterday"@ && spec_previous_day(today.year, today.month, today.day) is None)
            ==> (r matches Some(x) && match spec_publish_date(arg@, today) {
            Ok(d) => x matches Ok(y) && (y.year, y.month, y.day) == d,
            Err(m) => x matches Err(WatcherError::Other(s)) && s@ == m,
        }),
{
    if str_eq(arg, "yesterday") {
        match today.previous() {
            Some(_) => {},
            None => {
                return None;
            },
        }
    }
    Some(resolve_publish_date(arg, today))
}

/// The text the daily hash is computed over: the entries joined by newlines,
/// with a final newline.
pub open spec fn spec_daily_input(entries: Seq<Seq<char>>) -> Seq<char> {
    join(entries, "\n"@) + "\n"@
}

/// The text the daily hash is computed over.
pub fn daily_hash_input(entries: &[String]) -> (r: String)
    ensures
        r@ == spec_daily_input(views(entries@)),
{
    let mut r = join_exec(entries, "\n");
    push_str(&mut r, "\n");
    r
}

/// The daily hash: the SHA-256 (lower-case hex) of the UTF-8 bytes of the
/// daily input; an error when the day has no entry.
pub fn daily_hash(entries: &[String]) -> (r: Result<String, WatcherError>)
    ensures
        entries@.len() == 0 ==> (r matches Err(WatcherError::HashError(m)) && m@
            == "No entries found for hash calculation"@),
        entries@.len() > 0 ==> (r matches Ok(h) && h@ == spec_digest_text(
            vstd::utf8::encode_utf8(spec_daily_input(views(entries@))),
        ) && h@.len() == 64),
{
    if entries.len() == 0 {
        return Err(WatcherError::HashError(to_owned_string("No entries found for hash calculation")));
    }
    let combined = daily_hash_input(entries);
    let bytes = combined.as_str().as_bytes();
    Ok(hash_bytes(bytes))
}

/// Each entry followed by a newline, all concatenated.
pub open spec fn lines_text(entries: Seq<Seq<char>>) -> Seq<char>
    decreases entries.len(),
{
    if entries.len() == 0 {
        Seq::empty()
    } else {
        lines_text(entries.drop_last()) + entries.last() + "\n"@
    }
}

/// The daily input is each entry on a line of its own: every entry is followed
/// by exactly one newline, in order.
pub proof fn law_daily_input_is_lines(entries: Seq<Seq<char>>)
    requires
        entries.len() > 0,
    ensures
        spec_daily_input(entries) == lines_text(entries),
    decreases entries.len(),
{
    if entries.len() == 1 {
        assert(lines_text(entries.drop_last()) =~= Seq::<char>::empty());
        assert(Seq::<char>::empty() + entries[0] =~= entries[0]);
    } else {
        law_daily_input_is_lines(entries.drop_last());
    }
}

/// The name of the file that holds a day's hash.
pub open spec fn spec_hash_filename(date: Seq<char>) -> Seq<char> {
    "dailyhash-"@ + date + ".txt"@
}

/// The name of the file that holds a day's hash.
pub fn hash_filename(date: &str) -> (r: String)
    ensures
        r@ == spec_hash_filename(date@),
{
    concat3("dailyhash-", date, ".txt")
}

/// The GitHub API address of a file of a repository.
pub open spec fn spec_contents_url(owner: Seq<char>, name: Seq<char>, filename: Seq<char>) -> Seq<char> {
    "https://api.github.com/repos/"@ + owner + "/"@ + name + "/contents/"@ + filename
}

/// The GitHub API address of a file of a repository.
pub fn contents_url(owner: &str, name: &str, filename: &str) -> (r: String)
    ensures
        r@ == spec_contents_url(owner@, name@, filename@),
{
    let mut r = concat2("https://api.github.com/repos/", owner);
    push_str(&mut r, "/");
    push_str(&mut r, name);
    push_str(&mut r, "/contents/");
    push_str(&mut r, filename);
    r
}

/// The commit message of a day's publication.
pub fn commit_message(date: &str) -> (r: String)
    ensures
        r@ == "publish: dailyhash-"@ + date@,
{
    concat2("publish: dailyhash-", date)
}

/// The `Authorization` header value for a token.
pub fn bearer(token: &str) -> (r: String)
    ensures
        r@ == "Bearer "@ + token@,
{
    concat2("Bearer ", token)
}

/// The file content sent to GitHub: the hash text, Base64-encoded.
pub fn encoded_content(hash: &str) -> (r: String)
    requires
        hash@.len() <= usize::MAX / 16,
    ensures
        r@ == spec_base64(vstd::utf8::encode_utf8(hash@)),
{
    let bytes = hash.as_bytes();
    proof {
        lemma_encode_utf8_len(hash@);
    }
    encode_base64(bytes)
}

/// UTF-8 uses at most four bytes per character.
proof fn lemma_encode_utf8_len(s: Seq<char>)
    ensures
        vstd::utf8::encode_utf8(s).len() <= 4 * s.len(),
    decreases s.len(),
{
    if s.len() > 0 {
        lemma_encode_utf8_len(s.drop_first());
    }
}

/// The database path: the command line's when non-empty, else the
/// configuration's, else the default.
pub open spec fn spec_database_path(
    args: PublishArgs,
    settings: Option<BasicSettings>,
    default_path: Option<Seq<char>>,
) -> Option<Seq<char>> {
    if filled(opt_view(args.dbfile)) {
        opt_view(args.dbfile)
    } else {
        match settings {
            Some(s) => match s.dbfile {
                Some(d) => Some(d@),
                None => default_path,
            },
            None => default_path,
        }
    }
}

/// The database is the command line's `--dbfile` whenever that is non-empty,
/// whatever the configuration (or its absence) and the default say; else the
/// configuration's `dbfile` when it names one; else the default.
pub proof fn law_database_path_precedence(
    args: PublishArgs,
    settings: Option<BasicSettings>,
    default_path: Option<Seq<char>>,
)
    ensures
        (args.dbfile matches Some(d) && d@.len() > 0) ==> spec_database_path(args, settings, default_path)
            == Some(args.dbfile->Some_0@),
        !(args.dbfile matches Some(d) && d@.len() > 0) && (settings matches Some(s) && s.dbfile is Some)
            ==> spec_database_path(args, settings, default_path) == Some(
            settings->Some_0.dbfile->Some_0@,
        ),
        !(args.dbfile matches Some(d) && d@.len() > 0) && !(settings matches Some(s) && s.dbfile is Some)
            ==> spec_database_path(args, settings, default_path) == default_path,
{
}

/// Resolves the database to read the entries from.
pub fn resolve_database_path(
    args: &PublishArgs,
    settings: Option<&BasicSettings>,
    default_path: Option<String>,
) -> (r: Result<String, WatcherError>)
    ensures
        ({
            let s = match settings {
                Some(x) => Some(*x),
                None => None,
            };
            match spec_database_path(*args, s, opt_view(default_path)) {
                Some(p) => r matches Ok(x) && x@ == p,
                None => r matches Err(WatcherError::ConfigError(m)) && m@
                    == "Failed to determine log file path"@,
            }
        }),
        (args.dbfile matches Some(d) && d@.len() > 0) ==> (r matches Ok(x) && x@ == args.dbfile->Some_0@),
{
    match &args.dbfile {
        Some(d) if !d.as_str().is_empty() => {
            return Ok(d.clone());
        },
        _ => {},
    }
    let from_settings = match settings {
        Some(s) => match &s.dbfile {
            Some(d) => Some(d.clone()),
            None => None,
        },
        None => None,
    };
    match from_settings {
        Some(d) => Ok(d),
        None => match default_path {
            Some(d) => Ok(d),
            None => Err(WatcherError::ConfigError(to_owned_string("Failed to determine log file path"))),
        },
    }
}

/// Where and as whom a day's hash is published.
pub struct PublishTarget {
    pub hashdir: String,
    pub token: String,
    pub repo: String,
}

/// A setting: the command line's, else the configuration's.
pub open spec fn arg_or_setting(arg: Option<String>, setting: Option<String>) -> Option<Seq<char>> {
    match arg {
        Some(a) => Some(a@),
        None => opt_view(setting),
    }
}

fn pick(arg: &Option<String>, setting: Option<&String>) -> (r: Option<String>)
    ensures
        opt_view(r) == arg_or_setting(
            *arg,
            match setting {
                Some(s) => Some(*s),
                None => None,
            },
        ),
{
    match arg {
        Some(a) => Some(a.clone()),
        None => match setting {
            Some(s) => Some(s.clone()),
            None => None,
        },
    }
}

/// A setting given on the command line is the one used, whatever the
/// configuration says; one left out comes from the configuration.
pub proof fn law_argument_over_setting(arg: Option<String>, setting: Option<String>)
    ensures
        arg is Some ==> arg_or_setting(arg, setting) == Some(arg->Some_0@),
        arg is None ==> arg_or_setting(arg, setting) == match setting {
            Some(v) => Some(v@),
            None => None::<Seq<char>>,
        },
{
}

/// Resolves the hash directory, the token and the repository, in that order;
/// the first that is missing is the error.
pub fn resolve_publish_target(args: &PublishArgs, settings: Option<&BasicSettings>) -> (r: Result<
    PublishTarget,
    WatcherError,
>)
    ensures
        ({
            let h = arg_or_setting(args.hashdir, match settings { Some(s) => s.hashdir, None => None });
            let t = arg_or_setting(args.token, match settings { Some(s) => s.token, None => None });
            let p = arg_or_setting(args.repo, match settings { Some(s) => s.repo, None => None });
            if h is None || t is None {
                r matches Err(WatcherError::ConfigError(m)) && m@ == "token is not specified"@
            } else if p is None {
                r matches Err(WatcherError::ConfigError(m)) && m@ == "repo is not specified"@
            } else {
                r matches Ok(x) && Some(x.hashdir@) == h && Some(x.token@) == t && Some(x.repo@) == p
            }
        }),
        r matches Ok(x) ==> (args.hashdir matches Some(a) ==> x.hashdir@ == a@) && (args.token matches Some(
            a,
        ) ==> x.token@ == a@) && (args.repo matches Some(a) ==> x.repo@ == a@),
        args.hashdir is Some && args.token is Some && args.repo is Some ==> r is Ok,
{
    let hashdir = pick(&args.hashdir, match settings { Some(s) => s.hashdir.as_ref(), None => None });
    let hashdir = match hashdir {
        Some(h) => h,
        None => {
            return Err(WatcherError::ConfigError(to_owned_string("token is not specified")));
        },
    };
    let token = pick(&args.token, match settings { Some(s) => s.token.as_ref(), None => None });
    let token = match token {
        Some(t) => t,
        None => {
            return Err(WatcherError::ConfigError(to_owned_string("token is not specified")));
        },
    };
    let repo = pick(&args.repo, match settings { Some(s) => s.repo.as_ref(), None => None });
    match repo {
        Some(p) => Ok(PublishTarget { hashdir, token, repo: p }),
        None => Err(WatcherError::ConfigError(to_owned_string("repo is not specified"))),
    }
}

} // verus!
