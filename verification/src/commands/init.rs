//! `canis init`: which files it generates and what they hold.
//!
//! The application asks for the values the command line leaves open, checks
//! that no file is overwritten, and writes the rendered text.

use vstd::prelude::*;
use crate::cli::InitArgs;
use crate::text::{fill_template, interleave, join, join_exec, replace_char, replace_char_exec, str_views, views, concat3};

verus! {

/// The files `init` generates.
#[derive(Debug, Clone, Copy, PartialEq, Eq, Structural)]
pub struct InitPlan {
    /// The configuration file.
    pub config: bool,
    /// The service that keeps `canis start` running.
    pub start: bool,
    /// The scheduled daily publication.
    pub publish: bool,
}

/// With none of `--config`, `--start` and `--publish`, all three files are
/// generated; otherwise those named.
pub open spec fn spec_init_plan(args: InitArgs) -> InitPlan {
    if args.config is None && args.start is None && args.publish is None {
        InitPlan { config: true, start: true, publish: true }
    } else {
        InitPlan {
            config: args.config is Some,
            start: args.start is Some,
            publish: args.publish is Some,
        }
    }
}

/// The files `init` generates for the command line.
pub fn init_plan(args: &InitArgs) -> (r: InitPlan)
    ensures
        r == spec_init_plan(*args),
{
    if args.config.is_none() && args.start.is_none() && args.publish.is_none() {
        InitPlan { config: true, start: true, publish: true }
    } else {
        InitPlan {
            config: args.config.is_some(),
            start: args.start.is_some(),
            publish: args.publish.is_some(),
        }
    }
}

/// `init` always generates at least one file.
pub proof fn law_init_generates_something(args: InitArgs)
    ensures
        spec_init_plan(args).config || spec_init_plan(args).start || spec_init_plan(args).publish,
{
}

/// A path as the configuration file writes it: backslashes become slashes.
pub open spec fn spec_config_path(p: Seq<char>) -> Seq<char> {
    replace_char(p, '\\', '/')
}

/// A path as the configuration file writes it: backslashes become slashes.
pub fn config_path_text(p: &str) -> (r: String)
    ensures
        r@ == spec_config_path(p@),
{
    replace_char_exec(p, '\\', '/')
}

/// A list of paths as a TOML array body: each path quoted, with slashes for
/// backslashes, separated by `, `.
pub open spec fn spec_path_list(paths: Seq<Seq<char>>) -> Seq<char> {
    join(paths.map_values(|p: Seq<char>| seq!['"'] + spec_config_path(p) + seq!['"']), ", "@)
}

/// Formats a list of paths as a TOML array body.
pub fn format_path_list(paths: &[String]) -> (r: String)
    ensures
        r@ == spec_path_list(views(paths@)),
{
    let mut quoted: Vec<String> = Vec::new();
    let mut i: usize = 0;
    while i < paths.len()
        invariant
            i <= paths.len(),
            views(quoted@) == views(paths@).take(i as int).map_values(
                |p: Seq<char>| seq!['"'] + spec_config_path(p) + seq!['"'],
            ),
        decreases paths.len() - i,
    {
        let body = config_path_text(paths[i].as_str());
        let q = concat3("\"", body.as_str(), "\"");
        let ghost before = quoted@;
        quoted.push(q);
        proof {
            reveal_strlit("\"");
            assert("\""@ =~= seq!['"']);
            assert(views(quoted@) =~= views(before).push(q@));
            assert(views(paths@).take(i + 1) =~= views(paths@).take(i as int).push(paths@[i as int]@));
            assert(views(paths@).take(i + 1).map_values(
                |p: Seq<char>| seq!['"'] + spec_config_path(p) + seq!['"'],
            ) =~= views(paths@).take(i as int).map_values(
                |p: Seq<char>| seq!['"'] + spec_config_path(p) + seq!['"'],
            ).push(seq!['"'] + spec_config_path(paths@[i as int]@) + seq!['"']));
        }
        i = i + 1;
    }
    assert(views(paths@).take(paths.len() as int) =~= views(paths@));
    join_exec(quoted.as_slice(), ", ")
}

/// The default location of the binary on Windows, for a user name.
pub open spec fn spec_windows_binary(username: Seq<char>) -> Seq<char> {
    "C:\\Users\\"@ + username + "\\bin\\canis.exe"@
}

/// The default location of the binary on Windows, for a user name.
pub fn default_windows_binary(username: &str) -> (r: String)
    ensures
        r@ == spec_windows_binary(username@),
{
    concat3("C:\\Users\\", username, "\\bin\\canis.exe")
}

/// The fixed text of the template: the configuration file `init` writes.
pub open spec fn config_pieces() -> Seq<Seq<char>> {
    seq![
        "[basic_settings]\n# Select the watcher implementation: notify or fuse\nwatcher = \""@,
        "\"\n\n# Specify the paths of files or directories to monitor\n# When using FUSE, only the first path in this list will be monitored\ntargets = ["@,
        "]\n\n# Specify paths to files or directories whose operations should be ignored\n# Any user actions on these paths will not be monitored or recorded\nignore = ["@,
        "]\n\n# Specify the path to the log file where digest will be stored\n# Do not place the log file under any monitored path to avoid infinite loops\nlogfile = \""@,
        "\"\n\n# Specify the path to the database file where digest will be stored\n# Do not place the log file under any monitored path to avoid infinite loops\ndbfile = \""@,
        "\"\n\n# Specify the GitHub access token used to publish hashes\n# This token must have sufficient permissions to access the target repository\ntoken = \""@,
        "\"\n\n# Specify the directory where daily hash files will be stored\n# The hash file for each day will be created under this directory\nhashdir = \""@,
        "\"\n\n# Specify the name of the target GitHub repository\n# The repository owner will be determined automatically from the access token\n# The calculated daily hash will be published to this repository\nrepo = \""@,
        "\"\n"@,
    ]
}

/// The configuration file `init` writes.
pub open spec fn spec_config(watcher: Seq<char>, targets: Seq<char>, ignore: Seq<char>, logfile: Seq<char>, dbfile: Seq<char>, token: Seq<char>, hashdir: Seq<char>, repo: Seq<char>) -> Seq<char> {
    interleave(config_pieces(), seq![watcher, targets, ignore, logfile, dbfile, token, hashdir, repo])
}

/// The configuration file sets, in this order, the watcher, the targets, the
/// ignore list, the log file, the database, the token, the hash directory and
/// the repository, each under its own key and comment.
pub proof fn law_config_text(watcher: Seq<char>, targets: Seq<char>, ignore: Seq<char>, logfile: Seq<char>, dbfile: Seq<char>, token: Seq<char>, hashdir: Seq<char>, repo: Seq<char>)
    ensures
        spec_config(watcher, targets, ignore, logfile, dbfile, token, hashdir, repo) == "[basic_settings]\n# Select the watcher implementation: notify or fuse\nwatcher = \""@ + watcher + "\"\n\n# Specify the paths of files or directories to monitor\n# When using FUSE, only the first path in this list will be monitored\ntargets = ["@ + targets + "]\n\n# Specify paths to files or directories whose operations should be ignored\n# Any user actions on these paths will not be monitored or recorded\nignore = ["@ + ignore + "]\n\n# Specify the path to the log file where digest will be stored\n# Do not place the log file under any monitored path to avoid infinite loops\nlogfile = \""@ + logfile + "\"\n\n# Specify the path to the database file where digest will be stored\n# Do not place the log file under any monitored path to avoid infinite loops\ndbfile = \""@ + dbfile + "\"\n\n# Specify the GitHub access token used to publish hashes\n# This token must have sufficient permissions to access the target repository\ntoken = \""@ + token + "\"\n\n# Specify the directory where daily hash files will be stored\n# The hash file for each day will be created under this directory\nhashdir = \""@ + hashdir + "\"\n\n# Specify the name of the target GitHub repository\n# The repository owner will be determined automatically from the access token\n# The calculated daily hash will be published to this repository\nrepo = \""@ + repo + "\"\n"@,
{
    let p = config_pieces();
    let v = seq![watcher, targets, ignore, logfile, dbfile, token, hashdir, repo];
    reveal_with_fuel(interleave, 9);
    assert(p.drop_last() =~= seq![p[0], p[1], p[2], p[3], p[4], p[5], p[6], p[7]]);
    assert(v.drop_last() =~= seq![watcher, targets, ignore, logfile, dbfile, token, hashdir]);
    assert(p.drop_last().drop_last() =~= seq![p[0], p[1], p[2], p[3], p[4], p[5], p[6]]);
    assert(v.drop_last().drop_last() =~= seq![watcher, targets, ignore, logfile, dbfile, token]);
    assert(p.drop_last().drop_last().drop_last() =~= seq![p[0], p[1], p[2], p[3], p[4], p[5]]);
    assert(v.drop_last().drop_last().drop_last() =~= seq![watcher, targets, ignore, logfile, dbfile]);
    assert(p.drop_last().drop_last().drop_last().drop_last() =~= seq![p[0], p[1], p[2], p[3], p[4]]);
    assert(v.drop_last().drop_last().drop_last().drop_last() =~= seq![watcher, targets, ignore, logfile]);
    assert(p.drop_last().drop_last().drop_last().drop_last().drop_last() =~= seq![p[0], p[1], p[2], p[3]]);
    assert(v.drop_last().drop_last().drop_last().drop_last().drop_last() =~= seq![watcher, targets, ignore]);
    assert(p.drop_last().drop_last().drop_last().drop_last().drop_last().drop_last() =~= seq![p[0], p[1], p[2]]);
    assert(v.drop_last().drop_last().drop_last().drop_last().drop_last().drop_last() =~= seq![watcher, targets]);
    assert(p.drop_last().drop_last().drop_last().drop_last().drop_last().drop_last().drop_last() =~= seq![p[0], p[1]]);
    assert(v.drop_last().drop_last().drop_last().drop_last().drop_last().drop_last().drop_last() =~= seq![watcher]);
    assert(p.drop_last().drop_last().drop_last().drop_last().drop_last().drop_last().drop_last().drop_last() =~= seq![p[0]]);
    assert(v.drop_last().drop_last().drop_last().drop_last().drop_last().drop_last().drop_last().drop_last() =~= Seq::<Seq<char>>::empty());
}

/// Renders the template: the configuration file `init` writes.
pub fn render_config(watcher: &str, targets: &str, ignore: &str, logfile: &str, dbfile: &str, token: &str, hashdir: &str, repo: &str) -> (r: String)
    ensures
        r@ == spec_config(watcher@, targets@, ignore@, logfile@, dbfile@, token@, hashdir@, repo@),
        r@ == "[basic_settings]\n# Select the watcher implementation: notify or fuse\nwatcher = \""@ + watcher@ + "\"\n\n# Specify the paths of files or directories to monitor\n# When using FUSE, only the first path in this list will be monitored\ntargets = ["@ + targets@ + "]\n\n# Specify paths to files or directories whose operations should be ignored\n# Any user actions on these paths will not be monitored or recorded\nignore = ["@ + ignore@ + "]\n\n# Specify the path to the log file where digest will be stored\n# Do not place the log file under any monitored path to avoid infinite loops\nlogfile = \""@ + logfile@ + "\"\n\n# Specify the path to the database file where digest will be stored\n# Do not place the log file under any monitored path to avoid infinite loops\ndbfile = \""@ + dbfile@ + "\"\n\n# Specify the GitHub access token used to publish hashes\n# This token must have sufficient permissions to access the target repository\ntoken = \""@ + token@ + "\"\n\n# Specify the directory where daily hash files will be stored\n# The hash file for each day will be created under this directory\nhashdir = \""@ + hashdir@ + "\"\n\n# Specify the name of the target GitHub repository\n# The repository owner will be determined automatically from the access token\n# The calculated daily hash will be published to this repository\nrepo = \""@ + repo@ + "\"\n"@,
{
    proof {
        law_config_text(watcher@, targets@, ignore@, logfile@, dbfile@, token@, hashdir@, repo@);
    }
    let pieces: Vec<&str> = vec![
        "[basic_settings]\n# Select the watcher implementation: notify or fuse\nwatcher = \"",
        "\"\n\n# Specify the paths of files or directories to monitor\n# When using FUSE, only the first path in this list will be monitored\ntargets = [",
        "]\n\n# Specify paths to files or directories whose operations should be ignored\n# Any user actions on these paths will not be monitored or recorded\nignore = [",
        "]\n\n# Specify the path to the log file where digest will be stored\n# Do not place the log file under any monitored path to avoid infinite loops\nlogfile = \"",
        "\"\n\n# Specify the path to the database file where digest will be stored\n# Do not place the log file under any monitored path to avoid infinite loops\ndbfile = \"",
        "\"\n\n# Specify the GitHub access token used to publish hashes\n# This token must have sufficient permissions to access the target repository\ntoken = \"",
        "\"\n\n# Specify the directory where daily hash files will be stored\n# The hash file for each day will be created under this directory\nhashdir = \"",
        "\"\n\n# Specify the name of the target GitHub repository\n# The repository owner will be determined automatically from the access token\n# The calculated daily hash will be published to this repository\nrepo = \"",
        "\"\n",
    ];
    let values: Vec<&str> = vec![watcher, targets, ignore, logfile, dbfile, token, hashdir, repo];
    assert(str_views(pieces@) =~= config_pieces());
    assert(str_views(values@) =~= seq![watcher@, targets@, ignore@, logfile@, dbfile@, token@, hashdir@, repo@]);
    fill_template(pieces.as_slice(), values.as_slice())
}

/// The fixed text of the template: the systemd user unit that keeps `canis start` running (Linux).
pub open spec fn systemd_start_unit_pieces() -> Seq<Seq<char>> {
    seq![
        "[Unit]\nDescription=canis\n\n[Service]\nType=simple\nExecStart="@,
        " start --config "@,
        "\nRestart=always\n\n[Install]\nWantedBy=default.target\n"@,
    ]
}

/// The systemd user unit that keeps `canis start` running (Linux).
pub open spec fn spec_systemd_start_unit(binary_path: Seq<char>, config_path: Seq<char>) -> Seq<char> {
    interleave(systemd_start_unit_pieces(), seq![binary_path, config_path])
}

/// The start unit runs the binary with `start --config` and the configuration
/// path, and restarts it always.
pub proof fn law_systemd_start_unit_text(binary_path: Seq<char>, config_path: Seq<char>)
    ensures
        spec_systemd_start_unit(binary_path, config_path) == "[Unit]\nDescription=canis\n\n[Service]\nType=simple\nExecStart="@ + binary_path + " start --config "@ + config_path + "\nRestart=always\n\n[Install]\nWantedBy=default.target\n"@,
{
    let p = systemd_start_unit_pieces();
    let v = seq![binary_path, config_path];
    reveal_with_fuel(interleave, 3);
    assert(p.drop_last() =~= seq![p[0], p[1]]);
    assert(v.drop_last() =~= seq![binary_path]);
    assert(p.drop_last().drop_last() =~= seq![p[0]]);
    assert(v.drop_last().drop_last() =~= Seq::<Seq<char>>::empty());
}

/// Renders the template: the systemd user unit that keeps `canis start` running (Linux).
pub fn render_systemd_start_unit(binary_path: &str, config_path: &str) -> (r: String)
    ensures
        r@ == spec_systemd_start_unit(binary_path@, config_path@),
        r@ == "[Unit]\nDescription=canis\n\n[Service]\nType=simple\nExecStart="@ + binary_path@ + " start --config "@ + config_path@ + "\nRestart=always\n\n[Install]\nWantedBy=default.target\n"@,
{
    proof {
        law_systemd_start_unit_text(binary_path@, config_path@);
    }
    let pieces: Vec<&str> = vec![
        "[Unit]\nDescription=canis\n\n[Service]\nType=simple\nExecStart=",
        " start --config ",
        "\nRestart=always\n\n[Install]\nWantedBy=default.target\n",
    ];
    let values: Vec<&str> = vec![binary_path, config_path];
    assert(str_views(pieces@) =~= systemd_start_unit_pieces());
    assert(str_views(values@) =~= seq![binary_path@, config_path@]);
    fill_template(pieces.as_slice(), values.as_slice())
}

/// The fixed text of the template: the WinSW service definition that runs `canis start` (Windows).
pub open spec fn winsw_start_pieces() -> Seq<Seq<char>> {
    seq![
        "<service>\n  <id>canis</id>\n  <name>canis</name>\n  <description>canis</description>\n  <executable>"@,
        "</executable>\n  <arguments>start --config "@,
        "</arguments>\n  <serviceaccount>\n    <username>"@,
        "\\"@,
        "</username>\n    <password></password>\n    <allowservicelogon>true</allowservicelogon>\n  </serviceaccount>\n</service>\n"@,
    ]
}

/// The WinSW service definition that runs `canis start` (Windows).
pub open spec fn spec_winsw_start(binary_path: Seq<char>, config_path: Seq<char>, domain: Seq<char>, username: Seq<char>) -> Seq<char> {
    interleave(winsw_start_pieces(), seq![binary_path, config_path, domain, username])
}

/// The WinSW service runs the binary with `start --config` and the
/// configuration path, as the account `domain`, a backslash, `username`.
pub proof fn law_winsw_start_text(binary_path: Seq<char>, config_path: Seq<char>, domain: Seq<char>, username: Seq<char>)
    ensures
        spec_winsw_start(binary_path, config_path, domain, username) == "<service>\n  <id>canis</id>\n  <name>canis</name>\n  <description>canis</description>\n  <executable>"@ + binary_path + "</executable>\n  <arguments>start --config "@ + config_path + "</arguments>\n  <serviceaccount>\n    <username>"@ + domain + "\\"@ + username + "</username>\n    <password></password>\n    <allowservicelogon>true</allowservicelogon>\n  </serviceaccount>\n</service>\n"@,
{
    let p = winsw_start_pieces();
    let v = seq![binary_path, config_path, domain, username];
    reveal_with_fuel(interleave, 5);
    assert(p.drop_last() =~= seq![p[0], p[1], p[2], p[3]]);
    assert(v.drop_last() =~= seq![binary_path, config_path, domain]);
    assert(p.drop_last().drop_last() =~= seq![p[0], p[1], p[2]]);
    assert(v.drop_last().drop_last() =~= seq![binary_path, config_path]);
    assert(p.drop_last().drop_last().drop_last() =~= seq![p[0], p[1]]);
    assert(v.drop_last().drop_last().drop_last() =~= seq![binary_path]);
    assert(p.drop_last().drop_last().drop_last().drop_last() =~= seq![p[0]]);
    assert(v.drop_last().drop_last().drop_last().drop_last() =~= Seq::<Seq<char>>::empty());
}

/// Renders the template: the WinSW service definition that runs `canis start` (Windows).
pub fn render_winsw_start(binary_path: &str, config_path: &str, domain: &str, username: &str) -> (r: String)
    ensures
        r@ == spec_winsw_start(binary_path@, config_path@, domain@, username@),
        r@ == "<service>\n  <id>canis</id>\n  <name>canis</name>\n  <description>canis</description>\n  <executable>"@ + binary_path@ + "</executable>\n  <arguments>start --config "@ + config_path@ + "</arguments>\n  <serviceaccount>\n    <username>"@ + domain@ + "\\"@ + username@ + "</username>\n    <password></password>\n    <allowservicelogon>true</allowservicelogon>\n  </serviceaccount>\n</service>\n"@,
{
    proof {
        law_winsw_start_text(binary_path@, config_path@, domain@, username@);
    }
    let pieces: Vec<&str> = vec![
        "<service>\n  <id>canis</id>\n  <name>canis</name>\n  <description>canis</description>\n  <executable>",
        "</executable>\n  <arguments>start --config ",
        "</arguments>\n  <serviceaccount>\n    <username>",
        "\\",
        "</username>\n    <password></password>\n    <allowservicelogon>true</allowservicelogon>\n  </serviceaccount>\n</service>\n",
    ];
    let values: Vec<&str> = vec![binary_path, config_path, domain, username];
    assert(str_views(pieces@) =~= winsw_start_pieces());
    assert(str_views(values@) =~= seq![binary_path@, config_path@, domain@, username@]);
    fill_template(pieces.as_slice(), values.as_slice())
}

/// The fixed text of the template: the launchd agent that keeps `canis start` running (macOS).
pub open spec fn launchd_start_pieces() -> Seq<Seq<char>> {
    seq![
        "<?xml version=\"1.0\" encoding=\"UTF-8\"?>\n<!DOCTYPE plist PUBLIC \"-//Apple//DTD PLIST 1.0//EN\"\n  \"http://www.apple.com/DTDs/PropertyList-1.0.dtd\">\n<plist version=\"1.0\">\n<dict>\n    <key>Label</key>\n    <string>com."@,
        ".canis</string>\n\n    <key>ProgramArguments</key>\n    <array>\n        <string>"@,
        "</string>\n        <string>start</string>\n        <string>--config</string>\n        <string>"@,
        "</string>\n    </array>\n\n    <key>KeepAlive</key>\n    <true/>\n\n    <key>RunAtLoad</key>\n    <true/>\n\n    <key>StandardOutPath</key>\n    <string>"@,
        "</string>\n\n    <key>StandardErrorPath</key>\n    <string>"@,
        "</string>\n</dict>\n</plist>\n"@,
    ]
}

/// The launchd agent that keeps `canis start` running (macOS).
pub open spec fn spec_launchd_start(username: Seq<char>, bin_path: Seq<char>, config_path: Seq<char>, stdout_path: Seq<char>, stderr_path: Seq<char>) -> Seq<char> {
    interleave(launchd_start_pieces(), seq![username, bin_path, config_path, stdout_path, stderr_path])
}

/// The launchd agent is labelled by the user name, runs the binary with
/// `start --config` and the configuration path, and sends standard output and
/// standard error to their own paths.
pub proof fn law_launchd_start_text(username: Seq<char>, bin_path: Seq<char>, config_path: Seq<char>, stdout_path: Seq<char>, stderr_path: Seq<char>)
    ensures
        spec_launchd_start(username, bin_path, config_path, stdout_path, stderr_path) == "<?xml version=\"1.0\" encoding=\"UTF-8\"?>\n<!DOCTYPE plist PUBLIC \"-//Apple//DTD PLIST 1.0//EN\"\n  \"http://www.apple.com/DTDs/PropertyList-1.0.dtd\">\n<plist version=\"1.0\">\n<dict>\n    <key>Label</key>\n    <string>com."@ + username + ".canis</string>\n\n    <key>ProgramArguments</key>\n    <array>\n        <string>"@ + bin_path + "</string>\n        <string>start</string>\n        <string>--config</string>\n        <string>"@ + config_path + "</string>\n    </array>\n\n    <key>KeepAlive</key>\n    <true/>\n\n    <key>RunAtLoad</key>\n    <true/>\n\n    <key>StandardOutPath</key>\n    <string>"@ + stdout_path + "</string>\n\n    <key>StandardErrorPath</key>\n    <string>"@ + stderr_path + "</string>\n</dict>\n</plist>\n"@,
{
    let p = launchd_start_pieces();
    let v = seq![username, bin_path, config_path, stdout_path, stderr_path];
    reveal_with_fuel(interleave, 6);
    assert(p.drop_last() =~= seq![p[0], p[1], p[2], p[3], p[4]]);
    assert(v.drop_last() =~= seq![username, bin_path, config_path, stdout_path]);
    assert(p.drop_last().drop_last() =~= seq![p[0], p[1], p[2], p[3]]);
    assert(v.drop_last().drop_last() =~= seq![username, bin_path, config_path]);
    assert(p.drop_last().drop_last().drop_last() =~= seq![p[0], p[1], p[2]]);
    assert(v.drop_last().drop_last().drop_last() =~= seq![username, bin_path]);
    assert(p.drop_last().drop_last().drop_last().drop_last() =~= seq![p[0], p[1]]);
    assert(v.drop_last().drop_last().drop_last().drop_last() =~= seq![username]);
    assert(p.drop_last().drop_last().drop_last().drop_last().drop_last() =~= seq![p[0]]);
    assert(v.drop_last().drop_last().drop_last().drop_last().drop_last() =~= Seq::<Seq<char>>::empty());
}

/// Renders the template: the launchd agent that keeps `canis start` running (macOS).
pub fn render_launchd_start(username: &str, bin_path: &str, config_path: &str, stdout_path: &str, stderr_path: &str) -> (r: String)
    ensures
        r@ == spec_launchd_start(username@, bin_path@, config_path@, stdout_path@, stderr_path@),
        r@ == "<?xml version=\"1.0\" encoding=\"UTF-8\"?>\n<!DOCTYPE plist PUBLIC \"-//Apple//DTD PLIST 1.0//EN\"\n  \"http://www.apple.com/DTDs/PropertyList-1.0.dtd\">\n<plist version=\"1.0\">\n<dict>\n    <key>Label</key>\n    <string>com."@ + username@ + ".canis</string>\n\n    <key>ProgramArguments</key>\n    <array>\n        <string>"@ + bin_path@ + "</string>\n        <string>start</string>\n        <string>--config</string>\n        <string>"@ + config_path@ + "</string>\n    </array>\n\n    <key>KeepAlive</key>\n    <true/>\n\n    <key>RunAtLoad</key>\n    <true/>\n\n    <key>StandardOutPath</key>\n    <string>"@ + stdout_path@ + "</string>\n\n    <key>StandardErrorPath</key>\n    <string>"@ + stderr_path@ + "</string>\n</dict>\n</plist>\n"@,
{
    proof {
        law_launchd_start_text(username@, bin_path@, config_path@, stdout_path@, stderr_path@);
    }
    let pieces: Vec<&str> = vec![
        "<?xml version=\"1.0\" encoding=\"UTF-8\"?>\n<!DOCTYPE plist PUBLIC \"-//Apple//DTD PLIST 1.0//EN\"\n  \"http://www.apple.com/DTDs/PropertyList-1.0.dtd\">\n<plist version=\"1.0\">\n<dict>\n    <key>Label</key>\n    <string>com.",
        ".canis</string>\n\n    <key>ProgramArguments</key>\n    <array>\n        <string>",
        "</string>\n        <string>start</string>\n        <string>--config</string>\n        <string>",
        "</string>\n    </array>\n\n    <key>KeepAlive</key>\n    <true/>\n\n    <key>RunAtLoad</key>\n    <true/>\n\n    <key>StandardOutPath</key>\n    <string>",
        "</string>\n\n    <key>StandardErrorPath</key>\n    <string>",
        "</string>\n</dict>\n</plist>\n",
    ];
    let values: Vec<&str> = vec![username, bin_path, config_path, stdout_path, stderr_path];
    assert(str_views(pieces@) =~= launchd_start_pieces());
    assert(str_views(values@) =~= seq![username@, bin_path@, config_path@, stdout_path@, stderr_path@]);
    fill_template(pieces.as_slice(), values.as_slice())
}

/// The fixed text of the template: the systemd timer that runs the daily publication (Linux).
pub open spec fn systemd_publish_timer_pieces() -> Seq<Seq<char>> {
    seq![
        "[Unit]\nDescription=Exec canis publish daily\n\n[Timer]\nOnCalendar=*-*-* "@,
        "\nPersistent=true\nUnit="@,
        "\n\n[Install]\nWantedBy=timers.target\n"@,
    ]
}

/// The systemd timer that runs the daily publication (Linux).
pub open spec fn spec_systemd_publish_timer(schedule: Seq<char>, unit_file_path: Seq<char>) -> Seq<char> {
    interleave(systemd_publish_timer_pieces(), seq![schedule, unit_file_path])
}

/// The publication timer fires daily at the schedule's time and starts the
/// unit at `unit_file_path`.
pub proof fn law_systemd_publish_timer_text(schedule: Seq<char>, unit_file_path: Seq<char>)
    ensures
        spec_systemd_publish_timer(schedule, unit_file_path) == "[Unit]\nDescription=Exec canis publish daily\n\n[Timer]\nOnCalendar=*-*-* "@ + schedule + "\nPersistent=true\nUnit="@ + unit_file_path + "\n\n[Install]\nWantedBy=timers.target\n"@,
{
    let p = systemd_publish_timer_pieces();
    let v = seq![schedule, unit_file_path];
    reveal_with_fuel(interleave, 3);
    assert(p.drop_last() =~= seq![p[0], p[1]]);
    assert(v.drop_last() =~= seq![schedule]);
    assert(p.drop_last().drop_last() =~= seq![p[0]]);
    assert(v.drop_last().drop_last() =~= Seq::<Seq<char>>::empty());
}

/// Renders the template: the systemd timer that runs the daily publication (Linux).
pub fn render_systemd_publish_timer(schedule: &str, unit_file_path: &str) -> (r: String)
    ensures
        r@ == spec_systemd_publish_timer(schedule@, unit_file_path@),
        r@ == "[Unit]\nDescription=Exec canis publish daily\n\n[Timer]\nOnCalendar=*-*-* "@ + schedule@ + "\nPersistent=true\nUnit="@ + unit_file_path@ + "\n\n[Install]\nWantedBy=timers.target\n"@,
{
    proof {
        law_systemd_publish_timer_text(schedule@, unit_file_path@);
    }
    let pieces: Vec<&str> = vec![
        "[Unit]\nDescription=Exec canis publish daily\n\n[Timer]\nOnCalendar=*-*-* ",
        "\nPersistent=true\nUnit=",
        "\n\n[Install]\nWantedBy=timers.target\n",
    ];
    let values: Vec<&str> = vec![schedule, unit_file_path];
    assert(str_views(pieces@) =~= systemd_publish_timer_pieces());
    assert(str_views(values@) =~= seq![schedule@, unit_file_path@]);
    fill_template(pieces.as_slice(), values.as_slice())
}

/// The fixed text of the template: the systemd unit the publication timer starts (Linux).
pub open spec fn systemd_publish_unit_pieces() -> Seq<Seq<char>> {
    seq![
        "[Unit]\nDescription=canis publish\n\n[Service]\nType=oneshot\nExecStart="@,
        " publish --date "@,
        " --config "@,
        "\n"@,
    ]
}

/// The systemd unit the publication timer starts (Linux).
pub open spec fn spec_systemd_publish_unit(binary_path: Seq<char>, date: Seq<char>, config_path: Seq<char>) -> Seq<char> {
    interleave(systemd_publish_unit_pieces(), seq![binary_path, date, config_path])
}

/// The publication unit runs the binary with `publish --date` and the date,
/// then `--config` and the configuration path, on its `ExecStart` line.
pub proof fn law_systemd_publish_unit_text(binary_path: Seq<char>, date: Seq<char>, config_path: Seq<char>)
    ensures
        spec_systemd_publish_unit(binary_path, date, config_path)
            == "[Unit]\nDescription=canis publish\n\n[Service]\nType=oneshot\nExecStart="@ + binary_path
            + " publish --date "@ + date + " --config "@ + config_path + "\n"@,
{
    let p = systemd_publish_unit_pieces();
    let v = seq![binary_path, date, config_path];
    reveal_with_fuel(interleave, 4);
    assert(p.drop_last() =~= seq![p[0], p[1], p[2]]);
    assert(v.drop_last() =~= seq![binary_path, date]);
    assert(p.drop_last().drop_last() =~= seq![p[0], p[1]]);
    assert(v.drop_last().drop_last() =~= seq![binary_path]);
    assert(p.drop_last().drop_last().drop_last() =~= seq![p[0]]);
    assert(v.drop_last().drop_last().drop_last() =~= Seq::<Seq<char>>::empty());
}

/// Renders the template: the systemd unit the publication timer starts (Linux).
pub fn render_systemd_publish_unit(binary_path: &str, date: &str, config_path: &str) -> (r: String)
    ensures
        r@ == spec_systemd_publish_unit(binary_path@, date@, config_path@),
        r@ == "[Unit]\nDescription=canis publish\n\n[Service]\nType=oneshot\nExecStart="@ + binary_path@
            + " publish --date "@ + date@ + " --config "@ + config_path@ + "\n"@,
{
    proof {
        law_systemd_publish_unit_text(binary_path@, date@, config_path@);
    }
    let pieces: Vec<&str> = vec![
        "[Unit]\nDescription=canis publish\n\n[Service]\nType=oneshot\nExecStart=",
        " publish --date ",
        " --config ",
        "\n",
    ];
    let values: Vec<&str> = vec![binary_path, date, config_path];
    assert(str_views(pieces@) =~= systemd_publish_unit_pieces());
    assert(str_views(values@) =~= seq![binary_path@, date@, config_path@]);
    fill_template(pieces.as_slice(), values.as_slice())
}

/// The fixed text of the template: the Task Scheduler task that runs the daily publication (Windows).
pub open spec fn task_scheduler_publish_pieces() -> Seq<Seq<char>> {
    seq![
        "<?xml version=\"1.0\" encoding=\"UTF-16\"?>\n<Task version=\"1.2\" xmlns=\"http://schemas.microsoft.com/windows/2004/02/mit/task\">\n  <Triggers>\n    <CalendarTrigger>\n      <StartBoundary>"@,
        "T"@,
        ":00</StartBoundary>\n      <ScheduleByDay>\n        <DaysInterval>1</DaysInterval>\n      </ScheduleByDay>\n    </CalendarTrigger>\n  </Triggers>\n\n  <Actions>\n    <Exec>\n      <Command>"@,
        "</Command>\n      <Arguments>publish --date "@,
        " --config "@,
        "</Arguments>\n    </Exec>\n  </Actions>\n\n  <Settings>\n    <Enabled>true</Enabled>\n    <ExecutionTimeLimit>PT1H</ExecutionTimeLimit>\n    <MultipleInstancesPolicy>IgnoreNew</MultipleInstancesPolicy>\n  </Settings>\n</Task>\n"@,
    ]
}

/// The Task Scheduler task that runs the daily publication (Windows).
pub open spec fn spec_task_scheduler_publish(today: Seq<char>, schedule: Seq<char>, binary_path: Seq<char>, date: Seq<char>, config_path: Seq<char>) -> Seq<char> {
    interleave(task_scheduler_publish_pieces(), seq![today, schedule, binary_path, date, config_path])
}

/// The scheduled task starts today at the schedule's time, repeats daily, and
/// runs the binary with `publish --date` and the date, then `--config` and
/// the configuration path.
pub proof fn law_task_scheduler_publish_text(today: Seq<char>, schedule: Seq<char>, binary_path: Seq<char>, date: Seq<char>, config_path: Seq<char>)
    ensures
        spec_task_scheduler_publish(today, schedule, binary_path, date, config_path) == "<?xml version=\"1.0\" encoding=\"UTF-16\"?>\n<Task version=\"1.2\" xmlns=\"http://schemas.microsoft.com/windows/2004/02/mit/task\">\n  <Triggers>\n    <CalendarTrigger>\n      <StartBoundary>"@ + today + "T"@ + schedule + ":00</StartBoundary>\n      <ScheduleByDay>\n        <DaysInterval>1</DaysInterval>\n      </ScheduleByDay>\n    </CalendarTrigger>\n  </Triggers>\n\n  <Actions>\n    <Exec>\n      <Command>"@ + binary_path + "</Command>\n      <Arguments>publish --date "@ + date + " --config "@ + config_path + "</Arguments>\n    </Exec>\n  </Actions>\n\n  <Settings>\n    <Enabled>true</Enabled>\n    <ExecutionTimeLimit>PT1H</ExecutionTimeLimit>\n    <MultipleInstancesPolicy>IgnoreNew</MultipleInstancesPolicy>\n  </Settings>\n</Task>\n"@,
{
    let p = task_scheduler_publish_pieces();
    let v = seq![today, schedule, binary_path, date, config_path];
    reveal_with_fuel(interleave, 6);
    assert(p.drop_last() =~= seq![p[0], p[1], p[2], p[3], p[4]]);
    assert(v.drop_last() =~= seq![today, schedule, binary_path, date]);
    assert(p.drop_last().drop_last() =~= seq![p[0], p[1], p[2], p[3]]);
    assert(v.drop_last().drop_last() =~= seq![today, schedule, binary_path]);
    assert(p.drop_last().drop_last().drop_last() =~= seq![p[0], p[1], p[2]]);
    assert(v.drop_last().drop_last().drop_last() =~= seq![today, schedule]);
    assert(p.drop_last().drop_last().drop_last().drop_last() =~= seq![p[0], p[1]]);
    assert(v.drop_last().drop_last().drop_last().drop_last() =~= seq![today]);
    assert(p.drop_last().drop_last().drop_last().drop_last().drop_last() =~= seq![p[0]]);
    assert(v.drop_last().drop_last().drop_last().drop_last().drop_last() =~= Seq::<Seq<char>>::empty());
}

/// Renders the template: the Task Scheduler task that runs the daily publication (Windows).
pub fn render_task_scheduler_publish(today: &str, schedule: &str, binary_path: &str, date: &str, config_path: &str) -> (r: String)
    ensures
        r@ == spec_task_scheduler_publish(today@, schedule@, binary_path@, date@, config_path@),
        r@ == "<?xml version=\"1.0\" encoding=\"UTF-16\"?>\n<Task version=\"1.2\" xmlns=\"http://schemas.microsoft.com/windows/2004/02/mit/task\">\n  <Triggers>\n    <CalendarTrigger>\n      <StartBoundary>"@ + today@ + "T"@ + schedule@ + ":00</StartBoundary>\n      <ScheduleByDay>\n        <DaysInterval>1</DaysInterval>\n      </ScheduleByDay>\n    </CalendarTrigger>\n  </Triggers>\n\n  <Actions>\n    <Exec>\n      <Command>"@ + binary_path@ + "</Command>\n      <Arguments>publish --date "@ + date@ + " --config "@ + config_path@ + "</Arguments>\n    </Exec>\n  </Actions>\n\n  <Settings>\n    <Enabled>true</Enabled>\n    <ExecutionTimeLimit>PT1H</ExecutionTimeLimit>\n    <MultipleInstancesPolicy>IgnoreNew</MultipleInstancesPolicy>\n  </Settings>\n</Task>\n"@,
{
    proof {
        law_task_scheduler_publish_text(today@, schedule@, binary_path@, date@, config_path@);
    }
    let pieces: Vec<&str> = vec![
        "<?xml version=\"1.0\" encoding=\"UTF-16\"?>\n<Task version=\"1.2\" xmlns=\"http://schemas.microsoft.com/windows/2004/02/mit/task\">\n  <Triggers>\n    <CalendarTrigger>\n      <StartBoundary>",
        "T",
        ":00</StartBoundary>\n      <ScheduleByDay>\n        <DaysInterval>1</DaysInterval>\n      </ScheduleByDay>\n    </CalendarTrigger>\n  </Triggers>\n\n  <Actions>\n    <Exec>\n      <Command>",
        "</Command>\n      <Arguments>publish --date ",
        " --config ",
        "</Arguments>\n    </Exec>\n  </Actions>\n\n  <Settings>\n    <Enabled>true</Enabled>\n    <ExecutionTimeLimit>PT1H</ExecutionTimeLimit>\n    <MultipleInstancesPolicy>IgnoreNew</MultipleInstancesPolicy>\n  </Settings>\n</Task>\n",
    ];
    let values: Vec<&str> = vec![today, schedule, binary_path, date, config_path];
    assert(str_views(pieces@) =~= task_scheduler_publish_pieces());
    assert(str_views(values@) =~= seq![today@, schedule@, binary_path@, date@, config_path@]);
    fill_template(pieces.as_slice(), values.as_slice())
}

} // verus!
