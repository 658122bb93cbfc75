//! The command line: the commands and their arguments.
//!
//! Paths are carried as text. The application parses the command line into
//! these types.

use vstd::prelude::*;
use crate::text::views;

verus! {

/// The command line.
pub struct Cli {
    pub command: Commands,
}

/// The commands.
pub enum Commands {
    /// Generate template files for configuration
    Init(InitArgs),
    /// Start canis system
    Start(StartArgs),
    /// Stop canis system
    Stop,
    /// Display digest about file
    Info(InfoArgs),
    /// Publish daily hash
    Publish(PublishArgs),
}

/// Arguments of `canis init`.
pub struct InitArgs {
    /// Path to configuration file
    pub config: Option<String>,
    /// File system watcher backend to use
    pub watcher: Option<String>,
    /// Paths to watch for operation
    pub targets: Option<Vec<String>>,
    /// Path to log file for digest
    pub logfile: Option<String>,
    /// Paths to ignore by the file system watcher
    pub ignore: Option<Vec<String>>,
    /// Local git repository path for hash storage and publication
    pub hashdir: Option<String>,
    /// Path to the database file where digests are stored
    pub dbfile: Option<String>,
    /// GitHub access token used to publish hashes
    pub token: Option<String>,
    /// Name of the GitHub repository hashes are published to
    pub repo: Option<String>,
    /// Date argument handed to `canis publish` by the scheduled service
    pub date: Option<String>,
    /// Time of day (`HH:MM`) the daily hash is published at
    pub schedule: Option<String>,
    /// Path to daemon stdout log file
    pub daemon_out: Option<String>,
    /// Path to daemon stderr log file
    pub daemon_err: Option<String>,
    /// Generate service file for monitoring (canis start)
    pub start: Option<String>,
    /// Path to canis binary file
    pub binary: Option<String>,
    /// Generate only service file for daily publishing (canis publish)
    pub publish: Option<String>,
}

/// Arguments of `canis start`.
pub struct StartArgs {
    /// Specify config file
    pub config: Option<String>,
    /// File system watcher backend to use
    pub watcher: Option<String>,
    /// Paths to watch for operation
    pub targets: Option<Vec<String>>,
    /// Path to log file for digest
    pub logfile: Option<String>,
    /// Paths to ignore by the file system watcher
    pub ignore: Option<Vec<String>>,
    /// Start background
    pub daemon: bool,
}

/// Arguments of `canis info`.
pub struct InfoArgs {
    /// Path to the file to search
    pub filepath: String,
    /// Generate log about file
    pub log: bool,
}

/// Arguments of `canis publish`.
pub struct PublishArgs {
    /// Specify config file
    pub config: Option<String>,
    /// The day to publish: `today`, `yesterday` or `YYYY-MM-DD`
    pub date: String,
    /// Path to the database file where digests are stored
    pub dbfile: Option<String>,
    /// Directory the daily hash file is written to
    pub hashdir: Option<String>,
    /// GitHub access token
    pub token: Option<String>,
    /// GitHub repository name
    pub repo: Option<String>,
}

/// The view of an optional string.
pub open spec fn opt_view(o: Option<String>) -> Option<Seq<char>> {
    match o {
        Some(s) => Some(s@),
        None => None,
    }
}

/// The view of an optional list of strings.
pub open spec fn opt_views(o: Option<Vec<String>>) -> Option<Seq<Seq<char>>> {
    match o {
        Some(v) => Some(views(v@)),
        None => None,
    }
}

/// A non-empty string.
pub open spec fn filled(o: Option<Seq<char>>) -> bool {
    o matches Some(s) && s.len() > 0
}

/// A non-empty list of non-empty strings.
pub open spec fn filled_list(o: Option<Seq<Seq<char>>>) -> bool {
    o matches Some(v) && v.len() > 0 && forall|i: int| 0 <= i < v.len() ==> v[i].len() > 0
}

/// Whether a list of strings is non-empty and holds no empty string.
pub fn list_filled(v: &Vec<String>) -> (r: bool)
    ensures
        r == filled_list(Some(views(v@))),
{
    if v.len() == 0 {
        return false;
    }
    let mut i: usize = 0;
    while i < v.len()
        invariant
            i <= v.len(),
            forall|k: int| 0 <= k < i ==> views(v@)[k].len() > 0,
        decreases v.len() - i,
    {
        assert(views(v@)[i as int] == v@[i as int]@);
        if v[i].as_str().is_empty() {
            return false;
        }
        i = i + 1;
    }
    true
}

impl StartArgs {
    /// The command line names the watcher, the targets and the log file, so
    /// no configuration file is needed for them.
    pub open spec fn spec_is_complete(&self) -> bool {
        filled(opt_view(self.watcher)) && filled_list(opt_views(self.targets)) && filled(
            opt_view(self.logfile),
        )
    }

    /// Whether the command line names the watcher, non-empty targets and the
    /// log file.
    pub fn is_complete(&self) -> (r: bool)
        ensures
            r == self.spec_is_complete(),
    {
        let w = match &self.watcher {
            Some(w) => !w.as_str().is_empty(),
            None => false,
        };
        let t = match &self.targets {
            Some(t) => list_filled(t),
            None => false,
        };
        let l = match &self.logfile {
            Some(l) => !l.as_str().is_empty(),
            None => false,
        };
        w && t && l
    }
}

impl PublishArgs {
    /// The command line names the database, the hash directory, the token and
    /// the repository, so no configuration file is needed for them.
    pub open spec fn spec_is_complete(&self) -> bool {
        filled(opt_view(self.dbfile)) && filled(opt_view(self.hashdir)) && filled(
            opt_view(self.token),
        ) && filled(opt_view(self.repo))
    }

    /// Whether the command line names a non-empty database, hash directory,
    /// token and repository.
    pub fn is_complete(&self) -> (r: bool)
        ensures
            r == self.spec_is_complete(),
    {
        let d = match &self.dbfile {
            Some(x) => !x.as_str().is_empty(),
            None => false,
        };
        let h = match &self.hashdir {
            Some(x) => !x.as_str().is_empty(),
            None => false,
        };
        let t = match &self.token {
            Some(x) => !x.as_str().is_empty(),
            None => false,
        };
        let p = match &self.repo {
            Some(x) => !x.as_str().is_empty(),
            None => false,
        };
        d && h && t && p
    }
}

} // verus!
