//! The watching backends, as strategies: what each can do and how a
//! notification becomes events.

use vstd::prelude::*;
use crate::error::WatcherError;
use crate::event::CanonicalEvent;
use crate::text::{concat2, str_eq, to_owned_string, views};
use crate::watcher::{convert_notify_event, event_views, spec_notify_events, NotifyEvent, NotifyKind};

verus! {

/// What a watching backend can do.
#[derive(Debug)]
pub struct WatcherCapabilities {
    pub supports_multiple_paths: bool,
    pub system_name: String,
}

/// The capabilities of the backend named `name`, if it is one.
pub open spec fn spec_capabilities(name: Seq<char>) -> Option<bool> {
    if name == "notify"@ {
        Some(true)
    } else if name == "fuse"@ {
        Some(false)
    } else {
        None
    }
}

impl WatcherCapabilities {
    /// The capabilities of the backend named `system_name` (`notify` or `fuse`).
    pub fn for_system(system_name: &str) -> (r: Result<WatcherCapabilities, WatcherError>)
        ensures
            match spec_capabilities(system_name@) {
                Some(multi) => r matches Ok(c) && c.supports_multiple_paths == multi
                    && c.system_name@ == system_name@,
                None => r matches Err(WatcherError::UnsupportedSystem(m)) && m@
                    == "未対応の監視システム: "@ + system_name@,
            },
    {
        if str_eq(system_name, "notify") {
            Ok(WatcherCapabilities { supports_multiple_paths: true, system_name: to_owned_string("notify") })
        } else if str_eq(system_name, "fuse") {
            Ok(WatcherCapabilities { supports_multiple_paths: false, system_name: to_owned_string("fuse") })
        } else {
            Err(WatcherError::UnsupportedSystem(concat2("未対応の監視システム: ", system_name)))
        }
    }

    /// A copy of the capabilities.
    pub fn duplicate(&self) -> (r: WatcherCapabilities)
        ensures
            r.supports_multiple_paths == self.supports_multiple_paths,
            r.system_name@ == self.system_name@,
    {
        WatcherCapabilities {
            supports_multiple_paths: self.supports_multiple_paths,
            system_name: self.system_name.clone(),
        }
    }
}

/// A watching backend.
pub trait WatcherStrategy {
    /// What the backend is, for people.
    fn description(&self) -> String;

    /// What the backend can do.
    fn capabilities(&self) -> WatcherCapabilities;
}

/// Watching with the platform's change notifications.
pub struct NotifyWatcherStrategy {
    capabilities: WatcherCapabilities,
}

/// Watching through a FUSE file system (not available in this form).
pub struct FuseWatcherStrategy {
    capabilities: WatcherCapabilities,
}

impl NotifyWatcherStrategy {
    /// The capabilities the strategy reports.
    pub closed spec fn caps(&self) -> (bool, Seq<char>) {
        (self.capabilities.supports_multiple_paths, self.capabilities.system_name@)
    }

    /// The `notify` strategy.
    pub fn new() -> (r: NotifyWatcherStrategy)
        ensures
            r.caps() == (true, "notify"@),
    {
        let capabilities = WatcherCapabilities {
            supports_multiple_paths: true,
            system_name: to_owned_string("notify"),
        };
        NotifyWatcherStrategy { capabilities }
    }

    /// The events a notification observed at `time` becomes: creations and
    /// data modifications only.
    pub fn convert_to_canonical(&self, event: &NotifyEvent, time: &str) -> (r: Vec<CanonicalEvent>)
        ensures
            event.kind is Create || event.kind is ModifyData ==> event_views(r@) == spec_notify_events(
                event.kind,
                views(event.paths@),
                time@,
            ),
            !(event.kind is Create || event.kind is ModifyData) ==> r@.len() == 0,
    {
        match event.kind {
            NotifyKind::Create | NotifyKind::ModifyData => convert_notify_event(event, time).events,
            _ => Vec::new(),
        }
    }
}

impl WatcherStrategy for NotifyWatcherStrategy {
    fn description(&self) -> (r: String)
        ensures
            r@ == "notify: 標準ファイルシステム監視"@,
    {
        to_owned_string("notify: 標準ファイルシステム監視")
    }

    fn capabilities(&self) -> (r: WatcherCapabilities)
        ensures
            (r.supports_multiple_paths, r.system_name@) == self.caps(),
    {
        self.capabilities.duplicate()
    }
}

impl FuseWatcherStrategy {
    /// The capabilities the strategy reports.
    pub closed spec fn caps(&self) -> (bool, Seq<char>) {
        (self.capabilities.supports_multiple_paths, self.capabilities.system_name@)
    }

    /// The FUSE strategy.
    pub fn new() -> (r: FuseWatcherStrategy)
        ensures
            r.caps() == (false, "fuse"@),
    {
        let capabilities = WatcherCapabilities {
            supports_multiple_paths: false,
            system_name: to_owned_string("fuse"),
        };
        FuseWatcherStrategy { capabilities }
    }

    /// Starting this strategy always fails; the application warns as well
    /// when more than one path was given, as FUSE watches only one.
    pub fn start_watching(&self, paths: &[String]) -> (r: (bool, WatcherError))
        ensures
            r.0 == (paths@.len() > 1),
            r.1 matches WatcherError::UnsupportedSystem(m) && m@ == "FUSE監視は未実装"@,
    {
        (paths.len() > 1, WatcherError::UnsupportedSystem(to_owned_string("FUSE監視は未実装")))
    }
}

impl WatcherStrategy for FuseWatcherStrategy {
    fn description(&self) -> (r: String)
        ensures
            r@ == "FUSE: 詳細なファイルシステム監視(未実装)"@,
    {
        to_owned_string("FUSE: 詳細なファイルシステム監視(未実装)")
    }

    fn capabilities(&self) -> (r: WatcherCapabilities)
        ensures
            (r.supports_multiple_paths, r.system_name@) == self.caps(),
    {
        self.capabilities.duplicate()
    }
}

/// The strategy chosen for a backend name.
pub enum WatcherStrategyChoice {
    Notify(NotifyWatcherStrategy),
    Fuse(FuseWatcherStrategy),
}

/// The strategy for the backend named `system_name` (`notify` or `fuse`).
pub fn create_watcher_strategy(system_name: &str) -> (r: Result<WatcherStrategyChoice, WatcherError>)
    ensures
        system_name@ == "notify"@ ==> r matches Ok(WatcherStrategyChoice::Notify(_)),
        system_name@ == "fuse"@ ==> r matches Ok(WatcherStrategyChoice::Fuse(_)),
        spec_capabilities(system_name@) is None ==> (r matches Err(WatcherError::UnsupportedSystem(m))
            && m@ == "未対応の監視システム: "@ + system_name@),
{
    proof {
        reveal_strlit("notify");
        reveal_strlit("fuse");
        assert("fuse"@.len() != "notify"@.len());
    }
    if str_eq(system_name, "notify") {
        Ok(WatcherStrategyChoice::Notify(NotifyWatcherStrategy::new()))
    } else if str_eq(system_name, "fuse") {
        Ok(WatcherStrategyChoice::Fuse(FuseWatcherStrategy::new()))
    } else {
        Err(WatcherError::UnsupportedSystem(concat2("未対応の監視システム: ", system_name)))
    }
}

} // verus!
