//! The watcher: which backend watches, which paths it ignores, and how a
//! backend's report of a file-system change becomes events.

use vstd::prelude::*;
use crate::adapter::event_time;
use crate::error::WatcherError;
use crate::event::{CanonicalEvent, EventView};
use crate::text::{concat2, str_eq, views};
use crate::uri::{path_to_uri, single_rooted, spec_path_is_absolute, spec_path_to_uri, Uri};

verus! {

/// Whether `Path::new(path).starts_with(base)` holds for the texts on the
/// target platform (whole path components only).
pub uninterp spec fn spec_path_starts_with(path: Seq<char>, base: Seq<char>) -> bool;

/// Calls `std::path::Path::starts_with`; the result is named
/// `spec_path_starts_with`, which depends on the two texts alone.
#[verifier::external_body]
fn path_starts_with(path: &str, base: &str) -> (r: bool)
    ensures
        r == spec_path_starts_with(path@, base@),
{
    std::path::Path::new(path).starts_with(base)
}

/// `path` lies under one of the ignored paths.
pub open spec fn spec_should_ignore(path: Seq<char>, ignore_paths: Seq<Seq<char>>) -> bool {
    exists|i: int| 0 <= i < ignore_paths.len() && spec_path_starts_with(path, ignore_paths[i])
}

/// Whether `path` lies under one of the ignored paths.
pub fn should_ignore(path: &str, ignore_paths: &[String]) -> (r: bool)
    ensures
        r == spec_should_ignore(path@, views(ignore_paths@)),
{
    let mut i: usize = 0;
    while i < ignore_paths.len()
        invariant
            i <= ignore_paths.len(),
            forall|k: int| 0 <= k < i ==> !spec_path_starts_with(path@, ignore_paths@[k]@),
        decreases ignore_paths.len() - i,
    {
        if path_starts_with(path, ignore_paths[i].as_str()) {
            assert(views(ignore_paths@)[i as int] == ignore_paths@[i as int]@);
            return true;
        }
        i = i + 1;
    }
    proof {
        assert forall|k: int|
            0 <= k < views(ignore_paths@).len() implies !spec_path_starts_with(
            path@,
            #[trigger] views(ignore_paths@)[k],
        ) by {
            assert(views(ignore_paths@)[k] == ignore_paths@[k]@);
        }
    }
    false
}

/// The watching backends.
#[derive(Debug, Clone, Copy, PartialEq, Eq, Structural)]
pub enum WatcherSystemType {
    /// The platform's change notifications (`notify`).
    Notify,
    /// A pass-through FUSE file system.
    Fuse,
}

/// The backend a configuration name selects.
pub open spec fn spec_system_type(name: Seq<char>) -> Option<WatcherSystemType> {
    if name == "notify"@ {
        Some(WatcherSystemType::Notify)
    } else if name == "fuse"@ {
        Some(WatcherSystemType::Fuse)
    } else {
        None
    }
}

impl WatcherSystemType {
    /// The backend named `s` (`notify` or `fuse`).
    pub fn from_str(s: &str) -> (r: Result<WatcherSystemType, WatcherError>)
        ensures
            match spec_system_type(s@) {
                Some(t) => r == Ok::<WatcherSystemType, WatcherError>(t),
                None => r matches Err(WatcherError::UnsupportedSystem(m)) && m@
                    == "Unsupported system: "@ + s@,
            },
    {
        if str_eq(s, "notify") {
            Ok(WatcherSystemType::Notify)
        } else if str_eq(s, "fuse") {
            Ok(WatcherSystemType::Fuse)
        } else {
            Err(WatcherError::UnsupportedSystem(concat2("Unsupported system: ", s)))
        }
    }

    /// Whether the backend can watch more than one path (FUSE mounts only the first).
    pub fn supports_multiple_paths(&self) -> (r: bool)
        ensures
            r == (*self == WatcherSystemType::Notify),
    {
        match self {
            WatcherSystemType::Notify => true,
            WatcherSystemType::Fuse => false,
        }
    }
}

/// The kinds of change notification that produce events.
#[derive(Debug, Clone, Copy, PartialEq, Eq, Structural)]
pub enum NotifyKind {
    /// A file or directory was created.
    Create,
    /// A file's data changed.
    ModifyData,
    /// A rename, reported with both the old and the new path.
    RenameBoth,
    /// Any other notification.
    Other,
}

/// A change notification of the `notify` backend: its kind and the paths it names.
pub struct NotifyEvent {
    pub kind: NotifyKind,
    pub paths: Vec<String>,
}

/// The URIs of the paths that convert, in order.
pub open spec fn converted_uris(paths: Seq<Seq<char>>) -> Seq<Seq<char>>
    decreases paths.len(),
{
    if paths.len() == 0 {
        Seq::empty()
    } else {
        converted_uris(paths.drop_last()) + match spec_path_to_uri(paths.last()) {
            Ok(u) => seq![u],
            Err(_) => Seq::empty(),
        }
    }
}

/// The reasons of the paths that do not convert, in order.
pub open spec fn conversion_failures(paths: Seq<Seq<char>>) -> Seq<Seq<char>>
    decreases paths.len(),
{
    if paths.len() == 0 {
        Seq::empty()
    } else {
        conversion_failures(paths.drop_last()) + match spec_path_to_uri(paths.last()) {
            Ok(_) => Seq::empty(),
            Err(m) => seq![m],
        }
    }
}

/// The events a notification becomes: a `Create` (or `Modify`) for each path
/// that converts to a URI, or a single `Move` when a rename names exactly two
/// paths that both convert.
pub open spec fn spec_notify_events(kind: NotifyKind, paths: Seq<Seq<char>>, time: Seq<char>) -> Seq<
    EventView,
> {
    match kind {
        NotifyKind::Create => converted_uris(paths).map_values(
            |u: Seq<char>| EventView::Create { uri: u, time },
        ),
        NotifyKind::ModifyData => converted_uris(paths).map_values(
            |u: Seq<char>| EventView::Modify { uri: u, time },
        ),
        NotifyKind::RenameBoth => if paths.len() == 2 && spec_path_to_uri(paths[0]) is Ok
            && spec_path_to_uri(paths[1]) is Ok {
            seq![
                EventView::Move {
                    src: spec_path_to_uri(paths[0])->Ok_0,
                    dst: spec_path_to_uri(paths[1])->Ok_0,
                    time,
                },
            ]
        } else {
            Seq::empty()
        },
        NotifyKind::Other => Seq::empty(),
    }
}

/// Each URI kept by `converted_uris` is the URI of one of the paths.
proof fn lemma_converted_uris_come_from_paths(paths: Seq<Seq<char>>)
    ensures
        forall|i: int|
            0 <= i < converted_uris(paths).len() ==> exists|j: int|
                0 <= j < paths.len() && spec_path_to_uri(paths[j]) == Ok::<Seq<char>, Seq<char>>(
                    #[trigger] converted_uris(paths)[i],
                ),
    decreases paths.len(),
{
    if paths.len() > 0 {
        let init = paths.drop_last();
        lemma_converted_uris_come_from_paths(init);
        let c = converted_uris(paths);
        let c0 = converted_uris(init);
        assert forall|i: int| 0 <= i < c.len() implies exists|j: int|
            0 <= j < paths.len() && spec_path_to_uri(paths[j]) == Ok::<Seq<char>, Seq<char>>(
                #[trigger] c[i],
            ) by {
            if i < c0.len() {
                assert(c[i] == c0[i]);
                let j = choose|j: int|
                    0 <= j < init.len() && spec_path_to_uri(init[j]) == Ok::<Seq<char>, Seq<char>>(
                        c0[i],
                    );
                assert(init[j] == paths[j]);
            } else {
                assert(spec_path_to_uri(paths[paths.len() - 1]) == Ok::<Seq<char>, Seq<char>>(c[i]));
            }
        }
    }
}

/// Every event a notification becomes carries the time it was observed at;
/// a creation gives only `Create` events and a data change only `Modify`
/// events, each for the URI of one of the notification's paths; a rename
/// gives at most one `Move`, from the URI of the first path to that of the
/// second; any other notification gives nothing.
pub proof fn law_notify_events_carry_time(kind: NotifyKind, paths: Seq<Seq<char>>, time: Seq<char>)
    ensures
        forall|i: int|
            0 <= i < spec_notify_events(kind, paths, time).len() ==> event_time(
                #[trigger] spec_notify_events(kind, paths, time)[i],
            ) == time,
        forall|i: int|
            0 <= i < spec_notify_events(kind, paths, time).len() ==> match #[trigger] spec_notify_events(
                kind,
                paths,
                time,
            )[i] {
                EventView::Create { uri, .. } => kind is Create && exists|j: int|
                    0 <= j < paths.len() && spec_path_to_uri(paths[j]) == Ok::<Seq<char>, Seq<char>>(uri),
                EventView::Modify { uri, .. } => kind is ModifyData && exists|j: int|
                    0 <= j < paths.len() && spec_path_to_uri(paths[j]) == Ok::<Seq<char>, Seq<char>>(uri),
                EventView::Move { src, dst, .. } => kind is RenameBoth && paths.len() == 2
                    && spec_path_to_uri(paths[0]) == Ok::<Seq<char>, Seq<char>>(src)
                    && spec_path_to_uri(paths[1]) == Ok::<Seq<char>, Seq<char>>(dst),
                _ => false,
            },
        kind is RenameBoth ==> spec_notify_events(kind, paths, time).len() <= 1,
        kind is Other ==> spec_notify_events(kind, paths, time).len() == 0,
{
    lemma_converted_uris_come_from_paths(paths);
    let evs = spec_notify_events(kind, paths, time);
    let c = converted_uris(paths);
    if kind is Create || kind is ModifyData {
        assert forall|i: int| 0 <= i < evs.len() implies evs[i] == (if kind is Create {
            EventView::Create { uri: c[i], time }
        } else {
            EventView::Modify { uri: c[i], time }
        }) by {}
    }
}

/// The reasons reported for the paths of a notification that do not convert.
pub open spec fn spec_notify_failures(kind: NotifyKind, paths: Seq<Seq<char>>) -> Seq<Seq<char>> {
    match kind {
        NotifyKind::Create | NotifyKind::ModifyData => conversion_failures(paths),
        NotifyKind::RenameBoth => if paths.len() == 2 {
            conversion_failures(paths)
        } else {
            Seq::empty()
        },
        NotifyKind::Other => Seq::empty(),
    }
}

/// The views of a list of events.
pub open spec fn event_views(v: Seq<CanonicalEvent>) -> Seq<EventView> {
    v.map_values(|e: CanonicalEvent| e@)
}

/// The reasons carried by a list of `UriFailed` errors.
pub open spec fn failure_reasons(v: Seq<WatcherError>) -> Seq<Seq<char>> {
    v.map_values(
        |e: WatcherError|
            match e {
                WatcherError::UriFailed(s) => s@,
                _ => Seq::empty(),
            },
    )
}

/// The events a notification becomes, and the errors of the paths that did
/// not convert (for the error stream).
pub struct NotifyConversion {
    pub events: Vec<CanonicalEvent>,
    pub failures: Vec<WatcherError>,
}

/// Every path is absolute and starts with a single `/`, so that each one
/// converts to a URI.
pub open spec fn all_single_rooted_absolute(paths: Seq<Seq<char>>) -> bool {
    forall|k: int| 0 <= k < paths.len() ==> spec_path_is_absolute(#[trigger] paths[k]) && single_rooted(paths[k])
}

/// Converts each path, keeping the URIs and the errors in order.
fn convert_paths(paths: &[String]) -> (r: (Vec<Uri>, Vec<WatcherError>))
    ensures
        r.0@.map_values(|u: Uri| u@) == converted_uris(views(paths@)),
        failure_reasons(r.1@) == conversion_failures(views(paths@)),
        forall|k: int| 0 <= k < r.1@.len() ==> r.1@[k] is UriFailed,
        all_single_rooted_absolute(views(paths@)) ==> r.0@.len() == paths@.len() && r.1@.len() == 0,
{
    let mut uris: Vec<Uri> = Vec::new();
    let mut failures: Vec<WatcherError> = Vec::new();
    let mut i: usize = 0;
    while i < paths.len()
        invariant
            i <= paths.len(),
            uris@.map_values(|u: Uri| u@) == converted_uris(views(paths@).take(i as int)),
            failure_reasons(failures@) == conversion_failures(views(paths@).take(i as int)),
            forall|k: int| 0 <= k < failures@.len() ==> failures@[k] is UriFailed,
            all_single_rooted_absolute(views(paths@)) ==> uris@.len() == i && failures@.len() == 0,
        decreases paths.len() - i,
    {
        let ghost before = views(paths@).take(i as int);
        let ghost after = views(paths@).take(i + 1);
        assert(after.drop_last() =~= before);
        assert(after.last() == paths@[i as int]@);
        assert(views(paths@)[i as int] == paths@[i as int]@);
        let ghost old_uris = uris@;
        let ghost old_failures = failures@;
        match path_to_uri(paths[i].as_str()) {
            Ok(u) => {
                uris.push(u);
                assert(uris@.map_values(|u: Uri| u@) =~= old_uris.map_values(|u: Uri| u@) + seq![
                    uris@[old_uris.len() as int]@,
                ]);
                assert(failure_reasons(failures@) =~= failure_reasons(old_failures) + Seq::empty());
            },
            Err(e) => {
                failures.push(e);
                assert(failure_reasons(failures@) =~= failure_reasons(old_failures) + seq![
                    failure_reasons(failures@).last(),
                ]);
                assert(uris@.map_values(|u: Uri| u@) =~= old_uris.map_values(|u: Uri| u@)
                    + Seq::empty());
            },
        }
        i = i + 1;
    }
    assert(views(paths@).take(paths.len() as int) =~= views(paths@));
    (uris, failures)
}

/// Turns a notification into events observed at `time`.
pub fn convert_notify_event(event: &NotifyEvent, time: &str) -> (r: NotifyConversion)
    ensures
        event_views(r.events@) == spec_notify_events(event.kind, views(event.paths@), time@),
        failure_reasons(r.failures@) == spec_notify_failures(event.kind, views(event.paths@)),
        forall|k: int| 0 <= k < r.failures@.len() ==> r.failures@[k] is UriFailed,
        forall|k: int| 0 <= k < r.events@.len() ==> event_time(#[trigger] r.events@[k]@) == time@,
        all_single_rooted_absolute(views(event.paths@)) ==> r.failures@.len() == 0 && r.events@.len()
            == match event.kind {
            NotifyKind::Create | NotifyKind::ModifyData => event.paths@.len() as int,
            NotifyKind::RenameBoth => if event.paths@.len() == 2 {
                1int
            } else {
                0int
            },
            NotifyKind::Other => 0int,
        },
{
    proof {
        law_notify_events_carry_time(event.kind, views(event.paths@), time@);
    }
    let r = match event.kind {
        NotifyKind::Create | NotifyKind::ModifyData => {
            let (uris, failures) = convert_paths(event.paths.as_slice());
            let mut events: Vec<CanonicalEvent> = Vec::new();
            let mut i: usize = 0;
            let ghost us = converted_uris(views(event.paths@));
            let ghost evs = spec_notify_events(event.kind, views(event.paths@), time@);
            assert(evs.len() == us.len());
            while i < uris.len()
                invariant
                    i <= uris.len(),
                    uris@.map_values(|u: Uri| u@) == us,
                    us == converted_uris(views(event.paths@)),
                    evs == spec_notify_events(event.kind, views(event.paths@), time@),
                    evs.len() == uris@.len(),
                    event_views(events@) == spec_notify_events(event.kind, views(event.paths@), time@).take(i as int),
                    event.kind is Create || event.kind is ModifyData,
                decreases uris.len() - i,
            {
                let ghost old_events = events@;
                assert(us[i as int] == uris@[i as int]@);
                assert(event.kind is Create ==> evs[i as int] == EventView::Create { uri: us[i as int], time: time@ });
                assert(event.kind is ModifyData ==> evs[i as int] == EventView::Modify { uri: us[i as int], time: time@ });
                let u = uris[i].clone();
                let t = crate::text::to_owned_string(time);
                match event.kind {
                    NotifyKind::Create => events.push(CanonicalEvent::Create { uri: u, time: t }),
                    _ => events.push(CanonicalEvent::Modify { uri: u, time: t }),
                }
                assert(event_views(events@) =~= event_views(old_events).push(events@.last()@));
                assert(spec_notify_events(event.kind, views(event.paths@), time@).take(i + 1)
                    =~= spec_notify_events(event.kind, views(event.paths@), time@).take(i as int).push(
                    spec_notify_events(event.kind, views(event.paths@), time@)[i as int],
                ));
                i = i + 1;
            }
            assert(spec_notify_events(event.kind, views(event.paths@), time@).take(uris.len() as int)
                =~= spec_notify_events(event.kind, views(event.paths@), time@));
            NotifyConversion { events, failures }
        },
        NotifyKind::RenameBoth => {
            if event.paths.len() != 2 {
                return NotifyConversion { events: Vec::new(), failures: Vec::new() };
            }
            let src = path_to_uri(event.paths[0].as_str());
            let dst = path_to_uri(event.paths[1].as_str());
            let ghost ps = views(event.paths@);
            proof {
                assert(ps[0] == event.paths@[0]@ && ps[1] == event.paths@[1]@);
                if all_single_rooted_absolute(ps) {
                    assert(spec_path_is_absolute(ps[0]) && single_rooted(ps[0]));
                    assert(spec_path_is_absolute(ps[1]) && single_rooted(ps[1]));
                }
                reveal_with_fuel(conversion_failures, 3);
                assert(ps.drop_last().last() == ps[0]);
                assert(ps.last() == ps[1]);
                assert(ps.drop_last().drop_last() =~= Seq::<Seq<char>>::empty());
                assert(ps.drop_last() =~= seq![ps[0]]);
                assert(ps[0] == event.paths@[0]@ && ps[1] == event.paths@[1]@);
            }
            let mut failures: Vec<WatcherError> = Vec::new();
            let mut events: Vec<CanonicalEvent> = Vec::new();
            match (src, dst) {
                (Ok(s), Ok(d)) => {
                    events.push(
                        CanonicalEvent::Move {
                            src: s,
                            dst: d,
                            time: crate::text::to_owned_string(time),
                        },
                    );
                    assert(event_views(events@) =~= spec_notify_events(event.kind, ps, time@));
                    assert(failure_reasons(failures@) =~= spec_notify_failures(event.kind, ps));
                },
                (Ok(_), Err(e2)) => {
                    failures.push(e2);
                    assert(failure_reasons(failures@) =~= spec_notify_failures(event.kind, ps));
                    assert(event_views(events@) =~= spec_notify_events(event.kind, ps, time@));
                },
                (Err(e1), Ok(_)) => {
                    failures.push(e1);
                    assert(failure_reasons(failures@) =~= spec_notify_failures(event.kind, ps));
                    assert(event_views(events@) =~= spec_notify_events(event.kind, ps, time@));
                },
                (Err(e1), Err(e2)) => {
                    failures.push(e1);
                    failures.push(e2);
                    assert(failure_reasons(failures@) =~= spec_notify_failures(event.kind, ps));
                    assert(event_views(events@) =~= spec_notify_events(event.kind, ps, time@));
                },
            }
            NotifyConversion { events, failures }
        },
        NotifyKind::Other => {
            let r = NotifyConversion { events: Vec::new(), failures: Vec::new() };
            assert(event_views(r.events@) =~= Seq::<EventView>::empty());
            assert(failure_reasons(r.failures@) =~= Seq::<Seq<char>>::empty());
            r
        },
    };
    assert forall|k: int| 0 <= k < r.events@.len() implies event_time(#[trigger] r.events@[k]@) == time@ by {
        assert(event_views(r.events@)[k] == r.events@[k]@);
    }
    r
}

/// A notification is dropped when any of its paths lies under an ignored path.
pub open spec fn spec_notification_ignored(paths: Seq<Seq<char>>, ignore_paths: Seq<Seq<char>>) -> bool {
    exists|i: int| 0 <= i < paths.len() && spec_should_ignore(paths[i], ignore_paths)
}

/// Whether a notification names a path under one of the ignored paths.
pub fn notification_ignored(event: &NotifyEvent, ignore_paths: &[String]) -> (r: bool)
    ensures
        r == spec_notification_ignored(views(event.paths@), views(ignore_paths@)),
{
    let mut i: usize = 0;
    while i < event.paths.len()
        invariant
            i <= event.paths.len(),
            forall|k: int|
                0 <= k < i ==> !spec_should_ignore(event.paths@[k]@, views(ignore_paths@)),
        decreases event.paths.len() - i,
    {
        if should_ignore(event.paths[i].as_str(), ignore_paths) {
            assert(views(event.paths@)[i as int] == event.paths@[i as int]@);
            return true;
        }
        i = i + 1;
    }
    proof {
        assert forall|k: int|
            0 <= k < views(event.paths@).len() implies !spec_should_ignore(
            #[trigger] views(event.paths@)[k],
            views(ignore_paths@),
        ) by {
            assert(views(event.paths@)[k] == event.paths@[k]@);
        }
    }
    false
}

/// The file watcher: the backend it runs. (The observers it notifies are
/// attached by the application.)
pub struct FileWatcher {
    system_type: WatcherSystemType,
}

impl FileWatcher {
    /// The backend the watcher runs.
    pub closed spec fn spec_system_type(&self) -> WatcherSystemType {
        self.system_type
    }

    /// A watcher running the backend named `system_name`.
    pub fn new(system_name: &str) -> (r: Result<FileWatcher, WatcherError>)
        ensures
            match spec_system_type(system_name@) {
                Some(t) => r matches Ok(w) && w.spec_system_type() == t,
                None => r matches Err(WatcherError::UnsupportedSystem(m)) && m@
                    == "Unsupported system: "@ + system_name@,
            },
    {
        match WatcherSystemType::from_str(system_name) {
            Ok(t) => Ok(FileWatcher { system_type: t }),
            Err(e) => Err(e),
        }
    }

    /// The backend the watcher runs.
    pub fn system_type(&self) -> (r: WatcherSystemType)
        ensures
            r == self.spec_system_type(),
    {
        self.system_type
    }

    /// The events a `notify` notification observed at `time` becomes: none
    /// when it names an ignored path.
    pub fn events_for(&self, event: &NotifyEvent, time: &str, ignore_paths: &[String]) -> (r:
        NotifyConversion)
        ensures
            spec_notification_ignored(views(event.paths@), views(ignore_paths@)) ==> r.events@.len()
                == 0 && r.failures@.len() == 0,
            !spec_notification_ignored(views(event.paths@), views(ignore_paths@)) ==> event_views(
                r.events@,
            ) == spec_notify_events(event.kind, views(event.paths@), time@) && failure_reasons(
                r.failures@,
            ) == spec_notify_failures(event.kind, views(event.paths@)),
    {
        if notification_ignored(event, ignore_paths) {
            NotifyConversion { events: Vec::new(), failures: Vec::new() }
        } else {
            convert_notify_event(event, time)
        }
    }
}

} // verus!
