//! The adapter between the watchers and the processor: it lowers each event
//! to the level of detail the processor handles.
//!
//! Level 1 is `Create`/`Modify`, level 2 adds `Move`, level 3 adds `Write`,
//! `Append` and `Open`.

use vstd::prelude::*;
use crate::event::{opt_event_view, CanonicalEvent, EventView, FileEvent, FileEventView};

verus! {

/// The level of detail an event belongs to.
pub open spec fn event_level(e: EventView) -> int {
    match e {
        EventView::Create { .. } | EventView::Modify { .. } => 1,
        EventView::Move { .. } => 2,
        _ => 3,
    }
}

/// The time an event was observed at.
pub open spec fn event_time(e: EventView) -> Seq<char> {
    match e {
        EventView::Create { time, .. } => time,
        EventView::Modify { time, .. } => time,
        EventView::Move { time, .. } => time,
        EventView::Write { time, .. } => time,
        EventView::Open { time, .. } => time,
        EventView::Append { time, .. } => time,
    }
}

/// Lowering to level 1: writes and appends become modifications of the same
/// file, a move becomes the creation of its destination, an open is dropped.
pub open spec fn spec_down_to_l1(e: EventView) -> Option<EventView> {
    match e {
        EventView::Write { uri, time, .. } => Some(EventView::Modify { uri, time }),
        EventView::Append { uri, time, .. } => Some(EventView::Modify { uri, time }),
        EventView::Open { .. } => None,
        EventView::Move { dst, time, .. } => Some(EventView::Create { uri: dst, time }),
        _ => Some(e),
    }
}

/// Lowering to level 2: writes and appends become modifications of the same
/// file, an open is dropped; moves pass.
pub open spec fn spec_down_to_l2(e: EventView) -> Option<EventView> {
    match e {
        EventView::Write { uri, time, .. } => Some(EventView::Modify { uri, time }),
        EventView::Append { uri, time, .. } => Some(EventView::Modify { uri, time }),
        EventView::Open { .. } => None,
        _ => Some(e),
    }
}

/// Lowering to level 3: every event passes.
pub open spec fn spec_down_to_l3(e: EventView) -> Option<EventView> {
    Some(e)
}

/// A way to lower events.
pub trait ConverterStrategy {
    /// What the strategy makes of an event.
    spec fn spec_convert(&self, e: EventView) -> Option<EventView>;

    /// Lowers an event; `None` drops it.
    fn convert(&self, event: CanonicalEvent) -> (r: Option<CanonicalEvent>)
        ensures
            opt_event_view(r) == self.spec_convert(event@),
    ;
}

/// Lowering to level 1.
pub struct DownToL1Strategy;

/// Lowering to level 2.
pub struct DownToL2Strategy;

/// Lowering to level 3 (every event passes).
pub struct DownToL3Strategy;

impl ConverterStrategy for DownToL1Strategy {
    open spec fn spec_convert(&self, e: EventView) -> Option<EventView> {
        spec_down_to_l1(e)
    }

    fn convert(&self, event: CanonicalEvent) -> (r: Option<CanonicalEvent>) {
        match event {
            CanonicalEvent::Write { uri, time, .. } => Some(CanonicalEvent::Modify { uri, time }),
            CanonicalEvent::Append { uri, time, .. } => Some(CanonicalEvent::Modify { uri, time }),
            CanonicalEvent::Open { .. } => None,
            CanonicalEvent::Move { dst, time, .. } => Some(CanonicalEvent::Create { uri: dst, time }),
            CanonicalEvent::Create { .. } | CanonicalEvent::Modify { .. } => Some(event),
        }
    }
}

impl ConverterStrategy for DownToL2Strategy {
    open spec fn spec_convert(&self, e: EventView) -> Option<EventView> {
        spec_down_to_l2(e)
    }

    fn convert(&self, event: CanonicalEvent) -> (r: Option<CanonicalEvent>) {
        match event {
            CanonicalEvent::Write { uri, time, .. } => Some(CanonicalEvent::Modify { uri, time }),
            CanonicalEvent::Append { uri, time, .. } => Some(CanonicalEvent::Modify { uri, time }),
            CanonicalEvent::Open { .. } => None,
            CanonicalEvent::Create { .. }
            | CanonicalEvent::Modify { .. }
            | CanonicalEvent::Move { .. } => Some(event),
        }
    }
}

impl ConverterStrategy for DownToL3Strategy {
    open spec fn spec_convert(&self, e: EventView) -> Option<EventView> {
        spec_down_to_l3(e)
    }

    fn convert(&self, event: CanonicalEvent) -> (r: Option<CanonicalEvent>) {
        Some(event)
    }
}

/// The strategy chosen for a processor level.
pub enum AdapterStrategy {
    L1(DownToL1Strategy),
    L2(DownToL2Strategy),
    L3(DownToL3Strategy),
}

impl AdapterStrategy {
    /// The level this strategy lowers to.
    pub open spec fn level(&self) -> u8 {
        match self {
            AdapterStrategy::L1(_) => 1,
            AdapterStrategy::L2(_) => 2,
            AdapterStrategy::L3(_) => 3,
        }
    }
}

impl ConverterStrategy for AdapterStrategy {
    open spec fn spec_convert(&self, e: EventView) -> Option<EventView> {
        match self {
            AdapterStrategy::L1(_) => spec_down_to_l1(e),
            AdapterStrategy::L2(_) => spec_down_to_l2(e),
            AdapterStrategy::L3(_) => spec_down_to_l3(e),
        }
    }

    fn convert(&self, event: CanonicalEvent) -> (r: Option<CanonicalEvent>) {
        match self {
            AdapterStrategy::L1(s) => s.convert(event),
            AdapterStrategy::L2(s) => s.convert(event),
            AdapterStrategy::L3(s) => s.convert(event),
        }
    }
}

/// The strategy for a processor of the given level (1, 2 or 3).
pub fn create_strategy(processor_level: u8) -> (r: AdapterStrategy)
    requires
        1 <= processor_level <= 3,
    ensures
        r.level() == processor_level,
{
    match processor_level {
        1 => AdapterStrategy::L1(DownToL1Strategy),
        2 => AdapterStrategy::L2(DownToL2Strategy),
        _ => AdapterStrategy::L3(DownToL3Strategy),
    }
}

/// The adapter: it lowers each event it receives and passes the result, with
/// the same process, to its observers.
pub struct EventAdapter {
    strategy: AdapterStrategy,
}

impl EventAdapter {
    /// The level the adapter lowers to.
    pub closed spec fn level(&self) -> u8 {
        self.strategy.level()
    }

    /// An adapter for a processor of the given level (1, 2 or 3).
    pub fn new(processor_level: u8) -> (r: EventAdapter)
        requires
            1 <= processor_level <= 3,
        ensures
            r.level() == processor_level,
    {
        EventAdapter { strategy: create_strategy(processor_level) }
    }

    /// What the adapter passes on for an event, if anything.
    pub open spec fn spec_update(&self, e: FileEventView) -> Option<FileEventView> {
        match self.spec_strategy_convert(e.event) {
            Some(x) => Some(FileEventView { event: x, process_info: e.process_info }),
            None => None,
        }
    }

    /// The lowering this adapter applies.
    pub closed spec fn spec_strategy_convert(&self, e: EventView) -> Option<EventView> {
        self.strategy.spec_convert(e)
    }

    /// The lowering this adapter applies is the one of its level.
    pub proof fn lemma_level_convert(&self, e: EventView)
        ensures
            self.spec_strategy_convert(e) == (if self.level() == 1 {
                spec_down_to_l1(e)
            } else if self.level() == 2 {
                spec_down_to_l2(e)
            } else {
                spec_down_to_l3(e)
            }),
    {
    }

    /// The event to pass on to the observers, if any.
    pub fn update(&self, file_event: &FileEvent) -> (r: Option<FileEvent>)
        ensures
            match r {
                Some(x) => self.spec_update(file_event@) == Some(x@),
                None => self.spec_update(file_event@) is None,
            },
    {
        let converted = self.strategy.convert(file_event.event.clone());
        match converted {
            Some(event) => {
                let process_info = match &file_event.process_info {
                    Some(p) => Some(p.clone()),
                    None => None,
                };
                Some(FileEvent { event, process_info })
            },
            None => None,
        }
    }
}

/// Lowering never yields an event above the target level.
pub proof fn law_lowering_respects_level(e: EventView)
    ensures
        spec_down_to_l1(e) matches Some(x) ==> event_level(x) <= 1,
        spec_down_to_l2(e) matches Some(x) ==> event_level(x) <= 2,
        spec_down_to_l3(e) matches Some(x) ==> event_level(x) <= 3,
{
}

/// Events already at or below the target level pass unchanged.
pub proof fn law_lowering_keeps_low_events(e: EventView)
    ensures
        event_level(e) <= 1 ==> spec_down_to_l1(e) == Some(e),
        event_level(e) <= 2 ==> spec_down_to_l2(e) == Some(e),
        spec_down_to_l3(e) == Some(e),
{
}

/// Lowering twice is lowering once.
pub proof fn law_lowering_idempotent(e: EventView)
    ensures
        spec_down_to_l1(e) matches Some(x) ==> spec_down_to_l1(x) == Some(x),
        spec_down_to_l2(e) matches Some(x) ==> spec_down_to_l2(x) == Some(x),
{
}

/// Lowering to level 2 and then to level 1 is lowering to level 1.
pub proof fn law_lowering_composes(e: EventView)
    ensures
        match spec_down_to_l2(e) {
            Some(x) => spec_down_to_l1(x) == spec_down_to_l1(e),
            None => spec_down_to_l1(e) is None,
        },
{
}

/// Lowering keeps the time an event was observed at, and drops only opens.
pub proof fn law_lowering_keeps_time(e: EventView)
    ensures
        spec_down_to_l1(e) matches Some(x) ==> event_time(x) == event_time(e),
        spec_down_to_l2(e) matches Some(x) ==> event_time(x) == event_time(e),
        spec_down_to_l1(e) is None <==> e is Open,
        spec_down_to_l2(e) is None <==> e is Open,
{
}

} // verus!
