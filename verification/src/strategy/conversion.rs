//! Lowering strategies that normalise every event to a file modification at
//! level 1.
//!
//! Unlike the adapter's level-1 lowering, a move becomes a modification of
//! its destination here.

use vstd::prelude::*;
use crate::event::{opt_event_view, CanonicalEvent, EventView};
use crate::text::to_owned_string;

verus! {

/// Lowering to level 1: writes and appends become modifications of the same
/// file, a move becomes a modification of its destination, an open is dropped.
pub open spec fn spec_normalize_l1(e: EventView) -> Option<EventView> {
    match e {
        EventView::Write { uri, time, .. } => Some(EventView::Modify { uri, time }),
        EventView::Append { uri, time, .. } => Some(EventView::Modify { uri, time }),
        EventView::Open { .. } => None,
        EventView::Move { dst, time, .. } => Some(EventView::Modify { uri: dst, time }),
        _ => Some(e),
    }
}

/// Lowering to level 2: writes and appends become modifications, an open is
/// dropped; moves pass.
pub open spec fn spec_normalize_l2(e: EventView) -> Option<EventView> {
    match e {
        EventView::Write { uri, time, .. } => Some(EventView::Modify { uri, time }),
        EventView::Append { uri, time, .. } => Some(EventView::Modify { uri, time }),
        EventView::Open { .. } => None,
        _ => Some(e),
    }
}

/// A lowering strategy with a description.
pub trait ConversionStrategy {
    /// What the strategy makes of an event.
    spec fn spec_convert(&self, e: EventView) -> Option<EventView>;

    /// Lowers an event; `None` drops it.
    fn convert(&self, event: CanonicalEvent) -> (r: Option<CanonicalEvent>)
        ensures
            opt_event_view(r) == self.spec_convert(event@),
    ;

    /// What the strategy does, for people.
    fn description(&self) -> String;
}

/// Level-1 lowering.
pub struct DownToL1Strategy;

/// Level-2 lowering.
pub struct DownToL2Strategy;

/// Level-3 lowering (every event passes).
pub struct DownToL3Strategy;

impl ConversionStrategy for DownToL1Strategy {
    open spec fn spec_convert(&self, e: EventView) -> Option<EventView> {
        spec_normalize_l1(e)
    }

    fn convert(&self, event: CanonicalEvent) -> (r: Option<CanonicalEvent>) {
        match event {
            CanonicalEvent::Write { uri, time, .. } => Some(CanonicalEvent::Modify { uri, time }),
            CanonicalEvent::Append { uri, time, .. } => Some(CanonicalEvent::Modify { uri, time }),
            CanonicalEvent::Open { .. } => None,
            CanonicalEvent::Move { dst, time, .. } => Some(CanonicalEvent::Modify { uri: dst, time }),
            CanonicalEvent::Create { .. } | CanonicalEvent::Modify { .. } => Some(event),
        }
    }

    fn description(&self) -> (r: String)
        ensures
            r@ == "L1処理部: L2以上のイベントをL1に正規化"@,
    {
        to_owned_string("L1処理部: L2以上のイベントをL1に正規化")
    }
}

impl ConversionStrategy for DownToL2Strategy {
    open spec fn spec_convert(&self, e: EventView) -> Option<EventView> {
        spec_normalize_l2(e)
    }

    fn convert(&self, event: CanonicalEvent) -> (r: Option<CanonicalEvent>) {
        match event {
            CanonicalEvent::Write { uri, time, .. } => Some(CanonicalEvent::Modify { uri, time }),
            CanonicalEvent::Append { uri, time, .. } => Some(CanonicalEvent::Modify { uri, time }),
            CanonicalEvent::Open { .. } => None,
            CanonicalEvent::Create { .. }
            | CanonicalEvent::Modify { .. }
            | CanonicalEvent::Move { .. } => Some(event),
        }
    }

    fn description(&self) -> (r: String)
        ensures
            r@ == "L2処理部: L3以上のイベントをL2に正規化"@,
    {
        to_owned_string("L2処理部: L3以上のイベントをL2に正規化")
    }
}

impl ConversionStrategy for DownToL3Strategy {
    open spec fn spec_convert(&self, e: EventView) -> Option<EventView> {
        Some(e)
    }

    fn convert(&self, event: CanonicalEvent) -> (r: Option<CanonicalEvent>) {
        Some(event)
    }

    fn description(&self) -> (r: String)
        ensures
            r@ == "L3処理部: すべてのイベントをそのまま処理"@,
    {
        to_owned_string("L3処理部: すべてのイベントをそのまま処理")
    }
}

/// The strategy chosen for a level.
pub enum ConversionChoice {
    L1(DownToL1Strategy),
    L2(DownToL2Strategy),
    L3(DownToL3Strategy),
}

impl ConversionChoice {
    /// The level of the chosen strategy.
    pub open spec fn level(&self) -> u8 {
        match self {
            ConversionChoice::L1(_) => 1,
            ConversionChoice::L2(_) => 2,
            ConversionChoice::L3(_) => 3,
        }
    }
}

impl ConversionStrategy for ConversionChoice {
    open spec fn spec_convert(&self, e: EventView) -> Option<EventView> {
        match self {
            ConversionChoice::L1(_) => spec_normalize_l1(e),
            ConversionChoice::L2(_) => spec_normalize_l2(e),
            ConversionChoice::L3(_) => Some(e),
        }
    }

    fn convert(&self, event: CanonicalEvent) -> (r: Option<CanonicalEvent>) {
        match self {
            ConversionChoice::L1(s) => s.convert(event),
            ConversionChoice::L2(s) => s.convert(event),
            ConversionChoice::L3(s) => s.convert(event),
        }
    }

    fn description(&self) -> (r: String)
        ensures
            r@ == (match self {
                ConversionChoice::L1(_) => "L1処理部: L2以上のイベントをL1に正規化"@,
                ConversionChoice::L2(_) => "L2処理部: L3以上のイベントをL2に正規化"@,
                ConversionChoice::L3(_) => "L3処理部: すべてのイベントをそのまま処理"@,
            }),
    {
        match self {
            ConversionChoice::L1(s) => s.description(),
            ConversionChoice::L2(s) => s.description(),
            ConversionChoice::L3(s) => s.description(),
        }
    }
}

/// The strategy for a processing level (1, 2 or 3).
pub fn create_strategy(processor_level: u8) -> (r: ConversionChoice)
    requires
        1 <= processor_level <= 3,
    ensures
        r.level() == processor_level,
{
    match processor_level {
        1 => ConversionChoice::L1(DownToL1Strategy),
        2 => ConversionChoice::L2(DownToL2Strategy),
        _ => ConversionChoice::L3(DownToL3Strategy),
    }
}

/// Level-1 normalisation yields only modifications and creations, and keeps
/// every event except opens.
pub proof fn law_normalize_l1_targets(e: EventView)
    ensures
        spec_normalize_l1(e) matches Some(x) ==> (x is Modify || x is Create),
        spec_normalize_l1(e) is None <==> e is Open,
        spec_normalize_l1(e) matches Some(x) ==> spec_normalize_l1(x) == Some(x),
{
}

} // verus!
