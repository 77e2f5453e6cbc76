//! The small per-event decisions of the remaining handlers: which events
//! each one acts on and what it does for them.  Skipping an event a
//! handler does not care about is never an error — the handler just
//! receives again.

use vstd::prelude::*;

use crate::move_transition::RemoteOp;
use crate::move_transition::text_plan_view;
use crate::move_transition::update_and_trigger_text_move_filter;
use crate::types::Event;

verus! {

/// The hotkey handler's decision: a hotkey request yields the sequence
/// to fire on the remote service; every other event is skipped.
pub fn trigger_hotkey_step(event: &Event) -> (r: Option<String>)
    ensures
        match event {
            Event::TriggerHotkeyRequest(m) => r matches Some(h) && h@ == m.hotkey@,
            _ => r is None,
        },
{
    match event {
        Event::TriggerHotkeyRequest(m) => Some(m.hotkey.clone()),
        _ => None,
    }
}

/// The text handler's decision: a text request yields the plan that
/// rewrites the named text source's `OBS_Text` filter and triggers it;
/// every other event is skipped.
pub fn transform_text_step(event: &Event) -> (r: Option<Vec<RemoteOp>>)
    ensures
        match event {
            Event::TransformOBSTextRequest(m) => r matches Some(plan) && plan.deep_view()
                == text_plan_view(m.text_source@, "OBS_Text"@, m.message@),
            _ => r is None,
        },
{
    match event {
        Event::TransformOBSTextRequest(m) => Some(
            update_and_trigger_text_move_filter(m.text_source.as_str(), "OBS_Text", &m.message),
        ),
        _ => None,
    }
}

} // verus!
