//! Per-frame timing breakdown of the frame pipeline.

use vstd::prelude::*;

verus! {

/// The time a frame took, in whole milliseconds, overall and per phase.
#[derive(Clone, Copy, Debug, PartialEq, Eq, Structural)]
pub struct FrameTimings {
    pub overall_ms: u128,
    pub command_ms: u128,
    pub render_ms: u128,
    pub convert_ms: u128,
    pub present_ms: u128,
}

/// The larger of two marks.
pub open spec fn later_of(a: u128, b: u128) -> u128 {
    if a >= b {
        a
    } else {
        b
    }
}

fn later(a: u128, b: u128) -> (r: u128)
    ensures
        r == later_of(a, b),
{
    if a >= b {
        a
    } else {
        b
    }
}

impl FrameTimings {
    /// Builds the breakdown from the milliseconds elapsed since the frame
    /// started, read at the end of each phase: after the commands were
    /// recorded, after rasterization, after conversion and after
    /// presentation. A mark read earlier than the one before it counts as
    /// that one, so no phase is negative and the phases always add up to the
    /// overall time; for marks read in order each phase is the difference
    /// between its mark and the one before.
    pub fn from_marks(command: u128, render: u128, convert: u128, present: u128) -> (r: Self)
        ensures
            r.command_ms == command,
            r.overall_ms == later_of(later_of(later_of(render, command), convert), present),
            r.command_ms + r.render_ms + r.convert_ms + r.present_ms == r.overall_ms,
            command <= render <= convert <= present ==> {
                &&& r.overall_ms == present
                &&& r.render_ms == render - command
                &&& r.convert_ms == convert - render
                &&& r.present_ms == present - convert
            },
    {
        let rendered = later(render, command);
        let converted = later(convert, rendered);
        let presented = later(present, converted);
        FrameTimings {
            overall_ms: presented,
            command_ms: command,
            render_ms: rendered - command,
            convert_ms: converted - rendered,
            present_ms: presented - converted,
        }
    }
}

} // verus!
