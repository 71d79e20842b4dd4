//! The playback loop's decisions, as a state machine over decoder events.
//!
//! The caller owns the decoder and the output sink. It reports each decode
//! outcome as an event; the player answers with the action to perform: drop
//! the frame, write a rendered frame and pace, or write the final reset
//! sequence and stop. Every decision, and every byte the player hands out,
//! is fixed by the contracts here — including that the last bytes are the
//! attribute reset whether the stream ended normally or a decode error cut
//! it short.

use vstd::prelude::*;

verus! {

use crate::geometry::{fit_columns, fit_rows, fallback_columns, resolve_geometry};
use crate::pacing::{PacingState, target_interval_ns};
use crate::pixels::{FrameBuffer, downsample, downsampled_cells};
use crate::render::{frame_bytes, reset_bytes, render_frame, reset_sequence};

/// Stream metadata obtained from the decoder at startup: source dimensions in
/// pixels and the frame rate rounded to whole frames per second.
#[derive(Clone, Copy, Debug, PartialEq, Eq, Structural)]
pub struct StreamInfo {
    pub width: u32,
    pub height: u32,
    pub fps: u32,
}

/// A fatal configuration fault found at startup.
#[derive(Clone, Copy, Debug, PartialEq, Eq, Structural)]
pub enum SetupError {
    /// The stream dimensions, the queried terminal size, or the grid
    /// resolved from them would give a zero-sized (or unaddressable) render
    /// grid.
    DegenerateGeometry,
    /// The stream reports a frame rate of zero.
    DegenerateRate,
}

/// One decode outcome, reported by the caller per decoder call.
pub enum PlayerEvent {
    /// The decoder produced one more frame.
    Frame(FrameBuffer),
    /// The stream ended normally.
    EndOfStream,
    /// A mid-stream decode error; playback terminates.
    DecodeFailed,
}

/// What the caller must do next.
pub enum PlayerAction {
    /// Discard the frame; decode the next one immediately.
    Skip,
    /// Write the buffer to the sink as one batched write, flush, then sleep
    /// for the rest of the pacing interval.
    Emit(Vec<u8>),
    /// Write the buffer, flush, and stop: playback is over.
    Finish(Vec<u8>),
}

/// The grid, `(columns, rows)`, that the geometry resolver gives this stream
/// on this terminal.
pub open spec fn resolved_geometry(info: StreamInfo, term: Option<(u16, u16)>) -> (int, int) {
    match term {
        Some(wh) => (
            fit_columns(wh.0 as int, wh.1 as int, info.width as int, info.height as int),
            fit_rows(wh.0 as int, wh.1 as int, info.width as int, info.height as int),
        ),
        None => (fallback_columns(info.width as int, info.height as int), 20),
    }
}

/// Holds when no usable render grid can come out of this stream and
/// terminal: a zero source dimension (the aspect ratio would be degenerate),
/// a reported zero terminal dimension, or a resolved grid that is zero-sized
/// or too large to address.
pub open spec fn geometry_degenerate(info: StreamInfo, term: Option<(u16, u16)>) -> bool {
    ||| info.width == 0
    ||| info.height == 0
    ||| (term matches Some(wh) && (wh.0 == 0 || wh.1 == 0))
    ||| resolved_geometry(info, term).0 < 1
    ||| resolved_geometry(info, term).1 < 1
    ||| resolved_geometry(info, term).1 * resolved_geometry(info, term).0 > usize::MAX
}

/// The playback pipeline's state: the immutable target geometry and the
/// pacing counters.
#[derive(Debug)]
pub struct Player {
    pub columns: usize,
    pub rows: usize,
    pub pacing: PacingState,
}

impl Player {
    /// The geometry is positive and addressable and the pacer is usable.
    pub open spec fn wf(self) -> bool {
        &&& self.pacing.wf()
        &&& self.columns >= 1
        &&& self.rows >= 1
        &&& self.rows * self.columns <= usize::MAX
    }

    /// Sets playback up: resolves the target grid from the terminal size (or
    /// the fallback) and derives the pacing interval. Fails, rather than
    /// silently producing a zero-sized grid, exactly on a zero frame rate or
    /// a degenerate geometry.
    pub fn new(info: &StreamInfo, term: Option<(u16, u16)>, skip_ratio: u32) -> (r: Result<
        Player,
        SetupError,
    >)
        requires
            skip_ratio >= 1,
        ensures
            r is Err <==> (info.fps == 0 || geometry_degenerate(*info, term)),
            match r {
                Ok(p) => {
                    &&& p.wf()
                    &&& p.columns as int == resolved_geometry(*info, term).0
                    &&& p.rows as int == resolved_geometry(*info, term).1
                    &&& p.pacing.frames_seen == 0
                    &&& p.pacing.skip_ratio == skip_ratio
                    &&& p.pacing.target_interval_ns == target_interval_ns(
                        skip_ratio as int,
                        info.fps as int,
                    )
                },
                Err(e) => {
                    &&& (e == SetupError::DegenerateRate <==> info.fps == 0)
                    &&& (e == SetupError::DegenerateGeometry <==> info.fps >= 1
                        && geometry_degenerate(*info, term))
                },
            },
    {
        if info.fps == 0 {
            return Err(SetupError::DegenerateRate);
        }
        if info.width == 0 || info.height == 0 {
            return Err(SetupError::DegenerateGeometry);
        }
        if let Some((w, h)) = term {
            if w == 0 || h == 0 {
                return Err(SetupError::DegenerateGeometry);
            }
        }
        let g = resolve_geometry(term, info.width, info.height);
        if g.columns == 0 || g.rows == 0 {
            return Err(SetupError::DegenerateGeometry);
        }
        assert((g.rows as int) * (g.columns as int) <= 0xffff_ffff_ffff_ffff
            * 0xffff_ffff_ffff_ffff) by (nonlinear_arith)
            requires
                g.rows as int <= 0xffff_ffff_ffff_ffff,
                g.columns as int <= 0xffff_ffff_ffff_ffff,
        ;
        if (g.rows as u128) * (g.columns as u128) > (usize::MAX as u128) {
            return Err(SetupError::DegenerateGeometry);
        }
        assert(g.columns <= g.rows * g.columns && g.rows <= g.rows * g.columns)
            by (nonlinear_arith)
            requires
                g.rows >= 1,
                g.columns >= 1,
        ;
        let columns: usize = g.columns as usize;
        let rows: usize = g.rows as usize;
        Ok(Player { columns, rows, pacing: PacingState::new(skip_ratio, info.fps) })
    }

    /// Advances playback by one decoder event. A frame counts toward the
    /// skip ratio and, when it is the one rendered frame of its group, comes
    /// back as the exact bytes of its rendered grid; both terminal events —
    /// normal end of stream and a mid-stream decode error — come back as the
    /// attribute-reset sequence, so the last bytes written to the sink are
    /// always the reset.
    pub fn step(&mut self, event: PlayerEvent) -> (a: PlayerAction)
        requires
            old(self).wf(),
            old(self).pacing.frames_seen < u64::MAX,
            event matches PlayerEvent::Frame(f) ==> f.well_formed(),
        ensures
            final(self).wf(),
            final(self).columns == old(self).columns,
            final(self).rows == old(self).rows,
            final(self).pacing.skip_ratio == old(self).pacing.skip_ratio,
            final(self).pacing.target_interval_ns == old(self).pacing.target_interval_ns,
            match event {
                PlayerEvent::Frame(f) => {
                    &&& final(self).pacing.frames_seen == old(self).pacing.frames_seen + 1
                    &&& if (old(self).pacing.frames_seen + 1) % (
                        old(self).pacing.skip_ratio as int
                    ) == 0 {
                        a matches PlayerAction::Emit(bytes) && bytes@ == frame_bytes(
                            old(self).columns as int,
                            old(self).rows as int,
                            downsampled_cells(f, old(self).columns as int, old(self).rows as int),
                        )
                    } else {
                        a is Skip
                    }
                },
                PlayerEvent::EndOfStream => {
                    &&& final(self).pacing.frames_seen == old(self).pacing.frames_seen
                    &&& a matches PlayerAction::Finish(bytes) && bytes@ == reset_bytes()
                },
                PlayerEvent::DecodeFailed => {
                    &&& final(self).pacing.frames_seen == old(self).pacing.frames_seen
                    &&& a matches PlayerAction::Finish(bytes) && bytes@ == reset_bytes()
                },
            },
    {
        match event {
            PlayerEvent::Frame(f) => {
                let render = self.pacing.note_frame();
                if render {
                    let grid = downsample(&f, self.columns, self.rows);
                    let bytes = render_frame(&grid);
                    PlayerAction::Emit(bytes)
                } else {
                    PlayerAction::Skip
                }
            },
            PlayerEvent::EndOfStream => PlayerAction::Finish(reset_sequence()),
            PlayerEvent::DecodeFailed => PlayerAction::Finish(reset_sequence()),
        }
    }
}

} // verus!
