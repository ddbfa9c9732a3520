use vstd::prelude::*;
use vstd::arithmetic::div_mod::lemma_fundamental_div_mod_converse;
use crate::animation::Animation;
use crate::frame::Frame;
use crate::glyph::{glyph_for, spec_glyph, spec_luminance};
use crate::render::{render, spec_render, Cell};

verus! {

/// Character columns a frame is scaled down to.
pub const DEFAULT_COLUMNS: u32 = 40;

/// Character rows a frame is scaled down to; terminal cells are about twice
/// as tall as they are wide.
pub const DEFAULT_ROWS: u32 = 20;

/// What the playback loop does next.
#[derive(Debug)]
pub enum PlaybackAction {
    /// Clear the screen, draw `cells`, then wait `delay_ms` milliseconds.
    Show { frame_index: usize, cells: Vec<Cell>, delay_ms: u64 },
    /// Playback was cancelled: leave the loop.
    Stop,
}

/// Plays an animation frame by frame, wrapping round after the last frame.
pub struct AnimationPlayer {
    animation: Animation,
    frame_delay: u64,
}

impl AnimationPlayer {
    pub closed spec fn spec_animation(&self) -> Animation {
        self.animation
    }

    pub closed spec fn spec_frame_delay(&self) -> u64 {
        self.frame_delay
    }

    pub open spec fn wf(&self) -> bool {
        self.spec_animation().wf()
    }

    /// A player of `animation` that waits `frame_delay` milliseconds after
    /// each frame.
    pub fn new(animation: Animation, frame_delay: u64) -> (p: AnimationPlayer)
        requires
            animation.wf(),
        ensures
            p.wf(),
            p.spec_animation() == animation,
            p.spec_frame_delay() == frame_delay,
    {
        AnimationPlayer { animation, frame_delay }
    }

    /// The animation being played.
    pub fn animation(&self) -> (r: &Animation)
        ensures
            *r == self.spec_animation(),
    {
        &self.animation
    }

    /// One turn of the playback loop at frame `position`. Unless `cancelled`,
    /// shows that frame rendered onto the default grid, waits the frame
    /// delay, and moves on to the next frame, back to the first after the
    /// last. When `cancelled`, stops and stays where it is.
    pub fn step(&self, position: usize, cancelled: bool) -> (r: (usize, PlaybackAction))
        requires
            self.wf(),
            position < self.spec_animation()@.len(),
        ensures
            cancelled ==> r.0 == position && r.1 matches PlaybackAction::Stop,
            !cancelled ==> {
                &&& r.0 == (position + 1) % (self.spec_animation()@.len() as int)
                &&& match r.1 {
                    PlaybackAction::Show { frame_index, cells, delay_ms } => {
                        &&& frame_index == position
                        &&& cells@ == spec_render(
                            self.spec_animation()@[position as int],
                            DEFAULT_COLUMNS as int,
                            DEFAULT_ROWS as int,
                        )
                        &&& delay_ms == self.spec_frame_delay()
                    },
                    PlaybackAction::Stop => false,
                }
            },
    {
        if cancelled {
            return (position, PlaybackAction::Stop);
        }
        let count = self.animation.frame_count();
        let cells = match self.animation.get_frame(position) {
            Some(frame) => self.render_frame(frame),
            None => Vec::new(),
        };
        let next: usize = if position + 1 < count {
            proof {
                lemma_fundamental_div_mod_converse(position + 1, count as int, 0, position + 1);
            }
            position + 1
        } else {
            proof {
                lemma_fundamental_div_mod_converse(position + 1, count as int, 1, 0);
            }
            0
        };
        (next, PlaybackAction::Show { frame_index: position, cells, delay_ms: self.frame_delay })
    }

    /// The cells that draw `frame` on the default 40 by 20 grid.
    pub fn render_frame(&self, frame: &Frame) -> (cells: Vec<Cell>)
        requires
            frame.wf(),
        ensures
            cells@ == spec_render(*frame, DEFAULT_COLUMNS as int, DEFAULT_ROWS as int),
    {
        render(frame, DEFAULT_COLUMNS, DEFAULT_ROWS)
    }

    /// The glyph that shows the colour `(r, g, b)`.
    pub fn color_to_char(&self, r: u8, g: u8, b: u8) -> (c: char)
        ensures
            c == spec_glyph(spec_luminance(r, g, b)),
    {
        glyph_for(r, g, b)
    }
}

} // verus!
