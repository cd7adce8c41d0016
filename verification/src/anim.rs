//! Looping frame animation.
//!
//! An animation can be driven in two ways. `tick_at` and `tick` advance it by
//! the time that has passed, whatever the frame rate of the caller; `next`
//! and `advance` advance it by a number of frames. Points in time and
//! lengths of time are whole microseconds on a timeline of the caller's
//! choosing; a [`Clock`] is one such timeline.

use std::time::{Duration, Instant};
use vstd::prelude::*;

verus! {

/// A point on the monotonic clock of the standard library.
#[verifier::external_type_specification]
#[verifier::external_body]
pub struct ExInstant(std::time::Instant);

/// Reads the clock by `Instant::now`. Nothing is claimed of the reading.
#[verifier::external_body]
fn instant_now() -> Instant {
    Instant::now()
}

/// The time that has passed since `origin`, by `Instant::elapsed`. Nothing is
/// claimed of the reading.
#[verifier::external_body]
fn elapsed_since(origin: &Instant) -> Duration {
    origin.elapsed()
}

/// The whole microseconds of a length of time, by `Duration::as_micros`.
/// Nothing is claimed of the number.
#[verifier::external_body]
fn whole_micros(length: &Duration) -> u128 {
    length.as_micros()
}

/// A timeline that starts when the clock is started and counts
/// microseconds.
pub struct Clock {
    origin: Instant,
}

impl Clock {
    /// A clock that starts now.
    pub fn start() -> Clock {
        Clock { origin: instant_now() }
    }

    /// The microseconds since the clock was started; the largest number
    /// that `u64` holds where more have passed.
    pub fn now(&self) -> u64 {
        let length: Duration = elapsed_since(&self.origin);
        let micros: u128 = whole_micros(&length);
        if micros > u64::MAX as u128 {
            u64::MAX
        } else {
            micros as u64
        }
    }
}

/// What an [`Animation`] holds, as mathematical values.
pub struct AnimationView<T> {
    /// The frames, in the order in which they are shown.
    pub frames: Seq<T>,
    /// The index of the current frame.
    pub index: int,
    /// How long a frame is shown.
    pub frame_length: int,
    /// The time from which on the next frame is shown.
    pub next_frame: int,
}

impl<T> AnimationView<T> {
    /// There is a frame to show, and time moves the animation forward.
    pub open spec fn wf(self) -> bool {
        &&& self.frames.len() > 0
        &&& 0 <= self.index < self.frames.len()
        &&& 0 < self.frame_length <= self.next_frame
    }

    /// The frame that is shown.
    pub open spec fn current(self) -> T {
        self.frames[self.index]
    }

    /// The animation `n` frames further on in the loop.
    pub open spec fn advanced(self, n: int) -> AnimationView<T> {
        AnimationView {
            index: (self.index + n) % (self.frames.len() as int),
            next_frame: self.next_frame + n * self.frame_length,
            ..self
        }
    }

    /// How many frames have come due at the time `time`: none before the
    /// next frame is due, then one more with every frame length.
    pub open spec fn frames_due(self, time: int) -> int {
        if time < self.next_frame {
            0
        } else {
            (time - self.next_frame) / self.frame_length + 1
        }
    }

    /// The animation at the time `time`.
    pub open spec fn at_time(self, time: int) -> AnimationView<T> {
        self.advanced(self.frames_due(time))
    }

    /// The animation started over at the time `time`.
    pub open spec fn reset_at(self, time: int) -> AnimationView<T> {
        AnimationView { index: 0, next_frame: time + self.frame_length, ..self }
    }
}

/// A looping animation over frames of any kind: rectangles on a sprite
/// sheet, whole textures, numbers.
pub struct Animation<T> {
    k: usize,
    frames: Vec<T>,
    dur: u64,
    next_frame: u64,
}

impl<T> View for Animation<T> {
    type V = AnimationView<T>;

    closed spec fn view(&self) -> AnimationView<T> {
        AnimationView {
            frames: self.frames@,
            index: self.k as int,
            frame_length: self.dur as int,
            next_frame: self.next_frame as int,
        }
    }
}

impl<T> Animation<T> {
    /// Creates an animation that shows the first of `frames` and moves on by
    /// a frame whenever a further `frame_length` has passed since `base`.
    /// There must be a frame, and the frame length must not be zero.
    pub fn new(frames: Vec<T>, frame_length: u64, base: u64) -> (animation: Animation<T>)
        requires
            frames@.len() > 0,
            frame_length > 0,
            base + frame_length <= u64::MAX,
        ensures
            animation@.wf(),
            animation@ == (AnimationView {
                frames: frames@,
                index: 0,
                frame_length: frame_length as int,
                next_frame: base + frame_length,
            }),
    {
        Animation { k: 0, frames, dur: frame_length, next_frame: base + frame_length }
    }

    /// Starts the animation over at the time `time`, on its first frame.
    /// Returns the animation, so that calls can be chained.
    pub fn reset(&mut self, time: u64) -> (animation: &mut Animation<T>)
        requires
            old(self)@.wf(),
            time + old(self)@.frame_length <= u64::MAX,
        ensures
            animation@ == old(self)@.reset_at(time as int),
            animation@.wf(),
            *final(self) == *final(animation),
    {
        self.k = 0;
        self.next_frame = time + self.dur;
        self
    }

    /// Moves the animation to the time `time` and returns the frame to show.
    /// A time before the next frame is due changes nothing. A time from
    /// which on a frame is due must leave room for one more frame length.
    pub fn tick_at(&mut self, time: u64) -> (frame: &T)
        requires
            old(self)@.wf(),
            time >= old(self)@.next_frame ==> time + old(self)@.frame_length <= u64::MAX,
        ensures
            final(self)@ == old(self)@.at_time(time as int),
            final(self)@.wf(),
            *frame == final(self)@.current(),
    {
        if time < self.next_frame {
            proof {
                assert(self@.advanced(0) == self@) by {
                    vstd::arithmetic::div_mod::lemma_small_mod(
                        self@.index as nat,
                        self@.frames.len(),
                    );
                    assert(0 * self@.frame_length == 0);
                }
            }
            return self.current();
        }
        let d: u64 = time - self.next_frame;
        let adv: u64 = d / self.dur + 1;
        proof {
            vstd::arithmetic::div_mod::lemma_fundamental_div_mod(d as int, self.dur as int);
            assert(adv * self.dur <= d + self.dur) by (nonlinear_arith)
                requires
                    d == self.dur * (d / self.dur) + d % self.dur,
                    0 <= d % self.dur,
                    adv == d / self.dur + 1,
            ;
            assert(0 <= adv * self.dur) by (nonlinear_arith)
                requires
                    0 <= adv,
                    0 <= self.dur,
            ;
        }
        let nk: u128 = (self.k as u128 + adv as u128) % (self.frames.len() as u128);
        self.k = nk as usize;
        self.next_frame = self.next_frame + adv * self.dur;
        self.current()
    }

    /// Moves the animation to the present time of `clock` and returns the
    /// frame to show. The frame is the one that `tick_at` gives for some
    /// time: for the reading of the clock, unless the reading lies so late
    /// that the time of the next frame could not be held.
    pub fn tick(&mut self, clock: &Clock) -> (frame: &T)
        requires
            old(self)@.wf(),
        ensures
            exists|time: int| final(self)@ == #[trigger] old(self)@.at_time(time),
            final(self)@.wf(),
            *frame == final(self)@.current(),
    {
        let now: u64 = clock.now();
        if now >= self.next_frame && now > u64::MAX - self.dur {
            proof {
                assert(self@.advanced(0) == self@) by {
                    vstd::arithmetic::div_mod::lemma_small_mod(
                        self@.index as nat,
                        self@.frames.len(),
                    );
                    assert(0 * self@.frame_length == 0);
                }
                assert(self@ == self@.at_time(0));
            }
            return self.current();
        }
        proof {
            assert(old(self)@.at_time(now as int) == old(self)@.at_time(now as int));
        }
        self.tick_at(now)
    }

    /// Moves on by `n` frames, whatever the time, and returns the frame to
    /// show. The time of the next frame moves on by `n` frame lengths.
    pub fn advance(&mut self, n: usize) -> (frame: &T)
        requires
            old(self)@.wf(),
            old(self)@.next_frame + n * old(self)@.frame_length <= u64::MAX,
        ensures
            final(self)@ == old(self)@.advanced(n as int),
            final(self)@.wf(),
            *frame == final(self)@.current(),
    {
        proof {
            assert(0 <= n * self.dur) by (nonlinear_arith)
                requires
                    0 <= n,
                    0 <= self.dur,
            ;
        }
        let nk: u128 = (self.k as u128 + n as u128) % (self.frames.len() as u128);
        self.k = nk as usize;
        let dt: u128 = (n as u128) * (self.dur as u128);
        self.next_frame = self.next_frame + dt as u64;
        self.current()
    }

    /// Moves on to the next frame, whatever the time.
    pub fn next(&mut self) -> (frame: &T)
        requires
            old(self)@.wf(),
            old(self)@.next_frame + old(self)@.frame_length <= u64::MAX,
        ensures
            final(self)@ == old(self)@.advanced(1),
            final(self)@.wf(),
            *frame == final(self)@.current(),
    {
        proof {
            assert(1 * self.dur == self.dur) by (nonlinear_arith);
        }
        self.advance(1)
    }

    /// The frame that is shown.
    pub fn current(&self) -> (frame: &T)
        requires
            self@.wf(),
        ensures
            *frame == self@.current(),
    {
        &self.frames[self.k]
    }

    /// The index of the frame that is shown.
    pub fn current_index(&self) -> (index: usize)
        ensures
            index == self@.index,
    {
        self.k
    }
}

/// The largest position and the largest size of a rectangle: half the
/// largest `i32`.
pub const MAX_RECT_VALUE: u32 = 0x3fff_ffff;

/// The smallest position of a rectangle: half the smallest `i32`.
pub const MIN_RECT_POSITION: i32 = -0x4000_0000;

/// A position held within the range that a rectangle can have.
pub open spec fn clamp_position(val: i32) -> i32 {
    if val > MAX_RECT_VALUE {
        MAX_RECT_VALUE as i32
    } else if val < MIN_RECT_POSITION {
        MIN_RECT_POSITION
    } else {
        val
    }
}

/// A size held within the range that a rectangle can have: no rectangle is
/// empty.
pub open spec fn clamp_size(val: u32) -> u32 {
    if val == 0 {
        1
    } else if val > MAX_RECT_VALUE {
        MAX_RECT_VALUE
    } else {
        val
    }
}

/// A rectangle on a sprite sheet or on the screen, in pixels: its top left
/// corner and its size. [`Rect::new`] holds positions and sizes within the
/// same limits as the rectangles of the `sdl2` crate, so that a rectangle
/// made here is one that a renderer can take as it is.
#[derive(Clone, Copy, PartialEq, Eq, Structural, Debug)]
pub struct Rect {
    pub x: i32,
    pub y: i32,
    pub w: u32,
    pub h: u32,
}

/// The rectangle that `Rect::new` makes of the given values.
pub open spec fn rect_of(x: i32, y: i32, width: u32, height: u32) -> Rect {
    Rect { x: clamp_position(x), y: clamp_position(y), w: clamp_size(width), h: clamp_size(height) }
}

/// Holds a position within the range that a rectangle can have.
fn held_position(val: i32) -> (held: i32)
    ensures
        held == clamp_position(val),
{
    if val > 0x3fff_ffff {
        0x3fff_ffff
    } else if val < MIN_RECT_POSITION {
        MIN_RECT_POSITION
    } else {
        val
    }
}

/// Holds a size within the range that a rectangle can have.
fn held_size(val: u32) -> (held: u32)
    ensures
        held == clamp_size(val),
{
    if val == 0 {
        1
    } else if val > MAX_RECT_VALUE {
        MAX_RECT_VALUE
    } else {
        val
    }
}

impl Rect {
    /// A rectangle with its top left corner at `x` and `y`. Positions and
    /// sizes beyond what a rectangle can have are held at the nearest value
    /// that it can have; a width or height of nothing becomes 1.
    pub fn new(x: i32, y: i32, width: u32, height: u32) -> (rect: Rect)
        ensures
            rect == rect_of(x, y, width, height),
    {
        Rect { x: held_position(x), y: held_position(y), w: held_size(width), h: held_size(height) }
    }

    /// The width of the rectangle.
    pub fn width(&self) -> (width: u32)
        ensures
            width == self.w,
    {
        self.w
    }

    /// The height of the rectangle.
    pub fn height(&self) -> (height: u32)
        ensures
            height == self.h,
    {
        self.h
    }
}

/// The first `n` tiles of the row of a sprite sheet that starts at
/// `row_top`: tiles of equal size, side by side from the left edge.
pub open spec fn sheet_row(row_top: i32, tile_width: u32, tile_height: u32, n: nat) -> Seq<Rect> {
    Seq::new(
        n,
        |i: int| rect_of((i * tile_width) as i32, row_top, tile_width, tile_height),
    )
}

impl Animation<Rect> {
    /// Creates an animation over the tiles of equal size into which a row of
    /// a sprite sheet of the width of `bounds` divides. The row must hold a
    /// whole tile, and no tile may start beyond the range of `i32`.
    pub fn from_sheet(
        bounds: &Rect,
        row_top: i32,
        tile_width: u32,
        tile_height: u32,
        frame_length: u64,
        base: u64,
    ) -> (animation: Animation<Rect>)
        requires
            tile_width > 0,
            bounds.w >= tile_width,
            (bounds.w / tile_width - 1) * tile_width <= i32::MAX,
            frame_length > 0,
            base + frame_length <= u64::MAX,
        ensures
            animation@.wf(),
            animation@ == (AnimationView {
                frames: sheet_row(row_top, tile_width, tile_height, (bounds.w / tile_width) as nat),
                index: 0,
                frame_length: frame_length as int,
                next_frame: base + frame_length,
            }),
    {
        let n: u32 = bounds.width() / tile_width;
        proof {
            vstd::arithmetic::div_mod::lemma_div_is_ordered(
                tile_width as int,
                bounds.w as int,
                tile_width as int,
            );
            vstd::arithmetic::div_mod::lemma_div_by_self(tile_width as int);
        }
        Animation::n_from_sheet(row_top, tile_width, tile_height, n, frame_length, base)
    }

    /// Creates an animation over the first `n` tiles of equal size along a
    /// row of a sprite sheet. There must be a tile, and no tile may start
    /// beyond the range of `i32`.
    pub fn n_from_sheet(
        row_top: i32,
        tile_width: u32,
        tile_height: u32,
        n: u32,
        frame_length: u64,
        base: u64,
    ) -> (animation: Animation<Rect>)
        requires
            n > 0,
            (n - 1) * tile_width <= i32::MAX,
            frame_length > 0,
            base + frame_length <= u64::MAX,
        ensures
            animation@.wf(),
            animation@ == (AnimationView {
                frames: sheet_row(row_top, tile_width, tile_height, n as nat),
                index: 0,
                frame_length: frame_length as int,
                next_frame: base + frame_length,
            }),
    {
        let mut v: Vec<Rect> = Vec::with_capacity(n as usize);
        let mut i: u32 = 0;
        while i < n
            invariant
                i <= n,
                (n - 1) * tile_width <= i32::MAX,
                v@ == sheet_row(row_top, tile_width, tile_height, i as nat),
            decreases n - i,
        {
            proof {
                assert(0 <= i * tile_width <= (n - 1) * tile_width) by (nonlinear_arith)
                    requires
                        0 <= i <= n - 1,
                        0 <= tile_width,
                ;
            }
            let left: u64 = i as u64 * tile_width as u64;
            v.push(Rect::new(left as i32, row_top, tile_width, tile_height));
            i += 1;
            proof {
                assert(v@ =~= sheet_row(row_top, tile_width, tile_height, i as nat));
            }
        }
        Animation::new(v, frame_length, base)
    }
}

} // verus!
