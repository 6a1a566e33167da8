//! The frame loop's verified core. The engine owns the frame buffer and the
//! ordered collection of live droplets and drives one frame at a time: it
//! optionally spawns a droplet, composites every live droplet into the
//! buffer, advances each one, and evicts those that have scrolled fully off
//! screen, preserving the spawn order of the rest. The platform layer polls
//! the keyboard, supplies the clock and the lead-in row, and flushes the
//! buffer to the display between frames.

use vstd::prelude::*;

use crate::color::blank_cell;
use crate::color::Cell;
use crate::droplet::glyph_in_alphabet;
use crate::droplet::tick_rel;
use crate::droplet::Droplet;
use crate::sampling;
use crate::screen::Screen;

verus! {

/// Densities are given in thousandths: a droplet spawns on a frame with
/// probability `density / DENSITY_SCALE`.
pub const DENSITY_SCALE: u16 = 1000;

/// The configuration the frame loop consumes. All speeds are milliseconds.
#[derive(Clone, Copy, Debug, PartialEq, Eq, Structural)]
pub struct Config {
    /// Spawn probability per frame, in thousandths, at most `DENSITY_SCALE`.
    pub density: u16,
    /// Smallest advance interval a droplet can be spawned with.
    pub min_speed: u64,
    /// Strict upper bound on the advance interval.
    pub max_speed: u64,
    /// Largest trailing history a droplet can be spawned with.
    pub max_trace_length: u16,
    /// Whether the loop ends once no droplet is live, or treats an empty
    /// collection as a transient state and keeps spawning.
    pub exit_when_empty: bool,
}

/// Why a configuration was rejected at startup.
#[derive(Clone, Copy, Debug, PartialEq, Eq, Structural)]
pub enum ConfigError {
    /// The density exceeds `DENSITY_SCALE`.
    DensityOutOfRange,
    /// The speed interval `[min_speed, max_speed)` is empty.
    SpeedRangeEmpty,
    /// The trace length bound is zero, or too large to sample below.
    LengthBoundInvalid,
}

impl Config {
    /// A configuration the frame loop can run with.
    pub open spec fn valid(self) -> bool {
        &&& self.density <= DENSITY_SCALE
        &&& self.min_speed < self.max_speed
        &&& 1 <= self.max_trace_length < u16::MAX
    }

    /// Checks the configuration before the frame loop starts; an invalid
    /// one is rejected here and never mid-animation.
    pub fn validate(&self) -> (r: Result<(), ConfigError>)
        ensures
            r is Ok <==> self.valid(),
            r == Result::<(), ConfigError>::Err(ConfigError::DensityOutOfRange) <==> self.density
                > DENSITY_SCALE,
            r == Result::<(), ConfigError>::Err(ConfigError::SpeedRangeEmpty) <==> (self.density
                <= DENSITY_SCALE && self.min_speed >= self.max_speed),
            r == Result::<(), ConfigError>::Err(ConfigError::LengthBoundInvalid) <==> (self.density
                <= DENSITY_SCALE && self.min_speed < self.max_speed && !(1 <= self.max_trace_length
                < u16::MAX)),
    {
        if self.density > DENSITY_SCALE {
            Err(ConfigError::DensityOutOfRange)
        } else if self.min_speed >= self.max_speed {
            Err(ConfigError::SpeedRangeEmpty)
        } else if self.max_trace_length < 1 || self.max_trace_length == u16::MAX {
            Err(ConfigError::LengthBoundInvalid)
        } else {
            Ok(())
        }
    }
}

/// The live droplets that have not yet scrolled fully off a grid of the
/// given height, in their original spawn order.
pub open spec fn visible_droplets(droplets: Seq<Droplet>, height: u16) -> Seq<Droplet> {
    droplets.filter(|d: Droplet| !d.off_screen(height))
}

/// Eviction invents nothing: every droplet of the filtered sequence is one
/// of the original droplets. Together with a frame's step contract this
/// pins the origin of every surviving droplet — with density zero, for
/// example, no droplet a frame keeps can be anything but a previous one.
pub proof fn lemma_visible_subset(s: Seq<Droplet>, height: u16)
    ensures
        forall|j: int|
            0 <= j < visible_droplets(s, height).len() ==> s.contains(
                #[trigger] visible_droplets(s, height)[j],
            ),
    decreases s.len(),
{
    reveal_with_fuel(Seq::filter, 2);
    if s.len() > 0 {
        lemma_visible_subset(s.drop_last(), height);
        let prefix = visible_droplets(s.drop_last(), height);
        assert forall|j: int|
            0 <= j < visible_droplets(s, height).len() implies s.contains(
            visible_droplets(s, height)[j],
        ) by {
            if j < prefix.len() {
                let x = prefix[j];
                assert(s.drop_last().contains(x));
                let i = choose|i: int| 0 <= i < s.drop_last().len() && s.drop_last()[i] == x;
                assert(s[i] == x);
            } else {
                assert(visible_droplets(s, height)[j] == s.last());
            }
        }
    }
}

/// Filtering the first `i + 1` droplets keeps the first `i` droplets'
/// filtering and appends the `i`-th exactly when it is still visible.
proof fn lemma_visible_take_step(s: Seq<Droplet>, height: u16, i: int)
    requires
        0 <= i < s.len(),
    ensures
        !s[i].off_screen(height) ==> visible_droplets(s.take(i + 1), height) == visible_droplets(
            s.take(i),
            height,
        ).push(s[i]),
        s[i].off_screen(height) ==> visible_droplets(s.take(i + 1), height) == visible_droplets(
            s.take(i),
            height,
        ),
{
    reveal_with_fuel(Seq::filter, 2);
    assert(s.take(i + 1).drop_last() =~= s.take(i));
    assert(s.take(i + 1).last() == s[i]);
}

/// Every tick outcome, droplet by droplet: the sequences have equal length
/// and each element of `ticked` follows from its `rendered` counterpart by
/// one `tick` call at `now` on a grid of the given height.
pub open spec fn ticked_from(rendered: Seq<Droplet>, ticked: Seq<Droplet>, now: u64, height: u16) -> bool {
    &&& ticked.len() == rendered.len()
    &&& forall|j: int|
        0 <= j < rendered.len() ==> tick_rel(rendered[j], #[trigger] ticked[j], now, height)
}

/// The cell at `(r, c)` after a blank frame is composited by every droplet
/// of the sequence in spawn order: each droplet overwrites the cells it
/// covers, so the last spawned droplet covering the cell wins.
pub open spec fn composite_cell(droplets: Seq<Droplet>, r: int, c: int) -> Cell
    decreases droplets.len(),
{
    if droplets.len() == 0 {
        blank_cell()
    } else if droplets.last().covers(r, c) {
        droplets.last().rendered_at(r)
    } else {
        composite_cell(droplets.drop_last(), r, c)
    }
}

/// Compositing one more droplet either paints the cell or leaves the
/// composite of the earlier droplets in place.
proof fn lemma_composite_take_step(s: Seq<Droplet>, i: int, r: int, c: int)
    requires
        0 <= i < s.len(),
    ensures
        composite_cell(s.take(i + 1), r, c) == (if s[i].covers(r, c) {
            s[i].rendered_at(r)
        } else {
            composite_cell(s.take(i), r, c)
        }),
{
    assert(s.take(i + 1).drop_last() =~= s.take(i));
    assert(s.take(i + 1).last() == s[i]);
}

/// What one non-quit frame does, with `rendered` and `ticked` naming the
/// random outcomes: `rendered` is the droplet sequence the frame painted
/// (the live droplets, plus at most one fresh spawn at the back), `ticked`
/// the same droplets after each advanced once. With nothing to render the
/// frame changes nothing and continues unless configured to exit when
/// empty; otherwise the buffer holds exactly the blank-then-composite of
/// `rendered` in spawn order, the surviving droplets are exactly the
/// still-visible ones of `ticked` in spawn order, and the loop goes on.
pub open spec fn frame_step(
    pre: Engine,
    post: Engine,
    rendered: Seq<Droplet>,
    ticked: Seq<Droplet>,
    now: u64,
    lead_in: u16,
    cont: bool,
) -> bool {
    &&& pre.frame_rendered(rendered, now, lead_in)
    &&& if rendered.len() == 0 {
        post == pre && cont == !pre.config.exit_when_empty
    } else {
        &&& ticked_from(rendered, ticked, now, pre.height)
        &&& post.droplets@ == visible_droplets(ticked, pre.height)
        &&& forall|r: int, c: int|
            0 <= r < pre.height && 0 <= c < pre.width ==> post.screen.cell(r, c)
                == composite_cell(rendered, r, c)
        &&& cont
    }
}

pub struct Engine {
    pub config: Config,
    pub width: u16,
    pub height: u16,
    pub screen: Screen,
    pub droplets: Vec<Droplet>,
}

impl Engine {
    /// A droplet the grid can hold: well formed, falling down one of the
    /// grid's columns.
    pub open spec fn droplet_fits(self, d: Droplet) -> bool {
        &&& d.wf()
        &&& (d.column as int) < self.width as int
    }

    /// A droplet the engine keeps live: it fits the grid and has not yet
    /// scrolled fully off screen.
    pub open spec fn droplet_ok(self, d: Droplet) -> bool {
        &&& self.droplet_fits(d)
        &&& !d.off_screen(self.height)
    }

    /// Between frames: the configuration is valid, the buffer matches the
    /// grid, and every live droplet fits and is still on screen.
    pub open spec fn wf(self) -> bool {
        &&& self.config.valid()
        &&& 1 <= self.width
        &&& self.screen.wf()
        &&& self.screen.width as int == self.width as int
        &&& self.screen.height as int == self.height as int
        &&& forall|i: int|
            0 <= i < self.droplets@.len() ==> self.droplet_ok(#[trigger] self.droplets@[i])
    }

    /// A droplet as the spawn step of a frame at time `now` creates it:
    /// one fresh alphabet glyph, the head on the supplied lead-in row, the
    /// column within the grid, and the trace bound and speed drawn from the
    /// configured ranges.
    pub open spec fn spawned_droplet(self, d: Droplet, now: u64, lead_in: u16) -> bool {
        &&& d.row == lead_in as u32
        &&& (d.column as int) < self.width as int
        &&& 1 <= d.length <= self.config.max_trace_length
        &&& self.config.min_speed <= d.speed < self.config.max_speed
        &&& d.last_update == now
        &&& d.trace@.len() == 1
        &&& glyph_in_alphabet(d.trace@[0])
        &&& d.wf()
    }

    /// The droplet sequence a frame renders: the live droplets, plus at
    /// most one freshly spawned droplet at the back — and none at all when
    /// the configured density is zero.
    pub open spec fn frame_rendered(self, rendered: Seq<Droplet>, now: u64, lead_in: u16) -> bool {
        &&& (rendered == self.droplets@ || exists|d: Droplet|
            #[trigger] self.spawned_droplet(d, now, lead_in) && rendered == self.droplets@.push(
                d,
            ))
        &&& (self.config.density == 0 ==> rendered == self.droplets@)
    }

    /// Builds an engine with a blank buffer and no live droplets.
    pub fn new(width: u16, height: u16, config: Config) -> (r: Engine)
        requires
            config.valid(),
            1 <= width,
        ensures
            r.wf(),
            r.width == width,
            r.height == height,
            r.config == config,
            r.droplets@.len() == 0,
            r.screen.all_blank(),
    {
        proof {
            assert((width as int) * (height as int) <= 0xffff * 0xffff) by (nonlinear_arith)
                requires
                    0 <= width <= 0xffff,
                    0 <= height <= 0xffff,
            ;
        }
        let screen = Screen::new(width as usize, height as usize);
        Engine { config, width, height, screen, droplets: Vec::new() }
    }

    /// Appends a droplet to the live collection; spawn order is insertion
    /// order.
    pub fn add_droplet(&mut self, d: Droplet)
        requires
            old(self).wf(),
            d.wf(),
            (d.column as int) < old(self).width as int,
            !d.off_screen(old(self).height),
        ensures
            final(self).wf(),
            final(self).droplets@ == old(self).droplets@.push(d),
            final(self).width == old(self).width,
            final(self).height == old(self).height,
            final(self).config == old(self).config,
            final(self).screen == old(self).screen,
    {
        self.droplets.push(d);
    }

    /// Drops every droplet whose whole trailing history has scrolled past
    /// the bottom edge. Removal preserves the relative spawn order of the
    /// droplets that stay: the survivors are exactly the original sequence
    /// filtered by visibility.
    pub fn remove_off_screen(&mut self)
        requires
            forall|i: int|
                0 <= i < old(self).droplets@.len() ==> old(self).droplet_fits(
                    #[trigger] old(self).droplets@[i],
                ),
        ensures
            final(self).width == old(self).width,
            final(self).height == old(self).height,
            final(self).config == old(self).config,
            final(self).screen == old(self).screen,
            final(self).droplets@ == visible_droplets(old(self).droplets@, old(self).height),
            forall|i: int|
                0 <= i < final(self).droplets@.len() ==> final(self).droplet_ok(
                    #[trigger] final(self).droplets@[i],
                ),
            final(self).droplets@.len() <= old(self).droplets@.len(),
    {
        let ghost orig = self.droplets@;
        let n: usize = self.droplets.len();
        assert(orig.len() == n);
        let mut kept: Vec<Droplet> = Vec::new();
        let mut i: usize = 0;
        while self.droplets.len() > 0
            invariant
                orig.len() == n,
                self.width == old(self).width,
                self.height == old(self).height,
                self.config == old(self).config,
                self.screen == old(self).screen,
                i + self.droplets@.len() == orig.len(),
                self.droplets@ == orig.subrange(i as int, orig.len() as int),
                kept@ == visible_droplets(orig.take(i as int), self.height),
                kept@.len() <= i,
                forall|j: int| 0 <= j < orig.len() ==> old(self).droplet_fits(#[trigger] orig[j]),
                forall|j: int|
                    0 <= j < kept@.len() ==> old(self).droplet_fits(#[trigger] kept@[j])
                        && !kept@[j].off_screen(old(self).height),
            decreases self.droplets@.len(),
        {
            let d = self.droplets.remove(0);
            proof {
                assert(d == orig[i as int]);
                assert(orig.subrange(i as int, orig.len() as int).remove(0) =~= orig.subrange(
                    i as int + 1,
                    orig.len() as int,
                ));
                lemma_visible_take_step(orig, self.height, i as int);
            }
            if !d.is_invisible(self.height) {
                kept.push(d);
            }
            i = i + 1;
        }
        proof {
            assert(orig.take(orig.len() as int) =~= orig);
        }
        self.droplets = kept;
    }

    /// Runs one frame. If a quit was observed, nothing happens and the loop
    /// stops. Otherwise a droplet is spawned with probability
    /// `density / DENSITY_SCALE`, its column, trace bound and speed drawn
    /// from the configured ranges and its starting row supplied as
    /// `lead_in`; then, unless no droplet is live, every droplet paints
    /// itself into the freshly cleared buffer and advances once in spawn
    /// order, and the fully scrolled-out ones are evicted. The loop goes on
    /// unless quitting, or unless the collection is empty and the engine is
    /// configured to exit when empty.
    pub fn frame(&mut self, rng: &mut rand::rngs::StdRng, now: u64, quit: bool, lead_in: u16) -> (cont:
        bool)
        requires
            old(self).wf(),
        ensures
            final(self).wf(),
            final(self).width == old(self).width,
            final(self).height == old(self).height,
            final(self).config == old(self).config,
            quit ==> !cont && *final(self) == *old(self),
            !quit && !old(self).config.exit_when_empty ==> cont,
            !quit ==> final(self).droplets@.len() <= old(self).droplets@.len() + 1,
            old(self).config.density == 0 ==> final(self).droplets@.len() <= old(
                self,
            ).droplets@.len(),
            !quit && old(self).config.density == 0 && old(self).droplets@.len() == 0 ==> cont
                == !old(self).config.exit_when_empty && final(self).droplets@.len() == 0,
            !quit ==> exists|rendered: Seq<Droplet>, ticked: Seq<Droplet>|
                #[trigger] frame_step(
                    *old(self),
                    *final(self),
                    rendered,
                    ticked,
                    now,
                    lead_in,
                    cont,
                ),
    {
        if quit {
            return false;
        }
        let roll = sampling::sample_range_u16(rng, 0, DENSITY_SCALE);
        if roll < self.config.density {
            let column = sampling::sample_range_u16(rng, 0, self.width);
            let length = sampling::sample_range_u16(rng, 1, self.config.max_trace_length + 1);
            let speed = sampling::sample_range_u64(
                rng,
                self.config.min_speed,
                self.config.max_speed,
            );
            let d = Droplet::new(lead_in as u32, column, length, speed, now, rng);
            proof {
                assert(old(self).spawned_droplet(d, now, lead_in));
            }
            self.droplets.push(d);
        }
        proof {
            assert(old(self).frame_rendered(self.droplets@, now, lead_in));
        }
        if self.droplets.len() == 0 {
            proof {
                assert(frame_step(
                    *old(self),
                    *self,
                    self.droplets@,
                    Seq::<Droplet>::empty(),
                    now,
                    lead_in,
                    !self.config.exit_when_empty,
                ));
            }
            return !self.config.exit_when_empty;
        }
        self.screen.clear();
        let ghost spawned = self.droplets@;
        let mut processed: Vec<Droplet> = Vec::new();
        while self.droplets.len() > 0
            invariant
                self.width == old(self).width,
                self.height == old(self).height,
                self.config == old(self).config,
                self.config.valid(),
                1 <= self.width,
                self.screen.wf(),
                self.screen.width as int == self.width as int,
                self.screen.height as int == self.height as int,
                processed@.len() + self.droplets@.len() == spawned.len(),
                spawned.len() <= old(self).droplets@.len() + 1,
                self.droplets@ == spawned.subrange(processed@.len() as int, spawned.len() as int),
                old(self).frame_rendered(spawned, now, lead_in),
                forall|j: int|
                    0 <= j < self.droplets@.len() ==> self.droplet_fits(
                        #[trigger] self.droplets@[j],
                    ) && self.droplets@[j].row <= 0x2_0000,
                forall|j: int|
                    0 <= j < processed@.len() ==> self.droplet_fits(#[trigger] processed@[j]),
                forall|j: int|
                    0 <= j < processed@.len() ==> tick_rel(
                        spawned[j],
                        #[trigger] processed@[j],
                        now,
                        self.height,
                    ),
                forall|r: int, c: int|
                    0 <= r < self.height && 0 <= c < self.width ==> self.screen.cell(r, c)
                        == composite_cell(spawned.take(processed@.len() as int), r, c),
            decreases self.droplets@.len(),
        {
            let ghost i = processed@.len() as int;
            let mut d = self.droplets.remove(0);
            proof {
                assert(spawned.subrange(i, spawned.len() as int).remove(0) =~= spawned.subrange(
                    i + 1,
                    spawned.len() as int,
                ));
                assert(d == spawned[i]);
            }
            d.write(&mut self.screen);
            proof {
                assert forall|r: int, c: int|
                    0 <= r < self.height && 0 <= c < self.width implies self.screen.cell(r, c)
                    == composite_cell(spawned.take(i + 1), r, c) by {
                    lemma_composite_take_step(spawned, i, r, c);
                }
            }
            let ghost d_pre = d;
            d.tick(rng, now, self.height);
            proof {
                assert(tick_rel(d_pre, d, now, self.height));
            }
            processed.push(d);
        }
        proof {
            assert(spawned.take(spawned.len() as int) =~= spawned);
        }
        let ghost ticked = processed@;
        self.droplets = processed;
        self.remove_off_screen();
        proof {
            assert(frame_step(*old(self), *self, spawned, ticked, now, lead_in, true));
        }
        true
    }
}

} // verus!
