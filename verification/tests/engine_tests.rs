use glyph_rain::color::Cell;
use glyph_rain::droplet::Droplet;
use glyph_rain::engine::{Config, ConfigError, Engine, DENSITY_SCALE};

use rand::SeedableRng;

fn rng(seed: u64) -> rand::rngs::StdRng {
    rand::rngs::StdRng::seed_from_u64(seed)
}

fn config(density: u16, exit_when_empty: bool) -> Config {
    Config { density, min_speed: 50, max_speed: 1000, max_trace_length: 10, exit_when_empty }
}

#[test]
fn validate_accepts_defaults() {
    assert_eq!(config(700, false).validate(), Ok(()));
}

#[test]
fn validate_rejects_density_above_scale() {
    let mut c = config(DENSITY_SCALE + 1, false);
    assert_eq!(c.validate(), Err(ConfigError::DensityOutOfRange));
    c.density = DENSITY_SCALE;
    assert_eq!(c.validate(), Ok(()));
}

#[test]
fn validate_rejects_empty_speed_range() {
    let mut c = config(700, false);
    c.min_speed = 1000;
    assert_eq!(c.validate(), Err(ConfigError::SpeedRangeEmpty));
    c.min_speed = 1001;
    assert_eq!(c.validate(), Err(ConfigError::SpeedRangeEmpty));
}

#[test]
fn validate_rejects_zero_length_bound() {
    let mut c = config(700, false);
    c.max_trace_length = 0;
    assert_eq!(c.validate(), Err(ConfigError::LengthBoundInvalid));
}

#[test]
fn zero_density_never_spawns() {
    let mut r = rng(20);
    let mut e = Engine::new(10, 10, config(0, false));
    for k in 0..50u64 {
        let cont = e.frame(&mut r, k * 20, false, 0);
        assert!(cont);
        assert_eq!(e.droplets.len(), 0);
    }
}

#[test]
fn zero_density_empty_engine_exits_on_first_frame() {
    let mut r = rng(21);
    let mut e = Engine::new(10, 10, config(0, true));
    let cont = e.frame(&mut r, 0, false, 0);
    assert!(!cont);
    assert_eq!(e.droplets.len(), 0);
}

#[test]
fn full_density_spawns_every_frame() {
    let mut r = rng(22);
    let mut e = Engine::new(40, 1000, config(DENSITY_SCALE, false));
    for k in 0..10u64 {
        e.frame(&mut r, k, false, 0);
        assert_eq!(e.droplets.len(), k as usize + 1);
    }
    for d in &e.droplets {
        assert!(d.column < 40);
        assert!((1..=10).contains(&d.length));
        assert!((50..1000).contains(&d.speed));
    }
}

#[test]
fn quit_stops_the_loop_and_changes_nothing() {
    let mut r = rng(23);
    let mut e = Engine::new(10, 10, config(DENSITY_SCALE, false));
    e.frame(&mut r, 0, false, 0);
    let count = e.droplets.len();
    let cont = e.frame(&mut r, 1, true, 0);
    assert!(!cont);
    assert_eq!(e.droplets.len(), count);
}

#[test]
fn eviction_preserves_relative_order() {
    // Three droplets in spawn order; the middle one scrolls out first.
    // After its eviction the remaining order is first, third.
    let mut r = rng(24);
    let height = 10u16;
    let mut e = Engine::new(10, height, config(0, false));
    let a = Droplet::new(0, 1, 3, 0, 0, &mut r);
    let b = Droplet::new(11, 2, 2, 0, 0, &mut r);  // one advance from off screen
    let c = Droplet::new(0, 3, 3, 0, 0, &mut r);
    e.add_droplet(a);
    e.add_droplet(b);
    e.add_droplet(c);
    let cont = e.frame(&mut r, 1, false, 0);
    assert!(cont);
    let columns: Vec<u16> = e.droplets.iter().map(|d| d.column).collect();
    assert_eq!(columns, vec![1, 3]);
}

#[test]
fn engine_evicts_exactly_when_trail_has_scrolled_out() {
    // height=10, length=5: a droplet advancing past row 15 disappears.
    let mut r = rng(25);
    let height = 10u16;
    let mut e = Engine::new(4, height, config(0, false));
    let d = Droplet::new(0, 0, 5, 0, 0, &mut r);
    e.add_droplet(d);
    for k in 1..=14u64 {
        e.frame(&mut r, k, false, 0);
        assert_eq!(e.droplets.len(), 1, "still visible after advance {}", k);
        assert_eq!(e.droplets[0].row, k as u32);
    }
    // The 15th advance makes head_row = height + max_length: evicted.
    e.frame(&mut r, 15, false, 0);
    assert_eq!(e.droplets.len(), 0);
}

#[test]
fn exit_when_empty_engine_stops_after_last_droplet() {
    let mut r = rng(26);
    let mut e = Engine::new(4, 2, config(0, true));
    let d = Droplet::new(0, 0, 1, 0, 0, &mut r);
    e.add_droplet(d);
    let mut frames = 0u32;
    let mut now = 0u64;
    loop {
        now += 1;
        let cont = e.frame(&mut r, now, false, 0);
        if !cont {
            break;
        }
        frames += 1;
        assert!(frames < 100, "loop did not wind down");
    }
    assert_eq!(e.droplets.len(), 0);
}

#[test]
fn frame_renders_droplets_into_the_buffer() {
    let mut r = rng(27);
    let mut e = Engine::new(5, 10, config(0, false));
    let d = Droplet::new(0, 2, 4, 1000, 0, &mut r);
    e.add_droplet(d);
    // The first frame paints the head at its pre-advance row 0.
    e.frame(&mut r, 1, false, 0);
    let head = e.screen.cell_at(0, 2);
    assert_eq!((head.red, head.green, head.blue), (200, 255, 200));
    let blank = Cell { glyph: ' ', red: 0, green: 0, blue: 0 };
    for row in 1..10 {
        assert_eq!(e.screen.cell_at(row, 2), blank);
    }
}

#[test]
fn overlapping_droplets_composite_last_spawned_on_top() {
    // Two droplets share a column and a head row; the frame paints them in
    // spawn order, so the later spawn's glyph wins the shared cell.
    let mut r = rng(30);
    let mut e = Engine::new(5, 10, config(0, false));
    let a = Droplet::new(0, 2, 4, 1000, 0, &mut r);
    let b = Droplet::new(0, 2, 4, 1000, 0, &mut r);
    let later_glyph = b.trace[0];
    e.add_droplet(a);
    e.add_droplet(b);
    e.frame(&mut r, 1, false, 0);
    assert_eq!(e.screen.cell_at(0, 2).glyph, later_glyph);
}

#[test]
fn empty_frame_leaves_buffer_untouched() {
    // With no droplet live the frame skips straight to the next poll and
    // neither clears nor redraws the buffer.
    let mut r = rng(29);
    let mut e = Engine::new(3, 3, config(0, false));
    let mark = Cell { glyph: 'm', red: 1, green: 1, blue: 1 };
    e.screen.write_at_pos(mark, 1, 1);
    let cont = e.frame(&mut r, 0, false, 0);
    assert!(cont);
    assert_eq!(e.screen.cell_at(1, 1), mark);
}

#[test]
fn lead_in_sets_the_spawn_row() {
    let mut r = rng(28);
    let mut e = Engine::new(10, 1000, config(DENSITY_SCALE, false));
    e.frame(&mut r, 0, false, 7);
    assert_eq!(e.droplets.len(), 1);
    // The fresh droplet's advance is not yet due during its spawn frame.
    assert_eq!(e.droplets[0].row, 7);
}
