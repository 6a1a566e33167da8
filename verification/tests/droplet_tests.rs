use glyph_rain::droplet::Droplet;

use rand::SeedableRng;

fn rng(seed: u64) -> rand::rngs::StdRng {
    rand::rngs::StdRng::seed_from_u64(seed)
}

const HEIGHT: u16 = 20;

/// Drives `d` through `n` advances, one every 100 ms starting at t=100.
fn advance_n(d: &mut Droplet, r: &mut rand::rngs::StdRng, n: u64) {
    for k in 1..=n {
        d.tick(r, k * 100, HEIGHT);
    }
}

#[test]
fn new_droplet_has_one_glyph() {
    let mut r = rng(1);
    let d = Droplet::new(0, 3, 5, 100, 0, &mut r);
    assert_eq!(d.trace.len(), 1);
    assert_eq!(d.row, 0);
    assert_eq!(d.column, 3);
    assert_eq!(d.length, 5);
    assert_eq!(d.speed, 100);
    assert_eq!(d.last_update, 0);
}

#[test]
fn scenario_growth_to_full() {
    // height=20, max_length=5, interval=100ms, starting head_row=0.
    let mut r = rng(2);
    let mut d = Droplet::new(0, 0, 5, 100, 0, &mut r);

    // After 1 advance: head_row=1, trace length=2.
    advance_n(&mut d, &mut r, 1);
    assert_eq!(d.row, 1);
    assert_eq!(d.trace.len(), 2);

    // After 4 advances: head_row=4, trace length=5 (Full).
    let mut d = Droplet::new(0, 0, 5, 100, 0, &mut r);
    advance_n(&mut d, &mut r, 4);
    assert_eq!(d.row, 4);
    assert_eq!(d.trace.len(), 5);
    assert!(d.is_full());

    // After the 5th advance: head_row=5, trace length still 5.
    d.tick(&mut r, 500, HEIGHT);
    assert_eq!(d.row, 5);
    assert_eq!(d.trace.len(), 5);
}

#[test]
fn scenario_full_droplet_slides_its_window() {
    // While Full and above the bottom edge, each advance pops the oldest
    // glyph and appends a fresh one: the rest of the window slides back.
    let mut r = rng(3);
    let mut d = Droplet::new(0, 0, 5, 100, 0, &mut r);
    advance_n(&mut d, &mut r, 4);
    let before: Vec<char> = d.trace.iter().copied().collect();
    d.tick(&mut r, 500, HEIGHT);
    let after: Vec<char> = d.trace.iter().copied().collect();
    assert_eq!(&before[1..], &after[..4]);
}

#[test]
fn scenario_stops_appending_at_bottom() {
    // Same droplet after exactly 20 advances: head_row=20=height, so the
    // 20th advance pops (the trace was Full) without appending.
    let mut r = rng(4);
    let mut d = Droplet::new(0, 0, 5, 100, 0, &mut r);
    advance_n(&mut d, &mut r, 20);
    assert_eq!(d.row, 20);
    assert!(d.is_running_out(HEIGHT));
    assert_eq!(d.trace.len(), 4);
    // Below max, no longer appending: the trace keeps its length from here.
    advance_n_from(&mut d, &mut r, 21, 22);
    assert_eq!(d.trace.len(), 4);
}

/// Advances from tick number `from` through `to`, one every 100 ms.
fn advance_n_from(d: &mut Droplet, r: &mut rand::rngs::StdRng, from: u64, to: u64) {
    for k in from..=to {
        d.tick(r, k * 100, HEIGHT);
    }
}

#[test]
fn scenario_off_screen_after_full_scroll_out() {
    // After 25 advances: head_row=25=height+max_length, so the whole trail
    // is below the bottom edge.
    let mut r = rng(5);
    let mut d = Droplet::new(0, 0, 5, 100, 0, &mut r);
    advance_n(&mut d, &mut r, 25);
    assert_eq!(d.row, 25);
    assert!(d.is_invisible(HEIGHT));

    // One advance earlier it was still (just) on screen.
    let mut d = Droplet::new(0, 0, 5, 100, 0, &mut r);
    advance_n(&mut d, &mut r, 24);
    assert_eq!(d.row, 24);
    assert!(!d.is_invisible(HEIGHT));
}

#[test]
fn early_tick_is_a_no_op() {
    let mut r = rng(6);
    let mut d = Droplet::new(0, 0, 5, 100, 0, &mut r);
    d.tick(&mut r, 100, HEIGHT);
    let row = d.row;
    let len = d.trace.len();
    let last = d.last_update;
    let glyphs: Vec<char> = d.trace.iter().copied().collect();
    // 99 ms after the last advance: nothing may change.
    d.tick(&mut r, 199, HEIGHT);
    assert_eq!(d.row, row);
    assert_eq!(d.trace.len(), len);
    assert_eq!(d.last_update, last);
    let glyphs_after: Vec<char> = d.trace.iter().copied().collect();
    assert_eq!(glyphs, glyphs_after);
    // At exactly 100 ms it advances again.
    d.tick(&mut r, 200, HEIGHT);
    assert_eq!(d.row, row + 1);
}

#[test]
fn head_row_never_decreases() {
    let mut r = rng(7);
    let mut d = Droplet::new(0, 0, 3, 50, 0, &mut r);
    let mut prev = d.row;
    for k in 1..200u64 {
        d.tick(&mut r, k * 37, HEIGHT);
        assert!(d.row >= prev);
        prev = d.row;
    }
}

#[test]
fn zero_interval_advances_every_tick() {
    let mut r = rng(8);
    let mut d = Droplet::new(0, 0, 4, 0, 0, &mut r);
    d.tick(&mut r, 0, HEIGHT);
    d.tick(&mut r, 0, HEIGHT);
    assert_eq!(d.row, 2);
}

#[test]
fn trace_length_stays_within_bounds() {
    let mut r = rng(9);
    let mut d = Droplet::new(0, 0, 6, 100, 0, &mut r);
    for k in 1..=40u64 {
        d.tick(&mut r, k * 100, HEIGHT);
        assert!(d.trace.len() <= 6);
        if k < 26 {
            // Until the whole trail has scrolled out, at least one glyph
            // remains (the bound is above one, so draining keeps some).
            assert!(d.trace.len() >= 1);
        }
    }
}

#[test]
fn new_droplet_glyph_is_in_alphabet() {
    let mut r = rng(12);
    for _ in 0..20 {
        let d = Droplet::new(0, 0, 5, 100, 0, &mut r);
        let v = d.trace[0] as u32;
        assert!((65382..65437).contains(&v));
    }
}

#[test]
fn draw_letter_stays_in_alphabet() {
    let mut r = rng(10);
    for _ in 0..100 {
        let c = Droplet::draw_letter(&mut r);
        let v = c as u32;
        assert!((65382..65437).contains(&v));
    }
}
