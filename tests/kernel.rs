use fractal::kernel::{color_of_count, escape_step, pixel_coord};

fn run_escape(budget: u32, inside: &[bool]) -> u32 {
    let mut remaining = budget;
    let mut k: usize = 0;
    while let Some(next) = escape_step(remaining, k < inside.len() && inside[k]) {
        remaining = next;
        k += 1;
    }
    remaining
}

#[test]
fn full_ratio_is_opaque_white() {
    assert_eq!(color_of_count(1, 1), 0xFFFF_FFFF);
    assert_eq!(color_of_count(110, 110), 0xFFFF_FFFF);
}

#[test]
fn half_ratio_rounds_each_channel() {
    // red round(127.5) = 128, green round(63.75) = 64, blue round(180.3) = 180
    assert_eq!(color_of_count(55, 110), 0xFF80_40B4);
}

#[test]
fn small_ratio_colour() {
    // red round(2.32) = 2, green round(0.02) = 0, blue round(24.3) = 24
    assert_eq!(color_of_count(1, 110), 0xFF02_0018);
}

#[test]
fn empty_budget_is_opaque_black() {
    assert_eq!(color_of_count(0, 0), 0xFF00_0000);
}

#[test]
fn same_inputs_same_colour() {
    assert_eq!(color_of_count(37, 110), color_of_count(37, 110));
    assert_eq!(pixel_coord(4321, 800, 600), pixel_coord(4321, 800, 600));
}

#[test]
fn escape_step_decisions() {
    assert_eq!(escape_step(5, true), Some(4));
    assert_eq!(escape_step(5, false), None);
    assert_eq!(escape_step(1, true), None);
    assert_eq!(escape_step(0, true), None);
}

#[test]
fn remaining_count_stays_within_budget() {
    assert_eq!(run_escape(110, &[true; 200]), 1);
    assert_eq!(run_escape(110, &[]), 110);
    assert_eq!(run_escape(110, &[true, true, true, false]), 107);
    assert_eq!(run_escape(1, &[true; 10]), 1);
}

#[test]
fn coordinates_are_row_major() {
    assert_eq!(pixel_coord(0, 800, 600), (0, 0));
    assert_eq!(pixel_coord(1234, 800, 600), (434, 1));
    assert_eq!(pixel_coord(800 * 600 - 1, 800, 600), (799, 599));
    assert_eq!(pixel_coord(7, 1, 10), (0, 7));
}
