use wordle::layout::{compute_layout, Layout};

#[test]
fn minimum_footprint_needs_no_gaps_or_margins() {
    let lay = compute_layout(6, 7);
    let expected = Layout {
        width_gap: 0,
        height_gap: 0,
        left_margin: 0,
        top_margin: 0,
    };
    assert_eq!(lay, expected);
}

#[test]
fn tiny_displays_are_raised_to_the_minimum() {
    let lay = compute_layout(0, 0);
    let expected = Layout {
        width_gap: 0,
        height_gap: 0,
        left_margin: 0,
        top_margin: 0,
    };
    assert_eq!(lay, expected);
}

#[test]
fn large_displays_clamp_gaps_and_centre_the_board() {
    let lay = compute_layout(1000, 1000);
    // width_gap clamps to 3 and height_gap to 1; the board of 3*10+6 = 36
    // columns and 1*12+7 = 19 rows is centred in 1000 by 1000.
    let expected = Layout {
        width_gap: 3,
        height_gap: 1,
        left_margin: (1000 - 36) / 2,
        top_margin: (1000 - 19) / 2,
    };
    assert_eq!(lay, expected);
}

#[test]
fn gap_growth_below_the_clamp() {
    let lay = compute_layout(40, 32);
    // width 40: (40-6)/10 = 3, still within the clamp; height 32:
    // (32-7)/12 = 2 clamps to 1.
    assert_eq!(lay.width_gap, 3);
    assert_eq!(lay.height_gap, 1);
    assert_eq!(lay.left_margin, 2);
    assert_eq!(lay.top_margin, 6);
}
