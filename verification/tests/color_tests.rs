use easycurses::Color::{Black, Blue, Cyan, Green, Magenta, Red, White, Yellow};
use easycurses::{color_to_i16, i16_to_color, Color, ColorPair};

#[test]
fn test_color_i32_conversion_identity() {
    let colors = [Black, Red, Green, Yellow, Blue, Magenta, Cyan, White];
    for &color in colors.iter() {
        if i16_to_color(color_to_i16(color)).unwrap() != color {
            panic!("color did not survive the round trip: {:?}", color);
        }
    }
}

#[test]
fn test_color_i32_matches_color_constants() {
    assert!(color_to_i16(Black) == pancurses::COLOR_BLACK);
    assert!(color_to_i16(Red) == pancurses::COLOR_RED);
    assert!(color_to_i16(Green) == pancurses::COLOR_GREEN);
    assert!(color_to_i16(Yellow) == pancurses::COLOR_YELLOW);
    assert!(color_to_i16(Blue) == pancurses::COLOR_BLUE);
    assert!(color_to_i16(Magenta) == pancurses::COLOR_MAGENTA);
    assert!(color_to_i16(Cyan) == pancurses::COLOR_CYAN);
    assert!(color_to_i16(White) == pancurses::COLOR_WHITE);
}

#[test]
fn i16_to_color_rejects_out_of_range() {
    assert_eq!(i16_to_color(-1), None);
    assert_eq!(i16_to_color(8), None);
    assert_eq!(i16_to_color(i16::MAX), None);
    assert_eq!(i16_to_color(0), Some(Color::Black));
    assert_eq!(i16_to_color(7), Some(Color::White));
}

#[test]
fn color_iterator_lists_all_colors_in_order() {
    let listed = Color::color_iterator();
    assert_eq!(
        listed,
        vec![Black, Red, Green, Yellow, Blue, Magenta, Cyan, White]
    );
}

#[test]
fn pair_ids_cover_one_to_sixty_four_injectively() {
    let mut seen = Vec::new();
    for fg in Color::color_iterator() {
        for bg in Color::color_iterator() {
            let id = ColorPair::fgbg_pairid(color_to_i16(fg), color_to_i16(bg));
            assert!(1 <= id && id <= 64, "id {} out of range", id);
            assert!(!seen.contains(&id), "id {} assigned twice", id);
            seen.push(id);
        }
    }
    assert_eq!(seen.len(), 64);
}

#[test]
fn pair_id_concrete_values() {
    assert_eq!(ColorPair::fgbg_pairid(0, 0), 1);
    assert_eq!(ColorPair::fgbg_pairid(0, 1), 2);
    assert_eq!(ColorPair::fgbg_pairid(7, 0), 57);
    assert_eq!(ColorPair::fgbg_pairid(7, 7), 64);
}

#[test]
fn default_pair_is_white_on_black() {
    assert_eq!(ColorPair::default(), ColorPair::new(Color::White, Color::Black));
    // The default pair is a registered pair of its own, id 57, not the
    // provider's reserved pair 0.
    assert_eq!(ColorPair::fgbg_pairid(7, 0), 57);
}

#[test]
fn new_pairs_follow_the_identity_scheme() {
    for fg in Color::color_iterator() {
        for bg in Color::color_iterator() {
            let built = ColorPair::new(fg, bg);
            assert_eq!(built, ColorPair::new(fg, bg));
            // Distinct combinations never compare equal.
            for other_bg in Color::color_iterator() {
                if other_bg != bg {
                    assert_ne!(built, ColorPair::new(fg, other_bg));
                }
            }
        }
    }
}
