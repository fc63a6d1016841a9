use circle_clicker::color::{hex_color, hex_digit};
use circle_clicker::game::Difficulty;
use circle_clicker::menu::{button_choice, menu_button_labels, str_eq, MenuChoice};
use circle_clicker::spawn::{spawn_circle, SPAWN_SCALE_MAX, SPAWN_SCALE_MIN};

#[test]
fn every_menu_button_starts_the_round_it_advertises() {
    assert_eq!(
        button_choice("15 Seconds Easy"),
        Some(MenuChoice::Start(Difficulty::Easy(15)))
    );
    assert_eq!(
        button_choice("30 Seconds Easy"),
        Some(MenuChoice::Start(Difficulty::Easy(30)))
    );
    assert_eq!(
        button_choice("15 Seconds Hard"),
        Some(MenuChoice::Start(Difficulty::Hard(15)))
    );
    assert_eq!(
        button_choice("30 Seconds Hard"),
        Some(MenuChoice::Start(Difficulty::Hard(30)))
    );
    assert_eq!(button_choice("Restart"), Some(MenuChoice::Restart));
}

#[test]
fn unknown_labels_do_nothing() {
    assert_eq!(button_choice(""), None);
    assert_eq!(button_choice("Quit"), None);
    assert_eq!(button_choice("15 seconds easy"), None);
    assert_eq!(button_choice("15 Seconds Easy "), None);
}

#[test]
fn the_menu_lists_its_four_buttons_in_order() {
    let labels = menu_button_labels();
    assert_eq!(
        labels,
        vec!["30 Seconds Easy", "15 Seconds Easy", "30 Seconds Hard", "15 Seconds Hard"]
    );
    for label in labels {
        match button_choice(label) {
            Some(MenuChoice::Start(_)) => {}
            other => panic!("label {:?} gave {:?}", label, other),
        }
    }
}

#[test]
fn string_equality_is_character_exact() {
    assert!(str_eq("Restart", "Restart"));
    assert!(!str_eq("Restart", "restart"));
    assert!(!str_eq("Restart", "Restart "));
    assert!(!str_eq("", "a"));
    assert!(str_eq("", ""));
    assert!(str_eq("écho", "écho"));
    assert!(!str_eq("écho", "echo"));
}

#[test]
fn the_game_palette_decodes() {
    assert_eq!(hex_color("5bd972"), Some((0x5b, 0xd9, 0x72)));
    assert_eq!(hex_color("ff2414"), Some((0xff, 0x24, 0x14)));
    assert_eq!(hex_color("5c8bd6"), Some((0x5c, 0x8b, 0xd6)));
    assert_eq!(hex_color("4a6fab"), Some((0x4a, 0x6f, 0xab)));
    assert_eq!(hex_color("ffe9ba"), Some((0xff, 0xe9, 0xba)));
}

#[test]
fn colour_codes_may_use_either_case() {
    assert_eq!(hex_color("FF2414"), Some((255, 36, 20)));
    assert_eq!(hex_color("AbCdEf"), Some((0xab, 0xcd, 0xef)));
    assert_eq!(hex_color("000000"), Some((0, 0, 0)));
    assert_eq!(hex_color("ffffff"), Some((255, 255, 255)));
}

#[test]
fn malformed_colour_codes_decode_to_nothing() {
    assert_eq!(hex_color(""), None);
    assert_eq!(hex_color("fff"), None);
    assert_eq!(hex_color("fffffff"), None);
    assert_eq!(hex_color("ffe9bg"), None);
    assert_eq!(hex_color("ff e9b"), None);
}

#[test]
fn hex_digits_have_their_value() {
    assert_eq!(hex_digit('0'), Some(0));
    assert_eq!(hex_digit('9'), Some(9));
    assert_eq!(hex_digit('a'), Some(10));
    assert_eq!(hex_digit('f'), Some(15));
    assert_eq!(hex_digit('A'), Some(10));
    assert_eq!(hex_digit('F'), Some(15));
    assert_eq!(hex_digit('g'), None);
    assert_eq!(hex_digit(' '), None);
}

#[test]
fn spawns_land_inside_the_window_margin() {
    // a 1280 x 720 window, in hundredths of a pixel
    let width: i64 = 128_000;
    let height: i64 = 72_000;
    for _ in 0..200 {
        let (spawn, _another) = spawn_circle(width, height);
        assert!(spawn.scale >= SPAWN_SCALE_MIN);
        assert!(spawn.scale < SPAWN_SCALE_MAX);
        assert!(spawn.x >= -(width / 2 - 10_000));
        assert!(spawn.x < width / 2 - 10_000);
        assert!(spawn.y >= -(height / 2 - 10_000));
        assert!(spawn.y < height / 2 - 10_000);
    }
}

#[test]
fn spawns_spread_over_the_window() {
    // the draws are random; over many spawns both halves of the
    // window and more than one scale must appear
    let mut left = false;
    let mut right = false;
    let mut scales = std::collections::HashSet::new();
    for _ in 0..500 {
        let (spawn, _another) = spawn_circle(128_000, 72_000);
        if spawn.x < 0 {
            left = true;
        }
        if spawn.x >= 0 {
            right = true;
        }
        scales.insert(spawn.scale);
    }
    assert!(left && right);
    assert!(scales.len() > 10);
}
