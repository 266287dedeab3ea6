use market_pulse::leds::{
    led_hue, next_hue, output_frame, rainbow_colors, rainbow_step, Rgb, HUE_STEP, NUM_LEDS,
};

#[test]
fn first_led_shows_base_hue() {
    assert_eq!(led_hue(10, 0, 1), 10);
    assert_eq!(led_hue(200, 0, 7), 200);
}

#[test]
fn leds_spread_over_the_wheel() {
    assert_eq!(led_hue(250, 1, 2), 122);
    assert_eq!(led_hue(0, 1, 4), 64);
    assert_eq!(led_hue(0, 2, 3), 170);
}

#[test]
fn hue_advances_by_four_and_wraps() {
    assert_eq!(HUE_STEP, 4);
    assert_eq!(next_hue(0), 4);
    assert_eq!(next_hue(254), 2);
    assert_eq!(next_hue(252), 0);
}

#[test]
fn hue_period_is_sixty_four_frames() {
    for start in [0u8, 1, 37, 255] {
        let mut h = start;
        for frame in 1..=64u32 {
            h = next_hue(h);
            assert_eq!(h == start, frame == 64);
        }
    }
}

#[test]
fn rainbow_colors_use_hsv_conversion() {
    let colors = rainbow_colors(0, 1);
    assert_eq!(colors, vec![Rgb { r: 30, g: 0, b: 0 }]);
    let colors = rainbow_colors(85, 1);
    assert_eq!(colors, vec![Rgb { r: 0, g: 30, b: 0 }]);
    let colors = rainbow_colors(0, 3);
    assert_eq!(colors.len(), 3);
    for (i, c) in colors.iter().enumerate() {
        let h = led_hue(0, i, 3);
        let e = smart_leds::hsv::hsv2rgb(smart_leds::hsv::Hsv { hue: h, sat: 255, val: 30 });
        assert_eq!(*c, Rgb { r: e.r, g: e.g, b: e.b });
    }
}

#[test]
fn output_frame_limits_brightness_then_corrects_gamma() {
    let out = output_frame(&vec![Rgb { r: 255, g: 128, b: 0 }]);
    // 255 * 51 / 256 = 50 -> gamma 3; 128 * 51 / 256 = 25 -> gamma 0
    assert_eq!(out, vec![Rgb { r: 3, g: 0, b: 0 }]);
    let out = output_frame(&vec![Rgb { r: 30, g: 0, b: 0 }, Rgb { r: 0, g: 0, b: 0 }]);
    assert_eq!(out, vec![Rgb { r: 0, g: 0, b: 0 }, Rgb { r: 0, g: 0, b: 0 }]);
}

#[test]
fn output_frame_matches_the_led_crate() {
    let input = vec![Rgb { r: 200, g: 100, b: 50 }, Rgb { r: 1, g: 255, b: 77 }];
    let out = output_frame(&input);
    let expected: Vec<Rgb> = smart_leds::gamma(smart_leds::brightness(
        input.iter().map(|c| smart_leds::RGB8 { r: c.r, g: c.g, b: c.b }),
        50,
    ))
    .map(|c| Rgb { r: c.r, g: c.g, b: c.b })
    .collect();
    assert_eq!(out, expected);
    assert_ne!(out, input);
}

#[test]
fn rainbow_step_gives_one_frame_and_next_hue() {
    let (frame, hue) = rainbow_step(0);
    assert_eq!(frame.len(), NUM_LEDS);
    assert_eq!(frame, output_frame(&rainbow_colors(0, NUM_LEDS)));
    assert_eq!(hue, 4);
    let (_, hue) = rainbow_step(254);
    assert_eq!(hue, 2);
}
