use color_print::from_rgb::{rgb_to_cmyk, rgb_to_hsl, rgb_to_hsv};
use color_print::helper::{max, min};
use color_print::rgba::blend;
use color_print::to_rgb::{cmyk_to_rgb, cymk_to_rgb, hsl_to_rgb, hsv_to_rgb};
use color_print::{Component, NumType, GRAIN, STEPS};

fn n(x: f64) -> NumType {
    NumType::from_trillionths((x * 1e12).round() as i64)
}

fn c(x: f64) -> Component {
    Component::from_trillionths((x * 1e12).round() as i64)
}

fn steps(x: i128) -> NumType {
    NumType::from_steps(x)
}

fn trl(x: i64) -> Component {
    Component::from_trillionths(x)
}

#[test]
fn max_of_three() {
    assert_eq!(max(n(1.), n(2.), n(3.)), n(3.));
    assert_eq!(max(n(3.), n(2.), n(1.)), n(3.));
    assert_eq!(max(n(2.), n(3.), n(1.)), n(3.));
    assert_eq!(max(n(2.), n(2.), n(1.)), n(2.));
    assert_eq!(max(n(1.), n(2.), n(2.)), n(2.));
    assert_eq!(max(n(2.), n(1.), n(2.)), n(2.));
    assert_eq!(max(n(-1.), n(-2.), n(-3.)), n(-1.));
    assert_eq!(max(n(0.5), n(0.5), n(0.5)), n(0.5));
}

#[test]
fn min_of_three() {
    assert_eq!(min(n(1.), n(2.), n(3.)), n(1.));
    assert_eq!(min(n(3.), n(2.), n(1.)), n(1.));
    assert_eq!(min(n(2.), n(1.), n(3.)), n(1.));
    assert_eq!(min(n(2.), n(2.), n(3.)), n(2.));
    assert_eq!(min(n(3.), n(2.), n(2.)), n(2.));
    assert_eq!(min(n(2.), n(3.), n(2.)), n(2.));
    assert_eq!(min(n(-1.), n(-2.), n(-3.)), n(-3.));
    assert_eq!(min(n(0.5), n(0.5), n(0.5)), n(0.5));
}

#[test]
fn cmyk_to_rgb_is_the_product_of_what_the_inks_leave() {
    assert_eq!(
        cmyk_to_rgb(c(0.1), c(0.2), c(0.3), c(0.4)),
        (n(137.7), n(122.4), n(107.1))
    );
    assert_eq!(
        cmyk_to_rgb(c(0.), c(0.), c(0.), c(0.)),
        (n(255.), n(255.), n(255.))
    );
    assert_eq!(
        cmyk_to_rgb(c(0.5), c(0.5), c(0.5), c(1.)),
        (n(0.), n(0.), n(0.))
    );
    assert_eq!(
        cmyk_to_rgb(c(1.), c(0.), c(0.25), c(0.)),
        (n(0.), n(255.), n(191.25))
    );
    // a trillionth of ink and a trillionth of black, to the last step
    assert_eq!(
        cmyk_to_rgb(trl(999_999_999_999), c(0.), c(0.), trl(999_999_999_999)).0,
        steps(63_750_000_000_000)
    );
    assert_eq!(
        cymk_to_rgb(c(0.1), c(0.2), c(0.3), c(0.4)),
        cmyk_to_rgb(c(0.1), c(0.2), c(0.3), c(0.4))
    );
}

#[test]
fn hsl_to_rgb_in_each_sector() {
    assert_eq!(hsl_to_rgb(c(0.), c(1.), c(0.5)), (n(255.), n(0.), n(0.)));
    assert_eq!(hsl_to_rgb(c(30.), c(1.), c(0.5)), (n(255.), n(127.5), n(0.)));
    assert_eq!(hsl_to_rgb(c(60.), c(1.), c(0.5)), (n(255.), n(255.), n(0.)));
    assert_eq!(hsl_to_rgb(c(90.), c(1.), c(0.5)), (n(127.5), n(255.), n(0.)));
    assert_eq!(hsl_to_rgb(c(120.), c(1.), c(0.5)), (n(0.), n(255.), n(0.)));
    assert_eq!(hsl_to_rgb(c(150.), c(1.), c(0.5)), (n(0.), n(255.), n(127.5)));
    assert_eq!(hsl_to_rgb(c(180.), c(1.), c(0.5)), (n(0.), n(255.), n(255.)));
    assert_eq!(hsl_to_rgb(c(210.), c(1.), c(0.5)), (n(0.), n(127.5), n(255.)));
    assert_eq!(hsl_to_rgb(c(240.), c(1.), c(0.5)), (n(0.), n(0.), n(255.)));
    assert_eq!(hsl_to_rgb(c(270.), c(1.), c(0.5)), (n(127.5), n(0.), n(255.)));
    assert_eq!(hsl_to_rgb(c(300.), c(1.), c(0.5)), (n(255.), n(0.), n(255.)));
    assert_eq!(hsl_to_rgb(c(330.), c(1.), c(0.5)), (n(255.), n(0.), n(127.5)));
}

#[test]
fn hsl_to_rgb_with_offset_and_partial_chroma() {
    // c = (1 - |0.5 - 1|) * 0.5 = 0.25, x = 0.125, m = 0.25 - 0.125 = 0.125
    assert_eq!(
        hsl_to_rgb(c(210.), c(0.5), c(0.25)),
        (n(31.875), n(63.75), n(95.625))
    );
    // c = (1 - |1.5 - 1|) * 0.5 = 0.25, m = 0.75 - 0.125 = 0.625
    assert_eq!(
        hsl_to_rgb(c(0.), c(0.5), c(0.75)),
        (n(223.125), n(159.375), n(159.375))
    );
    assert_eq!(hsl_to_rgb(c(123.), c(0.), c(0.2)), (n(51.), n(51.), n(51.)));
    assert_eq!(hsl_to_rgb(c(123.), c(1.), c(0.)), (n(0.), n(0.), n(0.)));
    assert_eq!(
        hsl_to_rgb(c(123.), c(1.), c(1.)),
        (n(255.), n(255.), n(255.))
    );
}

#[test]
fn hsl_to_rgb_to_the_last_step() {
    // c = 0.6 * 0.2 = 0.12, x = c / 600, m = 0.3 - 0.06 = 0.24:
    // red 255 * 0.36 = 91.8, green 255 * (0.24 + 0.0002) = 61.251, blue 61.2
    assert_eq!(
        hsl_to_rgb(c(0.1), c(0.2), c(0.3)),
        (n(91.8), n(61.251), n(61.2))
    );
    // one trillionth of lightness is 255 trillionths of each channel
    assert_eq!(
        hsl_to_rgb(c(0.), c(0.), trl(1)),
        (steps(255 * GRAIN), steps(255 * GRAIN), steps(255 * GRAIN))
    );
    // c = 0.666666666666 * 0.333333333333 = 0.222222222221777777777778:
    // red 255 * 0.444444444443888888888889, green and blue
    // 255 * 0.222222222222111111111111, each exactly
    assert_eq!(
        hsl_to_rgb(c(0.), trl(333_333_333_333), trl(333_333_333_333)),
        (
            steps(28_333_333_333_297_916_666_666_673_750_000_000_000),
            steps(14_166_666_666_659_583_333_333_326_250_000_000_000),
            steps(14_166_666_666_659_583_333_333_326_250_000_000_000)
        )
    );
    // 255 * 0.000000000001 * 0.5, exactly
    assert_eq!(
        hsv_to_rgb(c(30.), c(1.), trl(1)),
        (
            steps(255 * GRAIN),
            steps(31_875_000_000_000_000_000_000_000),
            steps(0)
        )
    );
}

#[test]
fn the_middle_channel_is_rounded_down_to_a_step() {
    // chroma of a trillionth squared, a trillionth of a degree into the wheel:
    // 17 * 2 * 1 * 1 / 32 steps over the weakest channel, which is 1 step
    let rgb = hsv_to_rgb(trl(1), trl(1), trl(1));
    assert_eq!(rgb.0, steps(255 * GRAIN));
    assert_eq!(rgb.2, steps(255 * GRAIN - 63_750_000_000_000));
    assert_eq!(rgb.1.steps() - rgb.2.steps(), 1);
    // sixteen trillionths of a degree: 17 steps, exactly
    let rgb = hsv_to_rgb(trl(16), trl(1), trl(1));
    assert_eq!(rgb.1.steps() - rgb.2.steps(), 17);
    // three trillionths: 17 * 6 / 32 = 3.1875 steps, cut to 3
    let rgb = hsv_to_rgb(trl(3), trl(1), trl(1));
    assert_eq!(rgb.1.steps() - rgb.2.steps(), 3);
}

#[test]
fn hue_of_360_is_hue_of_0() {
    assert_eq!(
        hsl_to_rgb(c(360.), c(0.7), c(0.4)),
        hsl_to_rgb(c(0.), c(0.7), c(0.4))
    );
    assert_eq!(
        hsv_to_rgb(c(360.), c(0.7), c(0.4)),
        hsv_to_rgb(c(0.), c(0.7), c(0.4))
    );
    assert_eq!(hsv_to_rgb(c(360.), c(1.), c(1.)), (n(255.), n(0.), n(0.)));
}

#[test]
fn hsv_to_rgb_in_each_sector() {
    assert_eq!(hsv_to_rgb(c(0.), c(1.), c(1.)), (n(255.), n(0.), n(0.)));
    assert_eq!(hsv_to_rgb(c(45.), c(1.), c(1.)), (n(255.), n(191.25), n(0.)));
    assert_eq!(hsv_to_rgb(c(75.), c(1.), c(1.)), (n(191.25), n(255.), n(0.)));
    assert_eq!(hsv_to_rgb(c(165.), c(1.), c(1.)), (n(0.), n(255.), n(191.25)));
    assert_eq!(hsv_to_rgb(c(195.), c(1.), c(1.)), (n(0.), n(191.25), n(255.)));
    assert_eq!(hsv_to_rgb(c(285.), c(1.), c(1.)), (n(191.25), n(0.), n(255.)));
    assert_eq!(hsv_to_rgb(c(315.), c(1.), c(1.)), (n(255.), n(0.), n(191.25)));
}

#[test]
fn hsv_to_rgb_with_offset_and_partial_chroma() {
    // c = 0.8 * 0.5 = 0.4, x = 0.2, m = 0.4
    assert_eq!(
        hsv_to_rgb(c(210.), c(0.5), c(0.8)),
        (n(102.), n(153.), n(204.))
    );
    // c = 0.06, x = c / 600 = 0.0001, m = 0.24
    assert_eq!(
        hsv_to_rgb(c(0.1), c(0.2), c(0.3)),
        (n(76.5), n(61.2255), n(61.2))
    );
    assert_eq!(hsv_to_rgb(c(77.), c(0.), c(0.2)), (n(51.), n(51.), n(51.)));
    assert_eq!(hsv_to_rgb(c(77.), c(1.), c(0.)), (n(0.), n(0.), n(0.)));
}

#[test]
fn rgb_to_hsl_of_primaries_and_greys() {
    assert_eq!(rgb_to_hsl(n(255.), n(0.), n(0.)), (c(0.), c(1.), c(0.5)));
    assert_eq!(rgb_to_hsl(n(0.), n(255.), n(0.)), (c(120.), c(1.), c(0.5)));
    assert_eq!(rgb_to_hsl(n(0.), n(0.), n(255.)), (c(240.), c(1.), c(0.5)));
    assert_eq!(rgb_to_hsl(n(255.), n(255.), n(0.)), (c(60.), c(1.), c(0.5)));
    assert_eq!(rgb_to_hsl(n(255.), n(0.), n(255.)), (c(300.), c(1.), c(0.5)));
    assert_eq!(rgb_to_hsl(n(0.), n(0.), n(0.)), (c(0.), c(0.), c(0.)));
    assert_eq!(rgb_to_hsl(n(255.), n(255.), n(255.)), (c(0.), c(0.), c(1.)));
    assert_eq!(rgb_to_hsl(n(51.), n(51.), n(51.)), (c(0.), c(0.), c(0.2)));
}

#[test]
fn rgb_to_hsl_wraps_a_negative_hue() {
    // (g - b) / delta = -0.5: 60 * -0.5 + 360 = 330
    assert_eq!(
        rgb_to_hsl(n(255.), n(0.), n(127.5)),
        (c(330.), c(1.), c(0.5))
    );
    // one trillionth below red's own hue
    assert_eq!(
        rgb_to_hsl(n(255.), n(0.), steps(1)).0,
        trl(359_999_999_999_999)
    );
    assert_eq!(rgb_to_hsl(steps(2), steps(1), steps(2)).0, c(300.));
    assert_eq!(rgb_to_hsl(steps(3), steps(1), steps(2)).0, c(330.));
    assert_eq!(rgb_to_hsl(steps(2), steps(3), steps(1)).0, c(90.));
    assert_eq!(rgb_to_hsl(steps(1), steps(3), steps(2)).0, c(150.));
    assert_eq!(rgb_to_hsl(steps(2), steps(1), steps(3)).0, c(270.));
    assert_eq!(rgb_to_hsl(steps(1), steps(2), steps(3)).0, c(210.));
    // seven steps of delta: 60 * 6 / 7 = 51.428571428571428..., cut off, and
    // 120 - 60 / 7 = 111.428571428571428...
    assert_eq!(
        rgb_to_hsl(steps(7), steps(6), steps(0)).0,
        trl(51_428_571_428_571)
    );
    assert_eq!(
        rgb_to_hsl(steps(1), steps(7), steps(0)).0,
        trl(111_428_571_428_571)
    );
}

#[test]
fn rgb_to_hsl_divides_by_the_room_that_the_lightness_leaves() {
    // l = 0.75, delta = 0.25: s = 0.25 / (1 - 0.5) = 0.5
    assert_eq!(
        rgb_to_hsl(n(223.125), n(159.375), n(159.375)),
        (c(0.), c(0.5), c(0.75))
    );
    // l = 0.25, delta = 0.25: s = 0.25 / 0.5 = 0.5
    assert_eq!(
        rgb_to_hsl(n(31.875), n(63.75), n(95.625)),
        (c(210.), c(0.5), c(0.25))
    );
}

#[test]
fn rgb_to_hsv_examples() {
    assert_eq!(rgb_to_hsv(n(255.), n(0.), n(0.)), (c(0.), c(1.), c(1.)));
    assert_eq!(rgb_to_hsv(n(0.), n(0.), n(0.)), (c(0.), c(0.), c(0.)));
    assert_eq!(rgb_to_hsv(n(51.), n(51.), n(51.)), (c(0.), c(0.), c(0.2)));
    assert_eq!(
        rgb_to_hsv(n(102.), n(153.), n(204.)),
        (c(210.), c(0.5), c(0.8))
    );
    // delta / cmax = 20.2 / 30.4 and cmax / 255 = 30.4 / 255, both cut off
    assert_eq!(
        rgb_to_hsv(n(10.2), n(20.3), n(30.4)),
        (c(210.), trl(664_473_684_210), trl(119_215_686_274))
    );
}

#[test]
fn rgb_to_cmyk_examples() {
    assert_eq!(
        rgb_to_cmyk(n(137.7), n(122.4), n(107.1)),
        (c(0.), trl(111_111_111_111), trl(222_222_222_222), c(0.46))
    );
    assert_eq!(
        rgb_to_cmyk(n(255.), n(255.), n(255.)),
        (c(0.), c(0.), c(0.), c(0.))
    );
    assert_eq!(
        rgb_to_cmyk(n(255.), n(0.), n(127.5)),
        (c(0.), c(1.), c(0.5), c(0.))
    );
}

#[test]
fn rgb_to_cmyk_of_black_has_no_ink() {
    assert_eq!(
        rgb_to_cmyk(n(0.), n(0.), n(0.)),
        (c(0.), c(0.), c(0.), c(1.))
    );
}

#[test]
fn blend_is_half_of_the_weighted_front_and_the_back() {
    assert_eq!(
        blend(
            (n(10.2), n(20.3), n(30.4)),
            (n(40.3), n(50.4), n(60.5)),
            c(0.1)
        ),
        (n(20.66), n(26.215), n(31.77))
    );
    assert_eq!(
        blend(
            (n(255.), n(255.), n(255.)),
            (n(255.), n(255.), n(255.)),
            c(1.)
        ),
        (n(255.), n(255.), n(255.))
    );
    assert_eq!(
        blend((n(255.), n(100.), n(0.)), (n(0.), n(50.), n(1.)), c(0.)),
        (n(0.), n(25.), n(0.5))
    );
    // (3 steps * 0.5 + 2 steps) / 2 = 1.75 steps, cut to 1
    assert_eq!(
        blend(
            (steps(3), steps(3), steps(3)),
            (steps(2), steps(0), steps(5)),
            c(0.5)
        ),
        (steps(1), steps(0), steps(3))
    );
}

fn close(a: NumType, b: NumType, tolerance: i128) -> bool {
    (a.steps() - b.steps()).abs() <= tolerance
}

const SAMPLES: [(f64, f64, f64); 10] = [
    (10.2, 20.3, 30.4),
    (255., 0., 0.),
    (0., 255., 0.3),
    (1., 2., 3.),
    (200.5, 200.4, 17.),
    (0.000001, 0., 0.),
    (254.999, 255., 254.998),
    (77.7, 77.7, 12.),
    (12., 77.7, 77.7),
    (0.000000001, 0., 255.),
];

#[test]
fn rgb_survives_hsl_within_a_billionth() {
    for (r, g, b) in SAMPLES {
        let hsl = rgb_to_hsl(n(r), n(g), n(b));
        let back = hsl_to_rgb(hsl.0, hsl.1, hsl.2);
        assert!(close(back.0, n(r), STEPS / 1_000_000_000), "{:?}", (r, g, b, back));
        assert!(close(back.1, n(g), STEPS / 1_000_000_000), "{:?}", (r, g, b, back));
        assert!(close(back.2, n(b), STEPS / 1_000_000_000), "{:?}", (r, g, b, back));
    }
}

#[test]
fn rgb_survives_hsv_within_a_billionth() {
    for (r, g, b) in SAMPLES {
        let hsv = rgb_to_hsv(n(r), n(g), n(b));
        let back = hsv_to_rgb(hsv.0, hsv.1, hsv.2);
        assert!(close(back.0, n(r), STEPS / 1_000_000_000), "{:?}", (r, g, b, back));
        assert!(close(back.1, n(g), STEPS / 1_000_000_000), "{:?}", (r, g, b, back));
        assert!(close(back.2, n(b), STEPS / 1_000_000_000), "{:?}", (r, g, b, back));
    }
}

#[test]
fn rgb_survives_cmyk_within_a_billionth() {
    for (r, g, b) in SAMPLES {
        let cmyk = rgb_to_cmyk(n(r), n(g), n(b));
        let back = cmyk_to_rgb(cmyk.0, cmyk.1, cmyk.2, cmyk.3);
        assert!(close(back.0, n(r), STEPS / 1_000_000_000), "{:?}", (r, g, b, back));
        assert!(close(back.1, n(g), STEPS / 1_000_000_000), "{:?}", (r, g, b, back));
        assert!(close(back.2, n(b), STEPS / 1_000_000_000), "{:?}", (r, g, b, back));
    }
    let black = rgb_to_cmyk(n(0.), n(0.), n(0.));
    assert_eq!(
        cmyk_to_rgb(black.0, black.1, black.2, black.3),
        (n(0.), n(0.), n(0.))
    );
}

#[test]
fn hsv_survives_rgb_to_a_trillionth() {
    let samples = [
        (0.1, 0.2, 0.3),
        (359.9, 1., 1.),
        (60., 0.5, 0.5),
        (119.99, 0.1, 0.1),
        (180., 0.9, 0.2),
        (299.123456, 0.333, 0.777),
        (33.333333333, 0.001, 1.),
        (359.999999999, 0.1, 1.),
        (359.999999999999, 0.000000000001, 0.000000000001),
        (0.000000000001, 0.000000000001, 0.000000000001),
        (123.456789012345, 0.000000000001, 1.),
        (240., 1., 0.000000000001),
    ];
    for (h, s, v) in samples {
        let rgb = hsv_to_rgb(c(h), c(s), c(v));
        let back = rgb_to_hsv(rgb.0, rgb.1, rgb.2);
        assert!(
            (back.0.trillionths() - c(h).trillionths()).abs() <= 1,
            "{:?}",
            (h, s, v, back)
        );
        assert_eq!(back.1, c(s));
        assert_eq!(back.2, c(v));
    }
}

#[test]
fn cmyk_need_not_survive_rgb() {
    let rgb = cmyk_to_rgb(c(0.1), c(0.2), c(0.3), c(0.4));
    assert_eq!(
        rgb_to_cmyk(rgb.0, rgb.1, rgb.2),
        (c(0.), trl(111_111_111_111), trl(222_222_222_222), c(0.46))
    );
    let black = cmyk_to_rgb(c(0.1), c(0.2), c(0.3), c(1.));
    assert_eq!(
        rgb_to_cmyk(black.0, black.1, black.2),
        (c(0.), c(0.), c(0.), c(1.))
    );
}

#[test]
fn a_hue_without_chroma_comes_back_as_0() {
    let grey = hsv_to_rgb(c(100.), c(0.), c(0.5));
    assert_eq!(rgb_to_hsv(grey.0, grey.1, grey.2), (c(0.), c(0.), c(0.5)));
    let dark = hsv_to_rgb(c(100.), c(1.), c(0.));
    assert_eq!(rgb_to_hsv(dark.0, dark.1, dark.2), (c(0.), c(0.), c(0.)));
}

#[test]
fn hsl_survives_rgb_to_a_trillionth() {
    let samples = [
        (0.1, 0.2, 0.3),
        (359.9, 1., 0.5),
        (60., 0.5, 0.5),
        (119.99, 0.1, 0.9),
        (180., 0.9, 0.2),
        (299.123456, 0.333, 0.777),
        (359.999999999999, 0.000000000001, 0.000000000001),
        (0.000000000001, 0.000000000001, 0.999999999999),
        (123.456789012345, 1., 0.000000000001),
    ];
    for (h, s, l) in samples {
        let rgb = hsl_to_rgb(c(h), c(s), c(l));
        let back = rgb_to_hsl(rgb.0, rgb.1, rgb.2);
        assert!(
            (back.0.trillionths() - c(h).trillionths()).abs() <= 1,
            "{:?}",
            (h, s, l, back)
        );
        assert_eq!(back.1, c(s));
        assert_eq!(back.2, c(l));
    }
}
