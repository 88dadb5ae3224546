//! What comes back when an RGB colour is converted to HSL, HSV or CMYK and back.

use vstd::prelude::*;
use crate::arith::{
    lemma_product_size, lemma_quotient_between, lemma_quotient_bound, lemma_quotient_brackets,
};
use crate::from_rgb::{ink_of, rgb_to_cmyk_spec, rgb_to_hsl_spec, rgb_to_hsv_spec};
use crate::helper::{max3, min3};
use crate::num::{magnitude, GRAIN, STEPS, UNIT};
use crate::rgba::is_rgb;
use crate::standard::ColorStandered;
use crate::stored::Stored;
use crate::to_rgb::{
    cmyk_channel, cmyk_to_rgb_spec, hsl_chroma, hsl_to_rgb_spec, hsv_chroma, hsv_to_rgb_spec,
    hue_share, level_high, level_low, level_mid, LEVEL,
};
use crate::wheel::{lemma_hue_tells, median3, near, near_rgb};

verus! {

/// The most, in steps, that a channel can be off when it comes back from
/// another standard: a billionth of the 255 that a channel reaches to, which
/// is a thousand trillionths.
pub open spec fn channel_slack() -> int {
    1000 * GRAIN
}

/// The lightness and the saturation that an RGB colour with the strongest
/// channel `top` and the weakest channel `bottom` is given.
pub open spec fn is_hsl_of(top: int, bottom: int, l: int, s: int) -> bool {
    &&& 0 <= bottom <= top <= 255 * STEPS
    &&& l == (top + bottom) / (510 * GRAIN)
    &&& s == if top == bottom {
        0
    } else {
        UNIT * (top - bottom) / (255 * STEPS - magnitude(top + bottom - 255 * STEPS))
    }
}

/// The chroma that is computed from the lightness and the saturation of an
/// RGB colour is the distance between its strongest and its weakest channel,
/// but for what rounding the two loses.
proof fn lemma_chroma_of_hsl(top: int, bottom: int, l: int, s: int)
    requires
        is_hsl_of(top, bottom, l, s),
    ensures
        0 <= s <= UNIT,
        -765 * STEPS <= 255 * GRAIN * hsl_chroma(s, l) - UNIT * (top - bottom) <= 510 * STEPS,
{
    let delta = top - bottom;
    let room = 255 * STEPS - magnitude(top + bottom - 255 * STEPS);
    let width = UNIT - magnitude(2 * l - UNIT);
    assert(-510 * GRAIN <= 255 * GRAIN * width - room <= 510 * GRAIN);
    assert(s * room <= UNIT * delta <= s * room + room && 0 <= s <= UNIT) by {
        if top != bottom {
            lemma_quotient_brackets(UNIT * delta, room);
            lemma_quotient_bound(UNIT * delta, room, UNIT as int);
        } else {
            assert(s * room == 0) by (nonlinear_arith)
                requires
                    s == 0,
            ;
        }
    }
    lemma_product_size(255 * GRAIN * width - room, s, 510 * GRAIN, UNIT as int);
    assert(255 * GRAIN * (width * s) - s * room == (255 * GRAIN * width - room) * s)
        by (nonlinear_arith);
    assert(510 * GRAIN * UNIT == 510 * STEPS);
}

/// The strongest and the weakest channel come back from lightness and saturation.
proof fn lemma_high_and_low_from_hsl(top: int, bottom: int, l: int, s: int)
    requires
        is_hsl_of(top, bottom, l, s),
    ensures
        near(level_high(2 * UNIT * l - hsl_chroma(s, l), hsl_chroma(s, l)), top, channel_slack()),
        near(level_low(2 * UNIT * l - hsl_chroma(s, l)), bottom, channel_slack()),
{
    lemma_chroma_of_hsl(top, bottom, l, s);
    let chroma = hsl_chroma(s, l);
    let high = level_high(2 * UNIT * l - chroma, chroma);
    let low = level_low(2 * UNIT * l - chroma);
    assert(2 * UNIT * high == UNIT * (510 * GRAIN * l) + 255 * GRAIN * chroma && 2 * UNIT * low
        == UNIT * (510 * GRAIN * l) - 255 * GRAIN * chroma) by (nonlinear_arith)
        requires
            high == LEVEL * (2 * UNIT * l - chroma + 2 * chroma),
            low == LEVEL * (2 * UNIT * l - chroma),
    ;
}

/// The channel in the middle comes back from lightness and saturation, where
/// `excess` is what it has over the weakest channel and `share` is the share
/// of the chroma that the hue gives it.
proof fn lemma_mid_from_hsl(top: int, bottom: int, l: int, s: int, excess: int, share: int)
    requires
        is_hsl_of(top, bottom, l, s),
        0 <= excess <= top - bottom,
        0 <= share <= 60 * UNIT,
        -(top - bottom) <= share * (top - bottom) - 60 * UNIT * excess <= top - bottom,
    ensures
        near(
            17 * (60 * UNIT * (2 * UNIT * l - hsl_chroma(s, l)) + 2 * hsl_chroma(s, l) * share) / 32,
            bottom + excess,
            channel_slack(),
        ),
{
    lemma_chroma_of_hsl(top, bottom, l, s);
    let delta = top - bottom;
    let chroma = hsl_chroma(s, l);
    let miss = 255 * GRAIN * chroma - UNIT * delta;
    let drift = share * delta - 60 * UNIT * excess;
    let short = 510 * GRAIN * l - (top + bottom);
    let numerator = 17 * (60 * UNIT * (2 * UNIT * l - chroma) + 2 * chroma * share);
    lemma_product_size(miss, 2 * share - 60 * UNIT, 765 * STEPS, 60 * UNIT);
    assert(15 * GRAIN * numerator == 480 * GRAIN * (bottom + excess) + 240 * GRAIN * short + 2
        * UNIT * drift + miss * (2 * share - 60 * UNIT)) by (nonlinear_arith)
        requires
            numerator == 17 * (60 * UNIT * (2 * UNIT * l - chroma) + 2 * chroma * share),
            miss == 255 * GRAIN * chroma - UNIT * delta,
            drift == share * delta - 60 * UNIT * excess,
            short == 510 * GRAIN * l - (top + bottom),
            delta == top - bottom,
    ;
    assert(765 * STEPS * (60 * UNIT) == 15 * GRAIN * (12240 * GRAIN));
    assert(240 * GRAIN * (510 * GRAIN) == 15 * GRAIN * (8160 * GRAIN));
    assert(2 * UNIT * (255 * STEPS) == 15 * GRAIN * (136 * GRAIN));
    assert(15 * GRAIN * (32 * (bottom + excess) - 20536 * GRAIN) <= 15 * GRAIN * numerator);
    assert(15 * GRAIN * numerator <= 15 * GRAIN * (32 * (bottom + excess) + 12376 * GRAIN));
    lemma_quotient_between(
        numerator,
        32,
        bottom + excess - 642 * GRAIN,
        bottom + excess + 387 * GRAIN,
    );
}

/// **Red, green and blue come back from HSL.** Converting an RGB colour to
/// HSL and the result back to RGB gives each channel to within a billionth,
/// whatever the colour: no hue wraps, because the hue of an RGB colour is
/// always less than 360.
pub proof fn lemma_rgb_survives_hsl(r: int, g: int, b: int)
    requires
        is_rgb((r, g, b)),
    ensures
        ({
            let (h, s, l) = rgb_to_hsl_spec(r, g, b);
            near_rgb(hsl_to_rgb_spec(h, s, l), (r, g, b), channel_slack())
        }),
{
    let top = max3(r, g, b);
    let bottom = min3(r, g, b);
    let (h, s, l) = rgb_to_hsl_spec(r, g, b);
    let chroma = hsl_chroma(s, l);
    let offset = 2 * UNIT * l - chroma;
    let levels = (level_high(offset, chroma), level_mid(offset, chroma, h), level_low(offset));
    lemma_hue_tells(r, g, b, levels, channel_slack());
    lemma_high_and_low_from_hsl(top, bottom, l, s);
    lemma_mid_from_hsl(top, bottom, l, s, median3(r, g, b) - bottom, hue_share(h));
}

/// The value and the saturation that an RGB colour with the strongest channel
/// `top` and the weakest channel `bottom` is given.
pub open spec fn is_hsv_of(top: int, bottom: int, v: int, s: int) -> bool {
    &&& 0 <= bottom <= top <= 255 * STEPS
    &&& v == top / (255 * GRAIN)
    &&& s == if top == 0 {
        0
    } else {
        UNIT * (top - bottom) / top
    }
}

/// The chroma that is computed from the value and the saturation of an RGB
/// colour falls short of the distance between its strongest and its weakest
/// channel by what rounding the two loses.
proof fn lemma_chroma_of_hsv(top: int, bottom: int, v: int, s: int)
    requires
        is_hsv_of(top, bottom, v, s),
    ensures
        0 <= s <= UNIT,
        0 <= UNIT * (top - bottom) - 255 * GRAIN * hsv_chroma(s, v) <= 510 * STEPS,
{
    let delta = top - bottom;
    let lost = top - 255 * GRAIN * v;
    assert(s * top <= UNIT * delta <= s * top + top && 0 <= s <= UNIT) by {
        if top != 0 {
            lemma_quotient_brackets(UNIT * delta, top);
            lemma_quotient_bound(UNIT * delta, top, UNIT as int);
        } else {
            assert(s * top == 0) by (nonlinear_arith)
                requires
                    s == 0,
            ;
        }
    }
    lemma_product_size(lost, s, 255 * GRAIN, UNIT as int);
    assert(lost * s >= 0) by (nonlinear_arith)
        requires
            lost >= 0,
            s >= 0,
    ;
    assert(255 * GRAIN * (v * s) == s * top - lost * s) by (nonlinear_arith)
        requires
            lost == top - 255 * GRAIN * v,
    ;
    assert(255 * GRAIN * UNIT == 255 * STEPS);
}

/// The strongest and the weakest channel come back from value and saturation.
proof fn lemma_high_and_low_from_hsv(top: int, bottom: int, v: int, s: int)
    requires
        is_hsv_of(top, bottom, v, s),
    ensures
        near(
            level_high(2 * UNIT * v - 2 * hsv_chroma(s, v), hsv_chroma(s, v)),
            top,
            channel_slack(),
        ),
        near(level_low(2 * UNIT * v - 2 * hsv_chroma(s, v)), bottom, channel_slack()),
{
    lemma_chroma_of_hsv(top, bottom, v, s);
    let chroma = hsv_chroma(s, v);
    let high = level_high(2 * UNIT * v - 2 * chroma, chroma);
    let low = level_low(2 * UNIT * v - 2 * chroma);
    assert(high == 255 * GRAIN * v && UNIT * low == UNIT * (255 * GRAIN * v) - 255 * GRAIN * chroma)
        by (nonlinear_arith)
        requires
            high == LEVEL * (2 * UNIT * v - 2 * chroma + 2 * chroma),
            low == LEVEL * (2 * UNIT * v - 2 * chroma),
    ;
}

/// The channel in the middle comes back from value and saturation, where
/// `excess` is what it has over the weakest channel and `share` is the share
/// of the chroma that the hue gives it.
proof fn lemma_mid_from_hsv(top: int, bottom: int, v: int, s: int, excess: int, share: int)
    requires
        is_hsv_of(top, bottom, v, s),
        0 <= excess <= top - bottom,
        0 <= share <= 60 * UNIT,
        -(top - bottom) <= share * (top - bottom) - 60 * UNIT * excess <= top - bottom,
    ensures
        near(
            17 * (60 * UNIT * (2 * UNIT * v - 2 * hsv_chroma(s, v)) + 2 * hsv_chroma(s, v) * share)
                / 32,
            bottom + excess,
            channel_slack(),
        ),
{
    lemma_chroma_of_hsv(top, bottom, v, s);
    let delta = top - bottom;
    let chroma = hsv_chroma(s, v);
    let miss = UNIT * delta - 255 * GRAIN * chroma;
    let drift = share * delta - 60 * UNIT * excess;
    let lost = top - 255 * GRAIN * v;
    let numerator = 17 * (60 * UNIT * (2 * UNIT * v - 2 * chroma) + 2 * chroma * share);
    lemma_product_size(miss, 60 * UNIT - share, 510 * STEPS, 60 * UNIT);
    assert(miss * (60 * UNIT - share) >= 0) by (nonlinear_arith)
        requires
            miss >= 0,
            60 * UNIT - share >= 0,
    ;
    assert(15 * GRAIN * numerator == 480 * GRAIN * (bottom + excess) - 480 * GRAIN * lost + 2
        * UNIT * drift + 2 * (miss * (60 * UNIT - share))) by (nonlinear_arith)
        requires
            numerator == 17 * (60 * UNIT * (2 * UNIT * v - 2 * chroma) + 2 * chroma * share),
            miss == UNIT * delta - 255 * GRAIN * chroma,
            drift == share * delta - 60 * UNIT * excess,
            lost == top - 255 * GRAIN * v,
            delta == top - bottom,
    ;
    assert(510 * STEPS * (60 * UNIT) == 15 * GRAIN * (8160 * GRAIN));
    assert(480 * GRAIN * (255 * GRAIN) == 15 * GRAIN * (8160 * GRAIN));
    assert(2 * UNIT * (255 * STEPS) == 15 * GRAIN * (136 * GRAIN));
    assert(15 * GRAIN * (32 * (bottom + excess) - 8296 * GRAIN) <= 15 * GRAIN * numerator);
    assert(15 * GRAIN * numerator <= 15 * GRAIN * (32 * (bottom + excess) + 16456 * GRAIN));
    lemma_quotient_between(
        numerator,
        32,
        bottom + excess - 260 * GRAIN,
        bottom + excess + 515 * GRAIN,
    );
}

/// **Red, green and blue come back from HSV.** Converting an RGB colour to
/// HSV and the result back to RGB gives each channel to within a billionth,
/// whatever the colour.
pub proof fn lemma_rgb_survives_hsv(r: int, g: int, b: int)
    requires
        is_rgb((r, g, b)),
    ensures
        ({
            let (h, s, v) = rgb_to_hsv_spec(r, g, b);
            near_rgb(hsv_to_rgb_spec(h, s, v), (r, g, b), channel_slack())
        }),
{
    let top = max3(r, g, b);
    let bottom = min3(r, g, b);
    let (h, s, v) = rgb_to_hsv_spec(r, g, b);
    let chroma = hsv_chroma(s, v);
    let offset = 2 * UNIT * v - 2 * chroma;
    let levels = (level_high(offset, chroma), level_mid(offset, chroma, h), level_low(offset));
    lemma_hue_tells(r, g, b, levels, channel_slack());
    lemma_high_and_low_from_hsv(top, bottom, v, s);
    lemma_mid_from_hsv(top, bottom, v, s, median3(r, g, b) - bottom, hue_share(h));
}

/// One channel comes back from its ink and the black: never less than it
/// was, and less than 510 trillionths more.
proof fn lemma_channel_from_ink(channel: int, top: int, ink: int, black: int)
    requires
        0 <= channel <= top <= 255 * STEPS,
        ink == ink_of(channel, top),
        black == (255 * STEPS - top) / (255 * GRAIN),
    ensures
        0 <= cmyk_channel(ink, black) - channel <= 510 * GRAIN,
{
    let clear = UNIT - ink;
    let light = UNIT - black;
    if top == 0 {
        assert(clear * light == 0) by (nonlinear_arith)
            requires
                light == 0,
        ;
    } else {
        lemma_quotient_brackets(UNIT * (top - channel), top);
        lemma_quotient_bound(UNIT * (top - channel), top, UNIT as int);
        let more = 255 * GRAIN * light - top;
        let rest = clear * top - UNIT * channel;
        lemma_product_size(clear, more, UNIT as int, 255 * GRAIN);
        assert(clear * more >= 0) by (nonlinear_arith)
            requires
                clear >= 0,
                more >= 0,
        ;
        assert(rest == UNIT * (top - channel) - ink * top) by (nonlinear_arith)
            requires
                rest == clear * top - UNIT * channel,
                clear == UNIT - ink,
        ;
        let back = cmyk_channel(ink, black);
        assert(UNIT * back == UNIT * channel + rest + clear * more) by (nonlinear_arith)
            requires
                back == LEVEL * (2 * (clear * light)),
                more == 255 * GRAIN * light - top,
                rest == clear * top - UNIT * channel,
        ;
        assert(255 * GRAIN * UNIT == 255 * STEPS);
    }
}

/// **Red, green and blue come back from CMYK.** Converting an RGB colour to
/// CMYK and the result back to RGB gives each channel to within a billionth,
/// whatever the colour. The other way round a colour need not come back:
/// black leaves nothing of the three inks to be read.
pub proof fn lemma_rgb_survives_cmyk(r: int, g: int, b: int)
    requires
        is_rgb((r, g, b)),
    ensures
        ({
            let (c, m, y, k) = rgb_to_cmyk_spec(r, g, b);
            near_rgb(cmyk_to_rgb_spec(c, m, y, k), (r, g, b), channel_slack())
        }),
{
    let top = max3(r, g, b);
    let (c, m, y, k) = rgb_to_cmyk_spec(r, g, b);
    lemma_channel_from_ink(r, top, c, k);
    lemma_channel_from_ink(g, top, m, k);
    lemma_channel_from_ink(b, top, y, k);
}

/// **A conversion away from RGB can be taken back.** A colour that is held
/// in RGB, converted to another standard and converted back to RGB holds each
/// channel to within a billionth of what it held.
pub proof fn lemma_conversion_comes_back(r: int, g: int, b: int, target: ColorStandered)
    requires
        is_rgb((r, g, b)),
    ensures
        Stored::Rgb(r, g, b).convert(target).convert(ColorStandered::Rgb).standard()
            == ColorStandered::Rgb,
        near_rgb(
            Stored::Rgb(r, g, b).convert(target).convert(ColorStandered::Rgb).rgb(),
            (r, g, b),
            channel_slack(),
        ),
{
    lemma_rgb_survives_hsl(r, g, b);
    lemma_rgb_survives_hsv(r, g, b);
    lemma_rgb_survives_cmyk(r, g, b);
}

} // verus!
