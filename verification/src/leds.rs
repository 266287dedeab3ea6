//! Rainbow animation for a strip of addressable LEDs.
use vstd::prelude::*;

verus! {

/// Number of LEDs on the strip.
pub const NUM_LEDS: usize = 1;

/// Hue advance between two frames.
pub const HUE_STEP: u8 = 4;

/// Saturation of every rainbow colour.
pub const SATURATION: u8 = 255;

/// Value (HSV brightness) of every rainbow colour.
pub const VALUE: u8 = 30;

/// Brightness limit applied before gamma correction (out of 255).
pub const BRIGHTNESS_LIMIT: u8 = 50;

/// Delay between two frames, in milliseconds.
pub const FRAME_DELAY_MS: u32 = 50;

/// Hue of LED `index` on a strip of `count` LEDs when the frame's base hue is `base`:
/// the LEDs spread evenly over the colour wheel, starting at `base`.
pub open spec fn led_hue_spec(base: u8, index: int, count: int) -> u8 {
    ((base + (index * 256 / count) % 256) % 256) as u8
}

/// Hue of the next frame.
pub open spec fn next_hue_spec(hue: u8) -> u8 {
    ((hue + HUE_STEP) % 256) as u8
}

/// Hue of LED `index` on a strip of `count` LEDs for base hue `base`.
pub fn led_hue(base: u8, index: usize, count: usize) -> (h: u8)
    requires
        index < count,
        count <= usize::MAX / 256,
    ensures
        h == led_hue_spec(base, index as int, count as int),
{
    let offset: usize = (index * 256 / count) % 256;
    base.wrapping_add(offset as u8)
}

/// Hue of the frame that follows a frame of hue `hue`.
pub fn next_hue(hue: u8) -> (h: u8)
    ensures
        h == next_hue_spec(hue),
{
    hue.wrapping_add(HUE_STEP)
}


/// A colour as three 8-bit channels.
#[derive(Clone, Copy, Debug, PartialEq, Eq, Structural)]
pub struct Rgb {
    pub r: u8,
    pub g: u8,
    pub b: u8,
}

/// A colour as hue, saturation and value, each on 8 bits.
#[derive(Clone, Copy, Debug, PartialEq, Eq, Structural)]
pub struct Hsv {
    pub hue: u8,
    pub sat: u8,
    pub val: u8,
}

impl Rgb {
    /// The colour as a triple of its channels.
    pub open spec fn channels(self) -> (u8, u8, u8) {
        (self.r, self.g, self.b)
    }

    /// The colour with these red, green and blue channels.
    pub open spec fn from_channels(c: (u8, u8, u8)) -> Rgb {
        Rgb { r: c.0, g: c.1, b: c.2 }
    }
}

/// What `smart_leds::hsv::hsv2rgb` returns for the colour with these hue,
/// saturation and value, as its red, green and blue channels: the hue picks one of
/// six sectors of the colour wheel, `f` is the position inside the sector on a
/// 0..=252 scale, and the channels are the value `v` and the three levels `p`, `q`,
/// `t` derived from it, in the order of the sector.
pub open spec fn hsv2rgb_result(hue: u8, sat: u8, val: u8) -> (u8, u8, u8) {
    let v = val as int;
    let s = sat as int;
    let f = (hue * 2 % 85) * 3;
    let p = (v * (255 - s) / 255) as u8;
    let q = (v * (255 - (s * f) / 255) / 255) as u8;
    let t = (v * (255 - (s * (255 - f)) / 255) / 255) as u8;
    let v = val;
    if hue <= 42 {
        (v, t, p)
    } else if hue <= 84 {
        (q, v, p)
    } else if hue <= 127 {
        (p, v, t)
    } else if hue <= 169 {
        (p, q, v)
    } else if hue <= 212 {
        (t, p, v)
    } else if hue <= 254 {
        (v, p, q)
    } else {
        (v, t, p)
    }
}

/// What the gamma table of `smart_leds::gamma` maps one channel value to.
pub uninterp spec fn gamma8(level: u8) -> u8;

/// One channel scaled down by `smart_leds::brightness` with limit `level`.
pub open spec fn scale_channel(v: u8, level: u8) -> u8 {
    (v * (level + 1) / 256) as u8
}

/// A colour scaled down by `smart_leds::brightness` with limit `level`.
pub open spec fn scale_color(c: Rgb, level: u8) -> Rgb {
    Rgb { r: scale_channel(c.r, level), g: scale_channel(c.g, level), b: scale_channel(c.b, level) }
}

/// A colour passed through the gamma table, channel by channel.
pub open spec fn gamma_color(c: Rgb) -> Rgb {
    Rgb { r: gamma8(c.r), g: gamma8(c.g), b: gamma8(c.b) }
}

/// The colour shown by LED `index` of a strip of `count` LEDs in the frame of hue `hue`,
/// before brightness limiting and gamma correction.
pub open spec fn rainbow_color_spec(hue: u8, index: int, count: int) -> Rgb {
    Rgb::from_channels(hsv2rgb_result(led_hue_spec(hue, index, count), SATURATION, VALUE))
}

/// The colour sent to the LED for a computed colour `c`: brightness limited first,
/// then gamma corrected.
pub open spec fn output_color_spec(c: Rgb) -> Rgb {
    gamma_color(scale_color(c, BRIGHTNESS_LIMIT))
}

/// Converts a colour with `smart_leds::hsv::hsv2rgb`. Its result is stated as
/// `hsv2rgb_result`, the integer arithmetic of the crate's source (its `u16`
/// intermediate values never overflow, and every channel is at most the value).
#[verifier::external_body]
fn hsv_to_rgb(hsv: Hsv) -> (c: Rgb)
    ensures
        c.channels() == hsv2rgb_result(hsv.hue, hsv.sat, hsv.val),
{
    let c = smart_leds::hsv::hsv2rgb(smart_leds::hsv::Hsv { hue: hsv.hue, sat: hsv.sat, val: hsv.val });
    Rgb { r: c.r, g: c.g, b: c.b }
}

/// Limits brightness with `smart_leds::brightness`: it yields one colour per input
/// colour, each channel `v` becoming `v * (level + 1) / 256`.
#[verifier::external_body]
fn limit_brightness(colors: &Vec<Rgb>, level: u8) -> (out: Vec<Rgb>)
    ensures
        out.len() == colors.len(),
        forall|i: int| 0 <= i < colors.len() ==> #[trigger] out[i] == scale_color(colors[i], level),
{
    smart_leds::brightness(colors.iter().map(|c| smart_leds::RGB8 { r: c.r, g: c.g, b: c.b }), level)
        .map(|c| Rgb { r: c.r, g: c.g, b: c.b })
        .collect()
}

/// Gamma corrects with `smart_leds::gamma`: it yields one colour per input colour,
/// each channel looked up in one fixed table, named `gamma8`.
#[verifier::external_body]
fn gamma_correct(colors: &Vec<Rgb>) -> (out: Vec<Rgb>)
    ensures
        out.len() == colors.len(),
        forall|i: int|
            0 <= i < colors.len() ==> #[trigger] out[i] == (Rgb {
                r: gamma8(colors[i].r),
                g: gamma8(colors[i].g),
                b: gamma8(colors[i].b),
            }),
{
    smart_leds::gamma(colors.iter().map(|c| smart_leds::RGB8 { r: c.r, g: c.g, b: c.b }))
        .map(|c| Rgb { r: c.r, g: c.g, b: c.b })
        .collect()
}

/// The colours of a frame of hue `hue` on a strip of `count` LEDs: LED `i` shows full
/// saturation at value 30, its hue spread from `hue` over the colour wheel.
pub fn rainbow_colors(hue: u8, count: usize) -> (colors: Vec<Rgb>)
    requires
        count <= usize::MAX / 256,
    ensures
        colors.len() == count,
        forall|i: int| 0 <= i < count ==> #[trigger] colors[i] == rainbow_color_spec(hue, i, count as int),
{
    let mut colors: Vec<Rgb> = Vec::new();
    let mut i: usize = 0;
    while i < count
        invariant
            i <= count,
            count <= usize::MAX / 256,
            colors.len() == i,
            forall|j: int| 0 <= j < i ==> #[trigger] colors[j] == rainbow_color_spec(hue, j, count as int),
        decreases count - i,
    {
        let h = led_hue(hue, i, count);
        let c = hsv_to_rgb(Hsv { hue: h, sat: SATURATION, val: VALUE });
        colors.push(c);
        i = i + 1;
    }
    colors
}

/// The colours written to the strip for the computed colours `colors`: each is
/// brightness limited to 50 out of 255, then gamma corrected.
pub fn output_frame(colors: &Vec<Rgb>) -> (out: Vec<Rgb>)
    ensures
        out.len() == colors.len(),
        forall|i: int| 0 <= i < colors.len() ==> #[trigger] out[i] == output_color_spec(colors[i]),
{
    let dimmed = limit_brightness(colors, BRIGHTNESS_LIMIT);
    gamma_correct(&dimmed)
}

/// One frame of the animation: the colours to write to the `NUM_LEDS` LEDs for hue
/// `hue`, and the hue of the next frame.
pub fn rainbow_step(hue: u8) -> (res: (Vec<Rgb>, u8))
    ensures
        res.0.len() == NUM_LEDS,
        forall|i: int| 0 <= i < NUM_LEDS ==> #[trigger] res.0[i] == output_color_spec(
            rainbow_color_spec(hue, i, NUM_LEDS as int),
        ),
        res.1 == next_hue_spec(hue),
{
    let colors = rainbow_colors(hue, NUM_LEDS);
    let out = output_frame(&colors);
    (out, next_hue(hue))
}


/// The hue after `frames` frames that start from hue `hue`.
pub open spec fn hue_after(hue: u8, frames: nat) -> u8
    decreases frames,
{
    if frames == 0 {
        hue
    } else {
        next_hue_spec(hue_after(hue, (frames - 1) as nat))
    }
}

/// After `frames` frames the hue has advanced by `4 * frames` around the colour wheel.
pub proof fn lemma_hue_after(hue: u8, frames: nat)
    ensures
        hue_after(hue, frames) == (hue + HUE_STEP * frames) % 256,
    decreases frames,
{
    if frames > 0 {
        lemma_hue_after(hue, (frames - 1) as nat);
    }
}

/// The animation is periodic: the hue comes back to its start after exactly 64 frames,
/// and not before.
pub proof fn lemma_hue_period(hue: u8, frames: nat)
    requires
        0 < frames <= 64,
    ensures
        hue_after(hue, frames) == hue <==> frames == 64,
{
    lemma_hue_after(hue, frames);
}

/// The first LED of every strip shows the frame's base hue.
pub proof fn lemma_first_led_hue(base: u8, count: int)
    requires
        count > 0,
    ensures
        led_hue_spec(base, 0, count) == base,
{
}

/// Brightness limiting never makes a channel brighter, and the limit 255 leaves it unchanged.
pub proof fn lemma_scale_channel_bounded(v: u8, level: u8)
    ensures
        scale_channel(v, level) <= v,
        level == 255 ==> scale_channel(v, level) == v,
{
    assert(v * (level + 1) <= v * 256) by (nonlinear_arith);
    assert(v * (level + 1) / 256 <= v) by (nonlinear_arith)
        requires v * (level + 1) <= v * 256;
    if level == 255 {
        assert(v * (level + 1) == v * 256) by (nonlinear_arith) requires level == 255;
    }
}


/// The hue of LED `index` is the base hue advanced by `floor(index * 256 / count)`
/// steps around the colour wheel: the offset `o` is the one whole number with
/// `o * count <= index * 256 < (o + 1) * count`, so the LEDs spread evenly over the wheel.
pub proof fn lemma_led_hue_offset(base: u8, index: int, count: int)
    requires
        0 <= index < count,
    ensures
        ({
            let o = (led_hue_spec(base, index, count) - base + 256) % 256;
            o * count <= index * 256 < (o + 1) * count
        }),
{
    let x = index * 256;
    let q = x / count;
    vstd::arithmetic::div_mod::lemma_fundamental_div_mod(x, count);
    assert(0 <= x % count < count);
    assert(count * q <= x < count * q + count);
    assert(0 <= q) by (nonlinear_arith)
        requires count * q + count > x, x >= 0, count > 0;
    assert(q < 256) by (nonlinear_arith)
        requires count * q <= x, x == index * 256, index < count, count > 0;
    assert(q % 256 == q);
    assert((led_hue_spec(base, index, count) - base + 256) % 256 == q);
    assert(q * count <= index * 256 < (q + 1) * count) by (nonlinear_arith)
        requires count * q <= x < count * q + count, x == index * 256;
}

/// On a strip with an even number of LEDs, the middle LED sits opposite the first one
/// on the colour wheel.
pub proof fn lemma_middle_led_opposite(base: u8, count: int)
    requires
        count > 0,
        count % 2 == 0,
    ensures
        led_hue_spec(base, count / 2, count) == (base + 128) % 256,
{
    let m = count / 2;
    assert(m * 256 == count * 128) by (nonlinear_arith)
        requires count == 2 * m;
    vstd::arithmetic::div_mod::lemma_div_multiples_vanish(128, count);
}

/// LED `index` of a frame of hue `hue` shows the HSV colour of full saturation and
/// value 30 whose hue is `hue` advanced by `index * 256 / count`, converted to RGB.
pub proof fn lemma_rainbow_color_of_spread_hue(hue: u8, index: int, count: int)
    requires
        0 <= index < count,
    ensures
        rainbow_color_spec(hue, index, count) == Rgb::from_channels(
            hsv2rgb_result(((hue + index * 256 / count) % 256) as u8, 255, 30),
        ),
{
    lemma_led_hue_offset(hue, index, count);
    let x = index * 256;
    vstd::arithmetic::div_mod::lemma_fundamental_div_mod(x, count);
    assert(x / count < 256) by (nonlinear_arith)
        requires count * (x / count) <= x, x == index * 256, index < count, count > 0;
    assert(x / count >= 0) by (nonlinear_arith)
        requires x >= 0, count > 0;
}

/// At full saturation the conversion of `smart_leds::hsv::hsv2rgb` walks the colour
/// wheel sector by sector: one channel is the value, one is 0, and the third ramps
/// with the position `f` inside the sector (up as `v * f / 255`, or down as
/// `v * (255 - f) / 255`).
pub proof fn lemma_hsv_full_saturation(hue: u8, val: u8)
    ensures
        ({
            let v = val as int;
            let f = (hue * 2 % 85) * 3;
            let up = (v * f / 255) as u8;
            let down = (v * (255 - f) / 255) as u8;
            let c = hsv2rgb_result(hue, 255, val);
            &&& hue <= 42 ==> c == (val, up, 0u8)
            &&& 43 <= hue <= 84 ==> c == (down, val, 0u8)
            &&& 85 <= hue <= 127 ==> c == (0u8, val, up)
            &&& 128 <= hue <= 169 ==> c == (0u8, down, val)
            &&& 170 <= hue <= 212 ==> c == (up, 0u8, val)
            &&& 213 <= hue <= 254 ==> c == (val, 0u8, down)
            &&& hue == 255 ==> c == (val, 0u8, 0u8)
        }),
{
    let f = (hue * 2 % 85) * 3;
    assert(0 <= f <= 252);
    vstd::arithmetic::div_mod::lemma_div_multiples_vanish(f, 255);
    vstd::arithmetic::div_mod::lemma_div_multiples_vanish(255 - f, 255);
    assert(255 * f / 255 == f);
    assert(255 * (255 - f) / 255 == 255 - f);
    assert(val * 0int / 255 == 0) by (nonlinear_arith);
    if hue == 255 {
        assert(f == 0);
        assert(val * 0int / 255 == 0) by (nonlinear_arith);
    }
}

} // verus!
