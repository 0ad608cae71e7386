use vstd::prelude::*;
use vstd::bytes::{
    lemma_auto_spec_u32_to_from_le_bytes, spec_u32_from_le_bytes, spec_u32_to_le_bytes,
    u32_from_le_bytes, u32_to_le_bytes,
};
use vstd::slice::slice_subrange;
use crate::floatbits::FloatBits;
use crate::settings::{
    AimProperties, AimSettings, BoxStyle, EspPlayersSettings, HealthbarSettings, RadarSettings,
    Rgba, Settings, TextAnchor, TextSettings,
};

verus! {

// A profile is the whole settings tree in one fixed-size record of 161
// bytes: booleans and enum tags as one byte each, colors as four bytes,
// floats as their four little-endian IEEE-754 pattern bytes. The decoder
// rejects nothing but a wrong length, a boolean byte other than 0 or 1,
// and an enum tag outside its variants: every float pattern — out of its
// declared editable range or not — round-trips verbatim.

/// The failures of the profile store. The codec itself reports only
/// `ParseFailure`; the file layer around it reports a missing profile as
/// `NotFound` and a failed write as `WriteFailure`.
#[derive(Clone, Copy, Debug, PartialEq, Eq, Structural)]
pub enum ProfileError {
    NotFound,
    ParseFailure,
    WriteFailure,
}

// ---------------------------------------------------------------------
// The encoding, as sequences of bytes.

pub open spec fn senc_bool(b: bool) -> Seq<u8> {
    seq![if b { 1u8 } else { 0u8 }]
}

pub open spec fn senc_u32(x: u32) -> Seq<u8> {
    spec_u32_to_le_bytes(x)
}

pub open spec fn senc_float(v: FloatBits) -> Seq<u8> {
    senc_u32(v.bits)
}

pub open spec fn senc_rgba(c: Rgba) -> Seq<u8> {
    seq![c.r, c.g, c.b, c.a]
}

pub open spec fn box_style_tag(s: BoxStyle) -> u8 {
    match s {
        BoxStyle::Plain => 0,
        BoxStyle::Rounded => 1,
        BoxStyle::Edges => 2,
    }
}

pub open spec fn senc_box_style(s: BoxStyle) -> Seq<u8> {
    seq![box_style_tag(s)]
}

pub open spec fn anchor_tag(a: TextAnchor) -> u8 {
    match a {
        TextAnchor::TopCenter => 0,
        TextAnchor::TopLeft => 1,
        TextAnchor::TopRight => 2,
        TextAnchor::BottomCenter => 3,
    }
}

pub open spec fn senc_anchor(a: TextAnchor) -> Seq<u8> {
    seq![anchor_tag(a)]
}

/// One target class, 24 bytes.
pub open spec fn senc_props(p: AimProperties) -> Seq<u8> {
    senc_bool(p.enable) + senc_bool(p.velocity_prediction) + senc_bool(p.rcs) + senc_bool(
        p.targeting,
    ) + senc_float(p.fov) + senc_float(p.smooth) + senc_float(p.velocity_div_dav) + senc_float(
        p.range,
    ) + senc_rgba(p.color)
}

/// The aim record, 56 bytes.
pub open spec fn senc_aim(a: AimSettings) -> Seq<u8> {
    senc_float(a.angle_per_pixel) + senc_props(a.players) + senc_props(a.creeps) + senc_rgba(
        a.soul_color,
    )
}

/// One text annotation record, 11 bytes.
pub open spec fn senc_text(t: TextSettings) -> Seq<u8> {
    senc_bool(t.enable) + senc_bool(t.shadow) + senc_rgba(t.font_color) + senc_float(t.font_size)
        + senc_anchor(t.align)
}

/// The flat fields of the annotation-rectangle record, 34 bytes.
pub open spec fn senc_esp_flat(e: EspPlayersSettings) -> Seq<u8> {
    senc_bool(e.render) + senc_box_style(e.box_style) + senc_bool(e.outline_rect) + senc_bool(
        e.fill_rect,
    ) + senc_bool(e.glow) + senc_bool(e.shadow) + senc_float(e.stroke_width) + senc_float(
        e.shadow_size,
    ) + senc_float(e.shadow_blur) + senc_rgba(e.outline_color) + senc_rgba(e.fill_color)
        + senc_rgba(e.glow_color) + senc_rgba(e.shadow_color)
}

/// The annotation-rectangle record, 67 bytes: the flat fields, then the
/// three text annotation records.
pub open spec fn senc_esp(e: EspPlayersSettings) -> Seq<u8> {
    senc_esp_flat(e) + senc_text(e.text_hero) + senc_text(e.text_health) + senc_text(
        e.text_distance,
    )
}

/// The radar record, 25 bytes.
pub open spec fn senc_radar(r: RadarSettings) -> Seq<u8> {
    senc_bool(r.enable) + senc_float(r.player_radius) + senc_float(r.scale) + senc_rgba(
        r.color_enemy,
    ) + senc_rgba(r.color_team) + senc_rgba(r.color_background) + senc_rgba(r.color_border)
}

/// The health-bar record, 13 bytes.
pub open spec fn senc_health(h: HealthbarSettings) -> Seq<u8> {
    senc_bool(h.enable) + senc_rgba(h.background_color) + senc_rgba(h.hp_color) + senc_rgba(
        h.outline_color,
    )
}

/// The whole tree, 161 bytes.
pub open spec fn senc_settings(s: Settings) -> Seq<u8> {
    senc_aim(s.aim) + senc_esp(s.esp_players) + senc_radar(s.radar) + senc_health(s.healthbars)
}

// ---------------------------------------------------------------------
// The decoding, by offset into a byte sequence. `svalid_*` says whether
// the bytes at the offset decode at all; `sdec_*` is what they decode to.

pub open spec fn svalid_bool(s: Seq<u8>, i: int) -> bool {
    s[i] == 0 || s[i] == 1
}

pub open spec fn sdec_bool(s: Seq<u8>, i: int) -> bool {
    s[i] == 1
}

pub open spec fn sdec_u32(s: Seq<u8>, i: int) -> u32 {
    spec_u32_from_le_bytes(s.subrange(i, i + 4))
}

pub open spec fn sdec_float(s: Seq<u8>, i: int) -> FloatBits {
    FloatBits { bits: sdec_u32(s, i) }
}

pub open spec fn sdec_rgba(s: Seq<u8>, i: int) -> Rgba {
    Rgba { r: s[i], g: s[i + 1], b: s[i + 2], a: s[i + 3] }
}

pub open spec fn svalid_box_style(s: Seq<u8>, i: int) -> bool {
    s[i] <= 2
}

pub open spec fn sdec_box_style(s: Seq<u8>, i: int) -> BoxStyle {
    if s[i] == 0 {
        BoxStyle::Plain
    } else if s[i] == 1 {
        BoxStyle::Rounded
    } else {
        BoxStyle::Edges
    }
}

pub open spec fn svalid_anchor(s: Seq<u8>, i: int) -> bool {
    s[i] <= 3
}

pub open spec fn sdec_anchor(s: Seq<u8>, i: int) -> TextAnchor {
    if s[i] == 0 {
        TextAnchor::TopCenter
    } else if s[i] == 1 {
        TextAnchor::TopLeft
    } else if s[i] == 2 {
        TextAnchor::TopRight
    } else {
        TextAnchor::BottomCenter
    }
}

pub open spec fn svalid_props(s: Seq<u8>, i: int) -> bool {
    svalid_bool(s, i) && svalid_bool(s, i + 1) && svalid_bool(s, i + 2) && svalid_bool(s, i + 3)
}

pub open spec fn sdec_props(s: Seq<u8>, i: int) -> AimProperties {
    AimProperties {
        enable: sdec_bool(s, i),
        velocity_prediction: sdec_bool(s, i + 1),
        rcs: sdec_bool(s, i + 2),
        targeting: sdec_bool(s, i + 3),
        fov: sdec_float(s, i + 4),
        smooth: sdec_float(s, i + 8),
        velocity_div_dav: sdec_float(s, i + 12),
        range: sdec_float(s, i + 16),
        color: sdec_rgba(s, i + 20),
    }
}

pub open spec fn svalid_aim(s: Seq<u8>, i: int) -> bool {
    svalid_props(s, i + 4) && svalid_props(s, i + 28)
}

pub open spec fn sdec_aim(s: Seq<u8>, i: int) -> AimSettings {
    AimSettings {
        angle_per_pixel: sdec_float(s, i),
        players: sdec_props(s, i + 4),
        creeps: sdec_props(s, i + 28),
        soul_color: sdec_rgba(s, i + 52),
    }
}

pub open spec fn svalid_text(s: Seq<u8>, i: int) -> bool {
    svalid_bool(s, i) && svalid_bool(s, i + 1) && svalid_anchor(s, i + 10)
}

pub open spec fn sdec_text(s: Seq<u8>, i: int) -> TextSettings {
    TextSettings {
        enable: sdec_bool(s, i),
        shadow: sdec_bool(s, i + 1),
        font_color: sdec_rgba(s, i + 2),
        font_size: sdec_float(s, i + 6),
        align: sdec_anchor(s, i + 10),
    }
}

pub open spec fn svalid_esp(s: Seq<u8>, i: int) -> bool {
    svalid_bool(s, i) && svalid_box_style(s, i + 1) && svalid_bool(s, i + 2) && svalid_bool(
        s,
        i + 3,
    ) && svalid_bool(s, i + 4) && svalid_bool(s, i + 5) && svalid_text(s, i + 34) && svalid_text(
        s,
        i + 45,
    ) && svalid_text(s, i + 56)
}

pub open spec fn sdec_esp(s: Seq<u8>, i: int) -> EspPlayersSettings {
    EspPlayersSettings {
        render: sdec_bool(s, i),
        box_style: sdec_box_style(s, i + 1),
        outline_rect: sdec_bool(s, i + 2),
        fill_rect: sdec_bool(s, i + 3),
        glow: sdec_bool(s, i + 4),
        shadow: sdec_bool(s, i + 5),
        stroke_width: sdec_float(s, i + 6),
        shadow_size: sdec_float(s, i + 10),
        shadow_blur: sdec_float(s, i + 14),
        outline_color: sdec_rgba(s, i + 18),
        fill_color: sdec_rgba(s, i + 22),
        glow_color: sdec_rgba(s, i + 26),
        shadow_color: sdec_rgba(s, i + 30),
        text_hero: sdec_text(s, i + 34),
        text_health: sdec_text(s, i + 45),
        text_distance: sdec_text(s, i + 56),
    }
}

pub open spec fn svalid_radar(s: Seq<u8>, i: int) -> bool {
    svalid_bool(s, i)
}

pub open spec fn sdec_radar(s: Seq<u8>, i: int) -> RadarSettings {
    RadarSettings {
        enable: sdec_bool(s, i),
        player_radius: sdec_float(s, i + 1),
        scale: sdec_float(s, i + 5),
        color_enemy: sdec_rgba(s, i + 9),
        color_team: sdec_rgba(s, i + 13),
        color_background: sdec_rgba(s, i + 17),
        color_border: sdec_rgba(s, i + 21),
    }
}

pub open spec fn svalid_health(s: Seq<u8>, i: int) -> bool {
    svalid_bool(s, i)
}

pub open spec fn sdec_health(s: Seq<u8>, i: int) -> HealthbarSettings {
    HealthbarSettings {
        enable: sdec_bool(s, i),
        background_color: sdec_rgba(s, i + 1),
        hp_color: sdec_rgba(s, i + 5),
        outline_color: sdec_rgba(s, i + 9),
    }
}

pub open spec fn svalid_settings(s: Seq<u8>, i: int) -> bool {
    svalid_aim(s, i) && svalid_esp(s, i + 56) && svalid_radar(s, i + 123) && svalid_health(
        s,
        i + 148,
    )
}

pub open spec fn sdec_settings(s: Seq<u8>, i: int) -> Settings {
    Settings {
        aim: sdec_aim(s, i),
        esp_players: sdec_esp(s, i + 56),
        radar: sdec_radar(s, i + 123),
        healthbars: sdec_health(s, i + 148),
    }
}

// ---------------------------------------------------------------------
// Exec encoders, each appending its encoding to the buffer.

fn encode_bool(out: &mut Vec<u8>, b: bool)
    ensures
        final(out)@ == old(out)@ + senc_bool(b),
{
    out.push(if b { 1 } else { 0 });
    proof {
        assert(out@ =~= old(out)@ + senc_bool(b));
    }
}

fn encode_u32(out: &mut Vec<u8>, x: u32)
    ensures
        final(out)@ == old(out)@ + senc_u32(x),
{
    let mut bytes = u32_to_le_bytes(x);
    out.append(&mut bytes);
}

fn encode_float(out: &mut Vec<u8>, v: FloatBits)
    ensures
        final(out)@ == old(out)@ + senc_float(v),
{
    encode_u32(out, v.bits);
}

fn encode_rgba(out: &mut Vec<u8>, c: Rgba)
    ensures
        final(out)@ == old(out)@ + senc_rgba(c),
{
    out.push(c.r);
    out.push(c.g);
    out.push(c.b);
    out.push(c.a);
    proof {
        assert(out@ =~= old(out)@ + senc_rgba(c));
    }
}

fn encode_box_style(out: &mut Vec<u8>, s: BoxStyle)
    ensures
        final(out)@ == old(out)@ + senc_box_style(s),
{
    let tag: u8 = match s {
        BoxStyle::Plain => 0,
        BoxStyle::Rounded => 1,
        BoxStyle::Edges => 2,
    };
    out.push(tag);
    proof {
        assert(out@ =~= old(out)@ + senc_box_style(s));
    }
}

fn encode_anchor(out: &mut Vec<u8>, a: TextAnchor)
    ensures
        final(out)@ == old(out)@ + senc_anchor(a),
{
    let tag: u8 = match a {
        TextAnchor::TopCenter => 0,
        TextAnchor::TopLeft => 1,
        TextAnchor::TopRight => 2,
        TextAnchor::BottomCenter => 3,
    };
    out.push(tag);
    proof {
        assert(out@ =~= old(out)@ + senc_anchor(a));
    }
}

fn encode_props(out: &mut Vec<u8>, p: &AimProperties)
    ensures
        final(out)@ == old(out)@ + senc_props(*p),
{
    encode_bool(out, p.enable);
    encode_bool(out, p.velocity_prediction);
    encode_bool(out, p.rcs);
    encode_bool(out, p.targeting);
    encode_float(out, p.fov);
    encode_float(out, p.smooth);
    encode_float(out, p.velocity_div_dav);
    encode_float(out, p.range);
    encode_rgba(out, p.color);
    proof {
        assert(out@ =~= old(out)@ + senc_props(*p));
    }
}

fn encode_aim(out: &mut Vec<u8>, a: &AimSettings)
    ensures
        final(out)@ == old(out)@ + senc_aim(*a),
{
    encode_float(out, a.angle_per_pixel);
    encode_props(out, &a.players);
    encode_props(out, &a.creeps);
    encode_rgba(out, a.soul_color);
    proof {
        assert(out@ =~= old(out)@ + senc_aim(*a));
    }
}

fn encode_text(out: &mut Vec<u8>, t: &TextSettings)
    ensures
        final(out)@ == old(out)@ + senc_text(*t),
{
    encode_bool(out, t.enable);
    encode_bool(out, t.shadow);
    encode_rgba(out, t.font_color);
    encode_float(out, t.font_size);
    encode_anchor(out, t.align);
    proof {
        assert(out@ =~= old(out)@ + senc_text(*t));
    }
}

#[verifier::rlimit(100)]
fn encode_esp_flat(out: &mut Vec<u8>, e: &EspPlayersSettings)
    ensures
        final(out)@ == old(out)@ + senc_esp_flat(*e),
{
    encode_bool(out, e.render);
    encode_box_style(out, e.box_style);
    encode_bool(out, e.outline_rect);
    encode_bool(out, e.fill_rect);
    encode_bool(out, e.glow);
    encode_bool(out, e.shadow);
    encode_float(out, e.stroke_width);
    encode_float(out, e.shadow_size);
    encode_float(out, e.shadow_blur);
    encode_rgba(out, e.outline_color);
    encode_rgba(out, e.fill_color);
    encode_rgba(out, e.glow_color);
    encode_rgba(out, e.shadow_color);
    proof {
        assert(out@ =~= old(out)@ + senc_esp_flat(*e));
    }
}

fn encode_esp(out: &mut Vec<u8>, e: &EspPlayersSettings)
    ensures
        final(out)@ == old(out)@ + senc_esp(*e),
{
    encode_esp_flat(out, e);
    encode_text(out, &e.text_hero);
    encode_text(out, &e.text_health);
    encode_text(out, &e.text_distance);
    proof {
        assert(out@ =~= old(out)@ + senc_esp(*e));
    }
}

fn encode_radar(out: &mut Vec<u8>, r: &RadarSettings)
    ensures
        final(out)@ == old(out)@ + senc_radar(*r),
{
    encode_bool(out, r.enable);
    encode_float(out, r.player_radius);
    encode_float(out, r.scale);
    encode_rgba(out, r.color_enemy);
    encode_rgba(out, r.color_team);
    encode_rgba(out, r.color_background);
    encode_rgba(out, r.color_border);
    proof {
        assert(out@ =~= old(out)@ + senc_radar(*r));
    }
}

fn encode_health(out: &mut Vec<u8>, h: &HealthbarSettings)
    ensures
        final(out)@ == old(out)@ + senc_health(*h),
{
    encode_bool(out, h.enable);
    encode_rgba(out, h.background_color);
    encode_rgba(out, h.hp_color);
    encode_rgba(out, h.outline_color);
    proof {
        assert(out@ =~= old(out)@ + senc_health(*h));
    }
}

/// Serializes the whole tree into its 161-byte profile form.
pub fn encode(s: &Settings) -> (out: Vec<u8>)
    ensures
        out@ == senc_settings(*s),
        out@.len() == 161,
{
    let mut out: Vec<u8> = Vec::new();
    encode_aim(&mut out, &s.aim);
    encode_esp(&mut out, &s.esp_players);
    encode_radar(&mut out, &s.radar);
    encode_health(&mut out, &s.healthbars);
    proof {
        lemma_senc_settings_len(*s);
        assert(out@ =~= senc_settings(*s));
    }
    out
}

// ---------------------------------------------------------------------
// Exec decoders, each reading at an offset.

fn decode_bool(v: &Vec<u8>, i: usize) -> (r: Result<bool, ProfileError>)
    requires
        i + 1 <= v.len(),
    ensures
        r is Ok <==> svalid_bool(v@, i as int),
        r is Ok ==> r == Ok::<bool, ProfileError>(sdec_bool(v@, i as int)),
        r is Err ==> r == Err::<bool, ProfileError>(ProfileError::ParseFailure),
{
    let b = v[i];
    if b == 0 {
        Ok(false)
    } else if b == 1 {
        Ok(true)
    } else {
        Err(ProfileError::ParseFailure)
    }
}

fn decode_u32(v: &Vec<u8>, i: usize) -> (x: u32)
    requires
        i + 4 <= v.len(),
    ensures
        x == sdec_u32(v@, i as int),
{
    let s = slice_subrange(v.as_slice(), i, i + 4);
    u32_from_le_bytes(s)
}

fn decode_float(v: &Vec<u8>, i: usize) -> (r: FloatBits)
    requires
        i + 4 <= v.len(),
    ensures
        r == sdec_float(v@, i as int),
{
    FloatBits { bits: decode_u32(v, i) }
}

fn decode_rgba(v: &Vec<u8>, i: usize) -> (c: Rgba)
    requires
        i + 4 <= v.len(),
    ensures
        c == sdec_rgba(v@, i as int),
{
    Rgba { r: v[i], g: v[i + 1], b: v[i + 2], a: v[i + 3] }
}

fn decode_box_style(v: &Vec<u8>, i: usize) -> (r: Result<BoxStyle, ProfileError>)
    requires
        i + 1 <= v.len(),
    ensures
        r is Ok <==> svalid_box_style(v@, i as int),
        r is Ok ==> r == Ok::<BoxStyle, ProfileError>(sdec_box_style(v@, i as int)),
        r is Err ==> r == Err::<BoxStyle, ProfileError>(ProfileError::ParseFailure),
{
    let tag = v[i];
    if tag == 0 {
        Ok(BoxStyle::Plain)
    } else if tag == 1 {
        Ok(BoxStyle::Rounded)
    } else if tag == 2 {
        Ok(BoxStyle::Edges)
    } else {
        Err(ProfileError::ParseFailure)
    }
}

fn decode_anchor(v: &Vec<u8>, i: usize) -> (r: Result<TextAnchor, ProfileError>)
    requires
        i + 1 <= v.len(),
    ensures
        r is Ok <==> svalid_anchor(v@, i as int),
        r is Ok ==> r == Ok::<TextAnchor, ProfileError>(sdec_anchor(v@, i as int)),
        r is Err ==> r == Err::<TextAnchor, ProfileError>(ProfileError::ParseFailure),
{
    let tag = v[i];
    if tag == 0 {
        Ok(TextAnchor::TopCenter)
    } else if tag == 1 {
        Ok(TextAnchor::TopLeft)
    } else if tag == 2 {
        Ok(TextAnchor::TopRight)
    } else if tag == 3 {
        Ok(TextAnchor::BottomCenter)
    } else {
        Err(ProfileError::ParseFailure)
    }
}

fn decode_props(v: &Vec<u8>, i: usize) -> (r: Result<AimProperties, ProfileError>)
    requires
        i + 24 <= v.len(),
    ensures
        r is Ok <==> svalid_props(v@, i as int),
        r is Ok ==> r == Ok::<AimProperties, ProfileError>(sdec_props(v@, i as int)),
        r is Err ==> r == Err::<AimProperties, ProfileError>(ProfileError::ParseFailure),
{
    let enable = match decode_bool(v, i) {
        Ok(b) => b,
        Err(e) => return Err(e),
    };
    let velocity_prediction = match decode_bool(v, i + 1) {
        Ok(b) => b,
        Err(e) => return Err(e),
    };
    let rcs = match decode_bool(v, i + 2) {
        Ok(b) => b,
        Err(e) => return Err(e),
    };
    let targeting = match decode_bool(v, i + 3) {
        Ok(b) => b,
        Err(e) => return Err(e),
    };
    let fov = decode_float(v, i + 4);
    let smooth = decode_float(v, i + 8);
    let velocity_div_dav = decode_float(v, i + 12);
    let range = decode_float(v, i + 16);
    let color = decode_rgba(v, i + 20);
    Ok(
        AimProperties {
            enable,
            velocity_prediction,
            rcs,
            targeting,
            fov,
            smooth,
            velocity_div_dav,
            range,
            color,
        },
    )
}

fn decode_aim(v: &Vec<u8>, i: usize) -> (r: Result<AimSettings, ProfileError>)
    requires
        i + 56 <= v.len(),
    ensures
        r is Ok <==> svalid_aim(v@, i as int),
        r is Ok ==> r == Ok::<AimSettings, ProfileError>(sdec_aim(v@, i as int)),
        r is Err ==> r == Err::<AimSettings, ProfileError>(ProfileError::ParseFailure),
{
    let angle_per_pixel = decode_float(v, i);
    let players = match decode_props(v, i + 4) {
        Ok(p) => p,
        Err(e) => return Err(e),
    };
    let creeps = match decode_props(v, i + 28) {
        Ok(p) => p,
        Err(e) => return Err(e),
    };
    let soul_color = decode_rgba(v, i + 52);
    Ok(AimSettings { angle_per_pixel, players, creeps, soul_color })
}

fn decode_text(v: &Vec<u8>, i: usize) -> (r: Result<TextSettings, ProfileError>)
    requires
        i + 11 <= v.len(),
    ensures
        r is Ok <==> svalid_text(v@, i as int),
        r is Ok ==> r == Ok::<TextSettings, ProfileError>(sdec_text(v@, i as int)),
        r is Err ==> r == Err::<TextSettings, ProfileError>(ProfileError::ParseFailure),
{
    let enable = match decode_bool(v, i) {
        Ok(b) => b,
        Err(e) => return Err(e),
    };
    let shadow = match decode_bool(v, i + 1) {
        Ok(b) => b,
        Err(e) => return Err(e),
    };
    let font_color = decode_rgba(v, i + 2);
    let font_size = decode_float(v, i + 6);
    let align = match decode_anchor(v, i + 10) {
        Ok(a) => a,
        Err(e) => return Err(e),
    };
    Ok(TextSettings { enable, shadow, font_color, font_size, align })
}

fn decode_esp(v: &Vec<u8>, i: usize) -> (r: Result<EspPlayersSettings, ProfileError>)
    requires
        i + 67 <= v.len(),
    ensures
        r is Ok <==> svalid_esp(v@, i as int),
        r is Ok ==> r == Ok::<EspPlayersSettings, ProfileError>(sdec_esp(v@, i as int)),
        r is Err ==> r == Err::<EspPlayersSettings, ProfileError>(ProfileError::ParseFailure),
{
    let render = match decode_bool(v, i) {
        Ok(b) => b,
        Err(e) => return Err(e),
    };
    let box_style = match decode_box_style(v, i + 1) {
        Ok(b) => b,
        Err(e) => return Err(e),
    };
    let outline_rect = match decode_bool(v, i + 2) {
        Ok(b) => b,
        Err(e) => return Err(e),
    };
    let fill_rect = match decode_bool(v, i + 3) {
        Ok(b) => b,
        Err(e) => return Err(e),
    };
    let glow = match decode_bool(v, i + 4) {
        Ok(b) => b,
        Err(e) => return Err(e),
    };
    let shadow = match decode_bool(v, i + 5) {
        Ok(b) => b,
        Err(e) => return Err(e),
    };
    let stroke_width = decode_float(v, i + 6);
    let shadow_size = decode_float(v, i + 10);
    let shadow_blur = decode_float(v, i + 14);
    let outline_color = decode_rgba(v, i + 18);
    let fill_color = decode_rgba(v, i + 22);
    let glow_color = decode_rgba(v, i + 26);
    let shadow_color = decode_rgba(v, i + 30);
    let text_hero = match decode_text(v, i + 34) {
        Ok(t) => t,
        Err(e) => return Err(e),
    };
    let text_health = match decode_text(v, i + 45) {
        Ok(t) => t,
        Err(e) => return Err(e),
    };
    let text_distance = match decode_text(v, i + 56) {
        Ok(t) => t,
        Err(e) => return Err(e),
    };
    Ok(
        EspPlayersSettings {
            render,
            box_style,
            outline_rect,
            fill_rect,
            glow,
            shadow,
            stroke_width,
            shadow_size,
            shadow_blur,
            outline_color,
            fill_color,
            glow_color,
            shadow_color,
            text_hero,
            text_health,
            text_distance,
        },
    )
}

fn decode_radar(v: &Vec<u8>, i: usize) -> (r: Result<RadarSettings, ProfileError>)
    requires
        i + 25 <= v.len(),
    ensures
        r is Ok <==> svalid_radar(v@, i as int),
        r is Ok ==> r == Ok::<RadarSettings, ProfileError>(sdec_radar(v@, i as int)),
        r is Err ==> r == Err::<RadarSettings, ProfileError>(ProfileError::ParseFailure),
{
    let enable = match decode_bool(v, i) {
        Ok(b) => b,
        Err(e) => return Err(e),
    };
    let player_radius = decode_float(v, i + 1);
    let scale = decode_float(v, i + 5);
    let color_enemy = decode_rgba(v, i + 9);
    let color_team = decode_rgba(v, i + 13);
    let color_background = decode_rgba(v, i + 17);
    let color_border = decode_rgba(v, i + 21);
    Ok(
        RadarSettings {
            enable,
            player_radius,
            scale,
            color_enemy,
            color_team,
            color_background,
            color_border,
        },
    )
}

fn decode_health(v: &Vec<u8>, i: usize) -> (r: Result<HealthbarSettings, ProfileError>)
    requires
        i + 13 <= v.len(),
    ensures
        r is Ok <==> svalid_health(v@, i as int),
        r is Ok ==> r == Ok::<HealthbarSettings, ProfileError>(sdec_health(v@, i as int)),
        r is Err ==> r == Err::<HealthbarSettings, ProfileError>(ProfileError::ParseFailure),
{
    let enable = match decode_bool(v, i) {
        Ok(b) => b,
        Err(e) => return Err(e),
    };
    let background_color = decode_rgba(v, i + 1);
    let hp_color = decode_rgba(v, i + 5);
    let outline_color = decode_rgba(v, i + 9);
    Ok(HealthbarSettings { enable, background_color, hp_color, outline_color })
}

/// Deserializes a whole tree from its profile form. Exactly the byte
/// strings of the wrong length, with a boolean byte other than 0 or 1,
/// or with an enum tag outside its variants are rejected; every float
/// pattern passes through verbatim.
pub fn decode(v: &Vec<u8>) -> (r: Result<Settings, ProfileError>)
    ensures
        v@.len() == 161 && svalid_settings(v@, 0) ==> r == Ok::<Settings, ProfileError>(
            sdec_settings(v@, 0),
        ),
        !(v@.len() == 161 && svalid_settings(v@, 0)) ==> r == Err::<Settings, ProfileError>(
            ProfileError::ParseFailure,
        ),
{
    if v.len() != 161 {
        return Err(ProfileError::ParseFailure);
    }
    let aim = match decode_aim(v, 0) {
        Ok(a) => a,
        Err(e) => return Err(e),
    };
    let esp_players = match decode_esp(v, 56) {
        Ok(a) => a,
        Err(e) => return Err(e),
    };
    let radar = match decode_radar(v, 123) {
        Ok(a) => a,
        Err(e) => return Err(e),
    };
    let healthbars = match decode_health(v, 148) {
        Ok(a) => a,
        Err(e) => return Err(e),
    };
    Ok(Settings { aim, esp_players, radar, healthbars })
}

/// Replaces the whole in-memory tree with a decoded profile. On any
/// failure the prior tree is retained unchanged and the failure is
/// returned for the caller to surface.
pub fn apply(settings: &mut Settings, v: &Vec<u8>) -> (r: Result<(), ProfileError>)
    ensures
        v@.len() == 161 && svalid_settings(v@, 0) ==> r == Ok::<(), ProfileError>(())
            && *final(settings) == sdec_settings(v@, 0),
        !(v@.len() == 161 && svalid_settings(v@, 0)) ==> r == Err::<(), ProfileError>(
            ProfileError::ParseFailure,
        ) && *final(settings) == *old(settings),
{
    match decode(v) {
        Ok(s) => {
            *settings = s;
            Ok(())
        },
        Err(e) => Err(e),
    }
}

// ---------------------------------------------------------------------
// Round-trip lemmas: the bytes an encoder wrote decode to what it was
// handed, at any offset of any enclosing sequence.

/// Splits "these bytes hold `a + b`" into the two halves.
proof fn lemma_peel(s: Seq<u8>, i: int, a: Seq<u8>, b: Seq<u8>)
    requires
        0 <= i,
        i + a.len() + b.len() <= s.len(),
        s.subrange(i, i + a.len() + b.len()) == a + b,
    ensures
        s.subrange(i, i + a.len()) == a,
        s.subrange(i + a.len(), i + a.len() + b.len()) == b,
{
    let ab = s.subrange(i, i + a.len() + b.len());
    assert forall|k: int| 0 <= k < a.len() implies s.subrange(i, i + a.len())[k] == a[k] by {
        assert(ab[k] == (a + b)[k]);
    }
    assert(s.subrange(i, i + a.len()) =~= a);
    assert forall|k: int|
        0 <= k < b.len() implies s.subrange(i + a.len(), i + a.len() + b.len())[k] == b[k] by {
        assert(ab[k + a.len()] == (a + b)[k + a.len()]);
    }
    assert(s.subrange(i + a.len(), i + a.len() + b.len()) =~= b);
}

proof fn lemma_rt_bool(s: Seq<u8>, i: int, b: bool)
    requires
        0 <= i,
        i + 1 <= s.len(),
        s.subrange(i, i + 1) == senc_bool(b),
    ensures
        svalid_bool(s, i),
        sdec_bool(s, i) == b,
{
    assert(s[i] == s.subrange(i, i + 1)[0]);
}

proof fn lemma_rt_float(s: Seq<u8>, i: int, v: FloatBits)
    requires
        0 <= i,
        i + 4 <= s.len(),
        s.subrange(i, i + 4) == senc_float(v),
    ensures
        sdec_float(s, i) == v,
{
    lemma_auto_spec_u32_to_from_le_bytes();
    assert(spec_u32_to_le_bytes(v.bits).len() == 4);
    assert(spec_u32_from_le_bytes(spec_u32_to_le_bytes(v.bits)) == v.bits);
}

proof fn lemma_rt_rgba(s: Seq<u8>, i: int, c: Rgba)
    requires
        0 <= i,
        i + 4 <= s.len(),
        s.subrange(i, i + 4) == senc_rgba(c),
    ensures
        sdec_rgba(s, i) == c,
{
    let e = s.subrange(i, i + 4);
    assert(s[i] == e[0]);
    assert(s[i + 1] == e[1]);
    assert(s[i + 2] == e[2]);
    assert(s[i + 3] == e[3]);
}

proof fn lemma_rt_box_style(s: Seq<u8>, i: int, x: BoxStyle)
    requires
        0 <= i,
        i + 1 <= s.len(),
        s.subrange(i, i + 1) == senc_box_style(x),
    ensures
        svalid_box_style(s, i),
        sdec_box_style(s, i) == x,
{
    assert(s[i] == s.subrange(i, i + 1)[0]);
}

proof fn lemma_rt_anchor(s: Seq<u8>, i: int, x: TextAnchor)
    requires
        0 <= i,
        i + 1 <= s.len(),
        s.subrange(i, i + 1) == senc_anchor(x),
    ensures
        svalid_anchor(s, i),
        sdec_anchor(s, i) == x,
{
    assert(s[i] == s.subrange(i, i + 1)[0]);
}

proof fn lemma_senc_props_len(p: AimProperties)
    ensures
        senc_props(p).len() == 24,
{
    lemma_auto_spec_u32_to_from_le_bytes();
}

proof fn lemma_rt_props(s: Seq<u8>, i: int, p: AimProperties)
    requires
        0 <= i,
        i + 24 <= s.len(),
        s.subrange(i, i + 24) == senc_props(p),
    ensures
        svalid_props(s, i),
        sdec_props(s, i) == p,
{
    lemma_auto_spec_u32_to_from_le_bytes();
    let e1 = senc_bool(p.enable);
    let e2 = senc_bool(p.velocity_prediction);
    let e3 = senc_bool(p.rcs);
    let e4 = senc_bool(p.targeting);
    let e5 = senc_float(p.fov);
    let e6 = senc_float(p.smooth);
    let e7 = senc_float(p.velocity_div_dav);
    let e8 = senc_float(p.range);
    let e9 = senc_rgba(p.color);
    lemma_peel(s, i, e1 + e2 + e3 + e4 + e5 + e6 + e7 + e8, e9);
    lemma_peel(s, i, e1 + e2 + e3 + e4 + e5 + e6 + e7, e8);
    lemma_peel(s, i, e1 + e2 + e3 + e4 + e5 + e6, e7);
    lemma_peel(s, i, e1 + e2 + e3 + e4 + e5, e6);
    lemma_peel(s, i, e1 + e2 + e3 + e4, e5);
    lemma_peel(s, i, e1 + e2 + e3, e4);
    lemma_peel(s, i, e1 + e2, e3);
    lemma_peel(s, i, e1, e2);
    lemma_rt_bool(s, i, p.enable);
    lemma_rt_bool(s, i + 1, p.velocity_prediction);
    lemma_rt_bool(s, i + 2, p.rcs);
    lemma_rt_bool(s, i + 3, p.targeting);
    lemma_rt_float(s, i + 4, p.fov);
    lemma_rt_float(s, i + 8, p.smooth);
    lemma_rt_float(s, i + 12, p.velocity_div_dav);
    lemma_rt_float(s, i + 16, p.range);
    lemma_rt_rgba(s, i + 20, p.color);
}

proof fn lemma_senc_aim_len(a: AimSettings)
    ensures
        senc_aim(a).len() == 56,
{
    lemma_auto_spec_u32_to_from_le_bytes();
    lemma_senc_props_len(a.players);
    lemma_senc_props_len(a.creeps);
}

proof fn lemma_rt_aim(s: Seq<u8>, i: int, a: AimSettings)
    requires
        0 <= i,
        i + 56 <= s.len(),
        s.subrange(i, i + 56) == senc_aim(a),
    ensures
        svalid_aim(s, i),
        sdec_aim(s, i) == a,
{
    lemma_auto_spec_u32_to_from_le_bytes();
    lemma_senc_props_len(a.players);
    lemma_senc_props_len(a.creeps);
    let e1 = senc_float(a.angle_per_pixel);
    let e2 = senc_props(a.players);
    let e3 = senc_props(a.creeps);
    let e4 = senc_rgba(a.soul_color);
    lemma_peel(s, i, e1 + e2 + e3, e4);
    lemma_peel(s, i, e1 + e2, e3);
    lemma_peel(s, i, e1, e2);
    lemma_rt_float(s, i, a.angle_per_pixel);
    lemma_rt_props(s, i + 4, a.players);
    lemma_rt_props(s, i + 28, a.creeps);
    lemma_rt_rgba(s, i + 52, a.soul_color);
}

proof fn lemma_senc_text_len(t: TextSettings)
    ensures
        senc_text(t).len() == 11,
{
    lemma_auto_spec_u32_to_from_le_bytes();
}

proof fn lemma_rt_text(s: Seq<u8>, i: int, t: TextSettings)
    requires
        0 <= i,
        i + 11 <= s.len(),
        s.subrange(i, i + 11) == senc_text(t),
    ensures
        svalid_text(s, i),
        sdec_text(s, i) == t,
{
    lemma_auto_spec_u32_to_from_le_bytes();
    let e1 = senc_bool(t.enable);
    let e2 = senc_bool(t.shadow);
    let e3 = senc_rgba(t.font_color);
    let e4 = senc_float(t.font_size);
    let e5 = senc_anchor(t.align);
    lemma_peel(s, i, e1 + e2 + e3 + e4, e5);
    lemma_peel(s, i, e1 + e2 + e3, e4);
    lemma_peel(s, i, e1 + e2, e3);
    lemma_peel(s, i, e1, e2);
    lemma_rt_bool(s, i, t.enable);
    lemma_rt_bool(s, i + 1, t.shadow);
    lemma_rt_rgba(s, i + 2, t.font_color);
    lemma_rt_float(s, i + 6, t.font_size);
    lemma_rt_anchor(s, i + 10, t.align);
}

proof fn lemma_senc_esp_len(e: EspPlayersSettings)
    ensures
        senc_esp(e).len() == 67,
{
    lemma_auto_spec_u32_to_from_le_bytes();
    lemma_senc_text_len(e.text_hero);
    lemma_senc_text_len(e.text_health);
    lemma_senc_text_len(e.text_distance);
}

#[verifier::rlimit(100)]
proof fn lemma_rt_esp(s: Seq<u8>, i: int, x: EspPlayersSettings)
    requires
        0 <= i,
        i + 67 <= s.len(),
        s.subrange(i, i + 67) == senc_esp(x),
    ensures
        svalid_esp(s, i),
        sdec_esp(s, i) == x,
{
    lemma_auto_spec_u32_to_from_le_bytes();
    lemma_senc_text_len(x.text_hero);
    lemma_senc_text_len(x.text_health);
    lemma_senc_text_len(x.text_distance);
    let e1 = senc_bool(x.render);
    let e2 = senc_box_style(x.box_style);
    let e3 = senc_bool(x.outline_rect);
    let e4 = senc_bool(x.fill_rect);
    let e5 = senc_bool(x.glow);
    let e6 = senc_bool(x.shadow);
    let e7 = senc_float(x.stroke_width);
    let e8 = senc_float(x.shadow_size);
    let e9 = senc_float(x.shadow_blur);
    let e10 = senc_rgba(x.outline_color);
    let e11 = senc_rgba(x.fill_color);
    let e12 = senc_rgba(x.glow_color);
    let e13 = senc_rgba(x.shadow_color);
    let e14 = senc_text(x.text_hero);
    let e15 = senc_text(x.text_health);
    let e16 = senc_text(x.text_distance);
    lemma_peel(
        s,
        i,
        e1 + e2 + e3 + e4 + e5 + e6 + e7 + e8 + e9 + e10 + e11 + e12 + e13 + e14 + e15,
        e16,
    );
    lemma_peel(
        s,
        i,
        e1 + e2 + e3 + e4 + e5 + e6 + e7 + e8 + e9 + e10 + e11 + e12 + e13 + e14,
        e15,
    );
    lemma_peel(s, i, e1 + e2 + e3 + e4 + e5 + e6 + e7 + e8 + e9 + e10 + e11 + e12 + e13, e14);
    lemma_peel(s, i, e1 + e2 + e3 + e4 + e5 + e6 + e7 + e8 + e9 + e10 + e11 + e12, e13);
    lemma_peel(s, i, e1 + e2 + e3 + e4 + e5 + e6 + e7 + e8 + e9 + e10 + e11, e12);
    lemma_peel(s, i, e1 + e2 + e3 + e4 + e5 + e6 + e7 + e8 + e9 + e10, e11);
    lemma_peel(s, i, e1 + e2 + e3 + e4 + e5 + e6 + e7 + e8 + e9, e10);
    lemma_peel(s, i, e1 + e2 + e3 + e4 + e5 + e6 + e7 + e8, e9);
    lemma_peel(s, i, e1 + e2 + e3 + e4 + e5 + e6 + e7, e8);
    lemma_peel(s, i, e1 + e2 + e3 + e4 + e5 + e6, e7);
    lemma_peel(s, i, e1 + e2 + e3 + e4 + e5, e6);
    lemma_peel(s, i, e1 + e2 + e3 + e4, e5);
    lemma_peel(s, i, e1 + e2 + e3, e4);
    lemma_peel(s, i, e1 + e2, e3);
    lemma_peel(s, i, e1, e2);
    lemma_rt_bool(s, i, x.render);
    lemma_rt_box_style(s, i + 1, x.box_style);
    lemma_rt_bool(s, i + 2, x.outline_rect);
    lemma_rt_bool(s, i + 3, x.fill_rect);
    lemma_rt_bool(s, i + 4, x.glow);
    lemma_rt_bool(s, i + 5, x.shadow);
    lemma_rt_float(s, i + 6, x.stroke_width);
    lemma_rt_float(s, i + 10, x.shadow_size);
    lemma_rt_float(s, i + 14, x.shadow_blur);
    lemma_rt_rgba(s, i + 18, x.outline_color);
    lemma_rt_rgba(s, i + 22, x.fill_color);
    lemma_rt_rgba(s, i + 26, x.glow_color);
    lemma_rt_rgba(s, i + 30, x.shadow_color);
    lemma_rt_text(s, i + 34, x.text_hero);
    lemma_rt_text(s, i + 45, x.text_health);
    lemma_rt_text(s, i + 56, x.text_distance);
}

proof fn lemma_senc_radar_len(r: RadarSettings)
    ensures
        senc_radar(r).len() == 25,
{
    lemma_auto_spec_u32_to_from_le_bytes();
}

proof fn lemma_rt_radar(s: Seq<u8>, i: int, x: RadarSettings)
    requires
        0 <= i,
        i + 25 <= s.len(),
        s.subrange(i, i + 25) == senc_radar(x),
    ensures
        svalid_radar(s, i),
        sdec_radar(s, i) == x,
{
    lemma_auto_spec_u32_to_from_le_bytes();
    let e1 = senc_bool(x.enable);
    let e2 = senc_float(x.player_radius);
    let e3 = senc_float(x.scale);
    let e4 = senc_rgba(x.color_enemy);
    let e5 = senc_rgba(x.color_team);
    let e6 = senc_rgba(x.color_background);
    let e7 = senc_rgba(x.color_border);
    lemma_peel(s, i, e1 + e2 + e3 + e4 + e5 + e6, e7);
    lemma_peel(s, i, e1 + e2 + e3 + e4 + e5, e6);
    lemma_peel(s, i, e1 + e2 + e3 + e4, e5);
    lemma_peel(s, i, e1 + e2 + e3, e4);
    lemma_peel(s, i, e1 + e2, e3);
    lemma_peel(s, i, e1, e2);
    lemma_rt_bool(s, i, x.enable);
    lemma_rt_float(s, i + 1, x.player_radius);
    lemma_rt_float(s, i + 5, x.scale);
    lemma_rt_rgba(s, i + 9, x.color_enemy);
    lemma_rt_rgba(s, i + 13, x.color_team);
    lemma_rt_rgba(s, i + 17, x.color_background);
    lemma_rt_rgba(s, i + 21, x.color_border);
}

proof fn lemma_senc_health_len(h: HealthbarSettings)
    ensures
        senc_health(h).len() == 13,
{
}

proof fn lemma_rt_health(s: Seq<u8>, i: int, x: HealthbarSettings)
    requires
        0 <= i,
        i + 13 <= s.len(),
        s.subrange(i, i + 13) == senc_health(x),
    ensures
        svalid_health(s, i),
        sdec_health(s, i) == x,
{
    let e1 = senc_bool(x.enable);
    let e2 = senc_rgba(x.background_color);
    let e3 = senc_rgba(x.hp_color);
    let e4 = senc_rgba(x.outline_color);
    lemma_peel(s, i, e1 + e2 + e3, e4);
    lemma_peel(s, i, e1 + e2, e3);
    lemma_peel(s, i, e1, e2);
    lemma_rt_bool(s, i, x.enable);
    lemma_rt_rgba(s, i + 1, x.background_color);
    lemma_rt_rgba(s, i + 5, x.hp_color);
    lemma_rt_rgba(s, i + 9, x.outline_color);
}

proof fn lemma_senc_settings_len(s: Settings)
    ensures
        senc_settings(s).len() == 161,
{
    lemma_senc_aim_len(s.aim);
    lemma_senc_esp_len(s.esp_players);
    lemma_senc_radar_len(s.radar);
    lemma_senc_health_len(s.healthbars);
}

proof fn lemma_rt_settings(s: Seq<u8>, i: int, x: Settings)
    requires
        0 <= i,
        i + 161 <= s.len(),
        s.subrange(i, i + 161) == senc_settings(x),
    ensures
        svalid_settings(s, i),
        sdec_settings(s, i) == x,
{
    lemma_senc_aim_len(x.aim);
    lemma_senc_esp_len(x.esp_players);
    lemma_senc_radar_len(x.radar);
    lemma_senc_health_len(x.healthbars);
    let e1 = senc_aim(x.aim);
    let e2 = senc_esp(x.esp_players);
    let e3 = senc_radar(x.radar);
    let e4 = senc_health(x.healthbars);
    lemma_peel(s, i, e1 + e2 + e3, e4);
    lemma_peel(s, i, e1 + e2, e3);
    lemma_peel(s, i, e1, e2);
    lemma_rt_aim(s, i, x.aim);
    lemma_rt_esp(s, i + 56, x.esp_players);
    lemma_rt_radar(s, i + 123, x.radar);
    lemma_rt_health(s, i + 148, x.healthbars);
}

/// Law (profile round trip): encoding any tree the model can hold and
/// decoding the result gives back a tree equal to the encoded one in
/// every field — for any tree, default-constructed or edited, in range
/// or out of it.
pub proof fn lemma_profile_round_trip(s: Settings)
    ensures
        senc_settings(s).len() == 161,
        svalid_settings(senc_settings(s), 0),
        sdec_settings(senc_settings(s), 0) == s,
{
    let bytes = senc_settings(s);
    lemma_senc_settings_len(s);
    assert(bytes.subrange(0, 161) =~= bytes);
    lemma_rt_settings(bytes, 0, s);
}

} // verus!
