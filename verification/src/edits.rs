use vstd::prelude::*;
use crate::floatbits::FloatBits;
use crate::settings::{
    AimProperties, AimSettings, BoxStyle, EspPlayersSettings, HealthbarSettings, RadarSettings,
    Rgba, Settings, TextAnchor, TextSettings,
};

verus! {

// The edit surface: the presentation layer mutates the tree one field at
// a time — a slider drag, a checkbox toggle, a color pick — and every
// such write is immediate, with no draft state. Each record has an
// enumeration of its fields, an enumeration of the edits it accepts (one
// variant per editable field, carrying the new value), and an `apply`
// that performs exactly that write. The one field no edit reaches is
// `angle_per_pixel`: only the calibration flow writes it.

/// The value held by one field of the tree, whatever its type.
#[derive(Clone, Copy, Debug, PartialEq, Eq, Structural)]
pub enum FieldValue {
    Flag(bool),
    Num(FloatBits),
    Color(Rgba),
    Style(BoxStyle),
    Anchor(TextAnchor),
}

// ---------------------------------------------------------------------
// One target class.

#[derive(Clone, Copy, Debug, PartialEq, Eq, Structural)]
pub enum PropField {
    Enable,
    VelocityPrediction,
    Rcs,
    Targeting,
    Fov,
    Smooth,
    VelocityDivDav,
    Range,
    Color,
}

#[derive(Clone, Copy, Debug, PartialEq, Eq, Structural)]
pub enum PropEdit {
    Enable(bool),
    VelocityPrediction(bool),
    Rcs(bool),
    Targeting(bool),
    Fov(FloatBits),
    Smooth(FloatBits),
    VelocityDivDav(FloatBits),
    Range(FloatBits),
    Color(Rgba),
}

impl PropEdit {
    pub open spec fn target(self) -> PropField {
        match self {
            PropEdit::Enable(_) => PropField::Enable,
            PropEdit::VelocityPrediction(_) => PropField::VelocityPrediction,
            PropEdit::Rcs(_) => PropField::Rcs,
            PropEdit::Targeting(_) => PropField::Targeting,
            PropEdit::Fov(_) => PropField::Fov,
            PropEdit::Smooth(_) => PropField::Smooth,
            PropEdit::VelocityDivDav(_) => PropField::VelocityDivDav,
            PropEdit::Range(_) => PropField::Range,
            PropEdit::Color(_) => PropField::Color,
        }
    }

    pub open spec fn value(self) -> FieldValue {
        match self {
            PropEdit::Enable(b) => FieldValue::Flag(b),
            PropEdit::VelocityPrediction(b) => FieldValue::Flag(b),
            PropEdit::Rcs(b) => FieldValue::Flag(b),
            PropEdit::Targeting(b) => FieldValue::Flag(b),
            PropEdit::Fov(v) => FieldValue::Num(v),
            PropEdit::Smooth(v) => FieldValue::Num(v),
            PropEdit::VelocityDivDav(v) => FieldValue::Num(v),
            PropEdit::Range(v) => FieldValue::Num(v),
            PropEdit::Color(c) => FieldValue::Color(c),
        }
    }
}

impl AimProperties {
    pub open spec fn read_field(self, f: PropField) -> FieldValue {
        match f {
            PropField::Enable => FieldValue::Flag(self.enable),
            PropField::VelocityPrediction => FieldValue::Flag(self.velocity_prediction),
            PropField::Rcs => FieldValue::Flag(self.rcs),
            PropField::Targeting => FieldValue::Flag(self.targeting),
            PropField::Fov => FieldValue::Num(self.fov),
            PropField::Smooth => FieldValue::Num(self.smooth),
            PropField::VelocityDivDav => FieldValue::Num(self.velocity_div_dav),
            PropField::Range => FieldValue::Num(self.range),
            PropField::Color => FieldValue::Color(self.color),
        }
    }

    pub open spec fn spec_apply(self, e: PropEdit) -> AimProperties {
        match e {
            PropEdit::Enable(b) => AimProperties { enable: b, ..self },
            PropEdit::VelocityPrediction(b) => AimProperties { velocity_prediction: b, ..self },
            PropEdit::Rcs(b) => AimProperties { rcs: b, ..self },
            PropEdit::Targeting(b) => AimProperties { targeting: b, ..self },
            PropEdit::Fov(v) => AimProperties { fov: v, ..self },
            PropEdit::Smooth(v) => AimProperties { smooth: v, ..self },
            PropEdit::VelocityDivDav(v) => AimProperties { velocity_div_dav: v, ..self },
            PropEdit::Range(v) => AimProperties { range: v, ..self },
            PropEdit::Color(c) => AimProperties { color: c, ..self },
        }
    }

    pub fn apply(&mut self, e: PropEdit)
        ensures
            *final(self) == old(self).spec_apply(e),
    {
        match e {
            PropEdit::Enable(b) => self.enable = b,
            PropEdit::VelocityPrediction(b) => self.velocity_prediction = b,
            PropEdit::Rcs(b) => self.rcs = b,
            PropEdit::Targeting(b) => self.targeting = b,
            PropEdit::Fov(v) => self.fov = v,
            PropEdit::Smooth(v) => self.smooth = v,
            PropEdit::VelocityDivDav(v) => self.velocity_div_dav = v,
            PropEdit::Range(v) => self.range = v,
            PropEdit::Color(c) => self.color = c,
        }
    }
}

pub proof fn lemma_prop_edit_touches_one_field(p: AimProperties, e: PropEdit, f: PropField)
    ensures
        p.spec_apply(e).read_field(e.target()) == e.value(),
        f != e.target() ==> p.spec_apply(e).read_field(f) == p.read_field(f),
{
}

// ---------------------------------------------------------------------
// One text annotation record.

#[derive(Clone, Copy, Debug, PartialEq, Eq, Structural)]
pub enum TextField {
    Enable,
    Shadow,
    FontColor,
    FontSize,
    Align,
}

#[derive(Clone, Copy, Debug, PartialEq, Eq, Structural)]
pub enum TextEdit {
    Enable(bool),
    Shadow(bool),
    FontColor(Rgba),
    FontSize(FloatBits),
    Align(TextAnchor),
}

impl TextEdit {
    pub open spec fn target(self) -> TextField {
        match self {
            TextEdit::Enable(_) => TextField::Enable,
            TextEdit::Shadow(_) => TextField::Shadow,
            TextEdit::FontColor(_) => TextField::FontColor,
            TextEdit::FontSize(_) => TextField::FontSize,
            TextEdit::Align(_) => TextField::Align,
        }
    }

    pub open spec fn value(self) -> FieldValue {
        match self {
            TextEdit::Enable(b) => FieldValue::Flag(b),
            TextEdit::Shadow(b) => FieldValue::Flag(b),
            TextEdit::FontColor(c) => FieldValue::Color(c),
            TextEdit::FontSize(v) => FieldValue::Num(v),
            TextEdit::Align(a) => FieldValue::Anchor(a),
        }
    }
}

impl TextSettings {
    pub open spec fn read_field(self, f: TextField) -> FieldValue {
        match f {
            TextField::Enable => FieldValue::Flag(self.enable),
            TextField::Shadow => FieldValue::Flag(self.shadow),
            TextField::FontColor => FieldValue::Color(self.font_color),
            TextField::FontSize => FieldValue::Num(self.font_size),
            TextField::Align => FieldValue::Anchor(self.align),
        }
    }

    pub open spec fn spec_apply(self, e: TextEdit) -> TextSettings {
        match e {
            TextEdit::Enable(b) => TextSettings { enable: b, ..self },
            TextEdit::Shadow(b) => TextSettings { shadow: b, ..self },
            TextEdit::FontColor(c) => TextSettings { font_color: c, ..self },
            TextEdit::FontSize(v) => TextSettings { font_size: v, ..self },
            TextEdit::Align(a) => TextSettings { align: a, ..self },
        }
    }

    pub fn apply(&mut self, e: TextEdit)
        ensures
            *final(self) == old(self).spec_apply(e),
    {
        match e {
            TextEdit::Enable(b) => self.enable = b,
            TextEdit::Shadow(b) => self.shadow = b,
            TextEdit::FontColor(c) => self.font_color = c,
            TextEdit::FontSize(v) => self.font_size = v,
            TextEdit::Align(a) => self.align = a,
        }
    }
}

pub proof fn lemma_text_edit_touches_one_field(t: TextSettings, e: TextEdit, f: TextField)
    ensures
        t.spec_apply(e).read_field(e.target()) == e.value(),
        f != e.target() ==> t.spec_apply(e).read_field(f) == t.read_field(f),
{
}

// ---------------------------------------------------------------------
// The aim record. `angle_per_pixel` is a readable field but has no edit:
// only the calibration flow writes it.

#[derive(Clone, Copy, Debug, PartialEq, Eq, Structural)]
pub enum AimField {
    AnglePerPixel,
    Players(PropField),
    Creeps(PropField),
    SoulColor,
}

#[derive(Clone, Copy, Debug, PartialEq, Eq, Structural)]
pub enum AimEdit {
    Players(PropEdit),
    Creeps(PropEdit),
    SoulColor(Rgba),
}

impl AimEdit {
    pub open spec fn target(self) -> AimField {
        match self {
            AimEdit::Players(e) => AimField::Players(e.target()),
            AimEdit::Creeps(e) => AimField::Creeps(e.target()),
            AimEdit::SoulColor(_) => AimField::SoulColor,
        }
    }

    pub open spec fn value(self) -> FieldValue {
        match self {
            AimEdit::Players(e) => e.value(),
            AimEdit::Creeps(e) => e.value(),
            AimEdit::SoulColor(c) => FieldValue::Color(c),
        }
    }
}

impl AimSettings {
    pub open spec fn read_field(self, f: AimField) -> FieldValue {
        match f {
            AimField::AnglePerPixel => FieldValue::Num(self.angle_per_pixel),
            AimField::Players(pf) => self.players.read_field(pf),
            AimField::Creeps(pf) => self.creeps.read_field(pf),
            AimField::SoulColor => FieldValue::Color(self.soul_color),
        }
    }

    pub open spec fn spec_apply(self, e: AimEdit) -> AimSettings {
        match e {
            AimEdit::Players(pe) => AimSettings { players: self.players.spec_apply(pe), ..self },
            AimEdit::Creeps(pe) => AimSettings { creeps: self.creeps.spec_apply(pe), ..self },
            AimEdit::SoulColor(c) => AimSettings { soul_color: c, ..self },
        }
    }

    pub fn apply(&mut self, e: AimEdit)
        ensures
            *final(self) == old(self).spec_apply(e),
    {
        match e {
            AimEdit::Players(pe) => self.players.apply(pe),
            AimEdit::Creeps(pe) => self.creeps.apply(pe),
            AimEdit::SoulColor(c) => self.soul_color = c,
        }
    }
}

pub proof fn lemma_aim_edit_touches_one_field(a: AimSettings, e: AimEdit, f: AimField)
    ensures
        a.spec_apply(e).read_field(e.target()) == e.value(),
        f != e.target() ==> a.spec_apply(e).read_field(f) == a.read_field(f),
        a.spec_apply(e).angle_per_pixel == a.angle_per_pixel,
{
    match e {
        AimEdit::Players(pe) => {
            lemma_prop_edit_touches_one_field(a.players, pe, pe.target());
            if let AimField::Players(pf) = f {
                lemma_prop_edit_touches_one_field(a.players, pe, pf);
            }
        },
        AimEdit::Creeps(pe) => {
            lemma_prop_edit_touches_one_field(a.creeps, pe, pe.target());
            if let AimField::Creeps(pf) = f {
                lemma_prop_edit_touches_one_field(a.creeps, pe, pf);
            }
        },
        AimEdit::SoulColor(_) => {},
    }
}

// ---------------------------------------------------------------------
// The annotation-rectangle record.

#[derive(Clone, Copy, Debug, PartialEq, Eq, Structural)]
pub enum EspField {
    Render,
    Style,
    OutlineRect,
    FillRect,
    Glow,
    Shadow,
    StrokeWidth,
    ShadowSize,
    ShadowBlur,
    OutlineColor,
    FillColor,
    GlowColor,
    ShadowColor,
    TextHero(TextField),
    TextHealth(TextField),
    TextDistance(TextField),
}

#[derive(Clone, Copy, Debug, PartialEq, Eq, Structural)]
pub enum EspEdit {
    Render(bool),
    Style(BoxStyle),
    OutlineRect(bool),
    FillRect(bool),
    Glow(bool),
    Shadow(bool),
    StrokeWidth(FloatBits),
    ShadowSize(FloatBits),
    ShadowBlur(FloatBits),
    OutlineColor(Rgba),
    FillColor(Rgba),
    GlowColor(Rgba),
    ShadowColor(Rgba),
    TextHero(TextEdit),
    TextHealth(TextEdit),
    TextDistance(TextEdit),
}

impl EspEdit {
    pub open spec fn target(self) -> EspField {
        match self {
            EspEdit::Render(_) => EspField::Render,
            EspEdit::Style(_) => EspField::Style,
            EspEdit::OutlineRect(_) => EspField::OutlineRect,
            EspEdit::FillRect(_) => EspField::FillRect,
            EspEdit::Glow(_) => EspField::Glow,
            EspEdit::Shadow(_) => EspField::Shadow,
            EspEdit::StrokeWidth(_) => EspField::StrokeWidth,
            EspEdit::ShadowSize(_) => EspField::ShadowSize,
            EspEdit::ShadowBlur(_) => EspField::ShadowBlur,
            EspEdit::OutlineColor(_) => EspField::OutlineColor,
            EspEdit::FillColor(_) => EspField::FillColor,
            EspEdit::GlowColor(_) => EspField::GlowColor,
            EspEdit::ShadowColor(_) => EspField::ShadowColor,
            EspEdit::TextHero(e) => EspField::TextHero(e.target()),
            EspEdit::TextHealth(e) => EspField::TextHealth(e.target()),
            EspEdit::TextDistance(e) => EspField::TextDistance(e.target()),
        }
    }

    pub open spec fn value(self) -> FieldValue {
        match self {
            EspEdit::Render(b) => FieldValue::Flag(b),
            EspEdit::Style(s) => FieldValue::Style(s),
            EspEdit::OutlineRect(b) => FieldValue::Flag(b),
            EspEdit::FillRect(b) => FieldValue::Flag(b),
            EspEdit::Glow(b) => FieldValue::Flag(b),
            EspEdit::Shadow(b) => FieldValue::Flag(b),
            EspEdit::StrokeWidth(v) => FieldValue::Num(v),
            EspEdit::ShadowSize(v) => FieldValue::Num(v),
            EspEdit::ShadowBlur(v) => FieldValue::Num(v),
            EspEdit::OutlineColor(c) => FieldValue::Color(c),
            EspEdit::FillColor(c) => FieldValue::Color(c),
            EspEdit::GlowColor(c) => FieldValue::Color(c),
            EspEdit::ShadowColor(c) => FieldValue::Color(c),
            EspEdit::TextHero(e) => e.value(),
            EspEdit::TextHealth(e) => e.value(),
            EspEdit::TextDistance(e) => e.value(),
        }
    }
}

impl EspPlayersSettings {
    pub open spec fn read_field(self, f: EspField) -> FieldValue {
        match f {
            EspField::Render => FieldValue::Flag(self.render),
            EspField::Style => FieldValue::Style(self.box_style),
            EspField::OutlineRect => FieldValue::Flag(self.outline_rect),
            EspField::FillRect => FieldValue::Flag(self.fill_rect),
            EspField::Glow => FieldValue::Flag(self.glow),
            EspField::Shadow => FieldValue::Flag(self.shadow),
            EspField::StrokeWidth => FieldValue::Num(self.stroke_width),
            EspField::ShadowSize => FieldValue::Num(self.shadow_size),
            EspField::ShadowBlur => FieldValue::Num(self.shadow_blur),
            EspField::OutlineColor => FieldValue::Color(self.outline_color),
            EspField::FillColor => FieldValue::Color(self.fill_color),
            EspField::GlowColor => FieldValue::Color(self.glow_color),
            EspField::ShadowColor => FieldValue::Color(self.shadow_color),
            EspField::TextHero(tf) => self.text_hero.read_field(tf),
            EspField::TextHealth(tf) => self.text_health.read_field(tf),
            EspField::TextDistance(tf) => self.text_distance.read_field(tf),
        }
    }

    pub open spec fn spec_apply(self, e: EspEdit) -> EspPlayersSettings {
        match e {
            EspEdit::Render(b) => EspPlayersSettings { render: b, ..self },
            EspEdit::Style(s) => EspPlayersSettings { box_style: s, ..self },
            EspEdit::OutlineRect(b) => EspPlayersSettings { outline_rect: b, ..self },
            EspEdit::FillRect(b) => EspPlayersSettings { fill_rect: b, ..self },
            EspEdit::Glow(b) => EspPlayersSettings { glow: b, ..self },
            EspEdit::Shadow(b) => EspPlayersSettings { shadow: b, ..self },
            EspEdit::StrokeWidth(v) => EspPlayersSettings { stroke_width: v, ..self },
            EspEdit::ShadowSize(v) => EspPlayersSettings { shadow_size: v, ..self },
            EspEdit::ShadowBlur(v) => EspPlayersSettings { shadow_blur: v, ..self },
            EspEdit::OutlineColor(c) => EspPlayersSettings { outline_color: c, ..self },
            EspEdit::FillColor(c) => EspPlayersSettings { fill_color: c, ..self },
            EspEdit::GlowColor(c) => EspPlayersSettings { glow_color: c, ..self },
            EspEdit::ShadowColor(c) => EspPlayersSettings { shadow_color: c, ..self },
            EspEdit::TextHero(te) => EspPlayersSettings {
                text_hero: self.text_hero.spec_apply(te),
                ..self
            },
            EspEdit::TextHealth(te) => EspPlayersSettings {
                text_health: self.text_health.spec_apply(te),
                ..self
            },
            EspEdit::TextDistance(te) => EspPlayersSettings {
                text_distance: self.text_distance.spec_apply(te),
                ..self
            },
        }
    }

    pub fn apply(&mut self, e: EspEdit)
        ensures
            *final(self) == old(self).spec_apply(e),
    {
        match e {
            EspEdit::Render(b) => self.render = b,
            EspEdit::Style(s) => self.box_style = s,
            EspEdit::OutlineRect(b) => self.outline_rect = b,
            EspEdit::FillRect(b) => self.fill_rect = b,
            EspEdit::Glow(b) => self.glow = b,
            EspEdit::Shadow(b) => self.shadow = b,
            EspEdit::StrokeWidth(v) => self.stroke_width = v,
            EspEdit::ShadowSize(v) => self.shadow_size = v,
            EspEdit::ShadowBlur(v) => self.shadow_blur = v,
            EspEdit::OutlineColor(c) => self.outline_color = c,
            EspEdit::FillColor(c) => self.fill_color = c,
            EspEdit::GlowColor(c) => self.glow_color = c,
            EspEdit::ShadowColor(c) => self.shadow_color = c,
            EspEdit::TextHero(te) => self.text_hero.apply(te),
            EspEdit::TextHealth(te) => self.text_health.apply(te),
            EspEdit::TextDistance(te) => self.text_distance.apply(te),
        }
    }
}

#[verifier::rlimit(100)]
pub proof fn lemma_esp_edit_touches_one_field(x: EspPlayersSettings, e: EspEdit, f: EspField)
    ensures
        x.spec_apply(e).read_field(e.target()) == e.value(),
        f != e.target() ==> x.spec_apply(e).read_field(f) == x.read_field(f),
{
    match e {
        EspEdit::TextHero(te) => {
            lemma_text_edit_touches_one_field(x.text_hero, te, te.target());
            if let EspField::TextHero(tf) = f {
                lemma_text_edit_touches_one_field(x.text_hero, te, tf);
            }
        },
        EspEdit::TextHealth(te) => {
            lemma_text_edit_touches_one_field(x.text_health, te, te.target());
            if let EspField::TextHealth(tf) = f {
                lemma_text_edit_touches_one_field(x.text_health, te, tf);
            }
        },
        EspEdit::TextDistance(te) => {
            lemma_text_edit_touches_one_field(x.text_distance, te, te.target());
            if let EspField::TextDistance(tf) = f {
                lemma_text_edit_touches_one_field(x.text_distance, te, tf);
            }
        },
        _ => {},
    }
}

// ---------------------------------------------------------------------
// The radar record.

#[derive(Clone, Copy, Debug, PartialEq, Eq, Structural)]
pub enum RadarField {
    Enable,
    PlayerRadius,
    Scale,
    ColorEnemy,
    ColorTeam,
    ColorBackground,
    ColorBorder,
}

#[derive(Clone, Copy, Debug, PartialEq, Eq, Structural)]
pub enum RadarEdit {
    Enable(bool),
    PlayerRadius(FloatBits),
    Scale(FloatBits),
    ColorEnemy(Rgba),
    ColorTeam(Rgba),
    ColorBackground(Rgba),
    ColorBorder(Rgba),
}

impl RadarEdit {
    pub open spec fn target(self) -> RadarField {
        match self {
            RadarEdit::Enable(_) => RadarField::Enable,
            RadarEdit::PlayerRadius(_) => RadarField::PlayerRadius,
            RadarEdit::Scale(_) => RadarField::Scale,
            RadarEdit::ColorEnemy(_) => RadarField::ColorEnemy,
            RadarEdit::ColorTeam(_) => RadarField::ColorTeam,
            RadarEdit::ColorBackground(_) => RadarField::ColorBackground,
            RadarEdit::ColorBorder(_) => RadarField::ColorBorder,
        }
    }

    pub open spec fn value(self) -> FieldValue {
        match self {
            RadarEdit::Enable(b) => FieldValue::Flag(b),
            RadarEdit::PlayerRadius(v) => FieldValue::Num(v),
            RadarEdit::Scale(v) => FieldValue::Num(v),
            RadarEdit::ColorEnemy(c) => FieldValue::Color(c),
            RadarEdit::ColorTeam(c) => FieldValue::Color(c),
            RadarEdit::ColorBackground(c) => FieldValue::Color(c),
            RadarEdit::ColorBorder(c) => FieldValue::Color(c),
        }
    }
}

impl RadarSettings {
    pub open spec fn read_field(self, f: RadarField) -> FieldValue {
        match f {
            RadarField::Enable => FieldValue::Flag(self.enable),
            RadarField::PlayerRadius => FieldValue::Num(self.player_radius),
            RadarField::Scale => FieldValue::Num(self.scale),
            RadarField::ColorEnemy => FieldValue::Color(self.color_enemy),
            RadarField::ColorTeam => FieldValue::Color(self.color_team),
            RadarField::ColorBackground => FieldValue::Color(self.color_background),
            RadarField::ColorBorder => FieldValue::Color(self.color_border),
        }
    }

    pub open spec fn spec_apply(self, e: RadarEdit) -> RadarSettings {
        match e {
            RadarEdit::Enable(b) => RadarSettings { enable: b, ..self },
            RadarEdit::PlayerRadius(v) => RadarSettings { player_radius: v, ..self },
            RadarEdit::Scale(v) => RadarSettings { scale: v, ..self },
            RadarEdit::ColorEnemy(c) => RadarSettings { color_enemy: c, ..self },
            RadarEdit::ColorTeam(c) => RadarSettings { color_team: c, ..self },
            RadarEdit::ColorBackground(c) => RadarSettings { color_background: c, ..self },
            RadarEdit::ColorBorder(c) => RadarSettings { color_border: c, ..self },
        }
    }

    pub fn apply(&mut self, e: RadarEdit)
        ensures
            *final(self) == old(self).spec_apply(e),
    {
        match e {
            RadarEdit::Enable(b) => self.enable = b,
            RadarEdit::PlayerRadius(v) => self.player_radius = v,
            RadarEdit::Scale(v) => self.scale = v,
            RadarEdit::ColorEnemy(c) => self.color_enemy = c,
            RadarEdit::ColorTeam(c) => self.color_team = c,
            RadarEdit::ColorBackground(c) => self.color_background = c,
            RadarEdit::ColorBorder(c) => self.color_border = c,
        }
    }
}

pub proof fn lemma_radar_edit_touches_one_field(r: RadarSettings, e: RadarEdit, f: RadarField)
    ensures
        r.spec_apply(e).read_field(e.target()) == e.value(),
        f != e.target() ==> r.spec_apply(e).read_field(f) == r.read_field(f),
{
}

// ---------------------------------------------------------------------
// The health-bar record.

#[derive(Clone, Copy, Debug, PartialEq, Eq, Structural)]
pub enum HealthField {
    Enable,
    BackgroundColor,
    HpColor,
    OutlineColor,
}

#[derive(Clone, Copy, Debug, PartialEq, Eq, Structural)]
pub enum HealthEdit {
    Enable(bool),
    BackgroundColor(Rgba),
    HpColor(Rgba),
    OutlineColor(Rgba),
}

impl HealthEdit {
    pub open spec fn target(self) -> HealthField {
        match self {
            HealthEdit::Enable(_) => HealthField::Enable,
            HealthEdit::BackgroundColor(_) => HealthField::BackgroundColor,
            HealthEdit::HpColor(_) => HealthField::HpColor,
            HealthEdit::OutlineColor(_) => HealthField::OutlineColor,
        }
    }

    pub open spec fn value(self) -> FieldValue {
        match self {
            HealthEdit::Enable(b) => FieldValue::Flag(b),
            HealthEdit::BackgroundColor(c) => FieldValue::Color(c),
            HealthEdit::HpColor(c) => FieldValue::Color(c),
            HealthEdit::OutlineColor(c) => FieldValue::Color(c),
        }
    }
}

impl HealthbarSettings {
    pub open spec fn read_field(self, f: HealthField) -> FieldValue {
        match f {
            HealthField::Enable => FieldValue::Flag(self.enable),
            HealthField::BackgroundColor => FieldValue::Color(self.background_color),
            HealthField::HpColor => FieldValue::Color(self.hp_color),
            HealthField::OutlineColor => FieldValue::Color(self.outline_color),
        }
    }

    pub open spec fn spec_apply(self, e: HealthEdit) -> HealthbarSettings {
        match e {
            HealthEdit::Enable(b) => HealthbarSettings { enable: b, ..self },
            HealthEdit::BackgroundColor(c) => HealthbarSettings { background_color: c, ..self },
            HealthEdit::HpColor(c) => HealthbarSettings { hp_color: c, ..self },
            HealthEdit::OutlineColor(c) => HealthbarSettings { outline_color: c, ..self },
        }
    }

    pub fn apply(&mut self, e: HealthEdit)
        ensures
            *final(self) == old(self).spec_apply(e),
    {
        match e {
            HealthEdit::Enable(b) => self.enable = b,
            HealthEdit::BackgroundColor(c) => self.background_color = c,
            HealthEdit::HpColor(c) => self.hp_color = c,
            HealthEdit::OutlineColor(c) => self.outline_color = c,
        }
    }
}

pub proof fn lemma_health_edit_touches_one_field(h: HealthbarSettings, e: HealthEdit, f: HealthField)
    ensures
        h.spec_apply(e).read_field(e.target()) == e.value(),
        f != e.target() ==> h.spec_apply(e).read_field(f) == h.read_field(f),
{
}

// ---------------------------------------------------------------------
// The whole tree.

#[derive(Clone, Copy, Debug, PartialEq, Eq, Structural)]
pub enum SettingsField {
    Aim(AimField),
    EspPlayers(EspField),
    Radar(RadarField),
    Healthbars(HealthField),
}

#[derive(Clone, Copy, Debug, PartialEq, Eq, Structural)]
pub enum SettingsEdit {
    Aim(AimEdit),
    EspPlayers(EspEdit),
    Radar(RadarEdit),
    Healthbars(HealthEdit),
}

impl SettingsEdit {
    pub open spec fn target(self) -> SettingsField {
        match self {
            SettingsEdit::Aim(e) => SettingsField::Aim(e.target()),
            SettingsEdit::EspPlayers(e) => SettingsField::EspPlayers(e.target()),
            SettingsEdit::Radar(e) => SettingsField::Radar(e.target()),
            SettingsEdit::Healthbars(e) => SettingsField::Healthbars(e.target()),
        }
    }

    pub open spec fn value(self) -> FieldValue {
        match self {
            SettingsEdit::Aim(e) => e.value(),
            SettingsEdit::EspPlayers(e) => e.value(),
            SettingsEdit::Radar(e) => e.value(),
            SettingsEdit::Healthbars(e) => e.value(),
        }
    }
}

impl Settings {
    pub open spec fn read_field(self, f: SettingsField) -> FieldValue {
        match f {
            SettingsField::Aim(af) => self.aim.read_field(af),
            SettingsField::EspPlayers(ef) => self.esp_players.read_field(ef),
            SettingsField::Radar(rf) => self.radar.read_field(rf),
            SettingsField::Healthbars(hf) => self.healthbars.read_field(hf),
        }
    }

    pub open spec fn spec_apply(self, e: SettingsEdit) -> Settings {
        match e {
            SettingsEdit::Aim(ae) => Settings { aim: self.aim.spec_apply(ae), ..self },
            SettingsEdit::EspPlayers(ee) => Settings {
                esp_players: self.esp_players.spec_apply(ee),
                ..self
            },
            SettingsEdit::Radar(re) => Settings { radar: self.radar.spec_apply(re), ..self },
            SettingsEdit::Healthbars(he) => Settings {
                healthbars: self.healthbars.spec_apply(he),
                ..self
            },
        }
    }

    /// Performs one live edit: exactly the targeted field changes.
    pub fn apply(&mut self, e: SettingsEdit)
        ensures
            *final(self) == old(self).spec_apply(e),
    {
        match e {
            SettingsEdit::Aim(ae) => self.aim.apply(ae),
            SettingsEdit::EspPlayers(ee) => self.esp_players.apply(ee),
            SettingsEdit::Radar(re) => self.radar.apply(re),
            SettingsEdit::Healthbars(he) => self.healthbars.apply(he),
        }
    }
}

/// Law (field independence): applying one edit writes exactly the
/// targeted field with the carried value, and every other field of the
/// whole tree keeps its value. In particular no edit reaches
/// `angle_per_pixel`: editing, say, the players' radius of consideration
/// never moves the creeps' radius nor the calibration constant.
pub proof fn lemma_settings_edit_touches_one_field(s: Settings, e: SettingsEdit, f: SettingsField)
    ensures
        s.spec_apply(e).read_field(e.target()) == e.value(),
        f != e.target() ==> s.spec_apply(e).read_field(f) == s.read_field(f),
        s.spec_apply(e).aim.angle_per_pixel == s.aim.angle_per_pixel,
{
    match e {
        SettingsEdit::Aim(ae) => {
            lemma_aim_edit_touches_one_field(s.aim, ae, ae.target());
            if let SettingsField::Aim(af) = f {
                lemma_aim_edit_touches_one_field(s.aim, ae, af);
            }
        },
        SettingsEdit::EspPlayers(ee) => {
            lemma_esp_edit_touches_one_field(s.esp_players, ee, ee.target());
            if let SettingsField::EspPlayers(ef) = f {
                lemma_esp_edit_touches_one_field(s.esp_players, ee, ef);
            }
        },
        SettingsEdit::Radar(re) => {
            lemma_radar_edit_touches_one_field(s.radar, re, re.target());
            if let SettingsField::Radar(rf) = f {
                lemma_radar_edit_touches_one_field(s.radar, re, rf);
            }
        },
        SettingsEdit::Healthbars(he) => {
            lemma_health_edit_touches_one_field(s.healthbars, he, he.target());
            if let SettingsField::Healthbars(hf) = f {
                lemma_health_edit_touches_one_field(s.healthbars, he, hf);
            }
        },
    }
}

} // verus!
