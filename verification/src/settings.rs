use vstd::prelude::*;
use crate::floatbits::FloatBits;

verus! {

// Bit patterns of the default float values, each within its declared
// editable range. The decimal value stands beside each constant.
pub const DEFAULT_FOV_BITS: u32 = 0x42c8_0000;  // 100.0, range [20, 800]
pub const DEFAULT_SMOOTH_BITS: u32 = 0x4040_0000;  // 3.0, range [1.25, 10]
pub const DEFAULT_VELOCITY_DIV_BITS: u32 = 0x4120_0000;  // 10.0, range [1, 30]
pub const DEFAULT_RANGE_BITS: u32 = 0x447a_0000;  // 1000.0, range [200, 5000]
pub const DEFAULT_STROKE_WIDTH_BITS: u32 = 0x4000_0000;  // 2.0, range [1, 4]
pub const DEFAULT_SHADOW_SIZE_BITS: u32 = 0x4100_0000;  // 8.0, range [4, 18]
pub const DEFAULT_SHADOW_BLUR_BITS: u32 = 0x41c8_0000;  // 25.0, range [1, 100]
pub const DEFAULT_FONT_SIZE_BITS: u32 = 0x4140_0000;  // 12.0, range [6, 24]
pub const DEFAULT_PLAYER_RADIUS_BITS: u32 = 0x4040_0000;  // 3.0, range [1, 8]
pub const DEFAULT_RADAR_SCALE_BITS: u32 = 0x41c8_0000;  // 25.0, range [10, 50]

/// An sRGBA color, one byte per channel.
#[derive(Clone, Copy, Debug, PartialEq, Eq, Structural)]
pub struct Rgba {
    pub r: u8,
    pub g: u8,
    pub b: u8,
    pub a: u8,
}

impl Rgba {
    pub open spec fn spec_new(r: u8, g: u8, b: u8, a: u8) -> Rgba {
        Rgba { r, g, b, a }
    }

    pub fn new(r: u8, g: u8, b: u8, a: u8) -> (c: Rgba)
        ensures
            c == Rgba::spec_new(r, g, b, a),
    {
        Rgba { r, g, b, a }
    }
}

/// How the annotation rectangle around an entity is drawn.
#[derive(Clone, Copy, Debug, PartialEq, Eq, Structural)]
pub enum BoxStyle {
    Plain,
    Rounded,
    Edges,
}

impl BoxStyle {
    /// The display label of each style; the mapping is exhaustive, so no
    /// style ever falls back to a placeholder.
    pub fn label(self) -> (r: &'static str)
        ensures
            self == BoxStyle::Plain ==> r@ == "Default"@,
            self == BoxStyle::Rounded ==> r@ == "Rounded"@,
            self == BoxStyle::Edges ==> r@ == "Edges"@,
    {
        match self {
            BoxStyle::Plain => "Default",
            BoxStyle::Rounded => "Rounded",
            BoxStyle::Edges => "Edges",
        }
    }
}

/// Where a text annotation is anchored relative to its entity.
#[derive(Clone, Copy, Debug, PartialEq, Eq, Structural)]
pub enum TextAnchor {
    TopCenter,
    TopLeft,
    TopRight,
    BottomCenter,
}

impl TextAnchor {
    /// The display label of each anchor; the mapping is exhaustive, so an
    /// anchor never shows as an unknown placeholder.
    pub fn label(self) -> (r: &'static str)
        ensures
            self == TextAnchor::TopCenter ==> r@ == "Top center"@,
            self == TextAnchor::TopLeft ==> r@ == "Top left"@,
            self == TextAnchor::TopRight ==> r@ == "Top right"@,
            self == TextAnchor::BottomCenter ==> r@ == "Bottom center"@,
    {
        match self {
            TextAnchor::TopCenter => "Top center",
            TextAnchor::TopLeft => "Top left",
            TextAnchor::TopRight => "Top right",
            TextAnchor::BottomCenter => "Bottom center",
        }
    }
}

/// Assistance configuration of one target class.
#[derive(Clone, Copy, Debug, PartialEq, Eq, Structural)]
pub struct AimProperties {
    pub enable: bool,
    pub velocity_prediction: bool,
    pub rcs: bool,
    pub targeting: bool,
    /// Angular/pixel radius of consideration, declared range [20, 800].
    pub fov: FloatBits,
    /// Damping factor, declared range [1.25, 10].
    pub smooth: FloatBits,
    /// Divisor applied to predicted velocity, declared range [1, 30].
    pub velocity_div_dav: FloatBits,
    /// Maximum effective distance in world units, declared range [200, 5000].
    pub range: FloatBits,
    pub color: Rgba,
}

impl AimProperties {
    pub open spec fn spec_default() -> AimProperties {
        AimProperties {
            enable: false,
            velocity_prediction: false,
            rcs: false,
            targeting: false,
            fov: FloatBits { bits: DEFAULT_FOV_BITS },
            smooth: FloatBits { bits: DEFAULT_SMOOTH_BITS },
            velocity_div_dav: FloatBits { bits: DEFAULT_VELOCITY_DIV_BITS },
            range: FloatBits { bits: DEFAULT_RANGE_BITS },
            color: Rgba { r: 255, g: 255, b: 255, a: 255 },
        }
    }
}

impl Default for AimProperties {
    fn default() -> (r: AimProperties)
        ensures
            r == AimProperties::spec_default(),
    {
        AimProperties {
            enable: false,
            velocity_prediction: false,
            rcs: false,
            targeting: false,
            fov: FloatBits { bits: DEFAULT_FOV_BITS },
            smooth: FloatBits { bits: DEFAULT_SMOOTH_BITS },
            velocity_div_dav: FloatBits { bits: DEFAULT_VELOCITY_DIV_BITS },
            range: FloatBits { bits: DEFAULT_RANGE_BITS },
            color: Rgba { r: 255, g: 255, b: 255, a: 255 },
        }
    }
}

/// Root aim configuration: the calibration constant and one assistance
/// record per target class.
#[derive(Clone, Copy, Debug, PartialEq, Eq, Structural)]
pub struct AimSettings {
    /// Degrees of view rotation per unit of raw input movement. The zero
    /// bit pattern means "uncalibrated"; a NaN bit pattern is never
    /// stored — every write path coerces it to zero.
    pub angle_per_pixel: FloatBits,
    pub players: AimProperties,
    pub creeps: AimProperties,
    pub soul_color: Rgba,
}

impl AimSettings {
    pub open spec fn spec_default() -> AimSettings {
        AimSettings {
            angle_per_pixel: FloatBits::spec_zero(),
            players: AimProperties::spec_default(),
            creeps: AimProperties::spec_default(),
            soul_color: Rgba { r: 255, g: 0, b: 255, a: 255 },
        }
    }

    /// Commits a freshly measured ratio: NaN collapses to the zero
    /// sentinel, any other value — zero and negative included — is
    /// stored verbatim. No other field is touched.
    pub fn store_angle_per_pixel(&mut self, value: FloatBits)
        ensures
            final(self).angle_per_pixel == value.spec_sanitized(),
            !final(self).angle_per_pixel.spec_is_nan(),
            final(self).players == old(self).players,
            final(self).creeps == old(self).creeps,
            final(self).soul_color == old(self).soul_color,
    {
        proof {
            crate::floatbits::lemma_sanitized_never_nan(value);
        }
        self.angle_per_pixel = value.sanitized();
    }
}

impl Default for AimSettings {
    fn default() -> (r: AimSettings)
        ensures
            r == AimSettings::spec_default(),
    {
        AimSettings {
            angle_per_pixel: FloatBits::zero(),
            players: AimProperties::default(),
            creeps: AimProperties::default(),
            soul_color: Rgba { r: 255, g: 0, b: 255, a: 255 },
        }
    }
}

/// Styling of one kind of text annotation.
#[derive(Clone, Copy, Debug, PartialEq, Eq, Structural)]
pub struct TextSettings {
    pub enable: bool,
    /// Draw a contrasting shadow behind the text.
    pub shadow: bool,
    pub font_color: Rgba,
    /// Declared range [6, 24].
    pub font_size: FloatBits,
    pub align: TextAnchor,
}

impl TextSettings {
    pub open spec fn spec_default() -> TextSettings {
        TextSettings {
            enable: true,
            shadow: true,
            font_color: Rgba { r: 255, g: 255, b: 255, a: 255 },
            font_size: FloatBits { bits: DEFAULT_FONT_SIZE_BITS },
            align: TextAnchor::TopCenter,
        }
    }
}

impl Default for TextSettings {
    fn default() -> (r: TextSettings)
        ensures
            r == TextSettings::spec_default(),
    {
        TextSettings {
            enable: true,
            shadow: true,
            font_color: Rgba { r: 255, g: 255, b: 255, a: 255 },
            font_size: FloatBits { bits: DEFAULT_FONT_SIZE_BITS },
            align: TextAnchor::TopCenter,
        }
    }
}

/// Annotation rectangles and text blocks drawn over entities.
#[derive(Clone, Copy, Debug, PartialEq, Eq, Structural)]
pub struct EspPlayersSettings {
    pub render: bool,
    pub box_style: BoxStyle,
    pub outline_rect: bool,
    pub fill_rect: bool,
    pub glow: bool,
    pub shadow: bool,
    /// Declared range [1, 4].
    pub stroke_width: FloatBits,
    /// Declared range [4, 18].
    pub shadow_size: FloatBits,
    /// Declared range [1, 100].
    pub shadow_blur: FloatBits,
    pub outline_color: Rgba,
    pub fill_color: Rgba,
    pub glow_color: Rgba,
    pub shadow_color: Rgba,
    pub text_hero: TextSettings,
    pub text_health: TextSettings,
    pub text_distance: TextSettings,
}

impl EspPlayersSettings {
    pub open spec fn spec_default() -> EspPlayersSettings {
        EspPlayersSettings {
            render: true,
            box_style: BoxStyle::Plain,
            outline_rect: true,
            fill_rect: false,
            glow: false,
            shadow: false,
            stroke_width: FloatBits { bits: DEFAULT_STROKE_WIDTH_BITS },
            shadow_size: FloatBits { bits: DEFAULT_SHADOW_SIZE_BITS },
            shadow_blur: FloatBits { bits: DEFAULT_SHADOW_BLUR_BITS },
            outline_color: Rgba { r: 255, g: 255, b: 255, a: 255 },
            fill_color: Rgba { r: 0, g: 0, b: 0, a: 64 },
            glow_color: Rgba { r: 255, g: 0, b: 0, a: 255 },
            shadow_color: Rgba { r: 0, g: 0, b: 0, a: 255 },
            text_hero: TextSettings::spec_default(),
            text_health: TextSettings::spec_default(),
            text_distance: TextSettings::spec_default(),
        }
    }
}

impl Default for EspPlayersSettings {
    fn default() -> (r: EspPlayersSettings)
        ensures
            r == EspPlayersSettings::spec_default(),
    {
        EspPlayersSettings {
            render: true,
            box_style: BoxStyle::Plain,
            outline_rect: true,
            fill_rect: false,
            glow: false,
            shadow: false,
            stroke_width: FloatBits { bits: DEFAULT_STROKE_WIDTH_BITS },
            shadow_size: FloatBits { bits: DEFAULT_SHADOW_SIZE_BITS },
            shadow_blur: FloatBits { bits: DEFAULT_SHADOW_BLUR_BITS },
            outline_color: Rgba { r: 255, g: 255, b: 255, a: 255 },
            fill_color: Rgba { r: 0, g: 0, b: 0, a: 64 },
            glow_color: Rgba { r: 255, g: 0, b: 0, a: 255 },
            shadow_color: Rgba { r: 0, g: 0, b: 0, a: 255 },
            text_hero: TextSettings::default(),
            text_health: TextSettings::default(),
            text_distance: TextSettings::default(),
        }
    }
}

/// The on-screen radar projection.
#[derive(Clone, Copy, Debug, PartialEq, Eq, Structural)]
pub struct RadarSettings {
    pub enable: bool,
    /// Declared range [1, 8].
    pub player_radius: FloatBits,
    /// Declared range [10, 50].
    pub scale: FloatBits,
    pub color_enemy: Rgba,
    pub color_team: Rgba,
    pub color_background: Rgba,
    pub color_border: Rgba,
}

impl RadarSettings {
    pub open spec fn spec_default() -> RadarSettings {
        RadarSettings {
            enable: true,
            player_radius: FloatBits { bits: DEFAULT_PLAYER_RADIUS_BITS },
            scale: FloatBits { bits: DEFAULT_RADAR_SCALE_BITS },
            color_enemy: Rgba { r: 255, g: 0, b: 0, a: 255 },
            color_team: Rgba { r: 0, g: 255, b: 0, a: 255 },
            color_background: Rgba { r: 0, g: 0, b: 0, a: 128 },
            color_border: Rgba { r: 255, g: 255, b: 255, a: 255 },
        }
    }
}

impl Default for RadarSettings {
    fn default() -> (r: RadarSettings)
        ensures
            r == RadarSettings::spec_default(),
    {
        RadarSettings {
            enable: true,
            player_radius: FloatBits { bits: DEFAULT_PLAYER_RADIUS_BITS },
            scale: FloatBits { bits: DEFAULT_RADAR_SCALE_BITS },
            color_enemy: Rgba { r: 255, g: 0, b: 0, a: 255 },
            color_team: Rgba { r: 0, g: 255, b: 0, a: 255 },
            color_background: Rgba { r: 0, g: 0, b: 0, a: 128 },
            color_border: Rgba { r: 255, g: 255, b: 255, a: 255 },
        }
    }
}

/// Health bars drawn beside entities.
#[derive(Clone, Copy, Debug, PartialEq, Eq, Structural)]
pub struct HealthbarSettings {
    pub enable: bool,
    pub background_color: Rgba,
    pub hp_color: Rgba,
    pub outline_color: Rgba,
}

impl HealthbarSettings {
    pub open spec fn spec_default() -> HealthbarSettings {
        HealthbarSettings {
            enable: true,
            background_color: Rgba { r: 0, g: 0, b: 0, a: 192 },
            hp_color: Rgba { r: 0, g: 255, b: 0, a: 255 },
            outline_color: Rgba { r: 255, g: 255, b: 255, a: 255 },
        }
    }
}

impl Default for HealthbarSettings {
    fn default() -> (r: HealthbarSettings)
        ensures
            r == HealthbarSettings::spec_default(),
    {
        HealthbarSettings {
            enable: true,
            background_color: Rgba { r: 0, g: 0, b: 0, a: 192 },
            hp_color: Rgba { r: 0, g: 255, b: 0, a: 255 },
            outline_color: Rgba { r: 255, g: 255, b: 255, a: 255 },
        }
    }
}

/// The whole configuration tree: one owned, mutable value for the life of
/// an overlay session, replaced wholesale on profile load and written
/// wholesale on profile save.
#[derive(Clone, Copy, Debug, PartialEq, Eq, Structural)]
pub struct Settings {
    pub aim: AimSettings,
    pub esp_players: EspPlayersSettings,
    pub radar: RadarSettings,
    pub healthbars: HealthbarSettings,
}

impl Settings {
    pub open spec fn spec_default() -> Settings {
        Settings {
            aim: AimSettings::spec_default(),
            esp_players: EspPlayersSettings::spec_default(),
            radar: RadarSettings::spec_default(),
            healthbars: HealthbarSettings::spec_default(),
        }
    }
}

impl Default for Settings {
    fn default() -> (r: Settings)
        ensures
            r == Settings::spec_default(),
    {
        Settings {
            aim: AimSettings::default(),
            esp_players: EspPlayersSettings::default(),
            radar: RadarSettings::default(),
            healthbars: HealthbarSettings::default(),
        }
    }
}

} // verus!
