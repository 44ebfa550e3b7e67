//! Overlay appearance values and validation.

use vstd::prelude::*;

use crate::DEFAULT_OVERLAY_SIZE;

verus! {

/// Minimum supported camera surface size in logical pixels.
pub const MINIMUM_OVERLAY_SIZE: u16 = 96;

/// Maximum supported camera surface size in logical pixels.
pub const MAXIMUM_OVERLAY_SIZE: u16 = 640;

/// Largest corner radius accepted anywhere in the product.
pub const MAXIMUM_CORNER_ROUNDNESS: u8 = 72;

/// Ring widths shown by the product menu.
pub const RING_THICKNESS_OPTIONS: [u8; 6] = [0, 2, 4, 6, 8, 10];

/// Corner radii shown by the product menu.
pub const CORNER_ROUNDNESS_OPTIONS: [u8; 6] = [0, 12, 24, 36, 48, 60];

/// Shape used to clip the preview and ring.
#[derive(Debug, Clone, Copy, PartialEq, Eq, Structural, Hash)]
pub enum OverlayShape {
    /// The camera's original aspect-ratio rectangle without shape manipulation.
    Original,
    /// Elliptical surface; square bounds produce a circle.
    Circle,
    /// Square surface with configurable rounded corners.
    RoundedSquare,
    /// A square rotated by 45 degrees with configurable corners.
    Diamond,
    /// Portrait surface inset horizontally by 16%.
    RectangleY,
    /// Landscape surface inset vertically by 16%.
    RectangleX,
}

impl OverlayShape {
    /// All shapes in stable menu order.
    pub const ALL: [OverlayShape; 6] = [
        OverlayShape::Original,
        OverlayShape::Circle,
        OverlayShape::RoundedSquare,
        OverlayShape::RectangleY,
        OverlayShape::RectangleX,
        OverlayShape::Diamond,
    ];
}

impl Default for OverlayShape {
    fn default() -> (shape: OverlayShape)
        ensures
            shape == OverlayShape::Original,
    {
        OverlayShape::Original
    }
}

/// How a source frame maps into the inner preview bounds.
#[derive(Debug, Clone, Copy, PartialEq, Eq, Structural, Hash)]
pub enum PreviewFitMode {
    /// Fill the viewport while preserving aspect ratio and cropping overflow.
    Cover,
    /// Show the complete frame while preserving aspect ratio.
    Contain,
}

impl PreviewFitMode {
    /// All fit modes in stable menu order.
    pub const ALL: [PreviewFitMode; 2] = [PreviewFitMode::Cover, PreviewFitMode::Contain];
}

impl Default for PreviewFitMode {
    fn default() -> (fit: PreviewFitMode)
        ensures
            fit == PreviewFitMode::Cover,
    {
        PreviewFitMode::Cover
    }
}

/// Stable identifier for a built-in two-color ring theme.
#[derive(Debug, Clone, Copy, PartialEq, Eq, Structural, Hash)]
pub enum ThemeId {
    /// Mint green.
    Mint,
    /// Blue and cyan.
    Ocean,
    /// Orange and amber.
    Ember,
    /// Purple and pink.
    Orchid,
    /// Green and lime.
    Grove,
    /// White and blue gray.
    Graphite,
}

impl Default for ThemeId {
    fn default() -> (id: ThemeId)
        ensures
            id == ThemeId::Mint,
    {
        ThemeId::Mint
    }
}

/// The packed `0xRRGGBB` ring and accent colors of each built-in theme.
pub open spec fn theme_packed_colors(id: ThemeId) -> (u32, u32) {
    match id {
        ThemeId::Mint => (0x7CE2C6, 0xC8FFF1),
        ThemeId::Ocean => (0x4DA7FF, 0x77F1E1),
        ThemeId::Ember => (0xFF6C4D, 0xFFB067),
        ThemeId::Orchid => (0xB78CFF, 0xF1A8FF),
        ThemeId::Grove => (0x57D97B, 0xB8FF9D),
        ThemeId::Graphite => (0xF2F5F9, 0x93A1B8),
    }
}

/// The immutable preset a theme identifier stands for.
pub open spec fn spec_preset(id: ThemeId) -> ThemePreset {
    ThemePreset {
        id,
        ring: spec_opaque(theme_packed_colors(id).0),
        accent: spec_opaque(theme_packed_colors(id).1),
    }
}

/// Themes in the order of [`ThemeId::ALL`].
pub open spec fn theme_order() -> Seq<ThemeId> {
    seq![
        ThemeId::Mint,
        ThemeId::Ocean,
        ThemeId::Ember,
        ThemeId::Orchid,
        ThemeId::Grove,
        ThemeId::Graphite,
    ]
}

impl ThemeId {
    /// All themes in stable menu order.
    pub const ALL: [ThemeId; 6] = [
        ThemeId::Mint,
        ThemeId::Ocean,
        ThemeId::Ember,
        ThemeId::Orchid,
        ThemeId::Grove,
        ThemeId::Graphite,
    ];

    /// Returns the immutable colors for this preset.
    pub fn preset(self) -> (preset: ThemePreset)
        ensures
            preset == spec_preset(self),
    {
        match self {
            ThemeId::Mint => ThemePreset::new(ThemeId::Mint, 0x7CE2C6, 0xC8FFF1),
            ThemeId::Ocean => ThemePreset::new(ThemeId::Ocean, 0x4DA7FF, 0x77F1E1),
            ThemeId::Ember => ThemePreset::new(ThemeId::Ember, 0xFF6C4D, 0xFFB067),
            ThemeId::Orchid => ThemePreset::new(ThemeId::Orchid, 0xB78CFF, 0xF1A8FF),
            ThemeId::Grove => ThemePreset::new(ThemeId::Grove, 0x57D97B, 0xB8FF9D),
            ThemeId::Graphite => ThemePreset::new(ThemeId::Graphite, 0xF2F5F9, 0x93A1B8),
        }
    }
}

/// An RGBA color stored with exact 8-bit channels.
#[derive(Debug, Clone, Copy, PartialEq, Eq, Structural, Hash)]
pub struct HexColor {
    /// Red channel.
    pub red: u8,
    /// Green channel.
    pub green: u8,
    /// Blue channel.
    pub blue: u8,
    /// Alpha channel.
    pub alpha: u8,
}

/// The opaque color whose channels are the low three bytes of `value`, red first.
pub open spec fn spec_opaque(value: u32) -> HexColor {
    HexColor {
        red: ((value / 0x10000) % 0x100) as u8,
        green: ((value / 0x100) % 0x100) as u8,
        blue: (value % 0x100) as u8,
        alpha: 255,
    }
}

/// The value of one hexadecimal digit, either case.
pub open spec fn hex_digit_value(c: char) -> Option<u8> {
    if '0' <= c && c <= '9' {
        Some((c as int - '0' as int) as u8)
    } else if 'a' <= c && c <= 'f' {
        Some((c as int - 'a' as int + 10) as u8)
    } else if 'A' <= c && c <= 'F' {
        Some((c as int - 'A' as int + 10) as u8)
    } else {
        None
    }
}

/// Whether every character of `s` after the first is a hexadecimal digit.
pub open spec fn hex_digits_after_hash(s: Seq<char>) -> bool {
    forall|i: int| 1 <= i < s.len() ==> (#[trigger] hex_digit_value(s[i])) is Some
}

/// The byte spelled by the two hexadecimal digits at `at` and `at + 1`.
pub open spec fn hex_byte_at(s: Seq<char>, at: int) -> u8 {
    (hex_digit_value(s[at])->0 * 16 + hex_digit_value(s[at + 1])->0) as u8
}

/// The color spelled by `#RRGGBB` or `#RRGGBBAA`, if `s` is exactly that.
pub open spec fn spec_parse_hex_color(s: Seq<char>) -> Option<HexColor> {
    if (s.len() == 7 || s.len() == 9) && s[0] == '#' && hex_digits_after_hash(s) {
        Some(
            HexColor {
                red: hex_byte_at(s, 1),
                green: hex_byte_at(s, 3),
                blue: hex_byte_at(s, 5),
                alpha: if s.len() == 9 {
                    hex_byte_at(s, 7)
                } else {
                    255
                },
            },
        )
    } else {
        None
    }
}

/// The upper-case hexadecimal digit for a value below 16.
pub open spec fn upper_hex_digit(value: int) -> char {
    if value < 10 {
        ('0' as int + value) as char
    } else {
        ('A' as int + value - 10) as char
    }
}

/// The two upper-case hexadecimal digits of a byte.
pub open spec fn upper_hex_byte(value: u8) -> Seq<char> {
    seq![upper_hex_digit(value as int / 16), upper_hex_digit(value as int % 16)]
}

/// The canonical spelling of a color: `#RRGGBB` when opaque, `#RRGGBBAA` otherwise.
pub open spec fn spec_format_hex_color(color: HexColor) -> Seq<char> {
    let rgb = seq!['#'] + upper_hex_byte(color.red) + upper_hex_byte(color.green)
        + upper_hex_byte(color.blue);
    if color.alpha == 255 {
        rgb
    } else {
        rgb + upper_hex_byte(color.alpha)
    }
}

/// The value of one hexadecimal digit.
fn hex_digit(c: char) -> (value: Option<u8>)
    ensures
        value == hex_digit_value(c),
{
    if '0' <= c && c <= '9' {
        Some((c as u32 - '0' as u32) as u8)
    } else if 'a' <= c && c <= 'f' {
        Some((c as u32 - 'a' as u32 + 10) as u8)
    } else if 'A' <= c && c <= 'F' {
        Some((c as u32 - 'A' as u32 + 10) as u8)
    } else {
        None
    }
}

/// Appends the upper-case digit of a value below 16.
fn push_upper_hex_digit(out: &mut String, value: u8)
    requires
        value < 16,
    ensures
        final(out)@ == old(out)@.push(upper_hex_digit(value as int)),
{
    let digit: &str = match value {
        0 => "0",
        1 => "1",
        2 => "2",
        3 => "3",
        4 => "4",
        5 => "5",
        6 => "6",
        7 => "7",
        8 => "8",
        9 => "9",
        10 => "A",
        11 => "B",
        12 => "C",
        13 => "D",
        14 => "E",
        _ => "F",
    };
    proof {
        reveal_strlit("0");
        reveal_strlit("1");
        reveal_strlit("2");
        reveal_strlit("3");
        reveal_strlit("4");
        reveal_strlit("5");
        reveal_strlit("6");
        reveal_strlit("7");
        reveal_strlit("8");
        reveal_strlit("9");
        reveal_strlit("A");
        reveal_strlit("B");
        reveal_strlit("C");
        reveal_strlit("D");
        reveal_strlit("E");
        reveal_strlit("F");
        assert(digit@ =~= seq![upper_hex_digit(value as int)]);
    }
    out.append(digit);
}

/// Appends the two upper-case digits of a byte.
fn push_upper_hex_byte(out: &mut String, value: u8)
    ensures
        final(out)@ == old(out)@ + upper_hex_byte(value),
{
    push_upper_hex_digit(out, value / 16);
    push_upper_hex_digit(out, value % 16);
    assert(out@ =~= old(out)@ + upper_hex_byte(value));
}

impl HexColor {
    /// Creates an opaque color from a packed `0xRRGGBB` value.
    pub fn opaque(value: u32) -> (color: HexColor)
        ensures
            color == spec_opaque(value),
    {
        let red = ((value >> 16u32) & 0xFF) as u8;
        let green = ((value >> 8u32) & 0xFF) as u8;
        let blue = (value & 0xFF) as u8;
        assert(((value >> 16u32) & 0xFF) == (value / 0x10000) % 0x100) by (bit_vector);
        assert(((value >> 8u32) & 0xFF) == (value / 0x100) % 0x100) by (bit_vector);
        assert((value & 0xFF) == value % 0x100) by (bit_vector);
        HexColor { red, green, blue, alpha: 255 }
    }

    /// Parses `#RRGGBB` or `#RRGGBBAA`, digits in either case.
    pub fn parse(value: &str) -> (color: Option<HexColor>)
        ensures
            color == spec_parse_hex_color(value@),
    {
        let chars = crate::text::chars_of(value);
        let length = chars.len();
        if !(length == 7 || length == 9) || chars[0] != '#' {
            return None;
        }
        let mut digits: Vec<u8> = Vec::new();
        let mut i: usize = 1;
        while i < length
            invariant
                length == chars@.len(),
                chars@ == value@,
                1 <= i <= length,
                digits@.len() == i - 1,
                forall|j: int| 1 <= j < i ==> (#[trigger] hex_digit_value(chars@[j])) is Some,
                forall|j: int|
                    1 <= j < i ==> digits@[j - 1] == (#[trigger] hex_digit_value(chars@[j]))->0,
            decreases length - i,
        {
            match hex_digit(chars[i]) {
                Some(d) => digits.push(d),
                None => return None,
            }
            i = i + 1;
        }
        assert(hex_digits_after_hash(value@));
        let red = digits[0] * 16 + digits[1];
        let green = digits[2] * 16 + digits[3];
        let blue = digits[4] * 16 + digits[5];
        let alpha = if length == 9 {
            digits[6] * 16 + digits[7]
        } else {
            255
        };
        Some(HexColor { red, green, blue, alpha })
    }

    /// The canonical spelling: `#RRGGBB` when opaque, `#RRGGBBAA` otherwise, upper case.
    pub fn to_hex_string(&self) -> (text: String)
        ensures
            text@ == spec_format_hex_color(*self),
    {
        let mut out = String::new();
        out.append("#");
        proof {
            reveal_strlit("#");
        }
        push_upper_hex_byte(&mut out, self.red);
        push_upper_hex_byte(&mut out, self.green);
        push_upper_hex_byte(&mut out, self.blue);
        if self.alpha != 255 {
            push_upper_hex_byte(&mut out, self.alpha);
        }
        assert(out@ =~= spec_format_hex_color(*self));
        out
    }
}

/// Formatting a color and parsing the text back gives the same color.
pub proof fn lemma_hex_color_round_trip(color: HexColor)
    ensures
        spec_parse_hex_color(spec_format_hex_color(color)) == Some(color),
{
    let s = spec_format_hex_color(color);
    assert forall|v: u8| #![trigger upper_hex_byte(v)]
        hex_digit_value(upper_hex_byte(v)[0]) == Some((v / 16) as u8)
        && hex_digit_value(upper_hex_byte(v)[1]) == Some((v % 16) as u8) by {
    }
    assert(s[0] == '#');
    assert(hex_digits_after_hash(s));
}

/// The immutable colors represented by a [`ThemeId`].
#[derive(Debug, Clone, Copy, PartialEq, Eq, Structural)]
pub struct ThemePreset {
    /// Stable theme identifier.
    pub id: ThemeId,
    /// Primary ring color.
    pub ring: HexColor,
    /// Secondary ring color.
    pub accent: HexColor,
}

impl ThemePreset {
    fn new(id: ThemeId, ring: u32, accent: u32) -> (preset: ThemePreset)
        ensures
            preset == (ThemePreset { id, ring: spec_opaque(ring), accent: spec_opaque(accent) }),
    {
        ThemePreset { id, ring: HexColor::opaque(ring), accent: HexColor::opaque(accent) }
    }
}

/// Persisted appearance state.
#[derive(Debug, Clone, Copy, PartialEq, Eq, Structural)]
pub struct AppearanceSettings {
    /// Visible shape.
    pub shape: OverlayShape,
    /// Logical size of the square host surface.
    pub size: u16,
    /// Primary ring color.
    pub ring_color: HexColor,
    /// Secondary ring color.
    pub ring_accent_color: HexColor,
    /// Ring width in logical pixels.
    pub ring_thickness: u8,
    /// Shape corner radius in logical pixels.
    pub corner_roundness: u8,
    /// Camera frame fit behavior.
    pub fit: PreviewFitMode,
}

/// The appearance of a fresh profile.
pub open spec fn default_appearance() -> AppearanceSettings {
    AppearanceSettings {
        shape: OverlayShape::Original,
        size: DEFAULT_OVERLAY_SIZE,
        ring_color: spec_preset(ThemeId::Mint).ring,
        ring_accent_color: spec_preset(ThemeId::Mint).accent,
        ring_thickness: 4,
        corner_roundness: 26,
        fit: PreviewFitMode::Cover,
    }
}

/// The theme whose colors an appearance shows, if any.
pub open spec fn spec_theme_of(appearance: AppearanceSettings) -> Option<ThemeId> {
    if exists|i: int|
        0 <= i < 6 && spec_preset(#[trigger] theme_order()[i]).ring == appearance.ring_color
            && spec_preset(theme_order()[i]).accent == appearance.ring_accent_color {
        Some(
            choose|id: ThemeId|
                spec_preset(id).ring == appearance.ring_color && spec_preset(id).accent
                    == appearance.ring_accent_color,
        )
    } else {
        None
    }
}

impl Default for AppearanceSettings {
    fn default() -> (appearance: AppearanceSettings)
        ensures
            appearance == default_appearance(),
    {
        let theme = ThemeId::Mint.preset();
        AppearanceSettings {
            shape: OverlayShape::Original,
            size: DEFAULT_OVERLAY_SIZE,
            ring_color: theme.ring,
            ring_accent_color: theme.accent,
            ring_thickness: 4,
            corner_roundness: 26,
            fit: PreviewFitMode::Cover,
        }
    }
}

impl AppearanceSettings {
    /// Applies a built-in theme without changing any other appearance value.
    pub fn apply_theme(&mut self, id: ThemeId)
        ensures
            *final(self) == (AppearanceSettings {
                ring_color: spec_preset(id).ring,
                ring_accent_color: spec_preset(id).accent,
                ..*old(self)
            }),
    {
        let preset = id.preset();
        self.ring_color = preset.ring;
        self.ring_accent_color = preset.accent;
    }

    /// Returns the matching built-in theme, or `None` for custom colors.
    pub fn theme(&self) -> (id: Option<ThemeId>)
        ensures
            id == spec_theme_of(*self),
            id matches Some(t) ==> spec_preset(t).ring == self.ring_color
                && spec_preset(t).accent == self.ring_accent_color,
            id is None ==> forall|t: ThemeId|
                !(spec_preset(t).ring == self.ring_color && spec_preset(t).accent
                    == self.ring_accent_color),
    {
        let mut i: usize = 0;
        while i < 6
            invariant
                i <= 6,
                forall|j: int|
                    0 <= j < i ==> !(spec_preset(#[trigger] theme_order()[j]).ring
                        == self.ring_color && spec_preset(theme_order()[j]).accent
                        == self.ring_accent_color),
            decreases 6 - i,
        {
            let id = ThemeId::ALL[i];
            assert(id == theme_order()[i as int]);
            let preset = id.preset();
            if preset.ring == self.ring_color && preset.accent == self.ring_accent_color {
                proof {
                    let c = choose|t: ThemeId|
                        spec_preset(t).ring == self.ring_color && spec_preset(t).accent
                            == self.ring_accent_color;
                    lemma_theme_colors_distinct(c, id);
                }
                return Some(id);
            }
            i = i + 1;
        }
        assert forall|t: ThemeId|
            !(spec_preset(t).ring == self.ring_color && spec_preset(t).accent
                == self.ring_accent_color) by {
            let k: int = match t {
                ThemeId::Mint => 0,
                ThemeId::Ocean => 1,
                ThemeId::Ember => 2,
                ThemeId::Orchid => 3,
                ThemeId::Grove => 4,
                ThemeId::Graphite => 5,
            };
            assert(theme_order()[k] == t);
        }
        None
    }
}

/// Distinct themes have distinct ring colors, so a color pair names at most one theme.
pub proof fn lemma_theme_colors_distinct(a: ThemeId, b: ThemeId)
    requires
        spec_preset(a).ring == spec_preset(b).ring,
    ensures
        a == b,
{
    assert(spec_opaque(0x7CE2C6).red == 0x7C);
    assert(spec_opaque(0x4DA7FF).red == 0x4D);
    assert(spec_opaque(0xFF6C4D).red == 0xFF);
    assert(spec_opaque(0xFF6C4D).green == 0x6C);
    assert(spec_opaque(0xB78CFF).red == 0xB7);
    assert(spec_opaque(0x57D97B).red == 0x57);
    assert(spec_opaque(0xF2F5F9).red == 0xF2);
}

/// Applying any theme makes the appearance report exactly that theme.
pub proof fn lemma_apply_theme_round_trip(appearance: AppearanceSettings, id: ThemeId)
    ensures
        spec_theme_of(
            AppearanceSettings {
                ring_color: spec_preset(id).ring,
                ring_accent_color: spec_preset(id).accent,
                ..appearance
            },
        ) == Some(id),
{
    let themed = AppearanceSettings {
        ring_color: spec_preset(id).ring,
        ring_accent_color: spec_preset(id).accent,
        ..appearance
    };
    let k: int = match id {
        ThemeId::Mint => 0,
        ThemeId::Ocean => 1,
        ThemeId::Ember => 2,
        ThemeId::Orchid => 3,
        ThemeId::Grove => 4,
        ThemeId::Graphite => 5,
    };
    assert(theme_order()[k] == id);
    let c = choose|t: ThemeId|
        spec_preset(t).ring == themed.ring_color && spec_preset(t).accent
            == themed.ring_accent_color;
    lemma_theme_colors_distinct(c, id);
}

/// A ring width clamped to `0..=10` and snapped down to the nearest even menu option.
pub open spec fn spec_normalize_ring_thickness(value: i64) -> u8 {
    let clamped: int = if value < 0 {
        0
    } else if value > 10 {
        10
    } else {
        value as int
    };
    (clamped - clamped % 2) as u8
}

/// Clamps and snaps an arbitrary ring width to the nearest menu option, preferring the thinner
/// option on a tie.
pub fn normalize_ring_thickness(value: i64) -> (thickness: u8)
    ensures
        thickness == spec_normalize_ring_thickness(value),
        exists|i: int| 0 <= i < 6 && RING_THICKNESS_OPTIONS@[i] == thickness,
{
    let clamped: i64 = if value < 0 {
        0
    } else if value > 10 {
        10
    } else {
        value
    };
    let mut best: u8 = RING_THICKNESS_OPTIONS[0];
    let mut best_error: i64 = clamped;
    let mut i: usize = 1;
    while i < 6
        invariant
            0 <= clamped <= 10,
            1 <= i <= 6,
            RING_THICKNESS_OPTIONS@ == seq![0u8, 2, 4, 6, 8, 10],
            best as int == 2 * ((if clamped as int / 2 < i - 1 { clamped as int / 2 } else { i - 1 })),
            best_error == clamped - best,
        decreases 6 - i,
    {
        let option = RING_THICKNESS_OPTIONS[i];
        let error: i64 = if option as i64 >= clamped {
            option as i64 - clamped
        } else {
            clamped - option as i64
        };
        if error < best_error {
            best = option;
            best_error = error;
        }
        i = i + 1;
    }
    assert(RING_THICKNESS_OPTIONS@[(best / 2) as int] == best);
    best
}

/// No menu option is strictly closer to the clamped width than the normalized one.
pub proof fn lemma_normalized_ring_is_nearest(value: i64, option: u8)
    requires
        exists|i: int| 0 <= i < 6 && RING_THICKNESS_OPTIONS@[i] == option,
    ensures
        ({
            let clamped: int = if value < 0 {
                0
            } else if value > 10 {
                10
            } else {
                value as int
            };
            let chosen = spec_normalize_ring_thickness(value) as int;
            let d_chosen = if chosen >= clamped { chosen - clamped } else { clamped - chosen };
            let d_option = if option >= clamped { option - clamped } else { clamped - option };
            d_chosen <= d_option
        }),
{
    assert(RING_THICKNESS_OPTIONS@ == seq![0u8, 2, 4, 6, 8, 10]);
}

} // verus!
