use vstd::prelude::*;

verus! {

/// Color management and manipulation.
///
/// A `Color` is expressed as a 4-tuple of values ranging from zero to 255,
/// one for each RGB color channel plus one for the alpha. The alpha channel
/// is fully opaque at 255 and fully transparent at 0.
#[derive(Clone, Copy, Debug, PartialEq, Eq, Structural)]
pub struct Color {
    pub red: u8,
    pub green: u8,
    pub blue: u8,
    pub alpha: u8,
}

/// The packed 32-bit pixel that holds a color's four 8-bit channels, red in
/// the highest byte and alpha in the lowest.
pub open spec fn spec_pixel_of(color: Color) -> u32 {
    ((color.red as u32) << 24) | ((color.green as u32) << 16) | ((color.blue as u32) << 8) | (
    color.alpha as u32)
}

/// The color whose channels are the four bytes of `pixel`, highest first.
pub open spec fn spec_color_of_pixel(pixel: u32) -> Color {
    Color {
        red: ((pixel >> 24) & 0xff) as u8,
        green: ((pixel >> 16) & 0xff) as u8,
        blue: ((pixel >> 8) & 0xff) as u8,
        alpha: (pixel & 0xff) as u8,
    }
}

/// One channel of the sum of two colors: the channel values added, clamped
/// to 255.
pub open spec fn spec_channel_add(x: u8, y: u8) -> u8 {
    if x + y > 255 {
        255u8
    } else {
        (x + y) as u8
    }
}

/// One channel of the difference of two colors: the channel values
/// subtracted, clamped to 0.
pub open spec fn spec_channel_sub(x: u8, y: u8) -> u8 {
    if x < y {
        0u8
    } else {
        (x - y) as u8
    }
}

/// The larger of two channel values.
pub open spec fn spec_channel_max(x: u8, y: u8) -> u8 {
    if x < y {
        y
    } else {
        x
    }
}

/// The smaller of two channel values.
pub open spec fn spec_channel_min(x: u8, y: u8) -> u8 {
    if x < y {
        x
    } else {
        y
    }
}

impl Color {
    /// Creates a new `Color` with the given channel values.
    pub fn new(red: u8, green: u8, blue: u8, alpha: u8) -> (color: Color)
        ensures
            color == (Color { red, green, blue, alpha }),
    {
        Color { red, green, blue, alpha }
    }

    /// A new, transparent black `Color`: every channel zero.
    pub fn allocate() -> (color: Color)
        ensures
            color == (Color { red: 0u8, green: 0u8, blue: 0u8, alpha: 0u8 }),
    {
        Color { red: 0, green: 0, blue: 0, alpha: 0 }
    }

    /// Initializes the color with the given channel values.
    pub fn init(&mut self, red: u8, green: u8, blue: u8, alpha: u8)
        ensures
            *final(self) == (Color { red, green, blue, alpha }),
    {
        self.red = red;
        self.green = green;
        self.blue = blue;
        self.alpha = alpha;
    }

    /// Compares two colors and checks if they are the same: every channel,
    /// the alpha included, must agree.
    pub fn equal(&self, other: &Color) -> (same: bool)
        ensures
            same == (*self == *other),
    {
        self.red == other.red && self.green == other.green && self.blue == other.blue
            && self.alpha == other.alpha
    }

    /// Converts the color to a hash value: the packed pixel, which
    /// determines and is determined by the color.
    pub fn hash(&self) -> (h: u32)
        ensures
            h == spec_pixel_of(*self),
    {
        self.to_pixel()
    }

    /// Converts the color into a packed 32-bit integer holding all four
    /// 8-bit channels, red in the highest byte and alpha in the lowest.
    pub fn to_pixel(&self) -> (pixel: u32)
        ensures
            pixel == spec_pixel_of(*self),
    {
        ((self.red as u32) << 24) | ((self.green as u32) << 16) | ((self.blue as u32) << 8) | (
        self.alpha as u32)
    }

    /// Fills the color from a packed 32-bit integer of four 8-bit channels,
    /// red taken from the highest byte and alpha from the lowest.
    pub fn from_pixel(&mut self, pixel: u32)
        ensures
            *final(self) == spec_color_of_pixel(pixel),
    {
        proof {
            lemma_pixel_bytes_fit(pixel);
        }
        self.red = ((pixel >> 24) & 0xff) as u8;
        self.green = ((pixel >> 16) & 0xff) as u8;
        self.blue = ((pixel >> 8) & 0xff) as u8;
        self.alpha = (pixel & 0xff) as u8;
    }

    /// Adds `other` to this color and returns the result: each color channel
    /// is the clamped sum, and the alpha channel is the larger of the two.
    pub fn add(&self, other: &Color) -> (sum: Color)
        ensures
            sum.red == spec_channel_add(self.red, other.red),
            sum.green == spec_channel_add(self.green, other.green),
            sum.blue == spec_channel_add(self.blue, other.blue),
            sum.alpha == spec_channel_max(self.alpha, other.alpha),
    {
        Color {
            red: channel_add(self.red, other.red),
            green: channel_add(self.green, other.green),
            blue: channel_add(self.blue, other.blue),
            alpha: if self.alpha < other.alpha {
                other.alpha
            } else {
                self.alpha
            },
        }
    }

    /// Subtracts `other` from this color and returns the result: each color
    /// channel is the clamped difference, and the alpha channel is the
    /// smaller of the two.
    pub fn subtract(&self, other: &Color) -> (difference: Color)
        ensures
            difference.red == spec_channel_sub(self.red, other.red),
            difference.green == spec_channel_sub(self.green, other.green),
            difference.blue == spec_channel_sub(self.blue, other.blue),
            difference.alpha == spec_channel_min(self.alpha, other.alpha),
    {
        Color {
            red: channel_sub(self.red, other.red),
            green: channel_sub(self.green, other.green),
            blue: channel_sub(self.blue, other.blue),
            alpha: if self.alpha < other.alpha {
                self.alpha
            } else {
                other.alpha
            },
        }
    }

    /// Returns a textual specification of the color in the hexadecimal form
    /// `#rrggbbaa`.
    pub fn to_string(&self) -> (text: String)
        ensures
            text@ == spec_color_string(*self),
    {
        let mut text = String::from_str("#");
        text.append(hex_digit_str(self.red / 16));
        text.append(hex_digit_str(self.red % 16));
        text.append(hex_digit_str(self.green / 16));
        text.append(hex_digit_str(self.green % 16));
        text.append(hex_digit_str(self.blue / 16));
        text.append(hex_digit_str(self.blue % 16));
        text.append(hex_digit_str(self.alpha / 16));
        text.append(hex_digit_str(self.alpha % 16));
        proof {
            reveal_strlit("#");
            assert(text@ =~= spec_color_string(*self));
        }
        text
    }

    /// Parses a hexadecimal definition of a color, filling the channels of
    /// the color from it.
    ///
    /// The definition must be one of `#rgb`, `#rgba`, `#rrggbb` or
    /// `#rrggbbaa`; in the one-digit forms each digit doubles, so `#f90`
    /// names the same color as `#ff9900`. Where the definition gives no
    /// alpha the color is fully opaque. Returns whether parsing succeeded;
    /// on failure the color is left unchanged.
    ///
    /// Only the hexadecimal forms are parsed here. The wider color grammar
    /// — standard color names and the `rgb()`, `rgba()`, `hsl()` and
    /// `hsla()` forms — rests on the native library's own parser and its
    /// floating-point components, and is not restated by this crate.
    pub fn from_hex_string(&mut self, name: &str) -> (parsed: bool)
        ensures
            parsed == (spec_parse_hex_color(name@) is Some),
            spec_parse_hex_color(name@) matches Some(c) ==> *final(self) == c,
            !parsed ==> *final(self) == *old(self),
    {
        let length = name.unicode_len();
        if length != 4 && length != 5 && length != 7 && length != 9 {
            return false;
        }
        proof {
            reveal_strlit("#");
        }
        if name.get_char(0) != '#' {
            return false;
        }
        if length == 4 {
            let r = hex_digit(name.get_char(1));
            let g = hex_digit(name.get_char(2));
            let b = hex_digit(name.get_char(3));
            if r == 16 || g == 16 || b == 16 {
                return false;
            }
            self.red = (17 * r) as u8;
            self.green = (17 * g) as u8;
            self.blue = (17 * b) as u8;
            self.alpha = 255;
            true
        } else if length == 5 {
            let r = hex_digit(name.get_char(1));
            let g = hex_digit(name.get_char(2));
            let b = hex_digit(name.get_char(3));
            let a = hex_digit(name.get_char(4));
            if r == 16 || g == 16 || b == 16 || a == 16 {
                return false;
            }
            self.red = (17 * r) as u8;
            self.green = (17 * g) as u8;
            self.blue = (17 * b) as u8;
            self.alpha = (17 * a) as u8;
            true
        } else if length == 7 {
            let r1 = hex_digit(name.get_char(1));
            let r2 = hex_digit(name.get_char(2));
            let g1 = hex_digit(name.get_char(3));
            let g2 = hex_digit(name.get_char(4));
            let b1 = hex_digit(name.get_char(5));
            let b2 = hex_digit(name.get_char(6));
            if r1 == 16 || r2 == 16 || g1 == 16 || g2 == 16 || b1 == 16 || b2 == 16 {
                return false;
            }
            self.red = (16 * r1 + r2) as u8;
            self.green = (16 * g1 + g2) as u8;
            self.blue = (16 * b1 + b2) as u8;
            self.alpha = 255;
            true
        } else {
            let r1 = hex_digit(name.get_char(1));
            let r2 = hex_digit(name.get_char(2));
            let g1 = hex_digit(name.get_char(3));
            let g2 = hex_digit(name.get_char(4));
            let b1 = hex_digit(name.get_char(5));
            let b2 = hex_digit(name.get_char(6));
            let a1 = hex_digit(name.get_char(7));
            let a2 = hex_digit(name.get_char(8));
            if r1 == 16 || r2 == 16 || g1 == 16 || g2 == 16 || b1 == 16 || b2 == 16 || a1 == 16
                || a2 == 16 {
                return false;
            }
            self.red = (16 * r1 + r2) as u8;
            self.green = (16 * g1 + g2) as u8;
            self.blue = (16 * b1 + b2) as u8;
            self.alpha = (16 * a1 + a2) as u8;
            true
        }
    }

    /// Retrieves a static color for the given color name.
    ///
    /// Static colors are constants of the toolkit, always available and
    /// valid; they should never be mutated.
    pub fn get_static(name: StaticColor) -> (color: Color)
        ensures
            color == spec_static_color(name),
    {
        match name {
            StaticColor::White => (Color { red: 0xff, green: 0xff, blue: 0xff, alpha: 0xff }),
            StaticColor::Black => (Color { red: 0x00, green: 0x00, blue: 0x00, alpha: 0xff }),
            StaticColor::Red => (Color { red: 0xff, green: 0x00, blue: 0x00, alpha: 0xff }),
            StaticColor::DarkRed => (Color { red: 0x80, green: 0x00, blue: 0x00, alpha: 0xff }),
            StaticColor::Green => (Color { red: 0x00, green: 0xff, blue: 0x00, alpha: 0xff }),
            StaticColor::DarkGreen => (Color { red: 0x00, green: 0x80, blue: 0x00, alpha: 0xff }),
            StaticColor::Blue => (Color { red: 0x00, green: 0x00, blue: 0xff, alpha: 0xff }),
            StaticColor::DarkBlue => (Color { red: 0x00, green: 0x00, blue: 0x80, alpha: 0xff }),
            StaticColor::Cyan => (Color { red: 0x00, green: 0xff, blue: 0xff, alpha: 0xff }),
            StaticColor::DarkCyan => (Color { red: 0x00, green: 0x80, blue: 0x80, alpha: 0xff }),
            StaticColor::Magenta => (Color { red: 0xff, green: 0x00, blue: 0xff, alpha: 0xff }),
            StaticColor::DarkMagenta => (Color { red: 0x80, green: 0x00, blue: 0x80, alpha: 0xff }),
            StaticColor::Yellow => (Color { red: 0xff, green: 0xff, blue: 0x00, alpha: 0xff }),
            StaticColor::DarkYellow => (Color { red: 0x80, green: 0x80, blue: 0x00, alpha: 0xff }),
            StaticColor::Gray => (Color { red: 0xa0, green: 0xa0, blue: 0xa4, alpha: 0xff }),
            StaticColor::DarkGray => (Color { red: 0x80, green: 0x80, blue: 0x80, alpha: 0xff }),
            StaticColor::LightGray => (Color { red: 0xc0, green: 0xc0, blue: 0xc0, alpha: 0xff }),
            StaticColor::Butter => (Color { red: 0xed, green: 0xd4, blue: 0x00, alpha: 0xff }),
            StaticColor::ButterLight => (Color { red: 0xfc, green: 0xe9, blue: 0x4f, alpha: 0xff }),
            StaticColor::ButterDark => (Color { red: 0xc4, green: 0xa0, blue: 0x00, alpha: 0xff }),
            StaticColor::Orange => (Color { red: 0xf5, green: 0x79, blue: 0x00, alpha: 0xff }),
            StaticColor::OrangeLight => (Color { red: 0xfc, green: 0xaf, blue: 0x3e, alpha: 0xff }),
            StaticColor::OrangeDark => (Color { red: 0xce, green: 0x5c, blue: 0x00, alpha: 0xff }),
            StaticColor::Chocolate => (Color { red: 0xc1, green: 0x7d, blue: 0x11, alpha: 0xff }),
            StaticColor::ChocolateLight => (Color { red: 0xe9, green: 0xb9, blue: 0x6e, alpha: 0xff }),
            StaticColor::ChocolateDark => (Color { red: 0x8f, green: 0x59, blue: 0x02, alpha: 0xff }),
            StaticColor::Chameleon => (Color { red: 0x73, green: 0xd2, blue: 0x16, alpha: 0xff }),
            StaticColor::ChameleonLight => (Color { red: 0x8a, green: 0xe2, blue: 0x34, alpha: 0xff }),
            StaticColor::ChameleonDark => (Color { red: 0x4e, green: 0x9a, blue: 0x06, alpha: 0xff }),
            StaticColor::SkyBlue => (Color { red: 0x34, green: 0x65, blue: 0xa4, alpha: 0xff }),
            StaticColor::SkyBlueLight => (Color { red: 0x72, green: 0x9f, blue: 0xcf, alpha: 0xff }),
            StaticColor::SkyBlueDark => (Color { red: 0x20, green: 0x4a, blue: 0x87, alpha: 0xff }),
            StaticColor::Plum => (Color { red: 0x75, green: 0x50, blue: 0x7b, alpha: 0xff }),
            StaticColor::PlumLight => (Color { red: 0xad, green: 0x7f, blue: 0xa8, alpha: 0xff }),
            StaticColor::PlumDark => (Color { red: 0x5c, green: 0x35, blue: 0x66, alpha: 0xff }),
            StaticColor::ScarletRed => (Color { red: 0xcc, green: 0x00, blue: 0x00, alpha: 0xff }),
            StaticColor::ScarletRedLight => (Color { red: 0xef, green: 0x29, blue: 0x29, alpha: 0xff }),
            StaticColor::ScarletRedDark => (Color { red: 0xa4, green: 0x00, blue: 0x00, alpha: 0xff }),
            StaticColor::Aluminium1 => (Color { red: 0xee, green: 0xee, blue: 0xec, alpha: 0xff }),
            StaticColor::Aluminium2 => (Color { red: 0xd3, green: 0xd7, blue: 0xcf, alpha: 0xff }),
            StaticColor::Aluminium3 => (Color { red: 0xba, green: 0xbd, blue: 0xb6, alpha: 0xff }),
            StaticColor::Aluminium4 => (Color { red: 0x88, green: 0x8a, blue: 0x85, alpha: 0xff }),
            StaticColor::Aluminium5 => (Color { red: 0x55, green: 0x57, blue: 0x53, alpha: 0xff }),
            StaticColor::Aluminium6 => (Color { red: 0x2e, green: 0x34, blue: 0x36, alpha: 0xff }),
            StaticColor::Transparent => (Color { red: 0x00, green: 0x00, blue: 0x00, alpha: 0x00 }),
        }
    }
}

/// The clamped sum of two channel values.
fn channel_add(x: u8, y: u8) -> (sum: u8)
    ensures
        sum == spec_channel_add(x, y),
{
    let wide: u16 = x as u16 + y as u16;
    if wide > 255 {
        255
    } else {
        wide as u8
    }
}

/// The clamped difference of two channel values.
fn channel_sub(x: u8, y: u8) -> (difference: u8)
    ensures
        difference == spec_channel_sub(x, y),
{
    if x < y {
        0
    } else {
        x - y
    }
}

/// Each byte that `spec_color_of_pixel` reads out of a pixel fits a channel.
proof fn lemma_pixel_bytes_fit(pixel: u32)
    ensures
        (pixel >> 24) & 0xff < 256,
        (pixel >> 16) & 0xff < 256,
        (pixel >> 8) & 0xff < 256,
        pixel & 0xff < 256,
{
    assert((pixel >> 24) & 0xff < 256) by (bit_vector);
    assert((pixel >> 16) & 0xff < 256) by (bit_vector);
    assert((pixel >> 8) & 0xff < 256) by (bit_vector);
    assert(pixel & 0xff < 256) by (bit_vector);
}

/// Packing a color into a pixel and unpacking it again gives the color back,
/// and unpacking a pixel and packing it again gives the pixel back.
pub proof fn lemma_pixel_round_trip(color: Color, pixel: u32)
    ensures
        spec_color_of_pixel(spec_pixel_of(color)) == color,
        spec_pixel_of(spec_color_of_pixel(pixel)) == pixel,
{
    let r = color.red;
    let g = color.green;
    let b = color.blue;
    let a = color.alpha;
    assert(((((r as u32) << 24) | ((g as u32) << 16) | ((b as u32) << 8) | (a as u32)) >> 24)
        & 0xff == r) by (bit_vector);
    assert(((((r as u32) << 24) | ((g as u32) << 16) | ((b as u32) << 8) | (a as u32)) >> 16)
        & 0xff == g) by (bit_vector);
    assert(((((r as u32) << 24) | ((g as u32) << 16) | ((b as u32) << 8) | (a as u32)) >> 8)
        & 0xff == b) by (bit_vector);
    assert((((r as u32) << 24) | ((g as u32) << 16) | ((b as u32) << 8) | (a as u32)) & 0xff == a)
        by (bit_vector);
    lemma_pixel_bytes_fit(pixel);
    assert(((((pixel >> 24) & 0xff) as u8 as u32) << 24) | ((((pixel >> 16) & 0xff) as u8 as u32)
        << 16) | ((((pixel >> 8) & 0xff) as u8 as u32) << 8) | ((pixel & 0xff) as u8 as u32)
        == pixel) by (bit_vector);
}

/// Named colors, for accessing global colors defined by the toolkit: the
/// CGA/EGA palette, the Tango icon palette, and a transparent color.
#[derive(Clone, Copy, Debug, PartialEq, Eq, Structural)]
pub enum StaticColor {
    White,
    Black,
    Red,
    DarkRed,
    Green,
    DarkGreen,
    Blue,
    DarkBlue,
    Cyan,
    DarkCyan,
    Magenta,
    DarkMagenta,
    Yellow,
    DarkYellow,
    Gray,
    DarkGray,
    LightGray,
    Butter,
    ButterLight,
    ButterDark,
    Orange,
    OrangeLight,
    OrangeDark,
    Chocolate,
    ChocolateLight,
    ChocolateDark,
    Chameleon,
    ChameleonLight,
    ChameleonDark,
    SkyBlue,
    SkyBlueLight,
    SkyBlueDark,
    Plum,
    PlumLight,
    PlumDark,
    ScarletRed,
    ScarletRedLight,
    ScarletRedDark,
    Aluminium1,
    Aluminium2,
    Aluminium3,
    Aluminium4,
    Aluminium5,
    Aluminium6,
    Transparent,
}

/// The numeric code under which the native enumeration keeps `name`.
pub open spec fn spec_static_color_code(name: StaticColor) -> i32 {
    match name {
        StaticColor::White => 0,
        StaticColor::Black => 1,
        StaticColor::Red => 2,
        StaticColor::DarkRed => 3,
        StaticColor::Green => 4,
        StaticColor::DarkGreen => 5,
        StaticColor::Blue => 6,
        StaticColor::DarkBlue => 7,
        StaticColor::Cyan => 8,
        StaticColor::DarkCyan => 9,
        StaticColor::Magenta => 10,
        StaticColor::DarkMagenta => 11,
        StaticColor::Yellow => 12,
        StaticColor::DarkYellow => 13,
        StaticColor::Gray => 14,
        StaticColor::DarkGray => 15,
        StaticColor::LightGray => 16,
        StaticColor::Butter => 17,
        StaticColor::ButterLight => 18,
        StaticColor::ButterDark => 19,
        StaticColor::Orange => 20,
        StaticColor::OrangeLight => 21,
        StaticColor::OrangeDark => 22,
        StaticColor::Chocolate => 23,
        StaticColor::ChocolateLight => 24,
        StaticColor::ChocolateDark => 25,
        StaticColor::Chameleon => 26,
        StaticColor::ChameleonLight => 27,
        StaticColor::ChameleonDark => 28,
        StaticColor::SkyBlue => 29,
        StaticColor::SkyBlueLight => 30,
        StaticColor::SkyBlueDark => 31,
        StaticColor::Plum => 32,
        StaticColor::PlumLight => 33,
        StaticColor::PlumDark => 34,
        StaticColor::ScarletRed => 35,
        StaticColor::ScarletRedLight => 36,
        StaticColor::ScarletRedDark => 37,
        StaticColor::Aluminium1 => 38,
        StaticColor::Aluminium2 => 39,
        StaticColor::Aluminium3 => 40,
        StaticColor::Aluminium4 => 41,
        StaticColor::Aluminium5 => 42,
        StaticColor::Aluminium6 => 43,
        StaticColor::Transparent => 44,
    }
}

/// The named color that a native code stands for, if any.
pub open spec fn spec_static_color_of_code(code: i32) -> Option<StaticColor> {
    if code == 0 {
        Some(StaticColor::White)
    } else if code == 1 {
        Some(StaticColor::Black)
    } else if code == 2 {
        Some(StaticColor::Red)
    } else if code == 3 {
        Some(StaticColor::DarkRed)
    } else if code == 4 {
        Some(StaticColor::Green)
    } else if code == 5 {
        Some(StaticColor::DarkGreen)
    } else if code == 6 {
        Some(StaticColor::Blue)
    } else if code == 7 {
        Some(StaticColor::DarkBlue)
    } else if code == 8 {
        Some(StaticColor::Cyan)
    } else if code == 9 {
        Some(StaticColor::DarkCyan)
    } else if code == 10 {
        Some(StaticColor::Magenta)
    } else if code == 11 {
        Some(StaticColor::DarkMagenta)
    } else if code == 12 {
        Some(StaticColor::Yellow)
    } else if code == 13 {
        Some(StaticColor::DarkYellow)
    } else if code == 14 {
        Some(StaticColor::Gray)
    } else if code == 15 {
        Some(StaticColor::DarkGray)
    } else if code == 16 {
        Some(StaticColor::LightGray)
    } else if code == 17 {
        Some(StaticColor::Butter)
    } else if code == 18 {
        Some(StaticColor::ButterLight)
    } else if code == 19 {
        Some(StaticColor::ButterDark)
    } else if code == 20 {
        Some(StaticColor::Orange)
    } else if code == 21 {
        Some(StaticColor::OrangeLight)
    } else if code == 22 {
        Some(StaticColor::OrangeDark)
    } else if code == 23 {
        Some(StaticColor::Chocolate)
    } else if code == 24 {
        Some(StaticColor::ChocolateLight)
    } else if code == 25 {
        Some(StaticColor::ChocolateDark)
    } else if code == 26 {
        Some(StaticColor::Chameleon)
    } else if code == 27 {
        Some(StaticColor::ChameleonLight)
    } else if code == 28 {
        Some(StaticColor::ChameleonDark)
    } else if code == 29 {
        Some(StaticColor::SkyBlue)
    } else if code == 30 {
        Some(StaticColor::SkyBlueLight)
    } else if code == 31 {
        Some(StaticColor::SkyBlueDark)
    } else if code == 32 {
        Some(StaticColor::Plum)
    } else if code == 33 {
        Some(StaticColor::PlumLight)
    } else if code == 34 {
        Some(StaticColor::PlumDark)
    } else if code == 35 {
        Some(StaticColor::ScarletRed)
    } else if code == 36 {
        Some(StaticColor::ScarletRedLight)
    } else if code == 37 {
        Some(StaticColor::ScarletRedDark)
    } else if code == 38 {
        Some(StaticColor::Aluminium1)
    } else if code == 39 {
        Some(StaticColor::Aluminium2)
    } else if code == 40 {
        Some(StaticColor::Aluminium3)
    } else if code == 41 {
        Some(StaticColor::Aluminium4)
    } else if code == 42 {
        Some(StaticColor::Aluminium5)
    } else if code == 43 {
        Some(StaticColor::Aluminium6)
    } else if code == 44 {
        Some(StaticColor::Transparent)
    } else {
        None
    }
}

/// The channel values of a named color. The named colors are constants of
/// the toolkit: every one but `Transparent` is fully opaque.
pub open spec fn spec_static_color(name: StaticColor) -> Color {
    match name {
        StaticColor::White => (Color { red: 0xff, green: 0xff, blue: 0xff, alpha: 0xff }),
        StaticColor::Black => (Color { red: 0x00, green: 0x00, blue: 0x00, alpha: 0xff }),
        StaticColor::Red => (Color { red: 0xff, green: 0x00, blue: 0x00, alpha: 0xff }),
        StaticColor::DarkRed => (Color { red: 0x80, green: 0x00, blue: 0x00, alpha: 0xff }),
        StaticColor::Green => (Color { red: 0x00, green: 0xff, blue: 0x00, alpha: 0xff }),
        StaticColor::DarkGreen => (Color { red: 0x00, green: 0x80, blue: 0x00, alpha: 0xff }),
        StaticColor::Blue => (Color { red: 0x00, green: 0x00, blue: 0xff, alpha: 0xff }),
        StaticColor::DarkBlue => (Color { red: 0x00, green: 0x00, blue: 0x80, alpha: 0xff }),
        StaticColor::Cyan => (Color { red: 0x00, green: 0xff, blue: 0xff, alpha: 0xff }),
        StaticColor::DarkCyan => (Color { red: 0x00, green: 0x80, blue: 0x80, alpha: 0xff }),
        StaticColor::Magenta => (Color { red: 0xff, green: 0x00, blue: 0xff, alpha: 0xff }),
        StaticColor::DarkMagenta => (Color { red: 0x80, green: 0x00, blue: 0x80, alpha: 0xff }),
        StaticColor::Yellow => (Color { red: 0xff, green: 0xff, blue: 0x00, alpha: 0xff }),
        StaticColor::DarkYellow => (Color { red: 0x80, green: 0x80, blue: 0x00, alpha: 0xff }),
        StaticColor::Gray => (Color { red: 0xa0, green: 0xa0, blue: 0xa4, alpha: 0xff }),
        StaticColor::DarkGray => (Color { red: 0x80, green: 0x80, blue: 0x80, alpha: 0xff }),
        StaticColor::LightGray => (Color { red: 0xc0, green: 0xc0, blue: 0xc0, alpha: 0xff }),
        StaticColor::Butter => (Color { red: 0xed, green: 0xd4, blue: 0x00, alpha: 0xff }),
        StaticColor::ButterLight => (Color { red: 0xfc, green: 0xe9, blue: 0x4f, alpha: 0xff }),
        StaticColor::ButterDark => (Color { red: 0xc4, green: 0xa0, blue: 0x00, alpha: 0xff }),
        StaticColor::Orange => (Color { red: 0xf5, green: 0x79, blue: 0x00, alpha: 0xff }),
        StaticColor::OrangeLight => (Color { red: 0xfc, green: 0xaf, blue: 0x3e, alpha: 0xff }),
        StaticColor::OrangeDark => (Color { red: 0xce, green: 0x5c, blue: 0x00, alpha: 0xff }),
        StaticColor::Chocolate => (Color { red: 0xc1, green: 0x7d, blue: 0x11, alpha: 0xff }),
        StaticColor::ChocolateLight => (Color { red: 0xe9, green: 0xb9, blue: 0x6e, alpha: 0xff }),
        StaticColor::ChocolateDark => (Color { red: 0x8f, green: 0x59, blue: 0x02, alpha: 0xff }),
        StaticColor::Chameleon => (Color { red: 0x73, green: 0xd2, blue: 0x16, alpha: 0xff }),
        StaticColor::ChameleonLight => (Color { red: 0x8a, green: 0xe2, blue: 0x34, alpha: 0xff }),
        StaticColor::ChameleonDark => (Color { red: 0x4e, green: 0x9a, blue: 0x06, alpha: 0xff }),
        StaticColor::SkyBlue => (Color { red: 0x34, green: 0x65, blue: 0xa4, alpha: 0xff }),
        StaticColor::SkyBlueLight => (Color { red: 0x72, green: 0x9f, blue: 0xcf, alpha: 0xff }),
        StaticColor::SkyBlueDark => (Color { red: 0x20, green: 0x4a, blue: 0x87, alpha: 0xff }),
        StaticColor::Plum => (Color { red: 0x75, green: 0x50, blue: 0x7b, alpha: 0xff }),
        StaticColor::PlumLight => (Color { red: 0xad, green: 0x7f, blue: 0xa8, alpha: 0xff }),
        StaticColor::PlumDark => (Color { red: 0x5c, green: 0x35, blue: 0x66, alpha: 0xff }),
        StaticColor::ScarletRed => (Color { red: 0xcc, green: 0x00, blue: 0x00, alpha: 0xff }),
        StaticColor::ScarletRedLight => (Color { red: 0xef, green: 0x29, blue: 0x29, alpha: 0xff }),
        StaticColor::ScarletRedDark => (Color { red: 0xa4, green: 0x00, blue: 0x00, alpha: 0xff }),
        StaticColor::Aluminium1 => (Color { red: 0xee, green: 0xee, blue: 0xec, alpha: 0xff }),
        StaticColor::Aluminium2 => (Color { red: 0xd3, green: 0xd7, blue: 0xcf, alpha: 0xff }),
        StaticColor::Aluminium3 => (Color { red: 0xba, green: 0xbd, blue: 0xb6, alpha: 0xff }),
        StaticColor::Aluminium4 => (Color { red: 0x88, green: 0x8a, blue: 0x85, alpha: 0xff }),
        StaticColor::Aluminium5 => (Color { red: 0x55, green: 0x57, blue: 0x53, alpha: 0xff }),
        StaticColor::Aluminium6 => (Color { red: 0x2e, green: 0x34, blue: 0x36, alpha: 0xff }),
        StaticColor::Transparent => (Color { red: 0x00, green: 0x00, blue: 0x00, alpha: 0x00 }),
    }
}

impl StaticColor {
    /// The code that stands for this named color across the foreign
    /// boundary.
    pub fn to_raw(self) -> (code: i32)
        ensures
            code == spec_static_color_code(self),
    {
        match self {
            StaticColor::White => 0,
            StaticColor::Black => 1,
            StaticColor::Red => 2,
            StaticColor::DarkRed => 3,
            StaticColor::Green => 4,
            StaticColor::DarkGreen => 5,
            StaticColor::Blue => 6,
            StaticColor::DarkBlue => 7,
            StaticColor::Cyan => 8,
            StaticColor::DarkCyan => 9,
            StaticColor::Magenta => 10,
            StaticColor::DarkMagenta => 11,
            StaticColor::Yellow => 12,
            StaticColor::DarkYellow => 13,
            StaticColor::Gray => 14,
            StaticColor::DarkGray => 15,
            StaticColor::LightGray => 16,
            StaticColor::Butter => 17,
            StaticColor::ButterLight => 18,
            StaticColor::ButterDark => 19,
            StaticColor::Orange => 20,
            StaticColor::OrangeLight => 21,
            StaticColor::OrangeDark => 22,
            StaticColor::Chocolate => 23,
            StaticColor::ChocolateLight => 24,
            StaticColor::ChocolateDark => 25,
            StaticColor::Chameleon => 26,
            StaticColor::ChameleonLight => 27,
            StaticColor::ChameleonDark => 28,
            StaticColor::SkyBlue => 29,
            StaticColor::SkyBlueLight => 30,
            StaticColor::SkyBlueDark => 31,
            StaticColor::Plum => 32,
            StaticColor::PlumLight => 33,
            StaticColor::PlumDark => 34,
            StaticColor::ScarletRed => 35,
            StaticColor::ScarletRedLight => 36,
            StaticColor::ScarletRedDark => 37,
            StaticColor::Aluminium1 => 38,
            StaticColor::Aluminium2 => 39,
            StaticColor::Aluminium3 => 40,
            StaticColor::Aluminium4 => 41,
            StaticColor::Aluminium5 => 42,
            StaticColor::Aluminium6 => 43,
            StaticColor::Transparent => 44,
        }
    }

    /// Reads a named color back from its native code; `None` for a code the
    /// enumeration does not define.
    pub fn from_raw(code: i32) -> (name: Option<StaticColor>)
        ensures
            name == spec_static_color_of_code(code),
    {
        if code == 0 {
            Some(StaticColor::White)
        } else if code == 1 {
            Some(StaticColor::Black)
        } else if code == 2 {
            Some(StaticColor::Red)
        } else if code == 3 {
            Some(StaticColor::DarkRed)
        } else if code == 4 {
            Some(StaticColor::Green)
        } else if code == 5 {
            Some(StaticColor::DarkGreen)
        } else if code == 6 {
            Some(StaticColor::Blue)
        } else if code == 7 {
            Some(StaticColor::DarkBlue)
        } else if code == 8 {
            Some(StaticColor::Cyan)
        } else if code == 9 {
            Some(StaticColor::DarkCyan)
        } else if code == 10 {
            Some(StaticColor::Magenta)
        } else if code == 11 {
            Some(StaticColor::DarkMagenta)
        } else if code == 12 {
            Some(StaticColor::Yellow)
        } else if code == 13 {
            Some(StaticColor::DarkYellow)
        } else if code == 14 {
            Some(StaticColor::Gray)
        } else if code == 15 {
            Some(StaticColor::DarkGray)
        } else if code == 16 {
            Some(StaticColor::LightGray)
        } else if code == 17 {
            Some(StaticColor::Butter)
        } else if code == 18 {
            Some(StaticColor::ButterLight)
        } else if code == 19 {
            Some(StaticColor::ButterDark)
        } else if code == 20 {
            Some(StaticColor::Orange)
        } else if code == 21 {
            Some(StaticColor::OrangeLight)
        } else if code == 22 {
            Some(StaticColor::OrangeDark)
        } else if code == 23 {
            Some(StaticColor::Chocolate)
        } else if code == 24 {
            Some(StaticColor::ChocolateLight)
        } else if code == 25 {
            Some(StaticColor::ChocolateDark)
        } else if code == 26 {
            Some(StaticColor::Chameleon)
        } else if code == 27 {
            Some(StaticColor::ChameleonLight)
        } else if code == 28 {
            Some(StaticColor::ChameleonDark)
        } else if code == 29 {
            Some(StaticColor::SkyBlue)
        } else if code == 30 {
            Some(StaticColor::SkyBlueLight)
        } else if code == 31 {
            Some(StaticColor::SkyBlueDark)
        } else if code == 32 {
            Some(StaticColor::Plum)
        } else if code == 33 {
            Some(StaticColor::PlumLight)
        } else if code == 34 {
            Some(StaticColor::PlumDark)
        } else if code == 35 {
            Some(StaticColor::ScarletRed)
        } else if code == 36 {
            Some(StaticColor::ScarletRedLight)
        } else if code == 37 {
            Some(StaticColor::ScarletRedDark)
        } else if code == 38 {
            Some(StaticColor::Aluminium1)
        } else if code == 39 {
            Some(StaticColor::Aluminium2)
        } else if code == 40 {
            Some(StaticColor::Aluminium3)
        } else if code == 41 {
            Some(StaticColor::Aluminium4)
        } else if code == 42 {
            Some(StaticColor::Aluminium5)
        } else if code == 43 {
            Some(StaticColor::Aluminium6)
        } else if code == 44 {
            Some(StaticColor::Transparent)
        } else {
            None
        }
    }
}

/// Every named color comes back unchanged from a round trip through its
/// code, and a code that names a color is the code of that named color.
pub proof fn lemma_static_color_code_round_trip(name: StaticColor, code: i32)
    ensures
        spec_static_color_of_code(spec_static_color_code(name)) == Some(name),
        spec_static_color_of_code(code) matches Some(n) ==> spec_static_color_code(n) == code,
{
}

/// The value of a hexadecimal digit, upper or lower case; 16 for a
/// character that is no such digit.
pub open spec fn spec_hex_value(c: char) -> u32 {
    let u = c as u32;
    if 48 <= u && u <= 57 {
        (u - 48) as u32
    } else if 97 <= u && u <= 102 {
        (u - 87) as u32
    } else if 65 <= u && u <= 70 {
        (u - 55) as u32
    } else {
        16u32
    }
}

/// Whether `c` is a hexadecimal digit.
pub open spec fn spec_is_hex_digit(c: char) -> bool {
    spec_hex_value(c) < 16
}

/// The lower-case hexadecimal digit for a value below sixteen.
pub open spec fn spec_hex_char(value: int) -> char {
    if value < 10 {
        (48 + value) as char
    } else {
        (87 + value) as char
    }
}

/// The channel value a single doubled digit names: in the short color
/// forms, `f` stands for `ff`.
pub open spec fn spec_nibble_channel(c: char) -> u8 {
    (17 * spec_hex_value(c)) as u8
}

/// The channel value two digits name, the first one weighted sixteenfold.
pub open spec fn spec_pair_channel(hi: char, lo: char) -> u8 {
    (16 * spec_hex_value(hi) + spec_hex_value(lo)) as u8
}

/// The textual specification of a color: `#rrggbbaa` in lower-case
/// hexadecimal, alpha last.
pub open spec fn spec_color_string(color: Color) -> Seq<char> {
    seq![
        '#',
        spec_hex_char(color.red as int / 16),
        spec_hex_char(color.red as int % 16),
        spec_hex_char(color.green as int / 16),
        spec_hex_char(color.green as int % 16),
        spec_hex_char(color.blue as int / 16),
        spec_hex_char(color.blue as int % 16),
        spec_hex_char(color.alpha as int / 16),
        spec_hex_char(color.alpha as int % 16),
    ]
}

/// The color that a hexadecimal definition names, if any: `#rgb`, `#rgba`,
/// `#rrggbb` or `#rrggbbaa`, with each digit doubled in the short forms, and
/// the color fully opaque where the definition gives no alpha.
pub open spec fn spec_parse_hex_color(s: Seq<char>) -> Option<Color> {
    if s.len() == 4 && s[0] == '#' && spec_is_hex_digit(s[1]) && spec_is_hex_digit(s[2])
        && spec_is_hex_digit(s[3]) {
        Some(
            Color {
                red: spec_nibble_channel(s[1]),
                green: spec_nibble_channel(s[2]),
                blue: spec_nibble_channel(s[3]),
                alpha: 255u8,
            },
        )
    } else if s.len() == 5 && s[0] == '#' && spec_is_hex_digit(s[1]) && spec_is_hex_digit(s[2])
        && spec_is_hex_digit(s[3]) && spec_is_hex_digit(s[4]) {
        Some(
            Color {
                red: spec_nibble_channel(s[1]),
                green: spec_nibble_channel(s[2]),
                blue: spec_nibble_channel(s[3]),
                alpha: spec_nibble_channel(s[4]),
            },
        )
    } else if s.len() == 7 && s[0] == '#' && spec_is_hex_digit(s[1]) && spec_is_hex_digit(s[2])
        && spec_is_hex_digit(s[3]) && spec_is_hex_digit(s[4]) && spec_is_hex_digit(s[5])
        && spec_is_hex_digit(s[6]) {
        Some(
            Color {
                red: spec_pair_channel(s[1], s[2]),
                green: spec_pair_channel(s[3], s[4]),
                blue: spec_pair_channel(s[5], s[6]),
                alpha: 255u8,
            },
        )
    } else if s.len() == 9 && s[0] == '#' && spec_is_hex_digit(s[1]) && spec_is_hex_digit(s[2])
        && spec_is_hex_digit(s[3]) && spec_is_hex_digit(s[4]) && spec_is_hex_digit(s[5])
        && spec_is_hex_digit(s[6]) && spec_is_hex_digit(s[7]) && spec_is_hex_digit(s[8]) {
        Some(
            Color {
                red: spec_pair_channel(s[1], s[2]),
                green: spec_pair_channel(s[3], s[4]),
                blue: spec_pair_channel(s[5], s[6]),
                alpha: spec_pair_channel(s[7], s[8]),
            },
        )
    } else {
        None
    }
}

/// The value of one character as a hexadecimal digit, with 16 standing for
/// a character that is no digit.
fn hex_digit(c: char) -> (value: u32)
    ensures
        value == spec_hex_value(c),
{
    let u = c as u32;
    if 48 <= u && u <= 57 {
        u - 48
    } else if 97 <= u && u <= 102 {
        u - 87
    } else if 65 <= u && u <= 70 {
        u - 55
    } else {
        16
    }
}

/// The one-character string holding the lower-case digit for a value below
/// sixteen.
fn hex_digit_str(value: u8) -> (s: &'static str)
    requires
        value < 16,
    ensures
        s@.len() == 1,
        s@[0] == spec_hex_char(value as int),
{
    proof {
        reveal_strlit("0");
        reveal_strlit("1");
        reveal_strlit("2");
        reveal_strlit("3");
        reveal_strlit("4");
        reveal_strlit("5");
        reveal_strlit("6");
        reveal_strlit("7");
        reveal_strlit("8");
        reveal_strlit("9");
        reveal_strlit("a");
        reveal_strlit("b");
        reveal_strlit("c");
        reveal_strlit("d");
        reveal_strlit("e");
        reveal_strlit("f");
    }
    match value {
        0 => "0",
        1 => "1",
        2 => "2",
        3 => "3",
        4 => "4",
        5 => "5",
        6 => "6",
        7 => "7",
        8 => "8",
        9 => "9",
        10 => "a",
        11 => "b",
        12 => "c",
        13 => "d",
        14 => "e",
        _ => "f",
    }
}

/// A digit read back from the character written for it gives the value the
/// character was written from.
pub proof fn lemma_hex_char_value(value: int)
    requires
        0 <= value < 16,
    ensures
        spec_is_hex_digit(spec_hex_char(value)),
        spec_hex_value(spec_hex_char(value)) == value,
{
}

/// Writing a color out in its `#rrggbbaa` form and parsing that text again
/// gives the color back.
pub proof fn lemma_color_string_round_trip(color: Color)
    ensures
        spec_parse_hex_color(spec_color_string(color)) == Some(color),
{
    let s = spec_color_string(color);
    lemma_hex_char_value(color.red as int / 16);
    lemma_hex_char_value(color.red as int % 16);
    lemma_hex_char_value(color.green as int / 16);
    lemma_hex_char_value(color.green as int % 16);
    lemma_hex_char_value(color.blue as int / 16);
    lemma_hex_char_value(color.blue as int % 16);
    lemma_hex_char_value(color.alpha as int / 16);
    lemma_hex_char_value(color.alpha as int % 16);
    assert(spec_parse_hex_color(s) == Some(color));
}

} // verus!

