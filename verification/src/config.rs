use vstd::prelude::*;

use crate::error::AppError;

verus! {

use vstd::string::StrSliceExecFns;

/// A color as red, green and blue components.
#[derive(Clone, Copy, Debug, PartialEq, Eq, Structural)]
pub struct Rgb {
    pub r: u8,
    pub g: u8,
    pub b: u8,
}

/// `c` is one of the sixteen hexadecimal digits, in either case.
pub open spec fn is_hex_digit(c: char) -> bool {
    ||| ('0' as u32 <= c as u32 && c as u32 <= '9' as u32)
    ||| ('a' as u32 <= c as u32 && c as u32 <= 'f' as u32)
    ||| ('A' as u32 <= c as u32 && c as u32 <= 'F' as u32)
}

/// The numeric value of a hexadecimal digit.
pub open spec fn hex_val(c: char) -> int {
    if '0' as u32 <= c as u32 && c as u32 <= '9' as u32 {
        c as u32 - '0' as u32
    } else if 'a' as u32 <= c as u32 && c as u32 <= 'f' as u32 {
        c as u32 - 'a' as u32 + 10
    } else {
        c as u32 - 'A' as u32 + 10
    }
}

/// `s` without one leading `#`.
pub open spec fn strip_hash(s: Seq<char>) -> Seq<char> {
    if s.len() > 0 && s[0] == '#' {
        s.drop_first()
    } else {
        s
    }
}

/// Exactly six hexadecimal digits, after an optional leading `#`.
pub open spec fn valid_hex_color(s: Seq<char>) -> bool {
    &&& strip_hash(s).len() == 6
    &&& forall|i: int| 0 <= i < 6 ==> is_hex_digit(#[trigger] strip_hash(s)[i])
}

/// The byte a pair of hexadecimal digits denotes.
pub open spec fn hex_byte(hi: char, lo: char) -> u8 {
    (hex_val(hi) * 16 + hex_val(lo)) as u8
}

/// The color a valid hexadecimal color string denotes.
pub open spec fn color_of(s: Seq<char>) -> Rgb {
    let t = strip_hash(s);
    Rgb { r: hex_byte(t[0], t[1]), g: hex_byte(t[2], t[3]), b: hex_byte(t[4], t[5]) }
}

/// The numeric value of one hexadecimal digit, or `None` for any other
/// character.
fn hex_digit_val(c: char) -> (r: Option<u8>)
    ensures
        r is Some <==> is_hex_digit(c),
        r is Some ==> r->0 == hex_val(c),
{
    let u = c as u32;
    if 48 <= u && u <= 57 {
        Some((u - 48) as u8)
    } else if 97 <= u && u <= 102 {
        Some((u - 97 + 10) as u8)
    } else if 65 <= u && u <= 70 {
        Some((u - 65 + 10) as u8)
    } else {
        None
    }
}

/// The color a six-hex-digit string denotes, with one optional leading `#`;
/// any other length or any non-hexadecimal character is rejected.
pub fn hex_to_rgb(s: &str) -> (r: Result<Rgb, AppError>)
    ensures
        r is Ok <==> valid_hex_color(s@),
        r is Ok ==> r->Ok_0 == color_of(s@),
        r is Err ==> r->Err_0 == AppError::ParseColor,
{
    let n = s.unicode_len();
    let start: usize = if n >= 1 && s.get_char(0) == '#' {
        1
    } else {
        0
    };
    if n - start != 6 {
        return Err(AppError::ParseColor);
    }
    let d0 = hex_digit_val(s.get_char(start));
    let d1 = hex_digit_val(s.get_char(start + 1));
    let d2 = hex_digit_val(s.get_char(start + 2));
    let d3 = hex_digit_val(s.get_char(start + 3));
    let d4 = hex_digit_val(s.get_char(start + 4));
    let d5 = hex_digit_val(s.get_char(start + 5));
    match (d0, d1, d2, d3, d4, d5) {
        (Some(h0), Some(h1), Some(h2), Some(h3), Some(h4), Some(h5)) => {
            proof {
                assert forall|i: int| 0 <= i < 6 implies is_hex_digit(
                    #[trigger] strip_hash(s@)[i],
                ) by {
                    assert(strip_hash(s@)[i] == s@[start + i]);
                };
            }
            Ok(Rgb { r: h0 * 16 + h1, g: h2 * 16 + h3, b: h4 * 16 + h5 })
        },
        _ => {
            proof {
                if valid_hex_color(s@) {
                    assert(is_hex_digit(strip_hash(s@)[0]));
                    assert(is_hex_digit(strip_hash(s@)[1]));
                    assert(is_hex_digit(strip_hash(s@)[2]));
                    assert(is_hex_digit(strip_hash(s@)[3]));
                    assert(is_hex_digit(strip_hash(s@)[4]));
                    assert(is_hex_digit(strip_hash(s@)[5]));
                }
            }
            Err(AppError::ParseColor)
        },
    }
}

/// The nine named colors of the theme.
#[derive(Clone, Copy, Debug, PartialEq, Eq, Structural)]
pub struct ColorsConfig {
    pub title: Rgb,
    pub connected: Rgb,
    pub disconnected: Rgb,
    pub items: Rgb,
    pub items_selected: Rgb,
    pub normal_mode: Rgb,
    pub search_mode: Rgb,
    pub connection_output: Rgb,
    pub background: Rgb,
}

/// The whole theme configuration.
#[derive(Clone, Copy, Debug, PartialEq, Eq, Structural)]
pub struct Config {
    pub colors: ColorsConfig,
}

/// The nine color strings of the configuration file's `colors` table, still
/// unparsed.
pub struct RawColors {
    pub title: String,
    pub connected: String,
    pub disconnected: String,
    pub items: String,
    pub items_selected: String,
    pub normal_mode: String,
    pub search_mode: String,
    pub connection_output: String,
    pub background: String,
}

/// Every color string of the table is a valid hexadecimal color.
pub open spec fn all_colors_valid(raw: RawColors) -> bool {
    &&& valid_hex_color(raw.title@)
    &&& valid_hex_color(raw.connected@)
    &&& valid_hex_color(raw.disconnected@)
    &&& valid_hex_color(raw.items@)
    &&& valid_hex_color(raw.items_selected@)
    &&& valid_hex_color(raw.normal_mode@)
    &&& valid_hex_color(raw.search_mode@)
    &&& valid_hex_color(raw.connection_output@)
    &&& valid_hex_color(raw.background@)
}

impl Config {
    /// The theme the raw color table denotes. It loads exactly when every
    /// one of the nine strings is a valid hexadecimal color, and rejects the
    /// table otherwise.
    pub fn load(raw: &RawColors) -> (r: Result<Config, AppError>)
        ensures
            r is Ok <==> all_colors_valid(*raw),
            r is Ok ==> r->Ok_0.colors == (ColorsConfig {
                title: color_of(raw.title@),
                connected: color_of(raw.connected@),
                disconnected: color_of(raw.disconnected@),
                items: color_of(raw.items@),
                items_selected: color_of(raw.items_selected@),
                normal_mode: color_of(raw.normal_mode@),
                search_mode: color_of(raw.search_mode@),
                connection_output: color_of(raw.connection_output@),
                background: color_of(raw.background@),
            }),
            r is Err ==> r->Err_0 == AppError::ParseColor,
    {
        let title = match hex_to_rgb(raw.title.as_str()) {
            Ok(c) => c,
            Err(e) => {
                return Err(e);
            },
        };
        let connected = match hex_to_rgb(raw.connected.as_str()) {
            Ok(c) => c,
            Err(e) => {
                return Err(e);
            },
        };
        let disconnected = match hex_to_rgb(raw.disconnected.as_str()) {
            Ok(c) => c,
            Err(e) => {
                return Err(e);
            },
        };
        let items = match hex_to_rgb(raw.items.as_str()) {
            Ok(c) => c,
            Err(e) => {
                return Err(e);
            },
        };
        let items_selected = match hex_to_rgb(raw.items_selected.as_str()) {
            Ok(c) => c,
            Err(e) => {
                return Err(e);
            },
        };
        let normal_mode = match hex_to_rgb(raw.normal_mode.as_str()) {
            Ok(c) => c,
            Err(e) => {
                return Err(e);
            },
        };
        let search_mode = match hex_to_rgb(raw.search_mode.as_str()) {
            Ok(c) => c,
            Err(e) => {
                return Err(e);
            },
        };
        let connection_output = match hex_to_rgb(raw.connection_output.as_str()) {
            Ok(c) => c,
            Err(e) => {
                return Err(e);
            },
        };
        let background = match hex_to_rgb(raw.background.as_str()) {
            Ok(c) => c,
            Err(e) => {
                return Err(e);
            },
        };
        Ok(
            Config {
                colors: ColorsConfig {
                    title,
                    connected,
                    disconnected,
                    items,
                    items_selected,
                    normal_mode,
                    search_mode,
                    connection_output,
                    background,
                },
            },
        )
    }
}

} // verus!
