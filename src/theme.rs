use vstd::prelude::*;

use crate::text::{contains_seq, lower_of, lowercase, str_contains};

verus! {

pub open spec fn is_hex_digit(c: char) -> bool {
    ('0' <= c <= '9') || ('a' <= c <= 'f') || ('A' <= c <= 'F')
}

/// A colour written `#rrggbb`: `#` and six hexadecimal digits, nothing else.
pub open spec fn is_hex_color(s: Seq<char>) -> bool {
    &&& s.len() == 7
    &&& s[0] == '#'
    &&& forall|i: int| 1 <= i < 7 ==> is_hex_digit(#[trigger] s[i])
}

/// A character that a regular expression reads as itself.
pub open spec fn is_plain_char(c: char) -> bool {
    ('a' <= c <= 'z') || ('A' <= c <= 'Z') || ('0' <= c <= '9') || c == '-' || c == '_' || c == ':'
        || c == ' '
}

/// A pattern made of a plain key followed by `.*`: the key and the rest of
/// its line.
pub open spec fn is_line_rest_pattern(p: Seq<char>) -> bool {
    &&& 3 <= p.len() <= 64
    &&& p[p.len() - 2] == '.'
    &&& p[p.len() - 1] == '*'
    &&& forall|i: int| 0 <= i < p.len() - 2 ==> is_plain_char(#[trigger] p[i])
}

/// The first position at or after `i` where `key` occurs in `s`.
pub open spec fn occurrence_from(s: Seq<char>, key: Seq<char>, i: int) -> Option<int>
    decreases s.len() + 1 - i,
{
    if i < 0 || i > s.len() - key.len() {
        None
    } else if s.subrange(i, i + key.len()) == key {
        Some(i)
    } else {
        occurrence_from(s, key, i + 1)
    }
}

/// The position of the first line break at or after `i`, or the end of `s`.
pub open spec fn line_end(s: Seq<char>, i: int) -> int
    decreases s.len() - i,
{
    if i < 0 || i >= s.len() {
        s.len() as int
    } else if s[i] == '\n' {
        i
    } else {
        line_end(s, i + 1)
    }
}

/// `s` with its first occurrence of `key`, and the rest of that line, replaced
/// by `rep`; `s` itself when `key` does not occur.
pub open spec fn replace_line_rest(s: Seq<char>, key: Seq<char>, rep: Seq<char>) -> Seq<char> {
    match occurrence_from(s, key, 0) {
        Some(i) => s.subrange(0, i) + rep + s.subrange(line_end(s, i + key.len()), s.len() as int),
        None => s,
    }
}

/// Relies on regex::Regex::new and Regex::is_match with the pattern
/// `^#[0-9a-fA-F]{6}$`, which compiles and matches exactly the `#rrggbb`
/// colours (`$` is the end of the text).
#[verifier::external_body]
fn regex_is_match(pattern: &str, text: &str) -> (r: bool)
    requires
        pattern@ == "^#[0-9a-fA-F]{6}$"@,
    ensures
        r == is_hex_color(text@),
{
    regex::Regex::new(pattern).unwrap().is_match(text)
}

/// Relies on regex::Regex::new and Regex::replace with a plain key followed
/// by `.*`: such a pattern compiles; its leftmost match is the first
/// occurrence of the key and the rest of that line (`.` stops at `\n`), and
/// it is replaced once by `rep`, which holds no `$` to expand.
#[verifier::external_body]
fn regex_replace(pattern: &str, text: &str, rep: &str) -> (r: String)
    requires
        is_line_rest_pattern(pattern@),
        !rep@.contains('$'),
    ensures
        r@ == replace_line_rest(text@, pattern@.subrange(0, pattern@.len() - 2), rep@),
{
    regex::Regex::new(pattern).unwrap().replace(text, rep).into_owned()
}

/// Whether a configured colour is written `#rrggbb`.
pub fn is_valid_hex_color(color: &str) -> (r: bool)
    ensures
        r == is_hex_color(color@),
{
    regex_is_match("^#[0-9a-fA-F]{6}$", color)
}

/// The stylesheets built into the launcher: the base sheet, the sheet that
/// sets the window background, and the dark and light palettes.
pub struct Stylesheets {
    pub base: String,
    pub back: String,
    pub dark: String,
    pub light: String,
}

/// `sheet` with the line that `pattern` (a key and `.*`) picks set to the key,
/// `color` and `;`, when `color` is a `#rrggbb` colour; `sheet` otherwise.
pub open spec fn with_color(sheet: Seq<char>, pattern: Seq<char>, color: Seq<char>) -> Seq<char> {
    let key = pattern.subrange(0, pattern.len() - 2);
    if is_hex_color(color) {
        replace_line_rest(sheet, key, key + color + ";"@)
    } else {
        sheet
    }
}

/// The base sheet, followed by the background sheet with the configured
/// background when that is a `#rrggbb` colour.
pub open spec fn background_css(base: Seq<char>, back: Seq<char>, background: Seq<char>) -> Seq<char> {
    if is_hex_color(background) {
        base + "\n"@ + with_color(back, "background: .*"@, background)
    } else {
        base
    }
}

/// The palette for the desktop's theme, with the configured accent and
/// selection colours.
pub open spec fn palette_css(dark: Seq<char>, light: Seq<char>, dark_theme: bool, accent: Seq<char>, select: Seq<char>) -> Seq<char> {
    let sheet = if dark_theme { dark } else { light };
    with_color(with_color(sheet, "--accent-color: .*"@, accent), "--select-color: .*"@, select)
}

/// The launcher's whole stylesheet: the palette, then the base and background
/// sheets, then the user's own sheet when there is one.
pub open spec fn themed_css(
    sheets: Stylesheets,
    background: Seq<char>,
    accent: Seq<char>,
    select: Seq<char>,
    user_css: Option<Seq<char>>,
    dark_theme: bool,
) -> Seq<char> {
    let main = background_css(sheets.base@, sheets.back@, background);
    let main = match user_css {
        Some(u) => main + "\n"@ + u,
        None => main,
    };
    palette_css(sheets.dark@, sheets.light@, dark_theme, accent, select) + "\n"@ + main
}

/// Sets the line that `pattern` picks in `sheet` to the configured colour (see
/// `with_color`).
fn override_color(sheet: &str, pattern: &str, color: &str) -> (r: String)
    requires
        is_line_rest_pattern(pattern@),
    ensures
        r@ == with_color(sheet@, pattern@, color@),
{
    if !is_valid_hex_color(color) {
        return String::from_str(sheet);
    }
    let n = pattern.unicode_len();
    let key = pattern.substring_char(0, n - 2);
    let rep = String::from_str(key).concat(color).concat(";");
    proof {
        reveal_strlit(";");
        assert forall|i: int| 0 <= i < rep@.len() implies rep@[i] != '$' by {
            if i < key@.len() {
                assert(is_plain_char(pattern@[i]));
            } else if i < key@.len() + 7 {
                assert(is_hex_digit(color@[i - key@.len()]) || color@[i - key@.len()] == '#');
            }
        }
    }
    regex_replace(pattern, sheet, rep.as_str())
}

/// Builds the launcher's stylesheet (see `themed_css`) from the built-in
/// sheets, the configured colours (a colour that is not `#rrggbb`, such as
/// "default", leaves its sheet as it is), the user's own sheet, and whether
/// the desktop uses a dark theme.
pub fn compose_css(
    sheets: &Stylesheets,
    background: &str,
    accent: &str,
    select: &str,
    user_css: Option<&str>,
    dark_theme: bool,
) -> (r: String)
    ensures
        r@ == themed_css(
            *sheets,
            background@,
            accent@,
            select@,
            match user_css {
                Some(u) => Some(u@),
                None => None,
            },
            dark_theme,
        ),
{
    proof {
        reveal_strlit("background: .*");
        reveal_strlit("--accent-color: .*");
        reveal_strlit("--select-color: .*");
    }
    let mut css = String::from_str(sheets.base.as_str());
    if is_valid_hex_color(background) {
        let back = override_color(sheets.back.as_str(), "background: .*", background);
        css = css.concat("\n").concat(back.as_str());
    }
    match user_css {
        Some(u) => {
            css = css.concat("\n").concat(u);
        },
        None => {},
    }
    let sheet = if dark_theme {
        sheets.dark.as_str()
    } else {
        sheets.light.as_str()
    };
    let palette = override_color(sheet, "--accent-color: .*", accent);
    let palette = override_color(palette.as_str(), "--select-color: .*", select);
    palette.concat("\n").concat(css.as_str())
}

/// Whether the desktop uses a dark theme: no display counts as dark, and a
/// theme is light when its name holds "light" in any case.
pub fn is_dark_theme_active(theme_name: Option<&str>) -> (r: bool)
    ensures
        r == match theme_name {
            Some(n) => !contains_seq(lower_of(n@), "light"@),
            None => true,
        },
{
    match theme_name {
        Some(n) => {
            let low = lowercase(n);
            !str_contains(low.as_str(), "light")
        },
        None => true,
    }
}

/// The search box's icon: a light icon on a dark theme, a dark one otherwise.
pub fn search_icon_path(dark_theme: bool) -> (r: &'static str)
    ensures
        dark_theme ==> r@ == "/usr/share/void-launcher/icons/search-light.png"@,
        !dark_theme ==> r@ == "/usr/share/void-launcher/icons/search-dark.png"@,
{
    if dark_theme {
        "/usr/share/void-launcher/icons/search-light.png"
    } else {
        "/usr/share/void-launcher/icons/search-dark.png"
    }
}

} // verus!
