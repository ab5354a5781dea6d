pub mod deadline_time_format;
pub mod nonzero;
pub mod project;
pub mod task;
pub mod time;
pub mod zoned;

use vstd::prelude::*;
use vstd::std_specs::convert::FromSpecImpl;

verus! {

/// The ID of a Todoist resource.
#[derive(Debug, Default, Clone, PartialEq, Eq, PartialOrd, Ord, Hash)]
pub struct Id(pub String);

/// The characters of a lowercase hexadecimal digit.
pub open spec fn is_lower_hex_digit(c: char) -> bool {
    ('0' <= c && c <= '9') || ('a' <= c && c <= 'f')
}

/// The hyphenated form of a UUID: 32 lowercase hexadecimal digits in groups
/// of 8, 4, 4, 4 and 12, separated by hyphens.
pub open spec fn is_hyphenated_uuid(s: Seq<char>) -> bool {
    &&& s.len() == 36
    &&& forall|i: int|
        0 <= i < 36 ==> if i == 8 || i == 13 || i == 18 || i == 23 {
            s[i] == '-'
        } else {
            is_lower_hex_digit(#[trigger] s[i])
        }
}

/// The text `uuid::Uuid`'s `Display` writes for a UUID: its 128 bits as 32
/// lowercase hexadecimal digits, grouped and hyphenated.
pub uninterp spec fn uuid_hyphenated_text(u: uuid::Uuid) -> Seq<char>;

/// A version 4 UUID's text: the version digit is `4` and the variant digit
/// is one of `8`, `9`, `a`, `b`.
pub open spec fn is_version4_uuid_text(s: Seq<char>) -> bool {
    &&& s[14] == '4'
    &&& (s[19] == '8' || s[19] == '9' || s[19] == 'a' || s[19] == 'b')
}

/// A hyphenated UUID is 36 characters with hyphens at positions 8, 13, 18
/// and 23 and lowercase hexadecimal digits everywhere else (no uppercase
/// letter, no other character); in a version 4 UUID the first digit of the
/// third group is `4` and the first of the fourth group is `8`, `9`, `a` or
/// `b`.
pub proof fn lemma_uuid_text_shape(s: Seq<char>)
    ensures
        is_hyphenated_uuid(s) ==> s.len() == 36 && s[8] == '-' && s[13] == '-' && s[18] == '-'
            && s[23] == '-',
        is_hyphenated_uuid(s) ==> forall|i: int|
            0 <= i < 36 && i != 8 && i != 13 && i != 18 && i != 23 ==> (('0' <= #[trigger] s[i]
                && s[i] <= '9') || ('a' <= s[i] && s[i] <= 'f')),
        is_version4_uuid_text(s) ==> s[14] == '4',
        is_version4_uuid_text(s) ==> s[19] == '8' || s[19] == '9' || s[19] == 'a' || s[19] == 'b',
{
    if is_hyphenated_uuid(s) {
        assert(s[8] == '-');
        assert(s[13] == '-');
        assert(s[18] == '-');
        assert(s[23] == '-');
    }
}

/// The text of a UUID (`uuid::Uuid`'s `Display`, which writes the
/// hyphenated lowercase form). Claims that the text is the UUID's text, and
/// its shape.
#[verifier::external_body]
pub(crate) fn uuid_text(u: &uuid::Uuid) -> (s: String)
    ensures
        s@ == uuid_hyphenated_text(*u),
        is_hyphenated_uuid(s@),
{
    u.to_string()
}

impl From<uuid::Uuid> for Id {
    /// The UUID's hyphenated lowercase text.
    fn from(value: uuid::Uuid) -> (id: Self)
        ensures
            id.0@ == uuid_hyphenated_text(value),
            is_hyphenated_uuid(id.0@),
    {
        Id(uuid_text(&value))
    }
}

impl FromSpecImpl<uuid::Uuid> for Id {
    /// The ID's text is stated by the postcondition of `from`.
    open spec fn obeys_from_spec() -> bool {
        false
    }

    open spec fn from_spec(v: uuid::Uuid) -> Id {
        vstd::pervasive::arbitrary()
    }
}

impl From<String> for Id {
    fn from(value: String) -> (id: Self)
        ensures
            id.0 == value,
    {
        Id(value)
    }
}

impl FromSpecImpl<String> for Id {
    open spec fn obeys_from_spec() -> bool {
        true
    }

    open spec fn from_spec(v: String) -> Id {
        Id(v)
    }
}

impl From<&str> for Id {
    fn from(value: &str) -> (id: Self)
        ensures
            id.0@ == value@,
    {
        Id(String::from_str(value))
    }
}

impl FromSpecImpl<&str> for Id {
    /// The ID's text is stated by the postcondition of `from`.
    open spec fn obeys_from_spec() -> bool {
        false
    }

    open spec fn from_spec(v: &str) -> Id {
        vstd::pervasive::arbitrary()
    }
}

/// The ID of a Todoist user.
#[derive(Debug, Default, Clone, PartialEq, Eq, PartialOrd, Ord, Hash)]
pub struct Uid(pub String);

/// Represents a Todoist color option.
///
/// See the official Todoist API documentation (the "Colors" section) for the
/// list of colors, their IDs and their hex values.
#[derive(Debug, Default, Clone, Copy, PartialEq, Eq, PartialOrd, Ord, Structural)]
#[non_exhaustive]
pub enum Color {
    BerryRed,
    Red,
    Orange,
    Yellow,
    OliveGreen,
    LimeGreen,
    Green,
    MintGreen,
    Teal,
    SkyBlue,
    LightBlue,
    Blue,
    Grape,
    Violet,
    Lavender,
    Magenta,
    Salmon,
    #[default]
    Charcoal,
    Grey,
    Taupe,
}

/// The numeric ID Todoist assigns to each color.
pub open spec fn color_id(c: Color) -> u8 {
    match c {
        Color::BerryRed => 30,
        Color::Red => 31,
        Color::Orange => 32,
        Color::Yellow => 33,
        Color::OliveGreen => 34,
        Color::LimeGreen => 35,
        Color::Green => 36,
        Color::MintGreen => 37,
        Color::Teal => 38,
        Color::SkyBlue => 39,
        Color::LightBlue => 40,
        Color::Blue => 41,
        Color::Grape => 42,
        Color::Violet => 43,
        Color::Lavender => 44,
        Color::Magenta => 45,
        Color::Salmon => 46,
        Color::Charcoal => 47,
        Color::Grey => 48,
        Color::Taupe => 49,
    }
}

/// The RGB components of each color.
pub open spec fn color_rgb(c: Color) -> (u8, u8, u8) {
    match c {
        Color::BerryRed => (0xb8, 0x25, 0x5f),
        Color::Red => (0xdc, 0x4c, 0x3e),
        Color::Orange => (0xc7, 0x71, 0x00),
        Color::Yellow => (0xb2, 0x91, 0x04),
        Color::OliveGreen => (0x94, 0x9c, 0x31),
        Color::LimeGreen => (0x65, 0xa3, 0x3a),
        Color::Green => (0x36, 0x93, 0x07),
        Color::MintGreen => (0x42, 0xa3, 0x93),
        Color::Teal => (0x14, 0x8f, 0xad),
        Color::SkyBlue => (0x31, 0x9d, 0xc0),
        Color::LightBlue => (0x69, 0x88, 0xa4),
        Color::Blue => (0x41, 0x80, 0xff),
        Color::Grape => (0x69, 0x2e, 0xc2),
        Color::Violet => (0xca, 0x3f, 0xee),
        Color::Lavender => (0xa4, 0x69, 0x8c),
        Color::Magenta => (0xe0, 0x50, 0x95),
        Color::Salmon => (0xc9, 0x76, 0x6f),
        Color::Charcoal => (0x80, 0x80, 0x80),
        Color::Grey => (0x99, 0x99, 0x99),
        Color::Taupe => (0x8f, 0x7a, 0x69),
    }
}

/// The lowercase hexadecimal digit for a value below 16.
pub open spec fn hex_digit(n: u8) -> char {
    if n < 10 {
        (('0' as u8) + n) as char
    } else {
        (('a' as u8) + (n - 10)) as char
    }
}

/// A byte written as exactly two lowercase hexadecimal digits.
pub open spec fn hex_byte(b: u8) -> Seq<char> {
    seq![hex_digit(b / 16), hex_digit(b % 16)]
}

/// `#rrggbb`, the way the Todoist API writes a color.
pub open spec fn hex_rgb(rgb: (u8, u8, u8)) -> Seq<char> {
    seq!['#'] + hex_byte(rgb.0) + hex_byte(rgb.1) + hex_byte(rgb.2)
}

/// Distinct colors have distinct IDs, and every ID lies between 30 and 49.
pub proof fn lemma_color_ids_identify_colors(a: Color, b: Color)
    ensures
        30 <= color_id(a) <= 49,
        color_id(a) == color_id(b) <==> a == b,
{
}

/// A hexadecimal digit determines the value it was written for.
pub proof fn lemma_hex_digit_injective(a: u8, b: u8)
    requires
        a < 16,
        b < 16,
    ensures
        hex_digit(a) == hex_digit(b) <==> a == b,
{
}

/// Two bytes written in hexadecimal give the same text only if they are the
/// same byte.
pub proof fn lemma_hex_byte_injective(a: u8, b: u8)
    ensures
        hex_byte(a) == hex_byte(b) <==> a == b,
{
    if hex_byte(a) == hex_byte(b) {
        assert(hex_byte(a)[0] == hex_byte(b)[0]);
        assert(hex_byte(a)[1] == hex_byte(b)[1]);
        lemma_hex_digit_injective(a / 16, b / 16);
        lemma_hex_digit_injective(a % 16, b % 16);
    }
}

/// Every color's hex text has seven characters: `#` and six lowercase
/// hexadecimal digits.
pub proof fn lemma_hex_shape(c: Color)
    ensures
        hex_rgb(color_rgb(c)).len() == 7,
        hex_rgb(color_rgb(c))[0] == '#',
        forall|i: int|
            1 <= i < 7 ==> is_lower_hex_digit(#[trigger] hex_rgb(color_rgb(c))[i]),
{
}

/// Distinct colors have distinct hex texts.
pub proof fn lemma_color_hex_identifies_colors(a: Color, b: Color)
    ensures
        hex_rgb(color_rgb(a)) == hex_rgb(color_rgb(b)) <==> a == b,
{
    let (ra, ga, ba) = color_rgb(a);
    let (rb, gb, bb) = color_rgb(b);
    let ta = hex_rgb(color_rgb(a));
    let tb = hex_rgb(color_rgb(b));
    if ta == tb {
        assert(hex_byte(ra) == ta.subrange(1, 3));
        assert(hex_byte(rb) == tb.subrange(1, 3));
        assert(hex_byte(ga) == ta.subrange(3, 5));
        assert(hex_byte(gb) == tb.subrange(3, 5));
        assert(hex_byte(ba) == ta.subrange(5, 7));
        assert(hex_byte(bb) == tb.subrange(5, 7));
        lemma_hex_byte_injective(ra, rb);
        lemma_hex_byte_injective(ga, gb);
        lemma_hex_byte_injective(ba, bb);
    }
}

/// One lowercase hexadecimal digit as a string slice.
pub(crate) fn hex_digit_str(n: u8) -> (s: &'static str)
    requires
        n < 16,
    ensures
        s@ == seq![hex_digit(n)],
{
    match n {
        0 => { proof { reveal_strlit("0"); } "0" },
        1 => { proof { reveal_strlit("1"); } "1" },
        2 => { proof { reveal_strlit("2"); } "2" },
        3 => { proof { reveal_strlit("3"); } "3" },
        4 => { proof { reveal_strlit("4"); } "4" },
        5 => { proof { reveal_strlit("5"); } "5" },
        6 => { proof { reveal_strlit("6"); } "6" },
        7 => { proof { reveal_strlit("7"); } "7" },
        8 => { proof { reveal_strlit("8"); } "8" },
        9 => { proof { reveal_strlit("9"); } "9" },
        10 => { proof { reveal_strlit("a"); } "a" },
        11 => { proof { reveal_strlit("b"); } "b" },
        12 => { proof { reveal_strlit("c"); } "c" },
        13 => { proof { reveal_strlit("d"); } "d" },
        14 => { proof { reveal_strlit("e"); } "e" },
        _ => { proof { reveal_strlit("f"); } "f" },
    }
}

/// Appends a byte to `out` as two lowercase hexadecimal digits.
fn push_hex_byte(out: &mut String, b: u8)
    ensures
        final(out)@ == old(out)@ + hex_byte(b),
{
    out.append(hex_digit_str(b / 16));
    out.append(hex_digit_str(b % 16));
}

impl Color {
    /// Returns the ID of the color as per Todoist's API docs.
    pub fn id(&self) -> (id: u8)
        ensures
            id == color_id(*self),
    {
        match self {
            Color::BerryRed => 30,
            Color::Red => 31,
            Color::Orange => 32,
            Color::Yellow => 33,
            Color::OliveGreen => 34,
            Color::LimeGreen => 35,
            Color::Green => 36,
            Color::MintGreen => 37,
            Color::Teal => 38,
            Color::SkyBlue => 39,
            Color::LightBlue => 40,
            Color::Blue => 41,
            Color::Grape => 42,
            Color::Violet => 43,
            Color::Lavender => 44,
            Color::Magenta => 45,
            Color::Salmon => 46,
            Color::Charcoal => 47,
            Color::Grey => 48,
            Color::Taupe => 49,
        }
    }

    /// Returns the color's RGB values as a `u8` tuple.
    pub fn rgb(&self) -> (rgb: (u8, u8, u8))
        ensures
            rgb == color_rgb(*self),
    {
        match self {
            Color::BerryRed => (0xb8, 0x25, 0x5f),
            Color::Red => (0xdc, 0x4c, 0x3e),
            Color::Orange => (0xc7, 0x71, 0x00),
            Color::Yellow => (0xb2, 0x91, 0x04),
            Color::OliveGreen => (0x94, 0x9c, 0x31),
            Color::LimeGreen => (0x65, 0xa3, 0x3a),
            Color::Green => (0x36, 0x93, 0x07),
            Color::MintGreen => (0x42, 0xa3, 0x93),
            Color::Teal => (0x14, 0x8f, 0xad),
            Color::SkyBlue => (0x31, 0x9d, 0xc0),
            Color::LightBlue => (0x69, 0x88, 0xa4),
            Color::Blue => (0x41, 0x80, 0xff),
            Color::Grape => (0x69, 0x2e, 0xc2),
            Color::Violet => (0xca, 0x3f, 0xee),
            Color::Lavender => (0xa4, 0x69, 0x8c),
            Color::Magenta => (0xe0, 0x50, 0x95),
            Color::Salmon => (0xc9, 0x76, 0x6f),
            Color::Charcoal => (0x80, 0x80, 0x80),
            Color::Grey => (0x99, 0x99, 0x99),
            Color::Taupe => (0x8f, 0x7a, 0x69),
        }
    }

    /// Returns the color's hex string, `#rrggbb` in lowercase.
    pub fn hex(&self) -> (s: String)
        ensures
            s@ == hex_rgb(color_rgb(*self)),
    {
        let (r, g, b) = self.rgb();
        let mut out = String::from_str("#");
        proof { reveal_strlit("#"); }
        push_hex_byte(&mut out, r);
        push_hex_byte(&mut out, g);
        push_hex_byte(&mut out, b);
        out
    }
}

/// The name the Todoist API uses for a [`Color`].
pub open spec fn color_name(x: Color) -> Seq<char> {
    match x {
        Color::BerryRed => "berry_red"@,
        Color::Red => "red"@,
        Color::Orange => "orange"@,
        Color::Yellow => "yellow"@,
        Color::OliveGreen => "olive_green"@,
        Color::LimeGreen => "lime_green"@,
        Color::Green => "green"@,
        Color::MintGreen => "mint_green"@,
        Color::Teal => "teal"@,
        Color::SkyBlue => "sky_blue"@,
        Color::LightBlue => "light_blue"@,
        Color::Blue => "blue"@,
        Color::Grape => "grape"@,
        Color::Violet => "violet"@,
        Color::Lavender => "lavender"@,
        Color::Magenta => "magenta"@,
        Color::Salmon => "salmon"@,
        Color::Charcoal => "charcoal"@,
        Color::Grey => "grey"@,
        Color::Taupe => "taupe"@,
    }
}

/// Distinct values have distinct API names, so a name read back gives the
/// value it was written for.
pub proof fn lemma_color_name_identifies(a: Color, b: Color)
    ensures
        color_name(a) == color_name(b) <==> a == b,
{
    reveal_strlit("berry_red");
    reveal_strlit("red");
    reveal_strlit("orange");
    reveal_strlit("yellow");
    reveal_strlit("olive_green");
    reveal_strlit("lime_green");
    reveal_strlit("green");
    reveal_strlit("mint_green");
    reveal_strlit("teal");
    reveal_strlit("sky_blue");
    reveal_strlit("light_blue");
    reveal_strlit("blue");
    reveal_strlit("grape");
    reveal_strlit("violet");
    reveal_strlit("lavender");
    reveal_strlit("magenta");
    reveal_strlit("salmon");
    reveal_strlit("charcoal");
    reveal_strlit("grey");
    reveal_strlit("taupe");
    if color_name(a) == color_name(b) {
        assert(color_name(a).len() == color_name(b).len());
        assert(color_name(a)[0] == color_name(b)[0]);
        assert(color_name(a)[1] == color_name(b)[1]);
        assert(color_name(a)[2] == color_name(b)[2]);
        assert(color_name(a)[3] == color_name(b)[3]);
        assert(color_name(a)[4] == color_name(b)[4]);
    }
}

/// Each color's API name is the snake_case form of its name, and its ID is
/// the one Todoist's documentation gives.
pub proof fn lemma_color_names_and_ids()
    ensures
        color_name(Color::BerryRed) == "berry_red"@,
        color_id(Color::BerryRed) == 30,
        color_name(Color::Red) == "red"@,
        color_id(Color::Red) == 31,
        color_name(Color::Orange) == "orange"@,
        color_id(Color::Orange) == 32,
        color_name(Color::Yellow) == "yellow"@,
        color_id(Color::Yellow) == 33,
        color_name(Color::OliveGreen) == "olive_green"@,
        color_id(Color::OliveGreen) == 34,
        color_name(Color::LimeGreen) == "lime_green"@,
        color_id(Color::LimeGreen) == 35,
        color_name(Color::Green) == "green"@,
        color_id(Color::Green) == 36,
        color_name(Color::MintGreen) == "mint_green"@,
        color_id(Color::MintGreen) == 37,
        color_name(Color::Teal) == "teal"@,
        color_id(Color::Teal) == 38,
        color_name(Color::SkyBlue) == "sky_blue"@,
        color_id(Color::SkyBlue) == 39,
        color_name(Color::LightBlue) == "light_blue"@,
        color_id(Color::LightBlue) == 40,
        color_name(Color::Blue) == "blue"@,
        color_id(Color::Blue) == 41,
        color_name(Color::Grape) == "grape"@,
        color_id(Color::Grape) == 42,
        color_name(Color::Violet) == "violet"@,
        color_id(Color::Violet) == 43,
        color_name(Color::Lavender) == "lavender"@,
        color_id(Color::Lavender) == 44,
        color_name(Color::Magenta) == "magenta"@,
        color_id(Color::Magenta) == 45,
        color_name(Color::Salmon) == "salmon"@,
        color_id(Color::Salmon) == 46,
        color_name(Color::Charcoal) == "charcoal"@,
        color_id(Color::Charcoal) == 47,
        color_name(Color::Grey) == "grey"@,
        color_id(Color::Grey) == 48,
        color_name(Color::Taupe) == "taupe"@,
        color_id(Color::Taupe) == 49,
{
}

impl Color {
    /// The name the Todoist API uses for this value.
    pub fn api_name(&self) -> (s: &'static str)
        ensures
            s@ == color_name(*self),
    {
        match self {
            Color::BerryRed => "berry_red",
            Color::Red => "red",
            Color::Orange => "orange",
            Color::Yellow => "yellow",
            Color::OliveGreen => "olive_green",
            Color::LimeGreen => "lime_green",
            Color::Green => "green",
            Color::MintGreen => "mint_green",
            Color::Teal => "teal",
            Color::SkyBlue => "sky_blue",
            Color::LightBlue => "light_blue",
            Color::Blue => "blue",
            Color::Grape => "grape",
            Color::Violet => "violet",
            Color::Lavender => "lavender",
            Color::Magenta => "magenta",
            Color::Salmon => "salmon",
            Color::Charcoal => "charcoal",
            Color::Grey => "grey",
            Color::Taupe => "taupe",
        }
    }

    /// The value the Todoist API means by a name, if any.
    pub fn from_api_name(s: &str) -> (r: Option<Color>)
        ensures
            match r {
                Some(x) => s@ == color_name(x),
                None => forall|x: Color| s@ != #[trigger] color_name(x),
            },
    {
        let name = String::from_str(s);
        if name == String::from_str("berry_red") {
            return Some(Color::BerryRed);
        }
        if name == String::from_str("red") {
            return Some(Color::Red);
        }
        if name == String::from_str("orange") {
            return Some(Color::Orange);
        }
        if name == String::from_str("yellow") {
            return Some(Color::Yellow);
        }
        if name == String::from_str("olive_green") {
            return Some(Color::OliveGreen);
        }
        if name == String::from_str("lime_green") {
            return Some(Color::LimeGreen);
        }
        if name == String::from_str("green") {
            return Some(Color::Green);
        }
        if name == String::from_str("mint_green") {
            return Some(Color::MintGreen);
        }
        if name == String::from_str("teal") {
            return Some(Color::Teal);
        }
        if name == String::from_str("sky_blue") {
            return Some(Color::SkyBlue);
        }
        if name == String::from_str("light_blue") {
            return Some(Color::LightBlue);
        }
        if name == String::from_str("blue") {
            return Some(Color::Blue);
        }
        if name == String::from_str("grape") {
            return Some(Color::Grape);
        }
        if name == String::from_str("violet") {
            return Some(Color::Violet);
        }
        if name == String::from_str("lavender") {
            return Some(Color::Lavender);
        }
        if name == String::from_str("magenta") {
            return Some(Color::Magenta);
        }
        if name == String::from_str("salmon") {
            return Some(Color::Salmon);
        }
        if name == String::from_str("charcoal") {
            return Some(Color::Charcoal);
        }
        if name == String::from_str("grey") {
            return Some(Color::Grey);
        }
        if name == String::from_str("taupe") {
            return Some(Color::Taupe);
        }
        None
    }
}

} // verus!
