//! The one-line status display's symbol and colour tables, as plain values:
//! glyph names, their sprite-atlas coordinates, and the colour theme. The
//! renderer around the core turns these into textures and draw calls.

use vstd::prelude::*;

verus! {

/// A colour as plain 8-bit channels.
#[derive(Clone, Copy, Debug, PartialEq, Eq, Structural)]
pub struct Rgb {
    pub r: u8,
    pub g: u8,
    pub b: u8,
}

/// The fixed colour theme of the status display.
#[derive(Clone, Copy, Debug, PartialEq, Eq, Structural)]
pub enum Theme {
    LightText,
    DarkText,
    LightBackground,
    DarkBackground,
    DarkerBackground,
    Special,
    Rec,
}

/// The colour assigned to each theme role.
pub open spec fn spec_theme(t: Theme) -> Rgb {
    match t {
        Theme::LightText => Rgb { r: 237, g: 231, b: 227 },
        Theme::DarkText => Rgb { r: 22, g: 105, b: 122 },
        Theme::LightBackground => Rgb { r: 130, g: 192, b: 204 },
        Theme::DarkBackground => Rgb { r: 22, g: 105, b: 122 },
        Theme::DarkerBackground => Rgb { r: 35, g: 31, b: 32 },
        Theme::Special => Rgb { r: 255, g: 166, b: 43 },
        Theme::Rec => Rgb { r: 228, g: 87, b: 46 },
    }
}

impl Theme {
    /// The colour for this theme role.
    pub fn get(&self) -> (c: Rgb)
        ensures
            c == spec_theme(*self),
    {
        match *self {
            Theme::LightText => Rgb { r: 237, g: 231, b: 227 },
            Theme::DarkText => Rgb { r: 22, g: 105, b: 122 },
            Theme::LightBackground => Rgb { r: 130, g: 192, b: 204 },
            Theme::DarkBackground => Rgb { r: 22, g: 105, b: 122 },
            Theme::DarkerBackground => Rgb { r: 35, g: 31, b: 32 },
            Theme::Special => Rgb { r: 255, g: 166, b: 43 },
            Theme::Rec => Rgb { r: 228, g: 87, b: 46 },
        }
    }
}

/// A position in the glyph sprite atlas, in tile units.
#[derive(Clone, Copy, Debug, PartialEq, Eq, Structural)]
pub struct TilePos {
    pub x: u32,
    pub y: u32,
}

/// Every glyph the status display can show.
#[allow(non_camel_case_types)]
#[derive(Clone, Copy, Debug, PartialEq, Eq, Structural)]
pub enum SymbolName {
    a,
    b,
    c,
    d,
    e,
    f,
    g,
    h,
    i,
    j,
    k,
    l,
    m,
    n,
    o,
    p,
    q,
    r,
    s,
    t,
    u,
    v,
    w,
    x,
    y,
    z,
    A,
    B,
    C,
    D,
    E,
    F,
    G,
    H,
    I,
    J,
    K,
    L,
    M,
    N,
    O,
    P,
    Q,
    R,
    S,
    T,
    U,
    V,
    W,
    X,
    Y,
    Z,
    Zero,
    One,
    Two,
    Three,
    Four,
    Five,
    Six,
    Seven,
    Eight,
    Nine,
    Dot,
    Colon,
    Comma,
    SemiColon,
    OpenParentisis,
    CloseParentisis,
    OpenCurly,
    CloseCurly,
    OpenSquare,
    CloseSquare,
    Star,
    ExclamationMark,
    QuestionMark,
    Caret,
    HashTag,
    Dollar,
    Percent,
    Ampersand,
    Minus,
    Plus,
    At,
    GreaterThen,
    LesserThen,
    Camera,
    Person,
    RecOn,
    RecOff,
    LevelUp,
    Null,
}

/// The sprite-atlas tile of each glyph.
pub open spec fn spec_atlas(sym: SymbolName) -> TilePos {
    match sym {
        SymbolName::a => TilePos { x: 0, y: 0 },
        SymbolName::b => TilePos { x: 1, y: 0 },
        SymbolName::c => TilePos { x: 2, y: 0 },
        SymbolName::d => TilePos { x: 3, y: 0 },
        SymbolName::e => TilePos { x: 4, y: 0 },
        SymbolName::f => TilePos { x: 5, y: 0 },
        SymbolName::g => TilePos { x: 6, y: 0 },
        SymbolName::h => TilePos { x: 7, y: 0 },
        SymbolName::i => TilePos { x: 8, y: 0 },
        SymbolName::j => TilePos { x: 9, y: 0 },
        SymbolName::k => TilePos { x: 10, y: 0 },
        SymbolName::l => TilePos { x: 11, y: 0 },
        SymbolName::m => TilePos { x: 12, y: 0 },
        SymbolName::n => TilePos { x: 13, y: 0 },
        SymbolName::o => TilePos { x: 14, y: 0 },
        SymbolName::p => TilePos { x: 15, y: 0 },
        SymbolName::q => TilePos { x: 16, y: 0 },
        SymbolName::r => TilePos { x: 17, y: 0 },
        SymbolName::s => TilePos { x: 18, y: 0 },
        SymbolName::t => TilePos { x: 19, y: 0 },
        SymbolName::u => TilePos { x: 20, y: 0 },
        SymbolName::v => TilePos { x: 21, y: 0 },
        SymbolName::w => TilePos { x: 22, y: 0 },
        SymbolName::x => TilePos { x: 23, y: 0 },
        SymbolName::y => TilePos { x: 24, y: 0 },
        SymbolName::z => TilePos { x: 25, y: 0 },
        SymbolName::A => TilePos { x: 0, y: 1 },
        SymbolName::B => TilePos { x: 1, y: 1 },
        SymbolName::C => TilePos { x: 2, y: 1 },
        SymbolName::D => TilePos { x: 3, y: 1 },
        SymbolName::E => TilePos { x: 4, y: 1 },
        SymbolName::F => TilePos { x: 5, y: 1 },
        SymbolName::G => TilePos { x: 6, y: 1 },
        SymbolName::H => TilePos { x: 7, y: 1 },
        SymbolName::I => TilePos { x: 8, y: 1 },
        SymbolName::J => TilePos { x: 9, y: 1 },
        SymbolName::K => TilePos { x: 10, y: 1 },
        SymbolName::L => TilePos { x: 11, y: 1 },
        SymbolName::M => TilePos { x: 12, y: 1 },
        SymbolName::N => TilePos { x: 13, y: 1 },
        SymbolName::O => TilePos { x: 14, y: 1 },
        SymbolName::P => TilePos { x: 15, y: 1 },
        SymbolName::Q => TilePos { x: 16, y: 1 },
        SymbolName::R => TilePos { x: 17, y: 1 },
        SymbolName::S => TilePos { x: 18, y: 1 },
        SymbolName::T => TilePos { x: 19, y: 1 },
        SymbolName::U => TilePos { x: 20, y: 1 },
        SymbolName::V => TilePos { x: 21, y: 1 },
        SymbolName::W => TilePos { x: 22, y: 1 },
        SymbolName::X => TilePos { x: 23, y: 1 },
        SymbolName::Y => TilePos { x: 24, y: 1 },
        SymbolName::Z => TilePos { x: 25, y: 1 },
        SymbolName::Zero => TilePos { x: 0, y: 2 },
        SymbolName::One => TilePos { x: 1, y: 2 },
        SymbolName::Two => TilePos { x: 2, y: 2 },
        SymbolName::Three => TilePos { x: 3, y: 2 },
        SymbolName::Four => TilePos { x: 4, y: 2 },
        SymbolName::Five => TilePos { x: 5, y: 2 },
        SymbolName::Six => TilePos { x: 6, y: 2 },
        SymbolName::Seven => TilePos { x: 7, y: 2 },
        SymbolName::Eight => TilePos { x: 8, y: 2 },
        SymbolName::Nine => TilePos { x: 9, y: 2 },
        SymbolName::Dot => TilePos { x: 10, y: 2 },
        SymbolName::Colon => TilePos { x: 11, y: 2 },
        SymbolName::Comma => TilePos { x: 12, y: 2 },
        SymbolName::SemiColon => TilePos { x: 13, y: 2 },
        SymbolName::OpenParentisis => TilePos { x: 14, y: 2 },
        SymbolName::CloseParentisis => TilePos { x: 20, y: 2 },
        SymbolName::OpenCurly => TilePos { x: 23, y: 2 },
        SymbolName::CloseCurly => TilePos { x: 18, y: 2 },
        SymbolName::OpenSquare => TilePos { x: 3, y: 3 },
        SymbolName::CloseSquare => TilePos { x: 4, y: 3 },
        SymbolName::Star => TilePos { x: 15, y: 2 },
        SymbolName::ExclamationMark => TilePos { x: 16, y: 2 },
        SymbolName::QuestionMark => TilePos { x: 17, y: 2 },
        SymbolName::Caret => TilePos { x: 19, y: 2 },
        SymbolName::HashTag => TilePos { x: 21, y: 2 },
        SymbolName::Dollar => TilePos { x: 22, y: 2 },
        SymbolName::Percent => TilePos { x: 24, y: 2 },
        SymbolName::Ampersand => TilePos { x: 25, y: 2 },
        SymbolName::Minus => TilePos { x: 0, y: 3 },
        SymbolName::Plus => TilePos { x: 1, y: 3 },
        SymbolName::At => TilePos { x: 2, y: 3 },
        SymbolName::GreaterThen => TilePos { x: 6, y: 3 },
        SymbolName::LesserThen => TilePos { x: 5, y: 3 },
        SymbolName::Camera => TilePos { x: 0, y: 4 },
        SymbolName::Person => TilePos { x: 1, y: 4 },
        SymbolName::RecOn => TilePos { x: 2, y: 4 },
        SymbolName::RecOff => TilePos { x: 3, y: 4 },
        SymbolName::LevelUp => TilePos { x: 4, y: 4 },
        SymbolName::Null => TilePos { x: 25, y: 7 },
    }
}

/// The glyph shown for each character (unknown characters show nothing).
pub open spec fn spec_symbol_of(c: char) -> SymbolName {
    if c == 'a' {
        SymbolName::a
    } else if c == 'b' {
        SymbolName::b
    } else if c == 'c' {
        SymbolName::c
    } else if c == 'd' {
        SymbolName::d
    } else if c == 'e' {
        SymbolName::e
    } else if c == 'f' {
        SymbolName::f
    } else if c == 'g' {
        SymbolName::g
    } else if c == 'h' {
        SymbolName::h
    } else if c == 'i' {
        SymbolName::i
    } else if c == 'j' {
        SymbolName::j
    } else if c == 'k' {
        SymbolName::k
    } else if c == 'l' {
        SymbolName::l
    } else if c == 'm' {
        SymbolName::m
    } else if c == 'n' {
        SymbolName::n
    } else if c == 'o' {
        SymbolName::o
    } else if c == 'p' {
        SymbolName::p
    } else if c == 'q' {
        SymbolName::q
    } else if c == 'r' {
        SymbolName::r
    } else if c == 's' {
        SymbolName::s
    } else if c == 't' {
        SymbolName::t
    } else if c == 'u' {
        SymbolName::u
    } else if c == 'v' {
        SymbolName::v
    } else if c == 'w' {
        SymbolName::w
    } else if c == 'x' {
        SymbolName::x
    } else if c == 'y' {
        SymbolName::y
    } else if c == 'z' {
        SymbolName::z
    } else if c == 'A' {
        SymbolName::A
    } else if c == 'B' {
        SymbolName::B
    } else if c == 'C' {
        SymbolName::C
    } else if c == 'D' {
        SymbolName::D
    } else if c == 'E' {
        SymbolName::E
    } else if c == 'F' {
        SymbolName::F
    } else if c == 'G' {
        SymbolName::G
    } else if c == 'H' {
        SymbolName::H
    } else if c == 'I' {
        SymbolName::I
    } else if c == 'J' {
        SymbolName::J
    } else if c == 'K' {
        SymbolName::K
    } else if c == 'L' {
        SymbolName::L
    } else if c == 'M' {
        SymbolName::M
    } else if c == 'N' {
        SymbolName::N
    } else if c == 'O' {
        SymbolName::O
    } else if c == 'P' {
        SymbolName::P
    } else if c == 'Q' {
        SymbolName::Q
    } else if c == 'R' {
        SymbolName::R
    } else if c == 'S' {
        SymbolName::S
    } else if c == 'T' {
        SymbolName::T
    } else if c == 'U' {
        SymbolName::U
    } else if c == 'V' {
        SymbolName::V
    } else if c == 'W' {
        SymbolName::W
    } else if c == 'X' {
        SymbolName::X
    } else if c == 'Y' {
        SymbolName::Y
    } else if c == 'Z' {
        SymbolName::Z
    } else if c == '0' {
        SymbolName::Zero
    } else if c == '1' {
        SymbolName::One
    } else if c == '2' {
        SymbolName::Two
    } else if c == '3' {
        SymbolName::Three
    } else if c == '4' {
        SymbolName::Four
    } else if c == '5' {
        SymbolName::Five
    } else if c == '6' {
        SymbolName::Six
    } else if c == '7' {
        SymbolName::Seven
    } else if c == '8' {
        SymbolName::Eight
    } else if c == '9' {
        SymbolName::Nine
    } else if c == '.' {
        SymbolName::Dot
    } else if c == ':' {
        SymbolName::Colon
    } else if c == ',' {
        SymbolName::Comma
    } else if c == ';' {
        SymbolName::SemiColon
    } else if c == '(' {
        SymbolName::OpenParentisis
    } else if c == ')' {
        SymbolName::CloseParentisis
    } else if c == '{' {
        SymbolName::OpenCurly
    } else if c == '}' {
        SymbolName::CloseCurly
    } else if c == '[' {
        SymbolName::OpenSquare
    } else if c == ']' {
        SymbolName::CloseSquare
    } else if c == '*' {
        SymbolName::Star
    } else if c == '!' {
        SymbolName::ExclamationMark
    } else if c == '?' {
        SymbolName::QuestionMark
    } else if c == '^' {
        SymbolName::Caret
    } else if c == '#' {
        SymbolName::HashTag
    } else if c == '$' {
        SymbolName::Dollar
    } else if c == '%' {
        SymbolName::Percent
    } else if c == '&' {
        SymbolName::Ampersand
    } else if c == '-' {
        SymbolName::Minus
    } else if c == '+' {
        SymbolName::Plus
    } else if c == '@' {
        SymbolName::At
    } else if c == '>' {
        SymbolName::GreaterThen
    } else if c == '<' {
        SymbolName::LesserThen
    } else if c == '"' {
        SymbolName::LevelUp
    } else {
        SymbolName::Null
    }
}

impl SymbolName {
    /// Where this glyph sits in the sprite atlas, in tile units.
    pub fn atlas(&self) -> (p: TilePos)
        ensures
            p == spec_atlas(*self),
    {
        match *self {
            SymbolName::a => TilePos { x: 0, y: 0 },
            SymbolName::b => TilePos { x: 1, y: 0 },
            SymbolName::c => TilePos { x: 2, y: 0 },
            SymbolName::d => TilePos { x: 3, y: 0 },
            SymbolName::e => TilePos { x: 4, y: 0 },
            SymbolName::f => TilePos { x: 5, y: 0 },
            SymbolName::g => TilePos { x: 6, y: 0 },
            SymbolName::h => TilePos { x: 7, y: 0 },
            SymbolName::i => TilePos { x: 8, y: 0 },
            SymbolName::j => TilePos { x: 9, y: 0 },
            SymbolName::k => TilePos { x: 10, y: 0 },
            SymbolName::l => TilePos { x: 11, y: 0 },
            SymbolName::m => TilePos { x: 12, y: 0 },
            SymbolName::n => TilePos { x: 13, y: 0 },
            SymbolName::o => TilePos { x: 14, y: 0 },
            SymbolName::p => TilePos { x: 15, y: 0 },
            SymbolName::q => TilePos { x: 16, y: 0 },
            SymbolName::r => TilePos { x: 17, y: 0 },
            SymbolName::s => TilePos { x: 18, y: 0 },
            SymbolName::t => TilePos { x: 19, y: 0 },
            SymbolName::u => TilePos { x: 20, y: 0 },
            SymbolName::v => TilePos { x: 21, y: 0 },
            SymbolName::w => TilePos { x: 22, y: 0 },
            SymbolName::x => TilePos { x: 23, y: 0 },
            SymbolName::y => TilePos { x: 24, y: 0 },
            SymbolName::z => TilePos { x: 25, y: 0 },
            SymbolName::A => TilePos { x: 0, y: 1 },
            SymbolName::B => TilePos { x: 1, y: 1 },
            SymbolName::C => TilePos { x: 2, y: 1 },
            SymbolName::D => TilePos { x: 3, y: 1 },
            SymbolName::E => TilePos { x: 4, y: 1 },
            SymbolName::F => TilePos { x: 5, y: 1 },
            SymbolName::G => TilePos { x: 6, y: 1 },
            SymbolName::H => TilePos { x: 7, y: 1 },
            SymbolName::I => TilePos { x: 8, y: 1 },
            SymbolName::J => TilePos { x: 9, y: 1 },
            SymbolName::K => TilePos { x: 10, y: 1 },
            SymbolName::L => TilePos { x: 11, y: 1 },
            SymbolName::M => TilePos { x: 12, y: 1 },
            SymbolName::N => TilePos { x: 13, y: 1 },
            SymbolName::O => TilePos { x: 14, y: 1 },
            SymbolName::P => TilePos { x: 15, y: 1 },
            SymbolName::Q => TilePos { x: 16, y: 1 },
            SymbolName::R => TilePos { x: 17, y: 1 },
            SymbolName::S => TilePos { x: 18, y: 1 },
            SymbolName::T => TilePos { x: 19, y: 1 },
            SymbolName::U => TilePos { x: 20, y: 1 },
            SymbolName::V => TilePos { x: 21, y: 1 },
            SymbolName::W => TilePos { x: 22, y: 1 },
            SymbolName::X => TilePos { x: 23, y: 1 },
            SymbolName::Y => TilePos { x: 24, y: 1 },
            SymbolName::Z => TilePos { x: 25, y: 1 },
            SymbolName::Zero => TilePos { x: 0, y: 2 },
            SymbolName::One => TilePos { x: 1, y: 2 },
            SymbolName::Two => TilePos { x: 2, y: 2 },
            SymbolName::Three => TilePos { x: 3, y: 2 },
            SymbolName::Four => TilePos { x: 4, y: 2 },
            SymbolName::Five => TilePos { x: 5, y: 2 },
            SymbolName::Six => TilePos { x: 6, y: 2 },
            SymbolName::Seven => TilePos { x: 7, y: 2 },
            SymbolName::Eight => TilePos { x: 8, y: 2 },
            SymbolName::Nine => TilePos { x: 9, y: 2 },
            SymbolName::Dot => TilePos { x: 10, y: 2 },
            SymbolName::Colon => TilePos { x: 11, y: 2 },
            SymbolName::Comma => TilePos { x: 12, y: 2 },
            SymbolName::SemiColon => TilePos { x: 13, y: 2 },
            SymbolName::OpenParentisis => TilePos { x: 14, y: 2 },
            SymbolName::CloseParentisis => TilePos { x: 20, y: 2 },
            SymbolName::OpenCurly => TilePos { x: 23, y: 2 },
            SymbolName::CloseCurly => TilePos { x: 18, y: 2 },
            SymbolName::OpenSquare => TilePos { x: 3, y: 3 },
            SymbolName::CloseSquare => TilePos { x: 4, y: 3 },
            SymbolName::Star => TilePos { x: 15, y: 2 },
            SymbolName::ExclamationMark => TilePos { x: 16, y: 2 },
            SymbolName::QuestionMark => TilePos { x: 17, y: 2 },
            SymbolName::Caret => TilePos { x: 19, y: 2 },
            SymbolName::HashTag => TilePos { x: 21, y: 2 },
            SymbolName::Dollar => TilePos { x: 22, y: 2 },
            SymbolName::Percent => TilePos { x: 24, y: 2 },
            SymbolName::Ampersand => TilePos { x: 25, y: 2 },
            SymbolName::Minus => TilePos { x: 0, y: 3 },
            SymbolName::Plus => TilePos { x: 1, y: 3 },
            SymbolName::At => TilePos { x: 2, y: 3 },
            SymbolName::GreaterThen => TilePos { x: 6, y: 3 },
            SymbolName::LesserThen => TilePos { x: 5, y: 3 },
            SymbolName::Camera => TilePos { x: 0, y: 4 },
            SymbolName::Person => TilePos { x: 1, y: 4 },
            SymbolName::RecOn => TilePos { x: 2, y: 4 },
            SymbolName::RecOff => TilePos { x: 3, y: 4 },
            SymbolName::LevelUp => TilePos { x: 4, y: 4 },
            SymbolName::Null => TilePos { x: 25, y: 7 },
        }
    }

    /// The glyph shown for `character`.
    pub fn get(character: char) -> (sym: SymbolName)
        ensures
            sym == spec_symbol_of(character),
    {
        match character {
            'a' => SymbolName::a,
            'b' => SymbolName::b,
            'c' => SymbolName::c,
            'd' => SymbolName::d,
            'e' => SymbolName::e,
            'f' => SymbolName::f,
            'g' => SymbolName::g,
            'h' => SymbolName::h,
            'i' => SymbolName::i,
            'j' => SymbolName::j,
            'k' => SymbolName::k,
            'l' => SymbolName::l,
            'm' => SymbolName::m,
            'n' => SymbolName::n,
            'o' => SymbolName::o,
            'p' => SymbolName::p,
            'q' => SymbolName::q,
            'r' => SymbolName::r,
            's' => SymbolName::s,
            't' => SymbolName::t,
            'u' => SymbolName::u,
            'v' => SymbolName::v,
            'w' => SymbolName::w,
            'x' => SymbolName::x,
            'y' => SymbolName::y,
            'z' => SymbolName::z,
            'A' => SymbolName::A,
            'B' => SymbolName::B,
            'C' => SymbolName::C,
            'D' => SymbolName::D,
            'E' => SymbolName::E,
            'F' => SymbolName::F,
            'G' => SymbolName::G,
            'H' => SymbolName::H,
            'I' => SymbolName::I,
            'J' => SymbolName::J,
            'K' => SymbolName::K,
            'L' => SymbolName::L,
            'M' => SymbolName::M,
            'N' => SymbolName::N,
            'O' => SymbolName::O,
            'P' => SymbolName::P,
            'Q' => SymbolName::Q,
            'R' => SymbolName::R,
            'S' => SymbolName::S,
            'T' => SymbolName::T,
            'U' => SymbolName::U,
            'V' => SymbolName::V,
            'W' => SymbolName::W,
            'X' => SymbolName::X,
            'Y' => SymbolName::Y,
            'Z' => SymbolName::Z,
            '0' => SymbolName::Zero,
            '1' => SymbolName::One,
            '2' => SymbolName::Two,
            '3' => SymbolName::Three,
            '4' => SymbolName::Four,
            '5' => SymbolName::Five,
            '6' => SymbolName::Six,
            '7' => SymbolName::Seven,
            '8' => SymbolName::Eight,
            '9' => SymbolName::Nine,
            '.' => SymbolName::Dot,
            ':' => SymbolName::Colon,
            ',' => SymbolName::Comma,
            ';' => SymbolName::SemiColon,
            '(' => SymbolName::OpenParentisis,
            ')' => SymbolName::CloseParentisis,
            '{' => SymbolName::OpenCurly,
            '}' => SymbolName::CloseCurly,
            '[' => SymbolName::OpenSquare,
            ']' => SymbolName::CloseSquare,
            '*' => SymbolName::Star,
            '!' => SymbolName::ExclamationMark,
            '?' => SymbolName::QuestionMark,
            '^' => SymbolName::Caret,
            '#' => SymbolName::HashTag,
            '$' => SymbolName::Dollar,
            '%' => SymbolName::Percent,
            '&' => SymbolName::Ampersand,
            '-' => SymbolName::Minus,
            '+' => SymbolName::Plus,
            '@' => SymbolName::At,
            '>' => SymbolName::GreaterThen,
            '<' => SymbolName::LesserThen,
            '"' => SymbolName::LevelUp,
            _ => SymbolName::Null,
        }
    }

    /// The glyphs for `text`, one per character, in order.
    pub fn get_text(text: &str) -> (r: Vec<SymbolName>)
        ensures
            r@.len() == text@.len(),
            forall|i: int| 0 <= i < r@.len() ==> r@[i] == spec_symbol_of(text@[i]),
    {
        let n = text.unicode_len();
        let mut symbol_collection: Vec<SymbolName> = Vec::new();
        let mut i: usize = 0;
        while i < n
            invariant
                n == text@.len(),
                i <= n,
                symbol_collection@.len() == i,
                forall|j: int|
                    0 <= j < i ==> symbol_collection@[j] == spec_symbol_of(text@[j]),
            decreases n - i,
        {
            let symbol = SymbolName::get(text.get_char(i));
            symbol_collection.push(symbol);
            i += 1;
        }
        symbol_collection
    }
}

/// One display cell: a glyph and its colours.
#[derive(Clone, Copy, Debug, PartialEq, Eq, Structural)]
pub struct Symbol {
    pub background_colour: Rgb,
    pub colour: Rgb,
    pub s: SymbolName,
}

impl Default for Symbol {
    fn default() -> (s: Symbol)
        ensures
            s.background_colour == (Rgb { r: 0, g: 0, b: 0 }),
            s.colour == (Rgb { r: 255, g: 255, b: 255 }),
            s.s == SymbolName::Null,
    {
        Symbol {
            background_colour: Rgb { r: 0, g: 0, b: 0 },
            colour: Rgb { r: 255, g: 255, b: 255 },
            s: SymbolName::Null,
        }
    }
}

/// How a sprite sheet should be loaded by the renderer.
pub struct SpriteSheetConfig {
    pub tile_size_x: i32,
    pub tile_size_y: i32,
    pub atlas_path: String,
}

} // verus!
