//! Lexical vocabulary shared by the whole compiler: punctuation, keywords, the
//! named colors and properties of CSS, and positions in a source text.

use crate::text::{char_at, str_eq};
use vstd::prelude::*;

verus! {

/// A punctuation mark of the language.
#[derive(Copy, Clone, Debug, PartialEq, Eq, Structural)]
pub enum Symbol {
    /// `.`
    Period,
    /// `#`
    Hash,
    /// `@`
    At,
    /// `$`
    Dollar,
    /// `(`
    OpenParen,
    /// `)`
    CloseParen,
    /// `{`
    OpenBrace,
    /// `}`
    CloseBrace,
    /// `[`
    OpenBracket,
    /// `]`
    CloseBracket,
    /// `,`
    Comma,
    /// `+`
    Plus,
    /// `-`
    Minus,
    /// `*`
    Mul,
    /// `/`
    Div,
    /// `:`
    Colon,
    /// `;`
    SemiColon,
    /// `~`
    Tilde,
    /// `>`
    Gt,
    /// `<`
    Lt,
    /// `^`
    Xor,
    /// `=`
    Equal,
    /// `|`
    BitOr,
    /// `&`
    BitAnd,
    /// `%`
    Percent,
    /// `"`
    DoubleQuote,
    /// `'`
    SingleQuote,
}

impl Symbol {
    /// The character that spells the symbol.
    pub open spec fn glyph(self) -> char {
        match self {
            Symbol::Period => '.',
            Symbol::Hash => '#',
            Symbol::At => '@',
            Symbol::Dollar => '$',
            Symbol::OpenParen => '(',
            Symbol::CloseParen => ')',
            Symbol::OpenBrace => '{',
            Symbol::CloseBrace => '}',
            Symbol::OpenBracket => '[',
            Symbol::CloseBracket => ']',
            Symbol::Comma => ',',
            Symbol::Plus => '+',
            Symbol::Minus => '-',
            Symbol::Mul => '*',
            Symbol::Div => '/',
            Symbol::Colon => ':',
            Symbol::SemiColon => ';',
            Symbol::Tilde => '~',
            Symbol::Gt => '>',
            Symbol::Lt => '<',
            Symbol::Xor => '^',
            Symbol::Equal => '=',
            Symbol::BitOr => '|',
            Symbol::BitAnd => '&',
            Symbol::Percent => '%',
            Symbol::DoubleQuote => '"',
            Symbol::SingleQuote => '\'',
        }
    }

    /// The symbol as text: its one character.
    pub fn to_string(&self) -> (s: String)
        ensures
            s@ == seq![self.glyph()],
    {
        let text = match self {
            Symbol::Period => {
                proof {
                    reveal_strlit(".");
                }
                "."
            },
            Symbol::Hash => {
                proof {
                    reveal_strlit("#");
                }
                "#"
            },
            Symbol::At => {
                proof {
                    reveal_strlit("@");
                }
                "@"
            },
            Symbol::Dollar => {
                proof {
                    reveal_strlit("$");
                }
                "$"
            },
            Symbol::OpenParen => {
                proof {
                    reveal_strlit("(");
                }
                "("
            },
            Symbol::CloseParen => {
                proof {
                    reveal_strlit(")");
                }
                ")"
            },
            Symbol::OpenBrace => {
                proof {
                    reveal_strlit("{");
                }
                "{"
            },
            Symbol::CloseBrace => {
                proof {
                    reveal_strlit("}");
                }
                "}"
            },
            Symbol::OpenBracket => {
                proof {
                    reveal_strlit("[");
                }
                "["
            },
            Symbol::CloseBracket => {
                proof {
                    reveal_strlit("]");
                }
                "]"
            },
            Symbol::Comma => {
                proof {
                    reveal_strlit(",");
                }
                ","
            },
            Symbol::Plus => {
                proof {
                    reveal_strlit("+");
                }
                "+"
            },
            Symbol::Minus => {
                proof {
                    reveal_strlit("-");
                }
                "-"
            },
            Symbol::Mul => {
                proof {
                    reveal_strlit("*");
                }
                "*"
            },
            Symbol::Div => {
                proof {
                    reveal_strlit("/");
                }
                "/"
            },
            Symbol::Colon => {
                proof {
                    reveal_strlit(":");
                }
                ":"
            },
            Symbol::SemiColon => {
                proof {
                    reveal_strlit(";");
                }
                ";"
            },
            Symbol::Tilde => {
                proof {
                    reveal_strlit("~");
                }
                "~"
            },
            Symbol::Gt => {
                proof {
                    reveal_strlit(">");
                }
                ">"
            },
            Symbol::Lt => {
                proof {
                    reveal_strlit("<");
                }
                "<"
            },
            Symbol::Xor => {
                proof {
                    reveal_strlit("^");
                }
                "^"
            },
            Symbol::Equal => {
                proof {
                    reveal_strlit("=");
                }
                "="
            },
            Symbol::BitOr => {
                proof {
                    reveal_strlit("|");
                }
                "|"
            },
            Symbol::BitAnd => {
                proof {
                    reveal_strlit("&");
                }
                "&"
            },
            Symbol::Percent => {
                proof {
                    reveal_strlit("%");
                }
                "%"
            },
            Symbol::DoubleQuote => {
                proof {
                    reveal_strlit("\"");
                }
                "\""
            },
            Symbol::SingleQuote => {
                proof {
                    reveal_strlit("'");
                }
                "'"
            },
        };
        assert(text@ =~= seq![self.glyph()]);
        String::from_str(text)
    }
}

impl vstd::std_specs::convert::TryFromSpecImpl<char> for Symbol {
    open spec fn obeys_try_from_spec() -> bool {
        true
    }

    /// The symbol that `c` spells, if it spells one.
    open spec fn try_from_spec(c: char) -> Result<Symbol, &'static str> {
        if exists|s: Symbol| s.glyph() == c {
            Ok(choose|s: Symbol| s.glyph() == c)
        } else {
            Err("invalid symbol")
        }
    }
}

impl TryFrom<char> for Symbol {
    type Error = &'static str;

    /// Reads a character as the symbol it spells.
    fn try_from(c: char) -> (r: Result<Symbol, &'static str>)
        ensures
            match r {
                Ok(s) => s.glyph() == c,
                Err(e) => e@ == "invalid symbol"@ && forall|s: Symbol| s.glyph() != c,
            },
    {
        let r = match c {
            '.' => Ok(Symbol::Period),
            '#' => Ok(Symbol::Hash),
            '@' => Ok(Symbol::At),
            '$' => Ok(Symbol::Dollar),
            '(' => Ok(Symbol::OpenParen),
            ')' => Ok(Symbol::CloseParen),
            '{' => Ok(Symbol::OpenBrace),
            '}' => Ok(Symbol::CloseBrace),
            '[' => Ok(Symbol::OpenBracket),
            ']' => Ok(Symbol::CloseBracket),
            ',' => Ok(Symbol::Comma),
            '+' => Ok(Symbol::Plus),
            '-' => Ok(Symbol::Minus),
            '*' => Ok(Symbol::Mul),
            '/' => Ok(Symbol::Div),
            ':' => Ok(Symbol::Colon),
            ';' => Ok(Symbol::SemiColon),
            '~' => Ok(Symbol::Tilde),
            '>' => Ok(Symbol::Gt),
            '<' => Ok(Symbol::Lt),
            '^' => Ok(Symbol::Xor),
            '=' => Ok(Symbol::Equal),
            '|' => Ok(Symbol::BitOr),
            '&' => Ok(Symbol::BitAnd),
            '%' => Ok(Symbol::Percent),
            '"' => Ok(Symbol::DoubleQuote),
            '\'' => Ok(Symbol::SingleQuote),
            _ => Err("invalid symbol"),
        };
        proof {
            if let Ok(s) = r {
                let t = choose|t: Symbol| t.glyph() == c;
                assert(s.glyph() == c);
                assert(t.glyph() == c);
            }
        }
        r
    }
}

impl Symbol {
    /// Reading the character of a symbol gives that symbol, and nothing else
    /// gives it.
    pub proof fn law_glyph_round_trip(s: Symbol, c: char)
        ensures
            <Symbol as vstd::std_specs::convert::TryFromSpec<char>>::try_from_spec(c) == Ok::<
                Symbol,
                &'static str,
            >(s) <==> s.glyph() == c,
    {
        if s.glyph() == c {
            let t = choose|t: Symbol| t.glyph() == c;
            assert(t.glyph() == c);
        }
    }
}

/// A media query; nothing of it is modelled.
#[derive(Clone, Debug, PartialEq, Eq)]
pub struct MediaQuery {}

/// The at-rules of Sass and of CSS.
#[derive(Clone, Debug, PartialEq, Eq)]
pub enum AtRule {
    /// Loads mixins, functions, and variables from other Sass stylesheets, and combines CSS from multiple stylesheets together
    Use,
    /// Loads a Sass stylesheet and makes its mixins, functions, and variables available when your stylesheet is loaded with the `@use` rule
    Forward,
    /// Extends the CSS at-rule to load styles, mixins, functions, and variables from other stylesheets
    Import,
    Mixin,
    Include,
    /// Defines custom functions that can be used in SassScript expressions
    Function,
    /// Allows selectors to inherit styles from one another
    Extend,
    /// Puts styles within it at the root of the CSS document
    AtRoot,
    /// Causes compilation to fail with an error message
    Error,
    /// Prints a warning without stopping compilation entirely
    Warn,
    /// Prints a message for debugging purposes
    Debug,
    If,
    Each,
    For,
    While,

    /// Defines the character set used by the style sheet
    Charset,
    /// Tells the CSS engine that all its content must be considered prefixed with an XML namespace
    Namespace,
    /// A conditional group rule that will apply its content if the device meets the criteria of the condition defined using a media query
    Media,
    /// A conditional group rule that will apply its content if the browser meets the criteria of the given condition
    Supports,
    /// Describes the aspect of layout changes that will be applied when printing the document
    Page,
    /// Describes the aspect of an external font to be downloaded
    FontFace,
    /// Describes the aspect of intermediate steps in a CSS animation sequence
    Keyframes,

    FontFeatureValues,
    Swash,
    Ornaments,
    Annotation,
    Stylistic,
    Styleset,
    CharacterVariant,

    /// Describes the aspects of the viewport for small screen devices
    ///
    /// Currently at the Working Draft stage
    Viewport,
    /// A conditional group rule that will apply its content if the document in which the style sheet is applied meets the criteria of the given condition
    ///
    /// Deferred to Level 4 of CSS Spec
    Document,
    /// Defines specific counter styles that are not part of the predefined set of styles
    ///
    /// At the Candidate Recommendation stage
    CounterStyle,
}

/// A character of white space.
#[derive(Copy, Clone, Debug, PartialEq, Eq, Structural)]
pub enum Whitespace {
    Space,
    Tab,
    Newline,
    CarriageReturn,
}

impl Whitespace {
    /// The character that this white space is.
    pub open spec fn glyph(self) -> char {
        match self {
            Whitespace::Space => ' ',
            Whitespace::Tab => '\t',
            Whitespace::Newline => '\n',
            Whitespace::CarriageReturn => '\r',
        }
    }

    /// The white space as text: its one character.
    pub fn to_string(&self) -> (s: String)
        ensures
            s@ == seq![self.glyph()],
    {
        proof {
            reveal_strlit(" ");
            reveal_strlit("\t");
            reveal_strlit("\n");
            reveal_strlit("\r");
        }
        let text = match self {
            Whitespace::Space => " ",
            Whitespace::Tab => "\t",
            Whitespace::Newline => "\n",
            Whitespace::CarriageReturn => "\r",
        };
        assert(text@ =~= seq![self.glyph()]);
        String::from_str(text)
    }
}

impl vstd::std_specs::convert::TryFromSpecImpl<char> for Whitespace {
    open spec fn obeys_try_from_spec() -> bool {
        true
    }

    /// The white space that `c` is, if it is one.
    open spec fn try_from_spec(c: char) -> Result<Whitespace, &'static str> {
        if exists|w: Whitespace| w.glyph() == c {
            Ok(choose|w: Whitespace| w.glyph() == c)
        } else {
            Err("invalid whitespace")
        }
    }
}

impl TryFrom<char> for Whitespace {
    type Error = &'static str;

    /// Reads a character as white space.
    fn try_from(c: char) -> (r: Result<Whitespace, &'static str>)
        ensures
            match r {
                Ok(w) => w.glyph() == c,
                Err(e) => e@ == "invalid whitespace"@ && forall|w: Whitespace| w.glyph() != c,
            },
    {
        let r = match c {
            ' ' => Ok(Whitespace::Space),
            '\t' => Ok(Whitespace::Tab),
            '\n' => Ok(Whitespace::Newline),
            '\r' => Ok(Whitespace::CarriageReturn),
            _ => Err("invalid whitespace"),
        };
        proof {
            if let Ok(w) = r {
                let t = choose|t: Whitespace| t.glyph() == c;
                assert(w.glyph() == c);
                assert(t.glyph() == c);
            }
        }
        r
    }
}

impl Whitespace {
    /// Reading the character of a white space gives that white space, and
    /// nothing else gives it.
    pub proof fn law_glyph_round_trip(w: Whitespace, c: char)
        ensures
            <Whitespace as vstd::std_specs::convert::TryFromSpec<char>>::try_from_spec(c) == Ok::<
                Whitespace,
                &'static str,
            >(w) <==> w.glyph() == c,
    {
        if w.glyph() == c {
            let t = choose|t: Whitespace| t.glyph() == c;
            assert(t.glyph() == c);
        }
    }
}

/// A comparison operator.
#[derive(Copy, Clone, Debug, PartialEq, Eq, Structural)]
pub enum Op {
    Equal,
    NotEqual,
    GreaterThanEqual,
    LessThanEqual,
}

impl Op {
    /// The operator as it is written.
    pub open spec fn text(self) -> Seq<char> {
        match self {
            Op::Equal => "=="@,
            Op::NotEqual => "!="@,
            Op::GreaterThanEqual => ">="@,
            Op::LessThanEqual => "<="@,
        }
    }

    /// The operator as it is written, as an owned string.
    pub fn to_string(&self) -> (s: String)
        ensures
            s@ == self.text(),
    {
        String::from_str(
            match self {
                Op::Equal => "==",
                Op::NotEqual => "!=",
                Op::GreaterThanEqual => ">=",
                Op::LessThanEqual => "<=",
            },
        )
    }
}

/// A word with a fixed meaning in a value. It is read as it is written:
/// `!important`, `Infinity` and `NaN` among them, and upper and lower case
/// differ.
#[derive(Copy, Clone, Debug, PartialEq, Eq, Structural)]
pub enum Keyword {
    Important,
    Infinity,
    NaN,
    Auto,
    Inherit,
    Initial,
    Unset,
    True,
    False,
    Not,
    And,
    Or,
    Null,
}

impl Keyword {
    /// The keyword as it is written in a style sheet.
    pub open spec fn text(self) -> Seq<char> {
        match self {
            Keyword::Important => "!important"@,
            Keyword::Infinity => "Infinity"@,
            Keyword::NaN => "NaN"@,
            Keyword::Auto => "auto"@,
            Keyword::Inherit => "inherit"@,
            Keyword::Initial => "initial"@,
            Keyword::Unset => "unset"@,
            Keyword::True => "true"@,
            Keyword::False => "false"@,
            Keyword::Not => "not"@,
            Keyword::And => "and"@,
            Keyword::Or => "or"@,
            Keyword::Null => "null"@,
        }
    }

    /// The keyword as it is written in a style sheet.
    pub fn as_str(self) -> (s: &'static str)
        ensures
            s@ == self.text(),
    {
        match self {
            Keyword::Important => "!important",
            Keyword::Infinity => "Infinity",
            Keyword::NaN => "NaN",
            Keyword::Auto => "auto",
            Keyword::Inherit => "inherit",
            Keyword::Initial => "initial",
            Keyword::Unset => "unset",
            Keyword::True => "true",
            Keyword::False => "false",
            Keyword::Not => "not",
            Keyword::And => "and",
            Keyword::Or => "or",
            Keyword::Null => "null",
        }
    }

    /// The keyword as it is written in a style sheet, as an owned string.
    pub fn to_string(&self) -> (s: String)
        ensures
            s@ == self.text(),
    {
        String::from_str(self.as_str())
    }

    /// What tells the texts apart: the character at 2, its length.
    closed spec fn marks(s: Seq<char>) -> (char, int) {
        (char_at(s, 2), s.len() as int)
    }

    /// The Keyword whose text has the marks `m`.
    closed spec fn by_marks(m: (char, int)) -> Keyword {
        if m == ('m', 10int) {
            Keyword::Important
        } else if m == ('f', 8int) {
            Keyword::Infinity
        } else if m == ('N', 3int) {
            Keyword::NaN
        } else if m == ('t', 4int) {
            Keyword::Auto
        } else if m == ('h', 7int) {
            Keyword::Inherit
        } else if m == ('i', 7int) {
            Keyword::Initial
        } else if m == ('s', 5int) {
            Keyword::Unset
        } else if m == ('u', 4int) {
            Keyword::True
        } else if m == ('l', 5int) {
            Keyword::False
        } else if m == ('t', 3int) {
            Keyword::Not
        } else if m == ('d', 3int) {
            Keyword::And
        } else if m == ('\0', 2int) {
            Keyword::Or
        } else if m == ('l', 4int) {
            Keyword::Null
        } else {
            Keyword::Important
        }
    }

    proof fn lemma_marks(p: Keyword)
        ensures
            Self::by_marks(Self::marks(p.text())) == p,
    {
        reveal_strlit("!important");
        reveal_strlit("Infinity");
        reveal_strlit("NaN");
        reveal_strlit("auto");
        reveal_strlit("inherit");
        reveal_strlit("initial");
        reveal_strlit("unset");
        reveal_strlit("true");
        reveal_strlit("false");
        reveal_strlit("not");
        reveal_strlit("and");
        reveal_strlit("or");
        reveal_strlit("null");
    }

    /// No two keywords are written alike.
    pub proof fn lemma_text_injective(a: Keyword, b: Keyword)
        requires
            a.text() == b.text(),
        ensures
            a == b,
    {
        Self::lemma_marks(a);
        Self::lemma_marks(b);
    }

}

impl vstd::std_specs::convert::TryFromSpecImpl<&str> for Keyword {
    open spec fn obeys_try_from_spec() -> bool {
        true
    }

    /// The keyword whose text is `kw`, if there is one.
    open spec fn try_from_spec(kw: &str) -> Result<Keyword, &'static str> {
        if exists|x: Keyword| x.text() == kw@ {
            Ok(choose|x: Keyword| x.text() == kw@)
        } else {
            Err("invalid keyword")
        }
    }
}

impl TryFrom<&str> for Keyword {
    type Error = &'static str;

    /// Reads `kw` as the keyword with that text. Matching is exact: upper
    /// and lower case differ.
    fn try_from(kw: &str) -> (r: Result<Keyword, &'static str>)
        ensures
            match r {
                Ok(x) => x.text() == kw@,
                Err(e) => e@ == "invalid keyword"@ && forall|x: Keyword| x.text() != kw@,
            },
    {
        match Keyword::lookup(kw) {
            Some(x) => {
                proof {
                    let y = choose|y: Keyword| y.text() == kw@;
                    Keyword::lemma_text_injective(x, y);
                }
                Ok(x)
            },
            None => Err("invalid keyword"),
        }
    }
}

impl Keyword {
    /// Goes through the table of texts for `kw`.
    fn lookup(kw: &str) -> (r: Option<Keyword>)
        ensures
            match r {
                Some(x) => x.text() == kw@,
                None => forall|x: Keyword| x.text() != kw@,
            },
    {
        if str_eq(kw, "!important") {
            Some(Keyword::Important)
        } else if str_eq(kw, "Infinity") {
            Some(Keyword::Infinity)
        } else if str_eq(kw, "NaN") {
            Some(Keyword::NaN)
        } else if str_eq(kw, "auto") {
            Some(Keyword::Auto)
        } else if str_eq(kw, "inherit") {
            Some(Keyword::Inherit)
        } else if str_eq(kw, "initial") {
            Some(Keyword::Initial)
        } else if str_eq(kw, "unset") {
            Some(Keyword::Unset)
        } else if str_eq(kw, "true") {
            Some(Keyword::True)
        } else if str_eq(kw, "false") {
            Some(Keyword::False)
        } else if str_eq(kw, "not") {
            Some(Keyword::Not)
        } else if str_eq(kw, "and") {
            Some(Keyword::And)
        } else if str_eq(kw, "or") {
            Some(Keyword::Or)
        } else if str_eq(kw, "null") {
            Some(Keyword::Null)
        } else {
            None
        }
    }
}

impl Keyword {
    /// Reading the text of a keyword gives that keyword, and nothing else
    /// gives it.
    pub proof fn law_text_round_trip(x: Keyword, kw: &str)
        ensures
            <Keyword as vstd::std_specs::convert::TryFromSpec<&str>>::try_from_spec(kw) == Ok::<
                Keyword,
                &'static str,
            >(x) <==> x.text() == kw@,
    {
        if x.text() == kw@ {
            let y = choose|y: Keyword| y.text() == kw@;
            Keyword::lemma_text_injective(x, y);
        }
    }
}

impl vstd::std_specs::convert::FromSpecImpl<Keyword> for &'static str {
    open spec fn obeys_from_spec() -> bool {
        true
    }

    /// The keyword as it is written in a style sheet.
    open spec fn from_spec(keyword: Keyword) -> &'static str {
        match keyword {
            Keyword::Important => "!important",
            Keyword::Infinity => "Infinity",
            Keyword::NaN => "NaN",
            Keyword::Auto => "auto",
            Keyword::Inherit => "inherit",
            Keyword::Initial => "initial",
            Keyword::Unset => "unset",
            Keyword::True => "true",
            Keyword::False => "false",
            Keyword::Not => "not",
            Keyword::And => "and",
            Keyword::Or => "or",
            Keyword::Null => "null",
        }
    }
}

impl From<Keyword> for &'static str {
    /// The keyword as it is written in a style sheet.
    fn from(keyword: Keyword) -> (s: &'static str)
        ensures
            s@ == keyword.text(),
    {
        match keyword {
            Keyword::Important => "!important",
            Keyword::Infinity => "Infinity",
            Keyword::NaN => "NaN",
            Keyword::Auto => "auto",
            Keyword::Inherit => "inherit",
            Keyword::Initial => "initial",
            Keyword::Unset => "unset",
            Keyword::True => "true",
            Keyword::False => "false",
            Keyword::Not => "not",
            Keyword::And => "and",
            Keyword::Or => "or",
            Keyword::Null => "null",
        }
    }
}

/// A color that has a name in CSS, or any other color by its code.
#[derive(Copy, Clone, Debug, PartialEq, Eq, Structural)]
pub enum Color {
    AliceBlue,
    AntiqueWhite,
    Aqua,
    Aquamarine,
    Azure,
    Beige,
    Bisque,
    Black,
    BlanchedAlmond,
    Blue,
    BlueViolet,
    Brown,
    BurlyWood,
    CadetBlue,
    Chartreuse,
    Chocolate,
    Coral,
    CornflowerBlue,
    Cornsilk,
    Crimson,
    Cyan,
    DarkBlue,
    DarkCyan,
    DarkGoldenRod,
    DarkGray,
    DarkGrey,
    DarkGreen,
    DarkKhaki,
    DarkMagenta,
    DarkOliveGreen,
    DarkOrange,
    DarkOrchid,
    DarkRed,
    DarkSalmon,
    DarkSeaGreen,
    DarkSlateBlue,
    DarkSlateGray,
    DarkSlateGrey,
    DarkTurquoise,
    DarkViolet,
    DeepPink,
    DeepSkyBlue,
    DimGray,
    DimGrey,
    DodgerBlue,
    FireBrick,
    FloralWhite,
    ForestGreen,
    Fuchsia,
    Gainsboro,
    GhostWhite,
    Gold,
    GoldenRod,
    Gray,
    Grey,
    Green,
    GreenYellow,
    HoneyDew,
    HotPink,
    IndianRed,
    Indigo,
    Ivory,
    Khaki,
    Lavender,
    LavenderBlush,
    LawnGreen,
    LemonChiffon,
    LightBlue,
    LightCoral,
    LightCyan,
    LightGoldenRodYellow,
    LightGray,
    LightGrey,
    LightGreen,
    LightPink,
    LightSalmon,
    LightSeaGreen,
    LightSkyBlue,
    LightSlateGray,
    LightSlateGrey,
    LightSteelBlue,
    LightYellow,
    Lime,
    LimeGreen,
    Linen,
    Magenta,
    Maroon,
    MediumAquaMarine,
    MediumBlue,
    MediumOrchid,
    MediumPurple,
    MediumSeaGreen,
    MediumSlateBlue,
    MediumSpringGreen,
    MediumTurquoise,
    MediumVioletRed,
    MidnightBlue,
    MintCream,
    MistyRose,
    Moccasin,
    NavajoWhite,
    Navy,
    OldLace,
    Olive,
    OliveDrab,
    Orange,
    OrangeRed,
    Orchid,
    PaleGoldenRod,
    PaleGreen,
    PaleTurquoise,
    PaleVioletRed,
    PapayaWhip,
    PeachPuff,
    Peru,
    Pink,
    Plum,
    PowderBlue,
    Purple,
    RebeccaPurple,
    Red,
    RosyBrown,
    RoyalBlue,
    SaddleBrown,
    Salmon,
    SandyBrown,
    SeaGreen,
    SeaShell,
    Sienna,
    Silver,
    SkyBlue,
    SlateBlue,
    SlateGray,
    SlateGrey,
    Snow,
    SpringGreen,
    SteelBlue,
    Tan,
    Teal,
    Thistle,
    Tomato,
    Turquoise,
    Violet,
    Wheat,
    White,
    WhiteSmoke,
    Yellow,
    YellowGreen,
    /// A color without a name, as `0xRRGGBB`.
    Other(u32),
}

impl Color {
    /// The name of the color in CSS; a color given by its code has none.
    pub open spec fn name(self) -> Option<Seq<char>> {
        match self {
            Color::AliceBlue => Some("aliceblue"@),
            Color::AntiqueWhite => Some("antiquewhite"@),
            Color::Aqua => Some("aqua"@),
            Color::Aquamarine => Some("aquamarine"@),
            Color::Azure => Some("azure"@),
            Color::Beige => Some("beige"@),
            Color::Bisque => Some("bisque"@),
            Color::Black => Some("black"@),
            Color::BlanchedAlmond => Some("blanchedalmond"@),
            Color::Blue => Some("blue"@),
            Color::BlueViolet => Some("blueviolet"@),
            Color::Brown => Some("brown"@),
            Color::BurlyWood => Some("burlywood"@),
            Color::CadetBlue => Some("cadetblue"@),
            Color::Chartreuse => Some("chartreuse"@),
            Color::Chocolate => Some("chocolate"@),
            Color::Coral => Some("coral"@),
            Color::CornflowerBlue => Some("cornflowerblue"@),
            Color::Cornsilk => Some("cornsilk"@),
            Color::Crimson => Some("crimson"@),
            Color::Cyan => Some("cyan"@),
            Color::DarkBlue => Some("darkblue"@),
            Color::DarkCyan => Some("darkcyan"@),
            Color::DarkGoldenRod => Some("darkgoldenrod"@),
            Color::DarkGray => Some("darkgray"@),
            Color::DarkGrey => Some("darkgrey"@),
            Color::DarkGreen => Some("darkgreen"@),
            Color::DarkKhaki => Some("darkkhaki"@),
            Color::DarkMagenta => Some("darkmagenta"@),
            Color::DarkOliveGreen => Some("darkolivegreen"@),
            Color::DarkOrange => Some("darkorange"@),
            Color::DarkOrchid => Some("darkorchid"@),
            Color::DarkRed => Some("darkred"@),
            Color::DarkSalmon => Some("darksalmon"@),
            Color::DarkSeaGreen => Some("darkseagreen"@),
            Color::DarkSlateBlue => Some("darkslateblue"@),
            Color::DarkSlateGray => Some("darkslategray"@),
            Color::DarkSlateGrey => Some("darkslategrey"@),
            Color::DarkTurquoise => Some("darkturquoise"@),
            Color::DarkViolet => Some("darkviolet"@),
            Color::DeepPink => Some("deeppink"@),
            Color::DeepSkyBlue => Some("deepskyblue"@),
            Color::DimGray => Some("dimgray"@),
            Color::DimGrey => Some("dimgrey"@),
            Color::DodgerBlue => Some("dodgerblue"@),
            Color::FireBrick => Some("firebrick"@),
            Color::FloralWhite => Some("floralwhite"@),
            Color::ForestGreen => Some("forestgreen"@),
            Color::Fuchsia => Some("fuchsia"@),
            Color::Gainsboro => Some("gainsboro"@),
            Color::GhostWhite => Some("ghostwhite"@),
            Color::Gold => Some("gold"@),
            Color::GoldenRod => Some("goldenrod"@),
            Color::Gray => Some("gray"@),
            Color::Grey => Some("grey"@),
            Color::Green => Some("green"@),
            Color::GreenYellow => Some("greenyellow"@),
            Color::HoneyDew => Some("honeydew"@),
            Color::HotPink => Some("hotpink"@),
            Color::IndianRed => Some("indianred"@),
            Color::Indigo => Some("indigo"@),
            Color::Ivory => Some("ivory"@),
            Color::Khaki => Some("khaki"@),
            Color::Lavender => Some("lavender"@),
            Color::LavenderBlush => Some("lavenderblush"@),
            Color::LawnGreen => Some("lawngreen"@),
            Color::LemonChiffon => Some("lemonchiffon"@),
            Color::LightBlue => Some("lightblue"@),
            Color::LightCoral => Some("lightcoral"@),
            Color::LightCyan => Some("lightcyan"@),
            Color::LightGoldenRodYellow => Some("lightgoldenrodyellow"@),
            Color::LightGray => Some("lightgray"@),
            Color::LightGrey => Some("lightgrey"@),
            Color::LightGreen => Some("lightgreen"@),
            Color::LightPink => Some("lightpink"@),
            Color::LightSalmon => Some("lightsalmon"@),
            Color::LightSeaGreen => Some("lightseagreen"@),
            Color::LightSkyBlue => Some("lightskyblue"@),
            Color::LightSlateGray => Some("lightslategray"@),
            Color::LightSlateGrey => Some("lightslategrey"@),
            Color::LightSteelBlue => Some("lightsteelblue"@),
            Color::LightYellow => Some("lightyellow"@),
            Color::Lime => Some("lime"@),
            Color::LimeGreen => Some("limegreen"@),
            Color::Linen => Some("linen"@),
            Color::Magenta => Some("magenta"@),
            Color::Maroon => Some("maroon"@),
            Color::MediumAquaMarine => Some("mediumaquamarine"@),
            Color::MediumBlue => Some("mediumblue"@),
            Color::MediumOrchid => Some("mediumorchid"@),
            Color::MediumPurple => Some("mediumpurple"@),
            Color::MediumSeaGreen => Some("mediumseagreen"@),
            Color::MediumSlateBlue => Some("mediumslateblue"@),
            Color::MediumSpringGreen => Some("mediumspringgreen"@),
            Color::MediumTurquoise => Some("mediumturquoise"@),
            Color::MediumVioletRed => Some("mediumvioletred"@),
            Color::MidnightBlue => Some("midnightblue"@),
            Color::MintCream => Some("mintcream"@),
            Color::MistyRose => Some("mistyrose"@),
            Color::Moccasin => Some("moccasin"@),
            Color::NavajoWhite => Some("navajowhite"@),
            Color::Navy => Some("navy"@),
            Color::OldLace => Some("oldlace"@),
            Color::Olive => Some("olive"@),
            Color::OliveDrab => Some("olivedrab"@),
            Color::Orange => Some("orange"@),
            Color::OrangeRed => Some("orangered"@),
            Color::Orchid => Some("orchid"@),
            Color::PaleGoldenRod => Some("palegoldenrod"@),
            Color::PaleGreen => Some("palegreen"@),
            Color::PaleTurquoise => Some("paleturquoise"@),
            Color::PaleVioletRed => Some("palevioletred"@),
            Color::PapayaWhip => Some("papayawhip"@),
            Color::PeachPuff => Some("peachpuff"@),
            Color::Peru => Some("peru"@),
            Color::Pink => Some("pink"@),
            Color::Plum => Some("plum"@),
            Color::PowderBlue => Some("powderblue"@),
            Color::Purple => Some("purple"@),
            Color::RebeccaPurple => Some("rebeccapurple"@),
            Color::Red => Some("red"@),
            Color::RosyBrown => Some("rosybrown"@),
            Color::RoyalBlue => Some("royalblue"@),
            Color::SaddleBrown => Some("saddlebrown"@),
            Color::Salmon => Some("salmon"@),
            Color::SandyBrown => Some("sandybrown"@),
            Color::SeaGreen => Some("seagreen"@),
            Color::SeaShell => Some("seashell"@),
            Color::Sienna => Some("sienna"@),
            Color::Silver => Some("silver"@),
            Color::SkyBlue => Some("skyblue"@),
            Color::SlateBlue => Some("slateblue"@),
            Color::SlateGray => Some("slategray"@),
            Color::SlateGrey => Some("slategrey"@),
            Color::Snow => Some("snow"@),
            Color::SpringGreen => Some("springgreen"@),
            Color::SteelBlue => Some("steelblue"@),
            Color::Tan => Some("tan"@),
            Color::Teal => Some("teal"@),
            Color::Thistle => Some("thistle"@),
            Color::Tomato => Some("tomato"@),
            Color::Turquoise => Some("turquoise"@),
            Color::Violet => Some("violet"@),
            Color::Wheat => Some("wheat"@),
            Color::White => Some("white"@),
            Color::WhiteSmoke => Some("whitesmoke"@),
            Color::Yellow => Some("yellow"@),
            Color::YellowGreen => Some("yellowgreen"@),
            Color::Other(_) => None,
        }
    }

    /// What tells the names apart: the character 5 from the end, the character at 0, the character 2 from the end, its length, the character at 5, the character at 1.
    closed spec fn marks(s: Seq<char>) -> (char, char, char, int, char, char) {
        (char_at(s, s.len() - 5), char_at(s, 0), char_at(s, s.len() - 2), s.len() as int, char_at(s, 5), char_at(s, 1))
    }

    /// The Color whose name has the marks `m`.
    closed spec fn by_marks(m: (char, char, char, int, char, char)) -> Color {
        if m == ('e', 'a', 'u', 9int, 'b', 'l') {
            Color::AliceBlue
        } else if m == ('w', 'a', 't', 12int, 'u', 'n') {
            Color::AntiqueWhite
        } else if m == ('\0', 'a', 'u', 4int, '\0', 'q') {
            Color::Aqua
        } else if m == ('a', 'a', 'n', 10int, 'a', 'q') {
            Color::Aquamarine
        } else if m == ('a', 'a', 'r', 5int, '\0', 'z') {
            Color::Azure
        } else if m == ('b', 'b', 'g', 5int, '\0', 'e') {
            Color::Beige
        } else if m == ('i', 'b', 'u', 6int, 'e', 'i') {
            Color::Bisque
        } else if m == ('b', 'b', 'c', 5int, '\0', 'l') {
            Color::Black
        } else if m == ('l', 'b', 'n', 14int, 'h', 'l') {
            Color::BlanchedAlmond
        } else if m == ('\0', 'b', 'u', 4int, '\0', 'l') {
            Color::Blue
        } else if m == ('i', 'b', 'e', 10int, 'i', 'l') {
            Color::BlueViolet
        } else if m == ('b', 'b', 'w', 5int, '\0', 'r') {
            Color::Brown
        } else if m == ('y', 'b', 'o', 9int, 'w', 'u') {
            Color::BurlyWood
        } else if m == ('t', 'c', 'u', 9int, 'b', 'a') {
            Color::CadetBlue
        } else if m == ('r', 'c', 's', 10int, 'r', 'h') {
            Color::Chartreuse
        } else if m == ('o', 'c', 't', 9int, 'l', 'h') {
            Color::Chocolate
        } else if m == ('c', 'c', 'a', 5int, '\0', 'o') {
            Color::Coral
        } else if m == ('r', 'c', 'u', 14int, 'l', 'o') {
            Color::CornflowerBlue
        } else if m == ('n', 'c', 'l', 8int, 'i', 'o') {
            Color::Cornsilk
        } else if m == ('i', 'c', 'o', 7int, 'o', 'r') {
            Color::Crimson
        } else if m == ('\0', 'c', 'a', 4int, '\0', 'y') {
            Color::Cyan
        } else if m == ('k', 'd', 'u', 8int, 'l', 'a') {
            Color::DarkBlue
        } else if m == ('k', 'd', 'a', 8int, 'y', 'a') {
            Color::DarkCyan
        } else if m == ('e', 'd', 'o', 13int, 'o', 'a') {
            Color::DarkGoldenRod
        } else if m == ('k', 'd', 'a', 8int, 'r', 'a') {
            Color::DarkGray
        } else if m == ('k', 'd', 'e', 8int, 'r', 'a') {
            Color::DarkGrey
        } else if m == ('g', 'd', 'e', 9int, 'r', 'a') {
            Color::DarkGreen
        } else if m == ('k', 'd', 'k', 9int, 'h', 'a') {
            Color::DarkKhaki
        } else if m == ('g', 'd', 't', 11int, 'a', 'a') {
            Color::DarkMagenta
        } else if m == ('g', 'd', 'e', 14int, 'l', 'a') {
            Color::DarkOliveGreen
        } else if m == ('r', 'd', 'g', 10int, 'r', 'a') {
            Color::DarkOrange
        } else if m == ('r', 'd', 'i', 10int, 'r', 'a') {
            Color::DarkOrchid
        } else if m == ('r', 'd', 'e', 7int, 'e', 'a') {
            Color::DarkRed
        } else if m == ('a', 'd', 'o', 10int, 'a', 'a') {
            Color::DarkSalmon
        } else if m == ('g', 'd', 'e', 12int, 'e', 'a') {
            Color::DarkSeaGreen
        } else if m == ('e', 'd', 'u', 13int, 'l', 'a') {
            Color::DarkSlateBlue
        } else if m == ('e', 'd', 'a', 13int, 'l', 'a') {
            Color::DarkSlateGray
        } else if m == ('e', 'd', 'e', 13int, 'l', 'a') {
            Color::DarkSlateGrey
        } else if m == ('u', 'd', 's', 13int, 'u', 'a') {
            Color::DarkTurquoise
        } else if m == ('i', 'd', 'e', 10int, 'i', 'a') {
            Color::DarkViolet
        } else if m == ('p', 'd', 'n', 8int, 'i', 'e') {
            Color::DeepPink
        } else if m == ('y', 'd', 'u', 11int, 'k', 'e') {
            Color::DeepSkyBlue
        } else if m == ('m', 'd', 'a', 7int, 'a', 'i') {
            Color::DimGray
        } else if m == ('m', 'd', 'e', 7int, 'e', 'i') {
            Color::DimGrey
        } else if m == ('r', 'd', 'u', 10int, 'r', 'o') {
            Color::DodgerBlue
        } else if m == ('b', 'f', 'c', 9int, 'r', 'i') {
            Color::FireBrick
        } else if m == ('w', 'f', 't', 11int, 'l', 'l') {
            Color::FloralWhite
        } else if m == ('g', 'f', 'e', 11int, 't', 'o') {
            Color::ForestGreen
        } else if m == ('c', 'f', 'i', 7int, 'i', 'u') {
            Color::Fuchsia
        } else if m == ('s', 'g', 'r', 9int, 'b', 'a') {
            Color::Gainsboro
        } else if m == ('w', 'g', 't', 10int, 'w', 'h') {
            Color::GhostWhite
        } else if m == ('\0', 'g', 'l', 4int, '\0', 'o') {
            Color::Gold
        } else if m == ('e', 'g', 'o', 9int, 'n', 'o') {
            Color::GoldenRod
        } else if m == ('\0', 'g', 'a', 4int, '\0', 'r') {
            Color::Gray
        } else if m == ('\0', 'g', 'e', 4int, '\0', 'r') {
            Color::Grey
        } else if m == ('g', 'g', 'e', 5int, '\0', 'r') {
            Color::Green
        } else if m == ('e', 'g', 'o', 11int, 'y', 'r') {
            Color::GreenYellow
        } else if m == ('e', 'h', 'e', 8int, 'd', 'o') {
            Color::HoneyDew
        } else if m == ('t', 'h', 'n', 7int, 'n', 'o') {
            Color::HotPink
        } else if m == ('a', 'i', 'e', 9int, 'n', 'n') {
            Color::IndianRed
        } else if m == ('n', 'i', 'g', 6int, 'o', 'n') {
            Color::Indigo
        } else if m == ('i', 'i', 'r', 5int, '\0', 'v') {
            Color::Ivory
        } else if m == ('k', 'k', 'k', 5int, '\0', 'h') {
            Color::Khaki
        } else if m == ('e', 'l', 'e', 8int, 'd', 'a') {
            Color::Lavender
        } else if m == ('b', 'l', 's', 13int, 'd', 'a') {
            Color::LavenderBlush
        } else if m == ('g', 'l', 'e', 9int, 'r', 'a') {
            Color::LawnGreen
        } else if m == ('i', 'l', 'o', 12int, 'c', 'e') {
            Color::LemonChiffon
        } else if m == ('t', 'l', 'u', 9int, 'b', 'i') {
            Color::LightBlue
        } else if m == ('c', 'l', 'a', 10int, 'c', 'i') {
            Color::LightCoral
        } else if m == ('t', 'l', 'a', 9int, 'c', 'i') {
            Color::LightCyan
        } else if m == ('e', 'l', 'o', 20int, 'g', 'i') {
            Color::LightGoldenRodYellow
        } else if m == ('t', 'l', 'a', 9int, 'g', 'i') {
            Color::LightGray
        } else if m == ('t', 'l', 'e', 9int, 'g', 'i') {
            Color::LightGrey
        } else if m == ('g', 'l', 'e', 10int, 'g', 'i') {
            Color::LightGreen
        } else if m == ('t', 'l', 'n', 9int, 'p', 'i') {
            Color::LightPink
        } else if m == ('a', 'l', 'o', 11int, 's', 'i') {
            Color::LightSalmon
        } else if m == ('g', 'l', 'e', 13int, 's', 'i') {
            Color::LightSeaGreen
        } else if m == ('y', 'l', 'u', 12int, 's', 'i') {
            Color::LightSkyBlue
        } else if m == ('e', 'l', 'a', 14int, 's', 'i') {
            Color::LightSlateGray
        } else if m == ('e', 'l', 'e', 14int, 's', 'i') {
            Color::LightSlateGrey
        } else if m == ('l', 'l', 'u', 14int, 's', 'i') {
            Color::LightSteelBlue
        } else if m == ('e', 'l', 'o', 11int, 'y', 'i') {
            Color::LightYellow
        } else if m == ('\0', 'l', 'm', 4int, '\0', 'i') {
            Color::Lime
        } else if m == ('g', 'l', 'e', 9int, 'r', 'i') {
            Color::LimeGreen
        } else if m == ('l', 'l', 'e', 5int, '\0', 'i') {
            Color::Linen
        } else if m == ('g', 'm', 't', 7int, 't', 'a') {
            Color::Magenta
        } else if m == ('a', 'm', 'o', 6int, 'n', 'a') {
            Color::Maroon
        } else if m == ('a', 'm', 'n', 16int, 'm', 'e') {
            Color::MediumAquaMarine
        } else if m == ('m', 'm', 'u', 10int, 'm', 'e') {
            Color::MediumBlue
        } else if m == ('r', 'm', 'i', 12int, 'm', 'e') {
            Color::MediumOrchid
        } else if m == ('u', 'm', 'l', 12int, 'm', 'e') {
            Color::MediumPurple
        } else if m == ('g', 'm', 'e', 14int, 'm', 'e') {
            Color::MediumSeaGreen
        } else if m == ('e', 'm', 'u', 15int, 'm', 'e') {
            Color::MediumSlateBlue
        } else if m == ('g', 'm', 'e', 17int, 'm', 'e') {
            Color::MediumSpringGreen
        } else if m == ('u', 'm', 's', 15int, 'm', 'e') {
            Color::MediumTurquoise
        } else if m == ('e', 'm', 'e', 15int, 'm', 'e') {
            Color::MediumVioletRed
        } else if m == ('t', 'm', 'u', 12int, 'g', 'i') {
            Color::MidnightBlue
        } else if m == ('c', 'm', 'a', 9int, 'r', 'i') {
            Color::MintCream
        } else if m == ('y', 'm', 's', 9int, 'r', 'i') {
            Color::MistyRose
        } else if m == ('c', 'm', 'i', 8int, 's', 'o') {
            Color::Moccasin
        } else if m == ('w', 'n', 't', 11int, 'o', 'a') {
            Color::NavajoWhite
        } else if m == ('\0', 'n', 'v', 4int, '\0', 'a') {
            Color::Navy
        } else if m == ('d', 'o', 'c', 7int, 'c', 'l') {
            Color::OldLace
        } else if m == ('o', 'o', 'v', 5int, '\0', 'l') {
            Color::Olive
        } else if m == ('e', 'o', 'a', 9int, 'd', 'l') {
            Color::OliveDrab
        } else if m == ('r', 'o', 'g', 6int, 'e', 'r') {
            Color::Orange
        } else if m == ('g', 'o', 'e', 9int, 'e', 'r') {
            Color::OrangeRed
        } else if m == ('r', 'o', 'i', 6int, 'd', 'r') {
            Color::Orchid
        } else if m == ('e', 'p', 'o', 13int, 'o', 'a') {
            Color::PaleGoldenRod
        } else if m == ('g', 'p', 'e', 9int, 'r', 'a') {
            Color::PaleGreen
        } else if m == ('u', 'p', 's', 13int, 'u', 'a') {
            Color::PaleTurquoise
        } else if m == ('e', 'p', 'e', 13int, 'i', 'a') {
            Color::PaleVioletRed
        } else if m == ('a', 'p', 'i', 10int, 'a', 'a') {
            Color::PapayaWhip
        } else if m == ('h', 'p', 'f', 9int, 'p', 'e') {
            Color::PeachPuff
        } else if m == ('\0', 'p', 'r', 4int, '\0', 'e') {
            Color::Peru
        } else if m == ('\0', 'p', 'n', 4int, '\0', 'i') {
            Color::Pink
        } else if m == ('\0', 'p', 'u', 4int, '\0', 'l') {
            Color::Plum
        } else if m == ('r', 'p', 'u', 10int, 'r', 'o') {
            Color::PowderBlue
        } else if m == ('u', 'p', 'l', 6int, 'e', 'u') {
            Color::Purple
        } else if m == ('u', 'r', 'l', 13int, 'c', 'e') {
            Color::RebeccaPurple
        } else if m == ('\0', 'r', 'e', 3int, '\0', 'e') {
            Color::Red
        } else if m == ('b', 'r', 'w', 9int, 'r', 'o') {
            Color::RosyBrown
        } else if m == ('l', 'r', 'u', 9int, 'b', 'o') {
            Color::RoyalBlue
        } else if m == ('b', 's', 'w', 11int, 'e', 'a') {
            Color::SaddleBrown
        } else if m == ('a', 's', 'o', 6int, 'n', 'a') {
            Color::Salmon
        } else if m == ('b', 's', 'w', 10int, 'b', 'a') {
            Color::SandyBrown
        } else if m == ('g', 's', 'e', 8int, 'e', 'e') {
            Color::SeaGreen
        } else if m == ('s', 's', 'l', 8int, 'e', 'e') {
            Color::SeaShell
        } else if m == ('i', 's', 'n', 6int, 'a', 'i') {
            Color::Sienna
        } else if m == ('i', 's', 'e', 6int, 'r', 'i') {
            Color::Silver
        } else if m == ('y', 's', 'u', 7int, 'u', 'k') {
            Color::SkyBlue
        } else if m == ('e', 's', 'u', 9int, 'b', 'l') {
            Color::SlateBlue
        } else if m == ('e', 's', 'a', 9int, 'g', 'l') {
            Color::SlateGray
        } else if m == ('e', 's', 'e', 9int, 'g', 'l') {
            Color::SlateGrey
        } else if m == ('\0', 's', 'o', 4int, '\0', 'n') {
            Color::Snow
        } else if m == ('g', 's', 'e', 11int, 'g', 'p') {
            Color::SpringGreen
        } else if m == ('l', 's', 'u', 9int, 'b', 't') {
            Color::SteelBlue
        } else if m == ('\0', 't', 'a', 3int, '\0', 'a') {
            Color::Tan
        } else if m == ('\0', 't', 'a', 4int, '\0', 'e') {
            Color::Teal
        } else if m == ('i', 't', 'l', 7int, 'l', 'h') {
            Color::Thistle
        } else if m == ('o', 't', 't', 6int, 'o', 'o') {
            Color::Tomato
        } else if m == ('u', 't', 's', 9int, 'o', 'u') {
            Color::Turquoise
        } else if m == ('i', 'v', 'e', 6int, 't', 'i') {
            Color::Violet
        } else if m == ('w', 'w', 'a', 5int, '\0', 'h') {
            Color::Wheat
        } else if m == ('w', 'w', 't', 5int, '\0', 'h') {
            Color::White
        } else if m == ('s', 'w', 'k', 10int, 's', 'h') {
            Color::WhiteSmoke
        } else if m == ('e', 'y', 'o', 6int, 'w', 'e') {
            Color::Yellow
        } else if m == ('g', 'y', 'e', 11int, 'w', 'e') {
            Color::YellowGreen
        } else {
            Color::AliceBlue
        }
    }

    proof fn lemma_marks(p: Color)
        requires
            p.name() is Some,
        ensures
            Self::by_marks(Self::marks(p.name()->0)) == p,
    {
        reveal_strlit("aliceblue");
        reveal_strlit("antiquewhite");
        reveal_strlit("aqua");
        reveal_strlit("aquamarine");
        reveal_strlit("azure");
        reveal_strlit("beige");
        reveal_strlit("bisque");
        reveal_strlit("black");
        reveal_strlit("blanchedalmond");
        reveal_strlit("blue");
        reveal_strlit("blueviolet");
        reveal_strlit("brown");
        reveal_strlit("burlywood");
        reveal_strlit("cadetblue");
        reveal_strlit("chartreuse");
        reveal_strlit("chocolate");
        reveal_strlit("coral");
        reveal_strlit("cornflowerblue");
        reveal_strlit("cornsilk");
        reveal_strlit("crimson");
        reveal_strlit("cyan");
        reveal_strlit("darkblue");
        reveal_strlit("darkcyan");
        reveal_strlit("darkgoldenrod");
        reveal_strlit("darkgray");
        reveal_strlit("darkgrey");
        reveal_strlit("darkgreen");
        reveal_strlit("darkkhaki");
        reveal_strlit("darkmagenta");
        reveal_strlit("darkolivegreen");
        reveal_strlit("darkorange");
        reveal_strlit("darkorchid");
        reveal_strlit("darkred");
        reveal_strlit("darksalmon");
        reveal_strlit("darkseagreen");
        reveal_strlit("darkslateblue");
        reveal_strlit("darkslategray");
        reveal_strlit("darkslategrey");
        reveal_strlit("darkturquoise");
        reveal_strlit("darkviolet");
        reveal_strlit("deeppink");
        reveal_strlit("deepskyblue");
        reveal_strlit("dimgray");
        reveal_strlit("dimgrey");
        reveal_strlit("dodgerblue");
        reveal_strlit("firebrick");
        reveal_strlit("floralwhite");
        reveal_strlit("forestgreen");
        reveal_strlit("fuchsia");
        reveal_strlit("gainsboro");
        reveal_strlit("ghostwhite");
        reveal_strlit("gold");
        reveal_strlit("goldenrod");
        reveal_strlit("gray");
        reveal_strlit("grey");
        reveal_strlit("green");
        reveal_strlit("greenyellow");
        reveal_strlit("honeydew");
        reveal_strlit("hotpink");
        reveal_strlit("indianred");
        reveal_strlit("indigo");
        reveal_strlit("ivory");
        reveal_strlit("khaki");
        reveal_strlit("lavender");
        reveal_strlit("lavenderblush");
        reveal_strlit("lawngreen");
        reveal_strlit("lemonchiffon");
        reveal_strlit("lightblue");
        reveal_strlit("lightcoral");
        reveal_strlit("lightcyan");
        reveal_strlit("lightgoldenrodyellow");
        reveal_strlit("lightgray");
        reveal_strlit("lightgrey");
        reveal_strlit("lightgreen");
        reveal_strlit("lightpink");
        reveal_strlit("lightsalmon");
        reveal_strlit("lightseagreen");
        reveal_strlit("lightskyblue");
        reveal_strlit("lightslategray");
        reveal_strlit("lightslategrey");
        reveal_strlit("lightsteelblue");
        reveal_strlit("lightyellow");
        reveal_strlit("lime");
        reveal_strlit("limegreen");
        reveal_strlit("linen");
        reveal_strlit("magenta");
        reveal_strlit("maroon");
        reveal_strlit("mediumaquamarine");
        reveal_strlit("mediumblue");
        reveal_strlit("mediumorchid");
        reveal_strlit("mediumpurple");
        reveal_strlit("mediumseagreen");
        reveal_strlit("mediumslateblue");
        reveal_strlit("mediumspringgreen");
        reveal_strlit("mediumturquoise");
        reveal_strlit("mediumvioletred");
        reveal_strlit("midnightblue");
        reveal_strlit("mintcream");
        reveal_strlit("mistyrose");
        reveal_strlit("moccasin");
        reveal_strlit("navajowhite");
        reveal_strlit("navy");
        reveal_strlit("oldlace");
        reveal_strlit("olive");
        reveal_strlit("olivedrab");
        reveal_strlit("orange");
        reveal_strlit("orangered");
        reveal_strlit("orchid");
        reveal_strlit("palegoldenrod");
        reveal_strlit("palegreen");
        reveal_strlit("paleturquoise");
        reveal_strlit("palevioletred");
        reveal_strlit("papayawhip");
        reveal_strlit("peachpuff");
        reveal_strlit("peru");
        reveal_strlit("pink");
        reveal_strlit("plum");
        reveal_strlit("powderblue");
        reveal_strlit("purple");
        reveal_strlit("rebeccapurple");
        reveal_strlit("red");
        reveal_strlit("rosybrown");
        reveal_strlit("royalblue");
        reveal_strlit("saddlebrown");
        reveal_strlit("salmon");
        reveal_strlit("sandybrown");
        reveal_strlit("seagreen");
        reveal_strlit("seashell");
        reveal_strlit("sienna");
        reveal_strlit("silver");
        reveal_strlit("skyblue");
        reveal_strlit("slateblue");
        reveal_strlit("slategray");
        reveal_strlit("slategrey");
        reveal_strlit("snow");
        reveal_strlit("springgreen");
        reveal_strlit("steelblue");
        reveal_strlit("tan");
        reveal_strlit("teal");
        reveal_strlit("thistle");
        reveal_strlit("tomato");
        reveal_strlit("turquoise");
        reveal_strlit("violet");
        reveal_strlit("wheat");
        reveal_strlit("white");
        reveal_strlit("whitesmoke");
        reveal_strlit("yellow");
        reveal_strlit("yellowgreen");
    }

    /// No two colors share a name.
    pub proof fn lemma_name_injective(a: Color, b: Color)
        requires
            a.name() is Some,
            a.name() == b.name(),
        ensures
            a == b,
    {
        Self::lemma_marks(a);
        Self::lemma_marks(b);
    }

}

impl vstd::std_specs::convert::TryFromSpecImpl<&str> for Color {
    open spec fn obeys_try_from_spec() -> bool {
        true
    }

    /// The color whose name is `string`, if there is one.
    open spec fn try_from_spec(string: &str) -> Result<Color, &'static str> {
        if exists|x: Color| x.name() == Some(string@) {
            Ok(choose|x: Color| x.name() == Some(string@))
        } else {
            Err("invalid color")
        }
    }
}

impl TryFrom<&str> for Color {
    type Error = &'static str;

    /// Reads `string` as the color with that name. Matching is exact: upper
    /// and lower case differ.
    fn try_from(string: &str) -> (r: Result<Color, &'static str>)
        ensures
            match r {
                Ok(x) => x.name() == Some(string@),
                Err(e) => e@ == "invalid color"@ && forall|x: Color| x.name() != Some(string@),
            },
    {
        match Color::lookup(string) {
            Some(x) => {
                proof {
                    let y = choose|y: Color| y.name() == Some(string@);
                    Color::lemma_name_injective(x, y);
                }
                Ok(x)
            },
            None => Err("invalid color"),
        }
    }
}

impl Color {
    /// Goes through the table of names for `string`.
    fn lookup(string: &str) -> (r: Option<Color>)
        ensures
            match r {
                Some(x) => x.name() == Some(string@),
                None => forall|x: Color| x.name() != Some(string@),
            },
    {
        if str_eq(string, "aliceblue") {
            Some(Color::AliceBlue)
        } else if str_eq(string, "antiquewhite") {
            Some(Color::AntiqueWhite)
        } else if str_eq(string, "aqua") {
            Some(Color::Aqua)
        } else if str_eq(string, "aquamarine") {
            Some(Color::Aquamarine)
        } else if str_eq(string, "azure") {
            Some(Color::Azure)
        } else if str_eq(string, "beige") {
            Some(Color::Beige)
        } else if str_eq(string, "bisque") {
            Some(Color::Bisque)
        } else if str_eq(string, "black") {
            Some(Color::Black)
        } else if str_eq(string, "blanchedalmond") {
            Some(Color::BlanchedAlmond)
        } else if str_eq(string, "blue") {
            Some(Color::Blue)
        } else if str_eq(string, "blueviolet") {
            Some(Color::BlueViolet)
        } else if str_eq(string, "brown") {
            Some(Color::Brown)
        } else if str_eq(string, "burlywood") {
            Some(Color::BurlyWood)
        } else if str_eq(string, "cadetblue") {
            Some(Color::CadetBlue)
        } else if str_eq(string, "chartreuse") {
            Some(Color::Chartreuse)
        } else if str_eq(string, "chocolate") {
            Some(Color::Chocolate)
        } else if str_eq(string, "coral") {
            Some(Color::Coral)
        } else if str_eq(string, "cornflowerblue") {
            Some(Color::CornflowerBlue)
        } else if str_eq(string, "cornsilk") {
            Some(Color::Cornsilk)
        } else if str_eq(string, "crimson") {
            Some(Color::Crimson)
        } else if str_eq(string, "cyan") {
            Some(Color::Cyan)
        } else if str_eq(string, "darkblue") {
            Some(Color::DarkBlue)
        } else if str_eq(string, "darkcyan") {
            Some(Color::DarkCyan)
        } else if str_eq(string, "darkgoldenrod") {
            Some(Color::DarkGoldenRod)
        } else if str_eq(string, "darkgray") {
            Some(Color::DarkGray)
        } else if str_eq(string, "darkgrey") {
            Some(Color::DarkGrey)
        } else if str_eq(string, "darkgreen") {
            Some(Color::DarkGreen)
        } else if str_eq(string, "darkkhaki") {
            Some(Color::DarkKhaki)
        } else if str_eq(string, "darkmagenta") {
            Some(Color::DarkMagenta)
        } else if str_eq(string, "darkolivegreen") {
            Some(Color::DarkOliveGreen)
        } else if str_eq(string, "darkorange") {
            Some(Color::DarkOrange)
        } else if str_eq(string, "darkorchid") {
            Some(Color::DarkOrchid)
        } else if str_eq(string, "darkred") {
            Some(Color::DarkRed)
        } else if str_eq(string, "darksalmon") {
            Some(Color::DarkSalmon)
        } else if str_eq(string, "darkseagreen") {
            Some(Color::DarkSeaGreen)
        } else if str_eq(string, "darkslateblue") {
            Some(Color::DarkSlateBlue)
        } else if str_eq(string, "darkslategray") {
            Some(Color::DarkSlateGray)
        } else if str_eq(string, "darkslategrey") {
            Some(Color::DarkSlateGrey)
        } else if str_eq(string, "darkturquoise") {
            Some(Color::DarkTurquoise)
        } else if str_eq(string, "darkviolet") {
            Some(Color::DarkViolet)
        } else if str_eq(string, "deeppink") {
            Some(Color::DeepPink)
        } else if str_eq(string, "deepskyblue") {
            Some(Color::DeepSkyBlue)
        } else if str_eq(string, "dimgray") {
            Some(Color::DimGray)
        } else if str_eq(string, "dimgrey") {
            Some(Color::DimGrey)
        } else if str_eq(string, "dodgerblue") {
            Some(Color::DodgerBlue)
        } else if str_eq(string, "firebrick") {
            Some(Color::FireBrick)
        } else if str_eq(string, "floralwhite") {
            Some(Color::FloralWhite)
        } else if str_eq(string, "forestgreen") {
            Some(Color::ForestGreen)
        } else if str_eq(string, "fuchsia") {
            Some(Color::Fuchsia)
        } else if str_eq(string, "gainsboro") {
            Some(Color::Gainsboro)
        } else if str_eq(string, "ghostwhite") {
            Some(Color::GhostWhite)
        } else if str_eq(string, "gold") {
            Some(Color::Gold)
        } else if str_eq(string, "goldenrod") {
            Some(Color::GoldenRod)
        } else if str_eq(string, "gray") {
            Some(Color::Gray)
        } else if str_eq(string, "grey") {
            Some(Color::Grey)
        } else if str_eq(string, "green") {
            Some(Color::Green)
        } else if str_eq(string, "greenyellow") {
            Some(Color::GreenYellow)
        } else if str_eq(string, "honeydew") {
            Some(Color::HoneyDew)
        } else if str_eq(string, "hotpink") {
            Some(Color::HotPink)
        } else if str_eq(string, "indianred") {
            Some(Color::IndianRed)
        } else if str_eq(string, "indigo") {
            Some(Color::Indigo)
        } else if str_eq(string, "ivory") {
            Some(Color::Ivory)
        } else if str_eq(string, "khaki") {
            Some(Color::Khaki)
        } else if str_eq(string, "lavender") {
            Some(Color::Lavender)
        } else if str_eq(string, "lavenderblush") {
            Some(Color::LavenderBlush)
        } else if str_eq(string, "lawngreen") {
            Some(Color::LawnGreen)
        } else if str_eq(string, "lemonchiffon") {
            Some(Color::LemonChiffon)
        } else if str_eq(string, "lightblue") {
            Some(Color::LightBlue)
        } else if str_eq(string, "lightcoral") {
            Some(Color::LightCoral)
        } else if str_eq(string, "lightcyan") {
            Some(Color::LightCyan)
        } else if str_eq(string, "lightgoldenrodyellow") {
            Some(Color::LightGoldenRodYellow)
        } else if str_eq(string, "lightgray") {
            Some(Color::LightGray)
        } else if str_eq(string, "lightgrey") {
            Some(Color::LightGrey)
        } else if str_eq(string, "lightgreen") {
            Some(Color::LightGreen)
        } else if str_eq(string, "lightpink") {
            Some(Color::LightPink)
        } else if str_eq(string, "lightsalmon") {
            Some(Color::LightSalmon)
        } else if str_eq(string, "lightseagreen") {
            Some(Color::LightSeaGreen)
        } else if str_eq(string, "lightskyblue") {
            Some(Color::LightSkyBlue)
        } else if str_eq(string, "lightslategray") {
            Some(Color::LightSlateGray)
        } else if str_eq(string, "lightslategrey") {
            Some(Color::LightSlateGrey)
        } else if str_eq(string, "lightsteelblue") {
            Some(Color::LightSteelBlue)
        } else if str_eq(string, "lightyellow") {
            Some(Color::LightYellow)
        } else if str_eq(string, "lime") {
            Some(Color::Lime)
        } else if str_eq(string, "limegreen") {
            Some(Color::LimeGreen)
        } else if str_eq(string, "linen") {
            Some(Color::Linen)
        } else if str_eq(string, "magenta") {
            Some(Color::Magenta)
        } else if str_eq(string, "maroon") {
            Some(Color::Maroon)
        } else if str_eq(string, "mediumaquamarine") {
            Some(Color::MediumAquaMarine)
        } else if str_eq(string, "mediumblue") {
            Some(Color::MediumBlue)
        } else if str_eq(string, "mediumorchid") {
            Some(Color::MediumOrchid)
        } else if str_eq(string, "mediumpurple") {
            Some(Color::MediumPurple)
        } else if str_eq(string, "mediumseagreen") {
            Some(Color::MediumSeaGreen)
        } else if str_eq(string, "mediumslateblue") {
            Some(Color::MediumSlateBlue)
        } else if str_eq(string, "mediumspringgreen") {
            Some(Color::MediumSpringGreen)
        } else if str_eq(string, "mediumturquoise") {
            Some(Color::MediumTurquoise)
        } else if str_eq(string, "mediumvioletred") {
            Some(Color::MediumVioletRed)
        } else if str_eq(string, "midnightblue") {
            Some(Color::MidnightBlue)
        } else if str_eq(string, "mintcream") {
            Some(Color::MintCream)
        } else if str_eq(string, "mistyrose") {
            Some(Color::MistyRose)
        } else if str_eq(string, "moccasin") {
            Some(Color::Moccasin)
        } else if str_eq(string, "navajowhite") {
            Some(Color::NavajoWhite)
        } else if str_eq(string, "navy") {
            Some(Color::Navy)
        } else if str_eq(string, "oldlace") {
            Some(Color::OldLace)
        } else if str_eq(string, "olive") {
            Some(Color::Olive)
        } else if str_eq(string, "olivedrab") {
            Some(Color::OliveDrab)
        } else if str_eq(string, "orange") {
            Some(Color::Orange)
        } else if str_eq(string, "orangered") {
            Some(Color::OrangeRed)
        } else if str_eq(string, "orchid") {
            Some(Color::Orchid)
        } else if str_eq(string, "palegoldenrod") {
            Some(Color::PaleGoldenRod)
        } else if str_eq(string, "palegreen") {
            Some(Color::PaleGreen)
        } else if str_eq(string, "paleturquoise") {
            Some(Color::PaleTurquoise)
        } else if str_eq(string, "palevioletred") {
            Some(Color::PaleVioletRed)
        } else if str_eq(string, "papayawhip") {
            Some(Color::PapayaWhip)
        } else if str_eq(string, "peachpuff") {
            Some(Color::PeachPuff)
        } else if str_eq(string, "peru") {
            Some(Color::Peru)
        } else if str_eq(string, "pink") {
            Some(Color::Pink)
        } else if str_eq(string, "plum") {
            Some(Color::Plum)
        } else if str_eq(string, "powderblue") {
            Some(Color::PowderBlue)
        } else if str_eq(string, "purple") {
            Some(Color::Purple)
        } else if str_eq(string, "rebeccapurple") {
            Some(Color::RebeccaPurple)
        } else if str_eq(string, "red") {
            Some(Color::Red)
        } else if str_eq(string, "rosybrown") {
            Some(Color::RosyBrown)
        } else if str_eq(string, "royalblue") {
            Some(Color::RoyalBlue)
        } else if str_eq(string, "saddlebrown") {
            Some(Color::SaddleBrown)
        } else if str_eq(string, "salmon") {
            Some(Color::Salmon)
        } else if str_eq(string, "sandybrown") {
            Some(Color::SandyBrown)
        } else if str_eq(string, "seagreen") {
            Some(Color::SeaGreen)
        } else if str_eq(string, "seashell") {
            Some(Color::SeaShell)
        } else if str_eq(string, "sienna") {
            Some(Color::Sienna)
        } else if str_eq(string, "silver") {
            Some(Color::Silver)
        } else if str_eq(string, "skyblue") {
            Some(Color::SkyBlue)
        } else if str_eq(string, "slateblue") {
            Some(Color::SlateBlue)
        } else if str_eq(string, "slategray") {
            Some(Color::SlateGray)
        } else if str_eq(string, "slategrey") {
            Some(Color::SlateGrey)
        } else if str_eq(string, "snow") {
            Some(Color::Snow)
        } else if str_eq(string, "springgreen") {
            Some(Color::SpringGreen)
        } else if str_eq(string, "steelblue") {
            Some(Color::SteelBlue)
        } else if str_eq(string, "tan") {
            Some(Color::Tan)
        } else if str_eq(string, "teal") {
            Some(Color::Teal)
        } else if str_eq(string, "thistle") {
            Some(Color::Thistle)
        } else if str_eq(string, "tomato") {
            Some(Color::Tomato)
        } else if str_eq(string, "turquoise") {
            Some(Color::Turquoise)
        } else if str_eq(string, "violet") {
            Some(Color::Violet)
        } else if str_eq(string, "wheat") {
            Some(Color::Wheat)
        } else if str_eq(string, "white") {
            Some(Color::White)
        } else if str_eq(string, "whitesmoke") {
            Some(Color::WhiteSmoke)
        } else if str_eq(string, "yellow") {
            Some(Color::Yellow)
        } else if str_eq(string, "yellowgreen") {
            Some(Color::YellowGreen)
        } else {
            None
        }
    }
}

impl Color {
    /// Reading the name of a color gives that color, and nothing else
    /// gives it.
    pub proof fn law_name_round_trip(x: Color, string: &str)
        ensures
            <Color as vstd::std_specs::convert::TryFromSpec<&str>>::try_from_spec(string) == Ok::<
                Color,
                &'static str,
            >(x) <==> x.name() == Some(string@),
    {
        if x.name() == Some(string@) {
            let y = choose|y: Color| y.name() == Some(string@);
            Color::lemma_name_injective(x, y);
        }
    }
}

/// A position in a source text, as a line and a column, both counted from zero.
#[derive(Copy, Clone, Debug, PartialEq, Eq, Structural)]
pub struct Pos {
    line: u32,
    column: u32,
}

impl Pos {
    pub closed spec fn spec_line(self) -> u32 {
        self.line
    }

    pub closed spec fn spec_column(self) -> u32 {
        self.column
    }

    /// The start of a text.
    pub fn new() -> (p: Pos)
        ensures
            p.line() == 0,
            p.column() == 0,
    {
        Pos { line: 0, column: 0 }
    }

    #[verifier::when_used_as_spec(spec_line)]
    pub fn line(self) -> (l: u32)
        ensures
            l == self.line(),
    {
        self.line
    }

    #[verifier::when_used_as_spec(spec_column)]
    pub fn column(self) -> (c: u32)
        ensures
            c == self.column(),
    {
        self.column
    }

    /// Moves to the start of the next line.
    pub fn newline(&mut self)
        requires
            old(self).line() < u32::MAX,
        ensures
            final(self).line() == old(self).line() + 1,
            final(self).column() == 0,
    {
        self.line += 1;
        self.column = 0;
    }

    /// Moves one character to the right.
    pub fn next_char(&mut self)
        requires
            old(self).column() < u32::MAX,
        ensures
            final(self).line() == old(self).line(),
            final(self).column() == old(self).column() + 1,
    {
        self.column += 1;
    }

    /// Moves `num` characters to the right.
    pub fn chars(&mut self, num: u32)
        requires
            old(self).column() + num <= u32::MAX,
        ensures
            final(self).line() == old(self).line(),
            final(self).column() == old(self).column() + num,
    {
        self.column += num;
    }
}

/// A property of CSS, or one of the at-rules that are written like one.
#[derive(Copy, Clone, Debug, PartialEq, Eq, Structural)]
pub enum Property {
    AlignContent,
    AlignItems,
    AlignSelf,
    All,
    Animation,
    AnimationDelay,
    AnimationDirection,
    AnimationDuration,
    AnimationFillMode,
    AnimationIterationCount,
    AnimationName,
    AnimationPlayState,
    AnimationTimingFunction,
    BackfaceVisibility,
    Background,
    BackgroundAttachment,
    BackgroundBlendMode,
    BackgroundClip,
    BackgroundColor,
    BackgroundImage,
    BackgroundOrigin,
    BackgroundPosition,
    BackgroundRepeat,
    BackgroundSize,
    Border,
    BorderBottom,
    BorderBottomColor,
    BorderBottomLeftRadius,
    BorderBottomRightRadius,
    BorderBottomStyle,
    BorderBottomWidth,
    BorderCollapse,
    BorderColor,
    BorderImage,
    BorderImageOutset,
    BorderImageRepeat,
    BorderImageSlice,
    BorderImageSource,
    BorderImageWidth,
    BorderLeft,
    BorderLeftColor,
    BorderLeftStyle,
    BorderLeftWidth,
    BorderRadius,
    BorderRight,
    BorderRightColor,
    BorderRightStyle,
    BorderRightWidth,
    BorderSpacing,
    BorderStyle,
    BorderTop,
    BorderTopColor,
    BorderTopLeftRadius,
    BorderTopRightRadius,
    BorderTopStyle,
    BorderTopWidth,
    BorderWidth,
    Bottom,
    BoxDecorationBreak,
    BoxShadow,
    BoxSizing,
    CaptionSide,
    CaretColor,
    Charset,
    Clear,
    Clip,
    Color,
    ColumnCount,
    ColumnFill,
    ColumnGap,
    ColumnRule,
    ColumnRuleColor,
    ColumnRuleStyle,
    ColumnRuleWidth,
    ColumnSpan,
    ColumnWidth,
    Columns,
    Content,
    CounterIncrement,
    CounterReset,
    Cursor,
    Direction,
    Display,
    EmptyCells,
    Filter,
    Flex,
    FlexBasis,
    FlexDirection,
    FlexFlow,
    FlexGrow,
    FlexShrink,
    FlexWrap,
    Float,
    Font,
    FontFace,
    FontFamily,
    FontKerning,
    FontSize,
    FontSizeAdjust,
    FontStretch,
    FontStyle,
    FontVariant,
    FontWeight,
    Grid,
    GridArea,
    GridAutoColumns,
    GridAutoFlow,
    GridAutoRows,
    GridColumn,
    GridColumnEnd,
    GridColumnGap,
    GridColumnStart,
    GridGap,
    GridRow,
    GridRowEnd,
    GridRowGap,
    GridRowStart,
    GridTemplate,
    GridTemplateAreas,
    GridTemplateColumns,
    GridTemplateRows,
    HangingPunctuation,
    Height,
    Hyphens,
    Import,
    Isolation,
    JustifyContent,
    Keyframes,
    Left,
    LetterSpacing,
    LineHeight,
    ListStyle,
    ListStyleImage,
    ListStylePosition,
    ListStyleType,
    Margin,
    MarginBottom,
    MarginLeft,
    MarginRight,
    MarginTop,
    MaxHeight,
    MaxWidth,
    Media,
    MinHeight,
    MinWidth,
    MixBlendMode,
    ObjectFit,
    ObjectPosition,
    Opacity,
    Order,
    Outline,
    OutlineColor,
    OutlineOffset,
    OutlineStyle,
    OutlineWidth,
    Overflow,
    OverflowX,
    OverflowY,
    Padding,
    PaddingBottom,
    PaddingLeft,
    PaddingRight,
    PaddingTop,
    PageBreakAfter,
    PageBreakBefore,
    PageBreakInside,
    Perspective,
    PerspectiveOrigin,
    PointerEvents,
    Position,
    Quotes,
    Resize,
    Right,
    ScrollBehavior,
    TabSize,
    TableLayout,
    TextAlign,
    TextAlignLast,
    TextDecoration,
    TextDecorationColor,
    TextDecorationLine,
    TextDecorationStyle,
    TextIndent,
    TextJustify,
    TextOverflow,
    TextShadow,
    TextTransform,
    Top,
    Transform,
    TransformOrigin,
    TransformStyle,
    Transition,
    TransitionDelay,
    TransitionDuration,
    TransitionProperty,
    TransitionTimingFunction,
    UnicodeBidi,
    UserSelect,
    VerticalAlign,
    Visibility,
    WhiteSpace,
    Width,
    WordBreak,
    WordSpacing,
    WordWrap,
    WritingMode,
    ZIndex,
}

impl Property {
    /// The name of the property as it is written in a style sheet.
    pub open spec fn name(self) -> Seq<char> {
        match self {
            Property::AlignContent => "align-content"@,
            Property::AlignItems => "align-items"@,
            Property::AlignSelf => "align-self"@,
            Property::All => "all"@,
            Property::Animation => "animation"@,
            Property::AnimationDelay => "animation-delay"@,
            Property::AnimationDirection => "animation-direction"@,
            Property::AnimationDuration => "animation-duration"@,
            Property::AnimationFillMode => "animation-fill-mode"@,
            Property::AnimationIterationCount => "animation-iteration-count"@,
            Property::AnimationName => "animation-name"@,
            Property::AnimationPlayState => "animation-play-state"@,
            Property::AnimationTimingFunction => "animation-timing-function"@,
            Property::BackfaceVisibility => "backface-visibility"@,
            Property::Background => "background"@,
            Property::BackgroundAttachment => "background-attachment"@,
            Property::BackgroundBlendMode => "background-blend-mode"@,
            Property::BackgroundClip => "background-clip"@,
            Property::BackgroundColor => "background-color"@,
            Property::BackgroundImage => "background-image"@,
            Property::BackgroundOrigin => "background-origin"@,
            Property::BackgroundPosition => "background-position"@,
            Property::BackgroundRepeat => "background-repeat"@,
            Property::BackgroundSize => "background-size"@,
            Property::Border => "border"@,
            Property::BorderBottom => "border-bottom"@,
            Property::BorderBottomColor => "border-bottom-color"@,
            Property::BorderBottomLeftRadius => "border-bottom-left-radius"@,
            Property::BorderBottomRightRadius => "border-bottom-right-radius"@,
            Property::BorderBottomStyle => "border-bottom-style"@,
            Property::BorderBottomWidth => "border-bottom-width"@,
            Property::BorderCollapse => "border-collapse"@,
            Property::BorderColor => "border-color"@,
            Property::BorderImage => "border-image"@,
            Property::BorderImageOutset => "border-image-outset"@,
            Property::BorderImageRepeat => "border-image-repeat"@,
            Property::BorderImageSlice => "border-image-slice"@,
            Property::BorderImageSource => "border-image-source"@,
            Property::BorderImageWidth => "border-image-width"@,
            Property::BorderLeft => "border-left"@,
            Property::BorderLeftColor => "border-left-color"@,
            Property::BorderLeftStyle => "border-left-style"@,
            Property::BorderLeftWidth => "border-left-width"@,
            Property::BorderRadius => "border-radius"@,
            Property::BorderRight => "border-right"@,
            Property::BorderRightColor => "border-right-color"@,
            Property::BorderRightStyle => "border-right-style"@,
            Property::BorderRightWidth => "border-right-width"@,
            Property::BorderSpacing => "border-spacing"@,
            Property::BorderStyle => "border-style"@,
            Property::BorderTop => "border-top"@,
            Property::BorderTopColor => "border-top-color"@,
            Property::BorderTopLeftRadius => "border-top-left-radius"@,
            Property::BorderTopRightRadius => "border-top-right-radius"@,
            Property::BorderTopStyle => "border-top-style"@,
            Property::BorderTopWidth => "border-top-width"@,
            Property::BorderWidth => "border-width"@,
            Property::Bottom => "bottom"@,
            Property::BoxDecorationBreak => "box-decoration-break"@,
            Property::BoxShadow => "box-shadow"@,
            Property::BoxSizing => "box-sizing"@,
            Property::CaptionSide => "caption-side"@,
            Property::CaretColor => "caret-color"@,
            Property::Charset => "@charset"@,
            Property::Clear => "clear"@,
            Property::Clip => "clip"@,
            Property::Color => "color"@,
            Property::ColumnCount => "column-count"@,
            Property::ColumnFill => "column-fill"@,
            Property::ColumnGap => "column-gap"@,
            Property::ColumnRule => "column-rule"@,
            Property::ColumnRuleColor => "column-rule-color"@,
            Property::ColumnRuleStyle => "column-rule-style"@,
            Property::ColumnRuleWidth => "column-rule-width"@,
            Property::ColumnSpan => "column-span"@,
            Property::ColumnWidth => "column-width"@,
            Property::Columns => "columns"@,
            Property::Content => "content"@,
            Property::CounterIncrement => "counter-increment"@,
            Property::CounterReset => "counter-reset"@,
            Property::Cursor => "cursor"@,
            Property::Direction => "direction"@,
            Property::Display => "display"@,
            Property::EmptyCells => "empty-cells"@,
            Property::Filter => "filter"@,
            Property::Flex => "flex"@,
            Property::FlexBasis => "flex-basis"@,
            Property::FlexDirection => "flex-direction"@,
            Property::FlexFlow => "flex-flow"@,
            Property::FlexGrow => "flex-grow"@,
            Property::FlexShrink => "flex-shrink"@,
            Property::FlexWrap => "flex-wrap"@,
            Property::Float => "float"@,
            Property::Font => "font"@,
            Property::FontFace => "@font-face"@,
            Property::FontFamily => "font-family"@,
            Property::FontKerning => "font-kerning"@,
            Property::FontSize => "font-size"@,
            Property::FontSizeAdjust => "font-size-adjust"@,
            Property::FontStretch => "font-stretch"@,
            Property::FontStyle => "font-style"@,
            Property::FontVariant => "font-variant"@,
            Property::FontWeight => "font-weight"@,
            Property::Grid => "grid"@,
            Property::GridArea => "grid-area"@,
            Property::GridAutoColumns => "grid-auto-columns"@,
            Property::GridAutoFlow => "grid-auto-flow"@,
            Property::GridAutoRows => "grid-auto-rows"@,
            Property::GridColumn => "grid-column"@,
            Property::GridColumnEnd => "grid-column-end"@,
            Property::GridColumnGap => "grid-column-gap"@,
            Property::GridColumnStart => "grid-column-start"@,
            Property::GridGap => "grid-gap"@,
            Property::GridRow => "grid-row"@,
            Property::GridRowEnd => "grid-row-end"@,
            Property::GridRowGap => "grid-row-gap"@,
            Property::GridRowStart => "grid-row-start"@,
            Property::GridTemplate => "grid-template"@,
            Property::GridTemplateAreas => "grid-template-areas"@,
            Property::GridTemplateColumns => "grid-template-columns"@,
            Property::GridTemplateRows => "grid-template-rows"@,
            Property::HangingPunctuation => "hanging-punctuation"@,
            Property::Height => "height"@,
            Property::Hyphens => "hyphens"@,
            Property::Import => "@import"@,
            Property::Isolation => "isolation"@,
            Property::JustifyContent => "justify-content"@,
            Property::Keyframes => "@keyframes"@,
            Property::Left => "left"@,
            Property::LetterSpacing => "letter-spacing"@,
            Property::LineHeight => "line-height"@,
            Property::ListStyle => "list-style"@,
            Property::ListStyleImage => "list-style-image"@,
            Property::ListStylePosition => "list-style-position"@,
            Property::ListStyleType => "list-style-type"@,
            Property::Margin => "margin"@,
            Property::MarginBottom => "margin-bottom"@,
            Property::MarginLeft => "margin-left"@,
            Property::MarginRight => "margin-right"@,
            Property::MarginTop => "margin-top"@,
            Property::MaxHeight => "max-height"@,
            Property::MaxWidth => "max-width"@,
            Property::Media => "@media"@,
            Property::MinHeight => "min-height"@,
            Property::MinWidth => "min-width"@,
            Property::MixBlendMode => "mix-blend-mode"@,
            Property::ObjectFit => "object-fit"@,
            Property::ObjectPosition => "object-position"@,
            Property::Opacity => "opacity"@,
            Property::Order => "order"@,
            Property::Outline => "outline"@,
            Property::OutlineColor => "outline-color"@,
            Property::OutlineOffset => "outline-offset"@,
            Property::OutlineStyle => "outline-style"@,
            Property::OutlineWidth => "outline-width"@,
            Property::Overflow => "overflow"@,
            Property::OverflowX => "overflow-x"@,
            Property::OverflowY => "overflow-y"@,
            Property::Padding => "padding"@,
            Property::PaddingBottom => "padding-bottom"@,
            Property::PaddingLeft => "padding-left"@,
            Property::PaddingRight => "padding-right"@,
            Property::PaddingTop => "padding-top"@,
            Property::PageBreakAfter => "page-break-after"@,
            Property::PageBreakBefore => "page-break-before"@,
            Property::PageBreakInside => "page-break-inside"@,
            Property::Perspective => "perspective"@,
            Property::PerspectiveOrigin => "perspective-origin"@,
            Property::PointerEvents => "pointer-events"@,
            Property::Position => "position"@,
            Property::Quotes => "quotes"@,
            Property::Resize => "resize"@,
            Property::Right => "right"@,
            Property::ScrollBehavior => "scroll-behavior"@,
            Property::TabSize => "tab-size"@,
            Property::TableLayout => "table-layout"@,
            Property::TextAlign => "text-align"@,
            Property::TextAlignLast => "text-align-last"@,
            Property::TextDecoration => "text-decoration"@,
            Property::TextDecorationColor => "text-decoration-color"@,
            Property::TextDecorationLine => "text-decoration-line"@,
            Property::TextDecorationStyle => "text-decoration-style"@,
            Property::TextIndent => "text-indent"@,
            Property::TextJustify => "text-justify"@,
            Property::TextOverflow => "text-overflow"@,
            Property::TextShadow => "text-shadow"@,
            Property::TextTransform => "text-transform"@,
            Property::Top => "top"@,
            Property::Transform => "transform"@,
            Property::TransformOrigin => "transform-origin"@,
            Property::TransformStyle => "transform-style"@,
            Property::Transition => "transition"@,
            Property::TransitionDelay => "transition-delay"@,
            Property::TransitionDuration => "transition-duration"@,
            Property::TransitionProperty => "transition-property"@,
            Property::TransitionTimingFunction => "transition-timing-function"@,
            Property::UnicodeBidi => "unicode-bidi"@,
            Property::UserSelect => "user-select"@,
            Property::VerticalAlign => "vertical-align"@,
            Property::Visibility => "visibility"@,
            Property::WhiteSpace => "white-space"@,
            Property::Width => "width"@,
            Property::WordBreak => "word-break"@,
            Property::WordSpacing => "word-spacing"@,
            Property::WordWrap => "word-wrap"@,
            Property::WritingMode => "writing-mode"@,
            Property::ZIndex => "z-index"@,
        }
    }

    /// What tells the names apart: its length, the character 4 from the end, the character at 0, the last character, the character 8 from the end.
    closed spec fn marks(s: Seq<char>) -> (int, char, char, char, char) {
        (s.len() as int, char_at(s, s.len() - 4), char_at(s, 0), char_at(s, s.len() - 1), char_at(s, s.len() - 8))
    }

    /// The Property whose name has the marks `m`.
    closed spec fn by_marks(m: (int, char, char, char, char)) -> Property {
        if m == (13int, 't', 'a', 't', '-') {
            Property::AlignContent
        } else if m == (11int, 't', 'a', 's', 'g') {
            Property::AlignItems
        } else if m == (10int, 's', 'a', 'f', 'i') {
            Property::AlignSelf
        } else if m == (3int, '\0', 'a', 'l', '\0') {
            Property::All
        } else if m == (9int, 't', 'a', 'n', 'n') {
            Property::Animation
        } else if m == (15int, 'e', 'a', 'y', 'o') {
            Property::AnimationDelay
        } else if m == (19int, 't', 'a', 'n', 'i') {
            Property::AnimationDirection
        } else if m == (18int, 't', 'a', 'n', 'd') {
            Property::AnimationDuration
        } else if m == (19int, 'm', 'a', 'e', 'i') {
            Property::AnimationFillMode
        } else if m == (25int, 'o', 'a', 't', 'o') {
            Property::AnimationIterationCount
        } else if m == (14int, 'n', 'a', 'e', 'i') {
            Property::AnimationName
        } else if m == (20int, 't', 'a', 'e', 'a') {
            Property::AnimationPlayState
        } else if m == (25int, 't', 'a', 'n', 'f') {
            Property::AnimationTimingFunction
        } else if m == (19int, 'l', 'b', 'y', 's') {
            Property::BackfaceVisibility
        } else if m == (10int, 'o', 'b', 'd', 'c') {
            Property::Background
        } else if m == (21int, 'm', 'b', 't', 't') {
            Property::BackgroundAttachment
        } else if m == (21int, 'm', 'b', 'e', 'e') {
            Property::BackgroundBlendMode
        } else if m == (15int, 'c', 'b', 'p', 'u') {
            Property::BackgroundClip
        } else if m == (16int, 'o', 'b', 'r', 'n') {
            Property::BackgroundColor
        } else if m == (16int, 'm', 'b', 'e', 'n') {
            Property::BackgroundImage
        } else if m == (17int, 'i', 'b', 'n', 'd') {
            Property::BackgroundOrigin
        } else if m == (19int, 't', 'b', 'n', 'p') {
            Property::BackgroundPosition
        } else if m == (17int, 'p', 'b', 't', 'd') {
            Property::BackgroundRepeat
        } else if m == (15int, 's', 'b', 'e', 'u') {
            Property::BackgroundSize
        } else if m == (6int, 'r', 'b', 'r', '\0') {
            Property::Border
        } else if m == (13int, 't', 'b', 'm', 'r') {
            Property::BorderBottom
        } else if m == (19int, 'o', 'b', 'r', 'o') {
            Property::BorderBottomColor
        } else if m == (25int, 'd', 'b', 's', 't') {
            Property::BorderBottomLeftRadius
        } else if m == (26int, 'd', 'b', 's', 't') {
            Property::BorderBottomRightRadius
        } else if m == (19int, 't', 'b', 'e', 'o') {
            Property::BorderBottomStyle
        } else if m == (19int, 'i', 'b', 'h', 'o') {
            Property::BorderBottomWidth
        } else if m == (15int, 'a', 'b', 'e', 'c') {
            Property::BorderCollapse
        } else if m == (12int, 'o', 'b', 'r', 'e') {
            Property::BorderColor
        } else if m == (12int, 'm', 'b', 'e', 'e') {
            Property::BorderImage
        } else if m == (19int, 't', 'b', 't', 'e') {
            Property::BorderImageOutset
        } else if m == (19int, 'p', 'b', 't', 'e') {
            Property::BorderImageRepeat
        } else if m == (18int, 'l', 'b', 'e', 'g') {
            Property::BorderImageSlice
        } else if m == (19int, 'u', 'b', 'e', 'e') {
            Property::BorderImageSource
        } else if m == (18int, 'i', 'b', 'h', 'g') {
            Property::BorderImageWidth
        } else if m == (11int, 'l', 'b', 't', 'd') {
            Property::BorderLeft
        } else if m == (17int, 'o', 'b', 'r', 'f') {
            Property::BorderLeftColor
        } else if m == (17int, 't', 'b', 'e', 'f') {
            Property::BorderLeftStyle
        } else if m == (17int, 'i', 'b', 'h', 'f') {
            Property::BorderLeftWidth
        } else if m == (13int, 'd', 'b', 's', 'r') {
            Property::BorderRadius
        } else if m == (12int, 'i', 'b', 't', 'e') {
            Property::BorderRight
        } else if m == (18int, 'o', 'b', 'r', 'h') {
            Property::BorderRightColor
        } else if m == (18int, 't', 'b', 'e', 'h') {
            Property::BorderRightStyle
        } else if m == (18int, 'i', 'b', 'h', 'h') {
            Property::BorderRightWidth
        } else if m == (14int, 'c', 'b', 'g', '-') {
            Property::BorderSpacing
        } else if m == (12int, 't', 'b', 'e', 'e') {
            Property::BorderStyle
        } else if m == (10int, '-', 'b', 'p', 'r') {
            Property::BorderTop
        } else if m == (16int, 'o', 'b', 'r', 'o') {
            Property::BorderTopColor
        } else if m == (22int, 'd', 'b', 's', 't') {
            Property::BorderTopLeftRadius
        } else if m == (23int, 'd', 'b', 's', 't') {
            Property::BorderTopRightRadius
        } else if m == (16int, 't', 'b', 'e', 'o') {
            Property::BorderTopStyle
        } else if m == (16int, 'i', 'b', 'h', 'o') {
            Property::BorderTopWidth
        } else if m == (12int, 'i', 'b', 'h', 'e') {
            Property::BorderWidth
        } else if m == (6int, 't', 'b', 'm', '\0') {
            Property::Bottom
        } else if m == (20int, 'r', 'b', 'k', 'o') {
            Property::BoxDecorationBreak
        } else if m == (10int, 'a', 'b', 'w', 'x') {
            Property::BoxShadow
        } else if m == (10int, 'z', 'b', 'g', 'x') {
            Property::BoxSizing
        } else if m == (12int, 's', 'c', 'e', 'i') {
            Property::CaptionSide
        } else if m == (11int, 'o', 'c', 'r', 'e') {
            Property::CaretColor
        } else if m == (8int, 'r', '@', 't', '@') {
            Property::Charset
        } else if m == (5int, 'l', 'c', 'r', '\0') {
            Property::Clear
        } else if m == (4int, 'c', 'c', 'p', '\0') {
            Property::Clip
        } else if m == (5int, 'o', 'c', 'r', '\0') {
            Property::Color
        } else if m == (12int, 'o', 'c', 't', 'm') {
            Property::ColumnCount
        } else if m == (11int, 'f', 'c', 'l', 'u') {
            Property::ColumnFill
        } else if m == (10int, '-', 'c', 'p', 'l') {
            Property::ColumnGap
        } else if m == (11int, 'r', 'c', 'e', 'u') {
            Property::ColumnRule
        } else if m == (17int, 'o', 'c', 'r', 'l') {
            Property::ColumnRuleColor
        } else if m == (17int, 't', 'c', 'e', 'l') {
            Property::ColumnRuleStyle
        } else if m == (17int, 'i', 'c', 'h', 'l') {
            Property::ColumnRuleWidth
        } else if m == (11int, 's', 'c', 'n', 'u') {
            Property::ColumnSpan
        } else if m == (12int, 'i', 'c', 'h', 'm') {
            Property::ColumnWidth
        } else if m == (7int, 'u', 'c', 's', '\0') {
            Property::Columns
        } else if m == (7int, 't', 'c', 't', '\0') {
            Property::Content
        } else if m == (17int, 'm', 'c', 't', 'n') {
            Property::CounterIncrement
        } else if m == (13int, 'e', 'c', 't', 'e') {
            Property::CounterReset
        } else if m == (6int, 'r', 'c', 'r', '\0') {
            Property::Cursor
        } else if m == (9int, 't', 'd', 'n', 'i') {
            Property::Direction
        } else if m == (7int, 'p', 'd', 'y', '\0') {
            Property::Display
        } else if m == (11int, 'e', 'e', 's', 't') {
            Property::EmptyCells
        } else if m == (6int, 'l', 'f', 'r', '\0') {
            Property::Filter
        } else if m == (4int, 'f', 'f', 'x', '\0') {
            Property::Flex
        } else if m == (10int, 'a', 'f', 's', 'e') {
            Property::FlexBasis
        } else if m == (14int, 't', 'f', 'n', 'i') {
            Property::FlexDirection
        } else if m == (9int, 'f', 'f', 'w', 'l') {
            Property::FlexFlow
        } else if m == (9int, 'g', 'f', 'w', 'l') {
            Property::FlexGrow
        } else if m == (11int, 'r', 'f', 'k', 'x') {
            Property::FlexShrink
        } else if m == (9int, 'w', 'f', 'p', 'l') {
            Property::FlexWrap
        } else if m == (5int, 'l', 'f', 't', '\0') {
            Property::Float
        } else if m == (4int, 'f', 'f', 't', '\0') {
            Property::Font
        } else if m == (10int, 'f', '@', 'e', 'o') {
            Property::FontFace
        } else if m == (11int, 'm', 'f', 'y', 't') {
            Property::FontFamily
        } else if m == (12int, 'n', 'f', 'g', '-') {
            Property::FontKerning
        } else if m == (9int, 's', 'f', 'e', 'o') {
            Property::FontSize
        } else if m == (16int, 'j', 'f', 't', 'e') {
            Property::FontSizeAdjust
        } else if m == (12int, 'e', 'f', 'h', '-') {
            Property::FontStretch
        } else if m == (10int, 't', 'f', 'e', 'n') {
            Property::FontStyle
        } else if m == (12int, 'i', 'f', 't', '-') {
            Property::FontVariant
        } else if m == (11int, 'i', 'f', 't', 't') {
            Property::FontWeight
        } else if m == (4int, 'g', 'g', 'd', '\0') {
            Property::Grid
        } else if m == (9int, 'a', 'g', 'a', 'r') {
            Property::GridArea
        } else if m == (17int, 'u', 'g', 's', '-') {
            Property::GridAutoColumns
        } else if m == (14int, 'f', 'g', 'w', 'u') {
            Property::GridAutoFlow
        } else if m == (14int, 'r', 'g', 's', 'u') {
            Property::GridAutoRows
        } else if m == (11int, 'l', 'g', 'n', 'd') {
            Property::GridColumn
        } else if m == (15int, '-', 'g', 'd', 'l') {
            Property::GridColumnEnd
        } else if m == (15int, '-', 'g', 'p', 'l') {
            Property::GridColumnGap
        } else if m == (17int, 't', 'g', 't', 'm') {
            Property::GridColumnStart
        } else if m == (8int, '-', 'g', 'p', 'g') {
            Property::GridGap
        } else if m == (8int, '-', 'g', 'w', 'g') {
            Property::GridRow
        } else if m == (12int, '-', 'g', 'd', '-') {
            Property::GridRowEnd
        } else if m == (12int, '-', 'g', 'p', '-') {
            Property::GridRowGap
        } else if m == (14int, 't', 'g', 't', 'o') {
            Property::GridRowStart
        } else if m == (13int, 'l', 'g', 'e', 't') {
            Property::GridTemplate
        } else if m == (19int, 'r', 'g', 's', 't') {
            Property::GridTemplateAreas
        } else if m == (21int, 'u', 'g', 's', '-') {
            Property::GridTemplateColumns
        } else if m == (18int, 'r', 'g', 's', 'a') {
            Property::GridTemplateRows
        } else if m == (19int, 't', 'h', 'n', 'c') {
            Property::HangingPunctuation
        } else if m == (6int, 'i', 'h', 't', '\0') {
            Property::Height
        } else if m == (7int, 'h', 'h', 's', '\0') {
            Property::Hyphens
        } else if m == (7int, 'p', '@', 't', '\0') {
            Property::Import
        } else if m == (9int, 't', 'i', 'n', 's') {
            Property::Isolation
        } else if m == (15int, 't', 'j', 't', '-') {
            Property::JustifyContent
        } else if m == (10int, 'a', '@', 's', 'e') {
            Property::Keyframes
        } else if m == (4int, 'l', 'l', 't', '\0') {
            Property::Left
        } else if m == (14int, 'c', 'l', 'g', '-') {
            Property::LetterSpacing
        } else if m == (11int, 'i', 'l', 't', 'e') {
            Property::LineHeight
        } else if m == (10int, 't', 'l', 'e', 's') {
            Property::ListStyle
        } else if m == (16int, 'm', 'l', 'e', 'l') {
            Property::ListStyleImage
        } else if m == (19int, 't', 'l', 'n', 'p') {
            Property::ListStylePosition
        } else if m == (15int, 't', 'l', 'e', 'y') {
            Property::ListStyleType
        } else if m == (6int, 'r', 'm', 'n', '\0') {
            Property::Margin
        } else if m == (13int, 't', 'm', 'm', 'n') {
            Property::MarginBottom
        } else if m == (11int, 'l', 'm', 't', 'g') {
            Property::MarginLeft
        } else if m == (12int, 'i', 'm', 't', 'i') {
            Property::MarginRight
        } else if m == (10int, '-', 'm', 'p', 'r') {
            Property::MarginTop
        } else if m == (10int, 'i', 'm', 't', 'x') {
            Property::MaxHeight
        } else if m == (9int, 'i', 'm', 'h', 'a') {
            Property::MaxWidth
        } else if m == (6int, 'e', '@', 'a', '\0') {
            Property::Media
        } else if m == (10int, 'i', 'm', 't', 'n') {
            Property::MinHeight
        } else if m == (9int, 'i', 'm', 'h', 'i') {
            Property::MinWidth
        } else if m == (14int, 'm', 'm', 'e', 'e') {
            Property::MixBlendMode
        } else if m == (10int, '-', 'o', 't', 'j') {
            Property::ObjectFit
        } else if m == (15int, 't', 'o', 'n', 'p') {
            Property::ObjectPosition
        } else if m == (7int, 'c', 'o', 'y', '\0') {
            Property::Opacity
        } else if m == (5int, 'r', 'o', 'r', '\0') {
            Property::Order
        } else if m == (7int, 'l', 'o', 'e', '\0') {
            Property::Outline
        } else if m == (13int, 'o', 'o', 'r', 'n') {
            Property::OutlineColor
        } else if m == (14int, 'f', 'o', 't', 'e') {
            Property::OutlineOffset
        } else if m == (13int, 't', 'o', 'e', 'n') {
            Property::OutlineStyle
        } else if m == (13int, 'i', 'o', 'h', 'n') {
            Property::OutlineWidth
        } else if m == (8int, 'f', 'o', 'w', 'o') {
            Property::Overflow
        } else if m == (10int, 'o', 'o', 'x', 'e') {
            Property::OverflowX
        } else if m == (10int, 'o', 'o', 'y', 'e') {
            Property::OverflowY
        } else if m == (7int, 'd', 'p', 'g', '\0') {
            Property::Padding
        } else if m == (14int, 't', 'p', 'm', 'g') {
            Property::PaddingBottom
        } else if m == (12int, 'l', 'p', 't', 'i') {
            Property::PaddingLeft
        } else if m == (13int, 'i', 'p', 't', 'n') {
            Property::PaddingRight
        } else if m == (11int, '-', 'p', 'p', 'd') {
            Property::PaddingTop
        } else if m == (16int, 'f', 'p', 'r', 'a') {
            Property::PageBreakAfter
        } else if m == (17int, 'f', 'p', 'e', 'k') {
            Property::PageBreakBefore
        } else if m == (17int, 's', 'p', 'e', 'k') {
            Property::PageBreakInside
        } else if m == (11int, 't', 'p', 'e', 's') {
            Property::Perspective
        } else if m == (18int, 'i', 'p', 'n', 'e') {
            Property::PerspectiveOrigin
        } else if m == (14int, 'e', 'p', 's', 'r') {
            Property::PointerEvents
        } else if m == (8int, 't', 'p', 'n', 'p') {
            Property::Position
        } else if m == (6int, 'o', 'q', 's', '\0') {
            Property::Quotes
        } else if m == (6int, 's', 'r', 'e', '\0') {
            Property::Resize
        } else if m == (5int, 'i', 'r', 't', '\0') {
            Property::Right
        } else if m == (15int, 'v', 's', 'r', 'b') {
            Property::ScrollBehavior
        } else if m == (8int, 's', 't', 'e', 't') {
            Property::TabSize
        } else if m == (12int, 'y', 't', 't', 'e') {
            Property::TableLayout
        } else if m == (10int, 'l', 't', 'n', 'x') {
            Property::TextAlign
        } else if m == (15int, 'l', 't', 't', 'i') {
            Property::TextAlignLast
        } else if m == (15int, 't', 't', 'n', 'c') {
            Property::TextDecoration
        } else if m == (21int, 'o', 't', 'r', 'o') {
            Property::TextDecorationColor
        } else if m == (20int, 'l', 't', 'e', 'i') {
            Property::TextDecorationLine
        } else if m == (21int, 't', 't', 'e', 'o') {
            Property::TextDecorationStyle
        } else if m == (11int, 'd', 't', 't', 't') {
            Property::TextIndent
        } else if m == (12int, 't', 't', 'y', '-') {
            Property::TextJustify
        } else if m == (13int, 'f', 't', 'w', 'o') {
            Property::TextOverflow
        } else if m == (11int, 'a', 't', 'w', 't') {
            Property::TextShadow
        } else if m == (14int, 'f', 't', 'm', 'r') {
            Property::TextTransform
        } else if m == (3int, '\0', 't', 'p', '\0') {
            Property::Top
        } else if m == (9int, 'f', 't', 'm', 'r') {
            Property::Transform
        } else if m == (16int, 'i', 't', 'n', 'm') {
            Property::TransformOrigin
        } else if m == (15int, 't', 't', 'e', 'r') {
            Property::TransformStyle
        } else if m == (10int, 't', 't', 'n', 'a') {
            Property::Transition
        } else if m == (16int, 'e', 't', 'y', 'o') {
            Property::TransitionDelay
        } else if m == (19int, 't', 't', 'n', 'd') {
            Property::TransitionDuration
        } else if m == (19int, 'e', 't', 'y', 'p') {
            Property::TransitionProperty
        } else if m == (26int, 't', 't', 'n', 'f') {
            Property::TransitionTimingFunction
        } else if m == (12int, 'b', 'u', 'i', 'o') {
            Property::UnicodeBidi
        } else if m == (11int, 'l', 'u', 't', 'r') {
            Property::UserSelect
        } else if m == (14int, 'l', 'v', 'n', 'a') {
            Property::VerticalAlign
        } else if m == (10int, 'l', 'v', 'y', 's') {
            Property::Visibility
        } else if m == (11int, 'p', 'w', 'e', 't') {
            Property::WhiteSpace
        } else if m == (5int, 'i', 'w', 'h', '\0') {
            Property::Width
        } else if m == (10int, 'r', 'w', 'k', 'r') {
            Property::WordBreak
        } else if m == (12int, 'c', 'w', 'g', '-') {
            Property::WordSpacing
        } else if m == (9int, 'w', 'w', 'p', 'o') {
            Property::WordWrap
        } else if m == (12int, 'm', 'w', 'e', 'i') {
            Property::WritingMode
        } else if m == (7int, 'n', 'z', 'x', '\0') {
            Property::ZIndex
        } else {
            Property::AlignContent
        }
    }

    proof fn lemma_marks(p: Property)
        ensures
            Self::by_marks(Self::marks(p.name())) == p,
    {
        reveal_strlit("align-content");
        reveal_strlit("align-items");
        reveal_strlit("align-self");
        reveal_strlit("all");
        reveal_strlit("animation");
        reveal_strlit("animation-delay");
        reveal_strlit("animation-direction");
        reveal_strlit("animation-duration");
        reveal_strlit("animation-fill-mode");
        reveal_strlit("animation-iteration-count");
        reveal_strlit("animation-name");
        reveal_strlit("animation-play-state");
        reveal_strlit("animation-timing-function");
        reveal_strlit("backface-visibility");
        reveal_strlit("background");
        reveal_strlit("background-attachment");
        reveal_strlit("background-blend-mode");
        reveal_strlit("background-clip");
        reveal_strlit("background-color");
        reveal_strlit("background-image");
        reveal_strlit("background-origin");
        reveal_strlit("background-position");
        reveal_strlit("background-repeat");
        reveal_strlit("background-size");
        reveal_strlit("border");
        reveal_strlit("border-bottom");
        reveal_strlit("border-bottom-color");
        reveal_strlit("border-bottom-left-radius");
        reveal_strlit("border-bottom-right-radius");
        reveal_strlit("border-bottom-style");
        reveal_strlit("border-bottom-width");
        reveal_strlit("border-collapse");
        reveal_strlit("border-color");
        reveal_strlit("border-image");
        reveal_strlit("border-image-outset");
        reveal_strlit("border-image-repeat");
        reveal_strlit("border-image-slice");
        reveal_strlit("border-image-source");
        reveal_strlit("border-image-width");
        reveal_strlit("border-left");
        reveal_strlit("border-left-color");
        reveal_strlit("border-left-style");
        reveal_strlit("border-left-width");
        reveal_strlit("border-radius");
        reveal_strlit("border-right");
        reveal_strlit("border-right-color");
        reveal_strlit("border-right-style");
        reveal_strlit("border-right-width");
        reveal_strlit("border-spacing");
        reveal_strlit("border-style");
        reveal_strlit("border-top");
        reveal_strlit("border-top-color");
        reveal_strlit("border-top-left-radius");
        reveal_strlit("border-top-right-radius");
        reveal_strlit("border-top-style");
        reveal_strlit("border-top-width");
        reveal_strlit("border-width");
        reveal_strlit("bottom");
        reveal_strlit("box-decoration-break");
        reveal_strlit("box-shadow");
        reveal_strlit("box-sizing");
        reveal_strlit("caption-side");
        reveal_strlit("caret-color");
        reveal_strlit("@charset");
        reveal_strlit("clear");
        reveal_strlit("clip");
        reveal_strlit("color");
        reveal_strlit("column-count");
        reveal_strlit("column-fill");
        reveal_strlit("column-gap");
        reveal_strlit("column-rule");
        reveal_strlit("column-rule-color");
        reveal_strlit("column-rule-style");
        reveal_strlit("column-rule-width");
        reveal_strlit("column-span");
        reveal_strlit("column-width");
        reveal_strlit("columns");
        reveal_strlit("content");
        reveal_strlit("counter-increment");
        reveal_strlit("counter-reset");
        reveal_strlit("cursor");
        reveal_strlit("direction");
        reveal_strlit("display");
        reveal_strlit("empty-cells");
        reveal_strlit("filter");
        reveal_strlit("flex");
        reveal_strlit("flex-basis");
        reveal_strlit("flex-direction");
        reveal_strlit("flex-flow");
        reveal_strlit("flex-grow");
        reveal_strlit("flex-shrink");
        reveal_strlit("flex-wrap");
        reveal_strlit("float");
        reveal_strlit("font");
        reveal_strlit("@font-face");
        reveal_strlit("font-family");
        reveal_strlit("font-kerning");
        reveal_strlit("font-size");
        reveal_strlit("font-size-adjust");
        reveal_strlit("font-stretch");
        reveal_strlit("font-style");
        reveal_strlit("font-variant");
        reveal_strlit("font-weight");
        reveal_strlit("grid");
        reveal_strlit("grid-area");
        reveal_strlit("grid-auto-columns");
        reveal_strlit("grid-auto-flow");
        reveal_strlit("grid-auto-rows");
        reveal_strlit("grid-column");
        reveal_strlit("grid-column-end");
        reveal_strlit("grid-column-gap");
        reveal_strlit("grid-column-start");
        reveal_strlit("grid-gap");
        reveal_strlit("grid-row");
        reveal_strlit("grid-row-end");
        reveal_strlit("grid-row-gap");
        reveal_strlit("grid-row-start");
        reveal_strlit("grid-template");
        reveal_strlit("grid-template-areas");
        reveal_strlit("grid-template-columns");
        reveal_strlit("grid-template-rows");
        reveal_strlit("hanging-punctuation");
        reveal_strlit("height");
        reveal_strlit("hyphens");
        reveal_strlit("@import");
        reveal_strlit("isolation");
        reveal_strlit("justify-content");
        reveal_strlit("@keyframes");
        reveal_strlit("left");
        reveal_strlit("letter-spacing");
        reveal_strlit("line-height");
        reveal_strlit("list-style");
        reveal_strlit("list-style-image");
        reveal_strlit("list-style-position");
        reveal_strlit("list-style-type");
        reveal_strlit("margin");
        reveal_strlit("margin-bottom");
        reveal_strlit("margin-left");
        reveal_strlit("margin-right");
        reveal_strlit("margin-top");
        reveal_strlit("max-height");
        reveal_strlit("max-width");
        reveal_strlit("@media");
        reveal_strlit("min-height");
        reveal_strlit("min-width");
        reveal_strlit("mix-blend-mode");
        reveal_strlit("object-fit");
        reveal_strlit("object-position");
        reveal_strlit("opacity");
        reveal_strlit("order");
        reveal_strlit("outline");
        reveal_strlit("outline-color");
        reveal_strlit("outline-offset");
        reveal_strlit("outline-style");
        reveal_strlit("outline-width");
        reveal_strlit("overflow");
        reveal_strlit("overflow-x");
        reveal_strlit("overflow-y");
        reveal_strlit("padding");
        reveal_strlit("padding-bottom");
        reveal_strlit("padding-left");
        reveal_strlit("padding-right");
        reveal_strlit("padding-top");
        reveal_strlit("page-break-after");
        reveal_strlit("page-break-before");
        reveal_strlit("page-break-inside");
        reveal_strlit("perspective");
        reveal_strlit("perspective-origin");
        reveal_strlit("pointer-events");
        reveal_strlit("position");
        reveal_strlit("quotes");
        reveal_strlit("resize");
        reveal_strlit("right");
        reveal_strlit("scroll-behavior");
        reveal_strlit("tab-size");
        reveal_strlit("table-layout");
        reveal_strlit("text-align");
        reveal_strlit("text-align-last");
        reveal_strlit("text-decoration");
        reveal_strlit("text-decoration-color");
        reveal_strlit("text-decoration-line");
        reveal_strlit("text-decoration-style");
        reveal_strlit("text-indent");
        reveal_strlit("text-justify");
        reveal_strlit("text-overflow");
        reveal_strlit("text-shadow");
        reveal_strlit("text-transform");
        reveal_strlit("top");
        reveal_strlit("transform");
        reveal_strlit("transform-origin");
        reveal_strlit("transform-style");
        reveal_strlit("transition");
        reveal_strlit("transition-delay");
        reveal_strlit("transition-duration");
        reveal_strlit("transition-property");
        reveal_strlit("transition-timing-function");
        reveal_strlit("unicode-bidi");
        reveal_strlit("user-select");
        reveal_strlit("vertical-align");
        reveal_strlit("visibility");
        reveal_strlit("white-space");
        reveal_strlit("width");
        reveal_strlit("word-break");
        reveal_strlit("word-spacing");
        reveal_strlit("word-wrap");
        reveal_strlit("writing-mode");
        reveal_strlit("z-index");
    }

    /// No two properties share a name.
    pub proof fn lemma_name_injective(a: Property, b: Property)
        requires
            a.name() == b.name(),
        ensures
            a == b,
    {
        Self::lemma_marks(a);
        Self::lemma_marks(b);
    }

}

impl vstd::std_specs::convert::TryFromSpecImpl<&str> for Property {
    open spec fn obeys_try_from_spec() -> bool {
        true
    }

    /// The property whose name is `string`, if there is one.
    open spec fn try_from_spec(string: &str) -> Result<Property, &'static str> {
        if exists|x: Property| x.name() == string@ {
            Ok(choose|x: Property| x.name() == string@)
        } else {
            Err("invalid property")
        }
    }
}

impl TryFrom<&str> for Property {
    type Error = &'static str;

    /// Reads `string` as the property with that name. Matching is exact: upper
    /// and lower case differ.
    fn try_from(string: &str) -> (r: Result<Property, &'static str>)
        ensures
            match r {
                Ok(x) => x.name() == string@,
                Err(e) => e@ == "invalid property"@ && forall|x: Property| x.name() != string@,
            },
    {
        match Property::lookup(string) {
            Some(x) => {
                proof {
                    let y = choose|y: Property| y.name() == string@;
                    Property::lemma_name_injective(x, y);
                }
                Ok(x)
            },
            None => Err("invalid property"),
        }
    }
}

impl Property {
    /// Goes through the table of names for `string`.
    fn lookup(string: &str) -> (r: Option<Property>)
        ensures
            match r {
                Some(x) => x.name() == string@,
                None => forall|x: Property| x.name() != string@,
            },
    {
        if str_eq(string, "align-content") {
            Some(Property::AlignContent)
        } else if str_eq(string, "align-items") {
            Some(Property::AlignItems)
        } else if str_eq(string, "align-self") {
            Some(Property::AlignSelf)
        } else if str_eq(string, "all") {
            Some(Property::All)
        } else if str_eq(string, "animation") {
            Some(Property::Animation)
        } else if str_eq(string, "animation-delay") {
            Some(Property::AnimationDelay)
        } else if str_eq(string, "animation-direction") {
            Some(Property::AnimationDirection)
        } else if str_eq(string, "animation-duration") {
            Some(Property::AnimationDuration)
        } else if str_eq(string, "animation-fill-mode") {
            Some(Property::AnimationFillMode)
        } else if str_eq(string, "animation-iteration-count") {
            Some(Property::AnimationIterationCount)
        } else if str_eq(string, "animation-name") {
            Some(Property::AnimationName)
        } else if str_eq(string, "animation-play-state") {
            Some(Property::AnimationPlayState)
        } else if str_eq(string, "animation-timing-function") {
            Some(Property::AnimationTimingFunction)
        } else if str_eq(string, "backface-visibility") {
            Some(Property::BackfaceVisibility)
        } else if str_eq(string, "background") {
            Some(Property::Background)
        } else if str_eq(string, "background-attachment") {
            Some(Property::BackgroundAttachment)
        } else if str_eq(string, "background-blend-mode") {
            Some(Property::BackgroundBlendMode)
        } else if str_eq(string, "background-clip") {
            Some(Property::BackgroundClip)
        } else if str_eq(string, "background-color") {
            Some(Property::BackgroundColor)
        } else if str_eq(string, "background-image") {
            Some(Property::BackgroundImage)
        } else if str_eq(string, "background-origin") {
            Some(Property::BackgroundOrigin)
        } else if str_eq(string, "background-position") {
            Some(Property::BackgroundPosition)
        } else if str_eq(string, "background-repeat") {
            Some(Property::BackgroundRepeat)
        } else if str_eq(string, "background-size") {
            Some(Property::BackgroundSize)
        } else if str_eq(string, "border") {
            Some(Property::Border)
        } else if str_eq(string, "border-bottom") {
            Some(Property::BorderBottom)
        } else if str_eq(string, "border-bottom-color") {
            Some(Property::BorderBottomColor)
        } else if str_eq(string, "border-bottom-left-radius") {
            Some(Property::BorderBottomLeftRadius)
        } else if str_eq(string, "border-bottom-right-radius") {
            Some(Property::BorderBottomRightRadius)
        } else if str_eq(string, "border-bottom-style") {
            Some(Property::BorderBottomStyle)
        } else if str_eq(string, "border-bottom-width") {
            Some(Property::BorderBottomWidth)
        } else if str_eq(string, "border-collapse") {
            Some(Property::BorderCollapse)
        } else if str_eq(string, "border-color") {
            Some(Property::BorderColor)
        } else if str_eq(string, "border-image") {
            Some(Property::BorderImage)
        } else if str_eq(string, "border-image-outset") {
            Some(Property::BorderImageOutset)
        } else if str_eq(string, "border-image-repeat") {
            Some(Property::BorderImageRepeat)
        } else if str_eq(string, "border-image-slice") {
            Some(Property::BorderImageSlice)
        } else if str_eq(string, "border-image-source") {
            Some(Property::BorderImageSource)
        } else if str_eq(string, "border-image-width") {
            Some(Property::BorderImageWidth)
        } else if str_eq(string, "border-left") {
            Some(Property::BorderLeft)
        } else if str_eq(string, "border-left-color") {
            Some(Property::BorderLeftColor)
        } else if str_eq(string, "border-left-style") {
            Some(Property::BorderLeftStyle)
        } else if str_eq(string, "border-left-width") {
            Some(Property::BorderLeftWidth)
        } else if str_eq(string, "border-radius") {
            Some(Property::BorderRadius)
        } else if str_eq(string, "border-right") {
            Some(Property::BorderRight)
        } else if str_eq(string, "border-right-color") {
            Some(Property::BorderRightColor)
        } else if str_eq(string, "border-right-style") {
            Some(Property::BorderRightStyle)
        } else if str_eq(string, "border-right-width") {
            Some(Property::BorderRightWidth)
        } else if str_eq(string, "border-spacing") {
            Some(Property::BorderSpacing)
        } else if str_eq(string, "border-style") {
            Some(Property::BorderStyle)
        } else if str_eq(string, "border-top") {
            Some(Property::BorderTop)
        } else if str_eq(string, "border-top-color") {
            Some(Property::BorderTopColor)
        } else if str_eq(string, "border-top-left-radius") {
            Some(Property::BorderTopLeftRadius)
        } else if str_eq(string, "border-top-right-radius") {
            Some(Property::BorderTopRightRadius)
        } else if str_eq(string, "border-top-style") {
            Some(Property::BorderTopStyle)
        } else if str_eq(string, "border-top-width") {
            Some(Property::BorderTopWidth)
        } else if str_eq(string, "border-width") {
            Some(Property::BorderWidth)
        } else if str_eq(string, "bottom") {
            Some(Property::Bottom)
        } else if str_eq(string, "box-decoration-break") {
            Some(Property::BoxDecorationBreak)
        } else if str_eq(string, "box-shadow") {
            Some(Property::BoxShadow)
        } else if str_eq(string, "box-sizing") {
            Some(Property::BoxSizing)
        } else if str_eq(string, "caption-side") {
            Some(Property::CaptionSide)
        } else if str_eq(string, "caret-color") {
            Some(Property::CaretColor)
        } else if str_eq(string, "@charset") {
            Some(Property::Charset)
        } else if str_eq(string, "clear") {
            Some(Property::Clear)
        } else if str_eq(string, "clip") {
            Some(Property::Clip)
        } else if str_eq(string, "color") {
            Some(Property::Color)
        } else if str_eq(string, "column-count") {
            Some(Property::ColumnCount)
        } else if str_eq(string, "column-fill") {
            Some(Property::ColumnFill)
        } else if str_eq(string, "column-gap") {
            Some(Property::ColumnGap)
        } else if str_eq(string, "column-rule") {
            Some(Property::ColumnRule)
        } else if str_eq(string, "column-rule-color") {
            Some(Property::ColumnRuleColor)
        } else if str_eq(string, "column-rule-style") {
            Some(Property::ColumnRuleStyle)
        } else if str_eq(string, "column-rule-width") {
            Some(Property::ColumnRuleWidth)
        } else if str_eq(string, "column-span") {
            Some(Property::ColumnSpan)
        } else if str_eq(string, "column-width") {
            Some(Property::ColumnWidth)
        } else if str_eq(string, "columns") {
            Some(Property::Columns)
        } else if str_eq(string, "content") {
            Some(Property::Content)
        } else if str_eq(string, "counter-increment") {
            Some(Property::CounterIncrement)
        } else if str_eq(string, "counter-reset") {
            Some(Property::CounterReset)
        } else if str_eq(string, "cursor") {
            Some(Property::Cursor)
        } else if str_eq(string, "direction") {
            Some(Property::Direction)
        } else if str_eq(string, "display") {
            Some(Property::Display)
        } else if str_eq(string, "empty-cells") {
            Some(Property::EmptyCells)
        } else if str_eq(string, "filter") {
            Some(Property::Filter)
        } else if str_eq(string, "flex") {
            Some(Property::Flex)
        } else if str_eq(string, "flex-basis") {
            Some(Property::FlexBasis)
        } else if str_eq(string, "flex-direction") {
            Some(Property::FlexDirection)
        } else if str_eq(string, "flex-flow") {
            Some(Property::FlexFlow)
        } else if str_eq(string, "flex-grow") {
            Some(Property::FlexGrow)
        } else if str_eq(string, "flex-shrink") {
            Some(Property::FlexShrink)
        } else if str_eq(string, "flex-wrap") {
            Some(Property::FlexWrap)
        } else if str_eq(string, "float") {
            Some(Property::Float)
        } else if str_eq(string, "font") {
            Some(Property::Font)
        } else if str_eq(string, "@font-face") {
            Some(Property::FontFace)
        } else if str_eq(string, "font-family") {
            Some(Property::FontFamily)
        } else if str_eq(string, "font-kerning") {
            Some(Property::FontKerning)
        } else if str_eq(string, "font-size") {
            Some(Property::FontSize)
        } else if str_eq(string, "font-size-adjust") {
            Some(Property::FontSizeAdjust)
        } else if str_eq(string, "font-stretch") {
            Some(Property::FontStretch)
        } else if str_eq(string, "font-style") {
            Some(Property::FontStyle)
        } else if str_eq(string, "font-variant") {
            Some(Property::FontVariant)
        } else if str_eq(string, "font-weight") {
            Some(Property::FontWeight)
        } else if str_eq(string, "grid") {
            Some(Property::Grid)
        } else if str_eq(string, "grid-area") {
            Some(Property::GridArea)
        } else if str_eq(string, "grid-auto-columns") {
            Some(Property::GridAutoColumns)
        } else if str_eq(string, "grid-auto-flow") {
            Some(Property::GridAutoFlow)
        } else if str_eq(string, "grid-auto-rows") {
            Some(Property::GridAutoRows)
        } else if str_eq(string, "grid-column") {
            Some(Property::GridColumn)
        } else if str_eq(string, "grid-column-end") {
            Some(Property::GridColumnEnd)
        } else if str_eq(string, "grid-column-gap") {
            Some(Property::GridColumnGap)
        } else if str_eq(string, "grid-column-start") {
            Some(Property::GridColumnStart)
        } else if str_eq(string, "grid-gap") {
            Some(Property::GridGap)
        } else if str_eq(string, "grid-row") {
            Some(Property::GridRow)
        } else if str_eq(string, "grid-row-end") {
            Some(Property::GridRowEnd)
        } else if str_eq(string, "grid-row-gap") {
            Some(Property::GridRowGap)
        } else if str_eq(string, "grid-row-start") {
            Some(Property::GridRowStart)
        } else if str_eq(string, "grid-template") {
            Some(Property::GridTemplate)
        } else if str_eq(string, "grid-template-areas") {
            Some(Property::GridTemplateAreas)
        } else if str_eq(string, "grid-template-columns") {
            Some(Property::GridTemplateColumns)
        } else if str_eq(string, "grid-template-rows") {
            Some(Property::GridTemplateRows)
        } else if str_eq(string, "hanging-punctuation") {
            Some(Property::HangingPunctuation)
        } else if str_eq(string, "height") {
            Some(Property::Height)
        } else if str_eq(string, "hyphens") {
            Some(Property::Hyphens)
        } else if str_eq(string, "@import") {
            Some(Property::Import)
        } else if str_eq(string, "isolation") {
            Some(Property::Isolation)
        } else if str_eq(string, "justify-content") {
            Some(Property::JustifyContent)
        } else if str_eq(string, "@keyframes") {
            Some(Property::Keyframes)
        } else if str_eq(string, "left") {
            Some(Property::Left)
        } else if str_eq(string, "letter-spacing") {
            Some(Property::LetterSpacing)
        } else if str_eq(string, "line-height") {
            Some(Property::LineHeight)
        } else if str_eq(string, "list-style") {
            Some(Property::ListStyle)
        } else if str_eq(string, "list-style-image") {
            Some(Property::ListStyleImage)
        } else if str_eq(string, "list-style-position") {
            Some(Property::ListStylePosition)
        } else if str_eq(string, "list-style-type") {
            Some(Property::ListStyleType)
        } else if str_eq(string, "margin") {
            Some(Property::Margin)
        } else if str_eq(string, "margin-bottom") {
            Some(Property::MarginBottom)
        } else if str_eq(string, "margin-left") {
            Some(Property::MarginLeft)
        } else if str_eq(string, "margin-right") {
            Some(Property::MarginRight)
        } else if str_eq(string, "margin-top") {
            Some(Property::MarginTop)
        } else if str_eq(string, "max-height") {
            Some(Property::MaxHeight)
        } else if str_eq(string, "max-width") {
            Some(Property::MaxWidth)
        } else if str_eq(string, "@media") {
            Some(Property::Media)
        } else if str_eq(string, "min-height") {
            Some(Property::MinHeight)
        } else if str_eq(string, "min-width") {
            Some(Property::MinWidth)
        } else if str_eq(string, "mix-blend-mode") {
            Some(Property::MixBlendMode)
        } else if str_eq(string, "object-fit") {
            Some(Property::ObjectFit)
        } else if str_eq(string, "object-position") {
            Some(Property::ObjectPosition)
        } else if str_eq(string, "opacity") {
            Some(Property::Opacity)
        } else if str_eq(string, "order") {
            Some(Property::Order)
        } else if str_eq(string, "outline") {
            Some(Property::Outline)
        } else if str_eq(string, "outline-color") {
            Some(Property::OutlineColor)
        } else if str_eq(string, "outline-offset") {
            Some(Property::OutlineOffset)
        } else if str_eq(string, "outline-style") {
            Some(Property::OutlineStyle)
        } else if str_eq(string, "outline-width") {
            Some(Property::OutlineWidth)
        } else if str_eq(string, "overflow") {
            Some(Property::Overflow)
        } else if str_eq(string, "overflow-x") {
            Some(Property::OverflowX)
        } else if str_eq(string, "overflow-y") {
            Some(Property::OverflowY)
        } else if str_eq(string, "padding") {
            Some(Property::Padding)
        } else if str_eq(string, "padding-bottom") {
            Some(Property::PaddingBottom)
        } else if str_eq(string, "padding-left") {
            Some(Property::PaddingLeft)
        } else if str_eq(string, "padding-right") {
            Some(Property::PaddingRight)
        } else if str_eq(string, "padding-top") {
            Some(Property::PaddingTop)
        } else if str_eq(string, "page-break-after") {
            Some(Property::PageBreakAfter)
        } else if str_eq(string, "page-break-before") {
            Some(Property::PageBreakBefore)
        } else if str_eq(string, "page-break-inside") {
            Some(Property::PageBreakInside)
        } else if str_eq(string, "perspective") {
            Some(Property::Perspective)
        } else if str_eq(string, "perspective-origin") {
            Some(Property::PerspectiveOrigin)
        } else if str_eq(string, "pointer-events") {
            Some(Property::PointerEvents)
        } else if str_eq(string, "position") {
            Some(Property::Position)
        } else if str_eq(string, "quotes") {
            Some(Property::Quotes)
        } else if str_eq(string, "resize") {
            Some(Property::Resize)
        } else if str_eq(string, "right") {
            Some(Property::Right)
        } else if str_eq(string, "scroll-behavior") {
            Some(Property::ScrollBehavior)
        } else if str_eq(string, "tab-size") {
            Some(Property::TabSize)
        } else if str_eq(string, "table-layout") {
            Some(Property::TableLayout)
        } else if str_eq(string, "text-align") {
            Some(Property::TextAlign)
        } else if str_eq(string, "text-align-last") {
            Some(Property::TextAlignLast)
        } else if str_eq(string, "text-decoration") {
            Some(Property::TextDecoration)
        } else if str_eq(string, "text-decoration-color") {
            Some(Property::TextDecorationColor)
        } else if str_eq(string, "text-decoration-line") {
            Some(Property::TextDecorationLine)
        } else if str_eq(string, "text-decoration-style") {
            Some(Property::TextDecorationStyle)
        } else if str_eq(string, "text-indent") {
            Some(Property::TextIndent)
        } else if str_eq(string, "text-justify") {
            Some(Property::TextJustify)
        } else if str_eq(string, "text-overflow") {
            Some(Property::TextOverflow)
        } else if str_eq(string, "text-shadow") {
            Some(Property::TextShadow)
        } else if str_eq(string, "text-transform") {
            Some(Property::TextTransform)
        } else if str_eq(string, "top") {
            Some(Property::Top)
        } else if str_eq(string, "transform") {
            Some(Property::Transform)
        } else if str_eq(string, "transform-origin") {
            Some(Property::TransformOrigin)
        } else if str_eq(string, "transform-style") {
            Some(Property::TransformStyle)
        } else if str_eq(string, "transition") {
            Some(Property::Transition)
        } else if str_eq(string, "transition-delay") {
            Some(Property::TransitionDelay)
        } else if str_eq(string, "transition-duration") {
            Some(Property::TransitionDuration)
        } else if str_eq(string, "transition-property") {
            Some(Property::TransitionProperty)
        } else if str_eq(string, "transition-timing-function") {
            Some(Property::TransitionTimingFunction)
        } else if str_eq(string, "unicode-bidi") {
            Some(Property::UnicodeBidi)
        } else if str_eq(string, "user-select") {
            Some(Property::UserSelect)
        } else if str_eq(string, "vertical-align") {
            Some(Property::VerticalAlign)
        } else if str_eq(string, "visibility") {
            Some(Property::Visibility)
        } else if str_eq(string, "white-space") {
            Some(Property::WhiteSpace)
        } else if str_eq(string, "width") {
            Some(Property::Width)
        } else if str_eq(string, "word-break") {
            Some(Property::WordBreak)
        } else if str_eq(string, "word-spacing") {
            Some(Property::WordSpacing)
        } else if str_eq(string, "word-wrap") {
            Some(Property::WordWrap)
        } else if str_eq(string, "writing-mode") {
            Some(Property::WritingMode)
        } else if str_eq(string, "z-index") {
            Some(Property::ZIndex)
        } else {
            None
        }
    }
}

impl Property {
    /// Reading the name of a property gives that property, and nothing else
    /// gives it.
    pub proof fn law_name_round_trip(x: Property, string: &str)
        ensures
            <Property as vstd::std_specs::convert::TryFromSpec<&str>>::try_from_spec(string) == Ok::<
                Property,
                &'static str,
            >(x) <==> x.name() == string@,
    {
        if x.name() == string@ {
            let y = choose|y: Property| y.name() == string@;
            Property::lemma_name_injective(x, y);
        }
    }
}

/// Whether a string is written in quotes, and in which.
#[derive(Copy, Clone, Debug, PartialEq, Eq, Structural)]
pub enum QuoteKind {
    /// In double quotes.
    Quoted,
    /// In single quotes.
    SingleQuoted,
    /// Without quotes.
    Unquoted,
}

/// What stands between the elements of a list.
#[derive(Copy, Clone, Debug, PartialEq, Eq, Structural)]
pub enum ListSeparator {
    Space,
    Comma,
    Slash,
}

impl ListSeparator {
    /// The separator as it is written between two elements.
    pub open spec fn text(self) -> Seq<char> {
        match self {
            ListSeparator::Space => " "@,
            ListSeparator::Comma => ", "@,
            ListSeparator::Slash => " / "@,
        }
    }

    /// The separator as it is written between two elements.
    pub fn as_str(self) -> (s: &'static str)
        ensures
            s@ == self.text(),
    {
        match self {
            ListSeparator::Space => " ",
            ListSeparator::Comma => ", ",
            ListSeparator::Slash => " / ",
        }
    }
}

/// Whether a list is written in square brackets.
#[derive(Copy, Clone, Debug, PartialEq, Eq, Structural)]
pub enum Brackets {
    Bare,
    Bracketed,
}

} // verus!
