use sass_core::common::{
    Brackets, Color, Keyword, ListSeparator, Op, Pos, Property, QuoteKind, Symbol, Whitespace,
};
use std::convert::TryFrom;

#[test]
fn pos_starts_at_origin() {
    let p = Pos::new();
    assert_eq!(p.line(), 0);
    assert_eq!(p.column(), 0);
}

#[test]
fn pos_moves_right_and_down() {
    let mut p = Pos::new();
    p.next_char();
    p.chars(4);
    assert_eq!((p.line(), p.column()), (0, 5));
    p.newline();
    assert_eq!((p.line(), p.column()), (1, 0));
    p.chars(0);
    assert_eq!((p.line(), p.column()), (1, 0));
}

#[test]
fn pos_is_copied_and_compared() {
    let mut p = Pos::new();
    let q = p;
    p.next_char();
    assert_eq!(q, Pos::new());
    assert_ne!(p, q);
}

#[test]
fn symbol_reads_every_mark() {
    let marks = [
        ('.', Symbol::Period),
        ('#', Symbol::Hash),
        ('@', Symbol::At),
        ('$', Symbol::Dollar),
        ('(', Symbol::OpenParen),
        (')', Symbol::CloseParen),
        ('{', Symbol::OpenBrace),
        ('}', Symbol::CloseBrace),
        ('[', Symbol::OpenBracket),
        (']', Symbol::CloseBracket),
        (',', Symbol::Comma),
        ('+', Symbol::Plus),
        ('-', Symbol::Minus),
        ('*', Symbol::Mul),
        ('/', Symbol::Div),
        (':', Symbol::Colon),
        (';', Symbol::SemiColon),
        ('~', Symbol::Tilde),
        ('>', Symbol::Gt),
        ('<', Symbol::Lt),
        ('^', Symbol::Xor),
        ('=', Symbol::Equal),
        ('|', Symbol::BitOr),
        ('&', Symbol::BitAnd),
        ('%', Symbol::Percent),
        ('"', Symbol::DoubleQuote),
        ('\'', Symbol::SingleQuote),
    ];
    for (c, s) in marks {
        assert_eq!(Symbol::try_from(c), Ok(s));
        assert_eq!(s.to_string(), format!("{}", c));
    }
}

#[test]
fn symbol_refuses_other_characters() {
    assert_eq!(Symbol::try_from('a'), Err("invalid symbol"));
    assert_eq!(Symbol::try_from(' '), Err("invalid symbol"));
    assert_eq!(Symbol::try_from('!'), Err("invalid symbol"));
}

#[test]
fn whitespace_reads_and_writes() {
    let all = [
        (' ', Whitespace::Space),
        ('\t', Whitespace::Tab),
        ('\n', Whitespace::Newline),
        ('\r', Whitespace::CarriageReturn),
    ];
    for (c, w) in all {
        assert_eq!(Whitespace::try_from(c), Ok(w));
        assert_eq!(w.to_string(), format!("{}", c));
    }
    assert_eq!(Whitespace::try_from('x'), Err("invalid whitespace"));
}

#[test]
fn op_writes() {
    assert_eq!(Op::Equal.to_string(), "==");
    assert_eq!(Op::NotEqual.to_string(), "!=");
    assert_eq!(Op::GreaterThanEqual.to_string(), ">=");
    assert_eq!(Op::LessThanEqual.to_string(), "<=");
}

#[test]
fn keyword_reads_what_it_writes() {
    assert_eq!(Keyword::try_from("!important"), Ok(Keyword::Important));
    assert_eq!(Keyword::try_from("Infinity"), Ok(Keyword::Infinity));
    assert_eq!(Keyword::try_from("NaN"), Ok(Keyword::NaN));
    assert_eq!(Keyword::try_from("auto"), Ok(Keyword::Auto));
    assert_eq!(Keyword::try_from("inherit"), Ok(Keyword::Inherit));
    assert_eq!(Keyword::try_from("initial"), Ok(Keyword::Initial));
    assert_eq!(Keyword::try_from("unset"), Ok(Keyword::Unset));
    assert_eq!(Keyword::try_from("true"), Ok(Keyword::True));
    assert_eq!(Keyword::try_from("false"), Ok(Keyword::False));
    assert_eq!(Keyword::try_from("not"), Ok(Keyword::Not));
    assert_eq!(Keyword::try_from("and"), Ok(Keyword::And));
    assert_eq!(Keyword::try_from("or"), Ok(Keyword::Or));
    assert_eq!(Keyword::try_from("null"), Ok(Keyword::Null));
    let all = [
        Keyword::Important,
        Keyword::Infinity,
        Keyword::NaN,
        Keyword::Auto,
        Keyword::Inherit,
        Keyword::Initial,
        Keyword::Unset,
        Keyword::True,
        Keyword::False,
        Keyword::Not,
        Keyword::And,
        Keyword::Or,
        Keyword::Null,
    ];
    for k in all {
        assert_eq!(Keyword::try_from(k.to_string().as_str()), Ok(k));
        assert_eq!(Keyword::try_from(k.as_str()), Ok(k));
    }
}

#[test]
fn keyword_matching_is_case_sensitive() {
    assert_eq!(Keyword::try_from("infinity"), Err("invalid keyword"));
    assert_eq!(Keyword::try_from("INFINITY"), Err("invalid keyword"));
    assert_eq!(Keyword::try_from("nan"), Err("invalid keyword"));
    assert_eq!(Keyword::try_from("Nan"), Err("invalid keyword"));
    assert_eq!(Keyword::try_from("important"), Err("invalid keyword"));
    assert_eq!(Keyword::try_from("!Important"), Err("invalid keyword"));
    assert_eq!(Keyword::try_from("TRUE"), Err("invalid keyword"));
    assert_eq!(Keyword::try_from("Auto"), Err("invalid keyword"));
    assert_eq!(Keyword::try_from(""), Err("invalid keyword"));
}

#[test]
fn keyword_writes_as_in_a_style_sheet() {
    assert_eq!(Keyword::Important.to_string(), "!important");
    assert_eq!(Keyword::Infinity.to_string(), "Infinity");
    assert_eq!(Keyword::NaN.to_string(), "NaN");
    assert_eq!(Keyword::Auto.to_string(), "auto");
    assert_eq!(Keyword::Null.to_string(), "null");
    assert_eq!(Keyword::Or.as_str(), "or");
    let s: &'static str = Keyword::Important.into();
    assert_eq!(s, "!important");
    let s: &'static str = Keyword::Unset.into();
    assert_eq!(s, "unset");
}

#[test]
fn color_reads_names() {
    assert_eq!(Color::try_from("aliceblue"), Ok(Color::AliceBlue));
    assert_eq!(Color::try_from("rebeccapurple"), Ok(Color::RebeccaPurple));
    assert_eq!(Color::try_from("gray"), Ok(Color::Gray));
    assert_eq!(Color::try_from("grey"), Ok(Color::Grey));
    assert_eq!(Color::try_from("lightgoldenrodyellow"), Ok(Color::LightGoldenRodYellow));
    assert_eq!(Color::try_from("yellowgreen"), Ok(Color::YellowGreen));
    assert_eq!(Color::try_from("red"), Ok(Color::Red));
    assert_eq!(Color::try_from("tan"), Ok(Color::Tan));
}

#[test]
fn color_refuses_what_is_no_name() {
    assert_eq!(Color::try_from("Red"), Err("invalid color"));
    assert_eq!(Color::try_from("#ff0000"), Err("invalid color"));
    assert_eq!(Color::try_from(""), Err("invalid color"));
    assert_eq!(Color::try_from("reddish"), Err("invalid color"));
}

#[test]
fn color_other_holds_its_code() {
    assert_eq!(Color::Other(0xff0000), Color::Other(0xff0000));
    assert_ne!(Color::Other(0xff0000), Color::Red);
}

#[test]
fn property_reads_names() {
    assert_eq!(Property::try_from("align-content"), Ok(Property::AlignContent));
    assert_eq!(Property::try_from("z-index"), Ok(Property::ZIndex));
    assert_eq!(Property::try_from("color"), Ok(Property::Color));
    assert_eq!(Property::try_from("@charset"), Ok(Property::Charset));
    assert_eq!(Property::try_from("@font-face"), Ok(Property::FontFace));
    assert_eq!(Property::try_from("@import"), Ok(Property::Import));
    assert_eq!(Property::try_from("@keyframes"), Ok(Property::Keyframes));
    assert_eq!(Property::try_from("@media"), Ok(Property::Media));
    assert_eq!(Property::try_from("border-top-left-radius"), Ok(Property::BorderTopLeftRadius));
    assert_eq!(Property::try_from("word-wrap"), Ok(Property::WordWrap));
}

#[test]
fn property_refuses_what_is_no_name() {
    assert_eq!(Property::try_from("charset"), Err("invalid property"));
    assert_eq!(Property::try_from("Color"), Err("invalid property"));
    assert_eq!(Property::try_from("colour"), Err("invalid property"));
    assert_eq!(Property::try_from(""), Err("invalid property"));
}

#[test]
fn separators_are_written_between_elements() {
    assert_eq!(ListSeparator::Space.as_str(), " ");
    assert_eq!(ListSeparator::Comma.as_str(), ", ");
    assert_eq!(ListSeparator::Slash.as_str(), " / ");
    assert_ne!(Brackets::Bare, Brackets::Bracketed);
    assert_ne!(QuoteKind::Quoted, QuoteKind::Unquoted);
}
