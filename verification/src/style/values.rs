//! The value types of computed style, and how they are read from CSS text.

use vstd::prelude::*;

use crate::style::errors::PropertyParseError;
use crate::utils::to_chars;

pub mod border;
pub mod float_bits;
pub mod box_;
pub mod color;
pub mod fontfamily;
pub mod fonts;
pub mod generic;
pub mod length;
pub mod line;
pub mod text;
pub mod writing_modes;

verus! {

/// A CSS token, as far as the values here tell tokens apart.
#[derive(Debug)]
pub enum CssToken {
    /// An identifier, such as `bold`.
    Ident(String),
    /// A quoted string, without its quotes.
    QuotedString(String),
    /// A number without a unit, as the bits of a single-precision float.
    Number { bits: u32 },
    /// A percentage as a share of one, as the bits of a single-precision
    /// float: a half for `50%`.
    Percentage { bits: u32 },
    /// A number with a unit, the number as the bits of a single-precision
    /// float.
    Dimension { bits: u32, unit: String },
    /// Any other token.
    Other,
}

/// A CSS token as a value.
pub enum CssTokenView {
    Ident(Seq<char>),
    QuotedString(Seq<char>),
    Number { bits: u32 },
    Percentage { bits: u32 },
    Dimension { bits: u32, unit: Seq<char> },
    Other,
}

impl View for CssToken {
    type V = CssTokenView;

    open spec fn view(&self) -> CssTokenView {
        match self {
            CssToken::Ident(name) => CssTokenView::Ident(name@),
            CssToken::QuotedString(value) => CssTokenView::QuotedString(value@),
            CssToken::Number { bits } => CssTokenView::Number { bits: *bits },
            CssToken::Percentage { bits } => CssTokenView::Percentage { bits: *bits },
            CssToken::Dimension { bits, unit } => CssTokenView::Dimension {
                bits: *bits,
                unit: unit@,
            },
            CssToken::Other => CssTokenView::Other,
        }
    }
}

/// The tokens of `tokens` as values, in order.
pub open spec fn spec_token_views(tokens: Seq<CssToken>) -> Seq<CssTokenView> {
    Seq::new(tokens.len(), |i: int| tokens[i]@)
}

/// The tokens that `cssparser` reads from a CSS text at its top level,
/// white space and comments left out.
pub uninterp spec fn css_tokens(css: Seq<char>) -> Seq<CssTokenView>;

/// `cssparser::Parser::next`, called on a parser over `css` until it
/// reports the end of the input. The contract gives the tokens that come out
/// a name, `css_tokens`, and claims nothing else of them: what the tokens of
/// a text are is for `cssparser` to say. The numbers of tokens are handed on
/// bit for bit.
#[verifier::external_body]
pub(crate) fn tokenize(css: &str) -> (tokens: Vec<CssToken>)
    ensures
        spec_token_views(tokens@) == css_tokens(css@),
{
    let mut input = cssparser::ParserInput::new(css);
    let mut parser = cssparser::Parser::new(&mut input);
    let mut tokens = Vec::new();
    while let Ok(token) = parser.next() {
        tokens.push(match token {
            cssparser::Token::Ident(name) => CssToken::Ident(name.to_string()),
            cssparser::Token::QuotedString(value) => CssToken::QuotedString(value.to_string()),
            cssparser::Token::Number { value, .. } => CssToken::Number { bits: value.to_bits() },
            cssparser::Token::Percentage { unit_value, .. } => CssToken::Percentage { bits: unit_value.to_bits() },
            cssparser::Token::Dimension { value, unit, .. } => CssToken::Dimension { bits: value.to_bits(), unit: unit.to_string() },
            _ => CssToken::Other,
        });
    }
    tokens
}

/// The texts of `parts` as values, in order.
pub open spec fn spec_text_views(parts: Seq<String>) -> Seq<Seq<char>> {
    Seq::new(parts.len(), |i: int| parts[i]@)
}

/// The component values that `cssparser` finds in a CSS text at its top
/// level, each as the piece of the text that it takes: a token, along with
/// the block that it opens if it opens one.
pub uninterp spec fn css_components(css: Seq<char>) -> Seq<Seq<char>>;

/// `cssparser::Parser::next` with `Parser::skip_whitespace`, called on a
/// parser over `css` until `next` reports the end of the input; each piece
/// is what `Parser::slice_from` gives from the `Parser::position` before the
/// token up to the next token. The contract gives the pieces that come out a
/// name, `css_components`, and claims nothing else of them: where one
/// component value of a text ends and the next begins is for `cssparser` to
/// say.
#[verifier::external_body]
pub(crate) fn components(css: &str) -> (parts: Vec<String>)
    ensures
        spec_text_views(parts@) == css_components(css@),
{
    let mut input = cssparser::ParserInput::new(css);
    let mut parser = cssparser::Parser::new(&mut input);
    let mut parts = Vec::new();
    loop {
        parser.skip_whitespace();
        let start = parser.position();
        if parser.next().is_err() {
            break;
        }
        parser.skip_whitespace();
        parts.push(parser.slice_from(start).to_string());
    }
    parts
}

/// `c` in lower case if it is an ASCII capital letter, else `c` itself.
pub open spec fn spec_ascii_lower(c: char) -> char {
    if 'A' <= c && c <= 'Z' {
        ((c as u8 + 32) as u8) as char
    } else {
        c
    }
}

/// Whether `a` and `b` are the same but for the case of ASCII letters.
pub open spec fn spec_eq_ignore_ascii_case(a: Seq<char>, b: Seq<char>) -> bool {
    &&& a.len() == b.len()
    &&& forall|i: int| 0 <= i < a.len() ==> spec_ascii_lower(#[trigger] a[i]) == spec_ascii_lower(
        b[i],
    )
}

pub fn ascii_lower(c: char) -> (r: char)
    ensures
        r == spec_ascii_lower(c),
{
    if 'A' <= c && c <= 'Z' {
        ((c as u8 + 32) as u8) as char
    } else {
        c
    }
}

/// Whether `name` is `keyword` but for the case of ASCII letters.
pub fn eq_ignore_ascii_case(name: &str, keyword: &str) -> (r: bool)
    ensures
        r == spec_eq_ignore_ascii_case(name@, keyword@),
{
    let a = to_chars(name);
    let b = to_chars(keyword);
    if a.len() != b.len() {
        return false;
    }
    let mut i: usize = 0;
    while i < a.len()
        invariant
            i <= a.len() == b.len(),
            a@ == name@,
            b@ == keyword@,
            forall|k: int| 0 <= k < i ==> spec_ascii_lower(#[trigger] a@[k]) == spec_ascii_lower(b@[k]),
        decreases a.len() - i,
    {
        if ascii_lower(a[i]) != ascii_lower(b[i]) {
            assert(spec_ascii_lower(name@[i as int]) != spec_ascii_lower(keyword@[i as int]));
            return false;
        }
        i += 1;
    }
    true
}

/// The identifier that `tokens` starts with. It is an error if there is no
/// token, or if the first token is no identifier.
pub open spec fn spec_expect_ident(tokens: Seq<CssTokenView>) -> Result<
    Seq<char>,
    PropertyParseError,
> {
    if tokens.len() == 0 {
        Err(PropertyParseError::EndOfInput)
    } else {
        match tokens[0] {
            CssTokenView::Ident(name) => Ok(name),
            _ => Err(PropertyParseError::UnexpectedToken),
        }
    }
}

pub fn expect_ident(tokens: &Vec<CssToken>) -> (r: Result<&str, PropertyParseError>)
    ensures
        match spec_expect_ident(spec_token_views(tokens@)) {
            Ok(name) => r is Ok && r->Ok_0@ == name,
            Err(e) => r is Err && r->Err_0 == e,
        },
{
    if tokens.len() == 0 {
        return Err(PropertyParseError::EndOfInput);
    }
    match &tokens[0] {
        CssToken::Ident(name) => Ok(name.as_str()),
        _ => Err(PropertyParseError::UnexpectedToken),
    }
}

} // verus!
