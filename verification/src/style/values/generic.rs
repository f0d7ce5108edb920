//! Values that are given for the four sides of a box at once.

use vstd::prelude::*;

use crate::style::errors::PropertyParseError;
use crate::style::values::border::LineStyle;
use crate::style::values::css_tokens;
use crate::style::values::CssToken;
use crate::style::values::CssTokenView;
use crate::style::values::spec_token_views;
use crate::style::values::tokenize;

verus! {

#[derive(Copy, Clone, Debug, PartialEq, Eq)]
pub struct FourSides<T> {
    pub top: T,
    pub right: T,
    pub bottom: T,
    pub left: T,
}

impl<T: Copy> FourSides<T> {
    /// The four sides that one to four values stand for: one value is for
    /// all sides; of two, the first is for top and bottom and the second for
    /// right and left; of three, the first is for the top, the second for right
    /// and left and the third for the bottom; four are for top, right, bottom
    /// and left. Values after the fourth do not count. No value, no sides.
    pub open spec fn spec_from_values(values: Seq<T>) -> Option<FourSides<T>> {
        if values.len() == 0 {
            None
        } else if values.len() == 1 {
            Some(FourSides { top: values[0], right: values[0], bottom: values[0], left: values[0] })
        } else if values.len() == 2 {
            Some(FourSides { top: values[0], right: values[1], bottom: values[0], left: values[1] })
        } else if values.len() == 3 {
            Some(FourSides { top: values[0], right: values[1], bottom: values[2], left: values[1] })
        } else {
            Some(FourSides { top: values[0], right: values[1], bottom: values[2], left: values[3] })
        }
    }

    pub fn from_values(values: &Vec<T>) -> (r: Option<FourSides<T>>)
        ensures
            r == FourSides::<T>::spec_from_values(values@),
    {
        let n = values.len();
        if n == 0 {
            return None;
        }
        let top = values[0];
        if n == 1 {
            return Some(FourSides { top, right: top, bottom: top, left: top });
        }
        let right = values[1];
        if n == 2 {
            return Some(FourSides { top, right, bottom: top, left: right });
        }
        let bottom = values[2];
        if n == 3 {
            return Some(FourSides { top, right, bottom, left: right });
        }
        let left = values[3];
        Some(FourSides { top, right, bottom, left })
    }
}

/// The line style that the token is the keyword of, if it is one.
pub open spec fn spec_line_style_of(token: CssTokenView) -> Option<LineStyle> {
    match token {
        CssTokenView::Ident(name) => LineStyle::spec_from_keyword(name),
        _ => None,
    }
}

/// The line styles that `tokens` holds from index `from` on, one after the
/// other, up to the first token that is none and up to `limit` of them.
pub open spec fn spec_leading_line_styles(tokens: Seq<CssTokenView>, from: int, limit: int) -> Seq<
    LineStyle,
>
    decreases limit,
{
    if limit <= 0 || from < 0 || from >= tokens.len() {
        Seq::empty()
    } else {
        match spec_line_style_of(tokens[from]) {
            Some(style) => seq![style] + spec_leading_line_styles(tokens, from + 1, limit - 1),
            None => Seq::empty(),
        }
    }
}

impl FourSides<LineStyle> {
    /// The line styles of the four sides that `tokens` starts with: one to
    /// four keywords. It is an error if there is no token or if the first is no
    /// line style; what follows the last keyword is not looked at.
    pub open spec fn spec_from_tokens(tokens: Seq<CssTokenView>) -> Result<
        FourSides<LineStyle>,
        PropertyParseError,
    > {
        match LineStyle::spec_from_tokens(tokens) {
            Err(e) => Err(e),
            Ok(_) => match FourSides::<LineStyle>::spec_from_values(
                spec_leading_line_styles(tokens, 0, 4),
            ) {
                Some(sides) => Ok(sides),
                None => Err(PropertyParseError::UnexpectedToken),
            },
        }
    }

    pub fn from_tokens(tokens: &Vec<CssToken>) -> (r: Result<
        FourSides<LineStyle>,
        PropertyParseError,
    >)
        ensures
            r == FourSides::<LineStyle>::spec_from_tokens(spec_token_views(tokens@)),
    {
        match LineStyle::from_tokens(tokens) {
            Err(e) => {
                return Err(e);
            },
            Ok(_) => {},
        }
        let ghost views = spec_token_views(tokens@);
        let mut values: Vec<LineStyle> = Vec::new();
        let mut i: usize = 0;
        let mut open = true;
        while open && i < 4 && i < tokens.len()
            invariant
                i <= 4,
                i <= tokens.len(),
                views == spec_token_views(tokens@),
                open ==> values@ + spec_leading_line_styles(views, i as int, 4 - i)
                    == spec_leading_line_styles(views, 0, 4),
                !open ==> values@ == spec_leading_line_styles(views, 0, 4),
            decreases 4 - i + (if open { 1int } else { 0int }),
        {
            let found = match &tokens[i] {
                CssToken::Ident(name) => LineStyle::from_keyword(name.as_str()),
                _ => None,
            };
            assert(views[i as int] == tokens@[i as int]@);
            match found {
                Some(style) => {
                    let ghost rest = spec_leading_line_styles(views, i + 1, 4 - i - 1);
                    assert(values@.push(style) + rest =~= values@ + (seq![style] + rest));
                    values.push(style);
                    i += 1;
                },
                None => {
                    assert(values@ + Seq::<LineStyle>::empty() =~= values@);
                    open = false;
                },
            }
        }
        assert(values@ + Seq::<LineStyle>::empty() =~= values@);
        match FourSides::from_values(&values) {
            Some(sides) => Ok(sides),
            None => Err(PropertyParseError::UnexpectedToken),
        }
    }

    /// Reads the line styles of the four sides from CSS text.
    pub fn parse(css: &str) -> (r: Result<FourSides<LineStyle>, PropertyParseError>)
        ensures
            r == FourSides::<LineStyle>::spec_from_tokens(css_tokens(css@)),
    {
        let tokens = tokenize(css);
        FourSides::<LineStyle>::from_tokens(&tokens)
    }
}

} // verus!
