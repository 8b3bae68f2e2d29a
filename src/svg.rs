//! The size of a rendered image, read back out of its SVG text, and that
//! size scaled for display.

use vstd::prelude::*;
use crate::text::{parse_decimal, parsed_decimal};

verus! {

/// The pattern of the width and height attributes, in points, that the
/// renderer writes into the SVG root element.
pub const SVG_SIZE_PATTERN: &'static str = "width=\"([0-9]+)pt\" height=\"([0-9]+)pt\"";

/// The groups of the leftmost match of the regular expression `pattern` in
/// `haystack`, group 0 being the whole match; `None` where nothing matches
/// or `pattern` is no valid regular expression.
pub uninterp spec fn regex_captures(pattern: Seq<char>, haystack: Seq<char>) -> Option<
    Seq<Option<Seq<char>>>,
>;

/// Relies on `regex::Regex::new` and `regex::Regex::captures`: the groups of
/// the leftmost match, each with its text where it took part, and at least
/// the whole match as group 0.
#[verifier::external_body]
fn first_captures(pattern: &str, haystack: &str) -> (r: Option<Vec<Option<String>>>)
    ensures
        r.deep_view() == regex_captures(pattern@, haystack@),
        r is Some ==> r->0@.len() >= 1,
{
    let re = regex::Regex::new(pattern).ok()?;
    re.captures(haystack).map(
        |c| c.iter().map(|m| m.map(|m| m.as_str().to_string())).collect(),
    )
}

/// The width and height that a match's first two groups give, where both
/// took part and read as decimal numbers.
pub open spec fn size_of_captures(c: Option<Seq<Option<Seq<char>>>>) -> Option<(usize, usize)> {
    match c {
        Some(g) => if g.len() >= 3 && g[1] is Some && g[2] is Some {
            match (parsed_decimal(g[1]->0), parsed_decimal(g[2]->0)) {
                (Some(w), Some(h)) => Some((w, h)),
                _ => None,
            }
        } else {
            None
        },
        None => None,
    }
}

/// Reads a width and a height out of the groups of a size match.
pub fn size_from_captures(captures: &Option<Vec<Option<String>>>) -> (r: Option<(usize, usize)>)
    ensures
        r == size_of_captures(captures.deep_view()),
{
    match captures {
        Some(groups) => {
            if groups.len() < 3 {
                return None;
            }
            let w = match &groups[1] {
                Some(text) => parse_decimal(text.as_str()),
                None => None,
            };
            let h = match &groups[2] {
                Some(text) => parse_decimal(text.as_str()),
                None => None,
            };
            assert(captures.deep_view()->0[1] == groups@[1].deep_view());
            assert(captures.deep_view()->0[2] == groups@[2].deep_view());
            match (w, h) {
                (Some(w), Some(h)) => Some((w, h)),
                _ => None,
            }
        },
        None => None,
    }
}

/// The size, in points, that an SVG image declares on its root element;
/// `None` when it declares none.
pub fn svg_size(svg: &str) -> (r: Option<(usize, usize)>)
    ensures
        r == size_of_captures(regex_captures(SVG_SIZE_PATTERN@, svg@)),
{
    let captures = first_captures(SVG_SIZE_PATTERN, svg);
    size_from_captures(&captures)
}

/// A size scaled by a percentage, rounded down.
pub fn scaled_size(size: (usize, usize), percent: usize) -> (r: (usize, usize))
    requires
        size.0 * percent <= usize::MAX,
        size.1 * percent <= usize::MAX,
    ensures
        r.0 == size.0 * percent / 100,
        r.1 == size.1 * percent / 100,
{
    (size.0 * percent / 100, size.1 * percent / 100)
}

} // verus!
