//! Footnotes: out-of-line text blocks referenced by short sequential keys.
use vstd::prelude::*;
use crate::text::{decimal, push_natural};

verus! {

/// A footnote: its key, such as `a1`, and its rendered text.
#[derive(Debug, Clone, PartialEq, Eq)]
pub struct Tooltip {
    pub key: String,
    pub text: String,
}

pub struct TooltipModel {
    pub key: Seq<char>,
    pub text: Seq<char>,
}

impl View for Tooltip {
    type V = TooltipModel;

    open spec fn view(&self) -> TooltipModel {
        TooltipModel { key: self.key@, text: self.text@ }
    }
}

pub open spec fn tooltip_views(s: Seq<Tooltip>) -> Seq<TooltipModel> {
    s.map_values(|t: Tooltip| t@)
}

/// The key of the `n`th footnote of a category: `prefix` then `n` in decimal.
pub open spec fn note_key(prefix: Seq<char>, n: int) -> Seq<char> {
    prefix + decimal(n)
}

/// The key of the `n`th footnote of the category `prefix`.
pub fn footnote_key(prefix: &str, n: u64) -> (r: String)
    ensures
        r@ == note_key(prefix@, n as int),
{
    let mut s = String::from_str(prefix);
    push_natural(&mut s, n);
    s
}

/// Appends one footnote to `tooltips`.
pub fn push_tooltip(tooltips: &mut Vec<Tooltip>, key: String, text: String)
    ensures
        tooltip_views(final(tooltips)@) == tooltip_views(old(tooltips)@).push(
            TooltipModel { key: key@, text: text@ },
        ),
{
    tooltips.push(Tooltip { key, text });
    proof {
        assert(tooltip_views(final(tooltips)@) =~= tooltip_views(old(tooltips)@).push(
            TooltipModel { key: key@, text: text@ },
        ));
    }
}

} // verus!
