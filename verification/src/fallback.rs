//! Ordered fallback: a value comes from its preferred source, from the
//! fallback, or from nowhere, and says which.

use vstd::prelude::*;

verus! {

/// A value and the tier that produced it.
#[derive(Debug, Clone)]
pub enum Tiered {
    /// The preferred source gave the value.
    Resolved(String),
    /// The preferred source gave nothing; the fallback gave the value.
    Fallback(String),
    /// Neither gave a value.
    Missing,
}

/// The mathematical value of a `Tiered`.
pub enum TieredView {
    Resolved(Seq<char>),
    Fallback(Seq<char>),
    Missing,
}

impl View for Tiered {
    type V = TieredView;

    open spec fn view(&self) -> TieredView {
        match self {
            Tiered::Resolved(s) => TieredView::Resolved(s@),
            Tiered::Fallback(s) => TieredView::Fallback(s@),
            Tiered::Missing => TieredView::Missing,
        }
    }
}

/// The preferred value where there is one, else the fallback.
pub open spec fn tiered(preferred: Option<Seq<char>>, fallback: Option<Seq<char>>) -> TieredView {
    match preferred {
        Some(value) => TieredView::Resolved(value),
        None => match fallback {
            Some(value) => TieredView::Fallback(value),
            None => TieredView::Missing,
        },
    }
}

/// The value of a `TieredView`, whichever tier gave it.
pub open spec fn value_of(t: TieredView) -> Option<Seq<char>> {
    match t {
        TieredView::Resolved(value) => Some(value),
        TieredView::Fallback(value) => Some(value),
        TieredView::Missing => None,
    }
}

/// Takes the preferred value where there is one, else the fallback.
pub fn first_available(preferred: Option<String>, fallback: Option<String>) -> (t: Tiered)
    ensures
        t@ == tiered(preferred.deep_view(), fallback.deep_view()),
{
    match preferred {
        Some(value) => Tiered::Resolved(value),
        None => match fallback {
            Some(value) => Tiered::Fallback(value),
            None => Tiered::Missing,
        },
    }
}

impl Tiered {
    /// The value, whichever tier gave it.
    pub fn value(self) -> (v: Option<String>)
        ensures
            v.deep_view() == value_of(self@),
    {
        match self {
            Tiered::Resolved(value) => Some(value),
            Tiered::Fallback(value) => Some(value),
            Tiered::Missing => None,
        }
    }
}

} // verus!
