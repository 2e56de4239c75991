//! Orderings of a listing and the query parameters that request them.

use vstd::prelude::*;
use crate::form::PairView;

verus! {

/// The time window of a `Top` or `Controversial` listing.
#[derive(Debug, Clone, Copy, PartialEq, Eq, Structural)]
pub enum SortTime {
    Hour,
    Day,
    Week,
    Month,
    Year,
    All,
}

/// The ordering of a listing.
#[derive(Debug, Clone, Copy, PartialEq, Eq, Structural)]
pub enum Sort {
    Hot,
    New,
    Rising,
    Top(SortTime),
    Controversial(SortTime),
}

pub open spec fn time_name(t: SortTime) -> Seq<char> {
    match t {
        SortTime::Hour => "hour"@,
        SortTime::Day => "day"@,
        SortTime::Week => "week"@,
        SortTime::Month => "month"@,
        SortTime::Year => "year"@,
        SortTime::All => "all"@,
    }
}

/// The query parameters that request an ordering.
pub open spec fn sort_params(s: Sort) -> Seq<PairView> {
    match s {
        Sort::Hot => seq![("sort"@, "hot"@)],
        Sort::New => seq![("sort"@, "new"@)],
        Sort::Rising => seq![("sort"@, "rising"@)],
        Sort::Top(t) => seq![("sort"@, "top"@), ("t"@, time_name(t))],
        Sort::Controversial(t) => seq![("sort"@, "controversial"@), ("t"@, time_name(t))],
    }
}

pub open spec fn str_pairs_view(v: Seq<(&str, &str)>) -> Seq<PairView> {
    Seq::new(v.len(), |i: int| (v[i].0@, v[i].1@))
}

impl SortTime {
    /// The value of the `t` parameter.
    pub fn param(self) -> (r: &'static str)
        ensures
            r@ == time_name(self),
    {
        match self {
            SortTime::Hour => "hour",
            SortTime::Day => "day",
            SortTime::Week => "week",
            SortTime::Month => "month",
            SortTime::Year => "year",
            SortTime::All => "all",
        }
    }
}

impl Sort {
    /// The query parameters that request this ordering.
    pub fn param(self) -> (r: Vec<(&'static str, &'static str)>)
        ensures
            str_pairs_view(r@) == sort_params(self),
    {
        let mut v: Vec<(&'static str, &'static str)> = Vec::new();
        match self {
            Sort::Hot => v.push(("sort", "hot")),
            Sort::New => v.push(("sort", "new")),
            Sort::Rising => v.push(("sort", "rising")),
            Sort::Top(t) => {
                v.push(("sort", "top"));
                v.push(("t", t.param()));
            },
            Sort::Controversial(t) => {
                v.push(("sort", "controversial"));
                v.push(("t", t.param()));
            },
        }
        assert(str_pairs_view(v@) =~= sort_params(self));
        v
    }
}

} // verus!
