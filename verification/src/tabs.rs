//! The body-encoding tabs of the request editor: a fixed ordered set
//! of six, navigated cyclically. The `None` tab is never editable and
//! never has stored content.

use vstd::prelude::*;

verus! {

/// How many body tabs there are.
pub const TAB_COUNT: usize = 6;

/// A body-encoding tab.
#[derive(Copy, Clone, Debug, PartialEq, Eq, Structural)]
pub enum RequestHeaders {
    NoBody,
    FormData,
    Xwwwformundeclored,
    Raw,
    Binary,
    Graphql,
}

/// The tabs in display order.
pub open spec fn tab_seq() -> Seq<RequestHeaders> {
    seq![
        RequestHeaders::NoBody,
        RequestHeaders::FormData,
        RequestHeaders::Xwwwformundeclored,
        RequestHeaders::Raw,
        RequestHeaders::Binary,
        RequestHeaders::Graphql,
    ]
}

/// The display name of each tab.
pub open spec fn tab_name(t: RequestHeaders) -> Seq<char> {
    match t {
        RequestHeaders::NoBody => "none"@,
        RequestHeaders::FormData => "form-data"@,
        RequestHeaders::Xwwwformundeclored => "x-www-form-urlencoded"@,
        RequestHeaders::Raw => "raw"@,
        RequestHeaders::Binary => "binary"@,
        RequestHeaders::Graphql => "GraphQL"@,
    }
}

/// The tab after `t`, wrapping from the last tab to the first.
pub open spec fn next_tab_spec(t: RequestHeaders) -> RequestHeaders {
    match t {
        RequestHeaders::NoBody => RequestHeaders::FormData,
        RequestHeaders::FormData => RequestHeaders::Xwwwformundeclored,
        RequestHeaders::Xwwwformundeclored => RequestHeaders::Raw,
        RequestHeaders::Raw => RequestHeaders::Binary,
        RequestHeaders::Binary => RequestHeaders::Graphql,
        RequestHeaders::Graphql => RequestHeaders::NoBody,
    }
}

/// The tab before `t`, wrapping from the first tab to the last.
pub open spec fn prev_tab_spec(t: RequestHeaders) -> RequestHeaders {
    match t {
        RequestHeaders::NoBody => RequestHeaders::Graphql,
        RequestHeaders::FormData => RequestHeaders::NoBody,
        RequestHeaders::Xwwwformundeclored => RequestHeaders::FormData,
        RequestHeaders::Raw => RequestHeaders::Xwwwformundeclored,
        RequestHeaders::Binary => RequestHeaders::Raw,
        RequestHeaders::Graphql => RequestHeaders::Binary,
    }
}

/// The tab after `n` forward moves from `t`.
pub open spec fn iter_next_tab(t: RequestHeaders, n: nat) -> RequestHeaders
    decreases n,
{
    if n == 0 {
        t
    } else {
        next_tab_spec(iter_next_tab(t, (n - 1) as nat))
    }
}

/// Cyclic navigation over the tabs is a round trip: moving to the next
/// tab as many times as there are tabs returns to the original tab.
pub proof fn lemma_tab_cycle_identity(t: RequestHeaders)
    ensures
        iter_next_tab(t, TAB_COUNT as nat) == t,
{
    reveal_with_fuel(iter_next_tab, 7);
}

impl RequestHeaders {
    /// Every tab, in display order.
    pub fn all_request() -> (r: Vec<RequestHeaders>)
        ensures
            r@ == tab_seq(),
    {
        let mut v: Vec<RequestHeaders> = Vec::new();
        v.push(RequestHeaders::NoBody);
        v.push(RequestHeaders::FormData);
        v.push(RequestHeaders::Xwwwformundeclored);
        v.push(RequestHeaders::Raw);
        v.push(RequestHeaders::Binary);
        v.push(RequestHeaders::Graphql);
        proof {
            assert(v@ =~= tab_seq());
        }
        v
    }

    /// The display name of this tab.
    pub fn to_string(&self) -> (r: &'static str)
        ensures
            r@ == tab_name(*self),
    {
        match self {
            RequestHeaders::NoBody => "none",
            RequestHeaders::FormData => "form-data",
            RequestHeaders::Xwwwformundeclored => "x-www-form-urlencoded",
            RequestHeaders::Raw => "raw",
            RequestHeaders::Binary => "binary",
            RequestHeaders::Graphql => "GraphQL",
        }
    }

    /// The tab after this one, wrapping around.
    pub fn next_tab(&self) -> (r: RequestHeaders)
        ensures
            r == next_tab_spec(*self),
    {
        match self {
            RequestHeaders::NoBody => RequestHeaders::FormData,
            RequestHeaders::FormData => RequestHeaders::Xwwwformundeclored,
            RequestHeaders::Xwwwformundeclored => RequestHeaders::Raw,
            RequestHeaders::Raw => RequestHeaders::Binary,
            RequestHeaders::Binary => RequestHeaders::Graphql,
            RequestHeaders::Graphql => RequestHeaders::NoBody,
        }
    }

    /// The tab before this one, wrapping around.
    pub fn prev_tab(&self) -> (r: RequestHeaders)
        ensures
            r == prev_tab_spec(*self),
    {
        match self {
            RequestHeaders::NoBody => RequestHeaders::Graphql,
            RequestHeaders::FormData => RequestHeaders::NoBody,
            RequestHeaders::Xwwwformundeclored => RequestHeaders::FormData,
            RequestHeaders::Raw => RequestHeaders::Xwwwformundeclored,
            RequestHeaders::Binary => RequestHeaders::Raw,
            RequestHeaders::Graphql => RequestHeaders::Binary,
        }
    }
}

} // verus!
