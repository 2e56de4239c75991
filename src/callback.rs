//! The loopback callback listener: it services exactly one redirect,
//! checks it against the attempt's `state`, and hands back one outcome.

use vstd::prelude::*;
use vstd::utf8::encode_utf8;
use crate::form::{find_param, lookup, pairs_view, parse_query, query_pairs, PairView};

verus! {

/// A pre-rendered HTTP response shown to the user's browser.
pub struct Page {
    pub status: u16,
    pub headers: Vec<(String, String)>,
    pub body: Vec<u8>,
}

/// A page as plain values.
pub struct PageView {
    pub status: u16,
    pub headers: Seq<PairView>,
    pub body: Seq<u8>,
}

impl View for Page {
    type V = PageView;

    open spec fn view(&self) -> PageView {
        PageView { status: self.status, headers: pairs_view(self.headers@), body: self.body@ }
    }
}

/// A `200 OK` page whose body is the given text and which has no headers.
pub open spec fn text_page(text: Seq<char>) -> PageView {
    PageView { status: 200, headers: Seq::empty(), body: encode_utf8(text) }
}

impl Page {
    /// A `200 OK` page with a plain text body.
    pub fn text(body: &str) -> (r: Page)
        ensures
            r@ == text_page(body@),
    {
        let r = Page { status: 200, headers: Vec::new(), body: body.as_bytes_vec() };
        assert(r@.headers =~= Seq::<PairView>::empty());
        r
    }

    /// An equal copy of this page; the template itself stays in place.
    pub fn duplicate(&self) -> (r: Page)
        ensures
            r@ == self@,
    {
        let mut headers: Vec<(String, String)> = Vec::new();
        let mut i: usize = 0;
        while i < self.headers.len()
            invariant
                i <= self.headers@.len(),
                headers@.len() == i,
                forall|k: int|
                    0 <= k < i ==> #[trigger] headers@[k].0@ == self.headers@[k].0@
                        && headers@[k].1@ == self.headers@[k].1@,
            decreases self.headers@.len() - i,
        {
            let name = self.headers[i].0.clone();
            let value = self.headers[i].1.clone();
            headers.push((name, value));
            i = i + 1;
        }
        let mut body: Vec<u8> = Vec::new();
        let mut j: usize = 0;
        while j < self.body.len()
            invariant
                j <= self.body@.len(),
                body@ =~= self.body@.take(j as int),
            decreases self.body@.len() - j,
        {
            body.push(self.body[j]);
            j = j + 1;
        }
        assert(pairs_view(headers@) =~= pairs_view(self.headers@));
        assert(self.body@.take(j as int) =~= self.body@);
        Page { status: self.status, headers, body }
    }
}

/// Why a callback was refused.
pub enum RejectReason {
    /// The redirect carried an `error` parameter with this value.
    RemoteError(String),
    /// The redirect carried no `state` parameter.
    MissingState,
    /// The redirect's `state` differs from the one this attempt generated.
    StateMismatch,
    /// The `state` matched but no `code` came with it.
    MissingCode,
}

/// What the single serviced redirect yields.
pub enum CallbackOutcome {
    /// The authorization code.
    Succeeded(String),
    Rejected(RejectReason),
}

/// A callback outcome as plain values.
pub enum Verdict {
    Accepted(Seq<char>),
    RemoteError(Seq<char>),
    MissingState,
    StateMismatch,
    MissingCode,
}

impl View for CallbackOutcome {
    type V = Verdict;

    open spec fn view(&self) -> Verdict {
        match self {
            CallbackOutcome::Succeeded(code) => Verdict::Accepted(code@),
            CallbackOutcome::Rejected(RejectReason::RemoteError(e)) => Verdict::RemoteError(e@),
            CallbackOutcome::Rejected(RejectReason::MissingState) => Verdict::MissingState,
            CallbackOutcome::Rejected(RejectReason::StateMismatch) => Verdict::StateMismatch,
            CallbackOutcome::Rejected(RejectReason::MissingCode) => Verdict::MissingCode,
        }
    }
}

/// The outcome of a redirect with query parameters `ps` for an attempt that
/// generated `state`: an `error` parameter decides first, whatever else is
/// there; then a missing or different `state`; then the `code`.
pub open spec fn verdict(ps: Seq<PairView>, state: Seq<char>) -> Verdict {
    match lookup(ps, "error"@) {
        Some(e) => Verdict::RemoteError(e),
        None => match lookup(ps, "state"@) {
            None => Verdict::MissingState,
            Some(s) => if s != state {
                Verdict::StateMismatch
            } else {
                match lookup(ps, "code"@) {
                    Some(c) => Verdict::Accepted(c),
                    None => Verdict::MissingCode,
                }
            },
        },
    }
}

/// The single-use listener's decisions. It starts listening and stops after
/// the first redirect it services, whatever that redirect held.
pub struct CallbackServer {
    state: String,
    success_page: Option<Page>,
    error_page: Option<Page>,
    listening: bool,
}

impl CallbackServer {
    pub closed spec fn expected_state(&self) -> Seq<char> {
        self.state@
    }

    pub closed spec fn success_view(&self) -> Option<PageView> {
        match self.success_page {
            Some(p) => Some(p@),
            None => None,
        }
    }

    pub closed spec fn error_view(&self) -> Option<PageView> {
        match self.error_page {
            Some(p) => Some(p@),
            None => None,
        }
    }

    pub closed spec fn is_open(&self) -> bool {
        self.listening
    }

    /// The page written back to the browser for a given outcome: the
    /// configured success or error page, or a short default text.
    pub open spec fn reply(&self, v: Verdict) -> PageView {
        match v {
            Verdict::Accepted(_) => match self.success_view() {
                Some(p) => p,
                None => text_page("Authorization successful!"@),
            },
            Verdict::MissingState => text_page("Authorization failed"@),
            _ => match self.error_view() {
                Some(p) => p,
                None => text_page("Authorization failed"@),
            },
        }
    }

    /// A listener waiting for the redirect of the attempt that generated
    /// `state`.
    pub fn new(state: String, success_page: Option<Page>, error_page: Option<Page>) -> (r:
        CallbackServer)
        ensures
            r.expected_state() == state@,
            r.success_view() == (match success_page {
                Some(p) => Some(p@),
                None => None::<PageView>,
            }),
            r.error_view() == (match error_page {
                Some(p) => Some(p@),
                None => None::<PageView>,
            }),
            r.is_open(),
    {
        CallbackServer { state, success_page, error_page, listening: true }
    }

    /// Whether the listener still accepts its one redirect.
    pub fn is_listening(&self) -> (r: bool)
        ensures
            r == self.is_open(),
    {
        self.listening
    }

    /// The outcome and the reply page for a redirect whose decoded query
    /// parameters are `pairs`.
    pub fn decide(&self, pairs: &Vec<(String, String)>) -> (r: (Page, CallbackOutcome))
        ensures
            r.1@ == verdict(pairs_view(pairs@), self.expected_state()),
            r.0@ == self.reply(r.1@),
    {
        let ghost ps = pairs_view(pairs@);
        let outcome = match find_param(pairs, "error") {
            Some(e) => CallbackOutcome::Rejected(RejectReason::RemoteError(e)),
            None => match find_param(pairs, "state") {
                None => CallbackOutcome::Rejected(RejectReason::MissingState),
                Some(s) => if s != self.state {
                    CallbackOutcome::Rejected(RejectReason::StateMismatch)
                } else {
                    match find_param(pairs, "code") {
                        Some(c) => CallbackOutcome::Succeeded(c),
                        None => CallbackOutcome::Rejected(RejectReason::MissingCode),
                    }
                },
            },
        };
        let page = match &outcome {
            CallbackOutcome::Succeeded(_) => match &self.success_page {
                Some(p) => p.duplicate(),
                None => Page::text("Authorization successful!"),
            },
            CallbackOutcome::Rejected(RejectReason::MissingState) => Page::text(
                "Authorization failed",
            ),
            CallbackOutcome::Rejected(_) => match &self.error_page {
                Some(p) => p.duplicate(),
                None => Page::text("Authorization failed"),
            },
        };
        (page, outcome)
    }

    /// Services one redirect with the given raw query string. The first call
    /// yields the reply page and the outcome and stops the listener; any
    /// later call yields nothing and changes nothing.
    pub fn handle(&mut self, query: &str) -> (r: Option<(Page, CallbackOutcome)>)
        ensures
            old(self).is_open() ==> {
                &&& r is Some
                &&& r.unwrap().1@ == verdict(query_pairs(query@), old(self).expected_state())
                &&& r.unwrap().0@ == old(self).reply(r.unwrap().1@)
                &&& !final(self).is_open()
                &&& final(self).expected_state() == old(self).expected_state()
                &&& final(self).success_view() == old(self).success_view()
                &&& final(self).error_view() == old(self).error_view()
            },
            !old(self).is_open() ==> r is None && *final(self) == *old(self),
    {
        if !self.listening {
            return None;
        }
        self.listening = false;
        let pairs = parse_query(query);
        Some(self.decide(&pairs))
    }
}

} // verus!
