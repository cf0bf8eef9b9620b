//! Per-tab storage for request-body text.
//!
//! Each editable tab owns at most one committed text; the `NoBody` tab
//! can never hold content. Entries appear on first commit, are
//! overwritten by later commits, and are never removed, so committed
//! text survives any amount of tab switching.

use vstd::prelude::*;
use crate::tabs::RequestHeaders;

verus! {

/// What each tab currently stores, if anything.
pub ghost struct StoreModel {
    pub form_data: Option<Seq<char>>,
    pub url_encoded: Option<Seq<char>>,
    pub raw: Option<Seq<char>>,
    pub binary: Option<Seq<char>>,
    pub graphql: Option<Seq<char>>,
}

impl StoreModel {
    /// The text stored for `tab`, or None if nothing was ever
    /// committed there. The `NoBody` tab never stores anything.
    pub open spec fn stored(self, tab: RequestHeaders) -> Option<Seq<char>> {
        match tab {
            RequestHeaders::NoBody => None,
            RequestHeaders::FormData => self.form_data,
            RequestHeaders::Xwwwformundeclored => self.url_encoded,
            RequestHeaders::Raw => self.raw,
            RequestHeaders::Binary => self.binary,
            RequestHeaders::Graphql => self.graphql,
        }
    }

    /// What a load returns: the stored text, or an empty buffer.
    pub open spec fn loaded(self, tab: RequestHeaders) -> Seq<char> {
        match self.stored(tab) {
            Some(t) => t,
            None => Seq::empty(),
        }
    }

    /// The store after committing `text` for `tab`. A commit for
    /// `NoBody` changes nothing.
    pub open spec fn committed(self, tab: RequestHeaders, text: Seq<char>) -> StoreModel {
        match tab {
            RequestHeaders::NoBody => self,
            RequestHeaders::FormData => StoreModel { form_data: Some(text), ..self },
            RequestHeaders::Xwwwformundeclored => StoreModel { url_encoded: Some(text), ..self },
            RequestHeaders::Raw => StoreModel { raw: Some(text), ..self },
            RequestHeaders::Binary => StoreModel { binary: Some(text), ..self },
            RequestHeaders::Graphql => StoreModel { graphql: Some(text), ..self },
        }
    }
}

/// Committed text round-trips: after committing `text` for an
/// editable `tab`, loading that tab returns exactly `text`, and a
/// commit for any other tab leaves it untouched. Loads never change
/// the store at all, so the text survives any sequence of tab
/// switches.
pub proof fn lemma_commit_round_trip(
    m: StoreModel,
    tab: RequestHeaders,
    text: Seq<char>,
    other: RequestHeaders,
)
    requires
        tab != RequestHeaders::NoBody,
    ensures
        m.committed(tab, text).loaded(tab) == text,
        other != tab ==> m.committed(other, text).stored(tab) == m.stored(tab),
{
}

/// The mapping from body tab to its stored text, populated lazily.
pub struct BodyContentStore {
    form_data: Option<String>,
    url_encoded: Option<String>,
    raw: Option<String>,
    binary: Option<String>,
    graphql: Option<String>,
}

impl View for BodyContentStore {
    type V = StoreModel;

    closed spec fn view(&self) -> StoreModel {
        StoreModel {
            form_data: match self.form_data {
                Some(ref s) => Some(s@),
                None => None,
            },
            url_encoded: match self.url_encoded {
                Some(ref s) => Some(s@),
                None => None,
            },
            raw: match self.raw {
                Some(ref s) => Some(s@),
                None => None,
            },
            binary: match self.binary {
                Some(ref s) => Some(s@),
                None => None,
            },
            graphql: match self.graphql {
                Some(ref s) => Some(s@),
                None => None,
            },
        }
    }
}

impl BodyContentStore {
    /// A store with no content for any tab.
    pub fn new() -> (r: BodyContentStore)
        ensures
            forall|tab: RequestHeaders| r@.stored(tab) is None,
    {
        BodyContentStore {
            form_data: None,
            url_encoded: None,
            raw: None,
            binary: None,
            graphql: None,
        }
    }

    /// The stored text for `tab`, or an empty buffer if nothing was
    /// committed there. Never fails.
    pub fn load(&self, tab: RequestHeaders) -> (r: String)
        ensures
            r@ == self@.loaded(tab),
    {
        let slot: &Option<String> = match tab {
            RequestHeaders::NoBody => &None,
            RequestHeaders::FormData => &self.form_data,
            RequestHeaders::Xwwwformundeclored => &self.url_encoded,
            RequestHeaders::Raw => &self.raw,
            RequestHeaders::Binary => &self.binary,
            RequestHeaders::Graphql => &self.graphql,
        };
        match slot {
            Some(s) => s.clone(),
            None => String::new(),
        }
    }

    /// Whether `tab` holds committed text, even empty text. The
    /// `NoBody` tab never does.
    pub fn has_content(&self, tab: RequestHeaders) -> (r: bool)
        ensures
            r == (self@.stored(tab) is Some),
    {
        let slot: &Option<String> = match tab {
            RequestHeaders::NoBody => &None,
            RequestHeaders::FormData => &self.form_data,
            RequestHeaders::Xwwwformundeclored => &self.url_encoded,
            RequestHeaders::Raw => &self.raw,
            RequestHeaders::Binary => &self.binary,
            RequestHeaders::Graphql => &self.graphql,
        };
        slot.is_some()
    }

    /// Inserts or overwrites the text for `tab`. A commit for the
    /// `NoBody` tab is a no-op.
    pub fn commit(&mut self, tab: RequestHeaders, text: String)
        ensures
            final(self)@ == old(self)@.committed(tab, text@),
    {
        match tab {
            RequestHeaders::NoBody => {},
            RequestHeaders::FormData => self.form_data = Some(text),
            RequestHeaders::Xwwwformundeclored => self.url_encoded = Some(text),
            RequestHeaders::Raw => self.raw = Some(text),
            RequestHeaders::Binary => self.binary = Some(text),
            RequestHeaders::Graphql => self.graphql = Some(text),
        }
    }
}

} // verus!
