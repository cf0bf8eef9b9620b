//! Building history records: the texts that describe one dispatched
//! request. Storing and reloading them is the persistence
//! collaborator's job; the serialization into text is computed — and
//! specified — here.

use vstd::prelude::*;
use crate::body::{BodyContentStore, StoreModel};
use crate::headers::{HeaderList, HeaderModel};
use crate::tabs::RequestHeaders;

verus! {

/// One recorded dispatch attempt, all fields already text.
pub struct HistoryRecord {
    pub date: String,
    pub action: String,
    pub url: String,
    pub body_content: String,
    pub headers: String,
}

/// The mathematical content of a history record.
pub ghost struct RecordModel {
    pub date: Seq<char>,
    pub action: Seq<char>,
    pub url: Seq<char>,
    pub body_content: Seq<char>,
    pub headers: Seq<char>,
}

impl View for HistoryRecord {
    type V = RecordModel;

    open spec fn view(&self) -> RecordModel {
        RecordModel {
            date: self.date@,
            action: self.action@,
            url: self.url@,
            body_content: self.body_content@,
            headers: self.headers@,
        }
    }
}

/// One name-value pair as text: `name: value`.
pub open spec fn pair_text(k: Seq<char>, v: Seq<char>) -> Seq<char> {
    k + ": "@ + v
}

/// A list of name-value pairs as text, separated by `, `.
pub open spec fn pairs_text(ps: Seq<(Seq<char>, Seq<char>)>) -> Seq<char>
    decreases ps.len(),
{
    if ps.len() == 0 {
        Seq::empty()
    } else if ps.len() == 1 {
        pair_text(ps[0].0, ps[0].1)
    } else {
        pairs_text(ps.drop_last()) + ", "@ + pair_text(ps.last().0, ps.last().1)
    }
}

/// The texts of a vector of string pairs.
pub open spec fn pairs_view(ps: Seq<(String, String)>) -> Seq<(Seq<char>, Seq<char>)> {
    ps.map_values(|p: (String, String)| (p.0@, p.1@))
}

/// Joins name-value pairs into one text, `name: value` separated by
/// `, `.
pub fn join_pairs(pairs: &Vec<(String, String)>) -> (r: String)
    ensures
        r@ == pairs_text(pairs_view(pairs@)),
{
    let ghost pv = pairs_view(pairs@);
    let mut out = String::new();
    let mut i: usize = 0;
    while i < pairs.len()
        invariant
            i <= pairs.len(),
            pv == pairs_view(pairs@),
            pv.len() == pairs@.len(),
            out@ == pairs_text(pv.take(i as int)),
        decreases pairs.len() - i,
    {
        if i > 0 {
            out.append(", ");
        }
        out.append(pairs[i].0.as_str());
        out.append(": ");
        out.append(pairs[i].1.as_str());
        proof {
            assert(pv.take(i + 1).drop_last() =~= pv.take(i as int));
            assert(pv.take(i + 1).last() == pv[i as int]);
            assert(out@ =~= pairs_text(pv.take(i + 1)));
        }
        i = i + 1;
    }
    proof {
        assert(pv.take(pairs@.len() as int) =~= pv);
    }
    out
}

/// A header entry's contribution to the record: its name and value.
pub open spec fn header_pair(h: HeaderModel) -> (Seq<char>, Seq<char>) {
    (h.key, h.value)
}

/// The name-value pairs of a header list.
pub open spec fn header_pairs(hs: Seq<HeaderModel>) -> Seq<(Seq<char>, Seq<char>)> {
    hs.map_values(|h: HeaderModel| header_pair(h))
}

/// The header list as record text: every entry's name and value, in
/// order.
pub open spec fn headers_text(hs: Seq<HeaderModel>) -> Seq<char> {
    pairs_text(header_pairs(hs))
}

/// Serializes the header list for a history record.
pub fn serialize_headers(list: &HeaderList) -> (r: String)
    ensures
        r@ == headers_text(list@.entries),
{
    let mut pairs: Vec<(String, String)> = Vec::new();
    let mut i: usize = 0;
    let len = list.len();
    while i < len
        invariant
            i <= len,
            len == list@.entries.len(),
            pairs@.len() == i,
            pairs_view(pairs@) =~= header_pairs(list@.entries.take(i as int)),
        decreases len - i,
    {
        let ghost before = pairs@;
        let h = list.get(i);
        pairs.push((h.key.clone(), h.value.clone()));
        proof {
            assert(pairs@ == before.push((h.key, h.value)));
            assert forall|j: int| 0 <= j < i + 1 implies pairs_view(pairs@)[j] == header_pairs(
                list@.entries.take(i as int + 1),
            )[j] by {
                if j < i {
                    assert(pairs_view(before)[j] == header_pairs(
                        list@.entries.take(i as int),
                    )[j]);
                }
            }
            assert(pairs_view(pairs@) =~= header_pairs(list@.entries.take(i as int + 1)));
        }
        i = i + 1;
    }
    proof {
        assert(list@.entries.take(list@.entries.len() as int) =~= list@.entries);
    }
    join_pairs(&pairs)
}

/// Appends a pair for a tab's slot, if the slot holds committed text.
pub open spec fn with_slot(
    ps: Seq<(Seq<char>, Seq<char>)>,
    name: Seq<char>,
    slot: Option<Seq<char>>,
) -> Seq<(Seq<char>, Seq<char>)> {
    match slot {
        Some(t) => ps.push((name, t)),
        None => ps,
    }
}

/// The pairs of a body store: one per tab that holds committed text,
/// in display order, named as the tab is shown.
pub open spec fn body_pairs_spec(s: StoreModel) -> Seq<(Seq<char>, Seq<char>)> {
    with_slot(
        with_slot(
            with_slot(
                with_slot(
                    with_slot(Seq::empty(), "form-data"@, s.form_data),
                    "x-www-form-urlencoded"@,
                    s.url_encoded,
                ),
                "raw"@,
                s.raw,
            ),
            "binary"@,
            s.binary,
        ),
        "GraphQL"@,
        s.graphql,
    )
}

/// The body store as record text.
pub open spec fn body_text(s: StoreModel) -> Seq<char> {
    pairs_text(body_pairs_spec(s))
}

/// Serializes the body store for a history record.
pub fn serialize_body(store: &BodyContentStore) -> (r: String)
    ensures
        r@ == body_text(store@),
{
    let mut pairs: Vec<(String, String)> = Vec::new();
    let tabs = [
        RequestHeaders::FormData,
        RequestHeaders::Xwwwformundeclored,
        RequestHeaders::Raw,
        RequestHeaders::Binary,
        RequestHeaders::Graphql,
    ];
    let mut k: usize = 0;
    while k < 5
        invariant
            k <= 5,
            tabs@.len() == 5,
            tabs@[0] == RequestHeaders::FormData,
            tabs@[1] == RequestHeaders::Xwwwformundeclored,
            tabs@[2] == RequestHeaders::Raw,
            tabs@[3] == RequestHeaders::Binary,
            tabs@[4] == RequestHeaders::Graphql,
            k == 0 ==> pairs_view(pairs@) =~= Seq::<(Seq<char>, Seq<char>)>::empty(),
            k == 1 ==> pairs_view(pairs@) =~= with_slot(
                Seq::empty(),
                "form-data"@,
                store@.form_data,
            ),
            k == 2 ==> pairs_view(pairs@) =~= with_slot(
                with_slot(Seq::empty(), "form-data"@, store@.form_data),
                "x-www-form-urlencoded"@,
                store@.url_encoded,
            ),
            k == 3 ==> pairs_view(pairs@) =~= with_slot(
                with_slot(
                    with_slot(Seq::empty(), "form-data"@, store@.form_data),
                    "x-www-form-urlencoded"@,
                    store@.url_encoded,
                ),
                "raw"@,
                store@.raw,
            ),
            k == 4 ==> pairs_view(pairs@) =~= with_slot(
                with_slot(
                    with_slot(
                        with_slot(Seq::empty(), "form-data"@, store@.form_data),
                        "x-www-form-urlencoded"@,
                        store@.url_encoded,
                    ),
                    "raw"@,
                    store@.raw,
                ),
                "binary"@,
                store@.binary,
            ),
            k == 5 ==> pairs_view(pairs@) =~= body_pairs_spec(store@),
        decreases 5 - k,
    {
        let tab = tabs[k];
        if store.has_content(tab) {
            let name = tab.to_string();
            pairs.push((name.to_owned(), store.load(tab)));
        }
        k = k + 1;
    }
    join_pairs(&pairs)
}

/// One record as a display line: the five fields separated by ` - `,
/// ended by a newline.
pub open spec fn line_of(r: RecordModel) -> Seq<char> {
    r.date + " - "@ + r.action + " - "@ + r.url + " - "@ + r.body_content + " - "@ + r.headers
        + "\n"@
}

/// Formats one record as its display line.
pub fn record_line(r: &HistoryRecord) -> (out: String)
    ensures
        out@ == line_of(r@),
{
    let mut out = r.date.clone();
    out.append(" - ");
    out.append(r.action.as_str());
    out.append(" - ");
    out.append(r.url.as_str());
    out.append(" - ");
    out.append(r.body_content.as_str());
    out.append(" - ");
    out.append(r.headers.as_str());
    out.append("\n");
    proof {
        assert(out@ =~= line_of(r@));
    }
    out
}

/// The display text of a whole history, newest record first.
pub open spec fn history_text_spec(rs: Seq<RecordModel>) -> Seq<char>
    decreases rs.len(),
{
    if rs.len() == 0 {
        Seq::empty()
    } else {
        line_of(rs.last()) + history_text_spec(rs.drop_last())
    }
}

/// Prepending an older record appends its line at the end of the
/// text, since the text runs newest first.
proof fn lemma_history_text_cons(x: RecordModel, rs: Seq<RecordModel>)
    ensures
        history_text_spec(seq![x] + rs) == history_text_spec(rs) + line_of(x),
    decreases rs.len(),
{
    if rs.len() == 0 {
        assert(seq![x] + rs =~= seq![x]);
        assert((seq![x]).drop_last() =~= Seq::<RecordModel>::empty());
        assert(history_text_spec(seq![x]) == line_of(x) + history_text_spec(
            Seq::<RecordModel>::empty(),
        ));
        assert(history_text_spec(rs) + line_of(x) =~= line_of(x));
    } else {
        lemma_history_text_cons(x, rs.drop_last());
        assert((seq![x] + rs).drop_last() =~= seq![x] + rs.drop_last());
        assert((seq![x] + rs).last() == rs.last());
        assert(history_text_spec(rs) + line_of(x) =~= line_of(rs.last()) + (history_text_spec(
            rs.drop_last(),
        ) + line_of(x)));
    }
}

/// Formats the whole history as display text, newest record first.
pub fn history_text(records: &Vec<HistoryRecord>) -> (r: String)
    ensures
        r@ == history_text_spec(records@.map_values(|x: HistoryRecord| x@)),
{
    let ghost rv = records@.map_values(|x: HistoryRecord| x@);
    let mut out = String::new();
    let mut i: usize = records.len();
    proof {
        assert(rv.skip(rv.len() as int) =~= Seq::<RecordModel>::empty());
    }
    while i > 0
        invariant
            i <= records.len(),
            rv == records@.map_values(|x: HistoryRecord| x@),
            rv.len() == records@.len(),
            out@ == history_text_spec(rv.skip(i as int)),
        decreases i,
    {
        i = i - 1;
        let line = record_line(&records[i]);
        out.append(line.as_str());
        proof {
            assert(rv.skip(i as int) =~= seq![rv[i as int]] + rv.skip(i + 1));
            lemma_history_text_cons(rv[i as int], rv.skip(i + 1));
        }
    }
    proof {
        assert(rv.skip(0) =~= rv);
    }
    out
}

} // verus!
