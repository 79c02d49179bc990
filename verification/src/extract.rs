//! The record extractor: a three-slot accumulator that is walked over the
//! lines of one file and hands out a record whenever the three slots are
//! filled.

use crate::pattern::{line_kind, LineKind, LineKindView, Patterns};
use vstd::prelude::*;
use vstd::string::StringExecFns;

verus! {

/// One extracted triple.
#[derive(Debug, PartialEq, Eq)]
pub struct Record {
    pub url: String,
    pub login: String,
    pub password: String,
}

/// The mathematical counterpart of [`Record`].
pub ghost struct RecordView {
    pub url: Seq<char>,
    pub login: Seq<char>,
    pub password: Seq<char>,
}

impl RecordView {
    /// No field of the record is empty.
    pub open spec fn complete(self) -> bool {
        self.url.len() > 0 && self.login.len() > 0 && self.password.len() > 0
    }

    /// The line that stands for the record in the output: `url:login:password`.
    pub open spec fn rendered(self) -> Seq<char> {
        self.url + seq![':'] + self.login + seq![':'] + self.password
    }
}

impl View for Record {
    type V = RecordView;

    open spec fn view(&self) -> RecordView {
        RecordView { url: self.url@, login: self.login@, password: self.password@ }
    }
}

impl Record {
    /// The record as one line of output, without the newline.
    pub fn render(&self) -> (line: String)
        ensures
            line@ == self@.rendered(),
    {
        proof {
            reveal_strlit(":");
        }
        let mut line = self.url.clone();
        line.append(":");
        line.append(self.login.as_str());
        line.append(":");
        line.append(self.password.as_str());
        line
    }
}

/// The accumulator. A slot that holds the empty string is unfilled.
#[derive(Debug, PartialEq, Eq)]
pub struct ExtractionState {
    url: String,
    login: String,
    password: String,
    skip: bool,
}

/// The mathematical counterpart of [`ExtractionState`].
pub ghost struct StateView {
    pub url: Seq<char>,
    pub login: Seq<char>,
    pub password: Seq<char>,
    pub skip: bool,
}

impl View for ExtractionState {
    type V = StateView;

    closed spec fn view(&self) -> StateView {
        StateView { url: self.url@, login: self.login@, password: self.password@, skip: self.skip }
    }
}

/// The accumulator with nothing in it.
pub open spec fn initial() -> StateView {
    StateView { url: Seq::empty(), login: Seq::empty(), password: Seq::empty(), skip: false }
}

/// What a line does to the slots, before anything is handed out.
///
/// A URL starts a new record: it takes the URL slot and clears the rest. A
/// credential goes to the login slot if that is unfilled, else to the password
/// slot if that is unfilled, else nowhere. A blank line that comes while a
/// credential slot is unfilled marks the record as one to pass over. Any other
/// line changes nothing.
pub open spec fn absorb(s: StateView, kind: LineKindView) -> StateView {
    match kind {
        LineKindView::Url(url) => StateView {
            url,
            login: Seq::empty(),
            password: Seq::empty(),
            skip: false,
        },
        LineKindView::Credential(text) => if s.login.len() == 0 {
            StateView { login: text, ..s }
        } else if s.password.len() == 0 {
            StateView { password: text, ..s }
        } else {
            s
        },
        LineKindView::Blank => if s.login.len() == 0 || s.password.len() == 0 {
            StateView { skip: true, ..s }
        } else {
            s
        },
        LineKindView::Other => s,
    }
}

/// The three slots are filled and the record is not one to pass over.
pub open spec fn ready(s: StateView) -> bool {
    s.url.len() > 0 && s.login.len() > 0 && s.password.len() > 0 && !s.skip
}

/// The accumulator after a line: emptied where the line completed a record.
pub open spec fn next_state(s: StateView, kind: LineKindView) -> StateView {
    let filled = absorb(s, kind);
    if ready(filled) {
        initial()
    } else {
        filled
    }
}

/// The record that a line completes, if it completes one.
pub open spec fn emitted(s: StateView, kind: LineKindView) -> Option<RecordView> {
    let filled = absorb(s, kind);
    if ready(filled) {
        Some(RecordView { url: filled.url, login: filled.login, password: filled.password })
    } else {
        None
    }
}

/// The view of a record that may be missing.
pub open spec fn record_of(out: Option<Record>) -> Option<RecordView> {
    match out {
        Some(r) => Some(r@),
        None => None,
    }
}

impl ExtractionState {
    /// The accumulator with nothing in it.
    pub fn new() -> (state: ExtractionState)
        ensures
            state@ == initial(),
    {
        ExtractionState {
            url: String::new(),
            login: String::new(),
            password: String::new(),
            skip: false,
        }
    }

    /// The URL slot; empty while unfilled.
    pub fn url(&self) -> (text: &str)
        ensures
            text@ == self@.url,
    {
        self.url.as_str()
    }

    /// The login slot; empty while unfilled.
    pub fn login(&self) -> (text: &str)
        ensures
            text@ == self@.login,
    {
        self.login.as_str()
    }

    /// The password slot; empty while unfilled.
    pub fn password(&self) -> (text: &str)
        ensures
            text@ == self@.password,
    {
        self.password.as_str()
    }

    /// Whether the record in progress is one to pass over.
    pub fn skip(&self) -> (skip: bool)
        ensures
            skip == self@.skip,
    {
        self.skip
    }

    /// Takes one line in, and hands out the record that the line completed, if
    /// it completed one.
    pub fn step(&mut self, kind: LineKind) -> (out: Option<Record>)
        ensures
            final(self)@ == next_state(old(self)@, kind@),
            record_of(out) == emitted(old(self)@, kind@),
            out matches Some(r) ==> r@.complete(),
    {
        match kind {
            LineKind::Url(url) => {
                self.url = url;
                self.login = String::new();
                self.password = String::new();
                self.skip = false;
            },
            LineKind::Credential(text) => {
                if self.login.as_str().is_empty() {
                    self.login = text;
                } else if self.password.as_str().is_empty() {
                    self.password = text;
                }
            },
            LineKind::Blank => {
                if self.login.as_str().is_empty() || self.password.as_str().is_empty() {
                    self.skip = true;
                }
            },
            LineKind::Other => {},
        }
        if !self.url.as_str().is_empty() && !self.login.as_str().is_empty()
            && !self.password.as_str().is_empty() && !self.skip {
            let mut url = String::new();
            let mut login = String::new();
            let mut password = String::new();
            std::mem::swap(&mut self.url, &mut url);
            std::mem::swap(&mut self.login, &mut login);
            std::mem::swap(&mut self.password, &mut password);
            Some(Record { url, login, password })
        } else {
            None
        }
    }
}

/// The accumulator after the lines of a file, walked from the first.
pub open spec fn state_after(lines: Seq<Seq<char>>) -> StateView
    decreases lines.len(),
{
    if lines.len() == 0 {
        initial()
    } else {
        next_state(state_after(lines.drop_last()), line_kind(lines.last()))
    }
}

/// The records that the lines of a file give, in the order in which they are
/// completed.
pub open spec fn records_of(lines: Seq<Seq<char>>) -> Seq<RecordView>
    decreases lines.len(),
{
    if lines.len() == 0 {
        Seq::empty()
    } else {
        let before = records_of(lines.drop_last());
        match emitted(state_after(lines.drop_last()), line_kind(lines.last())) {
            Some(r) => before.push(r),
            None => before,
        }
    }
}

/// The views of a sequence of records.
pub open spec fn record_views(records: Seq<Record>) -> Seq<RecordView> {
    records.map_values(|r: Record| r@)
}

/// The output lines of a sequence of records.
pub open spec fn rendered_all(records: Seq<RecordView>) -> Seq<Seq<char>> {
    records.map_values(|r: RecordView| r.rendered())
}

/// No record that comes out of a file has an empty field, whatever the file
/// holds.
pub proof fn lemma_records_are_complete(lines: Seq<Seq<char>>)
    ensures
        forall|i: int| 0 <= i < records_of(lines).len() ==> (#[trigger] records_of(lines)[i]).complete(),
    decreases lines.len(),
{
    if lines.len() > 0 {
        lemma_records_are_complete(lines.drop_last());
        let before = records_of(lines.drop_last());
        assert forall|i: int| 0 <= i < records_of(lines).len() implies (#[trigger] records_of(
            lines,
        )[i]).complete() by {
            if i < before.len() {
                assert(records_of(lines)[i] == before[i]);
            }
        }
    }
}

/// Walks the accumulator over `lines` and returns the records that they give.
///
/// The result is a function of the lines alone: a second run over the same
/// lines returns the same records in the same order.
pub fn extract_records(patterns: &Patterns, lines: &Vec<String>) -> (records: Vec<Record>)
    ensures
        record_views(records@) == records_of(lines.deep_view()),
        forall|i: int| 0 <= i < records.len() ==> (#[trigger] records[i])@.complete(),
{
    let mut state = ExtractionState::new();
    let mut records: Vec<Record> = Vec::new();
    let mut i: usize = 0;
    while i < lines.len()
        invariant
            i <= lines.len(),
            state@ == state_after(lines.deep_view().take(i as int)),
            record_views(records@) == records_of(lines.deep_view().take(i as int)),
            forall|k: int| 0 <= k < records.len() ==> (#[trigger] records[k])@.complete(),
        decreases lines.len() - i,
    {
        let kind = patterns.classify(lines[i].as_str());
        let out = state.step(kind);
        proof {
            let upto = lines.deep_view().take(i as int + 1);
            assert(upto.drop_last() == lines.deep_view().take(i as int));
        }
        if let Some(r) = out {
            records.push(r);
        }
        i += 1;
    }
    assert(lines.deep_view().take(lines.len() as int) == lines.deep_view());
    records
}

/// The output lines that the lines of one file give: each record of
/// [`extract_records`], rendered as `url:login:password`.
pub fn extract_account_info(patterns: &Patterns, lines: &Vec<String>) -> (out: Vec<String>)
    ensures
        out.deep_view() == rendered_all(records_of(lines.deep_view())),
{
    let records = extract_records(patterns, lines);
    let mut out: Vec<String> = Vec::new();
    let mut i: usize = 0;
    while i < records.len()
        invariant
            i <= records.len(),
            out.deep_view() == rendered_all(record_views(records@).take(i as int)),
        decreases records.len() - i,
    {
        let line = records[i].render();
        out.push(line);
        assert(rendered_all(record_views(records@).take(i as int + 1)) == rendered_all(
            record_views(records@).take(i as int),
        ).push(records[i as int]@.rendered()));
        i += 1;
    }
    out
}

} // verus!
