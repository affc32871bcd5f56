//! The forward-only cursor over the remote log store.
//!
//! The cursor owns the query session: log group, resolved stream, current
//! filter text, pagination token and the message trim policy. It never
//! performs I/O itself; each remote operation is split into a function that
//! builds the request description and one that absorbs the store's reply,
//! both verified. The shell around the library sends the requests and hands
//! the replies back as plain values.

use vstd::prelude::*;

use crate::text::trim_message;
use crate::text::trimmed;

verus! {

/// One log line as the store returns it: a timestamp in integer
/// milliseconds and a message.
pub struct LogEntry {
    pub timestamp: i64,
    pub message: String,
}

/// The mathematical content of a `LogEntry`.
pub struct EntryModel {
    pub timestamp: int,
    pub message: Seq<char>,
}

impl View for LogEntry {
    type V = EntryModel;

    open spec fn view(&self) -> EntryModel {
        EntryModel { timestamp: self.timestamp as int, message: self.message@ }
    }
}

impl DeepView for LogEntry {
    type V = EntryModel;

    open spec fn deep_view(&self) -> EntryModel {
        self.view()
    }
}

/// One event of a store reply, before the cursor has normalized it. The
/// store marks both fields optional; events missing either are dropped.
pub struct RawEvent {
    pub timestamp: Option<i64>,
    pub message: Option<String>,
}

/// The mathematical content of a `RawEvent`.
pub struct RawEventModel {
    pub timestamp: Option<int>,
    pub message: Option<Seq<char>>,
}

impl View for RawEvent {
    type V = RawEventModel;

    open spec fn view(&self) -> RawEventModel {
        RawEventModel {
            timestamp: match self.timestamp {
                Some(t) => Some(t as int),
                None => None,
            },
            message: match self.message {
                Some(m) => Some(m@),
                None => None,
            },
        }
    }
}

impl DeepView for RawEvent {
    type V = RawEventModel;

    open spec fn deep_view(&self) -> RawEventModel {
        self.view()
    }
}

/// How an operation against the store fails: the transport failed (the
/// caller may retry the operation), or no log stream could be resolved
/// (fatal to the session).
pub enum LogError {
    Transport(String),
    NotFound,
}

/// The mathematical content of a `LogError`.
pub enum ErrorModel {
    Transport(Seq<char>),
    NotFound,
}

impl View for LogError {
    type V = ErrorModel;

    open spec fn view(&self) -> ErrorModel {
        match self {
            LogError::Transport(m) => ErrorModel::Transport(m@),
            LogError::NotFound => ErrorModel::NotFound,
        }
    }
}

/// A request for the most recently active stream of the log group:
/// streams ordered by last event time, most recent first, at most `limit`
/// of them.
pub struct StreamRequest {
    pub group: String,
    pub latest_first: bool,
    pub limit: usize,
}

/// A filtered, paginated fetch over one stream: at most `limit` events
/// matching `filter`, starting at the position `token` encodes (from the
/// start when `token` is absent).
pub struct PageRequest {
    pub group: String,
    pub stream: String,
    pub filter: Option<String>,
    pub token: Option<String>,
    pub limit: usize,
}

/// The mathematical content of a `PageRequest`.
pub struct PageRequestModel {
    pub group: Seq<char>,
    pub stream: Seq<char>,
    pub filter: Option<Seq<char>>,
    pub token: Option<Seq<char>>,
    pub limit: int,
}

impl View for PageRequest {
    type V = PageRequestModel;

    open spec fn view(&self) -> PageRequestModel {
        PageRequestModel {
            group: self.group@,
            stream: self.stream@,
            filter: self.filter.deep_view(),
            token: self.token.deep_view(),
            limit: self.limit as int,
        }
    }
}

/// An unfiltered, time-bounded fetch over one stream: at most `limit`
/// events with timestamps in `[start_time, end_time]`. It carries no
/// filter: a context lookup ignores the active filter by design.
pub struct ContextRequest {
    pub group: String,
    pub stream: String,
    pub start_time: i64,
    pub end_time: i64,
    pub limit: usize,
}

/// The mathematical content of a `ContextRequest`.
pub struct ContextRequestModel {
    pub group: Seq<char>,
    pub stream: Seq<char>,
    pub start_time: int,
    pub end_time: int,
    pub limit: int,
}

impl View for ContextRequest {
    type V = ContextRequestModel;

    open spec fn view(&self) -> ContextRequestModel {
        ContextRequestModel {
            group: self.group@,
            stream: self.stream@,
            start_time: self.start_time as int,
            end_time: self.end_time as int,
            limit: self.limit as int,
        }
    }
}

/// The cursor's state: log group, stream (absent until resolved), filter
/// text, pagination token and trim count.
pub struct CursorModel {
    pub group: Seq<char>,
    pub stream: Option<Seq<char>>,
    pub query: Option<Seq<char>>,
    pub token: Option<Seq<char>>,
    pub snip: nat,
}

/// The number of events one page may hold.
pub const PAGE_LIMIT: usize = 1000;

/// The number of events one context window may hold.
pub const CONTEXT_LIMIT: usize = 40;

/// The half-width of a context window, in timestamp units.
pub const CONTEXT_HALF_WIDTH: i64 = 1000;

/// Setting the filter text replaces it and unconditionally drops the
/// pagination token: a token is only meaningful within one filter's result
/// sequence.
pub open spec fn spec_set_query(c: CursorModel, q: Seq<char>) -> CursorModel {
    CursorModel { group: c.group, stream: c.stream, query: Some(q), token: None, snip: c.snip }
}

/// Resolution stores the stream found for the group, once; a cursor that
/// already has one keeps it. An empty reply means the group has no
/// streams, which fails the session.
pub open spec fn spec_resolve_stream(c: CursorModel, found: Option<Seq<char>>) -> CursorModel {
    if c.stream is Some {
        c
    } else {
        match found {
            Some(s) => CursorModel {
                group: c.group,
                stream: Some(s),
                query: c.query,
                token: c.token,
                snip: c.snip,
            },
            None => c,
        }
    }
}

/// The page fetch a cursor issues: its group, stream, filter and token,
/// with the fixed page limit.
pub open spec fn spec_page_request(c: CursorModel) -> PageRequestModel
    recommends
        c.stream is Some,
{
    PageRequestModel {
        group: c.group,
        stream: c.stream->0,
        filter: c.query,
        token: c.token,
        limit: PAGE_LIMIT as int,
    }
}

/// Issuing a page fetch consumes the cursor's token; the reply will supply
/// the next one.
pub open spec fn spec_begin_page(c: CursorModel) -> CursorModel {
    CursorModel { group: c.group, stream: c.stream, query: c.query, token: None, snip: c.snip }
}

/// Absorbing a page reply stores the token the store handed back; an
/// absent token leaves the cursor without one, so the next fetch restarts
/// from the front of the result sequence.
pub open spec fn spec_finish_page(c: CursorModel, next_token: Option<Seq<char>>) -> CursorModel {
    CursorModel { group: c.group, stream: c.stream, query: c.query, token: next_token, snip: c.snip }
}

/// The entries a page reply yields: every event that carries both a
/// timestamp and a message, in reply order, with the message trimmed.
pub open spec fn page_entries(evs: Seq<RawEventModel>, snip: nat) -> Seq<EntryModel>
    decreases evs.len(),
{
    if evs.len() == 0 {
        Seq::empty()
    } else {
        let rest = page_entries(evs.drop_last(), snip);
        let last = evs.last();
        if last.timestamp is Some && last.message is Some {
            rest.push(
                EntryModel { timestamp: last.timestamp->0, message: trimmed(last.message->0, snip) },
            )
        } else {
            rest
        }
    }
}

/// The clamped lower bound of the context window around `middle`.
pub open spec fn window_start(middle: int) -> int {
    if middle - CONTEXT_HALF_WIDTH >= i64::MIN {
        middle - CONTEXT_HALF_WIDTH
    } else {
        i64::MIN as int
    }
}

/// The clamped upper bound of the context window around `middle`.
pub open spec fn window_end(middle: int) -> int {
    if middle + CONTEXT_HALF_WIDTH <= i64::MAX {
        middle + CONTEXT_HALF_WIDTH
    } else {
        i64::MAX as int
    }
}

/// Whether `ts` lies within the context window around `middle`.
pub open spec fn in_window(middle: int, ts: int) -> bool {
    middle - CONTEXT_HALF_WIDTH <= ts <= middle + CONTEXT_HALF_WIDTH
}

/// The context fetch a cursor issues around `middle`: time-bounded to the
/// window, capped, and without any filter.
pub open spec fn spec_context_request(c: CursorModel, middle: int) -> ContextRequestModel
    recommends
        c.stream is Some,
{
    ContextRequestModel {
        group: c.group,
        stream: c.stream->0,
        start_time: window_start(middle),
        end_time: window_end(middle),
        limit: CONTEXT_LIMIT as int,
    }
}

/// The entries a context reply yields: every event that carries both a
/// timestamp inside the window around `middle` and a message, in reply
/// order, with the message trimmed.
pub open spec fn context_entries(evs: Seq<RawEventModel>, middle: int, snip: nat) -> Seq<
    EntryModel,
>
    decreases evs.len(),
{
    if evs.len() == 0 {
        Seq::empty()
    } else {
        let rest = context_entries(evs.drop_last(), middle, snip);
        let last = evs.last();
        if last.timestamp matches Some(ts) && window_start(middle) <= ts <= window_end(middle)
            && last.message is Some {
            rest.push(
                EntryModel { timestamp: last.timestamp->0, message: trimmed(last.message->0, snip) },
            )
        } else {
            rest
        }
    }
}

/// The cursor over the remote log store. See the module description for
/// how its operations are split around the store's I/O.
pub struct Logs {
    group: String,
    stream: Option<String>,
    query: Option<String>,
    next_token: Option<String>,
    snip: usize,
}

impl View for Logs {
    type V = CursorModel;

    closed spec fn view(&self) -> CursorModel {
        CursorModel {
            group: self.group@,
            stream: self.stream.deep_view(),
            query: self.query.deep_view(),
            token: self.next_token.deep_view(),
            snip: self.snip as nat,
        }
    }
}

impl Logs {
    /// A fresh cursor for `group`: no filter, no pagination token, and the
    /// stream as configured — when none is given, it is resolved lazily by
    /// the first fetch. `snip` is the leading-character trim applied to
    /// every returned message (absent means none).
    pub fn new(group: String, stream: Option<String>, snip: Option<usize>) -> (r: Logs)
        ensures
            r@ == (CursorModel {
                group: group@,
                stream: stream.deep_view(),
                query: None,
                token: None,
                snip: (match snip {
                    Some(n) => n as nat,
                    None => 0,
                }),
            }),
    {
        let snip_count: usize = match snip {
            Some(n) => n,
            None => 0,
        };
        Logs { group, stream, query: None, next_token: None, snip: snip_count }
    }

    /// Whether the cursor still has to resolve its stream before it can
    /// fetch.
    pub fn needs_stream(&self) -> (r: bool)
        ensures
            r == (self@.stream is None),
    {
        self.stream.is_none()
    }

    /// The stream-resolution request: the group's streams, most recently
    /// active first, at most one of them.
    pub fn stream_request(&self) -> (r: StreamRequest)
        ensures
            r.group@ == self@.group,
            r.latest_first,
            r.limit == 1,
    {
        StreamRequest { group: self.group.clone(), latest_first: true, limit: 1 }
    }

    /// Absorb the reply to a stream-resolution request. `found` is the
    /// name of the group's most recently active stream, or absent when the
    /// group has none — which fails with `NotFound`, the one error fatal
    /// to the session.
    pub fn resolve_stream(&mut self, found: Option<String>) -> (r: Result<(), LogError>)
        ensures
            final(self)@ == spec_resolve_stream(old(self)@, found.deep_view()),
            r is Ok <==> (old(self)@.stream is Some || found is Some),
            r matches Err(e) ==> e@ == ErrorModel::NotFound,
    {
        if self.stream.is_some() {
            Ok(())
        } else {
            match found {
                Some(s) => {
                    self.stream = Some(s);
                    Ok(())
                },
                None => Err(LogError::NotFound),
            }
        }
    }

    /// Replace the filter text. The pagination token is unconditionally
    /// cleared: a new filter starts a new result sequence, and the old
    /// token is not valid across filter changes. No I/O happens here.
    pub fn set_query(&mut self, query: String)
        ensures
            final(self)@ == spec_set_query(old(self)@, query@),
    {
        self.query = Some(query);
        self.next_token = None;
    }

    /// Start a page fetch: the request carries the cursor's group, stream,
    /// filter and token, and the token is consumed — the reply, absorbed
    /// by `finish_page`, supplies the next one.
    pub fn begin_page(&mut self) -> (r: PageRequest)
        requires
            old(self)@.stream is Some,
        ensures
            r@ == spec_page_request(old(self)@),
            final(self)@ == spec_begin_page(old(self)@),
    {
        let token = self.next_token.take();
        let stream = match self.stream.as_ref() {
            Some(s) => s.clone(),
            None => vstd::pervasive::unreached(),
        };
        PageRequest {
            group: self.group.clone(),
            stream,
            filter: self.query.clone(),
            token,
            limit: PAGE_LIMIT,
        }
    }

    /// Absorb a page reply: store the token for the next fetch (absent
    /// means the forward sequence is exhausted and the next fetch
    /// restarts), and return the events that carry both fields, trimmed.
    /// An empty reply is an empty page, not an error.
    pub fn finish_page(&mut self, events: Vec<RawEvent>, next_token: Option<String>) -> (r: Vec<
        LogEntry,
    >)
        ensures
            final(self)@ == spec_finish_page(old(self)@, next_token.deep_view()),
            r.deep_view() == page_entries(events.deep_view(), old(self)@.snip),
    {
        self.next_token = next_token;
        let mut out: Vec<LogEntry> = Vec::new();
        let mut idx: usize = 0;
        while idx < events.len()
            invariant
                idx <= events.len(),
                out.deep_view() == page_entries(events.deep_view().take(idx as int), self@.snip),
            decreases events.len() - idx,
        {
            let ghost prefix = events.deep_view().take(idx as int);
            let ev = &events[idx];
            if let (Some(ts), Some(msg)) = (ev.timestamp, ev.message.as_ref()) {
                let entry = LogEntry { timestamp: ts, message: trim_message(msg.as_str(), self.snip) };
                out.push(entry);
            }
            proof {
                assert(events.deep_view().take(idx + 1).drop_last() =~= prefix);
                assert(events.deep_view().take(idx + 1).last() == events.deep_view()[idx as int]);
            }
            idx = idx + 1;
        }
        proof {
            assert(events.deep_view().take(events.len() as int) =~= events.deep_view());
        }
        out
    }

    /// The context fetch around `middle`: time-bounded to the window
    /// (clamped at the ends of the timestamp range), capped, and scoped to
    /// the stream alone — the active filter plays no part.
    pub fn context_request(&self, middle: i64) -> (r: ContextRequest)
        requires
            self@.stream is Some,
        ensures
            r@ == spec_context_request(self@, middle as int),
    {
        let start_time = if middle >= i64::MIN + CONTEXT_HALF_WIDTH {
            middle - CONTEXT_HALF_WIDTH
        } else {
            i64::MIN
        };
        let end_time = if middle <= i64::MAX - CONTEXT_HALF_WIDTH {
            middle + CONTEXT_HALF_WIDTH
        } else {
            i64::MAX
        };
        let stream = match self.stream.as_ref() {
            Some(s) => s.clone(),
            None => vstd::pervasive::unreached(),
        };
        ContextRequest {
            group: self.group.clone(),
            stream,
            start_time,
            end_time,
            limit: CONTEXT_LIMIT,
        }
    }

    /// Absorb a context reply: keep the events whose timestamps lie in the
    /// window around `middle` and that carry a message, trimmed. The
    /// cursor itself is untouched — context lookups do not paginate.
    pub fn apply_context(&self, middle: i64, events: Vec<RawEvent>) -> (r: Vec<LogEntry>)
        ensures
            r.deep_view() == context_entries(events.deep_view(), middle as int, self@.snip),
            forall|i: int|
                0 <= i < r.deep_view().len() ==> in_window(
                    middle as int,
                    r.deep_view()[i].timestamp,
                ),
    {
        let start_time = if middle >= i64::MIN + CONTEXT_HALF_WIDTH {
            middle - CONTEXT_HALF_WIDTH
        } else {
            i64::MIN
        };
        let end_time = if middle <= i64::MAX - CONTEXT_HALF_WIDTH {
            middle + CONTEXT_HALF_WIDTH
        } else {
            i64::MAX
        };
        let mut out: Vec<LogEntry> = Vec::new();
        let mut idx: usize = 0;
        while idx < events.len()
            invariant
                idx <= events.len(),
                start_time as int == window_start(middle as int),
                end_time as int == window_end(middle as int),
                out.deep_view() == context_entries(
                    events.deep_view().take(idx as int),
                    middle as int,
                    self@.snip,
                ),
            decreases events.len() - idx,
        {
            let ghost prefix = events.deep_view().take(idx as int);
            let ev = &events[idx];
            if let (Some(ts), Some(msg)) = (ev.timestamp, ev.message.as_ref()) {
                if start_time <= ts && ts <= end_time {
                    let entry = LogEntry {
                        timestamp: ts,
                        message: trim_message(msg.as_str(), self.snip),
                    };
                    out.push(entry);
                }
            }
            proof {
                assert(events.deep_view().take(idx + 1).drop_last() =~= prefix);
                assert(events.deep_view().take(idx + 1).last() == events.deep_view()[idx as int]);
            }
            idx = idx + 1;
        }
        proof {
            assert(events.deep_view().take(events.len() as int) =~= events.deep_view());
            lemma_context_entries_in_window(events.deep_view(), middle as int, self@.snip);
        }
        out
    }
}

/// Every entry a context reply yields lies within the window around
/// `middle`, whatever the reply held.
pub proof fn lemma_context_entries_in_window(evs: Seq<RawEventModel>, middle: int, snip: nat)
    ensures
        forall|i: int|
            0 <= i < context_entries(evs, middle, snip).len() ==> in_window(
                middle,
                #[trigger] context_entries(evs, middle, snip)[i].timestamp,
            ),
    decreases evs.len(),
{
    if evs.len() > 0 {
        lemma_context_entries_in_window(evs.drop_last(), middle, snip);
        let rest = context_entries(evs.drop_last(), middle, snip);
        let whole = context_entries(evs, middle, snip);
        let last = evs.last();
        if last.timestamp matches Some(ts) && window_start(middle) <= ts <= window_end(middle)
            && last.message is Some {
            assert forall|i: int| 0 <= i < whole.len() implies in_window(
                middle,
                whole[i].timestamp,
            ) by {
                if i < rest.len() {
                    assert(whole[i] == rest[i]);
                } else {
                    assert(whole[i].timestamp == last.timestamp->0);
                }
            }
        } else {
            assert(whole == rest);
        }
    }
}

/// Setting the filter clears the pagination token: the page fetch issued
/// after `set_query` never carries a token from the prior filter's result
/// sequence.
pub proof fn lemma_set_query_clears_token(c: CursorModel, q: Seq<char>)
    ensures
        spec_set_query(c, q).token is None,
        spec_page_request(spec_set_query(c, q)).token is None,
{
}

/// A page reply without a token leaves the cursor without one, so the
/// following fetch carries no token and restarts the forward sequence —
/// possibly repeating earlier results, never failing.
pub proof fn lemma_absent_token_restarts(c: CursorModel)
    ensures
        spec_finish_page(c, None).token is None,
        spec_page_request(spec_finish_page(c, None)).token is None,
{
}

/// The context window ignores the filter text: setting any filter leaves
/// the context request untouched.
pub proof fn lemma_context_ignores_filter(c: CursorModel, q: Seq<char>, middle: int)
    ensures
        spec_context_request(spec_set_query(c, q), middle) == spec_context_request(c, middle),
{
}

} // verus!
