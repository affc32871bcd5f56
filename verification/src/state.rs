//! The render-relevant state machine.
//!
//! The machine is driven by three inputs — a key press, a completed
//! background load, a failed background load — and its transitions are
//! pure: each consumes the state and returns the next one, together with
//! the action the event loop must perform (spawn a fetch, or nothing).
//! Background loads are tracked by a generation counter: every spawned
//! load carries a fresh generation, at most one generation is ever
//! pending, and a delivered result is merged only when its generation is
//! the pending one — anything else is stale and dropped unchanged.

use vstd::prelude::*;

use crate::cursor::EntryModel;
use crate::cursor::ErrorModel;
use crate::cursor::LogEntry;
use crate::cursor::LogError;
use crate::text::is_alphanumeric_char;

verus! {

/// A key press, as the event loop hands it to the state machine. `Quit`
/// stops the machine from either screen; `Esc` does so only while
/// searching, and otherwise closes the modal.
pub enum Key {
    Quit,
    Esc,
    Up,
    Down,
    Left,
    Right,
    Enter,
    Backspace,
    Char(char),
}

/// The search screen: filter text, the entries the last completed page
/// fetch returned, and the selection within them.
pub struct SearchState {
    pub query: String,
    pub items: Vec<LogEntry>,
    pub selected: Option<usize>,
}

/// The mathematical content of a `SearchState`.
pub struct SearchModel {
    pub query: Seq<char>,
    pub items: Seq<EntryModel>,
    pub selected: Option<int>,
}

/// The context modal: the saved search screen it was opened from, the
/// entries around the chosen timestamp, and the selection within them.
pub struct ViewState {
    pub prev: SearchState,
    pub items: Vec<LogEntry>,
    pub selected: Option<usize>,
    pub selected_ts: i64,
}

/// The mathematical content of a `ViewState`.
pub struct ViewModel {
    pub prev: SearchModel,
    pub items: Seq<EntryModel>,
    pub selected: Option<int>,
    pub selected_ts: int,
}

/// Exactly one of the two screens is active; entering the modal saves the
/// whole search screen inside it, so leaving restores it verbatim.
pub enum Mode {
    Searching(SearchState),
    Viewing(ViewState),
}

/// The mathematical content of a `Mode`.
pub enum ModeModel {
    Searching(SearchModel),
    Viewing(ViewModel),
}

/// The outcome of the most recent background load, independent of mode.
pub enum Status {
    Loading,
    Loaded,
    Failed(LogError),
}

/// The mathematical content of a `Status`.
pub enum StatusModel {
    Loading,
    Loaded,
    Failed(ErrorModel),
}

/// What a completed background load delivered: a page of search results,
/// or a context window.
pub enum Data {
    Logs(Vec<LogEntry>),
    Context(Vec<LogEntry>),
}

/// The mathematical content of a `Data`.
pub enum DataModel {
    Logs(Seq<EntryModel>),
    Context(Seq<EntryModel>),
}

/// What the event loop must do after a transition: nothing, or spawn the
/// described fetch tagged with its generation.
pub enum Action {
    Idle,
    FetchLogs { gen: u64, query: String },
    FetchContext { gen: u64, center: i64 },
}

/// The mathematical content of an `Action`.
pub enum ActionModel {
    Idle,
    FetchLogs { gen: int, query: Seq<char> },
    FetchContext { gen: int, center: int },
}

/// The whole machine: whether the process keeps running, the active
/// screen, the last load outcome, the most recently issued load
/// generation, and the generation still awaited, if any.
pub struct App {
    pub running: bool,
    pub mode: Mode,
    pub status: Status,
    pub next_gen: u64,
    pub pending: Option<u64>,
}

/// The mathematical content of an `App`.
pub struct AppModel {
    pub running: bool,
    pub mode: ModeModel,
    pub status: StatusModel,
    pub next_gen: int,
    pub pending: Option<int>,
}

/// A selection index as a mathematical value.
pub open spec fn opt_idx_view(sel: Option<usize>) -> Option<int> {
    match sel {
        Some(i) => Some(i as int),
        None => None,
    }
}

impl View for SearchState {
    type V = SearchModel;

    open spec fn view(&self) -> SearchModel {
        SearchModel {
            query: self.query@,
            items: self.items.deep_view(),
            selected: opt_idx_view(self.selected),
        }
    }
}

impl View for ViewState {
    type V = ViewModel;

    open spec fn view(&self) -> ViewModel {
        ViewModel {
            prev: self.prev@,
            items: self.items.deep_view(),
            selected: opt_idx_view(self.selected),
            selected_ts: self.selected_ts as int,
        }
    }
}

impl View for Mode {
    type V = ModeModel;

    open spec fn view(&self) -> ModeModel {
        match self {
            Mode::Searching(s) => ModeModel::Searching(s@),
            Mode::Viewing(v) => ModeModel::Viewing(v@),
        }
    }
}

impl View for Status {
    type V = StatusModel;

    open spec fn view(&self) -> StatusModel {
        match self {
            Status::Loading => StatusModel::Loading,
            Status::Loaded => StatusModel::Loaded,
            Status::Failed(e) => StatusModel::Failed(e@),
        }
    }
}

impl View for Data {
    type V = DataModel;

    open spec fn view(&self) -> DataModel {
        match self {
            Data::Logs(items) => DataModel::Logs(items.deep_view()),
            Data::Context(items) => DataModel::Context(items.deep_view()),
        }
    }
}

impl View for Action {
    type V = ActionModel;

    open spec fn view(&self) -> ActionModel {
        match self {
            Action::Idle => ActionModel::Idle,
            Action::FetchLogs { gen, query } => ActionModel::FetchLogs {
                gen: *gen as int,
                query: query@,
            },
            Action::FetchContext { gen, center } => ActionModel::FetchContext {
                gen: *gen as int,
                center: *center as int,
            },
        }
    }
}

impl View for App {
    type V = AppModel;

    open spec fn view(&self) -> AppModel {
        AppModel {
            running: self.running,
            mode: self.mode@,
            status: self.status@,
            next_gen: self.next_gen as int,
            pending: opt_gen_view(self.pending),
        }
    }
}

/// A pending generation as a mathematical value.
pub open spec fn opt_gen_view(g: Option<u64>) -> Option<int> {
    match g {
        Some(g) => Some(g as int),
        None => None,
    }
}

/// The first entry, when there is one.
pub open spec fn spec_sel_first(len: int) -> Option<int> {
    if len > 0 {
        Some(0int)
    } else {
        None
    }
}

/// The last entry, when there is one.
pub open spec fn spec_sel_last(len: int) -> Option<int> {
    if len > 0 {
        Some(len - 1)
    } else {
        None
    }
}

/// One entry down, stopping at the last; from nothing, the first.
pub open spec fn spec_sel_next(sel: Option<int>, len: int) -> Option<int> {
    if len <= 0 {
        None
    } else {
        match sel {
            None => Some(0int),
            Some(i) => if i + 1 < len {
                Some(i + 1)
            } else {
                Some(len - 1)
            },
        }
    }
}

/// One entry up, stopping at the first; from nothing, the last.
pub open spec fn spec_sel_prev(sel: Option<int>, len: int) -> Option<int> {
    if len <= 0 {
        None
    } else {
        match sel {
            None => Some(len - 1),
            Some(i) => if i >= 1 {
                Some(i - 1)
            } else {
                Some(0int)
            },
        }
    }
}

/// Moving the selection for a navigation key; no I/O follows from it.
pub open spec fn spec_sel_move(sel: Option<int>, len: int, key: Key) -> Option<int> {
    match key {
        Key::Down => spec_sel_next(sel, len),
        Key::Up => spec_sel_prev(sel, len),
        Key::Left => spec_sel_first(len),
        Key::Right => spec_sel_last(len),
        _ => sel,
    }
}

/// Whether `key` is one of the four navigation keys.
pub open spec fn is_nav_key(key: Key) -> bool {
    key is Down || key is Up || key is Left || key is Right
}

/// The machine as it starts: searching with an empty filter, nothing
/// listed, the first load (generation 1) already pending.
pub open spec fn spec_init() -> AppModel {
    AppModel {
        running: true,
        mode: ModeModel::Searching(
            SearchModel { query: Seq::empty(), items: Seq::empty(), selected: None },
        ),
        status: StatusModel::Loading,
        next_gen: 1,
        pending: Some(1int),
    }
}

/// The action that accompanies the initial state: fetch the first page
/// for the empty filter.
pub open spec fn spec_init_action() -> ActionModel {
    ActionModel::FetchLogs { gen: 1, query: Seq::empty() }
}

/// The key-press transition. Navigation moves the selection of the active
/// screen. Editing the filter (a character or backspace, while searching)
/// issues a fresh page fetch, superseding whatever load was pending.
/// Enter on a selected entry saves the search screen, opens the modal and
/// issues a context fetch. Esc closes the modal and restores the saved
/// screen verbatim, or, while searching, stops the machine.
pub open spec fn spec_on_key(m: AppModel, key: Key) -> (AppModel, ActionModel) {
    match m.mode {
        ModeModel::Searching(s) => match key {
            Key::Quit => (
                AppModel {
                    running: false,
                    mode: ModeModel::Searching(s),
                    status: m.status,
                    next_gen: m.next_gen,
                    pending: m.pending,
                },
                ActionModel::Idle,
            ),
            Key::Esc => (
                AppModel {
                    running: false,
                    mode: ModeModel::Searching(s),
                    status: m.status,
                    next_gen: m.next_gen,
                    pending: m.pending,
                },
                ActionModel::Idle,
            ),
            Key::Down | Key::Up | Key::Left | Key::Right => (
                AppModel {
                    running: m.running,
                    mode: ModeModel::Searching(
                        SearchModel {
                            query: s.query,
                            items: s.items,
                            selected: spec_sel_move(s.selected, s.items.len() as int, key),
                        },
                    ),
                    status: m.status,
                    next_gen: m.next_gen,
                    pending: m.pending,
                },
                ActionModel::Idle,
            ),
            Key::Char(c) => if is_alphanumeric_char(c) {
                let query = s.query.push(c);
                let gen = m.next_gen + 1;
                (
                    AppModel {
                        running: m.running,
                        mode: ModeModel::Searching(
                            SearchModel { query, items: s.items, selected: s.selected },
                        ),
                        status: StatusModel::Loading,
                        next_gen: gen,
                        pending: Some(gen),
                    },
                    ActionModel::FetchLogs { gen, query },
                )
            } else {
                (m, ActionModel::Idle)
            },
            Key::Backspace => {
                let query = if s.query.len() > 0 {
                    s.query.drop_last()
                } else {
                    s.query
                };
                let gen = m.next_gen + 1;
                (
                    AppModel {
                        running: m.running,
                        mode: ModeModel::Searching(
                            SearchModel { query, items: s.items, selected: s.selected },
                        ),
                        status: StatusModel::Loading,
                        next_gen: gen,
                        pending: Some(gen),
                    },
                    ActionModel::FetchLogs { gen, query },
                )
            },
            Key::Enter => match s.selected {
                Some(i) => if 0 <= i < s.items.len() {
                    let ts = s.items[i].timestamp;
                    let gen = m.next_gen + 1;
                    (
                        AppModel {
                            running: m.running,
                            mode: ModeModel::Viewing(
                                ViewModel {
                                    prev: s,
                                    items: Seq::empty(),
                                    selected: None,
                                    selected_ts: ts,
                                },
                            ),
                            status: StatusModel::Loading,
                            next_gen: gen,
                            pending: Some(gen),
                        },
                        ActionModel::FetchContext { gen, center: ts },
                    )
                } else {
                    (m, ActionModel::Idle)
                },
                None => (m, ActionModel::Idle),
            },
        },
        ModeModel::Viewing(v) => match key {
            Key::Quit => (
                AppModel {
                    running: false,
                    mode: ModeModel::Viewing(v),
                    status: m.status,
                    next_gen: m.next_gen,
                    pending: m.pending,
                },
                ActionModel::Idle,
            ),
            Key::Esc => (
                AppModel {
                    running: m.running,
                    mode: ModeModel::Searching(v.prev),
                    status: m.status,
                    next_gen: m.next_gen,
                    pending: m.pending,
                },
                ActionModel::Idle,
            ),
            Key::Down | Key::Up | Key::Left | Key::Right => (
                AppModel {
                    running: m.running,
                    mode: ModeModel::Viewing(
                        ViewModel {
                            prev: v.prev,
                            items: v.items,
                            selected: spec_sel_move(v.selected, v.items.len() as int, key),
                            selected_ts: v.selected_ts,
                        },
                    ),
                    status: m.status,
                    next_gen: m.next_gen,
                    pending: m.pending,
                },
                ActionModel::Idle,
            ),
            _ => (m, ActionModel::Idle),
        },
    }
}

/// The completed-load transition. A delivery whose generation is not the
/// pending one is stale and changes nothing. A current delivery clears
/// the pending slot and marks the load done; a page of results replaces
/// the search list (selecting the first entry), a context window replaces
/// the modal list (selecting the last, most recent entry), and a delivery
/// that no longer fits the active screen is dropped.
pub open spec fn spec_on_data(m: AppModel, g: int, d: DataModel) -> AppModel {
    if m.pending != Some(g) {
        m
    } else {
        let mode = match (m.mode, d) {
            (ModeModel::Searching(s), DataModel::Logs(items)) => ModeModel::Searching(
                SearchModel {
                    query: s.query,
                    items,
                    selected: spec_sel_first(items.len() as int),
                },
            ),
            (ModeModel::Viewing(v), DataModel::Context(items)) => ModeModel::Viewing(
                ViewModel {
                    prev: v.prev,
                    items,
                    selected: spec_sel_last(items.len() as int),
                    selected_ts: v.selected_ts,
                },
            ),
            _ => m.mode,
        };
        AppModel {
            running: m.running,
            mode,
            status: StatusModel::Loaded,
            next_gen: m.next_gen,
            pending: None,
        }
    }
}

/// The failed-load transition: the failure is shown on the status line
/// and everything else — screen, results, selection — is kept, so a
/// transient failure never loses the user's place.
pub open spec fn spec_on_error(m: AppModel, e: ErrorModel) -> AppModel {
    AppModel {
        running: m.running,
        mode: m.mode,
        status: StatusModel::Failed(e),
        next_gen: m.next_gen,
        pending: m.pending,
    }
}

/// A selection is either absent or a valid index.
pub open spec fn sel_wf(sel: Option<int>, len: int) -> bool {
    sel matches Some(i) ==> 0 <= i < len
}

/// Well-formedness of a search screen.
pub open spec fn search_wf(s: SearchModel) -> bool {
    sel_wf(s.selected, s.items.len() as int)
}

/// Well-formedness of the machine: selections index into their lists, and
/// the pending generation, if any, is the most recently issued one — the
/// single-flight invariant.
pub open spec fn app_wf(m: AppModel) -> bool {
    &&& match m.mode {
        ModeModel::Searching(s) => search_wf(s),
        ModeModel::Viewing(v) => search_wf(v.prev) && sel_wf(v.selected, v.items.len() as int),
    }
    &&& (m.pending matches Some(g) ==> g == m.next_gen)
}

fn sel_first_exec(len: usize) -> (r: Option<usize>)
    ensures
        opt_idx_view(r) == spec_sel_first(len as int),
{
    if len > 0 {
        Some(0)
    } else {
        None
    }
}

fn sel_last_exec(len: usize) -> (r: Option<usize>)
    ensures
        opt_idx_view(r) == spec_sel_last(len as int),
{
    if len > 0 {
        Some(len - 1)
    } else {
        None
    }
}

fn sel_move_exec(sel: Option<usize>, len: usize, key: &Key) -> (r: Option<usize>)
    requires
        is_nav_key(*key),
    ensures
        opt_idx_view(r) == spec_sel_move(opt_idx_view(sel), len as int, *key),
{
    if len == 0 {
        match key {
            Key::Down | Key::Up | Key::Left | Key::Right => None,
            _ => sel,
        }
    } else {
        match key {
            Key::Down => match sel {
                None => Some(0),
                Some(i) => if i < len - 1 {
                    Some(i + 1)
                } else {
                    Some(len - 1)
                },
            },
            Key::Up => match sel {
                None => Some(len - 1),
                Some(i) => if i >= 1 {
                    Some(i - 1)
                } else {
                    Some(0)
                },
            },
            Key::Left => Some(0),
            Key::Right => Some(len - 1),
            _ => sel,
        }
    }
}

impl App {
    /// The machine as it starts, together with the fetch the event loop
    /// must spawn at once: the first page for the empty filter.
    pub fn new() -> (r: (App, Action))
        ensures
            r.0@ == spec_init(),
            r.1@ == spec_init_action(),
    {
        let items: Vec<LogEntry> = Vec::new();
        proof {
            assert(items.deep_view() =~= Seq::<EntryModel>::empty());
        }
        let app = App {
            running: true,
            mode: Mode::Searching(SearchState { query: String::new(), items, selected: None }),
            status: Status::Loading,
            next_gen: 1,
            pending: Some(1),
        };
        let action = Action::FetchLogs { gen: 1, query: String::new() };
        (app, action)
    }

    /// Whether the event loop should keep running.
    pub fn is_running(&self) -> (r: bool)
        ensures
            r == self@.running,
    {
        self.running
    }

    /// Apply one key press; see `spec_on_key`.
    pub fn on_key_event(self, key: Key) -> (r: (App, Action))
        requires
            self.next_gen < u64::MAX,
        ensures
            r.0@ == spec_on_key(self@, key).0,
            r.1@ == spec_on_key(self@, key).1,
    {
        let App { running, mode, status, next_gen, pending } = self;
        match mode {
            Mode::Searching(s) => match key {
                Key::Quit | Key::Esc => (
                    App { running: false, mode: Mode::Searching(s), status, next_gen, pending },
                    Action::Idle,
                ),
                Key::Down | Key::Up | Key::Left | Key::Right => {
                    let selected = sel_move_exec(s.selected, s.items.len(), &key);
                    (
                        App {
                            running,
                            mode: Mode::Searching(
                                SearchState { query: s.query, items: s.items, selected },
                            ),
                            status,
                            next_gen,
                            pending,
                        },
                        Action::Idle,
                    )
                },
                Key::Char(c) => {
                    if c.is_alphanumeric() {
                        let SearchState { mut query, items, selected } = s;
                        query.push(c);
                        let echo = query.clone();
                        let gen: u64 = next_gen + 1;
                        (
                            App {
                                running,
                                mode: Mode::Searching(SearchState { query, items, selected }),
                                status: Status::Loading,
                                next_gen: gen,
                                pending: Some(gen),
                            },
                            Action::FetchLogs { gen, query: echo },
                        )
                    } else {
                        (
                            App {
                                running,
                                mode: Mode::Searching(s),
                                status,
                                next_gen,
                                pending,
                            },
                            Action::Idle,
                        )
                    }
                },
                Key::Backspace => {
                    let SearchState { mut query, items, selected } = s;
                    query.pop();
                    let echo = query.clone();
                    let gen: u64 = next_gen + 1;
                    (
                        App {
                            running,
                            mode: Mode::Searching(SearchState { query, items, selected }),
                            status: Status::Loading,
                            next_gen: gen,
                            pending: Some(gen),
                        },
                        Action::FetchLogs { gen, query: echo },
                    )
                },
                Key::Enter => {
                    let take_it = match s.selected {
                        Some(i) => i < s.items.len(),
                        None => false,
                    };
                    if take_it {
                        let i = match s.selected {
                            Some(i) => i,
                            None => vstd::pervasive::unreached(),
                        };
                        let ts = s.items[i].timestamp;
                        let gen: u64 = next_gen + 1;
                        let fresh: Vec<LogEntry> = Vec::new();
                        proof {
                            assert(fresh.deep_view() =~= Seq::<EntryModel>::empty());
                        }
                        (
                            App {
                                running,
                                mode: Mode::Viewing(
                                    ViewState {
                                        prev: s,
                                        items: fresh,
                                        selected: None,
                                        selected_ts: ts,
                                    },
                                ),
                                status: Status::Loading,
                                next_gen: gen,
                                pending: Some(gen),
                            },
                            Action::FetchContext { gen, center: ts },
                        )
                    } else {
                        (
                            App {
                                running,
                                mode: Mode::Searching(s),
                                status,
                                next_gen,
                                pending,
                            },
                            Action::Idle,
                        )
                    }
                },
            },
            Mode::Viewing(v) => match key {
                Key::Quit => (
                    App { running: false, mode: Mode::Viewing(v), status, next_gen, pending },
                    Action::Idle,
                ),
                Key::Esc => (
                    App {
                        running,
                        mode: Mode::Searching(v.prev),
                        status,
                        next_gen,
                        pending,
                    },
                    Action::Idle,
                ),
                Key::Down | Key::Up | Key::Left | Key::Right => {
                    let selected = sel_move_exec(v.selected, v.items.len(), &key);
                    (
                        App {
                            running,
                            mode: Mode::Viewing(
                                ViewState {
                                    prev: v.prev,
                                    items: v.items,
                                    selected,
                                    selected_ts: v.selected_ts,
                                },
                            ),
                            status,
                            next_gen,
                            pending,
                        },
                        Action::Idle,
                    )
                },
                _ => (
                    App { running, mode: Mode::Viewing(v), status, next_gen, pending },
                    Action::Idle,
                ),
            },
        }
    }

    /// Merge one completed load, tagged with the generation of the task
    /// that produced it; see `spec_on_data`.
    pub fn on_data(self, gen: u64, data: Data) -> (r: App)
        ensures
            r@ == spec_on_data(self@, gen as int, data@),
    {
        let current = match self.pending {
            Some(g) => g == gen,
            None => false,
        };
        if !current {
            return self;
        }
        let App { running, mode, status: _, next_gen, pending: _ } = self;
        let mode = match (mode, data) {
            (Mode::Searching(s), Data::Logs(items)) => {
                let selected = sel_first_exec(items.len());
                Mode::Searching(SearchState { query: s.query, items, selected })
            },
            (Mode::Viewing(v), Data::Context(items)) => {
                let selected = sel_last_exec(items.len());
                Mode::Viewing(
                    ViewState { prev: v.prev, items, selected, selected_ts: v.selected_ts },
                )
            },
            (other, _) => other,
        };
        App { running, mode, status: Status::Loaded, next_gen, pending: None }
    }

    /// Record one failed load; see `spec_on_error`.
    pub fn on_error(self, err: LogError) -> (r: App)
        ensures
            r@ == spec_on_error(self@, err@),
    {
        let App { running, mode, status: _, next_gen, pending } = self;
        App { running, mode, status: Status::Failed(err), next_gen, pending }
    }
}

/// The machine starts well-formed.
pub proof fn lemma_wf_init()
    ensures
        app_wf(spec_init()),
{
}

/// Key presses preserve well-formedness: selections stay within their
/// lists and the pending load stays the most recently issued one.
pub proof fn lemma_wf_preserved_key(m: AppModel, key: Key)
    requires
        app_wf(m),
    ensures
        app_wf(spec_on_key(m, key).0),
{
}

/// Completed loads preserve well-formedness.
pub proof fn lemma_wf_preserved_data(m: AppModel, g: int, d: DataModel)
    requires
        app_wf(m),
    ensures
        app_wf(spec_on_data(m, g, d)),
{
}

/// Failed loads preserve well-formedness.
pub proof fn lemma_wf_preserved_error(m: AppModel, e: ErrorModel)
    requires
        app_wf(m),
    ensures
        app_wf(spec_on_error(m, e)),
{
}

/// Every fetch a key press issues is the machine's single outstanding
/// load: its generation is fresh, it is the one recorded as pending, and
/// a key press that issues none leaves the pending load untouched.
pub proof fn lemma_load_action_is_current(m: AppModel, key: Key)
    ensures
        ({
            let (m1, a) = spec_on_key(m, key);
            match a {
                ActionModel::Idle => m1.pending == m.pending && m1.next_gen == m.next_gen,
                ActionModel::FetchLogs { gen, .. } => m1.pending == Some(gen) && gen == m.next_gen
                    + 1 && m1.next_gen == gen,
                ActionModel::FetchContext { gen, .. } => m1.pending == Some(gen) && gen
                    == m.next_gen + 1 && m1.next_gen == gen,
            }
        }),
{
}

/// Superseding discards: when a key press issues a new fetch, a delivery
/// for any load issued earlier — whatever it carries — changes nothing.
pub proof fn lemma_superseding_discards_prior(m: AppModel, key: Key, g: int, d: DataModel)
    requires
        g <= m.next_gen,
        spec_on_key(m, key).1 !is Idle,
    ensures
        spec_on_data(spec_on_key(m, key).0, g, d) == spec_on_key(m, key).0,
{
}

/// Opening the context modal and closing it again restores the search
/// screen — filter text, result list and selection — exactly as it was.
pub proof fn lemma_viewing_roundtrip(m: AppModel)
    requires
        m.mode matches ModeModel::Searching(s) && s.selected matches Some(i) && 0 <= i
            < s.items.len(),
    ensures
        spec_on_key(m, Key::Enter).0.mode is Viewing,
        spec_on_key(spec_on_key(m, Key::Enter).0, Key::Esc).0.mode == m.mode,
{
}

} // verus!
