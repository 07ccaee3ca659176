use vstd::prelude::*;

use crate::labels::{copy_labels, labels_view};
use crate::render::{cursor_row, header_of, header_rows, header_text, is_marked};

verus! {

/// A key event, already reduced to what navigation distinguishes.
#[derive(Clone, Copy, Debug, PartialEq, Eq, Structural)]
pub enum Key {
    Up,
    Down,
    Confirm,
    Cancel,
    Other,
}

/// What the caller is asked to do after a key event.
#[derive(Clone, Copy, Debug, PartialEq, Eq, Structural)]
pub enum Action {
    /// Nothing changed.
    Nothing,
    /// Only the selection moved: put the cursor on [`Navigator::cursor_row`].
    MoveCursor,
    /// The level changed without a fetch: draw the screen again.
    Redraw,
    /// Run [`Navigator::pending`] against the store, then call
    /// [`Navigator::on_fetched`] with its outcome and draw the screen again.
    Fetch,
    /// Leave the program.
    Quit,
}

/// A listing or fetch that failed at the store.
#[derive(Debug)]
pub struct QueryError {
    pub message: String,
}

/// How deep the user is in the store.
#[derive(Debug)]
pub enum Level {
    Root,
    InContainer { container: String },
    InCollection { container: String, collection: String },
}

pub enum LevelView {
    Root,
    InContainer { container: Seq<char> },
    InCollection { container: Seq<char>, collection: Seq<char> },
}

impl View for Level {
    type V = LevelView;

    open spec fn view(&self) -> LevelView {
        match self {
            Level::Root => LevelView::Root,
            Level::InContainer { container } => LevelView::InContainer { container: container@ },
            Level::InCollection { container, collection } => LevelView::InCollection {
                container: container@,
                collection: collection@,
            },
        }
    }
}

/// A remote call that a transition waits on.
#[derive(Debug)]
pub enum Request {
    /// List the collections of a container.
    SubContainers { container: String },
    /// Fetch every record of a collection.
    Records { container: String, collection: String },
}

pub enum RequestView {
    SubContainers { container: Seq<char> },
    Records { container: Seq<char>, collection: Seq<char> },
}

impl View for Request {
    type V = RequestView;

    open spec fn view(&self) -> RequestView {
        match self {
            Request::SubContainers { container } => RequestView::SubContainers {
                container: container@,
            },
            Request::Records { container, collection } => RequestView::Records {
                container: container@,
                collection: collection@,
            },
        }
    }
}

/// The abstract state of a navigator.
pub struct NavView {
    pub level: LevelView,
    /// The top-level containers, fetched once at startup.
    pub root: Seq<Seq<char>>,
    /// The items of the active level, top row first.
    pub list: Seq<Seq<char>>,
    /// The selected row of `list`.
    pub selected: nat,
    /// The row, in `root`, of the container that is open.
    pub container_row: nat,
    /// The row, in the container's list, of the collection that is open.
    pub collection_row: nat,
    /// The remote call that a transition waits on.
    pub pending: Option<RequestView>,
}

/// A selected row is on the list, or is the top row of an empty list.
pub open spec fn in_bounds(selected: nat, len: nat) -> bool {
    if len == 0 {
        selected == 0
    } else {
        selected < len
    }
}

/// The selection after an arrow key: one row further, never past either end.
pub open spec fn moved(selected: nat, len: nat, key: Key) -> nat {
    match key {
        Key::Down => if selected + 1 < len {
            selected + 1
        } else {
            selected
        },
        Key::Up => if selected > 0 {
            (selected - 1) as nat
        } else {
            selected
        },
        _ => selected,
    }
}

/// The row nearest to `row` on a list of `len` items.
pub open spec fn clamped(row: nat, len: nat) -> nat {
    if row < len {
        row
    } else if len == 0 {
        0
    } else {
        (len - 1) as nat
    }
}

/// The remote call that `key` starts in state `v`, if it starts one.
pub open spec fn request_for(v: NavView, key: Key) -> Option<RequestView> {
    match (v.level, key) {
        (LevelView::Root, Key::Confirm) => if v.selected < v.list.len() {
            Some(RequestView::SubContainers { container: v.list[v.selected as int] })
        } else {
            None
        },
        (LevelView::InContainer { container }, Key::Confirm) => if v.selected < v.list.len() {
            Some(RequestView::Records { container, collection: v.list[v.selected as int] })
        } else {
            None
        },
        (LevelView::InCollection { container, .. }, Key::Cancel) => Some(
            RequestView::SubContainers { container },
        ),
        _ => None,
    }
}

/// The states a navigator can be in.
pub open spec fn well_formed(v: NavView) -> bool {
    &&& in_bounds(v.selected, v.list.len())
    &&& v.level is Root ==> v.list == v.root
    &&& v.pending is Some ==> (v.pending == request_for(v, Key::Confirm) || v.pending
        == request_for(v, Key::Cancel))
}

/// The state at startup, at the top level over the given containers.
pub open spec fn initial(root: Seq<Seq<char>>) -> NavView {
    NavView {
        level: LevelView::Root,
        root,
        list: root,
        selected: 0,
        container_row: 0,
        collection_row: 0,
        pending: None,
    }
}

/// The state and the action that follow a key event.
///
/// While a remote call is pending no key is taken. Arrow keys move the
/// selection. Confirm on a selected row starts the fetch of the level below.
/// Cancel leaves the program at the top level, goes back to the top level's
/// list from a container, and starts a new listing of the container from a
/// collection. Every other key does nothing.
pub open spec fn key_step(v: NavView, key: Key) -> (NavView, Action) {
    if v.pending is Some {
        (v, Action::Nothing)
    } else {
        match key {
            Key::Up | Key::Down => (
                NavView { selected: moved(v.selected, v.list.len(), key), ..v },
                Action::MoveCursor,
            ),
            Key::Confirm => match request_for(v, key) {
                Some(r) => (NavView { pending: Some(r), ..v }, Action::Fetch),
                None => (v, Action::Nothing),
            },
            Key::Cancel => match v.level {
                LevelView::Root => (v, Action::Quit),
                LevelView::InContainer { .. } => (
                    NavView {
                        level: LevelView::Root,
                        list: v.root,
                        selected: clamped(v.container_row, v.root.len()),
                        ..v
                    },
                    Action::Redraw,
                ),
                LevelView::InCollection { .. } => (
                    NavView { pending: request_for(v, key), ..v },
                    Action::Fetch,
                ),
            },
            Key::Other => (v, Action::Nothing),
        }
    }
}

/// The state after the pending remote call came back: `None` when it failed,
/// else the items it listed.
///
/// A failure clears the pending call and changes nothing else. A listing of a
/// container's collections opens that container; coming from the top level the
/// first row is selected, coming back from a collection its row is. A fetch of
/// records opens the collection on its first row.
pub open spec fn fetch_step(v: NavView, outcome: Option<Seq<Seq<char>>>) -> NavView {
    match v.pending {
        None => v,
        Some(r) => match outcome {
            None => NavView { pending: None, ..v },
            Some(items) => match r {
                RequestView::SubContainers { container } => NavView {
                    level: LevelView::InContainer { container },
                    list: items,
                    selected: if v.level is Root {
                        0
                    } else {
                        clamped(v.collection_row, items.len())
                    },
                    container_row: if v.level is Root {
                        v.selected
                    } else {
                        v.container_row
                    },
                    pending: None,
                    ..v
                },
                RequestView::Records { container, collection } => NavView {
                    level: LevelView::InCollection { container, collection },
                    list: items,
                    selected: 0,
                    collection_row: v.selected,
                    pending: None,
                    ..v
                },
            },
        },
    }
}

/// What a remote call's outcome tells the model: its items, or `None`.
pub open spec fn outcome_view(o: Result<Vec<String>, QueryError>) -> Option<Seq<Seq<char>>> {
    match o {
        Ok(items) => Some(labels_view(items@)),
        Err(_) => None,
    }
}

/// The navigation state machine.
pub struct Navigator {
    level: Level,
    root: Vec<String>,
    list: Vec<String>,
    selected: usize,
    container_row: usize,
    collection_row: usize,
    pending: Option<Request>,
}

impl View for Navigator {
    type V = NavView;

    closed spec fn view(&self) -> NavView {
        NavView {
            level: self.level@,
            root: labels_view(self.root@),
            list: labels_view(self.list@),
            selected: self.selected as nat,
            container_row: self.container_row as nat,
            collection_row: self.collection_row as nat,
            pending: pending_view(self.pending),
        }
    }
}

/// What the model sees of a pending call.
pub open spec fn pending_view(p: Option<Request>) -> Option<RequestView> {
    match p {
        Some(r) => Some(r@),
        None => None,
    }
}

/// The selection after an arrow key, on a list of `len` items.
pub fn move_selection(selected: usize, len: usize, key: Key) -> (r: usize)
    ensures
        r as nat == moved(selected as nat, len as nat, key),
{
    match key {
        Key::Down => if len > 0 && selected < len - 1 {
            selected + 1
        } else {
            selected
        },
        Key::Up => if selected > 0 {
            selected - 1
        } else {
            selected
        },
        _ => selected,
    }
}

/// The row nearest to `row` on a list of `len` items.
pub fn clamp_row(row: usize, len: usize) -> (r: usize)
    ensures
        r as nat == clamped(row as nat, len as nat),
{
    if row < len {
        row
    } else if len == 0 {
        0
    } else {
        len - 1
    }
}

impl Navigator {
    /// The navigator is in one of the states it can reach.
    pub open spec fn wf(&self) -> bool {
        well_formed(self@)
    }

    /// A navigator at the top level, over the containers listed at startup.
    pub fn new(root: Vec<String>) -> (r: Navigator)
        ensures
            r.wf(),
            r@ == initial(labels_view(root@)),
    {
        let list = copy_labels(&root);
        Navigator {
            level: Level::Root,
            root,
            list,
            selected: 0,
            container_row: 0,
            collection_row: 0,
            pending: None,
        }
    }

    /// The fetch that Confirm starts on the selected row, if any.
    fn confirm_request(&self) -> (r: Option<Request>)
        requires
            self.wf(),
        ensures
            pending_view(r) == request_for(self@, Key::Confirm),
    {
        if self.selected >= self.list.len() {
            return None;
        }
        let label = self.list[self.selected].clone();
        match &self.level {
            Level::Root => Some(Request::SubContainers { container: label }),
            Level::InContainer { container } => Some(
                Request::Records { container: container.clone(), collection: label },
            ),
            Level::InCollection { .. } => None,
        }
    }

    /// Takes one key event: updates the state and says what the caller is to do.
    pub fn on_key(&mut self, key: Key) -> (a: Action)
        requires
            old(self).wf(),
        ensures
            final(self).wf(),
            (final(self)@, a) == key_step(old(self)@, key),
    {
        if self.pending.is_some() {
            return Action::Nothing;
        }
        match key {
            Key::Up | Key::Down => {
                self.selected = move_selection(self.selected, self.list.len(), key);
                Action::MoveCursor
            },
            Key::Confirm => match self.confirm_request() {
                Some(r) => {
                    self.pending = Some(r);
                    Action::Fetch
                },
                None => Action::Nothing,
            },
            Key::Cancel => match &self.level {
                Level::Root => Action::Quit,
                Level::InContainer { .. } => {
                    self.level = Level::Root;
                    self.list = copy_labels(&self.root);
                    self.selected = clamp_row(self.container_row, self.root.len());
                    Action::Redraw
                },
                Level::InCollection { container, .. } => {
                    let c = container.clone();
                    self.pending = Some(Request::SubContainers { container: c });
                    Action::Fetch
                },
            },
            Key::Other => Action::Nothing,
        }
    }

    /// Takes the outcome of the pending remote call: the listed items, or the
    /// error that the store gave. Returns whether a transition was made.
    pub fn on_fetched(&mut self, outcome: Result<Vec<String>, QueryError>) -> (moved_on: bool)
        requires
            old(self).wf(),
        ensures
            final(self).wf(),
            final(self)@ == fetch_step(old(self)@, outcome_view(outcome)),
            moved_on == (old(self)@.pending is Some && outcome is Ok),
    {
        let request = self.pending.take();
        match request {
            None => false,
            Some(r) => match outcome {
                Err(_) => false,
                Ok(items) => {
                    match r {
                        Request::SubContainers { container } => {
                            if let Level::Root = self.level {
                                self.container_row = self.selected;
                                self.selected = 0;
                            } else {
                                self.selected = clamp_row(self.collection_row, items.len());
                            }
                            self.level = Level::InContainer { container };
                        },
                        Request::Records { container, collection } => {
                            self.collection_row = self.selected;
                            self.selected = 0;
                            self.level = Level::InCollection { container, collection };
                        },
                    }
                    self.list = items;
                    true
                },
            },
        }
    }

    /// How deep the user is.
    pub fn level(&self) -> (r: &Level)
        ensures
            r@ == self@.level,
    {
        &self.level
    }

    /// The items of the active level, top row first.
    pub fn list(&self) -> (r: &Vec<String>)
        ensures
            labels_view(r@) == self@.list,
    {
        &self.list
    }

    /// The selected row of the active list.
    pub fn selected(&self) -> (r: usize)
        ensures
            r as nat == self@.selected,
    {
        self.selected
    }

    /// The header line to draw above the items, if the level has one.
    pub fn header(&self) -> (r: Option<String>)
        ensures
            match r {
                Some(h) => header_of(self@.level) == Some(h@),
                None => header_of(self@.level) is None,
            },
    {
        header_text(&self.level)
    }

    /// The screen row to put the cursor on after drawing: the selected row,
    /// below the header.
    pub fn cursor_row(&self) -> (r: usize)
        requires
            self.wf(),
        ensures
            r as nat == self@.selected + header_rows(self@.level),
    {
        let n = self.list.len();
        assert(labels_view(self.list@).len() == n);
        cursor_row(&self.level, self.selected)
    }

    /// Whether the items are drawn behind a marker glyph.
    pub fn marked(&self) -> (r: bool)
        ensures
            r == !(self@.level is InCollection),
    {
        is_marked(&self.level)
    }

    /// The remote call that a transition waits on.
    pub fn pending(&self) -> (r: &Option<Request>)
        ensures
            pending_view(*r) == self@.pending,
    {
        &self.pending
    }
}

} // verus!
