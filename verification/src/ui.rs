use ltrait::ui::Buffer;
use ratatui::style::Style;
use ratatui::Viewport;
use vstd::prelude::*;
use crate::buffer::{
    buffer_entries, buffer_get, buffer_len, find, holds, is_first_with, lemma_first_is_unique,
    lemma_selection_follows_identity, selected_index, TuiEntry,
};
use crate::closure::total;
use crate::keys::{Action, Event, KeyCode, KeyEvent, KeyEventKind};
use crate::scroll::{scroll_window, window_end, window_start, SCROLL_MARGIN};

verus! {

/// `ratatui::Viewport`, the terminal library's choice of screen area to draw
/// into. It is carried from the configuration to the terminal setup and never
/// looked into.
#[verifier::external_type_specification]
#[verifier::external_body]
pub struct ExViewport(Viewport);

/// How the terminal picker is set up.
pub struct TuiConfig<F> where F: Fn(&KeyEvent) -> Action {
    viewport: Viewport,
    use_tty: bool,
    selecting: char,
    no_selecting: char,
    margin: usize,
    keybinder: F,
}

impl<F> TuiConfig<F> where F: Fn(&KeyEvent) -> Action {
    #[verifier::type_invariant]
    spec fn well_formed(self) -> bool {
        total(self.keybinder)
    }

    /// The screen area to draw into.
    pub closed spec fn viewport_spec(&self) -> Viewport {
        self.viewport
    }

    /// Whether the picker talks to the controlling terminal instead of the
    /// standard output.
    pub closed spec fn use_tty_spec(&self) -> bool {
        self.use_tty
    }

    /// The marker in front of the selected entry.
    pub closed spec fn selecting_spec(&self) -> char {
        self.selecting
    }

    /// The marker in front of every other entry.
    pub closed spec fn no_selecting_spec(&self) -> char {
        self.no_selecting
    }

    /// The number of rows kept free below the selected row while the list
    /// scrolls.
    pub closed spec fn margin_spec(&self) -> usize {
        self.margin
    }

    /// The key bindings.
    pub closed spec fn keybinder_spec(&self) -> F {
        self.keybinder
    }

    /// A configuration with a margin of `SCROLL_MARGIN` rows.
    pub fn new(
        viewport: Viewport,
        use_tty: bool,
        selecting: char,
        no_selecting: char,
        keybinder: F,
    ) -> (config: Self)
        requires
            total(keybinder),
        ensures
            config.viewport_spec() == viewport,
            config.use_tty_spec() == use_tty,
            config.selecting_spec() == selecting,
            config.no_selecting_spec() == no_selecting,
            config.margin_spec() == SCROLL_MARGIN,
            config.keybinder_spec() == keybinder,
    {
        Self { viewport, use_tty, selecting, no_selecting, margin: SCROLL_MARGIN, keybinder }
    }

    /// This configuration with a margin of `margin` rows.
    pub fn with_margin(self, margin: usize) -> (config: Self)
        ensures
            config.viewport_spec() == self.viewport_spec(),
            config.use_tty_spec() == self.use_tty_spec(),
            config.selecting_spec() == self.selecting_spec(),
            config.no_selecting_spec() == self.no_selecting_spec(),
            config.margin_spec() == margin,
            config.keybinder_spec() == self.keybinder_spec(),
    {
        proof {
            use_type_invariant(&self);
        }
        Self {
            viewport: self.viewport,
            use_tty: self.use_tty,
            selecting: self.selecting,
            no_selecting: self.no_selecting,
            margin,
            keybinder: self.keybinder,
        }
    }

    pub fn margin(&self) -> (margin: usize)
        ensures
            margin == self.margin_spec(),
    {
        self.margin
    }

    pub fn viewport(&self) -> (viewport: &Viewport)
        ensures
            *viewport == self.viewport_spec(),
    {
        &self.viewport
    }

    pub fn use_tty(&self) -> (use_tty: bool)
        ensures
            use_tty == self.use_tty_spec(),
    {
        self.use_tty
    }

    pub fn selecting(&self) -> (marker: char)
        ensures
            marker == self.selecting_spec(),
    {
        self.selecting
    }

    pub fn no_selecting(&self) -> (marker: char)
        ensures
            marker == self.no_selecting_spec(),
    {
        self.no_selecting
    }

    /// What the key bindings make of `key`.
    pub fn bind(&self, key: &KeyEvent) -> (action: Action)
        ensures
            self.keybinder_spec().ensures((key,), action),
    {
        proof {
            use_type_invariant(self);
        }
        (self.keybinder)(key)
    }
}

/// The terminal picker: a configuration waiting to be run.
pub struct Tui<F> where F: Fn(&KeyEvent) -> Action {
    config: TuiConfig<F>,
}

impl<F> Tui<F> where F: Fn(&KeyEvent) -> Action {
    /// The configuration this picker runs with.
    pub closed spec fn config_spec(&self) -> TuiConfig<F> {
        self.config
    }

    pub fn new(config: TuiConfig<F>) -> (tui: Self)
        ensures
            tui.config_spec() == config,
    {
        Self { config }
    }

    pub fn config(&self) -> (config: &TuiConfig<F>)
        ensures
            *config == self.config_spec(),
    {
        &self.config
    }
}

/// What the event loop has to do for the picker after an event.
#[derive(Debug, Clone, Copy, PartialEq, Eq, Structural)]
pub enum Effect {
    /// Nothing beyond drawing again.
    Redraw,
    /// Hand the key to the query editor.
    Edit,
    /// Have the batcher start over with the query as it now reads.
    Refilter,
}

/// The state of a picker session, as a plain value.
pub struct AppState {
    /// Whether the session is over.
    pub exit: bool,
    /// The identity of the highlighted entry, once one has been chosen. The
    /// highlight follows this identity wherever the entry stands; while no
    /// entry of the buffer has it, the first entry is highlighted.
    pub selecting: Option<usize>,
    /// Whether the last pull left the sources with more to give.
    pub has_more: bool,
    /// Whether the session ended by a commit.
    pub selected: bool,
    /// Whether the query has changed and the buffer rebuilt for it has not
    /// come in yet.
    pub revalidating: bool,
}

/// The identity a selection is left with by a look at the buffer rebuilt for
/// a changed query: its own where the buffer holds it, none where it does
/// not, so that the highlight is back on the first entry for good.
pub open spec fn revalidated(entries: Seq<(TuiEntry, usize)>, selecting: Option<usize>) -> Option<
    usize,
> {
    match selecting {
        Some(id) => if holds(entries, id) {
            Some(id)
        } else {
            None
        },
        None => None,
    }
}

/// The state after a merge has left the buffer with `entries`: what the
/// batcher said of its sources is noted, and the first merge after a changed
/// query is where the selection is looked at again.
pub open spec fn after_merge(state: AppState, entries: Seq<(TuiEntry, usize)>, has_more: bool) -> AppState {
    if state.revalidating {
        AppState {
            has_more,
            revalidating: false,
            selecting: revalidated(entries, state.selecting),
            ..state
        }
    } else {
        AppState { has_more, ..state }
    }
}

/// The identity the selection moves to by one step up or down the buffer:
/// that of the neighbour of the selected entry, or of the selected entry
/// itself at either end. In an empty buffer nothing moves.
pub open spec fn moved(entries: Seq<(TuiEntry, usize)>, selecting: Option<usize>, up: bool) -> Option<
    usize,
> {
    if entries.len() == 0 {
        selecting
    } else {
        let at = selected_index(entries, selecting);
        let to = if up {
            if at + 1 < entries.len() {
                at + 1
            } else {
                entries.len() - 1
            }
        } else {
            if at > 0 {
                at - 1
            } else {
                0
            }
        };
        Some(entries[to].1)
    }
}

/// Whether the key would leave the query as it is: a step or a deletion to
/// the left at the start of the text, or to the right at its end.
pub open spec fn edit_is_idle(code: KeyCode, cursor: usize, value_len: usize) -> bool {
    ||| cursor == 0 && (code == KeyCode::Backspace || code == KeyCode::Left)
    ||| cursor == value_len && (code == KeyCode::Delete || code == KeyCode::Right)
}

/// The state after the key bindings have made `action` of a key press.
pub open spec fn after_action(state: AppState, action: Action, entries: Seq<(TuiEntry, usize)>) -> AppState {
    match action {
        Action::Select => AppState { selected: true, exit: true, ..state },
        Action::ExitWithoutSelect => AppState { exit: true, ..state },
        Action::Up => AppState { selecting: moved(entries, state.selecting, true), ..state },
        Action::Down => AppState { selecting: moved(entries, state.selecting, false), ..state },
        Action::Input => state,
    }
}

/// What is left to the event loop after `action`.
pub open spec fn effect_of_action(action: Action, code: KeyCode, cursor: usize, value_len: usize) -> Effect {
    if action == Action::Input && !edit_is_idle(code, cursor, value_len) {
        Effect::Edit
    } else {
        Effect::Redraw
    }
}

/// Whether a session in the state `before` may answer the key press `key` by
/// going over to the state `after` and leaving `effect` to the event loop:
/// the key bindings make some action of the key, and the two are what follows
/// from that action.
pub open spec fn handles_key<F: Fn(&KeyEvent) -> Action>(
    keybinder: F,
    key: KeyEvent,
    before: AppState,
    entries: Seq<(TuiEntry, usize)>,
    cursor: usize,
    value_len: usize,
    after: AppState,
    effect: Effect,
) -> bool {
    exists|action: Action| #[trigger]
        keybinder.ensures((&key,), action) && after == after_action(before, action, entries)
            && effect == effect_of_action(action, key.code, cursor, value_len)
}

/// The identity that a session in `state` resolves to over `entries`: that of
/// the selected entry after a commit on a buffer that has one, none otherwise.
pub open spec fn outcome_of(state: AppState, entries: Seq<(TuiEntry, usize)>) -> Option<usize> {
    if state.selected && entries.len() > 0 {
        Some(entries[selected_index(entries, state.selecting)].1)
    } else {
        None
    }
}

/// One row of the list as it is drawn.
pub struct Row {
    pub text: String,
    pub style: Style,
}

impl View for Row {
    type V = (Seq<char>, Style);

    open spec fn view(&self) -> (Seq<char>, Style) {
        (self.text@, self.style)
    }
}

/// The list is drawn bottom-up: the row `row` of the screen, counted from the
/// top, shows the entry this far from the end of the buffer.
pub open spec fn entry_of_row(count: int, row: int) -> int {
    count - 1 - row
}

/// The row drawn for the entry at `index`: its marker, a space and its text,
/// in its own style.
pub open spec fn row_for(
    entries: Seq<(TuiEntry, usize)>,
    selecting: Option<usize>,
    selecting_marker: char,
    other_marker: char,
    index: int,
) -> (Seq<char>, Style) {
    let marker = if index == selected_index(entries, selecting) {
        selecting_marker
    } else {
        other_marker
    };
    (seq![marker, ' '] + entries[index].0.text.0@, entries[index].0.text.1)
}

/// The rows of the screen that show entries, as the first row and the row
/// after the last: the window that `scroll_window` gives for the row of the
/// selected entry under a margin of `margin` rows, and no row for an empty
/// buffer.
pub open spec fn visible_window(
    entries: Seq<(TuiEntry, usize)>,
    selecting: Option<usize>,
    height: usize,
    margin: usize,
) -> (int, int) {
    if entries.len() == 0 {
        (0, 0)
    } else {
        let selected = entry_of_row(entries.len() as int, selected_index(entries, selecting));
        (
            window_start(selected, height as int, margin as int),
            window_end(entries.len() as int, selected, height as int, margin as int),
        )
    }
}

/// The number of seconds the event loop idles before it asks an exhausted
/// source again.
pub const IDLE_SECONDS: u64 = 100;

/// `format!` of a marker, a space and a text: the three in that order.
#[verifier::external_body]
fn marked(marker: char, text: &str) -> (label: String)
    ensures
        label@ == seq![marker, ' '] + text@,
{
    format!("{} {}", marker, text)
}

/// A picker session: what the event loop remembers between two events.
///
/// The loop owns the terminal, the query editor, the batcher and the display
/// buffer. It tells the session what has happened, shows it the buffer, and
/// is told what to do next.
pub struct App<'a, F> where F: Fn(&KeyEvent) -> Action {
    config: &'a TuiConfig<F>,
    exit: bool,
    selecting: Option<usize>,
    has_more: bool,
    selected: bool,
    revalidating: bool,
}

impl<'a, F> View for App<'a, F> where F: Fn(&KeyEvent) -> Action {
    type V = AppState;

    closed spec fn view(&self) -> AppState {
        AppState {
            exit: self.exit,
            selecting: self.selecting,
            has_more: self.has_more,
            selected: self.selected,
            revalidating: self.revalidating,
        }
    }
}

impl<'a, F> App<'a, F> where F: Fn(&KeyEvent) -> Action {
    /// The configuration the session runs with.
    pub closed spec fn config(&self) -> TuiConfig<F> {
        *self.config
    }

    /// The rows of the screen that this session shows of `entries` in a list
    /// area of `height` rows.
    pub open spec fn window(&self, entries: Seq<(TuiEntry, usize)>, height: usize) -> (int, int) {
        visible_window(entries, self@.selecting, height, self.config().margin_spec())
    }

    /// A session at its start: running, nothing chosen, the sources untouched.
    pub fn new(config: &'a TuiConfig<F>) -> (app: Self)
        ensures
            app.config() == *config,
            app@ == (AppState {
                exit: false,
                selecting: None,
                has_more: true,
                selected: false,
                revalidating: false,
            }),
    {
        Self {
            config,
            exit: false,
            selecting: None,
            has_more: true,
            selected: false,
            revalidating: false,
        }
    }

    /// Whether the session is over.
    pub fn should_exit(&self) -> (exit: bool)
        ensures
            exit == self@.exit,
    {
        self.exit
    }

    /// Whether the last pull left the sources with more to give.
    pub fn has_more(&self) -> (has_more: bool)
        ensures
            has_more == self@.has_more,
    {
        self.has_more
    }

    /// The identity the highlight follows, once one has been chosen.
    pub fn selecting(&self) -> (selecting: Option<usize>)
        ensures
            selecting == self@.selecting,
    {
        self.selecting
    }

    /// The place of the highlighted entry in the buffer; `0` in an empty one.
    pub fn selected_place(&self, buf: &Buffer<(TuiEntry, usize)>) -> (place: usize)
        ensures
            place == selected_index(buffer_entries(*buf), self@.selecting),
            buffer_entries(*buf).len() > 0 ==> place < buffer_entries(*buf).len(),
    {
        match self.selecting {
            Some(id) => match find(buf, id) {
                Some(index) => {
                    proof {
                        let entries = buffer_entries(*buf);
                        assert(entries[index as int].1 == id);
                        lemma_first_is_unique(
                            entries,
                            id,
                            index as int,
                            selected_index(entries, self@.selecting),
                        );
                    }
                    index
                },
                None => 0,
            },
            None => 0,
        }
    }

    /// How long the loop is to idle before the next pull: not at all while
    /// the sources have more to give, `IDLE_SECONDS` once they are exhausted.
    pub fn pull_delay(&self) -> (seconds: Option<u64>)
        ensures
            seconds == if self@.has_more {
                None
            } else {
                Some(IDLE_SECONDS)
            },
    {
        if self.has_more {
            None
        } else {
            Some(IDLE_SECONDS)
        }
    }

    /// Looks at the selection again over the buffer rebuilt for a changed
    /// query: an identity the buffer holds is kept, one it has lost is
    /// dropped, and the highlight goes to the first entry.
    pub fn revalidate(&mut self, buf: &Buffer<(TuiEntry, usize)>)
        ensures
            final(self).config() == old(self).config(),
            final(self)@ == (AppState {
                selecting: revalidated(buffer_entries(*buf), old(self)@.selecting),
                ..old(self)@
            }),
    {
        match self.selecting {
            Some(id) => match find(buf, id) {
                Some(_) => {},
                None => {
                    self.selecting = None;
                },
            },
            None => {},
        }
    }

    /// Takes note of a finished merge into `buf`: `has_more` is what the
    /// batcher said of its sources. The first merge after a changed query
    /// brings the buffer rebuilt for it, over which the selection is looked
    /// at again.
    pub fn merged(&mut self, buf: &Buffer<(TuiEntry, usize)>, has_more: bool)
        ensures
            final(self).config() == old(self).config(),
            final(self)@ == after_merge(old(self)@, buffer_entries(*buf), has_more),
    {
        self.has_more = has_more;
        if self.revalidating {
            self.revalidating = false;
            self.revalidate(buf);
        }
    }

    /// Moves the selection one entry up or down the buffer.
    fn step(&mut self, buf: &Buffer<(TuiEntry, usize)>, up: bool)
        ensures
            final(self).config() == old(self).config(),
            final(self)@ == (AppState {
                selecting: moved(buffer_entries(*buf), old(self)@.selecting, up),
                ..old(self)@
            }),
    {
        let len = buffer_len(buf);
        if len == 0 {
            return ;
        }
        let at = self.selected_place(buf);
        let to = if up {
            if at + 1 < len {
                at + 1
            } else {
                len - 1
            }
        } else {
            if at > 0 {
                at - 1
            } else {
                0
            }
        };
        match buffer_get(buf, to) {
            Some(entry) => {
                self.selecting = Some(entry.1);
            },
            None => {},
        }
    }

    /// Handles one key press: asks the key bindings what it means and does
    /// it. `cursor` and `value_len` are the editor's cursor and the length of
    /// the query text.
    pub fn handle_key_event(
        &mut self,
        key_event: &KeyEvent,
        buf: &Buffer<(TuiEntry, usize)>,
        cursor: usize,
        value_len: usize,
    ) -> (effect: Effect)
        ensures
            final(self).config() == old(self).config(),
            handles_key(
                old(self).config().keybinder_spec(),
                *key_event,
                old(self)@,
                buffer_entries(*buf),
                cursor,
                value_len,
                final(self)@,
                effect,
            ),
    {
        let action = self.config.bind(key_event);
        assert(self.config().keybinder_spec().ensures((key_event,), action));
        match action {
            Action::Select => {
                self.selected = true;
                self.exit = true;
                Effect::Redraw
            },
            Action::ExitWithoutSelect => {
                self.exit = true;
                Effect::Redraw
            },
            Action::Up => {
                self.step(buf, true);
                Effect::Redraw
            },
            Action::Down => {
                self.step(buf, false);
                Effect::Redraw
            },
            Action::Input => {
                let idle = cursor == 0 && (key_event.code == KeyCode::Backspace || key_event.code
                    == KeyCode::Left) || cursor == value_len && (key_event.code == KeyCode::Delete
                    || key_event.code == KeyCode::Right);
                if idle {
                    Effect::Redraw
                } else {
                    Effect::Edit
                }
            },
        }
    }

    /// Handles one event of the loop. A key press is handled as
    /// `handle_key_event` says. A changed query makes the batcher start over,
    /// after which the sources count as untouched again; the selection is
    /// looked at again once the rebuilt buffer has come in. Every other event
    /// changes nothing.
    pub fn handle_events(
        &mut self,
        event: Event,
        buf: &Buffer<(TuiEntry, usize)>,
        cursor: usize,
        value_len: usize,
    ) -> (effect: Effect)
        ensures
            final(self).config() == old(self).config(),
            match event {
                Event::Key(key) => if key.kind == KeyEventKind::Press {
                    handles_key(
                        old(self).config().keybinder_spec(),
                        key,
                        old(self)@,
                        buffer_entries(*buf),
                        cursor,
                        value_len,
                        final(self)@,
                        effect,
                    )
                } else {
                    final(self)@ == old(self)@ && effect == Effect::Redraw
                },
                Event::Input => {
                    &&& final(self)@ == (AppState {
                        has_more: true,
                        revalidating: true,
                        ..old(self)@
                    })
                    &&& effect == Effect::Refilter
                },
                Event::Refresh => final(self)@ == old(self)@ && effect == Effect::Redraw,
            },
    {
        match event {
            Event::Key(key) => match key.kind {
                KeyEventKind::Press => self.handle_key_event(&key, buf, cursor, value_len),
                _ => Effect::Redraw,
            },
            Event::Input => {
                self.has_more = true;
                self.revalidating = true;
                Effect::Refilter
            },
            Event::Refresh => Effect::Redraw,
        }
    }

    /// The identity the session resolves to: that of the highlighted entry
    /// after a commit, none after a cancel or while the session runs. A commit
    /// on an empty buffer has no entry to resolve to.
    pub fn outcome(&self, buf: &Buffer<(TuiEntry, usize)>) -> (identity: Option<usize>)
        ensures
            identity == outcome_of(self@, buffer_entries(*buf)),
    {
        if !self.selected || buffer_len(buf) == 0 {
            return None;
        }
        let at = self.selected_place(buf);
        match buffer_get(buf, at) {
            Some(entry) => Some(entry.1),
            None => None,
        }
    }

    /// The rows to draw into a list area of `height` rows, top to bottom: the
    /// window around the selected entry under the configured margin.
    pub fn render(&self, buf: &Buffer<(TuiEntry, usize)>, height: usize) -> (rows: Vec<Row>)
        ensures
            rows.len() == self.window(buffer_entries(*buf), height).1 - self.window(
                buffer_entries(*buf),
                height,
            ).0,
            forall|k: int|
                0 <= k < rows.len() ==> (#[trigger] rows[k])@ == row_for(
                    buffer_entries(*buf),
                    self@.selecting,
                    self.config().selecting_spec(),
                    self.config().no_selecting_spec(),
                    entry_of_row(
                        buffer_entries(*buf).len() as int,
                        self.window(buffer_entries(*buf), height).0 + k,
                    ),
                ),
    {
        let mut rows: Vec<Row> = Vec::new();
        let count = buffer_len(buf);
        if count == 0 {
            return rows;
        }
        let at = self.selected_place(buf);
        let (start, end) = scroll_window(count, count - 1 - at, height, self.config.margin());
        let mut row: usize = start;
        while row < end
            invariant
                count == buffer_entries(*buf).len(),
                count > 0,
                at == selected_index(buffer_entries(*buf), self@.selecting),
                start <= row <= end <= count,
                rows.len() == row - start,
                forall|k: int|
                    0 <= k < rows.len() ==> (#[trigger] rows[k])@ == row_for(
                        buffer_entries(*buf),
                        self@.selecting,
                        self.config().selecting_spec(),
                        self.config().no_selecting_spec(),
                        entry_of_row(count as int, start + k),
                    ),
            decreases end - row,
        {
            let index = count - 1 - row;
            match buffer_get(buf, index) {
                Some(entry) => {
                    let marker = if index == at {
                        self.config.selecting()
                    } else {
                        self.config.no_selecting()
                    };
                    rows.push(Row { text: marked(marker, entry.0.text.0.as_str()), style: entry.0.text.1 });
                },
                None => {},
            }
            row += 1;
        }
        rows
    }
}

/// Where the terminal cursor goes for an input area whose upper left corner
/// is at column `area_x` and row `area_y`: one row down, under the border,
/// and as many columns in as the editor's cursor stands. A place past the
/// last column or row that a screen position can name is pulled back to it.
pub fn cursor_position(area_x: u16, area_y: u16, visual_cursor: usize) -> (position: (u16, u16))
    ensures
        position.0 == if area_x + visual_cursor <= u16::MAX {
            area_x + visual_cursor
        } else {
            u16::MAX as int
        },
        position.1 == if area_y < u16::MAX {
            area_y + 1
        } else {
            u16::MAX as int
        },
{
    let room = u16::MAX - area_x;
    let column = if visual_cursor <= room as usize {
        area_x + visual_cursor as u16
    } else {
        u16::MAX
    };
    let row = if area_y < u16::MAX {
        area_y + 1
    } else {
        u16::MAX
    };
    (column, row)
}

/// What follows an edit of the query: the loop is told of a changed text, and
/// of nothing else.
pub fn after_edit(text_changed: bool) -> (event: Option<Event>)
    ensures
        event == if text_changed {
            Some(Event::Input)
        } else {
            None
        },
{
    if text_changed {
        Some(Event::Input)
    } else {
        None
    }
}

/// Whether no two entries share an identity.
pub open spec fn distinct_identities(entries: Seq<(TuiEntry, usize)>) -> bool {
    forall|i: int, j: int|
        0 <= i < j < entries.len() ==> (#[trigger] entries[i]).1 != (#[trigger] entries[j]).1
}

/// In a buffer of distinct identities, a step moves the selection to the
/// next place in its direction and stops at either end.
pub proof fn lemma_step_is_clamped(
    entries: Seq<(TuiEntry, usize)>,
    selecting: Option<usize>,
    up: bool,
)
    requires
        distinct_identities(entries),
        entries.len() > 0,
    ensures
        0 <= selected_index(entries, selecting) < entries.len(),
        selected_index(entries, moved(entries, selecting, up)) == if up {
            if selected_index(entries, selecting) + 1 < entries.len() {
                selected_index(entries, selecting) + 1
            } else {
                entries.len() - 1
            }
        } else {
            if selected_index(entries, selecting) > 0 {
                selected_index(entries, selecting) - 1
            } else {
                0
            }
        },
{
    match selecting {
        Some(id) => {
            if holds(entries, id) {
                lemma_selection_follows_identity(entries, id);
            }
        },
        None => {},
    }
    let at = selected_index(entries, selecting);
    let to = if up {
        if at + 1 < entries.len() {
            at + 1
        } else {
            entries.len() - 1
        }
    } else {
        if at > 0 {
            at - 1
        } else {
            0
        }
    };
    let next = entries[to].1;
    assert(moved(entries, selecting, up) == Some(next));
    assert(holds(entries, next));
    lemma_selection_follows_identity(entries, next);
    let found = selected_index(entries, Some(next));
    if found < to {
        assert(entries[found].1 != entries[to].1);
    } else if to < found {
        assert(entries[to].1 != entries[found].1);
    }
}

/// A look at the selection leaves the highlight where it is: it only keeps
/// the session from going back to an entry that has left the list.
pub proof fn lemma_revalidation_keeps_highlight(
    entries: Seq<(TuiEntry, usize)>,
    selecting: Option<usize>,
)
    ensures
        selected_index(entries, revalidated(entries, selecting)) == selected_index(
            entries,
            selecting,
        ),
{
}

/// An entry that has left the list does not take the highlight back when it
/// returns: once the selection has been looked at over a buffer without its
/// identity, the first entry of every later buffer is the selected one.
pub proof fn lemma_lost_selection_stays_lost(
    rebuilt: Seq<(TuiEntry, usize)>,
    later: Seq<(TuiEntry, usize)>,
    id: usize,
)
    requires
        !holds(rebuilt, id),
    ensures
        selected_index(later, revalidated(rebuilt, Some(id))) == 0,
{
}

/// A selection outlives a change of the buffer: a session that follows the
/// identity `id` and ends by a commit resolves to `id` over every buffer that
/// holds it, wherever the entry has moved and whatever else has left.
pub proof fn lemma_commit_keeps_identity(state: AppState, entries: Seq<(TuiEntry, usize)>, id: usize)
    requires
        state.selecting == Some(id),
        state.selected,
        holds(entries, id),
    ensures
        outcome_of(state, entries) == Some(id),
{
    lemma_selection_follows_identity(entries, id);
}

} // verus!
