use vstd::prelude::*;

use crate::action::{Action, ActionView};
use crate::event::{Event, Key, Outcome};
use crate::http::HttpMethod;
use crate::input::{Input, InputView};
use crate::list::{next_index, previous_index};
use crate::method::{all_methods, Method};

verus! {

/// Whether keys edit the URL or navigate and command.
#[derive(Debug, Clone, Copy, PartialEq, Eq, Structural)]
pub enum InputMode {
    Normal,
    Editing,
}

/// One submitted URL and, once the dispatch has finished, how it ended.
#[derive(Debug, PartialEq, Eq)]
pub struct ExchangeLogEntry {
    pub url: String,
    /// `None` while the request is still in flight.
    pub outcome: Option<Outcome>,
}

/// A log entry, as mathematical values.
pub struct EntryView {
    pub url: Seq<char>,
    pub outcome: Option<Outcome>,
}

pub open spec fn entry_view(e: ExchangeLogEntry) -> EntryView {
    EntryView { url: e.url@, outcome: e.outcome }
}

/// The whole application state, as mathematical values.
pub struct AppView {
    pub input: InputView,
    pub mode: InputMode,
    pub log: Seq<EntryView>,
    pub should_quit: bool,
    /// The selected position in the method list, which holds four methods.
    pub selection: Option<int>,
    /// A dispatch is in flight; its entry is the newest of the log.
    pub pending: bool,
    /// How many times reading terminal input failed.
    pub input_errors: int,
}

impl AppView {
    /// Only the newest entry can await its outcome, and it does exactly while
    /// a dispatch is pending.
    pub open spec fn log_consistent(self) -> bool {
        &&& self.pending ==> self.log.len() > 0
        &&& forall|i: int|
            0 <= i < self.log.len() ==> (#[trigger] self.log[i].outcome is None <==> (self.pending
                && i == self.log.len() - 1))
    }

    pub open spec fn wf(self) -> bool {
        &&& self.input.wf()
        &&& match self.selection {
            Some(i) => 0 <= i < 4,
            None => true,
        }
        &&& self.log_consistent()
        &&& 0 <= self.input_errors <= u64::MAX
    }

    /// The state after Enter while editing: a pending entry for the text is
    /// logged and the mode returns to normal; the text stays. While another
    /// dispatch is pending nothing happens.
    pub open spec fn submit(self) -> AppView {
        if self.pending {
            self
        } else {
            AppView {
                log: self.log.push(EntryView { url: self.input.buffer, outcome: None }),
                pending: true,
                mode: InputMode::Normal,
                ..self
            }
        }
    }

    /// The state once the pending dispatch has ended with `outcome`: the
    /// newest entry records it and the text is cleared. Without a pending
    /// dispatch nothing happens.
    pub open spec fn resolve(self, outcome: Outcome) -> AppView {
        if !self.pending {
            self
        } else {
            let last = self.log.len() - 1;
            AppView {
                log: self.log.update(last, EntryView { outcome: Some(outcome), ..self.log[last] }),
                pending: false,
                input: InputView { buffer: Seq::empty(), cursor: 0 },
                ..self
            }
        }
    }

    pub open spec fn on_key(self, key: Key) -> AppView {
        match self.mode {
            InputMode::Normal => match key {
                Key::Char('e') => AppView { mode: InputMode::Editing, ..self },
                Key::Char('q') => AppView { should_quit: true, ..self },
                Key::Up => AppView { selection: next_index(self.selection, 4), ..self },
                Key::Down => AppView { selection: previous_index(self.selection, 4), ..self },
                _ => self,
            },
            InputMode::Editing => match key {
                Key::Enter => self.submit(),
                Key::Esc => AppView { mode: InputMode::Normal, ..self },
                Key::Char(_) | Key::Backspace | Key::Left | Key::Right => AppView {
                    input: self.input.on_key(key),
                    ..self
                },
                _ => self,
            },
        }
    }

    /// The state after one event.
    pub open spec fn step(self, event: Event) -> AppView {
        match event {
            Event::Tick => self,
            Event::Error => AppView {
                input_errors: if self.input_errors < u64::MAX {
                    self.input_errors + 1
                } else {
                    self.input_errors
                },
                ..self
            },
            Event::Key(key) => self.on_key(key),
            Event::Dispatched(outcome) => self.resolve(outcome),
        }
    }

    pub open spec fn key_effect(self, key: Key) -> ActionView {
        match self.mode {
            InputMode::Normal => match key {
                Key::Char('q') => ActionView::Quit,
                Key::Char('e') | Key::Up | Key::Down => ActionView::Render,
                _ => ActionView::Noop,
            },
            InputMode::Editing => match key {
                Key::Enter => if self.pending {
                    ActionView::Noop
                } else {
                    ActionView::CompleteInput(self.input.buffer)
                },
                Key::Esc | Key::Char(_) | Key::Backspace | Key::Left | Key::Right => ActionView::Render,
                _ => ActionView::Noop,
            },
        }
    }

    /// The command that goes with one event: quit, dispatch, redraw, or nothing.
    pub open spec fn effect(self, event: Event) -> ActionView {
        match event {
            Event::Tick | Event::Error => ActionView::Render,
            Event::Key(key) => self.key_effect(key),
            Event::Dispatched(_) => if self.pending {
                ActionView::Render
            } else {
                ActionView::Noop
            },
        }
    }
}

/// Submitting from editing mode logs exactly one new entry, for the text as
/// typed, still awaiting its outcome; the text stays and the mode becomes
/// normal. When the outcome arrives, success or failure, that entry records
/// it, the text is cleared, and the mode stays normal.
pub proof fn lemma_submit_then_outcome(s: AppView, outcome: Outcome)
    requires
        s.wf(),
        s.mode == InputMode::Editing,
        !s.pending,
    ensures
        ({
            let submitted = s.step(Event::Key(Key::Enter));
            &&& s.effect(Event::Key(Key::Enter)) == ActionView::CompleteInput(s.input.buffer)
            &&& submitted.log == s.log.push(EntryView { url: s.input.buffer, outcome: None })
            &&& submitted.input == s.input
            &&& submitted.mode == InputMode::Normal
            &&& submitted.pending
            &&& submitted.wf()
        }),
        ({
            let done = s.step(Event::Key(Key::Enter)).step(Event::Dispatched(outcome));
            &&& done.log == s.log.push(EntryView { url: s.input.buffer, outcome: Some(outcome) })
            &&& done.input.buffer.len() == 0
            &&& done.input.cursor == 0
            &&& done.mode == InputMode::Normal
            &&& !done.pending
            &&& done.wf()
        }),
{
    let submitted = s.step(Event::Key(Key::Enter));
    let done = submitted.step(Event::Dispatched(outcome));
    assert(done.log =~= s.log.push(EntryView { url: s.input.buffer, outcome: Some(outcome) }));
}

/// The application state, owned by the event loop.
pub struct App {
    pub input: Input,
    pub input_mode: InputMode,
    pub messages: Vec<ExchangeLogEntry>,
    pub should_quit: bool,
    pub methods: Method,
    pub pending: bool,
    pub input_errors: u64,
}

impl View for App {
    type V = AppView;

    open spec fn view(&self) -> AppView {
        AppView {
            input: self.input@,
            mode: self.input_mode,
            log: self.messages@.map_values(|e: ExchangeLogEntry| entry_view(e)),
            should_quit: self.should_quit,
            selection: self.methods.selection(),
            pending: self.pending,
            input_errors: self.input_errors as int,
        }
    }
}

impl App {
    pub open spec fn wf(&self) -> bool {
        self@.wf() && self.methods.wf()
    }

    /// Normal mode, empty text, empty log, nothing selected or pending.
    pub fn new() -> (r: App)
        ensures
            r.wf(),
            r@ == (AppView {
                input: InputView { buffer: Seq::empty(), cursor: 0 },
                mode: InputMode::Normal,
                log: Seq::empty(),
                should_quit: false,
                selection: None,
                pending: false,
                input_errors: 0,
            }),
    {
        let r = App {
            input: Input::new(),
            input_mode: InputMode::Normal,
            messages: Vec::new(),
            should_quit: false,
            methods: Method::new(),
            pending: false,
            input_errors: 0,
        };
        assert(r@.log =~= Seq::<EntryView>::empty());
        r
    }

    pub fn quit(&mut self)
        ensures
            final(self)@ == (AppView { should_quit: true, ..old(self)@ }),
            final(self).methods == old(self).methods,
            old(self).wf() ==> final(self).wf(),
    {
        self.should_quit = true;
    }

    pub fn select_next_method(&mut self)
        requires
            old(self).wf(),
        ensures
            final(self).wf(),
            final(self)@ == (AppView { selection: next_index(old(self)@.selection, 4), ..old(self)@ }),
    {
        self.methods.select_next_method();
    }

    pub fn select_previous_method(&mut self)
        requires
            old(self).wf(),
        ensures
            final(self).wf(),
            final(self)@ == (AppView {
                selection: previous_index(old(self)@.selection, 4),
                ..old(self)@
            }),
    {
        self.methods.select_previous_method();
    }

    pub fn move_cursor_left(&mut self)
        requires
            old(self).wf(),
        ensures
            final(self).wf(),
            final(self)@ == (AppView { input: old(self)@.input.move_left(), ..old(self)@ }),
    {
        self.input.move_cursor_left();
    }

    pub fn move_cursor_right(&mut self)
        requires
            old(self).wf(),
        ensures
            final(self).wf(),
            final(self)@ == (AppView { input: old(self)@.input.move_right(), ..old(self)@ }),
    {
        self.input.move_cursor_right();
    }

    pub fn enter_char(&mut self, new_char: char)
        requires
            old(self).wf(),
        ensures
            final(self).wf(),
            final(self)@ == (AppView { input: old(self)@.input.insert(new_char), ..old(self)@ }),
    {
        self.input.enter_char(new_char);
    }

    pub fn delete_char(&mut self)
        requires
            old(self).wf(),
        ensures
            final(self).wf(),
            final(self)@ == (AppView {
                input: old(self)@.input.delete_backward(),
                ..old(self)@
            }),
    {
        self.input.delete_char();
    }

    /// `new_cursor_pos` limited to the length of the text.
    pub fn clamp_cursor(&self, new_cursor_pos: usize) -> (r: usize)
        ensures
            r == self@.input.clamp(new_cursor_pos as int),
    {
        self.input.clamp_cursor(new_cursor_pos)
    }

    pub fn reset_cursor(&mut self)
        requires
            old(self).wf(),
        ensures
            final(self).wf(),
            final(self)@ == (AppView {
                input: InputView { cursor: 0, ..old(self)@.input },
                ..old(self)@
            }),
    {
        self.input.reset_cursor();
    }

    /// Enter while editing: logs a pending entry for the text, leaves the
    /// text in place until the outcome arrives, and returns to normal mode.
    /// Returns the dispatch command, or `Noop` while another dispatch is
    /// pending.
    pub fn submit_message(&mut self) -> (r: Action)
        requires
            old(self).wf(),
        ensures
            final(self).wf(),
            final(self)@ == old(self)@.submit(),
            r@ == (if old(self)@.pending {
                ActionView::Noop
            } else {
                ActionView::CompleteInput(old(self)@.input.buffer)
            }),
    {
        if self.pending {
            return Action::Noop;
        }
        let url = self.input.value().to_owned();
        let entry = ExchangeLogEntry { url: url.clone(), outcome: None };
        self.messages.push(entry);
        self.pending = true;
        self.input_mode = InputMode::Normal;
        assert(self@.log =~= old(self)@.log.push(
            EntryView { url: old(self)@.input.buffer, outcome: None },
        ));
        Action::CompleteInput(url)
    }

    /// Records how the pending dispatch ended and clears the text. Without
    /// a pending dispatch nothing happens.
    pub fn finish_dispatch(&mut self, outcome: Outcome) -> (r: Action)
        requires
            old(self).wf(),
        ensures
            final(self).wf(),
            final(self)@ == old(self)@.resolve(outcome),
            r@ == (if old(self)@.pending {
                ActionView::Render
            } else {
                ActionView::Noop
            }),
    {
        if !self.pending {
            return Action::Noop;
        }
        let last = self.messages.len() - 1;
        let url = self.messages[last].url.clone();
        self.messages.set(last, ExchangeLogEntry { url, outcome: Some(outcome) });
        self.pending = false;
        self.input.reset();
        assert(self@.log =~= old(self)@.log.update(
            last as int,
            EntryView { outcome: Some(outcome), ..old(self)@.log[last as int] },
        ));
        Action::Render
    }

    /// The method the next request is sent with; GET while none is selected.
    pub fn selected_method(&self) -> (r: HttpMethod)
        requires
            self.wf(),
        ensures
            r == match self@.selection {
                Some(i) => all_methods()[i],
                None => HttpMethod::Get,
            },
    {
        self.methods.selected_method()
    }
}

/// Feeds one key press to the state machine.
pub fn update_key(app: &mut App, key: Key) -> (r: Action)
    requires
        old(app).wf(),
    ensures
        final(app).wf(),
        final(app)@ == old(app)@.on_key(key),
        r@ == old(app)@.key_effect(key),
{
    match app.input_mode {
        InputMode::Normal => match key {
            Key::Char('e') => {
                app.input_mode = InputMode::Editing;
                Action::Render
            },
            Key::Char('q') => {
                app.quit();
                Action::Quit
            },
            Key::Up => {
                app.select_next_method();
                Action::Render
            },
            Key::Down => {
                app.select_previous_method();
                Action::Render
            },
            _ => Action::Noop,
        },
        InputMode::Editing => match key {
            Key::Enter => app.submit_message(),
            Key::Esc => {
                app.input_mode = InputMode::Normal;
                Action::Render
            },
            Key::Char(to_insert) => {
                app.enter_char(to_insert);
                Action::Render
            },
            Key::Backspace => {
                app.delete_char();
                Action::Render
            },
            Key::Left => {
                app.move_cursor_left();
                Action::Render
            },
            Key::Right => {
                app.move_cursor_right();
                Action::Render
            },
            _ => Action::Noop,
        },
    }
}

/// Feeds one event to the state machine and returns the command for the
/// loop: `Quit`, `CompleteInput` to dispatch a request, `Render`, or `Noop`.
pub fn update(app: &mut App, event: Event) -> (r: Action)
    requires
        old(app).wf(),
    ensures
        final(app).wf(),
        final(app)@ == old(app)@.step(event),
        r@ == old(app)@.effect(event),
        // a tick changes nothing
        event == Event::Tick ==> final(app)@ == old(app)@,
        // `q` quits from normal mode, also while a dispatch is pending
        old(app)@.mode == InputMode::Normal && event == Event::Key(Key::Char('q'))
            ==> final(app).should_quit,
        // an outcome never changes the mode
        event is Dispatched ==> final(app)@.mode == old(app)@.mode,
{
    match event {
        Event::Tick => Action::Render,
        Event::Error => {
            app.input_errors = app.input_errors.saturating_add(1);
            Action::Render
        },
        Event::Key(key) => update_key(app, key),
        Event::Dispatched(outcome) => app.finish_dispatch(outcome),
    }
}

} // verus!
