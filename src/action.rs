use vstd::prelude::*;

verus! {

/// A command the state machine hands back to the loop that owns it.
#[derive(Debug, Clone, PartialEq, Eq)]
pub enum Action {
    /// Stop the loop.
    Quit,
    Tick,
    /// Draw the current state.
    Render,
    Update,
    /// Nothing to do.
    Noop,
    EnterUrlInsert,
    EnterNormal,
    /// Send a request to this URL; its outcome comes back as an event.
    CompleteInput(String),
    Resize(u16, u16),
}

/// An action, as a mathematical value.
pub enum ActionView {
    Quit,
    Tick,
    Render,
    Update,
    Noop,
    EnterUrlInsert,
    EnterNormal,
    CompleteInput(Seq<char>),
    Resize(u16, u16),
}

impl View for Action {
    type V = ActionView;

    open spec fn view(&self) -> ActionView {
        match self {
            Action::Quit => ActionView::Quit,
            Action::Tick => ActionView::Tick,
            Action::Render => ActionView::Render,
            Action::Update => ActionView::Update,
            Action::Noop => ActionView::Noop,
            Action::EnterUrlInsert => ActionView::EnterUrlInsert,
            Action::EnterNormal => ActionView::EnterNormal,
            Action::CompleteInput(s) => ActionView::CompleteInput(s@),
            Action::Resize(w, h) => ActionView::Resize(*w, *h),
        }
    }
}

} // verus!
