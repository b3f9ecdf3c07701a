use vstd::prelude::*;

use crate::event::SessionEvent;

verus! {

/// A resolved intent of the user or of the session.
#[derive(Clone, Debug, PartialEq)]
pub enum Action {
    Select,
    PlayNextTrack,
    QueueTrack,
    TogglePlayback,
    MoveBottom,
    MoveDown,
    MoveTop,
    MoveUp,
    Back,
    Quit,
    FilterList(String),
    SearchTrack(String),
    Noop,
}

/// An `Action` with its text arguments as character sequences.
pub enum ActionView {
    Select,
    PlayNextTrack,
    QueueTrack,
    TogglePlayback,
    MoveBottom,
    MoveDown,
    MoveTop,
    MoveUp,
    Back,
    Quit,
    FilterList(Seq<char>),
    SearchTrack(Seq<char>),
    Noop,
}

impl View for Action {
    type V = ActionView;

    open spec fn view(&self) -> ActionView {
        match self {
            Action::Select => ActionView::Select,
            Action::PlayNextTrack => ActionView::PlayNextTrack,
            Action::QueueTrack => ActionView::QueueTrack,
            Action::TogglePlayback => ActionView::TogglePlayback,
            Action::MoveBottom => ActionView::MoveBottom,
            Action::MoveDown => ActionView::MoveDown,
            Action::MoveTop => ActionView::MoveTop,
            Action::MoveUp => ActionView::MoveUp,
            Action::Back => ActionView::Back,
            Action::Quit => ActionView::Quit,
            Action::FilterList(s) => ActionView::FilterList(s@),
            Action::SearchTrack(s) => ActionView::SearchTrack(s@),
            Action::Noop => ActionView::Noop,
        }
    }
}

/// The action that a notification from the session calls for: the end of
/// a track asks for the next one, anything else for nothing.
pub open spec fn session_action(event: Option<SessionEvent>) -> ActionView {
    match event {
        Some(SessionEvent::EndOfTrack) => ActionView::PlayNextTrack,
        _ => ActionView::Noop,
    }
}

/// The value of a successful result, nothing for an error.
pub fn result_to_option<T, E>(event: Result<T, E>) -> (r: Option<T>)
    ensures
        match event {
            Ok(e) => r == Some(e),
            Err(_) => r is None,
        },
{
    match event {
        Ok(e) => Some(e),
        Err(_) => None,
    }
}

/// The action for a pending notification of the session, if there is one.
pub fn next_action(event: Option<SessionEvent>) -> (r: Action)
    ensures
        r@ == session_action(event),
{
    match event {
        Some(e) => next_session_event(e),
        None => Action::Noop,
    }
}

fn next_session_event(event: SessionEvent) -> (r: Action)
    ensures
        r@ == session_action(Some(event)),
{
    match event {
        SessionEvent::EndOfTrack => Action::PlayNextTrack,
        SessionEvent::Other => Action::Noop,
    }
}

} // verus!
