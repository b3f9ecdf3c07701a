use vstd::prelude::*;

use crate::action::{Action, ActionView};
use crate::item::ListItem;
use crate::list::{matching_of, List, ListModel, ListStep, Row};
use crate::view::NeubautenView;

verus! {

/// A leaf item that plays or waits in the queue, with the container it was
/// taken from and its position there, from which playback goes on.
#[derive(Debug, PartialEq)]
pub struct PlaybackTrack<C, L> {
    pub container: C,
    pub track: L,
    pub index: usize,
}

impl<C: ListItem, L: ListItem> PlaybackTrack<C, L> {
    /// A copy of the entry.
    pub fn duplicate(&self) -> (r: Self)
        ensures
            r == *self,
    {
        PlaybackTrack {
            container: self.container.duplicate(),
            track: self.track.duplicate(),
            index: self.index,
        }
    }
}

/// Outside work that an action asks of the caller.
#[derive(Debug, PartialEq)]
pub enum Effect<C, L> {
    Nothing,
    /// Start playing this leaf item now.
    Play(L),
    /// Fetch the leaf items of this container and hand them to
    /// `SessionState::enter_container`.
    OpenContainer(C),
    /// Fetch the leaf item at this position of this container and hand the
    /// outcome to `SessionState::next_track_fetched`.
    FetchTrack(C, usize),
    /// Pause playback if it plays, resume it otherwise.
    TogglePlayback,
    /// Leave the loop.
    Quit,
}

/// The state that the loop keeps between events: the stack of views (its
/// last view is the current one), the queue of leaf items to play next, and
/// what plays now.
pub struct SessionState<C: ListItem, L: ListItem> {
    views: Vec<NeubautenView<C, L>>,
    playback_queue: Vec<PlaybackTrack<C, L>>,
    current_track: Option<PlaybackTrack<C, L>>,
    height: usize,
    width: usize,
}

/// What the contracts of `SessionState` speak of; `height` and `width` are
/// the viewport of every list that is opened.
pub struct SessionModel<C: ListItem, L: ListItem> {
    pub views: Seq<NeubautenView<C, L>>,
    pub queue: Seq<PlaybackTrack<C, L>>,
    pub current: Option<PlaybackTrack<C, L>>,
    pub height: nat,
    pub width: nat,
}

impl<C: ListItem, L: ListItem> View for SessionState<C, L> {
    type V = SessionModel<C, L>;

    closed spec fn view(&self) -> SessionModel<C, L> {
        SessionModel {
            views: self.views@,
            queue: self.playback_queue@,
            current: self.current_track,
            height: self.height as nat,
            width: self.width as nat,
        }
    }
}

/// A fresh list of `items` under no filter, cursor at the top.
pub open spec fn fresh_list<T: ListItem>(items: Seq<T>, height: nat, width: nat) -> ListModel<T> {
    ListModel {
        items: items,
        filter: None,
        matching: matching_of(items, None),
        cursor: 0,
        scroll: 0,
        height: height,
        width: width,
    }
}

impl<C: ListItem, L: ListItem> SessionModel<C, L> {
    /// The stack is never empty and each view's list keeps its invariant.
    pub open spec fn wf(self) -> bool {
        &&& self.views.len() > 0
        &&& forall|i: int| 0 <= i < self.views.len() ==> (#[trigger] self.views[i]).wf()
    }

    /// The current view.
    pub open spec fn top(self) -> NeubautenView<C, L> {
        self.views.last()
    }

    /// `next` is this state with `step` applied to the current view's list.
    pub open spec fn top_stepped(self, step: ListStep, next: Self) -> bool {
        &&& next.views.len() == self.views.len()
        &&& next.views.drop_last() == self.views.drop_last()
        &&& self.top().stepped(step, next.top())
        &&& next.queue == self.queue
        &&& next.current == self.current
        &&& next.height == self.height
        &&& next.width == self.width
    }

    /// The entry for the selected item of a leaf view.
    pub open spec fn selected_entry(container: C, list: ListModel<L>) -> PlaybackTrack<C, L> {
        PlaybackTrack {
            container: container,
            track: list.items[list.selected_index() as int],
            index: list.selected_index(),
        }
    }

    /// `next` is this state with a leaf view of `container` over `items`
    /// pushed on the stack; the view beneath it loses its filter if it has
    /// one, and is left as it was otherwise.
    pub open spec fn entered(self, container: C, items: Seq<L>, next: Self) -> bool {
        &&& next.views.len() == self.views.len() + 1
        &&& next.views.subrange(0, self.views.len() - 1) == self.views.drop_last()
        &&& if self.top().filtered() {
            self.top().stepped(ListStep::Filter(None), next.views[self.views.len() - 1])
        } else {
            next.views[self.views.len() - 1] == self.top()
        }
        &&& match next.top() {
            NeubautenView::TrackView(c, list) => c == container && list@ == fresh_list(
                items,
                self.height,
                self.width,
            ),
            _ => false,
        }
        &&& next.queue == self.queue
        &&& next.current == self.current
        &&& next.height == self.height
        &&& next.width == self.width
    }

    /// `next` and `effect` are what `action` makes of this state.
    pub open spec fn applied(self, action: ActionView, next: Self, effect: Effect<C, L>) -> bool {
        match action {
            ActionView::Select => match self.top() {
                NeubautenView::PlaylistView(list) => next == self && effect == if list@.matching.len()
                    > 0 {
                    Effect::OpenContainer(list@.items[list@.selected_index() as int])
                } else {
                    Effect::<C, L>::Nothing
                },
                NeubautenView::TrackView(c, list) => if list@.matching.len() > 0 {
                    let entry = Self::selected_entry(c, list@);
                    &&& next == SessionModel { current: Some(entry), ..self }
                    &&& effect == Effect::<C, L>::Play(entry.track)
                } else {
                    next == self && effect == Effect::<C, L>::Nothing
                },
            },
            ActionView::PlayNextTrack => if self.queue.len() > 0 {
                &&& next == SessionModel {
                    queue: self.queue.drop_first(),
                    current: Some(self.queue[0]),
                    ..self
                }
                &&& effect == Effect::<C, L>::Play(self.queue[0].track)
            } else {
                match self.current {
                    Some(p) => if p.index < usize::MAX {
                        next == self && effect == Effect::<C, L>::FetchTrack(
                            p.container,
                            (p.index + 1) as usize,
                        )
                    } else {
                        next == SessionModel { current: None, ..self } && effect
                            == Effect::<C, L>::Nothing
                    },
                    None => next == self && effect == Effect::<C, L>::Nothing,
                }
            },
            ActionView::QueueTrack => effect == Effect::<C, L>::Nothing && match self.top() {
                NeubautenView::TrackView(c, list) => if list@.matching.len() > 0 {
                    next == SessionModel {
                        queue: self.queue.push(Self::selected_entry(c, list@)),
                        ..self
                    }
                } else {
                    next == self
                },
                _ => next == self,
            },
            ActionView::TogglePlayback => next == self && effect == Effect::<C, L>::TogglePlayback,
            ActionView::MoveBottom => self.top_stepped(ListStep::Bottom, next) && effect
                == Effect::<C, L>::Nothing,
            ActionView::MoveDown => self.top_stepped(ListStep::Down, next) && effect
                == Effect::<C, L>::Nothing,
            ActionView::MoveTop => self.top_stepped(ListStep::Top, next) && effect
                == Effect::<C, L>::Nothing,
            ActionView::MoveUp => self.top_stepped(ListStep::Up, next) && effect
                == Effect::<C, L>::Nothing,
            ActionView::Back => effect == Effect::<C, L>::Nothing && if self.top().filtered() {
                self.top_stepped(ListStep::Filter(None), next)
            } else if self.views.len() > 1 {
                next == SessionModel { views: self.views.drop_last(), ..self }
            } else {
                next == self
            },
            ActionView::Quit => next == self && effect == Effect::<C, L>::Quit,
            ActionView::FilterList(f) => self.top_stepped(ListStep::Filter(Some(f)), next) && effect
                == Effect::<C, L>::Nothing,
            ActionView::SearchTrack(f) => self.top_stepped(ListStep::Filter(Some(f)), next)
                && effect == Effect::<C, L>::Nothing,
            ActionView::Noop => next == self && effect == Effect::<C, L>::Nothing,
        }
    }
}

/// Back never empties the stack: on a single view with no filter it leaves
/// the state as it is, and otherwise at least one view stays.
pub proof fn lemma_back_keeps_a_view<C: ListItem, L: ListItem>(
    s: SessionModel<C, L>,
    next: SessionModel<C, L>,
    effect: Effect<C, L>,
)
    requires
        s.wf(),
        s.applied(ActionView::Back, next, effect),
    ensures
        next.views.len() >= 1,
        s.views.len() == 1 && !s.top().filtered() ==> next == s,
{
}

/// On a leaf view with a selected item and an empty queue, queueing the
/// item and then asking for the next track plays that item first, from its
/// container and position, and leaves the queue empty again.
pub proof fn lemma_queued_track_plays_first<C: ListItem, L: ListItem>(
    s: SessionModel<C, L>,
    queued: SessionModel<C, L>,
    e1: Effect<C, L>,
    played: SessionModel<C, L>,
    e2: Effect<C, L>,
)
    requires
        s.wf(),
        s.queue.len() == 0,
        s.applied(ActionView::QueueTrack, queued, e1),
        queued.applied(ActionView::PlayNextTrack, played, e2),
        match s.top() {
            NeubautenView::TrackView(_, list) => list@.matching.len() > 0,
            _ => false,
        },
    ensures
        match s.top() {
            NeubautenView::TrackView(c, list) => {
                let entry = SessionModel::<C, L>::selected_entry(c, list@);
                &&& e2 == Effect::<C, L>::Play(entry.track)
                &&& played.current == Some(entry)
                &&& played.queue.len() == 0
                &&& played.views == s.views
            },
            _ => false,
        },
{
    match s.top() {
        NeubautenView::TrackView(c, list) => {
            let entry = SessionModel::<C, L>::selected_entry(c, list@);
            assert(queued.queue =~= seq![entry]);
            assert(played.queue =~= Seq::<PlaybackTrack<C, L>>::empty());
        },
        _ => {},
    }
}

impl<C: ListItem, L: ListItem> SessionState<C, L> {
    /// A session showing `containers` at the top level; every list it opens
    /// gets a viewport of `height` rows and `width` columns.
    pub fn new(containers: Vec<C>, height: usize, width: usize) -> (r: Self)
        ensures
            r@.wf(),
            r@.views.len() == 1,
            r@.queue.len() == 0,
            r@.current is None,
            r@.height == height,
            r@.width == width,
            match r@.views[0] {
                NeubautenView::PlaylistView(list) => list@ == fresh_list(
                    containers@,
                    height as nat,
                    width as nat,
                ),
                _ => false,
            },
    {
        let list = List::new(containers, height, width);
        let mut views: Vec<NeubautenView<C, L>> = Vec::new();
        views.push(NeubautenView::PlaylistView(list));
        SessionState {
            views: views,
            playback_queue: Vec::new(),
            current_track: None,
            height: height,
            width: width,
        }
    }

    /// Takes the current view off the stack.
    fn take_current(&mut self) -> (v: NeubautenView<C, L>)
        requires
            old(self)@.wf(),
        ensures
            v == old(self)@.top(),
            v.wf(),
            final(self)@ == (SessionModel { views: old(self)@.views.drop_last(), ..old(self)@ }),
    {
        let v = self.views.pop();
        v.unwrap()
    }

    /// Puts a view on top of the stack.
    fn push_view(&mut self, v: NeubautenView<C, L>)
        ensures
            final(self)@ == (SessionModel { views: old(self)@.views.push(v), ..old(self)@ }),
    {
        self.views.push(v);
    }

    /// Carries out `action` on the current view, the queue and what plays,
    /// and returns the outside work that it asks for.
    pub fn apply(&mut self, action: Action) -> (r: Effect<C, L>)
        requires
            old(self)@.wf(),
        ensures
            final(self)@.wf(),
            old(self)@.applied(action@, final(self)@, r),
    {
        let ghost start = self@;
        match action {
            Action::Select => {
                let current = self.take_current();
                let effect = match &current {
                    NeubautenView::PlaylistView(list) => {
                        if list.has_selection() {
                            Effect::OpenContainer(list.get_selected_item())
                        } else {
                            Effect::Nothing
                        }
                    },
                    NeubautenView::TrackView(container, list) => {
                        if list.has_selection() {
                            let track = list.get_selected_item();
                            let index = list.get_selected_index();
                            self.current_track = Some(
                                PlaybackTrack {
                                    container: container.duplicate(),
                                    track: track.duplicate(),
                                    index: index,
                                },
                            );
                            Effect::Play(track)
                        } else {
                            Effect::Nothing
                        }
                    },
                };
                self.push_view(current);
                assert(self@.views =~= start.views);
                effect
            },
            Action::PlayNextTrack => self.play_next_track(),
            Action::QueueTrack => {
                let current = self.take_current();
                match &current {
                    NeubautenView::TrackView(container, list) => {
                        if list.has_selection() {
                            let track = list.get_selected_item();
                            let index = list.get_selected_index();
                            self.playback_queue.push(
                                PlaybackTrack {
                                    container: container.duplicate(),
                                    track: track,
                                    index: index,
                                },
                            );
                        }
                    },
                    _ => {},
                }
                self.push_view(current);
                assert(self@.views =~= start.views);
                Effect::Nothing
            },
            Action::TogglePlayback => Effect::TogglePlayback,
            Action::MoveBottom => {
                let mut current = self.take_current();
                current.handle_bottom();
                self.push_view(current);
                assert(self@.views.drop_last() =~= start.views.drop_last());
                Effect::Nothing
            },
            Action::MoveDown => {
                let mut current = self.take_current();
                current.handle_down();
                self.push_view(current);
                assert(self@.views.drop_last() =~= start.views.drop_last());
                Effect::Nothing
            },
            Action::MoveTop => {
                let mut current = self.take_current();
                current.handle_top();
                self.push_view(current);
                assert(self@.views.drop_last() =~= start.views.drop_last());
                Effect::Nothing
            },
            Action::MoveUp => {
                let mut current = self.take_current();
                current.handle_up();
                self.push_view(current);
                assert(self@.views.drop_last() =~= start.views.drop_last());
                Effect::Nothing
            },
            Action::Back => {
                let mut current = self.take_current();
                if current.has_filter() {
                    current.clear_filter();
                    self.push_view(current);
                    assert(self@.views.drop_last() =~= start.views.drop_last());
                } else if self.views.len() == 0 {
                    self.push_view(current);
                    assert(self@.views =~= start.views);
                }
                Effect::Nothing
            },
            Action::Quit => Effect::Quit,
            Action::FilterList(filter) => {
                let mut current = self.take_current();
                current.set_filter(filter.as_str());
                self.push_view(current);
                assert(self@.views.drop_last() =~= start.views.drop_last());
                Effect::Nothing
            },
            Action::SearchTrack(filter) => {
                let mut current = self.take_current();
                current.set_filter(filter.as_str());
                self.push_view(current);
                assert(self@.views.drop_last() =~= start.views.drop_last());
                Effect::Nothing
            },
            Action::Noop => Effect::Nothing,
        }
    }

    /// Opens a leaf view of `container` over `tracks`, the items fetched for
    /// it, on top of the current view, whose filter, if any, is cleared.
    pub fn enter_container(&mut self, container: C, tracks: Vec<L>)
        requires
            old(self)@.wf(),
        ensures
            final(self)@.wf(),
            old(self)@.entered(container, tracks@, final(self)@),
    {
        let ghost start = self@;
        let mut current = self.take_current();
        if current.has_filter() {
            current.clear_filter();
        }
        self.push_view(current);
        let list = List::new(tracks, self.height, self.width);
        self.push_view(NeubautenView::TrackView(container, list));
        assert(self@.views.subrange(0, start.views.len() - 1) =~= start.views.drop_last());
    }

    /// Hands over the outcome of an `Effect::FetchTrack`: the item found at
    /// `index` of `container` starts playing; where there is none, nothing
    /// plays any more.
    pub fn next_track_fetched(&mut self, container: C, index: usize, track: Option<L>) -> (r: Effect<
        C,
        L,
    >)
        requires
            old(self)@.wf(),
        ensures
            final(self)@.wf(),
            match track {
                Some(t) => {
                    &&& final(self)@ == (SessionModel {
                        current: Some(PlaybackTrack { container: container, track: t, index: index }),
                        ..old(self)@
                    })
                    &&& r == Effect::<C, L>::Play(t)
                },
                None => final(self)@ == (SessionModel { current: None, ..old(self)@ }) && r
                    == Effect::<C, L>::Nothing,
            },
    {
        match track {
            Some(t) => {
                let playing = t.duplicate();
                self.current_track = Some(
                    PlaybackTrack { container: container, track: playing, index: index },
                );
                Effect::Play(t)
            },
            None => {
                self.current_track = None;
                Effect::Nothing
            },
        }
    }

    /// How many views are on the stack.
    pub fn depth(&self) -> (r: usize)
        ensures
            r == self@.views.len(),
    {
        self.views.len()
    }

    /// How many items wait in the queue.
    pub fn queue_len(&self) -> (r: usize)
        ensures
            r == self@.queue.len(),
    {
        self.playback_queue.len()
    }

    /// What plays now, if anything.
    pub fn current_track(&self) -> (r: Option<&PlaybackTrack<C, L>>)
        ensures
            match r {
                Some(p) => self@.current == Some(*p),
                None => self@.current is None,
            },
    {
        self.current_track.as_ref()
    }

    /// The current view.
    pub fn current_view(&self) -> (r: &NeubautenView<C, L>)
        requires
            self@.wf(),
        ensures
            *r == self@.top(),
    {
        &self.views[self.views.len() - 1]
    }

    /// The lines to draw for the current view.
    pub fn visible_rows(&mut self) -> (r: Vec<Row>)
        requires
            old(self)@.wf(),
        ensures
            final(self)@ == old(self)@,
            match old(self)@.top() {
                NeubautenView::PlaylistView(list) => list@.shows(r@),
                NeubautenView::TrackView(_, list) => list@.shows(r@),
            },
    {
        let ghost start = self@;
        let mut current = self.take_current();
        let rows = current.visible_rows();
        self.push_view(current);
        assert(self@.views =~= start.views);
        rows
    }

    /// The queue first; else the item after the one playing, in its
    /// container.
    fn play_next_track(&mut self) -> (r: Effect<C, L>)
        requires
            old(self)@.wf(),
        ensures
            final(self)@.wf(),
            old(self)@.applied(ActionView::PlayNextTrack, final(self)@, r),
    {
        if self.playback_queue.len() > 0 {
            let next = self.playback_queue.remove(0);
            let track = next.track.duplicate();
            self.current_track = Some(next);
            Effect::Play(track)
        } else {
            match &self.current_track {
                Some(playing) => {
                    if playing.index < usize::MAX {
                        Effect::FetchTrack(playing.container.duplicate(), playing.index + 1)
                    } else {
                        self.current_track = None;
                        Effect::Nothing
                    }
                },
                None => Effect::Nothing,
            }
        }
    }
}

} // verus!
