use vstd::prelude::*;

use crate::item::ListItem;
use crate::list::{List, ListStep, Row};

verus! {

/// One navigable screen: the list of containers at the top level, or the
/// leaf items of the container that was selected to reach it.
pub enum NeubautenView<C: ListItem, L: ListItem> {
    PlaylistView(List<C>),
    TrackView(C, List<L>),
}

impl<C: ListItem, L: ListItem> NeubautenView<C, L> {
    pub open spec fn wf(self) -> bool {
        match self {
            NeubautenView::PlaylistView(list) => list@.wf(),
            NeubautenView::TrackView(_, list) => list@.wf(),
        }
    }

    /// Whether the view's list has an active filter.
    pub open spec fn filtered(self) -> bool {
        match self {
            NeubautenView::PlaylistView(list) => list@.filter is Some,
            NeubautenView::TrackView(_, list) => list@.filter is Some,
        }
    }

    /// `next` is this view with `step` applied to its list.
    pub open spec fn stepped(self, step: ListStep, next: Self) -> bool {
        match (self, next) {
            (NeubautenView::PlaylistView(a), NeubautenView::PlaylistView(b)) => b@ == a@.after(step),
            (NeubautenView::TrackView(c, a), NeubautenView::TrackView(d, b)) => d == c && b@
                == a@.after(step),
            _ => false,
        }
    }

    pub fn handle_down(&mut self)
        requires
            old(self).wf(),
        ensures
            final(self).wf(),
            old(self).stepped(ListStep::Down, *final(self)),
    {
        match self {
            NeubautenView::PlaylistView(list) => list.handle_down(),
            NeubautenView::TrackView(_, list) => list.handle_down(),
        }
    }

    pub fn handle_up(&mut self)
        requires
            old(self).wf(),
        ensures
            final(self).wf(),
            old(self).stepped(ListStep::Up, *final(self)),
    {
        match self {
            NeubautenView::PlaylistView(list) => list.handle_up(),
            NeubautenView::TrackView(_, list) => list.handle_up(),
        }
    }

    pub fn handle_top(&mut self)
        requires
            old(self).wf(),
        ensures
            final(self).wf(),
            old(self).stepped(ListStep::Top, *final(self)),
    {
        match self {
            NeubautenView::PlaylistView(list) => list.handle_top(),
            NeubautenView::TrackView(_, list) => list.handle_top(),
        }
    }

    pub fn handle_bottom(&mut self)
        requires
            old(self).wf(),
        ensures
            final(self).wf(),
            old(self).stepped(ListStep::Bottom, *final(self)),
    {
        match self {
            NeubautenView::PlaylistView(list) => list.handle_bottom(),
            NeubautenView::TrackView(_, list) => list.handle_bottom(),
        }
    }

    pub fn set_filter(&mut self, value: &str)
        requires
            old(self).wf(),
        ensures
            final(self).wf(),
            old(self).stepped(ListStep::Filter(Some(value@)), *final(self)),
    {
        match self {
            NeubautenView::PlaylistView(list) => list.set_filter(value),
            NeubautenView::TrackView(_, list) => list.set_filter(value),
        }
    }

    pub fn clear_filter(&mut self)
        requires
            old(self).wf(),
        ensures
            final(self).wf(),
            old(self).stepped(ListStep::Filter(None), *final(self)),
    {
        match self {
            NeubautenView::PlaylistView(list) => list.clear_filter(),
            NeubautenView::TrackView(_, list) => list.clear_filter(),
        }
    }

    pub fn has_filter(&self) -> (r: bool)
        ensures
            r == self.filtered(),
    {
        match self {
            NeubautenView::PlaylistView(list) => list.has_filter(),
            NeubautenView::TrackView(_, list) => list.has_filter(),
        }
    }

    /// The lines to draw for the view's list, as `List::visible_rows` gives
    /// them without moving the cursor.
    pub fn visible_rows(&mut self) -> (r: Vec<Row>)
        requires
            old(self).wf(),
        ensures
            *final(self) == *old(self),
            match *old(self) {
                NeubautenView::PlaylistView(list) => list@.shows(r@),
                NeubautenView::TrackView(_, list) => list@.shows(r@),
            },
    {
        match self {
            NeubautenView::PlaylistView(list) => list.visible_rows(false),
            NeubautenView::TrackView(_, list) => list.visible_rows(false),
        }
    }
}

} // verus!
