use vstd::prelude::*;

use crate::item::ListItem;

verus! {

/// Whether `filter` occurs in `text` as a subsequence: its characters are
/// consumed one at a time, each at its next occurrence in what is left of
/// the text.
pub open spec fn matches_filter(text: Seq<char>, filter: Seq<char>) -> bool
    decreases text.len(),
{
    if filter.len() == 0 {
        true
    } else if text.len() == 0 {
        false
    } else if text[0] == filter[0] {
        matches_filter(text.drop_first(), filter.drop_first())
    } else {
        matches_filter(text.drop_first(), filter)
    }
}

/// Whether an item with line `text` passes an optional filter; no filter
/// lets every item through.
pub open spec fn item_matches(text: Seq<char>, filter: Option<Seq<char>>) -> bool {
    match filter {
        Some(f) => matches_filter(text, f),
        None => true,
    }
}

/// The indexes, in order, of those of the first `n` items that pass `filter`.
pub open spec fn matching_upto<T: ListItem>(
    items: Seq<T>,
    filter: Option<Seq<char>>,
    n: int,
) -> Seq<usize>
    decreases n,
{
    if n <= 0 {
        Seq::empty()
    } else {
        let prev = matching_upto(items, filter, n - 1);
        if item_matches(items[n - 1].label(), filter) {
            prev.push((n - 1) as usize)
        } else {
            prev
        }
    }
}

/// The indexes, in order, of the items that pass `filter`.
pub open spec fn matching_of<T: ListItem>(items: Seq<T>, filter: Option<Seq<char>>) -> Seq<usize> {
    matching_upto(items, filter, items.len() as int)
}

/// The view of an optional filter string.
pub open spec fn filter_view(filter: Option<String>) -> Option<Seq<char>> {
    match filter {
        Some(f) => Some(f@),
        None => None,
    }
}

/// A line drawn for an item: one leading space, the item's text, and spaces
/// up to `width` characters.
pub open spec fn row_text(label: Seq<char>, width: nat) -> Seq<char> {
    let pad: int = width - 1 - label.len();
    seq![' '] + label + Seq::new(if pad > 0 { pad as nat } else { 0 }, |k: int| ' ')
}

/// What the contracts of `List` speak of: the items, the active filter, the
/// indexes of the items that pass it, the cursor (a position among those
/// indexes), the first of them that is visible, and the viewport's size.
pub struct ListModel<T> {
    pub items: Seq<T>,
    pub filter: Option<Seq<char>>,
    pub matching: Seq<usize>,
    pub cursor: nat,
    pub scroll: nat,
    pub height: nat,
    pub width: nat,
}

impl<T: ListItem> ListModel<T> {
    /// Rows that the cursor may take in the viewport; a viewport of no rows
    /// still keeps the cursor on its first line.
    pub open spec fn rows(self) -> nat {
        if self.height == 0 {
            1
        } else {
            self.height
        }
    }

    pub open spec fn wf(self) -> bool {
        &&& self.matching == matching_of(self.items, self.filter)
        &&& self.matching.len() == 0 ==> self.cursor == 0
        &&& self.matching.len() > 0 ==> self.cursor < self.matching.len()
        &&& self.scroll <= self.cursor < self.scroll + self.rows()
    }

    /// The index into `items` of the selected item.
    pub open spec fn selected_index(self) -> usize {
        self.matching[self.cursor as int]
    }

    /// The cursor one place further down, the viewport following it by one
    /// row where it would leave it.
    pub open spec fn moved_down(self) -> Self {
        if self.cursor + 1 < self.matching.len() {
            let c = self.cursor + 1;
            ListModel {
                cursor: c,
                scroll: if c >= self.scroll + self.rows() {
                    self.scroll + 1
                } else {
                    self.scroll
                },
                ..self
            }
        } else {
            self
        }
    }

    /// The cursor one place further up, the viewport following it by one
    /// row where it would leave it.
    pub open spec fn moved_up(self) -> Self {
        if self.cursor > 0 {
            let c = (self.cursor - 1) as nat;
            ListModel {
                cursor: c,
                scroll: if c < self.scroll {
                    (self.scroll - 1) as nat
                } else {
                    self.scroll
                },
                ..self
            }
        } else {
            self
        }
    }

    /// The cursor on the last matching item, the viewport scrolled as far as
    /// single steps down would take it.
    pub open spec fn at_bottom(self) -> Self {
        if self.matching.len() == 0 {
            self
        } else {
            let last = self.matching.len() - self.rows();
            ListModel {
                cursor: (self.matching.len() - 1) as nat,
                scroll: if last > self.scroll {
                    last as nat
                } else {
                    self.scroll
                },
                ..self
            }
        }
    }

    /// The cursor and the viewport on the first matching item.
    pub open spec fn at_top(self) -> Self {
        ListModel { cursor: 0, scroll: 0, ..self }
    }

    /// How many rows are drawn: the matching items from the first visible
    /// one on, at most `height` of them.
    pub open spec fn visible_count(self) -> nat {
        let left: int = self.matching.len() - self.scroll;
        if left <= 0 {
            0
        } else if left < self.height {
            left as nat
        } else {
            self.height
        }
    }

    /// `rows` are the lines drawn for this list: as many as are visible, each
    /// the text of its matching item, the one under the cursor emphasized.
    pub open spec fn shows(self, rows: Seq<Row>) -> bool {
        &&& rows.len() == self.visible_count()
        &&& forall|k: int|
            #![trigger rows[k]]
            0 <= k < rows.len() ==> {
                &&& rows[k].text@ == row_text(
                    self.items[self.matching[self.scroll + k] as int].label(),
                    self.width,
                )
                &&& rows[k].emphasized == (self.scroll + k == self.cursor)
            }
    }

    /// The list under another filter, cursor and viewport back at the top.
    pub open spec fn filtered(self, filter: Option<Seq<char>>) -> Self {
        ListModel {
            filter: filter,
            matching: matching_of(self.items, filter),
            cursor: 0,
            scroll: 0,
            ..self
        }
    }
}

/// A change of cursor or filter, as the contracts of views speak of it.
pub enum ListStep {
    Down,
    Up,
    Top,
    Bottom,
    Filter(Option<Seq<char>>),
}

impl<T: ListItem> ListModel<T> {
    /// The list after `step`.
    pub open spec fn after(self, step: ListStep) -> Self {
        match step {
            ListStep::Down => self.moved_down(),
            ListStep::Up => self.moved_up(),
            ListStep::Top => self.at_top(),
            ListStep::Bottom => self.at_bottom(),
            ListStep::Filter(f) => self.filtered(f),
        }
    }
}

/// One line of a list as it is drawn.
pub struct Row {
    pub text: String,
    /// Whether the line is the one under the cursor.
    pub emphasized: bool,
}

/// A scrollable list of items with an optional filter and one selected item.
pub struct List<T: ListItem> {
    /// Container for all of the items that should be displayed.
    items: Vec<T>,
    cursor_index: usize,
    width: usize,
    height: usize,
    /// Indexes of the `items` that match the `current_filter`.
    matching_indexes: Vec<usize>,
    /// Position among the matching items of the first one on screen.
    print_from_index: usize,
    current_filter: Option<String>,
}

impl<T: ListItem> View for List<T> {
    type V = ListModel<T>;

    closed spec fn view(&self) -> ListModel<T> {
        ListModel {
            items: self.items@,
            filter: filter_view(self.current_filter),
            matching: self.matching_indexes@,
            cursor: self.cursor_index as nat,
            scroll: self.print_from_index as nat,
            height: self.height as nat,
            width: self.width as nat,
        }
    }
}

impl<T: ListItem> List<T> {
    /// A list of `items` under no filter, its cursor on the first item.
    pub fn new(items: Vec<T>, height: usize, width: usize) -> (r: Self)
        ensures
            r@.wf(),
            r@ == (ListModel {
                items: items@,
                filter: None,
                matching: matching_of(items@, None),
                cursor: 0,
                scroll: 0,
                height: height as nat,
                width: width as nat,
            }),
    {
        let mut list = List {
            items: items,
            cursor_index: 0,
            width: width,
            height: height,
            matching_indexes: Vec::new(),
            print_from_index: 0,
            current_filter: None,
        };
        list.update_matches();
        list
    }

    fn update_matches(&mut self)
        ensures
            final(self)@ == (ListModel { matching: matching_of(old(self)@.items, old(self)@.filter), ..old(self)@ }),
    {
        let mut matching: Vec<usize> = Vec::new();
        let n = self.items.len();
        let mut index: usize = 0;
        while index < n
            invariant
                n == self.items@.len(),
                index <= n,
                matching@ == matching_upto(self.items@, filter_view(self.current_filter), index as int),
            decreases n - index,
        {
            if Self::does_item_match_filter(&self.items[index], &self.current_filter) {
                matching.push(index);
            }
            index = index + 1;
        }
        self.matching_indexes = matching;
    }

    /// Replaces the filter; the cursor and the viewport go back to the top.
    pub fn set_filter(&mut self, value: &str)
        requires
            old(self)@.wf(),
        ensures
            final(self)@.wf(),
            final(self)@ == old(self)@.filtered(Some(value@)),
    {
        self.cursor_index = 0;
        self.print_from_index = 0;
        self.current_filter = Some(value.to_owned());
        self.update_matches();
    }

    /// Removes the filter; the cursor and the viewport go back to the top.
    pub fn clear_filter(&mut self)
        requires
            old(self)@.wf(),
        ensures
            final(self)@.wf(),
            final(self)@ == old(self)@.filtered(None),
    {
        self.cursor_index = 0;
        self.print_from_index = 0;
        self.current_filter = None;
        self.update_matches();
    }

    /// Whether a filter is active.
    pub fn has_filter(&self) -> (r: bool)
        ensures
            r == self@.filter is Some,
    {
        self.current_filter.is_some()
    }

    /// Whether some item passes the filter, so that there is a selection.
    pub fn has_selection(&self) -> (r: bool)
        ensures
            r == (self@.matching.len() > 0),
    {
        self.matching_indexes.len() > 0
    }

    pub fn handle_down(&mut self)
        requires
            old(self)@.wf(),
        ensures
            final(self)@.wf(),
            final(self)@ == old(self)@.moved_down(),
    {
        if !self.is_cursor_at_last_item() {
            assert(self.cursor_index + 1 < self.matching_indexes.len());
            self.cursor_index = self.cursor_index + 1;
            if self.is_cursor_out_of_screen() {
                self.print_from_index = self.print_from_index + 1;
            }
        }
    }

    pub fn handle_up(&mut self)
        requires
            old(self)@.wf(),
        ensures
            final(self)@.wf(),
            final(self)@ == old(self)@.moved_up(),
    {
        if self.cursor_index > 0 {
            self.cursor_index = self.cursor_index - 1;
        }
        if self.is_cursor_out_of_screen() {
            self.print_from_index = self.print_from_index - 1;
        }
    }

    /// Moves down one step at a time until the cursor is on the last
    /// matching item.
    pub fn handle_bottom(&mut self)
        requires
            old(self)@.wf(),
        ensures
            final(self)@.wf(),
            final(self)@ == old(self)@.at_bottom(),
    {
        let ghost start = self@;
        while !self.is_cursor_at_last_item()
            invariant
                self@.wf(),
                start.wf(),
                start.matching.len() > 0 ==> start.cursor <= self@.cursor,
                self@ == (ListModel {
                    cursor: self@.cursor,
                    scroll: if self@.cursor + 1 - start.rows() > start.scroll {
                        (self@.cursor + 1 - start.rows()) as nat
                    } else {
                        start.scroll
                    },
                    ..start
                }),
            decreases self@.matching.len() - self@.cursor,
        {
            self.handle_down();
        }
    }

    /// Moves up one step at a time until the cursor is on the first matching
    /// item.
    pub fn handle_top(&mut self)
        requires
            old(self)@.wf(),
        ensures
            final(self)@.wf(),
            final(self)@ == old(self)@.at_top(),
    {
        let ghost start = self@;
        while self.cursor_index > 0
            invariant
                self@.wf(),
                start.wf(),
                self@.cursor <= start.cursor,
                self@ == (ListModel {
                    cursor: self@.cursor,
                    scroll: if start.scroll < self@.cursor {
                        start.scroll
                    } else {
                        self@.cursor
                    },
                    ..start
                }),
            decreases self@.cursor,
        {
            self.handle_up();
        }
    }

    /// The index into the items of the selected item.
    pub fn get_selected_index(&self) -> (r: usize)
        requires
            self@.wf(),
            self@.matching.len() > 0,
        ensures
            r == self@.selected_index(),
            r < self@.items.len(),
    {
        proof {
            lemma_matching_bounded(self@.items, self@.filter, self@.items.len() as int);
        }
        self.matching_indexes[self.cursor_index]
    }

    /// A copy of the selected item.
    pub fn get_selected_item(&self) -> (r: T)
        requires
            self@.wf(),
            self@.matching.len() > 0,
        ensures
            r == self@.items[self@.selected_index() as int],
    {
        let index = self.get_selected_index();
        self.items[index].duplicate()
    }

    fn is_cursor_out_of_screen(&self) -> (r: bool)
        ensures
            r == (self@.cursor < self@.scroll || self@.cursor >= self@.scroll + self@.rows()),
    {
        let rows: usize = if self.height == 0 {
            1
        } else {
            self.height
        };
        self.cursor_index < self.print_from_index || self.cursor_index - self.print_from_index >= rows
    }

    fn is_cursor_at_last_item(&self) -> (r: bool)
        ensures
            r == (self@.cursor + 1 >= self@.matching.len()),
    {
        self.cursor_index >= self.matching_indexes.len() || self.cursor_index + 1
            == self.matching_indexes.len()
    }

    /// The lines to draw: at most `height` of the matching items from the
    /// first visible one on, the one under the cursor emphasized. With
    /// `reset_cursor` the cursor and the viewport first go back to the top.
    /// An empty list draws nothing and stays as it is.
    pub fn visible_rows(&mut self, reset_cursor: bool) -> (r: Vec<Row>)
        requires
            old(self)@.wf(),
        ensures
            final(self)@.wf(),
            final(self)@ == if reset_cursor && old(self)@.items.len() > 0 {
                old(self)@.at_top()
            } else {
                old(self)@
            },
            !reset_cursor ==> *final(self) == *old(self),
            final(self)@.shows(r@),
    {
        let mut rows: Vec<Row> = Vec::new();
        if self.items.len() == 0 {
            return rows;
        }
        if reset_cursor {
            self.cursor_index = 0;
            self.print_from_index = 0;
        }
        proof {
            lemma_matching_bounded(self@.items, self@.filter, self@.items.len() as int);
        }
        let left = self.matching_indexes.len() - self.print_from_index;
        let count = if left < self.height {
            left
        } else {
            self.height
        };
        let mut k: usize = 0;
        while k < count
            invariant
                self@.wf(),
                k <= count,
                count == self@.visible_count(),
                self.print_from_index + count <= self.matching_indexes.len(),
                forall|j: int|
                    0 <= j < self.matching_indexes@.len() ==> self.matching_indexes@[j]
                        < self.items@.len(),
                rows@.len() == k,
                forall|j: int|
                    #![trigger rows@[j]]
                    0 <= j < k ==> {
                        let m = self@;
                        &&& rows@[j].text@ == row_text(
                            m.items[m.matching[m.scroll + j] as int].label(),
                            m.width,
                        )
                        &&& rows@[j].emphasized == (m.scroll + j == m.cursor)
                    },
            decreases count - k,
        {
            let position = self.print_from_index + k;
            let index = self.matching_indexes[position];
            let label = self.items[index].text();
            let text = row_line(&label, self.width);
            rows.push(Row { text: text, emphasized: position == self.cursor_index });
            k = k + 1;
        }
        rows
    }

    /// Whether `item` passes `filter`; with no filter every item does.
    pub fn does_item_match_filter(item: &T, filter: &Option<String>) -> (r: bool)
        ensures
            r == item_matches(item.label(), filter_view(*filter)),
    {
        match filter {
            Some(f) => {
                let text = item.text();
                Self::does_string_match_filter(text.as_str(), f.as_str())
            },
            None => true,
        }
    }

    /// Whether `filter` occurs in `value` as a subsequence.
    pub fn does_string_match_filter(value: &str, filter: &str) -> (r: bool)
        ensures
            r == matches_filter(value@, filter@),
    {
        let n = value.unicode_len();
        let m = filter.unicode_len();
        let mut i: usize = 0;
        let mut j: usize = 0;
        assert(value@.subrange(0, n as int) =~= value@);
        assert(filter@.subrange(0, m as int) =~= filter@);
        while i < n && j < m
            invariant
                n == value@.len(),
                m == filter@.len(),
                i <= n,
                j <= m,
                matches_filter(value@, filter@) == matches_filter(
                    value@.subrange(i as int, n as int),
                    filter@.subrange(j as int, m as int),
                ),
            decreases n - i,
        {
            let c = value.get_char(i);
            let f = filter.get_char(j);
            proof {
                let t = value@.subrange(i as int, n as int);
                let g = filter@.subrange(j as int, m as int);
                assert(t.drop_first() =~= value@.subrange(i + 1, n as int));
                assert(g.drop_first() =~= filter@.subrange(j + 1, m as int));
                assert(t[0] == c);
                assert(g[0] == f);
            }
            if c == f {
                j = j + 1;
            }
            i = i + 1;
        }
        proof {
            if j < m {
                assert(value@.subrange(i as int, n as int).len() == 0);
            }
        }
        j == m
    }
}

/// Moving down and then up puts the cursor, and with it the selected item,
/// back where it was, wherever the cursor is not on the last matching item.
pub proof fn lemma_down_then_up<T: ListItem>(l: ListModel<T>)
    requires
        l.wf(),
        l.cursor + 1 < l.matching.len(),
    ensures
        l.moved_down().moved_up().cursor == l.cursor,
        l.moved_down().moved_up().selected_index() == l.selected_index(),
{
}

/// Moving up from the first matching item, or down from the last one,
/// changes nothing.
pub proof fn lemma_moves_stop_at_the_ends<T: ListItem>(l: ListModel<T>)
    requires
        l.wf(),
    ensures
        l.cursor == 0 ==> l.moved_up() == l,
        l.cursor + 1 == l.matching.len() ==> l.moved_down() == l,
{
}

/// Going to the bottom and then to the top lands on the first matching item;
/// going to the top and then to the bottom lands on the last one.
pub proof fn lemma_bottom_then_top<T: ListItem>(l: ListModel<T>)
    requires
        l.wf(),
        l.matching.len() > 0,
    ensures
        l.at_bottom().at_top().cursor == 0,
        l.at_bottom().at_top().selected_index() == l.matching[0],
        l.at_top().at_bottom().cursor == l.matching.len() - 1,
        l.at_top().at_bottom().selected_index() == l.matching.last(),
{
}

/// The empty filter occurs in every text.
pub proof fn lemma_empty_filter_matches(text: Seq<char>)
    ensures
        matches_filter(text, Seq::empty()),
{
}

/// A text is a filter that it passes.
pub proof fn lemma_full_text_matches(text: Seq<char>)
    ensures
        matches_filter(text, text),
    decreases text.len(),
{
    if text.len() > 0 {
        lemma_full_text_matches(text.drop_first());
    }
}

/// A filter that a text passes is no longer than the text, and one as long
/// as the text is the text itself.
pub proof fn lemma_match_is_no_longer(text: Seq<char>, filter: Seq<char>)
    requires
        matches_filter(text, filter),
    ensures
        filter.len() <= text.len(),
        filter.len() == text.len() ==> filter == text,
    decreases text.len(),
{
    if filter.len() > 0 {
        if text[0] == filter[0] {
            lemma_match_is_no_longer(text.drop_first(), filter.drop_first());
            if filter.len() == text.len() {
                assert(filter =~= text) by {
                    assert forall|k: int| 0 <= k < text.len() implies filter[k] == text[k] by {
                        if k > 0 {
                            assert(filter.drop_first()[k - 1] == text.drop_first()[k - 1]);
                        }
                    }
                }
            }
        } else {
            lemma_match_is_no_longer(text.drop_first(), filter);
        }
    } else if filter.len() == text.len() {
        assert(filter =~= text);
    }
}

/// A filter with the characters of a text in any other order, or any other
/// filter of the text's length, does not occur in it.
pub proof fn lemma_reordered_filter_fails(text: Seq<char>, filter: Seq<char>)
    requires
        filter.len() == text.len(),
        filter != text,
    ensures
        !matches_filter(text, filter),
{
    if matches_filter(text, filter) {
        lemma_match_is_no_longer(text, filter);
    }
}

/// An index below `n` is among the matching indexes of the first `n` items
/// exactly when its item passes the filter.
pub proof fn lemma_matching_contains<T: ListItem>(
    items: Seq<T>,
    filter: Option<Seq<char>>,
    n: int,
    i: int,
)
    requires
        0 <= i < n <= items.len(),
        items.len() <= usize::MAX,
    ensures
        matching_upto(items, filter, n).contains(i as usize) <==> item_matches(
            items[i].label(),
            filter,
        ),
    decreases n,
{
    let prev = matching_upto(items, filter, n - 1);
    lemma_matching_bounded(items, filter, n - 1);
    if i < n - 1 {
        lemma_matching_contains(items, filter, n - 1, i);
        if item_matches(items[n - 1].label(), filter) {
            assert(prev.push((n - 1) as usize)[prev.len() as int] != i as usize);
            if prev.contains(i as usize) {
                let k = choose|k: int| 0 <= k < prev.len() && prev[k] == i as usize;
                assert(prev.push((n - 1) as usize)[k] == i as usize);
            }
            let next = prev.push((n - 1) as usize);
            if next.contains(i as usize) {
                let k = choose|k: int| 0 <= k < next.len() && next[k] == i as usize;
                assert(prev[k] == i as usize);
            }
        }
    } else {
        if item_matches(items[n - 1].label(), filter) {
            assert(prev.push((n - 1) as usize)[prev.len() as int] == i as usize);
        }
    }
}

/// Under the empty filter every item matches, in order.
pub proof fn lemma_empty_filter_keeps_all<T: ListItem>(items: Seq<T>, n: int)
    requires
        0 <= n <= items.len(),
        items.len() <= usize::MAX,
    ensures
        matching_upto(items, Some(Seq::empty()), n) =~= Seq::new(n as nat, |k: int| k as usize),
    decreases n,
{
    if n > 0 {
        lemma_empty_filter_keeps_all(items, n - 1);
    }
}

/// Filtering a list: the empty filter keeps every item, an item's own text
/// keeps that item, and a filter of the same length as an item's text but
/// other than it (a reordering of its characters, say) leaves it out.
pub proof fn lemma_filter_law<T: ListItem>(items: Seq<T>, i: int, filter: Seq<char>)
    requires
        0 <= i < items.len(),
        items.len() <= usize::MAX,
    ensures
        matching_of(items, Some(Seq::empty())) == Seq::new(items.len(), |k: int| k as usize),
        matching_of(items, Some(items[i].label())).contains(i as usize),
        filter.len() == items[i].label().len() && filter != items[i].label() ==> !matching_of(
            items,
            Some(filter),
        ).contains(i as usize),
{
    lemma_empty_filter_keeps_all(items, items.len() as int);
    lemma_full_text_matches(items[i].label());
    lemma_matching_contains(items, Some(items[i].label()), items.len() as int, i);
    lemma_matching_contains(items, Some(filter), items.len() as int, i);
    if filter.len() == items[i].label().len() && filter != items[i].label() {
        lemma_reordered_filter_fails(items[i].label(), filter);
    }
}

/// The line drawn for an item with text `label` in a list `width` wide.
fn row_line(label: &String, width: usize) -> (r: String)
    ensures
        r@ == row_text(label@, width as nat),
{
    let mut line = String::new();
    crate::text::push_char(&mut line, ' ');
    let text = label.as_str();
    let n = text.unicode_len();
    let mut i: usize = 0;
    while i < n
        invariant
            n == text@.len(),
            text@ == label@,
            i <= n,
            line@ == seq![' '] + label@.subrange(0, i as int),
        decreases n - i,
    {
        crate::text::push_char(&mut line, text.get_char(i));
        i = i + 1;
        assert(line@ =~= seq![' '] + label@.subrange(0, i as int));
    }
    assert(label@.subrange(0, n as int) =~= label@);
    let pad: usize = if n < width && width - n > 1 {
        width - n - 1
    } else {
        0
    };
    let mut p: usize = 0;
    while p < pad
        invariant
            p <= pad,
            line@ == seq![' '] + label@ + Seq::new(p as nat, |k: int| ' '),
        decreases pad - p,
    {
        crate::text::push_char(&mut line, ' ');
        p = p + 1;
        assert(line@ =~= seq![' '] + label@ + Seq::new(p as nat, |k: int| ' '));
    }
    assert(Seq::new(pad as nat, |k: int| ' ') =~= Seq::new(
        if width - 1 - label@.len() > 0 {
            (width - 1 - label@.len()) as nat
        } else {
            0
        },
        |k: int| ' ',
    ));
    line
}

/// Every index in the matching prefix is below its length, and the indexes
/// are strictly increasing.
proof fn lemma_matching_bounded<T: ListItem>(items: Seq<T>, filter: Option<Seq<char>>, n: int)
    requires
        0 <= n <= items.len(),
    ensures
        forall|k: int|
            0 <= k < matching_upto(items, filter, n).len() ==> matching_upto(items, filter, n)[k] < n,
        matching_upto(items, filter, n).len() <= n,
    decreases n,
{
    if n > 0 {
        lemma_matching_bounded(items, filter, n - 1);
    }
}

} // verus!
