use vstd::prelude::*;

use crate::action;
use crate::action::ActionView;
use crate::event::{Event, Key};

verus! {

/// What feeding one event to the parser comes to.
#[derive(Debug, PartialEq)]
pub enum Action {
    NAction(action::Action),
    /// The keys so far begin a command but do not complete one.
    IncompleteSequence,
    /// Nothing was resolved: the keys match no command, or the event only
    /// changed the parser's state.
    NoMatch,
}

/// An `Action` of the parser in terms of `ActionView`.
pub enum ParsedView {
    NAction(ActionView),
    IncompleteSequence,
    NoMatch,
}

impl View for Action {
    type V = ParsedView;

    open spec fn view(&self) -> ParsedView {
        match self {
            Action::NAction(a) => ParsedView::NAction(a@),
            Action::IncompleteSequence => ParsedView::IncompleteSequence,
            Action::NoMatch => ParsedView::NoMatch,
        }
    }
}

/// Where keys go while a free-text argument is being typed.
#[derive(Clone, Copy, Debug, PartialEq, Eq, Structural)]
pub enum ArgumentType {
    FilterArgument,
    SearchArgument,
    NoArgument,
}

/// Turns key events into actions: vim-style key sequences, or a free-text
/// argument for a filter or a search.
pub struct CommandParser {
    input_sequence: Vec<char>,
    /// The text typed since `/` or `s`, until `Enter` resolves it or `Esc`
    /// drops it.
    argument: Vec<char>,
    argument_type: ArgumentType,
}

/// The state of the parser: the keys of a pending command, the argument
/// being typed, and whether one is.
pub struct ParserModel {
    pub sequence: Seq<char>,
    pub argument: Seq<char>,
    pub argument_type: ArgumentType,
}

impl View for CommandParser {
    type V = ParserModel;

    closed spec fn view(&self) -> ParserModel {
        ParserModel {
            sequence: self.input_sequence@,
            argument: self.argument@,
            argument_type: self.argument_type,
        }
    }
}

/// The registered commands in the order in which they are tried.
pub open spec fn command_table() -> Seq<(Seq<char>, ActionView)> {
    seq![
        (seq!['g', 'g'], ActionView::MoveTop),
        (seq!['j'], ActionView::MoveDown),
        (seq!['k'], ActionView::MoveUp),
        (seq!['G'], ActionView::MoveBottom),
        (seq!['q'], ActionView::QueueTrack),
        (seq!['e'], ActionView::Quit),
        (seq![' '], ActionView::TogglePlayback),
        (seq!['>'], ActionView::PlayNextTrack),
    ]
}

/// The action of the first command from position `i` of the table whose
/// keys are exactly `keys`.
pub open spec fn exact_command(keys: Seq<char>, i: int) -> Option<ActionView>
    decreases command_table().len() - i,
{
    if i < 0 || i >= command_table().len() {
        None
    } else if command_table()[i].0 == keys {
        Some(command_table()[i].1)
    } else {
        exact_command(keys, i + 1)
    }
}

/// Whether `keys` begin some command of the table.
pub open spec fn begins_command(keys: Seq<char>) -> bool {
    exists|i: int| 0 <= i < command_table().len() && keys.is_prefix_of(#[trigger] command_table()[i].0)
}

/// Matching the pending keys against the table: an exact match resolves
/// and clears them, a proper prefix of a command keeps them, anything else
/// clears them and matches nothing.
pub open spec fn resolve(p: ParserModel) -> (ParserModel, ParsedView) {
    match exact_command(p.sequence, 0) {
        Some(a) => (ParserModel { sequence: Seq::empty(), ..p }, ParsedView::NAction(a)),
        None => if begins_command(p.sequence) {
            (p, ParsedView::IncompleteSequence)
        } else {
            (ParserModel { sequence: Seq::empty(), ..p }, ParsedView::NoMatch)
        },
    }
}

/// One event while an argument is being typed.
pub open spec fn argument_step(p: ParserModel, e: Event) -> (ParserModel, ParsedView) {
    match e {
        Event::KeyEvent(Key::Char(c)) => (
            ParserModel { argument: p.argument.push(c), ..p },
            ParsedView::NoMatch,
        ),
        Event::KeyEvent(Key::Backspace) => if p.argument.len() > 0 {
            (ParserModel { argument: p.argument.drop_last(), ..p }, ParsedView::NoMatch)
        } else {
            (ParserModel { argument_type: ArgumentType::NoArgument, ..p }, ParsedView::NoMatch)
        },
        Event::KeyEvent(Key::Enter) => (
            ParserModel { argument: Seq::empty(), argument_type: ArgumentType::NoArgument, ..p },
            ParsedView::NAction(
                if p.argument_type == ArgumentType::FilterArgument {
                    ActionView::FilterList(p.argument)
                } else {
                    ActionView::SearchTrack(p.argument)
                },
            ),
        ),
        Event::KeyEvent(Key::Esc) => (
            ParserModel {
                sequence: Seq::empty(),
                argument: Seq::empty(),
                argument_type: ArgumentType::NoArgument,
            },
            ParsedView::NoMatch,
        ),
        _ => (p, ParsedView::NoMatch),
    }
}

/// One event while no argument is being typed.
pub open spec fn sequence_step(p: ParserModel, e: Event) -> (ParserModel, ParsedView) {
    match e {
        Event::KeyEvent(Key::Char('/')) => (
            ParserModel { argument_type: ArgumentType::FilterArgument, ..p },
            ParsedView::NoMatch,
        ),
        Event::KeyEvent(Key::Char('s')) => (
            ParserModel { argument_type: ArgumentType::SearchArgument, ..p },
            ParsedView::NoMatch,
        ),
        Event::KeyEvent(Key::Char(c)) => resolve(ParserModel { sequence: p.sequence.push(c), ..p }),
        Event::KeyEvent(Key::Enter) => (
            ParserModel { sequence: Seq::empty(), ..p },
            ParsedView::NAction(ActionView::Select),
        ),
        Event::KeyEvent(Key::Esc) => if p.sequence.len() == 0 {
            (p, ParsedView::NAction(ActionView::Back))
        } else {
            (ParserModel { sequence: Seq::empty(), ..p }, ParsedView::NoMatch)
        },
        _ => (p, ParsedView::NAction(ActionView::Noop)),
    }
}

/// The parser's next state and what it reports, for one event.
pub open spec fn parse_step(p: ParserModel, e: Event) -> (ParserModel, ParsedView) {
    if p.argument_type == ArgumentType::NoArgument {
        sequence_step(p, e)
    } else {
        argument_step(p, e)
    }
}

/// Escape aborts a pending key sequence: it resolves to nothing, and the
/// event after it is read as though no keys had been pending.
pub proof fn lemma_escape_aborts_sequence(p: ParserModel, next: Event)
    requires
        p.argument_type == ArgumentType::NoArgument,
        p.sequence.len() > 0,
    ensures
        parse_step(p, Event::KeyEvent(Key::Esc)).1 == ParsedView::NoMatch,
        parse_step(p, Event::KeyEvent(Key::Esc)).0 == (ParserModel { sequence: Seq::empty(), ..p }),
        parse_step(parse_step(p, Event::KeyEvent(Key::Esc)).0, next) == parse_step(
            ParserModel { sequence: Seq::empty(), ..p },
            next,
        ),
{
}

/// Whether `keys` begin with `prefix`.
fn starts_with(keys: &Vec<char>, prefix: &Vec<char>) -> (r: bool)
    ensures
        r == prefix@.is_prefix_of(keys@),
{
    if prefix.len() > keys.len() {
        return false;
    }
    let mut i: usize = 0;
    while i < prefix.len()
        invariant
            prefix@.len() <= keys@.len(),
            i <= prefix@.len(),
            forall|k: int| 0 <= k < i ==> prefix@[k] == keys@[k],
        decreases prefix.len() - i,
    {
        if prefix[i] != keys[i] {
            return false;
        }
        i = i + 1;
    }
    true
}

/// The command table as values.
fn registered_commands() -> (r: Vec<(Vec<char>, action::Action)>)
    ensures
        r@.len() == command_table().len(),
        forall|i: int|
            0 <= i < r@.len() ==> #[trigger] r@[i].0@ == command_table()[i].0 && r@[i].1@
                == command_table()[i].1,
{
    let r = vec![
        (vec!['g', 'g'], action::Action::MoveTop),
        (vec!['j'], action::Action::MoveDown),
        (vec!['k'], action::Action::MoveUp),
        (vec!['G'], action::Action::MoveBottom),
        (vec!['q'], action::Action::QueueTrack),
        (vec!['e'], action::Action::Quit),
        (vec![' '], action::Action::TogglePlayback),
        (vec!['>'], action::Action::PlayNextTrack),
    ];
    assert(r@[0].0@ =~= seq!['g', 'g']);
    assert(r@[1].0@ =~= seq!['j']);
    assert(r@[2].0@ =~= seq!['k']);
    assert(r@[3].0@ =~= seq!['G']);
    assert(r@[4].0@ =~= seq!['q']);
    assert(r@[5].0@ =~= seq!['e']);
    assert(r@[6].0@ =~= seq![' ']);
    assert(r@[7].0@ =~= seq!['>']);
    r
}

impl CommandParser {
    /// A parser with nothing pending and no argument.
    pub fn new() -> (r: Self)
        ensures
            r@ == (ParserModel {
                sequence: Seq::empty(),
                argument: Seq::empty(),
                argument_type: ArgumentType::NoArgument,
            }),
    {
        CommandParser {
            input_sequence: Vec::new(),
            argument: Vec::new(),
            argument_type: ArgumentType::NoArgument,
        }
    }

    /// Takes one event while an argument is being typed.
    fn update_argument(&mut self, key_event: &Event) -> (r: Action)
        requires
            old(self)@.argument_type != ArgumentType::NoArgument,
        ensures
            (final(self)@, r@) == argument_step(old(self)@, *key_event),
    {
        match key_event {
            Event::KeyEvent(Key::Enter) => {
                let argument = crate::text::string_from_chars(&self.argument);
                let resolved = match self.argument_type {
                    ArgumentType::FilterArgument => action::Action::FilterList(argument),
                    _ => action::Action::SearchTrack(argument),
                };
                self.argument_type = ArgumentType::NoArgument;
                self.argument.clear();
                Action::NAction(resolved)
            },
            Event::KeyEvent(Key::Esc) => {
                self.argument_type = ArgumentType::NoArgument;
                self.argument.clear();
                self.input_sequence.clear();
                Action::NoMatch
            },
            Event::KeyEvent(Key::Backspace) => {
                if self.argument.len() > 0 {
                    self.argument.pop();
                } else {
                    self.argument_type = ArgumentType::NoArgument;
                }
                Action::NoMatch
            },
            Event::KeyEvent(Key::Char(c)) => {
                self.argument.push(*c);
                Action::NoMatch
            },
            _ => Action::NoMatch,
        }
    }

    /// Which argument is being typed, if any.
    pub fn get_argument_type(&self) -> (r: ArgumentType)
        ensures
            r == self@.argument_type,
    {
        self.argument_type
    }

    /// The argument typed so far.
    pub fn get_argument(&self) -> (r: String)
        ensures
            r@ == self@.argument,
    {
        crate::text::string_from_chars(&self.argument)
    }

    /// Feeds one event to the parser.
    pub fn handle_input(&mut self, key_event: &Event) -> (r: Action)
        ensures
            (final(self)@, r@) == parse_step(old(self)@, *key_event),
    {
        match self.argument_type {
            ArgumentType::NoArgument => {},
            _ => {
                return self.update_argument(key_event);
            },
        }
        match key_event {
            Event::KeyEvent(Key::Char('/')) => {
                self.argument_type = ArgumentType::FilterArgument;
                Action::NoMatch
            },
            Event::KeyEvent(Key::Char('s')) => {
                self.argument_type = ArgumentType::SearchArgument;
                Action::NoMatch
            },
            Event::KeyEvent(Key::Char(c)) => {
                self.input_sequence.push(*c);
                self.parse_input_sequence()
            },
            Event::KeyEvent(Key::Enter) => {
                self.input_sequence.clear();
                Action::NAction(action::Action::Select)
            },
            Event::KeyEvent(Key::Esc) => {
                if self.input_sequence.len() == 0 {
                    Action::NAction(action::Action::Back)
                } else {
                    self.input_sequence.clear();
                    Action::NoMatch
                }
            },
            _ => Action::NAction(action::Action::Noop),
        }
    }

    /// Matches the pending keys against the command table.
    fn parse_input_sequence(&mut self) -> (r: Action)
        ensures
            (final(self)@, r@) == resolve(old(self)@),
    {
        let mut commands = registered_commands();
        let mut found_partial_match = false;
        let mut exact_match: Option<usize> = None;
        let mut i: usize = 0;
        while i < commands.len() && exact_match.is_none()
            invariant
                self@ == old(self)@,
                commands@.len() == command_table().len(),
                forall|k: int|
                    0 <= k < commands@.len() ==> #[trigger] commands@[k].0@ == command_table()[k].0
                        && commands@[k].1@ == command_table()[k].1,
                i <= commands@.len(),
                found_partial_match <==> exists|k: int|
                    0 <= k < i && self@.sequence.is_prefix_of(#[trigger] command_table()[k].0),
                match exact_match {
                    Some(e) => e < i && exact_command(self@.sequence, 0) == Some(
                        command_table()[e as int].1,
                    ),
                    None => exact_command(self@.sequence, 0) == exact_command(
                        self@.sequence,
                        i as int,
                    ),
                },
            decreases commands@.len() - i,
        {
            if starts_with(&commands[i].0, &self.input_sequence) {
                found_partial_match = true;
                if commands[i].0.len() == self.input_sequence.len() {
                    assert(commands@[i as int].0@ =~= self@.sequence);
                    exact_match = Some(i);
                }
            }
            proof {
                if exact_match.is_none() && command_table()[i as int].0 == self@.sequence {
                    assert(self@.sequence.is_prefix_of(command_table()[i as int].0));
                }
            }
            i = i + 1;
        }
        proof {
            if exact_match.is_none() {
                assert(exact_command(self@.sequence, i as int) == None::<ActionView>);
                if begins_command(self@.sequence) {
                    let k = choose|k: int|
                        0 <= k < command_table().len() && self@.sequence.is_prefix_of(
                            #[trigger] command_table()[k].0,
                        );
                    assert(0 <= k < i);
                }
            }
        }
        match exact_match {
            Some(e) => {
                self.input_sequence.clear();
                assert(commands@[e as int].0@ == command_table()[e as int].0);
                let (_, resolved) = commands.remove(e);
                assert(resolved@ == command_table()[e as int].1);
                assert(self@ == (ParserModel { sequence: Seq::empty(), ..old(self)@ }));
                Action::NAction(resolved)
            },
            None => {
                if found_partial_match {
                    Action::IncompleteSequence
                } else {
                    self.input_sequence.clear();
                    Action::NoMatch
                }
            },
        }
    }
}

} // verus!
