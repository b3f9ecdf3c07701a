use vstd::prelude::*;

use crate::action::{Action, ActionView};
use crate::text::{push_char, push_str};

verus! {

/// The character of a decimal digit.
pub open spec fn digit_char(d: nat) -> char {
    seq!['0', '1', '2', '3', '4', '5', '6', '7', '8', '9'][d as int]
}

/// The decimal digits of `n`, most significant first.
pub open spec fn decimal(n: nat) -> Seq<char>
    decreases n,
{
    if n < 10 {
        seq![digit_char(n)]
    } else {
        decimal(n / 10).push(digit_char(n % 10))
    }
}

/// At least two decimal digits, with a leading zero below ten.
pub open spec fn two_digits(n: nat) -> Seq<char> {
    if n < 10 {
        seq!['0', digit_char(n)]
    } else {
        decimal(n)
    }
}

/// `n` spaces, none where `n` is not positive.
pub open spec fn spaces(n: int) -> Seq<char> {
    Seq::new(
        if n > 0 {
            n as nat
        } else {
            0
        },
        |k: int| ' ',
    )
}

/// What plays, with its length in minutes and seconds, or a dash.
pub open spec fn playback_summary(title: Option<Seq<char>>, seconds: nat) -> Seq<char> {
    match title {
        Some(t) => "Playback: "@ + t + " ["@ + decimal(seconds / 60) + seq![':'] + two_digits(
            seconds % 60,
        ) + seq![']'],
        None => "Playback: -"@,
    }
}

/// The status line: the playback summary, a pause mark where a track is
/// paused, and spaces up to `width`.
pub open spec fn status_text(
    title: Option<Seq<char>>,
    seconds: nat,
    playing: bool,
    width: nat,
) -> Seq<char> {
    let text = playback_summary(title, seconds) + if title is Some && !playing {
        "[Paused]"@
    } else {
        Seq::empty()
    };
    text + spaces(width - text.len())
}

/// The line under the status line: the filter that was last applied.
pub open spec fn command_text(last: ActionView) -> Seq<char> {
    match last {
        ActionView::FilterList(f) => "Filter: "@ + f,
        _ => Seq::empty(),
    }
}

fn digit(d: u64) -> (c: char)
    requires
        d < 10,
    ensures
        c == digit_char(d as nat),
{
    match d {
        0 => '0',
        1 => '1',
        2 => '2',
        3 => '3',
        4 => '4',
        5 => '5',
        6 => '6',
        7 => '7',
        8 => '8',
        _ => '9',
    }
}

fn push_decimal(s: &mut String, n: u64)
    ensures
        final(s)@ == old(s)@ + decimal(n as nat),
    decreases n,
{
    if n >= 10 {
        push_decimal(s, n / 10);
    }
    push_char(s, digit(n % 10));
    assert(final(s)@ =~= old(s)@ + decimal(n as nat)) by {
        if n < 10 {
            assert(n % 10 == n);
        }
    }
}

/// The status line for the track playing, given by its title and its length
/// in seconds, or for none.
pub fn status_bar_text(title: Option<&str>, duration_secs: u64, playing: bool, width: usize) -> (r:
    String)
    ensures
        r@ == status_text(
            match title {
                Some(t) => Some(t@),
                None => None,
            },
            duration_secs as nat,
            playing,
            width as nat,
        ),
{
    let mut line = String::new();
    match title {
        Some(t) => {
            push_str(&mut line, "Playback: ");
            push_str(&mut line, t);
            push_str(&mut line, " [");
            push_decimal(&mut line, duration_secs / 60);
            push_char(&mut line, ':');
            let seconds = duration_secs % 60;
            if seconds < 10 {
                push_char(&mut line, '0');
            }
            push_decimal(&mut line, seconds);
            push_char(&mut line, ']');
            if !playing {
                push_str(&mut line, "[Paused]");
            }
        },
        None => {
            push_str(&mut line, "Playback: -");
        },
    }
    let used = line.as_str().unicode_len();
    let pad: usize = if used < width {
        width - used
    } else {
        0
    };
    let ghost text = line@;
    let mut k: usize = 0;
    while k < pad
        invariant
            k <= pad,
            line@ == text + spaces(k as int),
        decreases pad - k,
    {
        push_char(&mut line, ' ');
        k = k + 1;
        assert(line@ =~= text + spaces(k as int));
    }
    proof {
        assert(spaces(pad as int) =~= spaces(width - text.len()));
        if title is Some && duration_secs % 60 < 10 {
            assert(decimal((duration_secs % 60) as nat) =~= seq![digit_char((duration_secs % 60) as nat)]);
        }
    }
    line
}

/// The command line for the action that was applied last.
pub fn command_bar_text(last: &Action) -> (r: String)
    ensures
        r@ == command_text(last@),
{
    let mut line = String::new();
    match last {
        Action::FilterList(f) => {
            push_str(&mut line, "Filter: ");
            push_str(&mut line, f.as_str());
        },
        _ => {},
    }
    line
}

} // verus!
