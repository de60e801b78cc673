//! Command mapper: from a decoded event to the text sent to the serial peer.
//!
//! A note-on becomes `on <key>`, a note-off `off <key>`, with the key in
//! decimal. Channel and velocity are dropped on purpose: the peer only tells
//! keys apart.

use crate::event::DecodedEvent;
use vstd::prelude::*;
use vstd::string::*;

verus! {

/// The character of one decimal digit.
pub open spec fn digit_char(d: nat) -> char
    recommends
        d < 10,
{
    seq!['0', '1', '2', '3', '4', '5', '6', '7', '8', '9'][d as int]
}

/// A number in decimal, without sign or leading zeros.
pub open spec fn decimal(n: nat) -> Seq<char>
    decreases n,
{
    if n < 10 {
        seq![digit_char(n)]
    } else {
        decimal(n / 10).push(digit_char(n % 10))
    }
}

/// The digits of a number are decimal digit characters, at least one of them.
pub proof fn lemma_decimal_is_digits(n: nat)
    ensures
        decimal(n).len() >= 1,
        forall|i: int| 0 <= i < decimal(n).len() ==> '0' <= #[trigger] decimal(n)[i] <= '9',
    decreases n,
{
    if n >= 10 {
        lemma_decimal_is_digits(n / 10);
    }
}

/// The number that a run of decimal digits stands for.
pub open spec fn decimal_value(digits: Seq<char>) -> nat
    decreases digits.len(),
{
    if digits.len() == 0 {
        0
    } else {
        (decimal_value(digits.drop_last()) * 10 + (digits.last() as nat - '0' as nat)) as nat
    }
}

/// The decimal text of a number stands for that number, so different numbers
/// have different texts.
pub proof fn lemma_decimal_reads_back(n: nat)
    ensures
        decimal_value(decimal(n)) == n,
    decreases n,
{
    if n < 10 {
        assert(decimal_value(decimal(n).drop_last()) == 0);
    } else {
        lemma_decimal_reads_back(n / 10);
        assert(decimal(n).drop_last() =~= decimal(n / 10));
    }
}

/// The text of the command for an event, if it has one.
pub open spec fn command_text(event: DecodedEvent) -> Option<Seq<char>> {
    match event {
        DecodedEvent::NoteOn { key, .. } => Some(seq!['o', 'n', ' '] + decimal(key as nat)),
        DecodedEvent::NoteOff { key, .. } => Some(seq!['o', 'f', 'f', ' '] + decimal(key as nat)),
        DecodedEvent::Other => None,
    }
}

/// Two events are the same note: both note-ons or both note-offs, of the same
/// key.
pub open spec fn same_note(a: DecodedEvent, b: DecodedEvent) -> bool {
    match (a, b) {
        (DecodedEvent::NoteOn { key: ka, .. }, DecodedEvent::NoteOn { key: kb, .. }) => ka == kb,
        (DecodedEvent::NoteOff { key: ka, .. }, DecodedEvent::NoteOff { key: kb, .. }) => ka
            == kb,
        _ => false,
    }
}

/// The command says whether a note went on or off, and which key: two events
/// with the same command are the same note.
pub proof fn lemma_command_tells_notes_apart(a: DecodedEvent, b: DecodedEvent)
    requires
        command_text(a) is Some,
        command_text(a) == command_text(b),
    ensures
        same_note(a, b),
{
    let text = command_text(a).unwrap();
    match (a, b) {
        (DecodedEvent::NoteOn { key: ka, .. }, DecodedEvent::NoteOn { key: kb, .. }) => {
            assert(text.subrange(3, text.len() as int) =~= decimal(ka as nat));
            assert(text.subrange(3, text.len() as int) =~= decimal(kb as nat));
            lemma_decimal_reads_back(ka as nat);
            lemma_decimal_reads_back(kb as nat);
        },
        (DecodedEvent::NoteOff { key: ka, .. }, DecodedEvent::NoteOff { key: kb, .. }) => {
            assert(text.subrange(4, text.len() as int) =~= decimal(ka as nat));
            assert(text.subrange(4, text.len() as int) =~= decimal(kb as nat));
            lemma_decimal_reads_back(ka as nat);
            lemma_decimal_reads_back(kb as nat);
        },
        (DecodedEvent::NoteOn { .. }, DecodedEvent::NoteOff { .. }) => {
            assert(command_text(b).unwrap()[1] == 'f');
        },
        (DecodedEvent::NoteOff { .. }, DecodedEvent::NoteOn { .. }) => {
            assert(command_text(b).unwrap()[1] == 'n');
        },
        _ => {},
    }
}

/// The text of an optional command, for contracts.
pub open spec fn text_of(command: Option<String>) -> Option<Seq<char>> {
    match command {
        Some(s) => Some(s@),
        None => None,
    }
}

fn digit_str(d: u8) -> (s: &'static str)
    requires
        d < 10,
    ensures
        s@ == seq![digit_char(d as nat)],
{
    proof {
        reveal_strlit("0");
        reveal_strlit("1");
        reveal_strlit("2");
        reveal_strlit("3");
        reveal_strlit("4");
        reveal_strlit("5");
        reveal_strlit("6");
        reveal_strlit("7");
        reveal_strlit("8");
        reveal_strlit("9");
    }
    let s: &'static str = match d {
        0 => "0",
        1 => "1",
        2 => "2",
        3 => "3",
        4 => "4",
        5 => "5",
        6 => "6",
        7 => "7",
        8 => "8",
        _ => "9",
    };
    s
}

/// Appends a byte's value in decimal.
fn push_decimal(text: &mut String, n: u8)
    ensures
        final(text)@ == old(text)@ + decimal(n as nat),
{
    proof {
        reveal_with_fuel(decimal, 3);
    }
    if n >= 100 {
        text.append(digit_str(n / 100));
    }
    if n >= 10 {
        text.append(digit_str((n / 10) % 10));
    }
    text.append(digit_str(n % 10));
}

/// Maps an event to its serial command: `on <key>` for a note-on,
/// `off <key>` for a note-off, nothing for any other message.
pub fn command_for(event: &DecodedEvent) -> (command: Option<String>)
    ensures
        text_of(command) == command_text(*event),
{
    match event {
        DecodedEvent::NoteOn { key, .. } => {
            proof {
                reveal_strlit("on ");
            }
            let mut text = String::from_str("on ");
            push_decimal(&mut text, *key);
            Some(text)
        },
        DecodedEvent::NoteOff { key, .. } => {
            proof {
                reveal_strlit("off ");
            }
            let mut text = String::from_str("off ");
            push_decimal(&mut text, *key);
            Some(text)
        },
        DecodedEvent::Other => None,
    }
}

} // verus!
