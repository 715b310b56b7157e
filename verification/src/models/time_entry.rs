//! Entering and showing a countdown as `mm:ss` text.

use vstd::prelude::*;
use crate::text::{chars_of, decimal, digit_char, digit_text, push_decimal};
use crate::models::timer::TimerState;
use crate::time::Duration;

verus! {

/// The largest number of minutes that the entry field takes.
pub const MAX_ENTRY_MINUTES: u64 = 999;

/// The largest number of seconds that the entry field takes.
pub const MAX_ENTRY_SECONDS: u64 = 59;

/// The largest number of minutes, and of seconds, that the two-field input takes.
pub const MAX_INPUT_PART: u64 = 59;

/// The part of the entry field that the arrow keys change.
#[derive(Clone, Copy, Debug, PartialEq, Eq, Structural)]
pub enum EditField {
    Minutes,
    Seconds,
}

/// The entry field for a countdown: its text, the place of the cursor in it,
/// counted in characters, and the part that is being edited.
#[derive(Debug)]
pub struct TimeEditor {
    pub text: String,
    pub cursor_pos: usize,
    pub field: EditField,
}

/// What a `TimeEditor` holds, as plain values.
pub struct EditorModel {
    pub text: Seq<char>,
    pub cursor_pos: int,
    pub field: EditField,
}

impl View for TimeEditor {
    type V = EditorModel;

    open spec fn view(&self) -> EditorModel {
        EditorModel { text: self.text@, cursor_pos: self.cursor_pos as int, field: self.field }
    }
}

/// Whether `c` is one of the digits `0` to `9`.
pub open spec fn is_digit(c: char) -> bool {
    '0' <= c <= '9'
}

/// The number that the digit `c` stands for.
pub open spec fn digit_value(c: char) -> nat {
    (c as u32 - '0' as u32) as nat
}

/// `n` in decimal digits, with a leading zero where it has one digit only.
pub open spec fn two_digits(n: nat) -> Seq<char> {
    if n < 10 {
        seq!['0', digit_char(n)]
    } else {
        decimal(n)
    }
}

/// Minutes and seconds as `mm:ss`.
pub open spec fn clock_text(minutes: nat, seconds: nat) -> Seq<char> {
    two_digits(minutes) + seq![':'] + two_digits(seconds)
}

/// Whether `s` is one or more digits.
pub open spec fn is_digits(s: Seq<char>) -> bool {
    &&& s.len() > 0
    &&& forall|i: int| 0 <= i < s.len() ==> is_digit(#[trigger] s[i])
}

/// The number that a string of digits stands for.
pub open spec fn value_of(s: Seq<char>) -> nat
    decreases s.len(),
{
    if s.len() == 0 {
        0
    } else {
        value_of(s.drop_last()) * 10 + digit_value(s.last())
    }
}

/// `s` without a plus sign at its head.
pub open spec fn unsigned_part(s: Seq<char>) -> Seq<char> {
    if s.len() > 0 && s[0] == '+' {
        s.subrange(1, s.len() as int)
    } else {
        s
    }
}

/// The number that `s` stands for: digits, with or without a plus sign
/// before them, that give a number of 64 bits at most.
pub open spec fn number_of(s: Seq<char>) -> Option<u64> {
    let digits = unsigned_part(s);
    if is_digits(digits) && value_of(digits) <= u64::MAX {
        Some(value_of(digits) as u64)
    } else {
        None
    }
}

/// Whether the one colon of `text` stands at `i`.
pub open spec fn is_only_colon(text: Seq<char>, i: int) -> bool {
    &&& 0 <= i < text.len()
    &&& text[i] == ':'
    &&& forall|j: int| 0 <= j < text.len() && j != i ==> text[j] != ':'
}

/// What stands before and behind the colon of a text that has exactly one.
pub open spec fn split_at_colon(text: Seq<char>) -> Option<(Seq<char>, Seq<char>)> {
    if exists|i: int| is_only_colon(text, i) {
        let i = choose|i: int| is_only_colon(text, i);
        Some((text.subrange(0, i), text.subrange(i + 1, text.len() as int)))
    } else {
        None
    }
}

/// Minutes and seconds of an `mm:ss` text: two numbers with one colon
/// between them, up to 999 minutes and up to 59 seconds.
pub open spec fn entry_value(text: Seq<char>) -> Option<(u64, u64)> {
    match split_at_colon(text) {
        Some((before, behind)) => match (number_of(before), number_of(behind)) {
            (Some(minutes), Some(seconds)) => if minutes <= MAX_ENTRY_MINUTES && seconds
                <= MAX_ENTRY_SECONDS {
                Some((minutes, seconds))
            } else {
                None
            },
            _ => None,
        },
        None => None,
    }
}

/// The countdown that minutes and seconds make.
pub open spec fn span_of(minutes: u64, seconds: u64) -> Duration {
    Duration { nanos: ((minutes * 60 + seconds) * 1_000_000_000) as u128 }
}

/// Minutes after one more, beginning again at zero behind 999.
pub open spec fn minutes_up(minutes: u64) -> u64 {
    if minutes >= MAX_ENTRY_MINUTES {
        0
    } else {
        (minutes + 1) as u64
    }
}

/// Minutes after one less, beginning again at 999 behind zero.
pub open spec fn minutes_down(minutes: u64) -> u64 {
    if minutes == 0 {
        MAX_ENTRY_MINUTES
    } else {
        (minutes - 1) as u64
    }
}

/// A string of digits that goes on from a longer one stands for no less.
proof fn lemma_value_grows(s: Seq<char>, k: int)
    requires
        0 <= k <= s.len(),
    ensures
        value_of(s.subrange(0, k)) <= value_of(s),
    decreases s.len() - k,
{
    if k < s.len() {
        lemma_value_grows(s, k + 1);
        let longer = s.subrange(0, k + 1);
        assert(longer.drop_last() =~= s.subrange(0, k));
    } else {
        assert(s.subrange(0, k) =~= s);
    }
}

/// Writes `n` in at least two decimal digits behind `text`.
fn push_two_digits(text: &mut String, n: u128)
    ensures
        final(text)@ == old(text)@ + two_digits(n as nat),
{
    if n < 10 {
        text.append("0");
        proof {
            reveal_strlit("0");
        }
    }
    push_decimal(text, n);
    assert(text@ =~= old(text)@ + two_digits(n as nat));
}

/// Minutes and seconds as `mm:ss`, each in two digits at least.
pub fn format_clock(minutes: u128, seconds: u128) -> (text: String)
    ensures
        text@ == clock_text(minutes as nat, seconds as nat),
{
    let mut text = String::new();
    push_two_digits(&mut text, minutes);
    text.append(":");
    proof {
        reveal_strlit(":");
    }
    push_two_digits(&mut text, seconds);
    assert(text@ =~= clock_text(minutes as nat, seconds as nat));
    text
}

/// A span of time as `mm:ss`: its whole seconds, as minutes and seconds.
pub fn format_time(duration: Duration) -> (text: String)
    ensures
        text@ == clock_text((duration@ / 1_000_000_000) / 60, (duration@ / 1_000_000_000) % 60),
{
    let total_seconds = duration.as_secs();
    format_clock(total_seconds / 60, total_seconds % 60)
}

/// Whether `c` is one of the digits `0` to `9`.
pub fn is_ascii_digit(c: char) -> (digit: bool)
    ensures
        digit == is_digit(c),
{
    '0' <= c && c <= '9'
}

/// Reads a number: digits, with or without a plus sign before them. Anything
/// else, and a number of more than 64 bits, gives none.
pub fn parse_number(s: &str) -> (number: Option<u64>)
    ensures
        number == number_of(s@),
{
    let chars = chars_of(s);
    let n = chars.len();
    let first: usize = if n > 0 && chars[0] == '+' {
        1
    } else {
        0
    };
    let ghost digits = unsigned_part(s@);
    assert(digits =~= s@.subrange(first as int, n as int));
    if first == n {
        return None;
    }
    let mut value: u64 = 0;
    let mut i: usize = first;
    assert(digits.subrange(0, 0) =~= Seq::<char>::empty());
    while i < n
        invariant
            first <= i <= n,
            n == chars@.len(),
            chars@ == s@,
            digits == s@.subrange(first as int, n as int),
            digits == unsigned_part(s@),
            forall|j: int| 0 <= j < i - first ==> is_digit(#[trigger] digits[j]),
            value == value_of(digits.subrange(0, i - first)),
        decreases n - i,
    {
        let c = chars[i];
        assert(c == digits[i - first]);
        if !is_ascii_digit(c) {
            return None;
        }
        let d: u64 = (c as u32 - '0' as u32) as u64;
        proof {
            let longer = digits.subrange(0, i - first + 1);
            assert(longer.drop_last() =~= digits.subrange(0, i - first));
            assert(longer.last() == c);
            assert(value_of(longer) == value * 10 + d);
            lemma_value_grows(digits, i - first + 1);
        }
        if value > (u64::MAX - d) / 10 {
            return None;
        }
        value = value * 10 + d;
        i += 1;
    }
    assert(digits.subrange(0, n - first) =~= digits);
    Some(value)
}

/// Place of the colon in a text that has exactly one.
fn find_only_colon(chars: &Vec<char>) -> (place: Option<usize>)
    ensures
        match place {
            Some(i) => is_only_colon(chars@, i as int),
            None => !exists|i: int| is_only_colon(chars@, i),
        },
{
    let n = chars.len();
    let mut place: Option<usize> = None;
    let mut i: usize = 0;
    while i < n
        invariant
            i <= n,
            n == chars@.len(),
            match place {
                Some(p) => p < i && chars@[p as int] == ':' && forall|j: int|
                    0 <= j < i && j != p ==> chars@[j] != ':',
                None => forall|j: int| 0 <= j < i ==> chars@[j] != ':',
            },
        decreases n - i,
    {
        if chars[i] == ':' {
            match place {
                Some(p) => {
                    assert forall|k: int| !is_only_colon(chars@, k) by {
                        if is_only_colon(chars@, k) {
                            assert(chars@[p as int] == ':' && chars@[i as int] == ':');
                        }
                    }
                    return None;
                },
                None => {
                    place = Some(i);
                },
            }
        }
        i += 1;
    }
    place
}

/// Reads minutes and seconds from an `mm:ss` text.
pub fn parse_entry(text: &str) -> (value: Option<(u64, u64)>)
    ensures
        value == entry_value(text@),
{
    let chars = chars_of(text);
    match find_only_colon(&chars) {
        Some(i) => {
            proof {
                let k = choose|k: int| is_only_colon(text@, k);
                assert(k == i);
            }
            let minutes = parse_number(text.substring_char(0, i));
            let seconds = parse_number(text.substring_char(i + 1, chars.len()));
            match (minutes, seconds) {
                (Some(m), Some(s)) => {
                    if m > MAX_ENTRY_MINUTES || s > MAX_ENTRY_SECONDS {
                        None
                    } else {
                        Some((m, s))
                    }
                },
                _ => None,
            }
        },
        None => None,
    }
}

/// The countdown that an `mm:ss` text stands for, with up to 999 minutes and
/// up to 59 seconds.
pub fn parse_timer_edit_text(text: &str) -> (span: Option<Duration>)
    ensures
        span == match entry_value(text@) {
            Some((minutes, seconds)) => Some(span_of(minutes, seconds)),
            None => None,
        },
{
    match parse_entry(text) {
        Some((minutes, seconds)) => Some(Duration::from_secs(minutes * 60 + seconds)),
        None => None,
    }
}

/// The countdown that a text of minutes and a text of seconds stand for,
/// with up to 59 of each.
pub fn parse_timer_input(minutes: &str, seconds: &str) -> (span: Option<Duration>)
    ensures
        span == match (number_of(minutes@), number_of(seconds@)) {
            (Some(m), Some(s)) => if m <= MAX_INPUT_PART && s <= MAX_INPUT_PART {
                Some(span_of(m, s))
            } else {
                None
            },
            _ => None,
        },
{
    match (parse_number(minutes), parse_number(seconds)) {
        (Some(m), Some(s)) => {
            if m > MAX_INPUT_PART || s > MAX_INPUT_PART {
                None
            } else {
                Some(Duration::from_secs(m * 60 + s))
            }
        },
        _ => None,
    }
}

/// What the face of the widget shows. A stopped timer shows the countdown
/// that the two input texts make, or `05:00` where they make none; a
/// finished one shows `DONE!`; a running or paused one shows what is left, or
/// `00:00` where that is not known.
pub open spec fn face_text(
    state: TimerState,
    remaining: Option<Duration>,
    minutes: Seq<char>,
    seconds: Seq<char>,
) -> Seq<char> {
    match state {
        TimerState::Stopped => match (number_of(minutes), number_of(seconds)) {
            (Some(m), Some(s)) => if m <= MAX_INPUT_PART && s <= MAX_INPUT_PART {
                clock_text(m as nat, s as nat)
            } else {
                "05:00"@
            },
            _ => "05:00"@,
        },
        TimerState::Finished => "DONE!"@,
        _ => match remaining {
            Some(left) => clock_text((left@ / 1_000_000_000) / 60, (left@ / 1_000_000_000) % 60),
            None => "00:00"@,
        },
    }
}

/// What the face of the widget shows.
pub fn display_text(
    state: &TimerState,
    remaining: Option<Duration>,
    minutes: &str,
    seconds: &str,
) -> (text: String)
    ensures
        text@ == face_text(*state, remaining, minutes@, seconds@),
{
    match state {
        TimerState::Stopped => match parse_timer_input(minutes, seconds) {
            Some(span) => {
                assert(span@ / 1_000_000_000 == number_of(minutes@)->0 * 60 + number_of(seconds@)->0);
                format_time(span)
            },
            None => "05:00".to_owned(),
        },
        TimerState::Finished => "DONE!".to_owned(),
        _ => match remaining {
            Some(left) => format_time(left),
            None => "00:00".to_owned(),
        },
    }
}

/// Minutes and seconds after one more in `field`. Seconds behind 59 begin
/// again at zero and carry into the minutes; minutes behind 999 begin again
/// at zero.
pub open spec fn entry_value_after_up(minutes: u64, seconds: u64, field: EditField) -> (u64, u64) {
    match field {
        EditField::Minutes => (minutes_up(minutes), seconds),
        EditField::Seconds => if seconds >= MAX_ENTRY_SECONDS {
            (minutes_up(minutes), 0u64)
        } else {
            (minutes, (seconds + 1) as u64)
        },
    }
}

/// Minutes and seconds after one less in `field`. Seconds behind zero begin
/// again at 59 and borrow from the minutes; minutes behind zero begin again
/// at 999.
pub open spec fn entry_value_after_down(minutes: u64, seconds: u64, field: EditField) -> (
    u64,
    u64,
) {
    match field {
        EditField::Minutes => (minutes_down(minutes), seconds),
        EditField::Seconds => if seconds == 0 {
            (minutes_down(minutes), MAX_ENTRY_SECONDS)
        } else {
            (minutes, (seconds - 1) as u64)
        },
    }
}

impl EditorModel {
    /// The field after the up arrow: one more in the edited part. A text
    /// that cannot be read stays as it is.
    pub open spec fn incremented(self) -> EditorModel {
        match entry_value(self.text) {
            Some((minutes, seconds)) => {
                let (m, s) = entry_value_after_up(minutes, seconds, self.field);
                EditorModel { text: clock_text(m as nat, s as nat), ..self }
            },
            None => self,
        }
    }

    /// The field after the down arrow: one less in the edited part. A text
    /// that cannot be read stays as it is.
    pub open spec fn decremented(self) -> EditorModel {
        match entry_value(self.text) {
            Some((minutes, seconds)) => {
                let (m, s) = entry_value_after_down(minutes, seconds, self.field);
                EditorModel { text: clock_text(m as nat, s as nat), ..self }
            },
            None => self,
        }
    }

    /// Whether a typed `c` goes into the text: it is a digit, and the cursor
    /// stands on a character that is not the colon.
    pub open spec fn takes(self, c: char) -> bool {
        &&& is_digit(c)
        &&& 0 <= self.cursor_pos < self.text.len()
        &&& self.text[self.cursor_pos] != ':'
    }

    /// The field after `c` was typed. A digit takes the place of the
    /// character under the cursor and the cursor moves on, over the colon
    /// into the seconds where it comes to stand on it. A text that can then
    /// be read is written out anew as `mm:ss`. Anything but a digit, and a
    /// digit typed on the colon or behind the text, changes nothing.
    pub open spec fn after_char(self, c: char) -> EditorModel {
        if self.takes(c) {
            let typed = self.text.update(self.cursor_pos, c);
            let next = self.cursor_pos + 1;
            let on_colon = next < typed.len() && typed[next] == ':';
            EditorModel {
                text: match entry_value(typed) {
                    Some((minutes, seconds)) => clock_text(minutes as nat, seconds as nat),
                    None => typed,
                },
                cursor_pos: if on_colon {
                    next + 1
                } else {
                    next
                },
                field: if on_colon {
                    EditField::Seconds
                } else {
                    self.field
                },
            }
        } else {
            self
        }
    }
}

impl TimeEditor {
    /// An entry field that shows five minutes, with the cursor at its head.
    pub fn new() -> (editor: TimeEditor)
        ensures
            editor@.text == "05:00"@,
            editor@.cursor_pos == 0,
            editor@.field == EditField::Minutes,
    {
        TimeEditor { text: "05:00".to_owned(), cursor_pos: 0, field: EditField::Minutes }
    }

    /// The countdown that the text stands for.
    pub fn value(&self) -> (span: Option<Duration>)
        ensures
            span == match entry_value(self@.text) {
                Some((minutes, seconds)) => Some(span_of(minutes, seconds)),
                None => None,
            },
    {
        parse_timer_edit_text(self.text.as_str())
    }

    /// The up arrow: one more in the edited part.
    pub fn increment_time(&mut self)
        ensures
            final(self)@ == old(self)@.incremented(),
    {
        match parse_entry(self.text.as_str()) {
            Some((minutes, seconds)) => {
                let (m, s) = match self.field {
                    EditField::Minutes => (TimeEditor::one_up(minutes), seconds),
                    EditField::Seconds => {
                        if seconds >= MAX_ENTRY_SECONDS {
                            (TimeEditor::one_up(minutes), 0)
                        } else {
                            (minutes, seconds + 1)
                        }
                    },
                };
                self.text = format_clock(m as u128, s as u128);
            },
            None => {},
        }
    }

    /// The down arrow: one less in the edited part.
    pub fn decrement_time(&mut self)
        ensures
            final(self)@ == old(self)@.decremented(),
    {
        match parse_entry(self.text.as_str()) {
            Some((minutes, seconds)) => {
                let (m, s) = match self.field {
                    EditField::Minutes => (TimeEditor::one_down(minutes), seconds),
                    EditField::Seconds => {
                        if seconds == 0 {
                            (TimeEditor::one_down(minutes), MAX_ENTRY_SECONDS)
                        } else {
                            (minutes, seconds - 1)
                        }
                    },
                };
                self.text = format_clock(m as u128, s as u128);
            },
            None => {},
        }
    }

    fn one_up(minutes: u64) -> (m: u64)
        ensures
            m == minutes_up(minutes),
    {
        if minutes >= MAX_ENTRY_MINUTES {
            0
        } else {
            minutes + 1
        }
    }

    fn one_down(minutes: u64) -> (m: u64)
        ensures
            m == minutes_down(minutes),
    {
        if minutes == 0 {
            MAX_ENTRY_MINUTES
        } else {
            minutes - 1
        }
    }

    /// A character was typed into the field.
    pub fn handle_char_input(&mut self, c: char)
        ensures
            final(self)@ == old(self)@.after_char(c),
    {
        if !is_ascii_digit(c) {
            return ;
        }
        let length = self.text.as_str().unicode_len();
        if self.cursor_pos >= length {
            return ;
        }
        if self.text.as_str().get_char(self.cursor_pos) == ':' {
            return ;
        }
        let d: u8 = (c as u32 - '0' as u32) as u8;
        let mut typed = self.text.as_str().substring_char(0, self.cursor_pos).to_owned();
        typed.append(digit_text(d));
        typed.append(self.text.as_str().substring_char(self.cursor_pos + 1, length));
        assert(typed@ =~= old(self)@.text.update(old(self)@.cursor_pos, c));
        self.cursor_pos = self.cursor_pos + 1;
        if self.cursor_pos < length {
            if typed.as_str().get_char(self.cursor_pos) == ':' {
                self.cursor_pos = self.cursor_pos + 1;
                self.field = EditField::Seconds;
            }
        }
        match parse_entry(typed.as_str()) {
            Some((minutes, seconds)) => {
                self.text = format_clock(minutes as u128, seconds as u128);
            },
            None => {
                self.text = typed;
            },
        }
    }
}

/// The decimal digits of a number are digits, and read back as the number.
proof fn lemma_decimal_reads_back(n: nat)
    ensures
        is_digits(decimal(n)),
        value_of(decimal(n)) == n,
    decreases n,
{
    let text = decimal(n);
    if n < 10 {
        assert(text =~= seq![digit_char(n)]);
        assert(text.drop_last() =~= Seq::<char>::empty());
        assert(value_of(text.drop_last()) == 0);
        assert(is_digit(text[0]) && digit_value(text[0]) == n);
        assert(text.last() == text[0]);
    } else {
        lemma_decimal_reads_back(n / 10);
        let front = decimal(n / 10);
        assert(text =~= front + seq![digit_char(n % 10)]);
        assert(text.drop_last() =~= front);
        assert(is_digit(text.last()) && digit_value(text.last()) == n % 10);
        assert forall|i: int| 0 <= i < text.len() implies is_digit(#[trigger] text[i]) by {
            if i < front.len() {
                assert(text[i] == front[i]);
            }
        }
    }
}

/// A number written in two digits at least is digits, and reads back as the number.
proof fn lemma_two_digits_read_back(n: nat)
    ensures
        is_digits(two_digits(n)),
        value_of(two_digits(n)) == n,
{
    let text = two_digits(n);
    if n < 10 {
        let front = text.drop_last();
        assert(front =~= seq!['0']);
        assert(front.drop_last() =~= Seq::<char>::empty());
        assert(value_of(front.drop_last()) == 0);
        assert(front.last() == '0' && digit_value('0') == 0);
        assert(value_of(front) == 0);
        assert(text.last() == text[1]);
        assert(is_digit(text[0]) && is_digit(text[1]) && digit_value(text[1]) == n);
    } else {
        lemma_decimal_reads_back(n);
    }
}

/// What is written as `mm:ss` reads back as the same minutes and seconds.
pub proof fn law_written_entry_reads_back(minutes: u64, seconds: u64)
    requires
        minutes <= MAX_ENTRY_MINUTES,
        seconds <= MAX_ENTRY_SECONDS,
    ensures
        entry_value(clock_text(minutes as nat, seconds as nat)) == Some((minutes, seconds)),
{
    let before = two_digits(minutes as nat);
    let behind = two_digits(seconds as nat);
    let text = clock_text(minutes as nat, seconds as nat);
    lemma_two_digits_read_back(minutes as nat);
    lemma_two_digits_read_back(seconds as nat);
    let place = before.len() as int;
    assert(text =~= before + seq![':'] + behind);
    assert(text[place] == ':');
    assert forall|j: int| 0 <= j < text.len() && j != place implies text[j] != ':' by {
        if j < place {
            assert(text[j] == before[j] && is_digit(before[j]));
        } else {
            assert(text[j] == behind[j - place - 1] && is_digit(behind[j - place - 1]));
        }
    }
    assert(is_only_colon(text, place));
    let chosen = choose|i: int| is_only_colon(text, i);
    assert(chosen == place);
    assert(text.subrange(0, place) =~= before);
    assert(text.subrange(place + 1, text.len() as int) =~= behind);
    assert(is_digit(before[0]) && is_digit(behind[0]));
    assert(unsigned_part(before) == before && unsigned_part(behind) == behind);
}

/// The arrow keys keep a readable entry readable, and the down arrow undoes
/// the up arrow: after both, the entry stands for the minutes and seconds it
/// stood for before.
pub proof fn law_down_undoes_up(editor: EditorModel)
    requires
        entry_value(editor.text) is Some,
    ensures
        entry_value(editor.incremented().text) is Some,
        entry_value(editor.decremented().text) is Some,
        entry_value(editor.incremented().decremented().text) == entry_value(editor.text),
        entry_value(editor.decremented().incremented().text) == entry_value(editor.text),
        editor.incremented().cursor_pos == editor.cursor_pos,
        editor.incremented().field == editor.field,
{
    let (minutes, seconds) = entry_value(editor.text)->0;
    let up = entry_value_after_up(minutes, seconds, editor.field);
    let down = entry_value_after_down(minutes, seconds, editor.field);
    law_written_entry_reads_back(up.0, up.1);
    law_written_entry_reads_back(down.0, down.1);
    law_written_entry_reads_back(minutes, seconds);
}

} // verus!
