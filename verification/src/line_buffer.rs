//! The shell's line buffer: a fixed-capacity text buffer with a
//! "line ready" flag, fed one character at a time.

use vstd::prelude::*;
use vstd::utf8::*;

verus! {

/// `heapless::String`, a string with inline storage of `N` bytes.
#[verifier::external_type_specification]
#[verifier::external_body]
pub struct ExHeaplessString<const N: usize>(heapless::String<N>);

/// The characters that a line's backing string holds, in order.
pub uninterp spec fn line_text(s: heapless::String<64>) -> Seq<char>;

/// Bytes of storage behind a line.
pub const LINE_STORAGE: usize = 64;

/// A character is accepted only while fewer than this many bytes are
/// buffered, which keeps one byte of the storage as a guard.
pub const LINE_LIMIT: usize = 63;

/// Number of bytes in the UTF-8 encoding of `c`.
pub open spec fn utf8_width(c: char) -> nat {
    if (c as u32) < 0x80 {
        1
    } else if (c as u32) < 0x800 {
        2
    } else if (c as u32) < 0x10000 {
        3
    } else {
        4
    }
}

/// Number of bytes in the UTF-8 encoding of `s`.
pub open spec fn utf8_len(s: Seq<char>) -> nat {
    encode_utf8(s).len()
}

/// The encoding of one character has the width that its code point
/// range gives.
pub proof fn lemma_scalar_width(c: char)
    ensures
        encode_scalar(c as u32).len() == utf8_width(c),
        1 <= utf8_width(c) <= 4,
{
    char_is_scalar(c);
}

/// Appending a character lengthens the encoding by that character's
/// width.
pub proof fn lemma_utf8_len_push(s: Seq<char>, c: char)
    ensures
        utf8_len(s.push(c)) == utf8_len(s) + utf8_width(c),
    decreases s.len(),
{
    lemma_scalar_width(c);
    if s.len() == 0 {
        assert(s.push(c).drop_first() =~= Seq::<char>::empty());
        assert(encode_utf8(s.push(c).drop_first()) =~= Seq::<u8>::empty());
        assert(encode_utf8(s) =~= Seq::<u8>::empty());
    } else {
        assert(s.push(c).drop_first() =~= s.drop_first().push(c));
        lemma_utf8_len_push(s.drop_first(), c);
    }
}

/// An encoding has at least one byte for each character.
pub proof fn lemma_utf8_len_bounds(s: Seq<char>)
    ensures
        s.len() <= utf8_len(s),
    decreases s.len(),
{
    if s.len() > 0 {
        lemma_scalar_width(s[0]);
        lemma_utf8_len_bounds(s.drop_first());
    }
}

/// `heapless::String::new`: the new string holds no characters.
#[verifier::external_body]
fn text_new() -> (s: heapless::String<64>)
    ensures
        line_text(s) == Seq::<char>::empty(),
{
    heapless::String::new()
}

/// `heapless::String::push`: appends `c` when its encoding fits in what
/// is left of the 64 bytes of storage, and otherwise leaves the string
/// as it was and reports that nothing was appended.
#[verifier::external_body]
fn text_push(s: &mut heapless::String<64>, c: char) -> (pushed: bool)
    ensures
        pushed == (utf8_len(line_text(*old(s))) + utf8_width(c) <= 64),
        pushed ==> line_text(*final(s)) == line_text(*old(s)).push(c),
        !pushed ==> line_text(*final(s)) == line_text(*old(s)),
    no_unwind
{
    s.push(c).is_ok()
}

/// `heapless::String::pop`: removes the last character and returns it,
/// or returns `None` and changes nothing when the string is empty.
#[verifier::external_body]
fn text_pop(s: &mut heapless::String<64>) -> (last: Option<char>)
    ensures
        line_text(*old(s)).len() == 0 ==> last.is_none() && line_text(*final(s)) == line_text(
            *old(s),
        ),
        line_text(*old(s)).len() > 0 ==> last == Some(line_text(*old(s)).last()) && line_text(
            *final(s),
        ) == line_text(*old(s)).drop_last(),
    no_unwind
{
    s.pop()
}

/// `heapless::String::clear`: the string holds no characters afterwards.
#[verifier::external_body]
fn text_clear(s: &mut heapless::String<64>)
    ensures
        line_text(*final(s)) == Seq::<char>::empty(),
    no_unwind
{
    s.clear()
}

/// `Clone` of `heapless::String`: the copy holds the same characters.
#[verifier::external_body]
fn text_clone(s: &heapless::String<64>) -> (copy: heapless::String<64>)
    ensures
        line_text(copy) == line_text(*s),
{
    s.clone()
}

/// `heapless::String::as_str`: the slice shows the string's characters.
#[verifier::external_body]
pub(crate) fn text_as_str(s: &heapless::String<64>) -> (slice: &str)
    ensures
        slice@ == line_text(*s),
{
    s.as_str()
}

/// What a line buffer holds: the characters typed so far and whether a
/// terminator has arrived since the last extraction.
pub struct LineModel {
    pub text: Seq<char>,
    pub ready: bool,
}

/// Carriage return or line feed: completes the line.
pub open spec fn is_terminator(c: char) -> bool {
    c == '\r' || c == '\n'
}

/// Backspace or DEL: erases the last character.
pub open spec fn is_erase(c: char) -> bool {
    c == '\x08' || c == '\x7f'
}

/// Whether a buffer holding `text` takes the ordinary character `c`:
/// fewer than 63 bytes are in use and the encoding of `c` fits in the
/// storage.
pub open spec fn takes_char(text: Seq<char>, c: char) -> bool {
    utf8_len(text) < LINE_LIMIT && utf8_len(text) + utf8_width(c) <= LINE_STORAGE
}

impl LineModel {
    /// The empty line: no characters, not ready.
    pub open spec fn empty() -> LineModel {
        LineModel { text: Seq::empty(), ready: false }
    }

    /// The bounds that every line buffer keeps: at most 63 characters,
    /// in at most 64 bytes.
    pub open spec fn bounded(self) -> bool {
        self.text.len() <= LINE_LIMIT && utf8_len(self.text) <= LINE_STORAGE
    }

    /// The line that an extraction hands out: the buffered text once the
    /// line is ready.
    pub open spec fn taken(self) -> Option<Seq<char>> {
        if self.ready {
            Some(self.text)
        } else {
            None
        }
    }

    /// The line after an extraction: empty once the line was ready, and
    /// unchanged before.
    pub open spec fn after_take(self) -> LineModel {
        if self.ready {
            LineModel::empty()
        } else {
            self
        }
    }

    /// The line after one more character has arrived.
    pub open spec fn after_char(self, c: char) -> LineModel {
        if is_terminator(c) {
            LineModel { text: self.text, ready: true }
        } else if is_erase(c) {
            if self.text.len() > 0 {
                LineModel { text: self.text.drop_last(), ready: self.ready }
            } else {
                self
            }
        } else if takes_char(self.text, c) {
            LineModel { text: self.text.push(c), ready: self.ready }
        } else {
            self
        }
    }

    /// The line after the characters of `cs` have arrived in order.
    pub open spec fn after_chars(self, cs: Seq<char>) -> LineModel
        decreases cs.len(),
    {
        if cs.len() == 0 {
            self
        } else {
            self.after_chars(cs.drop_last()).after_char(cs.last())
        }
    }
}

/// Per-session line state of the shell.
pub struct ShellCommand {
    buffer: heapless::String<64>,
    ready: bool,
}

impl View for ShellCommand {
    type V = LineModel;

    closed spec fn view(&self) -> LineModel {
        LineModel { text: line_text(self.buffer), ready: self.ready }
    }
}

impl ShellCommand {
    #[verifier::type_invariant]
    spec fn bounded(self) -> bool {
        self@.bounded()
    }

    /// An empty buffer that is not ready.
    pub fn new() -> (line: ShellCommand)
        ensures
            line@ == LineModel::empty(),
    {
        let buffer = text_new();
        proof {
            assert(encode_utf8(Seq::<char>::empty()) =~= Seq::<u8>::empty());
        }
        ShellCommand { buffer, ready: false }
    }

    /// Number of bytes buffered.
    pub fn len(&self) -> (n: usize)
        ensures
            n == utf8_len(self@.text),
            self@.bounded(),
    {
        proof {
            use_type_invariant(self);
        }
        text_as_str(&self.buffer).len()
    }

    /// Whether a terminator has arrived since the last extraction.
    pub fn is_ready(&self) -> (ready: bool)
        ensures
            ready == self@.ready,
    {
        self.ready
    }

    /// Takes one character: a terminator marks the line ready, an erase
    /// character removes the last buffered character if there is one, and
    /// any other character is appended while there is room and dropped
    /// otherwise.
    pub fn add_char(&mut self, c: char)
        ensures
            final(self)@ == old(self)@.after_char(c),
            final(self)@.bounded(),
    {
        proof {
            use_type_invariant(&*self);
            lemma_utf8_len_push(self@.text, c);
            lemma_utf8_len_bounds(self@.text);
            lemma_scalar_width(c);
        }
        if c == '\r' || c == '\n' {
            self.ready = true;
        } else if c == '\x08' || c == '\x7f' {
            proof {
                if self@.text.len() > 0 {
                    lemma_utf8_len_push(self@.text.drop_last(), self@.text.last());
                    assert(self@.text.drop_last().push(self@.text.last()) =~= self@.text);
                }
            }
            let _ = text_pop(&mut self.buffer);
        } else if text_as_str(&self.buffer).len() < LINE_LIMIT {
            let _ = text_push(&mut self.buffer, c);
        }
    }

    /// Hands out the buffered line once it is ready and starts a new one;
    /// gives `None` and changes nothing while the line is incomplete.
    pub fn get_command(&mut self) -> (cmd: Option<heapless::String<64>>)
        ensures
            final(self)@ == old(self)@.after_take(),
            match cmd {
                Some(line) => old(self)@.taken() == Some(line_text(line)),
                None => old(self)@.taken().is_none(),
            },
    {
        if self.ready {
            let cmd = text_clone(&self.buffer);
            proof {
                assert(encode_utf8(Seq::<char>::empty()) =~= Seq::<u8>::empty());
            }
            text_clear(&mut self.buffer);
            self.ready = false;
            Some(cmd)
        } else {
            None
        }
    }
}

/// An ordinary character: neither a terminator nor an erase character.
pub open spec fn is_plain(c: char) -> bool {
    !is_terminator(c) && !is_erase(c)
}

/// Every character of `text` is ordinary.
pub open spec fn all_plain(text: Seq<char>) -> bool {
    forall|i: int| 0 <= i < text.len() ==> is_plain(#[trigger] text[i])
}

/// Every character of `text` is ASCII.
pub open spec fn all_ascii(text: Seq<char>) -> bool {
    forall|i: int| 0 <= i < text.len() ==> (#[trigger] text[i] as u32) < 0x80
}

/// Whether an empty buffer takes every character of `text`: the last
/// one arrives while fewer than 63 bytes are buffered, and the whole
/// text fits in the storage.
pub open spec fn fits_line(text: Seq<char>) -> bool {
    text.len() == 0 || (utf8_len(text.drop_last()) < LINE_LIMIT && utf8_len(text) <= LINE_STORAGE)
}

/// The bounds of a line hold after every character.
pub proof fn lemma_line_stays_bounded(line: LineModel, c: char)
    requires
        line.bounded(),
    ensures
        line.after_char(c).bounded(),
{
    lemma_utf8_len_bounds(line.text);
    lemma_utf8_len_push(line.text, c);
    lemma_scalar_width(c);
    if line.text.len() > 0 {
        lemma_utf8_len_push(line.text.drop_last(), line.text.last());
        assert(line.text.drop_last().push(line.text.last()) =~= line.text);
    }
}

/// An erase character on an empty buffer changes nothing.
pub proof fn lemma_erase_on_empty(line: LineModel, c: char)
    requires
        is_erase(c),
        line.text.len() == 0,
    ensures
        line.after_char(c) == line,
{
}

/// An empty buffer takes a text of ordinary characters that fits, whole
/// and without becoming ready.
pub proof fn lemma_fitting_text_is_buffered(text: Seq<char>)
    requires
        all_plain(text),
        fits_line(text),
    ensures
        LineModel::empty().after_chars(text) == (LineModel { text, ready: false }),
    decreases text.len(),
{
    if text.len() == 0 {
        assert(text =~= Seq::<char>::empty());
    } else {
        let head = text.drop_last();
        assert(head.push(text.last()) =~= text);
        lemma_utf8_len_push(head, text.last());
        lemma_scalar_width(text.last());
        if head.len() > 0 {
            assert(head.drop_last().push(head.last()) =~= head);
            lemma_utf8_len_push(head.drop_last(), head.last());
        }
        assert(all_plain(head)) by {
            assert forall|i: int| 0 <= i < head.len() implies is_plain(#[trigger] head[i]) by {
                assert(head[i] == text[i]);
            }
        }
        lemma_fitting_text_is_buffered(head);
        assert(is_plain(text[text.len() - 1]));
    }
}

/// Round trip: a text of ordinary characters that fits, typed into an
/// empty buffer and ended by a terminator, completes one line, which is
/// that text. No line is ready before the terminator, and the buffer is
/// empty again after the extraction.
pub proof fn lemma_line_round_trip(text: Seq<char>, terminator: char)
    requires
        all_plain(text),
        fits_line(text),
        is_terminator(terminator),
    ensures
        LineModel::empty().after_chars(text.push(terminator)).taken() == Some(text),
        LineModel::empty().after_chars(text.push(terminator)).after_take() == LineModel::empty(),
        forall|n: int|
            0 <= n <= text.len() ==> (#[trigger] LineModel::empty().after_chars(
                text.take(n),
            )).taken().is_none(),
{
    lemma_fitting_text_is_buffered(text);
    assert(text.push(terminator).drop_last() =~= text);
    assert forall|n: int| 0 <= n <= text.len() implies (#[trigger] LineModel::empty().after_chars(
        text.take(n),
    )).taken().is_none() by {
        lemma_prefix_fits(text, n);
        lemma_fitting_text_is_buffered(text.take(n));
    }
}

/// A prefix of a text of ordinary characters that fits is such a text
/// too.
pub proof fn lemma_prefix_fits(text: Seq<char>, n: int)
    requires
        all_plain(text),
        fits_line(text),
        0 <= n <= text.len(),
    ensures
        all_plain(text.take(n)),
        fits_line(text.take(n)),
    decreases text.len() - n,
{
    if n == text.len() {
        assert(text.take(n) =~= text);
    } else {
        let head = text.drop_last();
        assert(head.push(text.last()) =~= text);
        lemma_utf8_len_push(head, text.last());
        if head.len() > 0 {
            assert(head.drop_last().push(head.last()) =~= head);
            lemma_utf8_len_push(head.drop_last(), head.last());
        }
        assert(all_plain(head)) by {
            assert forall|i: int| 0 <= i < head.len() implies is_plain(#[trigger] head[i]) by {
                assert(head[i] == text[i]);
            }
        }
        lemma_prefix_fits(head, n);
        assert(head.take(n) =~= text.take(n));
    }
}

/// The encoding of ASCII text has one byte for each character.
pub proof fn lemma_ascii_len(text: Seq<char>)
    requires
        all_ascii(text),
    ensures
        utf8_len(text) == text.len(),
    decreases text.len(),
{
    if text.len() == 0 {
        assert(encode_utf8(text) =~= Seq::<u8>::empty());
    } else {
        let head = text.drop_last();
        assert(head.push(text.last()) =~= text);
        lemma_utf8_len_push(head, text.last());
        assert(all_ascii(head)) by {
            assert forall|i: int| 0 <= i < head.len() implies (#[trigger] head[i] as u32)
                < 0x80 by {
                assert(head[i] == text[i]);
            }
        }
        lemma_ascii_len(head);
        assert((text[text.len() - 1] as u32) < 0x80);
    }
}

/// Capacity: of ordinary ASCII characters typed into an empty buffer
/// without a terminator, the first 63 are kept and the rest dropped,
/// and the line is not ready.
pub proof fn lemma_overflow_is_dropped(text: Seq<char>)
    requires
        all_plain(text),
        all_ascii(text),
    ensures
        LineModel::empty().after_chars(text) == (LineModel {
            text: if text.len() <= LINE_LIMIT {
                text
            } else {
                text.take(LINE_LIMIT as int)
            },
            ready: false,
        }),
    decreases text.len(),
{
    if text.len() == 0 {
        assert(text =~= Seq::<char>::empty());
    } else {
        let head = text.drop_last();
        assert(head.push(text.last()) =~= text);
        assert(all_plain(head) && all_ascii(head)) by {
            assert forall|i: int| 0 <= i < head.len() implies is_plain(#[trigger] head[i]) && (
            head[i] as u32) < 0x80 by {
                assert(head[i] == text[i]);
            }
        }
        lemma_overflow_is_dropped(head);
        assert(is_plain(text[text.len() - 1]));
        assert((text[text.len() - 1] as u32) < 0x80);
        let kept = LineModel::empty().after_chars(head).text;
        assert(all_ascii(kept)) by {
            assert forall|i: int| 0 <= i < kept.len() implies (#[trigger] kept[i] as u32)
                < 0x80 by {
                assert(kept[i] == text[i]);
            }
        }
        lemma_ascii_len(kept);
        if text.len() > LINE_LIMIT {
            assert(head.len() >= LINE_LIMIT);
            assert(kept =~= text.take(LINE_LIMIT as int));
        }
    }
}

} // verus!
