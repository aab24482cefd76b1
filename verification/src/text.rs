//! The fixed-capacity text buffer that carries one message to the display.

use crate::buttons::{Button, ButtonEvent};
use arrayvec::ArrayString;
use core::fmt::Write;
use vstd::prelude::*;
use vstd::utf8::{encode_utf8, is_ascii_chars, is_ascii_chars_encode_utf8};

verus! {

/// Bytes that one message can hold.
pub const CAPACITY: usize = 256;

/// A message of at most 256 bytes, held inline in an `arrayvec::ArrayString`
/// of that capacity.
#[verifier::external_body]
pub struct TextBuffer {
    inner: ArrayString<[u8; 256]>,
}

/// The characters that a message holds, first to last.
pub uninterp spec fn text_of(buf: TextBuffer) -> Seq<char>;

/// The text that the board crate's `Debug` gives for an event on `button`
/// with the edge `down`.
pub uninterp spec fn event_debug_text(button: Button, down: bool) -> Seq<char>;

/// `ArrayString::new`: a buffer that holds no text.
#[verifier::external_body]
fn empty_buffer() -> (buf: TextBuffer)
    ensures
        text_of(buf) == Seq::<char>::empty(),
{
    TextBuffer { inner: ArrayString::new() }
}

/// `ArrayString::try_push`: appends `c` if its UTF-8 bytes fit in what is left
/// of the capacity, and otherwise leaves the buffer as it was.
#[verifier::external_body]
fn try_push_char(buf: &mut TextBuffer, c: char) -> (pushed: bool)
    ensures
        pushed == (encode_utf8(text_of(*old(buf))).len() + encode_utf8(seq![c]).len() <= CAPACITY),
        pushed ==> text_of(*final(buf)) == text_of(*old(buf)).push(c),
        !pushed ==> text_of(*final(buf)) == text_of(*old(buf)),
{
    buf.inner.try_push(c).is_ok()
}

/// `ArrayString::try_push_str`: appends `s` whole if its bytes fit in what is
/// left of the capacity, and otherwise leaves the buffer as it was.
#[verifier::external_body]
fn try_push_text(buf: &mut TextBuffer, s: &str) -> (pushed: bool)
    ensures
        pushed == (encode_utf8(text_of(*old(buf))).len() + encode_utf8(s@).len() <= CAPACITY),
        pushed ==> text_of(*final(buf)) == text_of(*old(buf)) + s@,
        !pushed ==> text_of(*final(buf)) == text_of(*old(buf)),
{
    buf.inner.try_push_str(s).is_ok()
}

/// `Debug` of `wio_terminal::ButtonEvent`, written by `write!` through
/// `ArrayString`'s `fmt::Write`: the event's text is appended whole if its
/// bytes fit in what is left of the capacity, and not otherwise.
#[verifier::external_body]
fn try_write_event(buf: &mut TextBuffer, event: &ButtonEvent) -> (written: bool)
    ensures
        written == (encode_utf8(text_of(*old(buf))).len() + encode_utf8(
            event_debug_text(event.button, event.down),
        ).len() <= CAPACITY),
        written ==> text_of(*final(buf)) == text_of(*old(buf)) + event_debug_text(
            event.button,
            event.down,
        ),
{
    let button = match event.button {
        Button::TopLeft => wio_terminal::Button::TopLeft,
        Button::TopMiddle => wio_terminal::Button::TopMiddle,
        Button::Down => wio_terminal::Button::Down,
        Button::Up => wio_terminal::Button::Up,
        Button::Left => wio_terminal::Button::Left,
        Button::Right => wio_terminal::Button::Right,
        Button::Click => wio_terminal::Button::Click,
    };
    write!(buf.inner, "{:?}", wio_terminal::ButtonEvent { button, down: event.down }).is_ok()
}

/// `ArrayString::as_str`: the text held, as a string slice, which is never
/// longer than the capacity.
#[verifier::external_body]
fn buffer_str(buf: &TextBuffer) -> (s: &str)
    ensures
        s@ == text_of(*buf),
        encode_utf8(s@).len() <= CAPACITY,
{
    buf.inner.as_str()
}

impl View for TextBuffer {
    type V = Seq<char>;

    /// The text held.
    open spec fn view(&self) -> Seq<char> {
        text_of(*self)
    }
}

/// The bytes of two texts in a row are the bytes of the first and then the
/// bytes of the second.
pub proof fn lemma_bytes_of_concatenation(a: Seq<char>, b: Seq<char>)
    ensures
        encode_utf8(a + b) == encode_utf8(a) + encode_utf8(b),
    decreases a.len(),
{
    if a.len() == 0 {
    } else {
        assert((a + b).drop_first() == a.drop_first() + b);
        lemma_bytes_of_concatenation(a.drop_first(), b);
    }
}

/// Plain text takes one byte to the character, also at the end of any other
/// text, and two plain texts in a row are plain.
pub proof fn lemma_bytes_after_plain_text(text: Seq<char>, tail: Seq<char>)
    requires
        is_ascii_chars(tail),
    ensures
        encode_utf8(tail).len() == tail.len(),
        encode_utf8(text + tail).len() == encode_utf8(text).len() + tail.len(),
        is_ascii_chars(text) ==> is_ascii_chars(text + tail),
{
    is_ascii_chars_encode_utf8(tail);
    lemma_bytes_of_concatenation(text, tail);
}

impl TextBuffer {
    /// The bytes that the message takes.
    pub open spec fn byte_len(&self) -> nat {
        encode_utf8(self@).len()
    }

    /// The message is plain ASCII, one byte to the character.
    pub open spec fn is_plain(&self) -> bool {
        is_ascii_chars(self@)
    }

    /// An empty message.
    pub fn new() -> (buf: TextBuffer)
        ensures
            buf@ == Seq::<char>::empty(),
            buf.byte_len() == 0,
            buf.is_plain(),
    {
        empty_buffer()
    }

    /// The text of the message.
    pub fn as_str(&self) -> (s: &str)
        ensures
            s@ == self@,
    {
        buffer_str(self)
    }

    /// Appends `c` if its bytes fit, and says whether they did.
    pub(crate) fn try_put(&mut self, c: char) -> (pushed: bool)
        ensures
            pushed == (old(self).byte_len() + encode_utf8(seq![c]).len() <= CAPACITY),
            pushed ==> final(self)@ == old(self)@.push(c),
            !pushed ==> final(self)@ == old(self)@,
    {
        try_push_char(self, c)
    }

    /// Appends `s` if its bytes fit, and says whether they did.
    pub(crate) fn try_put_str(&mut self, s: &str) -> (pushed: bool)
        ensures
            pushed == (old(self).byte_len() + encode_utf8(s@).len() <= CAPACITY),
            pushed ==> final(self)@ == old(self)@ + s@,
            !pushed ==> final(self)@ == old(self)@,
    {
        try_push_text(self, s)
    }

    /// Appends the text of a button event if its bytes fit, and says whether
    /// they did.
    pub(crate) fn try_put_event(&mut self, event: &ButtonEvent) -> (pushed: bool)
        ensures
            pushed == (old(self).byte_len() + encode_utf8(
                event_debug_text(event.button, event.down),
            ).len() <= CAPACITY),
            pushed ==> final(self)@ == old(self)@ + event_debug_text(event.button, event.down),
    {
        try_write_event(self, event)
    }

    /// Appends one ASCII character to a message that has room for it.
    pub(crate) fn put(&mut self, c: char)
        requires
            c <= '\u{7f}',
            old(self).byte_len() < CAPACITY,
        ensures
            final(self)@ == old(self)@.push(c),
            final(self).byte_len() == old(self).byte_len() + 1,
            old(self).is_plain() ==> final(self).is_plain(),
    {
        proof {
            assert(self@.push(c) == self@ + seq![c]);
            lemma_bytes_after_plain_text(self@, seq![c]);
        }
        let pushed = try_push_char(self, c);
        assert(pushed);
    }

    /// Appends a text to a message that has room for it.
    pub(crate) fn put_str(&mut self, s: &str)
        requires
            old(self).byte_len() + encode_utf8(s@).len() <= CAPACITY,
        ensures
            final(self)@ == old(self)@ + s@,
            final(self).byte_len() == old(self).byte_len() + encode_utf8(s@).len(),
            old(self).is_plain() && is_ascii_chars(s@) ==> final(self).is_plain(),
    {
        proof {
            lemma_bytes_of_concatenation(self@, s@);
        }
        let pushed = try_push_text(self, s);
        assert(pushed);
    }

    /// The bytes that the message takes.
    pub(crate) fn len(&self) -> (n: usize)
        ensures
            n == self.byte_len(),
    {
        buffer_str(self).len()
    }
}

} // verus!
