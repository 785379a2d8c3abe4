use vstd::prelude::*;

use crate::buffers::Buffer;
use crate::buffers::lemma_buffer_accepts_all;
use crate::sink::Sink;
use crate::sink::WriteError;
use crate::sink::feed;
use crate::sink::feed_ok;
use crate::sink::lemma_feed_concat;
use crate::sink::write_all;

verus! {

/// A value that can render itself as text into any [`Sink`].
///
/// This is the capability the escaping machinery asks of the values it wraps:
/// nothing more than writing a text, possibly fragment by fragment, into a
/// generic destination. The specification function [`text`](Render::text)
/// gives that text; [`render`](Render::render) writes exactly it, stopping at
/// the destination's first failure.
pub trait Render {
    /// The text this value renders as.
    spec fn text(&self) -> Seq<char>;

    /// Render this value into `sink`, taken by value and handed back.
    ///
    /// The characters of [`text`](Render::text) are offered to the sink in
    /// order. The call succeeds exactly when the sink accepts them all, and
    /// the sink then holds its prior text extended by them. On failure the
    /// sink's own error contract determines what was committed; nothing is
    /// written after the first failure.
    fn render<S: Sink>(&self, sink: S) -> (out: (Result<(), WriteError>, S))
        ensures
            out.0 is Ok <==> feed_ok::<S>(sink@, self.text()),
            out.0 is Ok ==> out.1@ == feed::<S>(sink@, self.text()),
    ;
}

/// A plain piece of text: the simplest renderable value.
pub struct Text {
    /// The characters of the text, in order.
    pub chars: Vec<char>,
}

impl Text {
    /// The given characters as a renderable value.
    pub fn from_chars(chars: Vec<char>) -> (out: Text)
        ensures
            out.text() == chars@,
    {
        Text { chars }
    }

    /// The text of the given string slice as a renderable value.
    pub fn new(s: &str) -> (out: Text)
        ensures
            out.text() == s@,
    {
        Text { chars: str_chars(s) }
    }
}

/// Relies on `str::chars`: iterating a string slice yields exactly its
/// characters, in order.
#[verifier::external_body]
fn str_chars(s: &str) -> (out: Vec<char>)
    ensures
        out@ == s@,
{
    s.chars().collect()
}

impl Render for Text {
    open spec fn text(&self) -> Seq<char> {
        self.chars@
    }

    fn render<S: Sink>(&self, sink: S) -> (out: (Result<(), WriteError>, S))
        ensures
            out.0 is Err ==> S::consumed_of(out.1@) == S::consumed_of(
                feed::<S>(sink@, self.text()),
            ),
    {
        let mut dest = sink;
        let r = write_all(&mut dest, &self.chars);
        (r, dest)
    }
}

/// Two renderable values one after the other.
///
/// Rendering writes the first value's text, then — only if the destination
/// accepted all of it — the second's. This is how composite or nested values
/// stream through the escaping machinery without ever being buffered whole.
pub struct Concat<A, B> {
    /// The value rendered first.
    pub first: A,
    /// The value rendered after it.
    pub second: B,
}

impl<A: Render, B: Render> Concat<A, B> {
    /// Pair two renderable values into one.
    pub fn new(first: A, second: B) -> (out: Concat<A, B>)
        ensures
            out.first == first,
            out.second == second,
    {
        Concat { first, second }
    }
}

impl<A: Render, B: Render> Render for Concat<A, B> {
    open spec fn text(&self) -> Seq<char> {
        self.first.text() + self.second.text()
    }

    fn render<S: Sink>(&self, sink: S) -> (out: (Result<(), WriteError>, S)) {
        let (r1, s1) = self.first.render(sink);
        proof {
            lemma_feed_concat::<S>(sink@, self.first.text(), self.second.text());
        }
        match r1 {
            Ok(()) => self.second.render(s1),
            Err(e) => (Err(e), s1),
        }
    }
}

/// Render `value` to a fresh `String` holding exactly its text.
///
/// A [`Buffer`] accepts every character, so rendering into one cannot fail.
pub fn render_to_string<T: Render>(value: &T) -> (out: String)
    ensures
        out@ == value.text(),
{
    let buf = Buffer::new();
    proof {
        lemma_buffer_accepts_all(buf@, value.text());
        assert(Seq::<char>::empty() + value.text() =~= value.text());
    }
    let (_r, buf2) = value.render(buf);
    buf2.into_string()
}

} // verus!
