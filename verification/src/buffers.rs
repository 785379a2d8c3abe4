use vstd::prelude::*;

use crate::sink::Sink;
use crate::sink::WriteError;
use crate::sink::feed;
use crate::sink::feed_ok;

verus! {

/// A destination that accepts every character and keeps them all.
///
/// Its model is simply the sequence of characters written so far.
pub struct Buffer {
    chars: Vec<char>,
}

impl View for Buffer {
    type V = Seq<char>;

    closed spec fn view(&self) -> Seq<char> {
        self.chars@
    }
}

impl Buffer {
    /// Create an empty buffer.
    pub fn new() -> (out: Buffer)
        ensures
            out@ == Seq::<char>::empty(),
    {
        Buffer { chars: Vec::new() }
    }

    /// The characters written so far, in order.
    pub fn chars(&self) -> (out: &Vec<char>)
        ensures
            out@ == self@,
    {
        &self.chars
    }

    /// Turn the buffer into a `String` holding exactly its characters.
    ///
    /// Relies on `String`'s implementation of `core::iter::FromIterator<char>`:
    /// collecting characters yields the string made of exactly those
    /// characters, in order.
    #[verifier::external_body]
    pub fn into_string(self) -> (out: String)
        ensures
            out@ == self@,
    {
        self.chars.into_iter().collect()
    }
}

impl Sink for Buffer {
    open spec fn consumed_of(m: Seq<char>) -> Seq<char> {
        m
    }

    open spec fn accepts_of(m: Seq<char>, c: char) -> bool {
        true
    }

    open spec fn step_of(m: Seq<char>, c: char) -> Seq<char> {
        m.push(c)
    }

    proof fn step_consumed(m: Seq<char>, c: char) {
    }

    fn put_char(&mut self, c: char) -> (r: Result<(), WriteError>) {
        self.chars.push(c);
        Ok(())
    }
}

/// A [`Buffer`] never rejects: feeding it any text succeeds and appends the
/// whole text to its contents.
pub proof fn lemma_buffer_accepts_all(m: Seq<char>, text: Seq<char>)
    ensures
        feed_ok::<Buffer>(m, text),
        feed::<Buffer>(m, text) == m + text,
    decreases text.len(),
{
    if text.len() == 0 {
        assert(m + text =~= m);
    } else {
        lemma_buffer_accepts_all(m.push(text[0]), text.skip(1));
        assert(m + text =~= m.push(text[0]) + text.skip(1));
    }
}

/// The model of a [`BoundedSink`]: the characters written so far and the
/// total number of characters the sink is willing to accept.
pub struct BoundedModel {
    /// The characters accepted so far, in order.
    pub written: Seq<char>,
    /// The total number of characters this sink accepts before failing.
    pub limit: nat,
}

/// A destination with a fixed capacity: it accepts characters until `limit`
/// of them have been written, and fails on every write after that.
///
/// This is the stub destination for exercising failure propagation: paired
/// with any escaper, it makes a render fail after exactly `limit` committed
/// characters.
pub struct BoundedSink {
    chars: Vec<char>,
    limit: usize,
}

impl View for BoundedSink {
    type V = BoundedModel;

    closed spec fn view(&self) -> BoundedModel {
        BoundedModel { written: self.chars@, limit: self.limit as nat }
    }
}

impl BoundedSink {
    /// Create an empty sink that accepts `limit` characters in all.
    pub fn new(limit: usize) -> (out: BoundedSink)
        ensures
            out@ == (BoundedModel { written: Seq::<char>::empty(), limit: limit as nat }),
    {
        BoundedSink { chars: Vec::new(), limit }
    }

    /// The characters accepted so far, in order.
    pub fn chars(&self) -> (out: &Vec<char>)
        ensures
            out@ == self@.written,
    {
        &self.chars
    }

    /// How many characters have been accepted so far.
    pub fn count(&self) -> (n: usize)
        ensures
            n == self@.written.len(),
    {
        self.chars.len()
    }
}

impl Sink for BoundedSink {
    open spec fn consumed_of(m: BoundedModel) -> Seq<char> {
        m.written
    }

    open spec fn accepts_of(m: BoundedModel, c: char) -> bool {
        m.written.len() < m.limit
    }

    open spec fn step_of(m: BoundedModel, c: char) -> BoundedModel {
        BoundedModel { written: m.written.push(c), limit: m.limit }
    }

    proof fn step_consumed(m: BoundedModel, c: char) {
    }

    fn put_char(&mut self, c: char) -> (r: Result<(), WriteError>)
        ensures
            r is Err ==> final(self)@ == old(self)@,
    {
        if self.chars.len() < self.limit {
            self.chars.push(c);
            Ok(())
        } else {
            Err(WriteError)
        }
    }
}

} // verus!
