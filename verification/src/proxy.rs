use vstd::prelude::*;

use crate::escaper::Escaper;
use crate::escaper::escaped_text;
use crate::sink::Sink;
use crate::sink::WriteError;
use crate::sink::feed;
use crate::sink::feed_ok;
use crate::sink::lemma_feed_concat;
use crate::sink::write_all;

verus! {

/// The model of a [`WriteProxy`]: the state of the real destination, the
/// state of the working escaper, and the raw input characters the proxy has
/// accepted so far.
pub struct ProxyModel<D, M> {
    /// The model of the real destination.
    pub dest: D,
    /// The model of the working escaper.
    pub escaper: M,
    /// The raw characters accepted so far, before escaping.
    pub input: Seq<char>,
}

/// Interception sink: a [`Sink`] adapter that sits between a value's
/// rendering routine and the real destination.
///
/// Every character written to it is handed to the escaper exactly once, in
/// input order, and the escaper's fragment is written to the real destination
/// before the next character is processed — no buffering, no reordering. A
/// character counts as accepted only when its whole fragment was accepted by
/// the destination; the first destination failure is propagated and stops the
/// render.
pub struct WriteProxy<S, E> {
    dest: S,
    escaper: E,
    input: Ghost<Seq<char>>,
}

impl<S: Sink, E: Escaper> View for WriteProxy<S, E> {
    type V = ProxyModel<S::V, E::V>;

    closed spec fn view(&self) -> ProxyModel<S::V, E::V> {
        ProxyModel { dest: self.dest@, escaper: self.escaper@, input: self.input@ }
    }
}

impl<S: Sink, E: Escaper> WriteProxy<S, E> {
    /// Create a proxy around a destination and a working escaper.
    pub fn new(dest: S, escaper: E) -> (out: WriteProxy<S, E>)
        ensures
            out@ == (ProxyModel { dest: dest@, escaper: escaper@, input: Seq::<char>::empty() }),
    {
        WriteProxy { dest, escaper, input: Ghost(Seq::empty()) }
    }

    /// Dissolve the proxy, handing back the destination and the escaper.
    pub fn into_parts(self) -> (out: (S, E))
        ensures
            out.0@ == self@.dest,
            out.1@ == self@.escaper,
    {
        (self.dest, self.escaper)
    }
}

impl<S: Sink, E: Escaper> Sink for WriteProxy<S, E> {
    open spec fn consumed_of(m: ProxyModel<S::V, E::V>) -> Seq<char> {
        m.input
    }

    open spec fn accepts_of(m: ProxyModel<S::V, E::V>, c: char) -> bool {
        feed_ok::<S>(m.dest, E::output_of(m.escaper, c))
    }

    open spec fn step_of(m: ProxyModel<S::V, E::V>, c: char) -> ProxyModel<S::V, E::V> {
        ProxyModel {
            dest: feed::<S>(m.dest, E::output_of(m.escaper, c)),
            escaper: E::next_of(m.escaper, c),
            input: m.input.push(c),
        }
    }

    proof fn step_consumed(m: ProxyModel<S::V, E::V>, c: char) {
    }

    fn put_char(&mut self, c: char) -> (r: Result<(), WriteError>) {
        let frag = self.escaper.process(c);
        let r = write_all(&mut self.dest, &frag);
        match r {
            Ok(()) => {
                self.input = Ghost(self.input@.push(c));
                Ok(())
            },
            Err(e) => Err(e),
        }
    }
}

/// Feeding raw text through a proxy is feeding the escaped text to the real
/// destination: the proxy accepts the whole raw text exactly when the
/// destination accepts the whole escaped text, and the destination then ends
/// in the state the escaped text feeds it to.
pub proof fn lemma_proxy_feed<S: Sink, E: Escaper>(m: ProxyModel<S::V, E::V>, text: Seq<char>)
    ensures
        feed_ok::<WriteProxy<S, E>>(m, text) <==> feed_ok::<S>(
            m.dest,
            escaped_text::<E>(m.escaper, text),
        ),
        feed_ok::<WriteProxy<S, E>>(m, text) ==> feed::<WriteProxy<S, E>>(m, text).dest
            == feed::<S>(m.dest, escaped_text::<E>(m.escaper, text)),
    decreases text.len(),
{
    if text.len() == 0 {
    } else {
        let c = text[0];
        let frag = E::output_of(m.escaper, c);
        let rest = escaped_text::<E>(E::next_of(m.escaper, c), text.skip(1));
        assert(escaped_text::<E>(m.escaper, text) == frag + rest);
        lemma_feed_concat::<S>(m.dest, frag, rest);
        if feed_ok::<S>(m.dest, frag) {
            let m1 = <WriteProxy<S, E> as Sink>::step_of(m, c);
            lemma_proxy_feed::<S, E>(m1, text.skip(1));
        }
    }
}

} // verus!
