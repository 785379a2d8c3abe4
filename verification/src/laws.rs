use vstd::prelude::*;

use crate::buffers::Buffer;
use crate::buffers::lemma_buffer_accepts_all;
use crate::escaped::Escaped;
use crate::escaper::Escaper;
use crate::escaper::escaped_text;
use crate::escaper::escaper_after;
use crate::policies::Identity;
use crate::render::Render;
use crate::sink::feed;
use crate::sink::feed_ok;

verus! {

/// Identity law: under the passthrough policy [`Identity`], the escaped form
/// of any text is that text itself, so escaping a value yields text identical
/// to its unescaped rendering.
pub proof fn lemma_identity_passthrough(text: Seq<char>)
    ensures
        escaped_text::<Identity>((), text) == text,
    decreases text.len(),
{
    if text.len() == 0 {
        assert(escaped_text::<Identity>((), text) =~= text);
    } else {
        lemma_identity_passthrough(text.skip(1));
        assert(escaped_text::<Identity>((), text) =~= text);
    }
}

/// The per-character escape of `text` under the fixed state `m`: the
/// concatenation of the fragments emitted for each character independently,
/// with no state carried between them.
pub open spec fn pointwise_escaped<E: Escaper>(m: E::V, text: Seq<char>) -> Seq<char>
    decreases text.len(),
{
    if text.len() == 0 {
        Seq::empty()
    } else {
        E::output_of(m, text[0]) + pointwise_escaped::<E>(m, text.skip(1))
    }
}

/// Per-character substitution law: for a policy whose state never changes,
/// the escaped output of a text equals the concatenation of the fragments of
/// its characters taken independently, in order.
pub proof fn lemma_stateless_pointwise<E: Escaper>(m: E::V, text: Seq<char>)
    requires
        forall|c: char| #[trigger] E::next_of(m, c) == m,
    ensures
        escaped_text::<E>(m, text) == pointwise_escaped::<E>(m, text),
    decreases text.len(),
{
    if text.len() > 0 {
        assert(E::next_of(m, text[0]) == m);
        lemma_stateless_pointwise::<E>(m, text.skip(1));
    }
}

/// State-independence of duplicates: two escapers in the same state — as a
/// duplicate and its original are at the moment of duplication, by
/// [`Escaper::duplicate`] — produce identical output for any same subsequent
/// character stream. Each instance owns its state, so later characters fed to
/// one never affect the other.
pub proof fn lemma_duplicate_independent<E: Escaper>(m1: E::V, m2: E::V, rest: Seq<char>)
    requires
        m1 == m2,
    ensures
        escaped_text::<E>(m1, rest) == escaped_text::<E>(m2, rest),
{
}

/// Escaping distributes over concatenation: the escaped form of two texts
/// one after the other is the escaped form of the first followed by the
/// escaped form of the second, taken from the state the first one leaves the
/// escaper in. This is why composite values may stream fragment by fragment:
/// no escaping decision ever needs the text that follows.
pub proof fn lemma_escaped_text_concat<E: Escaper>(m: E::V, a: Seq<char>, b: Seq<char>)
    ensures
        escaped_text::<E>(m, a + b) == escaped_text::<E>(m, a) + escaped_text::<E>(
            escaper_after::<E>(m, a),
            b,
        ),
    decreases a.len(),
{
    if a.len() == 0 {
        assert(a + b =~= b);
        assert(escaped_text::<E>(m, a) + escaped_text::<E>(m, b) =~= escaped_text::<E>(m, b));
    } else {
        assert((a + b)[0] == a[0]);
        assert((a + b).skip(1) =~= a.skip(1) + b);
        lemma_escaped_text_concat::<E>(E::next_of(m, a[0]), a.skip(1), b);
        assert(escaped_text::<E>(m, a + b) =~= escaped_text::<E>(m, a) + escaped_text::<E>(
            escaper_after::<E>(m, a),
            b,
        ));
    }
}

/// Streaming equivalence: the text of a wrapped value is exactly the escaped
/// form of the inner value's own text, and rendering the wrapper into a
/// buffer appends exactly that. Rendering through the wrapper — which streams
/// character by character and never materializes the unescaped text —
/// therefore produces the same output as rendering the value to text first
/// and then escaping that text character by character.
pub proof fn lemma_streaming_equivalence<I: Render, E: Escaper>(w: Escaped<I, E>, m: Seq<char>)
    ensures
        w.text() == escaped_text::<E>(w.escaper@, w.item.text()),
        feed_ok::<Buffer>(m, w.text()),
        feed::<Buffer>(m, w.text()) == m + escaped_text::<E>(w.escaper@, w.item.text()),
{
    lemma_buffer_accepts_all(m, w.text());
}

} // verus!
