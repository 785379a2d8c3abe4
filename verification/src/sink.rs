use vstd::prelude::*;

verus! {

/// Failure of the real output destination.
///
/// This is the single error category of the crate: it is raised by the
/// destination a text is rendered into, and propagated verbatim through the
/// interception machinery to the caller. The crate introduces no error kinds
/// of its own and performs no recovery.
#[derive(Clone, Copy, Debug, PartialEq, Eq)]
pub struct WriteError;

/// A destination that accepts text one character at a time and can fail.
///
/// A sink's state is modelled by its [`View`]. Three specification functions
/// over that model pin its behaviour down: [`consumed_of`](Sink::consumed_of)
/// gives the characters the sink has accepted so far, in order;
/// [`accepts_of`](Sink::accepts_of) says whether the next character is
/// accepted in a given state; and [`step_of`](Sink::step_of) gives the state
/// after a character is accepted. Feeding a whole text is their iteration,
/// [`feed`].
///
/// Whether a write fails is the sink's own affair: the machinery of this
/// crate propagates the failure unchanged and writes nothing further.
pub trait Sink: View + Sized {
    /// The characters a sink in state `m` has accepted so far, in order.
    spec fn consumed_of(m: Self::V) -> Seq<char>;

    /// Whether a sink in state `m` accepts the character `c`.
    spec fn accepts_of(m: Self::V, c: char) -> bool;

    /// The state a sink in state `m` moves to after accepting `c`.
    spec fn step_of(m: Self::V, c: char) -> Self::V;

    /// Accepting a character appends exactly that character to the consumed
    /// text.
    proof fn step_consumed(m: Self::V, c: char)
        ensures
            Self::consumed_of(Self::step_of(m, c)) == Self::consumed_of(m).push(c),
    ;

    /// Write a single character to this sink.
    ///
    /// On success the character has been accepted. On failure nothing was
    /// consumed by this call; whatever the sink committed earlier stands, and
    /// the failure is for the caller to propagate.
    fn put_char(&mut self, c: char) -> (r: Result<(), WriteError>)
        ensures
            r is Ok <==> Self::accepts_of(old(self)@, c),
            r is Ok ==> final(self)@ == Self::step_of(old(self)@, c),
            r is Err ==> Self::consumed_of(final(self)@) == Self::consumed_of(old(self)@),
    ;
}

/// The state a sink in state `m` is in after the characters of `text` are
/// written to it one by one, stopping at the first character it rejects.
pub open spec fn feed<S: Sink>(m: S::V, text: Seq<char>) -> S::V
    decreases text.len(),
{
    if text.len() == 0 {
        m
    } else if S::accepts_of(m, text[0]) {
        feed::<S>(S::step_of(m, text[0]), text.skip(1))
    } else {
        m
    }
}

/// Whether a sink in state `m` accepts every character of `text`, written one
/// by one.
pub open spec fn feed_ok<S: Sink>(m: S::V, text: Seq<char>) -> bool
    decreases text.len(),
{
    text.len() == 0 || (S::accepts_of(m, text[0]) && feed_ok::<S>(S::step_of(m, text[0]), text.skip(1)))
}

/// How many leading characters of `text` a sink in state `m` accepts before
/// it first rejects one.
pub open spec fn feed_count<S: Sink>(m: S::V, text: Seq<char>) -> nat
    decreases text.len(),
{
    if text.len() == 0 {
        0
    } else if S::accepts_of(m, text[0]) {
        1 + feed_count::<S>(S::step_of(m, text[0]), text.skip(1))
    } else {
        0
    }
}

/// Feeding a text consumes exactly its accepted prefix: the sink ends with
/// its prior consumed text extended by the first [`feed_count`] characters of
/// `text`, and the whole text is accepted exactly when that count is the
/// whole length.
pub proof fn lemma_feed_consumed<S: Sink>(m: S::V, text: Seq<char>)
    ensures
        feed_count::<S>(m, text) <= text.len(),
        S::consumed_of(feed::<S>(m, text)) == S::consumed_of(m) + text.take(
            feed_count::<S>(m, text) as int,
        ),
        feed_ok::<S>(m, text) <==> feed_count::<S>(m, text) == text.len(),
    decreases text.len(),
{
    if text.len() == 0 {
        assert(S::consumed_of(m) + text.take(0) =~= S::consumed_of(m));
    } else if S::accepts_of(m, text[0]) {
        let m1 = S::step_of(m, text[0]);
        S::step_consumed(m, text[0]);
        lemma_feed_consumed::<S>(m1, text.skip(1));
        let k1 = feed_count::<S>(m1, text.skip(1));
        assert(S::consumed_of(m) + text.take(1 + k1 as int) =~= S::consumed_of(m).push(text[0])
            + text.skip(1).take(k1 as int));
    } else {
        assert(S::consumed_of(m) + text.take(0) =~= S::consumed_of(m));
    }
}

/// Feeding a concatenation feeds the first part, then — only if the first
/// part was accepted in full — the second.
pub proof fn lemma_feed_concat<S: Sink>(m: S::V, a: Seq<char>, b: Seq<char>)
    ensures
        feed_ok::<S>(m, a + b) <==> (feed_ok::<S>(m, a) && feed_ok::<S>(feed::<S>(m, a), b)),
        feed::<S>(m, a + b) == (if feed_ok::<S>(m, a) {
            feed::<S>(feed::<S>(m, a), b)
        } else {
            feed::<S>(m, a)
        }),
    decreases a.len(),
{
    if a.len() == 0 {
        assert(a + b =~= b);
    } else {
        assert((a + b)[0] == a[0]);
        if S::accepts_of(m, a[0]) {
            assert((a + b).skip(1) =~= a.skip(1) + b);
            lemma_feed_concat::<S>(S::step_of(m, a[0]), a.skip(1), b);
        } else {
            assert((a + b).len() != 0);
        }
    }
}

/// Write every character of `frag` to `sink`, in order, stopping at the
/// first failure.
///
/// On success the whole fragment was accepted; on failure the sink consumed
/// exactly the accepted prefix of the fragment and the first failure is
/// returned.
pub fn write_all<S: Sink>(sink: &mut S, frag: &Vec<char>) -> (r: Result<(), WriteError>)
    ensures
        r is Ok <==> feed_ok::<S>(old(sink)@, frag@),
        r is Ok ==> final(sink)@ == feed::<S>(old(sink)@, frag@),
        r is Err ==> S::consumed_of(final(sink)@) == S::consumed_of(
            feed::<S>(old(sink)@, frag@),
        ),
{
    let ghost m0: S::V = sink@;
    let mut i: usize = 0;
    while i < frag.len()
        invariant
            i <= frag.len(),
            m0 == old(sink)@,
            feed_ok::<S>(m0, frag@.take(i as int)),
            sink@ == feed::<S>(m0, frag@.take(i as int)),
        decreases frag.len() - i,
    {
        let c = frag[i];
        let ghost before: S::V = sink@;
        let r = sink.put_char(c);
        proof {
            let sc: Seq<char> = seq![c];
            lemma_feed_concat::<S>(m0, frag@.take(i as int), sc);
            assert(frag@.take(i as int + 1) =~= frag@.take(i as int) + sc);
            assert(sc.skip(1) =~= Seq::<char>::empty());
            assert(sc[0] == c);
        }
        match r {
            Ok(()) => {
                proof {
                    let sc: Seq<char> = seq![c];
                    let stepped: S::V = S::step_of(before, c);
                    assert(sc.skip(1) =~= Seq::<char>::empty());
                    assert(feed_ok::<S>(stepped, sc.skip(1)));
                    assert(feed::<S>(stepped, sc.skip(1)) == stepped);
                    assert(feed_ok::<S>(before, sc));
                    assert(feed::<S>(before, sc) == stepped);
                }
            },
            Err(e) => {
                proof {
                    assert(frag@ =~= frag@.take(i as int) + frag@.skip(i as int));
                    lemma_feed_concat::<S>(m0, frag@.take(i as int), frag@.skip(i as int));
                    assert(frag@.skip(i as int)[0] == c);
                    assert(feed::<S>(before, frag@.skip(i as int)) == before);
                }
                return Err(e);
            },
        }
        i += 1;
    }
    proof {
        assert(frag@.take(frag@.len() as int) =~= frag@);
    }
    Ok(())
}

} // verus!
