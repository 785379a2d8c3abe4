use vstd::prelude::*;

verus! {

/// Character-wise processor implementing some escaping logic.
///
/// Types implementing this trait define how a string or value is escaped,
/// based on individual `char`s. An implementation's [`process`](Escaper::process)
/// function receives one character and produces the fragment that stands for
/// it in the escaped output.
///
/// In simple cases the fragment is either the input character itself or an
/// escape sequence. More complex escaping logic may be a state machine driven
/// by the input characters: [`process`](Escaper::process) takes `self` by
/// mutable reference, so state may be carried across invocations, and a
/// fragment may legitimately be empty (deferring output) or several characters
/// long (flushing deferred state).
///
/// An escaper's state is modelled by its [`View`]. Its behaviour is pinned
/// down by two specification functions over that model:
/// [`output_of`](Escaper::output_of) gives the fragment emitted for a
/// character in a given state, and [`next_of`](Escaper::next_of) gives the
/// state the escaper moves to. The escaped form of a whole text is their
/// iteration, [`escaped_text`].
///
/// Escaping of a single value must be performed on one instance, so that state
/// is carried across its characters. [`duplicate`](Escaper::duplicate) yields
/// an independent instance with identical current state; duplicates are used
/// to start fresh, independent sessions, never to continue an existing one.
pub trait Escaper: View + Sized {
    /// The fragment an escaper in state `m` emits for the character `c`.
    spec fn output_of(m: Self::V, c: char) -> Seq<char>;

    /// The state an escaper in state `m` moves to after processing `c`.
    spec fn next_of(m: Self::V, c: char) -> Self::V;

    /// Process a single input character.
    ///
    /// Returns the fragment of escaped output that stands for `c`, and moves
    /// this escaper to its next state. The concatenation of the fragments
    /// returned for each character of a text, in order, is the correctly
    /// escaped form of that text.
    fn process(&mut self, c: char) -> (out: Vec<char>)
        ensures
            out@ == Self::output_of(old(self)@, c),
            final(self)@ == Self::next_of(old(self)@, c),
    ;

    /// Duplicate this escaper.
    ///
    /// The result has exactly the state this escaper has at the moment of
    /// duplication, and shares no state with it afterwards.
    fn duplicate(&self) -> (out: Self)
        ensures
            out@ == self@,
    ;
}

/// The fully escaped form of `text` under an escaper in state `m`: the
/// concatenation of the fragments emitted for each character of `text` in
/// order, with the state carried from one character to the next.
pub open spec fn escaped_text<E: Escaper>(m: E::V, text: Seq<char>) -> Seq<char>
    decreases text.len(),
{
    if text.len() == 0 {
        Seq::empty()
    } else {
        E::output_of(m, text[0]) + escaped_text::<E>(E::next_of(m, text[0]), text.skip(1))
    }
}

/// The state an escaper in state `m` is in after processing every character
/// of `text`, in order.
pub open spec fn escaper_after<E: Escaper>(m: E::V, text: Seq<char>) -> E::V
    decreases text.len(),
{
    if text.len() == 0 {
        m
    } else {
        escaper_after::<E>(E::next_of(m, text[0]), text.skip(1))
    }
}

} // verus!
