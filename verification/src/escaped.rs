use vstd::prelude::*;

use crate::escaper::Escaper;
use crate::escaper::escaped_text;
use crate::policies::DebugEscaper;
use crate::policies::DefaultEscaper;
use crate::policies::UnicodeEscaper;
use crate::proxy::WriteProxy;
use crate::proxy::lemma_proxy_feed;
use crate::render::Render;
use crate::sink::Sink;
use crate::sink::WriteError;

verus! {

/// Wrapper for escaping values while they render.
///
/// This type pairs a renderable value with an [`Escaper`]. When the pair is
/// rendered, the inner value's own rendering routine runs unchanged, but
/// against an interception sink ([`WriteProxy`]) that hands every character
/// to a fresh duplicate of the escaper and streams each resulting fragment to
/// the real destination at once. The text of the pair is therefore
/// [`escaped_text`] of the inner value's text — without the unescaped text
/// ever being materialized.
#[derive(Clone, Copy, Debug)]
pub struct Escaped<I, E> {
    /// The wrapped value.
    pub item: I,
    /// The escaper template; each render works on a duplicate of it.
    pub escaper: E,
}

impl<I: Render, E: Escaper> Escaped<I, E> {
    /// Wrap `item` for escaped rendering with the given escaper.
    pub fn new(item: I, escaper: E) -> (out: Escaped<I, E>)
        ensures
            out.item == item,
            out.escaper == escaper,
    {
        Escaped { item, escaper }
    }

    /// Wrap `item` for escaped rendering with a default escaper.
    pub fn new_default(item: I) -> (out: Escaped<I, E>) where E: Default
        ensures
            out.item == item,
            call_ensures(E::default, (), out.escaper),
    {
        Escaped { item, escaper: E::default() }
    }
}

impl<I: Render, E: Escaper> Render for Escaped<I, E> {
    open spec fn text(&self) -> Seq<char> {
        escaped_text::<E>(self.escaper@, self.item.text())
    }

    fn render<S: Sink>(&self, sink: S) -> (out: (Result<(), WriteError>, S)) {
        let proxy = WriteProxy::new(sink, self.escaper.duplicate());
        proof {
            lemma_proxy_feed::<S, E>(proxy@, self.item.text());
        }
        let (r, rest) = self.item.render(proxy);
        let (dest, _working) = rest.into_parts();
        (r, dest)
    }
}

/// Convenience trait for escaping renderable values.
///
/// This trait augments every [`Render`] type with functions wrapping the
/// value in an [`Escaped`]; importing it lets any renderable value be wrapped
/// fluently.
pub trait Escapable: Render + Sized {
    /// Wrap this value in an [`Escaped`] using the given escaper.
    fn escaped_with<E: Escaper>(self, escaper: E) -> (out: Escaped<Self, E>)
        ensures
            out.item == self,
            out.escaper == escaper,
    ;

    /// Wrap this value in an [`Escaped`] using a default escaper.
    fn escaped_with_default<E: Escaper + Default>(self) -> (out: Escaped<Self, E>)
        ensures
            out.item == self,
            call_ensures(E::default, (), out.escaper),
    ;

    /// Wrap this value for escaping with the default escaping convention.
    fn escaped_default(self) -> (out: Escaped<Self, DefaultEscaper>)
        ensures
            out.item == self,
            out.escaper == DefaultEscaper,
    ;

    /// Wrap this value for escaping with the debug-style convention.
    fn escaped_debug(self) -> (out: Escaped<Self, DebugEscaper>)
        ensures
            out.item == self,
            out.escaper == DebugEscaper,
    ;

    /// Wrap this value for escaping every character to its code-point form.
    fn escaped_unicode(self) -> (out: Escaped<Self, UnicodeEscaper>)
        ensures
            out.item == self,
            out.escaper == UnicodeEscaper,
    ;
}

impl<T: Render> Escapable for T {
    fn escaped_with<E: Escaper>(self, escaper: E) -> (out: Escaped<Self, E>) {
        Escaped::new(self, escaper)
    }

    fn escaped_with_default<E: Escaper + Default>(self) -> (out: Escaped<Self, E>) {
        Escaped::new_default(self)
    }

    fn escaped_default(self) -> (out: Escaped<Self, DefaultEscaper>) {
        Escaped::new(self, DefaultEscaper)
    }

    fn escaped_debug(self) -> (out: Escaped<Self, DebugEscaper>) {
        Escaped::new(self, DebugEscaper)
    }

    fn escaped_unicode(self) -> (out: Escaped<Self, UnicodeEscaper>) {
        Escaped::new(self, UnicodeEscaper)
    }
}

} // verus!
