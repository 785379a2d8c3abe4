use vstd::prelude::*;

use crate::escaper::Escaper;

verus! {

/// The hexadecimal digit for `d`, lower case: `0`..`9` then `a`..`f`.
pub open spec fn hex_digit(d: nat) -> char {
    if d < 10 {
        (d + 48) as char
    } else {
        (d + 87) as char
    }
}

/// The shortest lower-case hexadecimal representation of `n`, most
/// significant digit first and without leading zeros.
pub open spec fn hex_rep(n: nat) -> Seq<char>
    decreases n,
{
    if n < 16 {
        seq![hex_digit(n)]
    } else {
        hex_rep(n / 16).push(hex_digit(n % 16))
    }
}

/// The Unicode code point of `c`.
pub open spec fn code_point(c: char) -> nat {
    (c as u32) as nat
}

/// The code-point escape of `c`: a backslash, `u`, and the shortest
/// hexadecimal form of the code point between braces.
pub open spec fn unicode_escape(c: char) -> Seq<char> {
    seq!['\\', 'u', '{'] + hex_rep(code_point(c)) + seq!['}']
}

/// The default escape of `c`, biased toward producing literals that are
/// legal in a variety of languages: tab, carriage return, line feed, both
/// quotes and the backslash get a backslash escape, printable ASCII stands
/// for itself, and everything else gets its code-point escape.
pub open spec fn default_escape(c: char) -> Seq<char> {
    if c == '\t' {
        seq!['\\', 't']
    } else if c == '\r' {
        seq!['\\', 'r']
    } else if c == '\n' {
        seq!['\\', 'n']
    } else if c == '\'' {
        seq!['\\', '\'']
    } else if c == '"' {
        seq!['\\', '"']
    } else if c == '\\' {
        seq!['\\', '\\']
    } else if ' ' <= c && c <= '~' {
        seq![c]
    } else {
        unicode_escape(c)
    }
}

/// The hexadecimal digit character for `d`.
fn hex_digit_exec(d: u32) -> (out: char)
    requires
        d < 16,
    ensures
        out == hex_digit(d as nat),
{
    let b: u8 = if d < 10 {
        48 + d as u8
    } else {
        87 + d as u8
    };
    b as char
}

/// Append the shortest hexadecimal representation of `n` to `out`.
fn push_hex(out: &mut Vec<char>, n: u32)
    ensures
        final(out)@ == old(out)@ + hex_rep(n as nat),
    decreases n,
{
    if n < 16 {
        out.push(hex_digit_exec(n));
        proof {
            assert(old(out)@ + hex_rep(n as nat) =~= old(out)@.push(hex_digit(n as nat)));
        }
    } else {
        push_hex(out, n / 16);
        out.push(hex_digit_exec(n % 16));
        proof {
            assert(old(out)@ + hex_rep(n as nat) =~= (old(out)@ + hex_rep(n as nat / 16)).push(
                hex_digit(n as nat % 16),
            ));
        }
    }
}

/// The passthrough policy: every character stands for itself, unescaped.
#[derive(Clone, Copy, Debug, PartialEq, Eq)]
pub struct Identity;

impl View for Identity {
    type V = ();

    open spec fn view(&self) -> () {
        ()
    }
}

impl Default for Identity {
    fn default() -> (out: Identity)
        ensures
            out == Identity,
    {
        Identity
    }
}

impl Escaper for Identity {
    open spec fn output_of(m: (), c: char) -> Seq<char> {
        seq![c]
    }

    open spec fn next_of(m: (), c: char) -> () {
        ()
    }

    fn process(&mut self, c: char) -> (out: Vec<char>) {
        let mut v: Vec<char> = Vec::new();
        v.push(c);
        proof {
            assert(v@ =~= seq![c]);
        }
        v
    }

    fn duplicate(&self) -> (out: Identity) {
        Identity
    }
}

/// The default escaping policy: each character becomes [`default_escape`]
/// of it.
#[derive(Clone, Copy, Debug, PartialEq, Eq)]
pub struct DefaultEscaper;

impl View for DefaultEscaper {
    type V = ();

    open spec fn view(&self) -> () {
        ()
    }
}

impl Default for DefaultEscaper {
    fn default() -> (out: DefaultEscaper)
        ensures
            out == DefaultEscaper,
    {
        DefaultEscaper
    }
}

impl Escaper for DefaultEscaper {
    open spec fn output_of(m: (), c: char) -> Seq<char> {
        default_escape(c)
    }

    open spec fn next_of(m: (), c: char) -> () {
        ()
    }

    fn process(&mut self, c: char) -> (out: Vec<char>) {
        let mut v: Vec<char> = Vec::new();
        if c == '\t' {
            v.push('\\');
            v.push('t');
            proof {
                assert(v@ =~= seq!['\\', 't']);
            }
        } else if c == '\r' {
            v.push('\\');
            v.push('r');
            proof {
                assert(v@ =~= seq!['\\', 'r']);
            }
        } else if c == '\n' {
            v.push('\\');
            v.push('n');
            proof {
                assert(v@ =~= seq!['\\', 'n']);
            }
        } else if c == '\'' {
            v.push('\\');
            v.push('\'');
            proof {
                assert(v@ =~= seq!['\\', '\'']);
            }
        } else if c == '"' {
            v.push('\\');
            v.push('"');
            proof {
                assert(v@ =~= seq!['\\', '"']);
            }
        } else if c == '\\' {
            v.push('\\');
            v.push('\\');
            proof {
                assert(v@ =~= seq!['\\', '\\']);
            }
        } else if ' ' <= c && c <= '~' {
            v.push(c);
            proof {
                assert(v@ =~= seq![c]);
            }
        } else {
            let u: u32 = c as u32;
            v.push('\\');
            v.push('u');
            v.push('{');
            push_hex(&mut v, u);
            v.push('}');
            proof {
                assert(u as nat == code_point(c));
                assert(v@ =~= seq!['\\', 'u', '{'] + hex_rep(code_point(c)) + seq!['}']);
            }
        }
        v
    }

    fn duplicate(&self) -> (out: DefaultEscaper) {
        DefaultEscaper
    }
}

/// The code-point escaping policy: each character becomes its
/// [`unicode_escape`], whether or not it is printable.
#[derive(Clone, Copy, Debug, PartialEq, Eq)]
pub struct UnicodeEscaper;

impl View for UnicodeEscaper {
    type V = ();

    open spec fn view(&self) -> () {
        ()
    }
}

impl Default for UnicodeEscaper {
    fn default() -> (out: UnicodeEscaper)
        ensures
            out == UnicodeEscaper,
    {
        UnicodeEscaper
    }
}

impl Escaper for UnicodeEscaper {
    open spec fn output_of(m: (), c: char) -> Seq<char> {
        unicode_escape(c)
    }

    open spec fn next_of(m: (), c: char) -> () {
        ()
    }

    fn process(&mut self, c: char) -> (out: Vec<char>) {
        let mut v: Vec<char> = Vec::new();
        let u: u32 = c as u32;
        v.push('\\');
        v.push('u');
        v.push('{');
        push_hex(&mut v, u);
        v.push('}');
        proof {
            assert(u as nat == code_point(c));
            assert(v@ =~= seq!['\\', 'u', '{'] + hex_rep(code_point(c)) + seq!['}']);
        }
        v
    }

    fn duplicate(&self) -> (out: UnicodeEscaper) {
        UnicodeEscaper
    }
}

/// A stateful policy with one character of lookbehind: it collapses each
/// carriage-return–line-feed pair into a single line feed and passes
/// everything else through unchanged.
///
/// On a carriage return it emits nothing and defers; the deferred carriage
/// return is emitted later only when the next character turns out not to be a
/// line feed. This exercises the full shape of the [`Escaper`] contract:
/// empty fragments, multi-character fragments, and state carried across
/// characters. A carriage return at the very end of a text stays deferred:
/// what a policy holds back is its own affair.
#[derive(Clone, Copy, Debug, PartialEq, Eq)]
pub struct CrlfCollapse {
    /// Whether a carriage return is pending from the previous character.
    pub pending: bool,
}

impl CrlfCollapse {
    /// A collapser with no carriage return pending.
    pub fn new() -> (out: CrlfCollapse)
        ensures
            out@ == false,
    {
        CrlfCollapse { pending: false }
    }
}

impl View for CrlfCollapse {
    type V = bool;

    open spec fn view(&self) -> bool {
        self.pending
    }
}

impl Default for CrlfCollapse {
    fn default() -> (out: CrlfCollapse)
        ensures
            out@ == false,
    {
        CrlfCollapse { pending: false }
    }
}

impl Escaper for CrlfCollapse {
    open spec fn output_of(m: bool, c: char) -> Seq<char> {
        if c == '\r' {
            if m {
                seq!['\r']
            } else {
                Seq::empty()
            }
        } else if c == '\n' {
            seq!['\n']
        } else if m {
            seq!['\r', c]
        } else {
            seq![c]
        }
    }

    open spec fn next_of(m: bool, c: char) -> bool {
        c == '\r'
    }

    fn process(&mut self, c: char) -> (out: Vec<char>) {
        let mut v: Vec<char> = Vec::new();
        let p = self.pending;
        if c == '\r' {
            if p {
                v.push('\r');
                proof {
                    assert(v@ =~= seq!['\r']);
                }
            } else {
                proof {
                    assert(v@ =~= Seq::<char>::empty());
                }
            }
            self.pending = true;
        } else if c == '\n' {
            v.push('\n');
            self.pending = false;
            proof {
                assert(v@ =~= seq!['\n']);
            }
        } else {
            if p {
                v.push('\r');
                v.push(c);
                proof {
                    assert(v@ =~= seq!['\r', c]);
                }
            } else {
                v.push(c);
                proof {
                    assert(v@ =~= seq![c]);
                }
            }
            self.pending = false;
        }
        v
    }

    fn duplicate(&self) -> (out: CrlfCollapse) {
        CrlfCollapse { pending: self.pending }
    }
}

/// The debug escape of `c`: the form a character takes inside a debug
/// string literal. The exact character classes involved are the standard
/// library's affair; the form depends on the character alone.
pub uninterp spec fn debug_escape(c: char) -> Seq<char>;

/// Relies on `char::escape_debug`: it yields the escaped form of the
/// character as it would appear in a debug string literal, and that form
/// depends on the character alone.
#[verifier::external_body]
fn escape_debug_chars(c: char) -> (out: Vec<char>)
    ensures
        out@ == debug_escape(c),
{
    c.escape_debug().collect()
}

/// The debug-style escaping policy: each character becomes its
/// [`debug_escape`], as produced by the standard library.
#[derive(Clone, Copy, Debug, PartialEq, Eq)]
pub struct DebugEscaper;

impl View for DebugEscaper {
    type V = ();

    open spec fn view(&self) -> () {
        ()
    }
}

impl Default for DebugEscaper {
    fn default() -> (out: DebugEscaper)
        ensures
            out == DebugEscaper,
    {
        DebugEscaper
    }
}

impl Escaper for DebugEscaper {
    open spec fn output_of(m: (), c: char) -> Seq<char> {
        debug_escape(c)
    }

    open spec fn next_of(m: (), c: char) -> () {
        ()
    }

    fn process(&mut self, c: char) -> (out: Vec<char>) {
        escape_debug_chars(c)
    }

    fn duplicate(&self) -> (out: DebugEscaper) {
        DebugEscaper
    }
}

} // verus!
