//! Escape values while they are being rendered.
//!
//! When forwarding data as character sequences, certain characters have a
//! special meaning in the surrounding format and must be escaped. This crate
//! provides [`Escaped`], a wrapper that renders its inner value with every
//! character routed through an [`Escaper`] on the fly, so the full unescaped
//! text is never materialized and escaping costs no extra buffer.
//!
//! A value that can write itself into a generic destination ([`Render`]) is
//! paired with an escaping policy ([`Escaper`]); rendering the pair drives
//! the value's own rendering routine against an interception sink
//! ([`WriteProxy`]) that decomposes every fragment into characters, runs each
//! through the policy, and streams the result straight to the real
//! destination ([`Sink`]). Ready-made policies live in this crate as
//! [`Identity`], [`DefaultEscaper`], [`DebugEscaper`] and [`UnicodeEscaper`];
//! the convenience trait [`Escapable`] augments every renderable value with
//! wrapping functions.

mod buffers;
mod escaped;
mod escaper;
mod laws;
mod policies;
mod proxy;
mod render;
mod sink;

pub use buffers::BoundedModel;
pub use buffers::BoundedSink;
pub use buffers::Buffer;
pub use buffers::lemma_buffer_accepts_all;
pub use escaped::Escapable;
pub use escaped::Escaped;
pub use escaper::Escaper;
pub use escaper::escaped_text;
pub use escaper::escaper_after;
pub use laws::lemma_duplicate_independent;
pub use laws::lemma_escaped_text_concat;
pub use laws::lemma_identity_passthrough;
pub use laws::lemma_stateless_pointwise;
pub use laws::lemma_streaming_equivalence;
pub use laws::pointwise_escaped;
pub use policies::CrlfCollapse;
pub use policies::DebugEscaper;
pub use policies::DefaultEscaper;
pub use policies::Identity;
pub use policies::UnicodeEscaper;
pub use policies::code_point;
pub use policies::debug_escape;
pub use policies::default_escape;
pub use policies::hex_digit;
pub use policies::hex_rep;
pub use policies::unicode_escape;
pub use proxy::ProxyModel;
pub use proxy::WriteProxy;
pub use proxy::lemma_proxy_feed;
pub use render::Concat;
pub use render::Render;
pub use render::Text;
pub use render::render_to_string;
pub use sink::Sink;
pub use sink::WriteError;
pub use sink::feed;
pub use sink::feed_count;
pub use sink::feed_ok;
pub use sink::lemma_feed_concat;
pub use sink::lemma_feed_consumed;
pub use sink::write_all;
