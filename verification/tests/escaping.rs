use rescue_blanket::BoundedSink;
use rescue_blanket::Buffer;
use rescue_blanket::Concat;
use rescue_blanket::CrlfCollapse;
use rescue_blanket::DebugEscaper;
use rescue_blanket::DefaultEscaper;
use rescue_blanket::Escapable;
use rescue_blanket::Escaped;
use rescue_blanket::Escaper;
use rescue_blanket::Identity;
use rescue_blanket::Render;
use rescue_blanket::Sink;
use rescue_blanket::Text;
use rescue_blanket::UnicodeEscaper;
use rescue_blanket::WriteProxy;
use rescue_blanket::render_to_string;

fn collect(chars: &Vec<char>) -> String {
    chars.iter().collect()
}

#[test]
fn identity_leaves_text_unchanged() {
    let s = "foo=\"bar\" with \\ and \n and \u{2764}";
    let out = render_to_string(&Text::new(s).escaped_with(Identity));
    assert_eq!(out, s);
}

#[test]
fn default_escaper_concrete() {
    let out = render_to_string(&Text::new("foo=\"bar\"").escaped_default());
    assert_eq!(out, "foo=\\\"bar\\\"");
}

#[test]
fn debug_escaper_concrete() {
    let out = render_to_string(&Text::new("foo=\"bar\"").escaped_debug());
    assert_eq!(out, "foo=\\\"bar\\\"");
}

#[test]
fn default_escaper_matches_std() {
    let s = "foo=\"bar\"\twith \\ \u{7} \u{2764} and \n";
    let out = render_to_string(&Text::new(s).escaped_default());
    assert_eq!(out, s.escape_default().to_string());
}

#[test]
fn debug_escaper_matches_std() {
    let s = "foo=\"bar\"\twith \\ \u{7} \u{2764} and \n";
    let out = render_to_string(&Text::new(s).escaped_debug());
    assert_eq!(out, s.escape_debug().to_string());
}

#[test]
fn unicode_escaper_matches_std() {
    let s = "foo=\"bar\" \u{7} \u{2764}\n";
    let out = render_to_string(&Text::new(s).escaped_unicode());
    assert_eq!(out, s.escape_unicode().to_string());
}

#[test]
fn unicode_escaper_concrete() {
    assert_eq!(render_to_string(&Text::new("\u{2764}").escaped_unicode()), "\\u{2764}");
    assert_eq!(render_to_string(&Text::new("\n").escaped_unicode()), "\\u{a}");
    assert_eq!(render_to_string(&Text::new("A").escaped_unicode()), "\\u{41}");
}

#[test]
fn empty_text_renders_empty() {
    assert_eq!(render_to_string(&Text::new("").escaped_default()), "");
    assert_eq!(render_to_string(&Text::new("").escaped_with(Identity)), "");
}

#[test]
fn pointwise_substitution_concrete() {
    let s = "a\"b\\c\u{2764}";
    let escaped = render_to_string(&Text::new(s).escaped_default());
    let mut policy = DefaultEscaper;
    let manual: String = s.chars().flat_map(|c| policy.process(c)).collect();
    assert_eq!(escaped, manual);
}

#[test]
fn streaming_equivalence_concrete() {
    let make = || Concat::new(Text::new("foo=\""), Concat::new(Text::new("bar"), Text::new("\"")));
    let direct = render_to_string(&make());
    let through_wrapper = render_to_string(&make().escaped_default());
    let mut policy = DefaultEscaper;
    let after_the_fact: String = direct.chars().flat_map(|c| policy.process(c)).collect();
    assert_eq!(through_wrapper, after_the_fact);
}

#[test]
fn duplicate_is_independent_mid_sequence() {
    let mut original = CrlfCollapse::new();
    let _ = original.process('a');
    let _ = original.process('\r');
    let mut dup = original.duplicate();
    let rest = "\nx\r\ry";
    let from_original: String = rest.chars().flat_map(|c| original.process(c)).collect();
    let from_dup: String = rest.chars().flat_map(|c| dup.process(c)).collect();
    assert_eq!(from_original, from_dup);
    let _ = original.process('\r');
    let later: String = "z".chars().flat_map(|c| dup.process(c)).collect();
    assert_eq!(later, "z");
}

#[test]
fn crlf_collapse_scenario() {
    let out = render_to_string(&Text::new("a\r\nb\rc\r\r\nd\n").escaped_with(CrlfCollapse::new()));
    assert_eq!(out, "a\nb\rc\r\nd\n");
}

#[test]
fn crlf_collapse_emits_empty_and_multi_fragments() {
    let mut policy = CrlfCollapse::new();
    assert_eq!(policy.process('\r'), Vec::<char>::new());
    assert_eq!(policy.process('x'), vec!['\r', 'x']);
    assert_eq!(policy.process('\r'), Vec::<char>::new());
    assert_eq!(policy.process('\n'), vec!['\n']);
}

#[test]
fn proxy_writes_after_each_character() {
    let mut proxy = WriteProxy::new(Buffer::new(), DefaultEscaper);
    assert!(proxy.put_char('a').is_ok());
    let (buf, policy) = proxy.into_parts();
    assert_eq!(collect(buf.chars()), "a");
    let mut proxy = WriteProxy::new(buf, policy);
    assert!(proxy.put_char('"').is_ok());
    let (buf, _) = proxy.into_parts();
    assert_eq!(collect(buf.chars()), "a\\\"");
}

#[test]
fn failing_sink_stops_after_two_writes() {
    let sink = BoundedSink::new(2);
    let (r, sink) = Text::new("foo=\"bar\"").escaped_with(Identity).render(sink);
    assert!(r.is_err());
    assert_eq!(sink.count(), 2);
    assert_eq!(collect(sink.chars()), "fo");
}

#[test]
fn failing_sink_stops_after_two_writes_debug() {
    let sink = BoundedSink::new(2);
    let (r, sink) = Text::new("foo=\"bar\"").escaped_debug().render(sink);
    assert!(r.is_err());
    assert_eq!(sink.count(), 2);
    assert_eq!(collect(sink.chars()), "fo");
}

#[test]
fn failure_in_the_middle_of_a_fragment() {
    let sink = BoundedSink::new(3);
    let (r, sink) = Text::new("a\"b").escaped_default().render(sink);
    assert!(r.is_err());
    assert_eq!(collect(sink.chars()), "a\\\"");
}

#[test]
fn bounded_sink_succeeds_within_limit() {
    let sink = BoundedSink::new(10);
    let (r, sink) = Text::new("a\"b").escaped_default().render(sink);
    assert!(r.is_ok());
    assert_eq!(collect(sink.chars()), "a\\\"b");
}

#[test]
fn nested_wrappers_escape_twice() {
    let once = Text::new("\"").escaped_default();
    let twice = once.escaped_default();
    assert_eq!(render_to_string(&twice), "\\\\\\\"");
}

#[test]
fn new_and_new_default_agree() {
    let explicit: Escaped<Text, DefaultEscaper> =
        Escaped::new(Text::new("x\""), DefaultEscaper);
    let defaulted: Escaped<Text, DefaultEscaper> = Escaped::new_default(Text::new("x\""));
    assert_eq!(render_to_string(&explicit), "x\\\"");
    assert_eq!(render_to_string(&defaulted), "x\\\"");
    let via_trait: Escaped<Text, UnicodeEscaper> = Text::new("A").escaped_with_default();
    assert_eq!(render_to_string(&via_trait), "\\u{41}");
}

#[test]
fn concat_renders_both_parts_in_order() {
    let value = Concat::new(Text::new("ab"), Text::new("cd"));
    assert_eq!(render_to_string(&value), "abcd");
    let value = Concat::new(Text::new("a\r"), Text::new("\nb"));
    let out = render_to_string(&value.escaped_with(CrlfCollapse::new()));
    assert_eq!(out, "a\nb");
}

#[test]
fn explicit_escaper_with_debug_preset_matches_direct_use() {
    let s = "tab\there";
    let via_preset = render_to_string(&Text::new(s).escaped_debug());
    let via_explicit = render_to_string(&Text::new(s).escaped_with(DebugEscaper));
    assert_eq!(via_preset, via_explicit);
}
