use ddns_sandbox::util::EscapeExt;

fn escaped(text: &str) -> String {
    text.escape_json().escaped()
}

#[test]
fn plain_ascii_stands_for_itself() {
    assert_eq!(escaped(""), "");
    assert_eq!(escaped("hello, world! 0123 ~"), "hello, world! 0123 ~");
}

#[test]
fn control_characters_take_their_short_form() {
    assert_eq!(escaped("\u{8}\u{c}\n\r\t"), "\\b\\f\\n\\r\\t");
    assert_eq!(escaped("say \"hi\""), "say \\\"hi\\\"");
}

#[test]
fn backslash_is_put_out_as_it_is() {
    assert_eq!(escaped("a\\b"), "a\\b");
}

#[test]
fn everything_else_is_written_in_hex() {
    assert_eq!(escaped("\u{1}"), "\\u0001");
    assert_eq!(escaped("\u{7f}"), "\\u007F");
    assert_eq!(escaped("\u{e9}t\u{e9}"), "\\u00E9t\\u00E9");
    assert_eq!(escaped("\u{abcd}"), "\\uABCD");
    assert_eq!(escaped("\u{ffff}"), "\\uFFFF");
}

#[test]
fn characters_beyond_the_first_plane_take_two_units() {
    assert_eq!(escaped("\u{1f600}"), "\\uD83D\\uDE00");
    assert_eq!(escaped("\u{10000}"), "\\uD800\\uDC00");
    assert_eq!(escaped("\u{10ffff}"), "\\uDBFF\\uDFFF");
}
