use parallax_plugin::CText;

#[test]
fn plain_text_gets_its_terminator() {
    let text = CText::new("abc").expect("no zero byte in it");
    assert_eq!(text.as_bytes_with_nul(), &b"abc\0"[..]);
    assert_eq!(text.len(), 3);
}

#[test]
fn empty_text_is_a_lone_terminator() {
    let text = CText::new("").expect("nothing to refuse");
    assert_eq!(text.as_bytes_with_nul(), &[0u8][..]);
    assert_eq!(text.len(), 0);
}

#[test]
fn text_with_a_zero_byte_is_refused() {
    assert_eq!(CText::new("ab\0cd"), None);
    assert_eq!(CText::new("\0"), None);
    assert_eq!(CText::new("tail\0"), None);
}

#[test]
fn text_outside_ascii_keeps_its_utf8_bytes() {
    let text = CText::new("h\u{e9}llo \u{2713}").expect("no zero byte in it");
    assert_eq!(
        text.as_bytes_with_nul(),
        &[0x68u8, 0xc3, 0xa9, 0x6c, 0x6c, 0x6f, 0x20, 0xe2, 0x9c, 0x93, 0x00][..]
    );
    assert_eq!(text.len(), 10);
}

#[test]
fn a_clone_holds_the_same_bytes() {
    let text = CText::new("Ctrl+Shift+R").expect("no zero byte in it");
    let copy = text.clone();
    assert_eq!(copy, text);
    assert_eq!(copy.as_bytes_with_nul(), &b"Ctrl+Shift+R\0"[..]);
}
