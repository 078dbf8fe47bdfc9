use paste_service::text::chars_of;

#[test]
fn characters_by_position() {
    assert_eq!(chars_of(""), Vec::<char>::new());
    assert_eq!(chars_of("a\u{f1}b"), vec!['a', '\u{f1}', 'b']);
    assert_eq!(chars_of("Bearer x").len(), 8);
}
