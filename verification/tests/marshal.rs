use plugin_installer::marshal::{copy_to_c_string, marshal, narrow, StringArg};

#[test]
fn marshal_passes_utf8_bytes_and_their_count() {
    let arg = marshal("heliosphere");
    assert_eq!(arg.bytes, b"heliosphere".to_vec());
    assert_eq!(arg.len, 11);
}

#[test]
fn marshal_counts_bytes_not_characters() {
    let arg = marshal("añ€😀");
    assert_eq!(arg.bytes, "añ€😀".as_bytes().to_vec());
    assert_eq!(arg.len, 1 + 2 + 3 + 4);
}

#[test]
fn marshal_of_empty_text_is_empty() {
    assert_eq!(
        marshal(""),
        StringArg {
            bytes: Vec::new(),
            len: 0
        }
    );
}

#[test]
fn marshal_adds_no_terminator() {
    let arg = marshal("a\0b");
    assert_eq!(arg.bytes, vec![b'a', 0, b'b']);
    assert_eq!(arg.len, 3);
}

#[test]
fn narrow_appends_one_nul() {
    assert_eq!(narrow("abc"), vec![b'a', b'b', b'c', 0]);
    assert_eq!(narrow(""), vec![0]);
    assert_eq!(narrow("é"), vec![0xC3, 0xA9, 0]);
    assert_eq!(narrow("añ€😀"), {
        let mut bytes = "añ€😀".as_bytes().to_vec();
        bytes.push(0);
        bytes
    });
}

#[test]
fn narrow_replaces_an_interior_nul() {
    assert_eq!(narrow("a\0b"), vec![b'a', 0xEF, 0xBF, 0xBD, b'b', 0]);
    assert_eq!(narrow("\0"), vec![0xEF, 0xBF, 0xBD, 0]);
    assert_eq!(narrow("abc\0"), vec![b'a', b'b', b'c', 0xEF, 0xBF, 0xBD, 0]);
    assert_eq!(narrow("\0abc"), vec![0xEF, 0xBF, 0xBD, b'a', b'b', b'c', 0]);
    assert_eq!(
        narrow("\0\0é\0"),
        vec![0xEF, 0xBF, 0xBD, 0xEF, 0xBF, 0xBD, 0xC3, 0xA9, 0xEF, 0xBF, 0xBD, 0]
    );
}

#[test]
fn narrow_buffer_has_its_only_nul_at_the_end() {
    for text in ["", "abc", "a\0b", "\0", "\0\0", "x😀\0y", "\u{FFFD}"] {
        let buffer = narrow(text);
        assert_eq!(buffer.last(), Some(&0));
        assert_eq!(buffer.iter().filter(|b| **b == 0).count(), 1);
        let read = String::from_utf8(buffer[..buffer.len() - 1].to_vec()).unwrap();
        assert_eq!(read, text.replace('\0', "\u{FFFD}"));
    }
}

#[test]
fn callback_converts_wide_text() {
    let wide: Vec<u16> = "{\"Name\":\"foo\"}".encode_utf16().collect();
    assert_eq!(copy_to_c_string(&wide), b"{\"Name\":\"foo\"}\0".to_vec());
}

#[test]
fn callback_converts_text_outside_the_basic_plane() {
    let wide: Vec<u16> = "x😀y".encode_utf16().collect();
    assert_eq!(wide.len(), 4);
    let mut expected = "x😀y".as_bytes().to_vec();
    expected.push(0);
    assert_eq!(copy_to_c_string(&wide), expected);
    // U+1D11E, the first character beyond the pairs' lowest.
    assert_eq!(
        copy_to_c_string(&[0xD834, 0xDD1E]),
        vec![0xF0, 0x9D, 0x84, 0x9E, 0]
    );
    assert_eq!(
        copy_to_c_string(&[0xD800, 0xDC00]),
        vec![0xF0, 0x90, 0x80, 0x80, 0]
    );
    assert_eq!(
        copy_to_c_string(&[0xDBFF, 0xDFFF]),
        vec![0xF4, 0x8F, 0xBF, 0xBF, 0]
    );
}

#[test]
fn callback_replaces_what_is_not_utf16() {
    // A lone high surrogate between two letters.
    assert_eq!(
        copy_to_c_string(&[0x61, 0xD800, 0x62]),
        vec![0x61, 0xEF, 0xBF, 0xBD, 0x62, 0]
    );
    // A lone low surrogate.
    assert_eq!(
        copy_to_c_string(&[0xDC00, 0x62]),
        vec![0xEF, 0xBF, 0xBD, 0x62, 0]
    );
    // A high surrogate at the end.
    assert_eq!(
        copy_to_c_string(&[0x61, 0xDBFF]),
        vec![0x61, 0xEF, 0xBF, 0xBD, 0]
    );
    // Two high surrogates, then a low one: the first is alone, the others
    // pair.
    assert_eq!(
        copy_to_c_string(&[0xD800, 0xD834, 0xDD1E]),
        vec![0xEF, 0xBF, 0xBD, 0xF0, 0x9D, 0x84, 0x9E, 0]
    );
    // A low surrogate before a high one: each is alone.
    assert_eq!(
        copy_to_c_string(&[0xDD1E, 0xD834]),
        vec![0xEF, 0xBF, 0xBD, 0xEF, 0xBF, 0xBD, 0]
    );
}

#[test]
fn callback_of_empty_buffer_is_just_the_terminator() {
    assert_eq!(copy_to_c_string(&[]), vec![0]);
}

#[test]
fn callback_gives_a_buffer_for_text_with_a_nul() {
    assert_eq!(
        copy_to_c_string(&[0x61, 0, 0x62]),
        vec![0x61, 0xEF, 0xBF, 0xBD, 0x62, 0]
    );
    assert_eq!(copy_to_c_string(&[0]), vec![0xEF, 0xBF, 0xBD, 0]);
    assert_eq!(
        copy_to_c_string(&[0, 0xD800, 0]),
        vec![0xEF, 0xBF, 0xBD, 0xEF, 0xBF, 0xBD, 0xEF, 0xBF, 0xBD, 0]
    );
}

#[test]
fn callback_keeps_the_highest_units_that_are_no_surrogates() {
    assert_eq!(
        copy_to_c_string(&[0xD7FF, 0xE000, 0xFFFF]),
        vec![0xED, 0x9F, 0xBF, 0xEE, 0x80, 0x80, 0xEF, 0xBF, 0xBF, 0]
    );
}
