use nipe::text::{
    contains_in, find_char, is_whitespace_char, last_word_in, second_field_in, slice_string,
    split_lines, to_chars, trim_in,
};

const ALPHABET: [char; 7] = ['a', ' ', ':', '\n', '\r', '\u{a0}', 'é'];

/// Every text over the alphabet of at most `max` characters.
fn texts(max: usize) -> Vec<String> {
    let mut all = vec![String::new()];
    let mut last = vec![String::new()];
    for _ in 0..max {
        let mut next = Vec::new();
        for text in &last {
            for c in ALPHABET {
                let mut longer = text.clone();
                longer.push(c);
                next.push(longer);
            }
        }
        all.extend(next.iter().cloned());
        last = next;
    }
    all
}

fn cut(chars: &[char], range: (usize, usize)) -> String {
    chars[range.0..range.1].iter().collect()
}

#[test]
fn white_space_is_what_the_standard_library_calls_so() {
    for code in 0..=0x11_0000u32 {
        if let Some(c) = char::from_u32(code) {
            assert_eq!(is_whitespace_char(c), c.is_whitespace(), "U+{:04X}", code);
        }
    }
}

#[test]
fn characters_and_slices_follow_the_text() {
    let text = "aé\u{a0}: \n";
    let chars = to_chars(text);
    assert_eq!(chars, text.chars().collect::<Vec<char>>());
    assert_eq!(slice_string(text, 1, 4), "é\u{a0}:");
    assert_eq!(slice_string(text, 0, 0), "");
    assert_eq!(slice_string(text, 0, 6), text);
}

#[test]
fn lines_are_split_as_the_standard_library_splits_them() {
    for text in texts(5) {
        let chars = to_chars(&text);
        let lines: Vec<String> = split_lines(&chars).into_iter().map(|r| cut(&chars, r)).collect();
        let expected: Vec<String> = text.lines().map(|l| l.to_string()).collect();
        assert_eq!(lines, expected, "{:?}", text);
    }
}

#[test]
fn trimming_follows_the_standard_library() {
    for text in texts(5) {
        let chars = to_chars(&text);
        assert_eq!(cut(&chars, trim_in(&chars, 0, chars.len())), text.trim(), "{:?}", text);
    }
}

#[test]
fn last_word_follows_the_standard_library() {
    for text in texts(5) {
        let chars = to_chars(&text);
        let word = last_word_in(&chars, 0, chars.len()).map(|r| cut(&chars, r));
        assert_eq!(word, text.split_whitespace().last().map(|w| w.to_string()), "{:?}", text);
    }
}

#[test]
fn second_field_follows_the_standard_library() {
    for text in texts(5) {
        let chars = to_chars(&text);
        let field = second_field_in(&chars, 0, chars.len(), ':').map(|r| cut(&chars, r));
        assert_eq!(field, text.split(':').nth(1).map(|w| w.to_string()), "{:?}", text);
    }
}

#[test]
fn containment_follows_the_standard_library() {
    let needles = ["", "a", "a:", ": ", "\n", "aa", "é", "a a"];
    for text in texts(4) {
        let chars = to_chars(&text);
        for needle in needles {
            assert_eq!(
                contains_in(&chars, 0, chars.len(), &to_chars(needle)),
                text.contains(needle),
                "{:?} in {:?}",
                needle,
                text
            );
        }
    }
}

#[test]
fn scanners_keep_to_their_range() {
    let chars = to_chars("x: a b :y");
    assert_eq!(find_char(&chars, 0, chars.len(), ':'), 1);
    assert_eq!(find_char(&chars, 2, chars.len(), ':'), 7);
    assert_eq!(find_char(&chars, 2, 7, ':'), 7);
    assert_eq!(find_char(&chars, 8, chars.len(), ':'), 9);
    assert_eq!(trim_in(&chars, 2, 7), (3, 6));
    assert_eq!(last_word_in(&chars, 2, 7), Some((5, 6)));
    assert_eq!(last_word_in(&chars, 2, 3), None);
    assert_eq!(second_field_in(&chars, 2, 7, ':'), None);
    assert!(contains_in(&chars, 2, 7, &to_chars("a b")));
    assert!(!contains_in(&chars, 2, 7, &to_chars("y")));
    assert!(!contains_in(&chars, 3, 4, &to_chars("a b")));
}
