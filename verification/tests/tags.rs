use igdbc::models::tags::{decode_tags, encode_tags};

fn owned(items: &[&str]) -> Vec<String> {
    items.iter().map(|item| item.to_string()).collect()
}

#[test]
fn no_tags_are_the_empty_text() {
    assert_eq!(encode_tags(&Vec::new()), "");
    assert_eq!(decode_tags(""), Vec::<String>::new());
}

#[test]
fn each_tag_is_closed_by_a_comma() {
    assert_eq!(encode_tags(&owned(&["Action"])), "Action,");
    assert_eq!(encode_tags(&owned(&["Action", "Fantasy", "Open world"])), "Action,Fantasy,Open world,");
}

#[test]
fn one_empty_tag_is_a_lone_comma() {
    assert_eq!(encode_tags(&owned(&[""])), ",");
    assert_eq!(decode_tags(","), owned(&[""]));
    assert_eq!(encode_tags(&owned(&["", ""])), ",,");
    assert_eq!(decode_tags(",,"), owned(&["", ""]));
}

#[test]
fn commas_and_backslashes_are_escaped() {
    assert_eq!(encode_tags(&owned(&["a,b"])), "a\\,b,");
    assert_eq!(encode_tags(&owned(&["a\\b"])), "a\\\\b,");
    assert_eq!(encode_tags(&owned(&["\\", ","])), "\\\\,\\,,");
}

#[test]
fn escaped_characters_are_read_as_themselves() {
    assert_eq!(decode_tags("a\\,b,"), owned(&["a,b"]));
    assert_eq!(decode_tags("a\\\\b,"), owned(&["a\\b"]));
    assert_eq!(decode_tags("\\\\,\\,,"), owned(&["\\", ","]));
    assert_eq!(decode_tags("\\x,"), owned(&["x"]));
}

#[test]
fn text_without_closing_comma_ends_with_a_tag() {
    assert_eq!(decode_tags("Action,Fantasy"), owned(&["Action", "Fantasy"]));
    assert_eq!(decode_tags("Action"), owned(&["Action"]));
    assert_eq!(decode_tags("a,,b"), owned(&["a", "", "b"]));
}

#[test]
fn backslash_at_the_end_is_dropped() {
    assert_eq!(decode_tags("a\\"), owned(&["a"]));
    assert_eq!(decode_tags("\\"), Vec::<String>::new());
}

#[test]
fn decoding_undoes_encoding_of_every_small_list() {
    let alphabet = ["", "a", ",", "\\", "a,b", "\\,", ",\\", "\\\\", "ゼルダ", ",,"];
    for first in alphabet {
        assert_eq!(decode_tags(&encode_tags(&owned(&[first]))), owned(&[first]));
        for second in alphabet {
            let pair = owned(&[first, second]);
            assert_eq!(decode_tags(&encode_tags(&pair)), pair);
            for third in alphabet {
                let triple = owned(&[first, second, third]);
                assert_eq!(decode_tags(&encode_tags(&triple)), triple);
            }
        }
    }
}

#[test]
fn different_lists_have_different_texts() {
    let lists = [
        owned(&[]),
        owned(&[""]),
        owned(&["", ""]),
        owned(&["a,b"]),
        owned(&["a", "b"]),
        owned(&["a\\", "b"]),
        owned(&["a\\,b"]),
    ];
    for (i, one) in lists.iter().enumerate() {
        for (j, other) in lists.iter().enumerate() {
            assert_eq!(encode_tags(one) == encode_tags(other), i == j);
        }
    }
}
