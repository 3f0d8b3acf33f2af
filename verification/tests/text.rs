use connect_util::config_map::ConfigMap;
use connect_util::document::{TfExpression, TfKey, TfObject};
use connect_util::text;
use connect_util::text::{
    bool_to_text, clone_texts, contains_char, contains_text, is_commented_out, is_whitespace,
    join, replace_char, text_eq,
};

fn strings(items: &[&str]) -> Vec<String> {
    items.iter().map(|s| s.to_string()).collect()
}

#[test]
fn texts_are_compared_character_by_character() {
    assert!(text_eq("", ""));
    assert!(text_eq("abc", "abc"));
    assert!(!text_eq("abc", "abd"));
    assert!(!text_eq("abc", "ab"));
    assert!(!text_eq("", " "));
    assert!(text_eq("é❌", "é❌"));
}

#[test]
fn a_character_is_found_where_it_occurs() {
    assert!(contains_char("a.b", '.'));
    assert!(contains_char(".", '.'));
    assert!(contains_char("ab.", '.'));
    assert!(!contains_char("ab", '.'));
    assert!(!contains_char("", '.'));
    assert!(contains_char("é.", '.'));
}

#[test]
fn every_occurrence_of_a_character_is_replaced() {
    assert_eq!(replace_char("a-b-c", '-', "_"), "a_b_c");
    assert_eq!(replace_char("--", '-', "_"), "__");
    assert_eq!(replace_char("abc", '-', "_"), "abc");
    assert_eq!(replace_char("", '-', "_"), "");
    assert_eq!(replace_char("a-b", '-', ""), "ab");
    assert_eq!(replace_char("a-b", '-', "<->"), "a<->b");
    assert_eq!(replace_char("é-❌", '-', "_"), "é_❌");
    assert_eq!(replace_char("a-b-c", '-', "_"), "a-b-c".replace('-', "_"));
}

#[test]
fn texts_are_put_together_in_order() {
    assert_eq!(text::concat("ab", "cd"), "abcd");
    assert_eq!(text::concat("", ""), "");
    assert_eq!(text::concat3("a", "", "c"), "ac");
    assert_eq!(text::concat3("[", "x, y", "]"), "[x, y]");
}

#[test]
fn parts_are_joined_with_the_separator_between_them() {
    assert_eq!(join(&strings(&[]), ", "), "");
    assert_eq!(join(&strings(&["a"]), ", "), "a");
    assert_eq!(join(&strings(&["a", "b", "c"]), ", "), "a, b, c");
    assert_eq!(join(&strings(&["", ""]), "-"), "-");
    assert_eq!(join(&strings(&["a", "b"]), ""), "ab");
}

#[test]
fn a_text_is_among_a_list_where_it_equals_an_item() {
    assert!(contains_text(&strings(&["a", "b"]), "b"));
    assert!(!contains_text(&strings(&["a", "b"]), "c"));
    assert!(!contains_text(&strings(&["a", "b"]), "ab"));
    assert!(!contains_text(&strings(&[]), ""));
    assert!(contains_text(&strings(&[""]), ""));
}

#[test]
fn a_boolean_is_true_or_false() {
    assert_eq!(bool_to_text(true), "true");
    assert_eq!(bool_to_text(false), "false");
}

#[test]
fn a_cloned_list_holds_the_same_texts() {
    assert_eq!(clone_texts(&strings(&["a", "", "b"])), strings(&["a", "", "b"]));
    assert!(clone_texts(&strings(&[])).is_empty());
}

#[test]
fn white_space_is_what_std_takes_for_white_space() {
    for code in 0..=0x10FFFFu32 {
        if let Some(c) = char::from_u32(code) {
            assert_eq!(is_whitespace(c), c.is_whitespace(), "U+{:04X}", code);
        }
    }
}

#[test]
fn a_content_is_commented_out_where_every_line_that_is_not_blank_starts_with_a_hash() {
    fn by_lines(content: &str) -> bool {
        content
            .lines()
            .filter(|line| !line.trim().is_empty())
            .all(|line| line.trim().starts_with('#'))
    }
    let cases = [
        "",
        "#",
        "a",
        "\n",
        " # a",
        "# a\nb",
        "# a\n# b\n",
        "a # b",
        "\t#a\r\n\r\n  #b",
        "#a\r#b",
        "#a\rb",
        "\u{3000}#a",
        "\u{200B}#a",
        "  \n\n x",
        "// a",
        "#a\n\n\n#b\n \n",
        "#a\n b\n#c",
        "a\n#b",
    ];
    for content in cases {
        assert_eq!(is_commented_out(content), by_lines(content), "{:?}", content);
    }
    assert!(is_commented_out("# a\n  # b\n\n"));
    assert!(!is_commented_out("# a\nb = 1\n"));
    assert!(is_commented_out("#a\r#b"));
    assert!(is_commented_out("#a\rb"));
    assert!(!is_commented_out("\u{200B}#a"));
}

#[test]
fn a_map_keeps_the_place_of_a_key_and_its_last_value() {
    let mut map = ConfigMap::new();
    assert!(map.is_empty());
    assert_eq!(map.len(), 0);
    assert_eq!(map.insert("a".to_string(), "1".to_string()), None);
    assert_eq!(map.insert("b".to_string(), "2".to_string()), None);
    assert_eq!(map.insert("a".to_string(), "3".to_string()), Some("1".to_string()));
    assert_eq!(map.len(), 2);
    assert_eq!(map.entry_count(), 2);
    assert!(!map.is_empty());
    assert_eq!(map.key_at(0), "a");
    assert_eq!(map.value_at(0), "3");
    assert_eq!(map.key_at(1), "b");
    assert_eq!(map.value_at(1), "2");
    assert_eq!(map.get("a"), Some(&"3".to_string()));
    assert_eq!(map.get("b"), Some(&"2".to_string()));
    assert_eq!(map.get("c"), None);
    assert_eq!(map.get(""), None);
    assert!(map.contains_key("a"));
    assert!(!map.contains_key("A"));
}

#[test]
fn a_map_that_is_laid_over_another_wins_and_adds_its_new_keys_at_the_end() {
    let mut map = ConfigMap::new();
    map.insert("a".to_string(), "1".to_string());
    map.insert("b".to_string(), "2".to_string());
    let mut over = ConfigMap::new();
    over.insert("c".to_string(), "3".to_string());
    over.insert("a".to_string(), "4".to_string());
    let copy = map.clone();
    map.extend(&over);
    let pairs: Vec<(&str, &str)> =
        (0..map.len()).map(|i| (map.key_at(i).as_str(), map.value_at(i).as_str())).collect();
    assert_eq!(pairs, vec![("a", "4"), ("b", "2"), ("c", "3")]);
    assert_eq!(copy.len(), 2);
    assert_eq!(copy.get("a"), Some(&"1".to_string()));
    map.extend(&ConfigMap::new());
    assert_eq!(map.len(), 3);
}

#[test]
fn an_object_keeps_the_place_of_a_key_and_its_last_value() {
    let mut object = TfObject::new();
    assert!(object.is_empty());
    let bare = TfKey::Identifier("a".to_string());
    let quoted = TfKey::Quoted("a".to_string());
    assert!(!bare.same(&quoted));
    assert!(bare.same(&bare.clone()));
    assert!(quoted.same(&TfKey::Quoted("a".to_string())));
    assert!(!quoted.same(&TfKey::Quoted("b".to_string())));
    assert_eq!(bare.text(), "a");
    assert_eq!(quoted.text(), "a");
    object.insert(bare.clone(), TfExpression::text("1"));
    object.insert(quoted.clone(), TfExpression::text("2"));
    object.insert(TfKey::Identifier("a".to_string()), TfExpression::text("3"));
    assert_eq!(object.len(), 2);
    assert!(object.contains_key(&bare));
    assert!(object.contains_key(&quoted));
    assert!(!object.contains_key(&TfKey::Identifier("b".to_string())));
    match &object.entries[0] {
        (TfKey::Identifier(key), TfExpression::String(value)) => {
            assert_eq!(key, "a");
            assert_eq!(value, "3");
        }
        other => panic!("{:?}", other),
    }
    match &object.entries[1] {
        (TfKey::Quoted(key), TfExpression::String(value)) => {
            assert_eq!(key, "a");
            assert_eq!(value, "2");
        }
        other => panic!("{:?}", other),
    }
}
