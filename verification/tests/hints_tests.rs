use thumbs::Error;
use thumbs::Match;
use thumbs::hints::assign_hints;
use thumbs::hints::generate_hints;

#[test]
fn labels_cycle_through_the_alphabet() {
    let labels = generate_hints("abcd", 6).unwrap();
    let expected = vec!["a", "b", "c", "d", "aa", "bb"];
    assert_eq!(labels, expected);
}

#[test]
fn numeric_alphabet_labels() {
    let labels = generate_hints("numeric", 3).unwrap();
    assert_eq!(labels, vec!["1", "2", "3"]);
}

#[test]
fn qwerty_alphabets_are_known() {
    assert_eq!(generate_hints("qwerty", 1).unwrap(), vec!["a"]);
    assert_eq!(generate_hints("qwerty-homerow", 2).unwrap(), vec!["a", "s"]);
}

#[test]
fn zero_labels_for_zero_matches() {
    let labels = generate_hints("abcd", 0).unwrap();
    assert_eq!(labels.len(), 0);
}

#[test]
fn unknown_alphabet_yields_no_labels() {
    assert!(matches!(generate_hints("no-such-alphabet", 3), Err(Error::UnknownAlphabet)));
}

#[test]
fn labels_attach_in_reverse() {
    let matched = vec![
        Match { x: 0, y: 0, text: "0x1f".to_string(), hint: None },
        Match { x: 5, y: 0, text: "0x2e".to_string(), hint: None },
    ];
    let labels = vec!["a".to_string(), "b".to_string()];
    let assigned = assign_hints(matched, labels).unwrap();
    assert_eq!(assigned[0].hint.as_deref(), Some("b"));
    assert_eq!(assigned[1].hint.as_deref(), Some("a"));
    assert_eq!(assigned[0].text, "0x1f");
    assert_eq!(assigned[0].x, 0);
    assert_eq!(assigned[1].x, 5);
}

#[test]
fn label_shortfall_is_refused() {
    let matched = vec![
        Match { x: 0, y: 0, text: "0x1f".to_string(), hint: None },
        Match { x: 5, y: 0, text: "0x2e".to_string(), hint: None },
    ];
    let labels = vec!["a".to_string()];
    assert!(matches!(assign_hints(matched, labels), Err(Error::HintShortfall)));

    let matched = vec![Match { x: 0, y: 0, text: "0x1f".to_string(), hint: None }];
    let labels = vec!["a".to_string(), "b".to_string()];
    assert!(matches!(assign_hints(matched, labels), Err(Error::HintShortfall)));
}
