use thumbs::Match;
use thumbs::State;

fn match_lines(output: &str) -> Vec<Match> {
    let lines: Vec<String> = output.split("\n").map(|s| s.to_string()).collect();
    let state = State::new(lines, "abcd");
    state.matches().unwrap()
}

#[test]
fn match_paths() {
    let output = "Lorem /tmp/foo/bar lorem\n Lorem /var/log/bootstrap.log lorem /var/log/kern.log lorem";

    assert_ne!(match_lines(output).len(), 2);
}

#[test]
fn match_uids() {
    let output = "Lorem ipsum 123e4567-e89b-12d3-a456-426655440000 lorem\n Lorem lorem lorem";

    assert_ne!(match_lines(output).len(), 1);
}

#[test]
fn match_shas() {
    let output = "Lorem fd70b5695 5246ddf f924213 lorem\n Lorem 973113963b491874ab2e372ee60d4b4cb75f717c lorem";

    assert_eq!(match_lines(output).len(), 4);
}

#[test]
fn match_ips() {
    let output = "Lorem ipsum 127.0.0.1 lorem\n Lorem 255.255.10.255 lorem 127.0.0.1 lorem";

    assert_eq!(match_lines(output).len(), 3);
}

#[test]
fn match_urls() {
    let output = "Lorem ipsum https://www.rust-lang.org/tools lorem\n Lorem https://crates.io lorem https://github.io lorem ssh://github.io";

    assert_eq!(match_lines(output).len(), 4);
}

#[test]
fn match_addresses() {
    let output = "Lorem 0xfd70b5695 0x5246ddf lorem\n Lorem 0x973113 lorem";

    assert_ne!(match_lines(output).len(), 3);
}

#[test]
fn scenario_content_hashes() {
    let lines = vec![
        "Lorem fd70b5695 5246ddf f924213 lorem".to_string(),
        "Lorem 973113963b491874ab2e372ee60d4b4cb75f717c lorem".to_string(),
    ];
    let state = State::new(lines, "abcd");
    let found = state.matches().unwrap();
    assert_eq!(found.len(), 4);
    assert_eq!(found[0].y, 0);
    assert_eq!(found[1].y, 0);
    assert_eq!(found[2].y, 0);
    assert_eq!(found[3].y, 1);
    assert_eq!(found[3].text, "973113963b491874ab2e372ee60d4b4cb75f717c");
}

#[test]
fn scenario_ipv4() {
    let lines = vec![
        "Lorem ipsum 127.0.0.1 lorem".to_string(),
        "Lorem 255.255.10.255 lorem 127.0.0.1 lorem".to_string(),
    ];
    let state = State::new(lines, "abcd");
    assert_eq!(state.matches().unwrap().len(), 3);
}

#[test]
fn scenario_urls() {
    let lines = vec![
        "Lorem ipsum https://example.org/tools lorem".to_string(),
        "Lorem https://example.com lorem https://example.io lorem ssh://example.io".to_string(),
    ];
    let state = State::new(lines, "abcd");
    assert_eq!(state.matches().unwrap().len(), 4);
}

#[test]
fn scenario_empty_input() {
    let state = State::new(Vec::new(), "abcd");
    let found = state.matches().unwrap();
    assert_eq!(found.len(), 0);
}

#[test]
fn positions_inside_input() {
    let output = "Lorem /tmp/foo/bar 0xfd70 lorem\n127.0.0.1 lorem fd70b5695 https://example.org";
    let lines: Vec<String> = output.split("\n").map(|s| s.to_string()).collect();
    let state = State::new(lines.clone(), "abcd");
    let found = state.matches().unwrap();
    assert!(found.len() > 0);
    for m in &found {
        assert!(m.y < lines.len());
        let line_len = lines[m.y].chars().count();
        assert!(m.x < line_len);
        assert!(m.x + m.text.chars().count() <= line_len);
    }
}

#[test]
fn hints_distinct_and_nonempty() {
    let output = "Lorem fd70b5695 5246ddf f924213 lorem 0x1f 0x2e 127.0.0.1";
    let found = match_lines(output);
    assert!(found.len() > 4);
    let hints: Vec<String> = found.iter().map(|m| m.hint.clone().unwrap()).collect();
    for h in &hints {
        assert!(h.len() > 0);
    }
    for i in 0..hints.len() {
        for j in 0..hints.len() {
            if i != j {
                assert_ne!(hints[i], hints[j]);
            }
        }
    }
}

#[test]
fn pipeline_idempotent() {
    let output = "Lorem fd70b5695 lorem 0x1f\nLorem 127.0.0.1 https://example.org lorem";
    let first: Vec<(usize, usize, String)> =
        match_lines(output).iter().map(|m| (m.x, m.y, m.text.clone())).collect();
    let second: Vec<(usize, usize, String)> =
        match_lines(output).iter().map(|m| (m.x, m.y, m.text.clone())).collect();
    assert_eq!(first, second);
    assert!(first.len() > 0);
}

#[test]
fn cursor_saturates_and_counts() {
    let mut state = State::new(Vec::new(), "abcd");
    state.prev();
    assert_eq!(state.skip, 0);
    state.next();
    state.next();
    state.prev();
    assert_eq!(state.skip, 1);
}

#[test]
fn match_position_and_text_exact() {
    let found = match_lines("Lorem 0xfd2b lorem");
    assert_eq!(found.len(), 1);
    assert_eq!(found[0].x, 6);
    assert_eq!(found[0].y, 0);
    assert_eq!(found[0].text, "0xfd2b");
    assert!(found[0].hint.is_some());
}

#[test]
fn emission_order_line_then_pattern() {
    let found = match_lines("deadbeef0 0x1f\n0x2e");
    assert_eq!(found.len(), 3);
    assert_eq!(found[0].text, "deadbeef0");
    assert_eq!(found[0].x, 0);
    assert_eq!(found[1].text, "0x1f");
    assert_eq!(found[1].x, 10);
    assert_eq!(found[2].text, "0x2e");
    assert_eq!(found[2].y, 1);
}

#[test]
fn match_equality_is_positional() {
    let a = Match { x: 1, y: 2, text: "abc".to_string(), hint: None };
    let b = Match { x: 1, y: 2, text: "xyz".to_string(), hint: Some("a".to_string()) };
    let c = Match { x: 1, y: 3, text: "abc".to_string(), hint: None };
    assert!(a == b);
    assert!(a != c);
}

#[test]
fn unknown_alphabet_is_rejected() {
    let state = State::new(vec!["Lorem 0x1f lorem".to_string()], "no-such-alphabet");
    let r = state.matches();
    assert!(matches!(r, Err(thumbs::Error::UnknownAlphabet)));
}
