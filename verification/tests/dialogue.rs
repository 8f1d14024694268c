use meaningless::dialogue::{
    is_whitespace_char, sign_anim_for, sign_lines, sign_prompt, split_whitespace, wrap_text,
    DialogueState, SignAnim, SignField,
};

#[test]
fn whitespace_matches_std() {
    for u in 0u32..=0x10FFFF {
        if let Some(c) = char::from_u32(u) {
            assert_eq!(is_whitespace_char(c), c.is_whitespace(), "U+{:04X}", u);
        }
    }
}

#[test]
fn splitting_matches_std() {
    let text = "  hello\tworld \u{3000} again\n";
    let words = split_whitespace(text);
    let expected: Vec<String> = text.split_whitespace().map(|s| s.to_string()).collect();
    assert_eq!(words, expected);
}

#[test]
fn wrapping_is_greedy() {
    let lines = wrap_text("the quick brown fox jumps", 10, 3);
    assert_eq!(lines, vec!["the quick", "brown fox", "jumps"]);
}

#[test]
fn wrapping_stops_at_max_lines() {
    let lines = wrap_text("aa bb cc dd", 2, 2);
    assert_eq!(lines, vec!["aa", "bb"]);
    assert_eq!(wrap_text("", 10, 3), Vec::<String>::new());
}

#[test]
fn long_words_get_their_own_line() {
    let lines = wrap_text("a verylongword b", 5, 3);
    assert_eq!(lines, vec!["a", "verylongword", "b"]);
}

#[test]
fn wrapped_lines_fit_unless_a_single_word() {
    let text = "Jump on the cells to climb higher, then reach the flag \u{e9}\u{e9}\u{e9} quickly";
    let words: Vec<&str> = text.split_whitespace().collect();
    let lines = wrap_text(text, 12, 10);
    assert!(lines.len() <= 10);
    for line in &lines {
        assert!(line.len() <= 12 || words.contains(&line.as_str()), "{:?}", line);
    }
    assert_eq!(lines.join(" "), words.join(" "));
}

#[test]
fn dialogue_reveals_and_advances() {
    let mut d = DialogueState::new();
    assert!(!d.active());
    d.open(vec!["hello world".to_string(), "bye".to_string()]);
    assert!(d.active());
    assert_eq!(d.current_display_text(), "           ");
    // The frame that opened the dialogue ignores Enter.
    d.update(3, true);
    assert!(d.active());
    assert_eq!(d.current_display_text(), "hel        ");
    // Enter reveals the rest of the line.
    d.update(0, true);
    assert_eq!(d.current_display_text(), "hello world");
    assert!(d.is_line_complete());
    // Enter moves to the next line.
    d.update(0, true);
    assert_eq!(d.current_display_text(), "   ");
    d.update(100, false);
    assert_eq!(d.current_display_text(), "bye");
    d.update(0, true);
    assert!(!d.active());
}

#[test]
fn display_text_joins_wrapped_lines() {
    let long = "one two three four five six seven eight nine ten eleven twelve";
    let mut d = DialogueState::new();
    d.open(vec![long.to_string()]);
    d.update(1000, false);
    let expected = wrap_text(long, 43, 3).join("\n");
    assert_eq!(d.current_display_text(), expected);
}

#[test]
fn empty_sign_closes_on_enter() {
    let mut d = DialogueState::new();
    d.open(vec![]);
    assert!(d.is_line_complete());
    d.update(0, false);
    d.advance();
    assert!(!d.active());
}

#[test]
fn sign_text_fields() {
    let fields = vec![
        SignField { identifier: "text".to_string(), strings: Some(vec![Some("a".to_string())]) },
        SignField { identifier: "other".to_string(), strings: Some(vec![Some("x".to_string())]) },
        SignField {
            identifier: "text".to_string(),
            strings: Some(vec![Some("b".to_string()), None, Some("c".to_string())]),
        },
        SignField { identifier: "text".to_string(), strings: None },
    ];
    assert_eq!(sign_lines(&fields), vec!["b".to_string(), "c".to_string()]);
    assert_eq!(sign_lines(&vec![]), Vec::<String>::new());
}

#[test]
fn sign_animation_and_prompt() {
    assert_eq!(sign_anim_for(true, false, false), Some(SignAnim::Active));
    assert_eq!(sign_anim_for(false, true, true), Some(SignAnim::Active));
    assert_eq!(sign_anim_for(false, true, false), None);
    assert_eq!(sign_anim_for(false, false, true), Some(SignAnim::Idle));
    let mut o: Option<String> = None;
    sign_prompt(true, &mut o);
    assert_eq!(o.as_deref(), Some("ENTER to read sign"));
    sign_prompt(false, &mut o);
    assert_eq!(o, None);
    let mut other = Some("ENTER to continue".to_string());
    sign_prompt(false, &mut other);
    assert_eq!(other.as_deref(), Some("ENTER to continue"));
}
