use p2p_vpn::text::{decimal_text, with_causes};

#[test]
fn numbers_are_written_in_decimal() {
    for n in [0, 9, 10, 99, 100, 2048, 1234567890] {
        assert_eq!(decimal_text(n), format!("{}", n));
    }
}

fn strings(texts: &[&str]) -> Vec<String> {
    texts.iter().map(|t| t.to_string()).collect()
}

#[test]
fn causes_are_put_below_messages() {
    assert_eq!(with_causes("what", &[]), "what");
    assert_eq!(with_causes("what", &strings(&["why"])), "what\n\nCaused by:\n    why");
    assert_eq!(
        with_causes("what", &strings(&["why", "because"])),
        "what\n\nCaused by:\n    0: why\n    1: because"
    );
    assert_eq!(
        with_causes("wh\nat", &strings(&["why\n\nnot"])),
        "wh\nat\n\nCaused by:\n    why\n    \n    not"
    );
    assert_eq!(
        with_causes("what", &strings(&["", "\n"])),
        "what\n\nCaused by:\n    0: \n    1: \n       "
    );
}

#[test]
fn causes_are_laid_out_as_those_of_errors() {
    for len in [0, 1, 2, 9, 10, 11, 101] {
        let causes: Vec<String> =
            (0..len).map(|i| format!("cause {}\nof \u{e9}\n\n{}\n", i, i)).collect();
        let mut texts: Vec<String> = causes.iter().rev().cloned().collect();
        texts.push("what".to_string());
        let mut error = anyhow::Error::msg(texts[0].clone());
        for text in &texts[1..] {
            error = error.context(text.clone());
        }
        let shown = format!("{:?}", error);
        assert!(shown.starts_with(&with_causes("what", &causes)), "{}", shown);
    }
}
