use line_shell::text::{blank, separates, split_whitespace};

#[test]
fn split_whitespace_gives_the_words_in_order() {
    assert_eq!(split_whitespace("foo a b"), vec!["foo".to_string(), "a".to_string(), "b".to_string()]);
}

#[test]
fn split_whitespace_drops_runs_of_whitespace() {
    assert_eq!(
        split_whitespace("  foo \t a\u{3000}\u{a0} b \n"),
        vec!["foo".to_string(), "a".to_string(), "b".to_string()]
    );
    assert_eq!(split_whitespace(""), Vec::<String>::new());
    assert_eq!(split_whitespace(" \t "), Vec::<String>::new());
}

#[test]
fn separates_agrees_with_the_white_space_property() {
    let mut code: u32 = 0;
    while code <= 0x10ffff {
        if let Some(c) = char::from_u32(code) {
            assert_eq!(separates(c), c.is_whitespace(), "U+{:04X}", code);
        }
        code += 1;
    }
}

#[test]
fn split_whitespace_agrees_with_std() {
    let lines = ["", " ", "a", " a", "a ", "a b", "  a  b  ", "\ta\nb\rc", "foo\u{2003}bar", "x\u{85}y\u{1680}z"];
    for line in lines {
        let expected: Vec<String> = line.split_whitespace().map(|s| s.to_string()).collect();
        assert_eq!(split_whitespace(line), expected);
        assert_eq!(blank(line), line.trim().is_empty());
    }
}
