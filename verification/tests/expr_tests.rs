use s3rename::errors::ExpressionError;
use s3rename::expr::{replace_command_from_str, rewrite_anonymous_groups, RenameExpr};

#[test]
fn rewrite_turns_backslash_digits_into_dollar_references() {
    assert_eq!(rewrite_anonymous_groups(r"s/(a)(b)/\2\1/"), "s/(a)(b)/$2$1/");
    assert_eq!(rewrite_anonymous_groups(r"\1"), "$1");
    assert_eq!(rewrite_anonymous_groups(r"\9x\0"), "$9x$0");
}

#[test]
fn rewrite_leaves_plain_text_alone() {
    assert_eq!(rewrite_anonymous_groups("s/abc/def/g"), "s/abc/def/g");
    assert_eq!(rewrite_anonymous_groups(""), "");
    assert_eq!(rewrite_anonymous_groups(r"\a \ 1"), r"\a \ 1");
}

#[test]
fn rewrite_is_a_plain_scan_not_an_escape_parser() {
    // A literal escaped backslash directly before a digit is rewritten too:
    // the documented limitation of the heuristic.
    assert_eq!(rewrite_anonymous_groups(r"\\1"), r"\$1");
}

#[test]
fn transform_applies_the_substitution() {
    let expr = RenameExpr::new(String::from("s/b/B/"), true).unwrap();
    assert_eq!(expr.transform("a/b.txt"), "a/B.txt");
    assert_eq!(expr.transform("a/c.txt"), "a/c.txt");
}

#[test]
fn transform_supports_global_and_case_insensitive_flags() {
    let expr = RenameExpr::new(String::from("s/o/0/g"), true).unwrap();
    assert_eq!(expr.transform("foo/boo"), "f00/b00");
}

#[test]
fn anonymous_backrefs_behave_like_native_dollar_references() {
    let anon = RenameExpr::new(String::from(r"s/(a+)(b)/\2\1/"), true).unwrap();
    let native = RenameExpr::new(String::from("s/(a+)(b)/$2$1/"), false).unwrap();
    for key in ["aab", "xaaby", "nothing", "ab/ab"] {
        assert_eq!(anon.transform(key), native.transform(key));
    }
    assert_eq!(anon.transform("aab"), "baa");
}

#[test]
fn disabling_anonymous_groups_keeps_the_expression_text() {
    let expr = RenameExpr::new(String::from("s/x/y/"), false).unwrap();
    assert_eq!(expr.text(), "s/x/y/");
    let rewritten = RenameExpr::new(String::from(r"s/(x)/\1!/"), true).unwrap();
    assert_eq!(rewritten.text(), "s/(x)/$1!/");
}

#[test]
fn an_unparseable_command_is_an_expression_error() {
    match RenameExpr::new(String::from("nonsense"), true) {
        Err(ExpressionError::SedRegexParseError { expression, .. }) => {
            assert_eq!(expression, "nonsense");
        }
        other => panic!("expected a parse error, got {:?}", other.map(|e| String::from(e.text()))),
    }
    assert!(RenameExpr::new(String::from("s/(unclosed/x/"), true).is_err());
}

#[test]
fn replace_command_validation_returns_the_text() {
    assert_eq!(replace_command_from_str("s/a/b/").unwrap(), "s/a/b/");
    assert!(replace_command_from_str("s/(broken/x/").is_err());
}
