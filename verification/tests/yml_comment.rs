use syspec::comment::remove_comment;

#[test]
fn test_case1() {
    let data = r#"
hr:  65    # Home runs
avg: 0.278 # Batting average
rbi: 147   # Runs Batted In
        "#;
    let _codes = remove_comment(data).unwrap();
    println!("{}", _codes);
    assert!(!_codes.contains("#"));
}

#[test]
fn test_case2() {
    let data = r#"
            # Ranking of 1998 home runs
            ---
            - Mark McGwire
            - Sammy Sosa
            - Ken Griffey

            # Team ranking
            ---
            - Chicago Cubs
            - St Louis Cardinals
        "#;
    let _codes = remove_comment(data).unwrap();
    println!("{}", _codes);
    assert!(!_codes.contains("#"));
}

#[test]
fn test_case4() {
    let data = r#"
    ---
    hr: # 1998 hr ranking
        - Mark McGwire
        - Sammy Sosa
    rbi:
        # 1998 rbi ranking
        - Sammy Sosa
        - Ken Griffey
        "#;
    let _codes = remove_comment(data).unwrap();
    println!("{}", _codes);
    assert!(!_codes.contains("#"));
}

#[test]
fn test_case5() {
    let data = r#"
    ---
    unicode: "Sosa did fine.\u263A"
    control: "\b1998\t1999\t2000\n"
    hex esc: "\x0d\x0a is \r\n"

    single: '"Howdy!" he cried.'
    quoted: ' # Not a ''comment''.'
    tie-fighter: '|\-*-/|'
        "#;
    let _codes = remove_comment(data).unwrap();
    println!("{}", _codes);
    assert!(_codes.contains("#"));
}

#[test]
fn test_case6() {
    let data = r#"
    ---
    application specific tag: !something |
     The #semantics of the tag
     above may be different for
     different documents.

    # hello
    galaxy is ok

        "#;
    let _codes = remove_comment(data).unwrap();
    println!("{}", _codes);
    assert!(_codes.contains("#"));
}

#[test]
fn test_case7() {
    let data = r#"
global:
    imageRegistry: ""
    ## E.g.
    ## imagePullSecrets:
    ##   - myRegistryKeySecretName
    ##
    imagePullSecrets: []
    ## Security parameters
    ##
    security:
    ## @param global.security.allowInsecureImages Allows skipping image verification
    ##
    allowInsecureImages: false
            imageRegistry: ""
        "#;
    let _codes = remove_comment(data).unwrap();
    println!("{}", _codes);
}

#[test]
fn test_case8() {
    let data = r#"hello
# xxxabc"#;
    let _codes = remove_comment(data).unwrap();
    println!("{}", _codes);
}

#[test]
fn test_case9() {
    let data = r#"regex: (\d+);((([0-9]+?)(\.|$)){4})"#;
    let _codes = remove_comment(data).unwrap();
    println!("{}", _codes);
}

#[test]
fn comment_removal_keeps_key_and_value() {
    let out = remove_comment("hr: 65 # Home runs").unwrap();
    assert_eq!(out, "hr: 65 ");
    assert!(!out.contains("#"));
    assert!(out.contains("hr: 65"));
}

#[test]
fn quoted_hash_is_preserved() {
    let out = remove_comment("quoted: ' # Not a comment.'").unwrap();
    assert_eq!(out, "quoted: ' # Not a comment.'");
    assert!(out.contains("#"));
}

#[test]
fn comment_free_input_is_unchanged() {
    let data = "a: 1\nb: \"two\"\nc: 'three'\nblock: |\n lines\n\nrest: ok\n";
    let out = remove_comment(data).unwrap();
    assert_eq!(out, data);
}

#[test]
fn comment_only_line_collapses_to_empty_line() {
    let out = remove_comment("   # only a comment\nkey: 1\n").unwrap();
    assert_eq!(out, "\nkey: 1\n");
}

#[test]
fn unterminated_quote_is_malformed() {
    let err = remove_comment("bad: 'no close").unwrap_err();
    assert!(matches!(err.kind(), syspec::error::ErrorKind::MalformedInput));
}

#[test]
fn yml_comment_entry_point_matches() {
    let a = syspec::comment::YmlComment::remove("x: 1 # gone").unwrap();
    assert_eq!(a, "x: 1 ");
}
