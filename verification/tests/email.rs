use messenger::email::email_regex;

#[test]
fn test_email_regex() {
    let input = "test@test.com";
    let re = email_regex();
    assert_eq!(re.is_match(input), true);
}

#[test]
fn test_email_regex_fail_no_top_level() {
    let input = "test@test.";
    let re = email_regex();
    assert_eq!(re.is_match(input), false);
}

#[test]
fn test_email_regex_fail_no_name() {
    let input = "test.com";
    let re = email_regex();
    assert_eq!(re.is_match(input), false);
}

#[test]
fn email_found_inside_text() {
    let re = email_regex();
    assert!(re.is_match("write to me: a.b_c%d+e-f@mail-host.example.org please"));
    assert!(re.is_match("x@y.z"));
    assert!(re.is_match("ż x@y.z ż"));
}

#[test]
fn email_parts_must_be_present() {
    let re = email_regex();
    assert!(!re.is_match("@test.com"));
    assert!(!re.is_match("test@.com"));
    assert!(!re.is_match("test@com"));
    assert!(!re.is_match("test@test.1"));
    assert!(!re.is_match(""));
    assert!(!re.is_match("tést@ćom.pl"));
}

#[test]
fn email_domain_may_hold_dots() {
    let re = email_regex();
    assert!(re.is_match("a@b..c"));
    assert!(re.is_match("a@b.c.1"));
}
