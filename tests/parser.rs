use green_shell::parser::{parse_greeting, ErrorKind, Greeting};

#[test]
fn test_parse_greeting() {
    let input = "hello world";
    let (remaining, greeting) = parse_greeting(input).unwrap();

    assert_eq!(
        greeting,
        Greeting {
            name: "world".to_string(),
            greeting: "hello".to_string()
        }
    );
    assert_eq!(remaining, "");
}

#[test]
fn test_parse_greeting_failure() {
    let input = "hi world";
    let result = parse_greeting(input);

    assert!(result.is_err());

    if let Err(e) = result {
        assert_eq!(e.code, ErrorKind::Tag);
    }
}

#[test]
fn greeting_keeps_what_follows_the_name() {
    let (remaining, greeting) = parse_greeting("hello \t Bob, hi").unwrap();
    assert_eq!(greeting.name, "Bob");
    assert_eq!(greeting.greeting, "hello");
    assert_eq!(remaining, ", hi");
}

#[test]
fn greeting_without_space_fails_on_space() {
    let e = parse_greeting("helloworld").unwrap_err();
    assert_eq!(e.code, ErrorKind::Space);
    assert_eq!(e.input, "world");
}

#[test]
fn greeting_without_name_fails_on_alpha() {
    let e = parse_greeting("hello  42").unwrap_err();
    assert_eq!(e.code, ErrorKind::Alpha);
    assert_eq!(e.input, "42");
}

#[test]
fn greeting_on_short_input_fails_on_tag() {
    let e = parse_greeting("hell").unwrap_err();
    assert_eq!(e.code, ErrorKind::Tag);
    assert_eq!(e.input, "hell");
}
