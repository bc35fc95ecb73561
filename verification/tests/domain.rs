use zero2prod::email::Email;
use zero2prod::name::Name;
use zero2prod::subscriber::Subscriber;

#[test]
fn reject_empty_email() {
    let email = "";
    assert!(str::parse::<Email>(email).is_err());
}

#[test]
fn reject_whitespace_only_email() {
    let email = "    \n";
    assert!(str::parse::<Email>(email).is_err());
}

#[test]
fn reject_invalid_email() {
    let email = "chris at example dot com";
    assert!(str::parse::<Email>(email).is_err());
}

#[test]
fn accept_valid_email() {
    let email = "chris@example.com";
    assert!(str::parse::<Email>(email).is_ok());
}

#[test]
fn reject_empty_name() {
    let name = "";
    assert!(str::parse::<Name>(name).is_err());
}

#[test]
fn reject_whitespace_only_name() {
    let name = "    \n";
    assert!(str::parse::<Name>(name).is_err());
}

#[test]
fn reject_forbidden_characters() {
    for c in "/()\"<>\\{}[]".chars() {
        let name = &c.to_string();
        assert!(str::parse::<Name>(name).is_err());
    }
}

#[test]
fn reject_too_long_name() {
    let name = "a".repeat(257);
    assert!(str::parse::<Name>(&name).is_err());
}

#[test]
fn accept_long_name() {
    let name = "a".repeat(256);
    assert!(str::parse::<Name>(&name).is_ok());
}

#[test]
fn accept_valid_name() {
    let name = "Ursula Le Guin";
    assert!(str::parse::<Name>(name).is_ok());
}

#[test]
fn email_keeps_the_trimmed_text() {
    let email = Email::parse("  chris@example.com\t\n").unwrap();
    assert_eq!(email.as_ref(), "chris@example.com");
}

#[test]
fn email_error_names_the_trimmed_text() {
    assert_eq!(
        Email::parse("  chris at example dot com ").unwrap_err(),
        "Invalid email: chris at example dot com"
    );
}

#[test]
fn email_without_at_sign_is_refused() {
    assert!(Email::parse("example.com").is_err());
}

#[test]
fn email_parses_its_own_text_again() {
    let email = Email::parse(" ursula_le_guin@gmail.com ").unwrap();
    let again = Email::parse(email.as_ref()).unwrap();
    assert_eq!(email, again);
}

#[test]
fn email_ignores_unicode_white_space() {
    let email = Email::parse("\u{3000}\u{a0}chris@example.com\u{2028}").unwrap();
    assert_eq!(email.as_ref(), "chris@example.com");
}

#[test]
fn name_keeps_the_trimmed_text() {
    let name = Name::parse("\t Ursula Le Guin \r\n").unwrap();
    assert_eq!(name.as_ref(), "Ursula Le Guin");
}

#[test]
fn name_error_messages() {
    assert_eq!(Name::parse(" \u{85} ").unwrap_err(), "Empty name");
    let long = "b".repeat(300);
    assert_eq!(
        Name::parse(&long).unwrap_err(),
        format!("Name too long: {}", long)
    );
    assert_eq!(
        Name::parse(" Le <Guin> ").unwrap_err(),
        "Invalid name: Le <Guin>"
    );
}

#[test]
fn name_length_counts_grapheme_clusters() {
    // "e" followed by a combining acute accent is one cluster of two characters.
    let accepted = "e\u{301}".repeat(256);
    assert_eq!(Name::parse(&accepted).unwrap().as_ref(), accepted);
    let refused = "e\u{301}".repeat(257);
    assert!(Name::parse(&refused).is_err());
}

#[test]
fn name_length_is_checked_before_characters() {
    let text = format!("{}/", "a".repeat(300));
    assert!(Name::parse(&text).unwrap_err().starts_with("Name too long: "));
}

#[test]
fn name_parses_its_own_text_again() {
    let name = Name::parse("  le guin ").unwrap();
    let again = Name::parse(name.as_ref()).unwrap();
    assert_eq!(name, again);
}

#[test]
fn subscriber_holds_its_parts() {
    let email = Email::parse("chris@example.com").unwrap();
    let name = Name::parse("Chris").unwrap();
    let s = Subscriber::new(email, name);
    assert_eq!(s.email.as_ref(), "chris@example.com");
    assert_eq!(s.name.as_ref(), "Chris");
}
