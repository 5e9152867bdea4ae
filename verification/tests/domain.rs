use newsletter::domain::subscriber_email::check_email;
use newsletter::domain::subscriber_name::check_name;
use newsletter::domain::{SubscriberEmail, SubscriberName};

#[test]
fn subscriber_email_empty_string_is_rejected() {
    assert!(SubscriberEmail::parse("".into()).is_err());
}

#[test]
fn email_missing_at_symbol_is_rejected() {
    assert!(SubscriberEmail::parse("name.example.com".into()).is_err());
}

#[test]
fn email_missing_subject_is_rejected() {
    assert!(SubscriberEmail::parse("@example.com".into()).is_err());
}

#[test]
fn email_missing_domain_is_rejected() {
    assert!(SubscriberEmail::parse("name@.com".into()).is_err());
}

#[test]
fn email_with_wrong_symbol_is_rejected() {
    assert!(SubscriberEmail::parse("name\\@example.com".into()).is_err());
}

#[test]
fn email_with_empty_domain_is_rejected() {
    assert!(SubscriberEmail::parse("name@".into()).is_err());
}

#[test]
fn email_without_dot_in_domain_is_rejected() {
    assert!(SubscriberEmail::parse("name@localhost".into()).is_err());
}

#[test]
fn well_formed_emails_are_parsed_successfully() {
    let addresses = [
        "ursula_le_guin@gmail.com",
        "john_doe@mail.com",
        "a@b.co",
        "first.last@example.org",
        "user+tag@sub.example.net",
        "x-1@example.co.uk",
    ];
    for address in addresses {
        let email = SubscriberEmail::parse(address.to_string()).unwrap();
        assert_eq!(email.as_ref(), address);
        assert_eq!(email.to_string(), address);
        assert_eq!(email.clone().as_ref(), address);
    }
}

#[test]
fn email_rejection_names_the_text() {
    assert_eq!(
        SubscriberEmail::parse("name.example.com".into()).unwrap_err(),
        "name.example.com is not a valid email address."
    );
}

#[test]
fn email_rule_needs_grammar_and_shape() {
    assert!(check_email("name@example.com", true));
    assert!(!check_email("name@example.com", false));
    assert!(!check_email("name.example.com", true));
    assert!(!check_email("@example.com", true));
    assert!(!check_email("name@example", true));
    assert!(!check_email("name.surname@example", true));
    assert!(check_email("a@b@c.d", true));
    assert!(!check_email("a.b@c@d", true));
}

#[test]
fn a_256_grapheme_long_name_is_valid() {
    let name = "à".repeat(256);
    assert!(SubscriberName::parse(name).is_ok());
}

#[test]
fn a_name_longer_than_256_is_rejected() {
    let name = "u".repeat(257);
    assert!(SubscriberName::parse(name).is_err());
}

#[test]
fn whitespace_only_is_rejected() {
    let name = " ";
    assert!(SubscriberName::parse(name.into()).is_err());
}

#[test]
fn subscriber_name_empty_string_is_rejected() {
    let name = "";
    assert!(SubscriberName::parse(name.into()).is_err());
}

#[test]
fn name_with_forbidden_characters_is_rejected() {
    let name = "name with (parenthesis)";
    assert!(SubscriberName::parse(name.into()).is_err());
}

#[test]
fn each_forbidden_character_is_rejected() {
    for c in ['(', ')', '/', '"', '<', '>', '{', '}', '\\'] {
        let name = format!("na{}me", c);
        assert!(SubscriberName::parse(name).is_err());
    }
}

#[test]
fn a_valid_name_is_kept_as_given() {
    let name = SubscriberName::parse(" Ursula Le Guin ".into()).unwrap();
    assert_eq!(name.as_ref(), " Ursula Le Guin ");
}

#[test]
fn name_rejection_message() {
    assert_eq!(SubscriberName::parse("".into()).unwrap_err(), "Invalid subscriber name.");
}

#[test]
fn grapheme_clusters_are_counted_not_characters() {
    // 256 clusters of two characters each.
    let name = "e\u{301}".repeat(256);
    assert_eq!(name.chars().count(), 512);
    assert!(SubscriberName::parse(name).is_ok());
    let name = "e\u{301}".repeat(257);
    assert!(SubscriberName::parse(name).is_err());
}

#[test]
fn name_rule_on_given_counts() {
    assert!(check_name("Ursula", false, 6));
    assert!(check_name("Ursula", false, 256));
    assert!(!check_name("Ursula", false, 257));
    assert!(!check_name("\t \n", true, 3));
    assert!(!check_name("Ursula<", false, 7));
    assert!(!check_name("Ursula", true, 6));
}

#[test]
fn valid_emails_are_parsed_successfully() {
    // Addresses of the shape local@example.tld, made from a fixed seed.
    let words = ["alice", "bob", "carol", "dave", "erin", "frank", "grace", "heidi"];
    let separators = ["", ".", "_", "-"];
    let domains = ["example.com", "example.net", "example.org"];
    let mut seed: u64 = 0x2545_f491_4f6c_dd1d;
    for _ in 0..200 {
        seed = seed.wrapping_mul(6364136223846793005).wrapping_add(1442695040888963407);
        let a = words[(seed >> 33) as usize % words.len()];
        let b = words[(seed >> 40) as usize % words.len()];
        let sep = separators[(seed >> 47) as usize % separators.len()];
        let n = (seed >> 52) % 100;
        let domain = domains[(seed >> 59) as usize % domains.len()];
        let address = format!("{}{}{}{}@{}", a, sep, b, n, domain);
        assert!(SubscriberEmail::parse(address.clone()).is_ok(), "{}", address);
    }
}

#[test]
fn subscribe_returns_a_400_when_fields_are_invalid() {
    // An empty name, an empty email, an email without an `@`.
    assert!(SubscriberName::parse(" ".into()).is_err());
    assert!(SubscriberName::parse("john".into()).is_ok());
    assert!(SubscriberEmail::parse("".into()).is_err());
    assert!(SubscriberEmail::parse("johnexample.com".into()).is_err());
    assert!(SubscriberEmail::parse("john@example.com".into()).is_ok());
}

#[test]
fn subscribe_persists_the_new_subscriber() {
    let name = SubscriberName::parse("john doe".into()).unwrap();
    let email = SubscriberEmail::parse("john_doe@mail.com".into()).unwrap();
    assert_eq!(name.as_ref(), "john doe");
    assert_eq!(email.as_ref(), "john_doe@mail.com");
}

#[test]
fn white_space_of_every_kind_is_blank() {
    for blank in ["\t", "\n", "\r\n", "\u{a0}", "\u{2003}", " \t \u{3000} "] {
        assert!(SubscriberName::parse(blank.into()).is_err(), "{:?}", blank);
    }
    assert!(SubscriberName::parse(" a ".into()).is_ok());
}
