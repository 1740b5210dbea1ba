use newsletter::domain::SubscriberEmail;

fn accepted(text: &str) -> bool {
    match SubscriberEmail::parse(text.to_string()) {
        Ok(address) => {
            assert_eq!(address.as_str(), text);
            true
        }
        Err(rejected) => {
            assert_eq!(rejected, text);
            false
        }
    }
}

#[test]
fn an_address_with_one_at_sign_is_accepted() {
    assert!(accepted("ursula@example.com"));
    assert!(accepted("a@b"));
    assert!(accepted("first.last+tag@sub.example.org"));
    assert!(accepted("ürsula@exämple.de"));
}

#[test]
fn an_address_without_an_at_sign_is_rejected() {
    assert!(!accepted("ursuladomain.com"));
    assert!(!accepted(""));
}

#[test]
fn an_address_with_an_empty_side_is_rejected() {
    assert!(!accepted("@domain.com"));
    assert!(!accepted("ursula@"));
    assert!(!accepted("@"));
}

#[test]
fn an_address_with_two_at_signs_is_rejected() {
    assert!(!accepted("a@b@c"));
    assert!(!accepted("@a@"));
    assert!(!accepted("a@@b"));
}

#[test]
fn an_address_with_blanks_is_rejected() {
    assert!(!accepted(" "));
    assert!(!accepted("ursula le guin@example.com"));
    assert!(!accepted("ursula@example.com\n"));
    assert!(!accepted("\tursula@example.com"));
    assert!(!accepted("ursula@exam\rple.com"));
}
