use newsletter::routes::subscriptions::{subscribe, FormData};

#[test]
fn subscribe_answers_200_with_an_empty_body() {
    let response = subscribe(FormData {
        email: "ursula@example.com".to_string(),
        name: "Ursula".to_string(),
    });
    assert_eq!(response.status, 200);
    assert_eq!(response.body, "");
}

#[test]
fn subscribe_answers_200_whatever_the_fields_hold() {
    let response = subscribe(FormData { email: String::new(), name: "not an address".to_string() });
    assert_eq!(response.status, 200);
    assert!(response.body.is_empty());
}
