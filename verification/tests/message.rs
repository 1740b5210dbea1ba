use newsletter::message::{
    array, contact_object, envelope, message_object, Contact, Message, Messages,
};
use serde_json::Value;

fn contact(email: &str, name: &str) -> Contact {
    Contact { email: email.to_string(), name: name.to_string() }
}

fn message_to(recipients: Vec<Contact>) -> Message {
    Message {
        from: contact("news@example.com", "sender"),
        to: recipients,
        subject: "Welcome".to_string(),
        text_part: "Hello".to_string(),
        html_part: "<p>Hello</p>".to_string(),
    }
}

#[test]
fn array_joins_its_elements_with_commas() {
    assert_eq!(array(&vec![]), "[]");
    assert_eq!(array(&vec!["1".to_string()]), "[1]");
    assert_eq!(array(&vec!["1".to_string(), "\"b\"".to_string()]), "[1,\"b\"]");
    assert_eq!(
        array(&vec!["{}".to_string(), "[]".to_string(), "null".to_string()]),
        "[{},[],null]"
    );
    assert_eq!(array(&vec![String::new(), String::new()]), "[,]");
}

#[test]
fn contact_object_frames_address_and_name() {
    assert_eq!(contact_object("1", "2"), "{\"Email\":1,\"Name\":2}");
    assert_eq!(contact_object("", ""), "{\"Email\":,\"Name\":}");
}

#[test]
fn message_object_frames_the_five_members() {
    assert_eq!(
        message_object("1", "2", "3", "4", "5"),
        "{\"From\":1,\"To\":2,\"Subject\":3,\"TextPart\":4,\"HTMLPart\":5}"
    );
}

#[test]
fn envelope_frames_the_messages() {
    assert_eq!(envelope("[]"), "{\"Messages\":[]}");
    assert_eq!(envelope(""), "{\"Messages\":}");
}

#[test]
fn a_contact_is_written_with_quoted_values() {
    assert_eq!(
        contact("ada@example.org", "Ada").to_json(),
        "{\"Email\":\"ada@example.org\",\"Name\":\"Ada\"}"
    );
    assert_eq!(contact("", "").to_json(), "{\"Email\":\"\",\"Name\":\"\"}");
}

#[test]
fn a_contact_is_written_with_escaped_values() {
    assert_eq!(
        contact("a\"b@example.org", "back\\slash\u{1}\r\n").to_json(),
        "{\"Email\":\"a\\\"b@example.org\",\"Name\":\"back\\\\slash\\u0001\\r\\n\"}"
    );
    assert_eq!(
        contact("ü@exämple.de", "日本").to_json(),
        "{\"Email\":\"ü@exämple.de\",\"Name\":\"日本\"}"
    );
}

#[test]
fn a_message_is_written_with_its_recipients_in_order() {
    let none = message_to(vec![]);
    assert_eq!(
        none.to_json(),
        "{\"From\":{\"Email\":\"news@example.com\",\"Name\":\"sender\"},\"To\":[],\
         \"Subject\":\"Welcome\",\"TextPart\":\"Hello\",\"HTMLPart\":\"<p>Hello</p>\"}"
    );
    let two = message_to(vec![contact("a@example.org", "A"), contact("b@example.org", "B")]);
    assert_eq!(
        two.to_json(),
        "{\"From\":{\"Email\":\"news@example.com\",\"Name\":\"sender\"},\
         \"To\":[{\"Email\":\"a@example.org\",\"Name\":\"A\"},\
         {\"Email\":\"b@example.org\",\"Name\":\"B\"}],\
         \"Subject\":\"Welcome\",\"TextPart\":\"Hello\",\"HTMLPart\":\"<p>Hello</p>\"}"
    );
}

#[test]
fn messages_are_written_in_order_under_one_key() {
    assert_eq!(Messages { messages: vec![] }.to_json(), "{\"Messages\":[]}");
    let first = message_to(vec![contact("a@example.org", "A")]);
    let mut second = message_to(vec![contact("b@example.org", "B")]);
    second.subject = "Second".to_string();
    let body = Messages { messages: vec![first, second] }.to_json();
    let parsed: Value = serde_json::from_str(&body).unwrap();
    let messages = parsed["Messages"].as_array().unwrap();
    assert_eq!(messages.len(), 2);
    assert_eq!(messages[0]["Subject"], Value::String("Welcome".to_string()));
    assert_eq!(messages[0]["To"][0]["Email"], Value::String("a@example.org".to_string()));
    assert_eq!(messages[1]["Subject"], Value::String("Second".to_string()));
    assert_eq!(messages[1]["To"][0]["Name"], Value::String("B".to_string()));
}

#[test]
fn what_is_written_reads_back_as_what_was_given() {
    let mut message = message_to(vec![contact("a@example.org", "tab\there")]);
    message.subject = "quote \" and \\ and \u{8}\u{c}".to_string();
    message.text_part = String::new();
    message.html_part = "<p class=\"x\">\u{1f}</p>".to_string();
    let body = Messages { messages: vec![message] }.to_json();
    let parsed: Value = serde_json::from_str(&body).unwrap();
    let read = &parsed["Messages"][0];
    assert_eq!(read["Subject"], Value::String("quote \" and \\ and \u{8}\u{c}".to_string()));
    assert_eq!(read["TextPart"], Value::String(String::new()));
    assert_eq!(read["HTMLPart"], Value::String("<p class=\"x\">\u{1f}</p>".to_string()));
    assert_eq!(read["To"][0]["Name"], Value::String("tab\there".to_string()));
}
