//! The outbound message and its wire format.
//!
//! The wire format is compact JSON under fixed keys. The library frames the
//! objects and arrays; the text of each string value comes from `serde_json`.

use vstd::prelude::*;

verus! {

/// The compact JSON text of a string value: the string quoted and escaped.
pub uninterp spec fn json_string_text(value: Seq<char>) -> Seq<char>;

/// Formats `serde_json::Value::String` of the text, which gives its JSON
/// string literal in compact form.
#[verifier::external_body]
fn json_string(value: &str) -> (text: String)
    ensures
        text@ == json_string_text(value@),
{
    serde_json::Value::String(value.to_owned()).to_string()
}

/// The texts joined by commas, in their order.
pub open spec fn joined(items: Seq<Seq<char>>) -> Seq<char>
    decreases items.len(),
{
    if items.len() == 0 {
        Seq::empty()
    } else if items.len() == 1 {
        items[0]
    } else {
        joined(items.drop_last()) + ","@ + items.last()
    }
}

/// A JSON array of the given elements, each already JSON text.
pub open spec fn array_text(items: Seq<Seq<char>>) -> Seq<char> {
    "["@ + joined(items) + "]"@
}

/// A party on the wire, given the JSON text of its address and of its name.
pub open spec fn contact_text(email: Seq<char>, name: Seq<char>) -> Seq<char> {
    "{\"Email\":"@ + email + ",\"Name\":"@ + name + "}"@
}

/// A message on the wire, given the JSON text of each of its members.
pub open spec fn message_text(
    from: Seq<char>,
    to: Seq<char>,
    subject: Seq<char>,
    text_part: Seq<char>,
    html_part: Seq<char>,
) -> Seq<char> {
    "{\"From\":"@ + from + ",\"To\":"@ + to + ",\"Subject\":"@ + subject + ",\"TextPart\":"@
        + text_part + ",\"HTMLPart\":"@ + html_part + "}"@
}

/// The body of a request, given the JSON text of its array of messages.
pub open spec fn envelope_text(messages: Seq<char>) -> Seq<char> {
    "{\"Messages\":"@ + messages + "}"@
}

/// What each of the strings holds, in their order.
pub open spec fn texts_of(items: Seq<String>) -> Seq<Seq<char>> {
    Seq::new(items.len(), |i: int| items[i]@)
}

/// Writes a JSON array round elements that are already JSON text.
pub fn array(items: &Vec<String>) -> (text: String)
    ensures
        text@ == array_text(texts_of(items@)),
{
    let ghost all = texts_of(items@);
    let mut text = String::from_str("[");
    let mut i: usize = 0;
    proof {
        assert(text@ =~= "["@ + joined(all.take(0)));
    }
    while i < items.len()
        invariant
            i <= items.len(),
            all == texts_of(items@),
            text@ == "["@ + joined(all.take(i as int)),
        decreases items.len() - i,
    {
        if i > 0 {
            text.append(",");
        }
        text.append(items[i].as_str());
        proof {
            let next = all.take(i + 1);
            assert(next.drop_last() =~= all.take(i as int));
            assert(next.last() == items@[i as int]@);
            assert(text@ =~= "["@ + joined(next));
        }
        i = i + 1;
    }
    proof {
        assert(all.take(i as int) =~= all);
    }
    text.append("]");
    text
}

/// Writes a party round the JSON text of its address and of its name.
pub fn contact_object(email: &str, name: &str) -> (text: String)
    ensures
        text@ == contact_text(email@, name@),
{
    let mut text = String::from_str("{\"Email\":");
    text.append(email);
    text.append(",\"Name\":");
    text.append(name);
    text.append("}");
    text
}

/// Writes a message round the JSON text of each of its members.
pub fn message_object(
    from: &str,
    to: &str,
    subject: &str,
    text_part: &str,
    html_part: &str,
) -> (text: String)
    ensures
        text@ == message_text(from@, to@, subject@, text_part@, html_part@),
{
    let mut text = String::from_str("{\"From\":");
    text.append(from);
    text.append(",\"To\":");
    text.append(to);
    text.append(",\"Subject\":");
    text.append(subject);
    text.append(",\"TextPart\":");
    text.append(text_part);
    text.append(",\"HTMLPart\":");
    text.append(html_part);
    text.append("}");
    text
}

/// Writes the body of a request round the JSON text of its array of messages.
pub fn envelope(messages: &str) -> (text: String)
    ensures
        text@ == envelope_text(messages@),
{
    let mut text = String::from_str("{\"Messages\":");
    text.append(messages);
    text.append("}");
    text
}

/// One party of a message: an address and a display name.
pub struct Contact {
    pub email: String,
    pub name: String,
}

/// One email: who sends it, who receives it, and what it says.
pub struct Message {
    pub from: Contact,
    pub to: Vec<Contact>,
    pub subject: String,
    pub text_part: String,
    pub html_part: String,
}

/// What one request carries: messages, in their order.
pub struct Messages {
    pub messages: Vec<Message>,
}

impl Contact {
    /// The party on the wire.
    pub open spec fn wire_text(&self) -> Seq<char> {
        contact_text(json_string_text(self.email@), json_string_text(self.name@))
    }

    /// The party as JSON.
    pub fn to_json(&self) -> (text: String)
        ensures
            text@ == self.wire_text(),
    {
        let email = json_string(self.email.as_str());
        let name = json_string(self.name.as_str());
        contact_object(email.as_str(), name.as_str())
    }
}

impl Message {
    /// The recipients on the wire, in their order.
    pub open spec fn recipient_texts(&self) -> Seq<Seq<char>> {
        Seq::new(self.to@.len(), |i: int| self.to@[i].wire_text())
    }

    /// The message on the wire.
    pub open spec fn wire_text(&self) -> Seq<char> {
        message_text(
            self.from.wire_text(),
            array_text(self.recipient_texts()),
            json_string_text(self.subject@),
            json_string_text(self.text_part@),
            json_string_text(self.html_part@),
        )
    }

    /// The message as JSON.
    pub fn to_json(&self) -> (text: String)
        ensures
            text@ == self.wire_text(),
    {
        let mut recipients: Vec<String> = Vec::new();
        let mut i: usize = 0;
        while i < self.to.len()
            invariant
                i <= self.to.len(),
                recipients.len() == i,
                forall|j: int| 0 <= j < i ==> (#[trigger] recipients@[j])@ == self.to@[j].wire_text(),
            decreases self.to.len() - i,
        {
            recipients.push(self.to[i].to_json());
            i = i + 1;
        }
        proof {
            assert(texts_of(recipients@) =~= self.recipient_texts());
        }
        let from = self.from.to_json();
        let to = array(&recipients);
        let subject = json_string(self.subject.as_str());
        let text_part = json_string(self.text_part.as_str());
        let html_part = json_string(self.html_part.as_str());
        message_object(
            from.as_str(),
            to.as_str(),
            subject.as_str(),
            text_part.as_str(),
            html_part.as_str(),
        )
    }
}

impl Messages {
    /// The messages on the wire, in their order.
    pub open spec fn message_texts(&self) -> Seq<Seq<char>> {
        Seq::new(self.messages@.len(), |i: int| self.messages@[i].wire_text())
    }

    /// The body of the request that carries these messages.
    pub open spec fn wire_text(&self) -> Seq<char> {
        envelope_text(array_text(self.message_texts()))
    }

    /// The body of the request that carries these messages, as JSON.
    pub fn to_json(&self) -> (text: String)
        ensures
            text@ == self.wire_text(),
    {
        let mut messages: Vec<String> = Vec::new();
        let mut i: usize = 0;
        while i < self.messages.len()
            invariant
                i <= self.messages.len(),
                messages.len() == i,
                forall|j: int|
                    0 <= j < i ==> (#[trigger] messages@[j])@ == self.messages@[j].wire_text(),
            decreases self.messages.len() - i,
        {
            messages.push(self.messages[i].to_json());
            i = i + 1;
        }
        proof {
            assert(texts_of(messages@) =~= self.message_texts());
        }
        let list = array(&messages);
        envelope(list.as_str())
    }
}

} // verus!
