//! The email client: what one send puts on the wire, and how the answer is judged.
//!
//! A send is one authenticated HTTP POST. `EmailClient::send_email` computes
//! that request in full; the caller performs it and hands what happened to
//! `conclude`, which turns it into the result of the send.

use crate::domain::SubscriberEmail;
use crate::message::{
    array_text, contact_text, envelope_text, json_string_text, message_text, Contact, Message,
    Messages,
};
use secrecy::ExposeSecret;
use secrecy::Secret;
use std::time::Duration;
use vstd::prelude::*;

verus! {

/// The timeout of a client that was given none, in seconds.
pub const DEFAULT_TIMEOUT_SECS: u64 = 10;

/// An API key, held in a `secrecy::Secret` so that it is wiped when dropped
/// and never shows in debug output.
///
/// `Secret` is bound by a trait that the verifier does not take, so the
/// struct is opaque to it: what a key holds is known only as `key_text`,
/// through `seal` and `unseal`.
#[verifier::external_body]
pub struct ApiKey {
    secret: Secret<String>,
}

/// The text that a key holds.
pub uninterp spec fn key_text(key: ApiKey) -> Seq<char>;

/// Whether `Url::parse` accepts the text as an absolute URL.
pub uninterp spec fn parses_as_url(text: Seq<char>) -> bool;

/// The duration of a whole number of seconds.
pub uninterp spec fn duration_of_secs(secs: u64) -> Duration;

/// `Duration::from_secs`: the duration is determined by the number of seconds.
pub assume_specification[ Duration::from_secs ](secs: u64) -> (d: Duration)
    ensures
        d == duration_of_secs(secs),
;

/// Moves the text into a `secrecy::Secret` with `Secret::new`, which keeps
/// the value it is given.
#[verifier::external_body]
fn seal(text: String) -> (key: ApiKey)
    ensures
        key_text(key) == text@,
{
    ApiKey { secret: Secret::new(text) }
}

/// Borrows the text of the key with `ExposeSecret::expose_secret`, which
/// returns a reference to the value that the secret was made from.
#[verifier::external_body]
fn unseal(key: &ApiKey) -> (text: &str)
    ensures
        text@ == key_text(*key),
{
    key.secret.expose_secret().as_str()
}

/// Calls `reqwest::Url::parse` and reports whether it accepted the text.
#[verifier::external_body]
fn url_parses(text: &str) -> (accepted: bool)
    ensures
        accepted == parses_as_url(text@),
{
    reqwest::Url::parse(text).is_ok()
}

impl View for ApiKey {
    type V = Seq<char>;

    open spec fn view(&self) -> Seq<char> {
        key_text(*self)
    }
}

impl ApiKey {
    /// Takes ownership of the key's text.
    pub fn new(text: String) -> (key: ApiKey)
        ensures
            key@ == text@,
    {
        seal(text)
    }

    /// The key's text, for the one place that has to write it out: the
    /// authentication header of a request.
    pub fn expose_secret(&self) -> (text: &str)
        ensures
            text@ == self@,
    {
        unseal(self)
    }
}

/// Why a send failed.
#[derive(Debug, Clone, Copy, PartialEq, Eq, Structural)]
pub enum SendError {
    /// No response came: the connection, name resolution or TLS failed, or
    /// the response could not be read.
    TransportError,
    /// No response came within the client's timeout.
    TimeoutError,
    /// A response came with a status outside 200..=299.
    HttpStatusError { status: u16 },
    /// The base URL, or the address of the endpoint made from it, is not a URL.
    UrlFormatError,
}

/// What became of one request.
#[derive(Debug, Clone, Copy, PartialEq, Eq, Structural)]
pub enum Outcome {
    /// The server answered with this status code.
    Responded { status: u16 },
    /// The timeout ran out before an answer came.
    TimedOut,
    /// The exchange failed for any other reason.
    Failed,
}

/// The one request that a send consists of.
pub struct EmailRequest<'a> {
    /// The HTTP method.
    pub method: &'static str,
    /// The address of the endpoint.
    pub url: String,
    /// The user name of HTTP Basic Authentication.
    pub username: &'a ApiKey,
    /// The password of HTTP Basic Authentication.
    pub password: &'a ApiKey,
    /// The value of the `Content-Type` header.
    pub content_type: &'static str,
    /// The body.
    pub body: String,
    /// How long to wait for the response.
    pub timeout: Duration,
}

/// The address that a client with this base URL posts to.
pub open spec fn endpoint_of(base_url: Seq<char>) -> Seq<char> {
    base_url + "/email"@
}

/// Whether a status code stands for success.
pub open spec fn is_success(status: u16) -> bool {
    200 <= status <= 299
}

/// The result of a send whose request had this outcome.
pub open spec fn result_of(outcome: Outcome) -> Result<(), SendError> {
    match outcome {
        Outcome::Responded { status } => if is_success(status) {
            Ok(())
        } else {
            Err(SendError::HttpStatusError { status })
        },
        Outcome::TimedOut => Err(SendError::TimeoutError),
        Outcome::Failed => Err(SendError::TransportError),
    }
}

/// Whether the messages are the one email from `sender` to `recipient`:
/// exactly one message, to exactly one recipient, under the fixed display
/// names, with the subject and both bodies as given.
pub open spec fn is_single_email(
    messages: Messages,
    sender: Seq<char>,
    recipient: Seq<char>,
    subject: Seq<char>,
    html_content: Seq<char>,
    text_content: Seq<char>,
) -> bool {
    &&& messages.messages@.len() == 1
    &&& messages.messages@[0].from.email@ == sender
    &&& messages.messages@[0].from.name@ == "sender"@
    &&& messages.messages@[0].to@.len() == 1
    &&& messages.messages@[0].to@[0].email@ == recipient
    &&& messages.messages@[0].to@[0].name@ == "recipient"@
    &&& messages.messages@[0].subject@ == subject
    &&& messages.messages@[0].text_part@ == text_content
    &&& messages.messages@[0].html_part@ == html_content
}

/// The body of the request that carries this email: an array of one
/// message, whose recipients are an array of one party.
pub open spec fn body_of(
    sender: Seq<char>,
    recipient: Seq<char>,
    subject: Seq<char>,
    html_content: Seq<char>,
    text_content: Seq<char>,
) -> Seq<char> {
    envelope_text(
        array_text(
            seq![
                message_text(
                    contact_text(json_string_text(sender), json_string_text("sender"@)),
                    array_text(
                        seq![
                            contact_text(
                                json_string_text(recipient),
                                json_string_text("recipient"@),
                            ),
                        ],
                    ),
                    json_string_text(subject),
                    json_string_text(text_content),
                    json_string_text(html_content),
                ),
            ],
        ),
    )
}

/// The body that carries a single email is the body of that email: one
/// message with one recipient, with the subject and both bodies present
/// whatever they hold.
pub proof fn single_email_body(
    messages: Messages,
    sender: Seq<char>,
    recipient: Seq<char>,
    subject: Seq<char>,
    html_content: Seq<char>,
    text_content: Seq<char>,
)
    requires
        is_single_email(messages, sender, recipient, subject, html_content, text_content),
    ensures
        messages.wire_text() == body_of(sender, recipient, subject, html_content, text_content),
        messages.message_texts().len() == 1,
        messages.messages@[0].recipient_texts().len() == 1,
{
    let message = messages.messages@[0];
    assert(message.recipient_texts() =~= seq![message.to@[0].wire_text()]);
    assert(messages.message_texts() =~= seq![message.wire_text()]);
}

/// The outcome of a request that brought no response.
pub fn failure(timed_out: bool) -> (outcome: Outcome)
    ensures
        timed_out ==> outcome == Outcome::TimedOut,
        !timed_out ==> outcome == Outcome::Failed,
{
    if timed_out {
        Outcome::TimedOut
    } else {
        Outcome::Failed
    }
}

/// Judges a send by what became of its request: it succeeded exactly when a
/// response came with a status in 200..=299.
pub fn conclude(outcome: Outcome) -> (result: Result<(), SendError>)
    ensures
        result == result_of(outcome),
        result is Ok <==> (outcome matches Outcome::Responded { status } && is_success(status)),
        forall|status: u16|
            result == Err::<(), SendError>(SendError::HttpStatusError { status }) <==> (outcome
                == Outcome::Responded { status } && !is_success(status)),
        result == Err::<(), SendError>(SendError::TimeoutError) <==> outcome == Outcome::TimedOut,
        result == Err::<(), SendError>(SendError::TransportError) <==> outcome == Outcome::Failed,
        result != Err::<(), SendError>(SendError::UrlFormatError),
{
    match outcome {
        Outcome::Responded { status } => {
            if 200 <= status && status <= 299 {
                Ok(())
            } else {
                Err(SendError::HttpStatusError { status })
            }
        },
        Outcome::TimedOut => Err(SendError::TimeoutError),
        Outcome::Failed => Err(SendError::TransportError),
    }
}

/// A client of the email service: where it is, who sends, the key pair that
/// authenticates, and how long a request may take. Nothing in it changes
/// once it is made.
pub struct EmailClient {
    base_url: String,
    sender: SubscriberEmail,
    api_public_key: ApiKey,
    api_private_key: ApiKey,
    timeout: Duration,
}

impl EmailClient {
    /// The base URL of the service.
    pub closed spec fn base_url(&self) -> Seq<char> {
        self.base_url@
    }

    /// The address that every email of this client comes from.
    pub closed spec fn sender(&self) -> Seq<char> {
        self.sender@
    }

    /// The public half of the key pair.
    pub closed spec fn public_key(&self) -> ApiKey {
        self.api_public_key
    }

    /// The private half of the key pair.
    pub closed spec fn private_key(&self) -> ApiKey {
        self.api_private_key
    }

    /// How long a request of this client may take.
    pub closed spec fn timeout(&self) -> Duration {
        self.timeout
    }

    /// Whether this client has somewhere to post to: both its base URL and
    /// the address of its endpoint are URLs.
    pub open spec fn has_url(&self) -> bool {
        parses_as_url(self.base_url()) && parses_as_url(endpoint_of(self.base_url()))
    }

    /// The request that a send of this client makes, around a given body.
    pub open spec fn request_with(&self, request: EmailRequest, body: Seq<char>) -> bool {
        &&& request.method@ == "POST"@
        &&& request.url@ == endpoint_of(self.base_url())
        &&& *request.username == self.public_key()
        &&& *request.password == self.private_key()
        &&& request.content_type@ == "application/json"@
        &&& request.body@ == body
        &&& request.timeout == self.timeout()
    }

    /// A client with the given timeout. The base URL is taken as it is and
    /// examined when an email is sent.
    pub fn new(
        base_url: String,
        sender: SubscriberEmail,
        api_public_key: ApiKey,
        api_private_key: ApiKey,
        timeout: Duration,
    ) -> (client: EmailClient)
        ensures
            client.base_url() == base_url@,
            client.sender() == sender@,
            client.public_key() == api_public_key,
            client.private_key() == api_private_key,
            client.timeout() == timeout,
    {
        EmailClient { base_url, sender, api_public_key, api_private_key, timeout }
    }

    /// A client with the default timeout of `DEFAULT_TIMEOUT_SECS` seconds.
    pub fn with_default_timeout(
        base_url: String,
        sender: SubscriberEmail,
        api_public_key: ApiKey,
        api_private_key: ApiKey,
    ) -> (client: EmailClient)
        ensures
            client.base_url() == base_url@,
            client.sender() == sender@,
            client.public_key() == api_public_key,
            client.private_key() == api_private_key,
            client.timeout() == duration_of_secs(DEFAULT_TIMEOUT_SECS),
    {
        let timeout = Duration::from_secs(DEFAULT_TIMEOUT_SECS);
        EmailClient { base_url, sender, api_public_key, api_private_key, timeout }
    }

    /// The address that this client posts to: the base URL followed by `/email`.
    pub fn endpoint(&self) -> (url: String)
        ensures
            url@ == endpoint_of(self.base_url()),
    {
        let mut url = self.base_url.clone();
        url.append("/email");
        url
    }

    /// The request for a body, given whether the client's addresses were
    /// accepted as URLs: a POST of the body as JSON to the endpoint, under
    /// this client's key pair and timeout; or no request at all.
    pub fn request<'a>(
        &'a self,
        url_accepted: bool,
        body: String,
    ) -> (result: Result<EmailRequest<'a>, SendError>)
        ensures
            url_accepted ==> result is Ok && self.request_with(result->Ok_0, body@),
            !url_accepted ==> result == Err::<EmailRequest<'a>, SendError>(
                SendError::UrlFormatError,
            ),
    {
        if !url_accepted {
            return Err(SendError::UrlFormatError);
        }
        Ok(
            EmailRequest {
                method: "POST",
                url: self.endpoint(),
                username: &self.api_public_key,
                password: &self.api_private_key,
                content_type: "application/json",
                body,
                timeout: self.timeout,
            },
        )
    }

    /// The messages of one send: a single message from this client's sender
    /// to the one recipient.
    pub fn message(
        &self,
        recipient: &SubscriberEmail,
        subject: &str,
        html_content: &str,
        text_content: &str,
    ) -> (messages: Messages)
        ensures
            is_single_email(
                messages,
                self.sender(),
                recipient@,
                subject@,
                html_content@,
                text_content@,
            ),
    {
        let from = Contact {
            email: String::from_str(self.sender.as_str()),
            name: String::from_str("sender"),
        };
        let to = Contact {
            email: String::from_str(recipient.as_str()),
            name: String::from_str("recipient"),
        };
        let message = Message {
            from,
            to: vec![to],
            subject: String::from_str(subject),
            text_part: String::from_str(text_content),
            html_part: String::from_str(html_content),
        };
        Messages { messages: vec![message] }
    }

    /// Prepares the one request that sends an email to `recipient`.
    ///
    /// Where the base URL and the address of the endpoint are URLs, the
    /// result is a POST to the endpoint that authenticates with this client's
    /// key pair and carries, as JSON, one message from the client's sender to
    /// the one recipient, with the subject and both bodies present whatever
    /// they hold. Where one of them is not, the result is `UrlFormatError` and
    /// there is no request to make.
    ///
    /// The client is left as it was: a second call with the same arguments
    /// prepares a second request, and nothing here tells the two apart.
    pub fn send_email<'a>(
        &'a self,
        recipient: SubscriberEmail,
        subject: &str,
        html_content: &str,
        text_content: &str,
    ) -> (result: Result<EmailRequest<'a>, SendError>)
        ensures
            self.has_url() ==> result is Ok && self.request_with(
                result->Ok_0,
                body_of(self.sender(), recipient@, subject@, html_content@, text_content@),
            ),
            !self.has_url() ==> result == Err::<EmailRequest<'a>, SendError>(
                SendError::UrlFormatError,
            ),
    {
        let url = self.endpoint();
        let url_accepted = url_parses(self.base_url.as_str()) && url_parses(url.as_str());
        if !url_accepted {
            return Err(SendError::UrlFormatError);
        }
        let messages = self.message(&recipient, subject, html_content, text_content);
        let body = messages.to_json();
        proof {
            single_email_body(
                messages,
                self.sender(),
                recipient@,
                subject@,
                html_content@,
                text_content@,
            );
        }
        self.request(url_accepted, body)
    }
}

} // verus!
