//! The e-mail delivery client: what it is configured with, and the
//! request it makes to deliver one message.

use crate::email::Email;
use crate::text::concat_str;
use std::time::Duration;
use vstd::prelude::*;

verus! {

/// A client of the e-mail delivery API.
pub struct EmailClient {
    sender: Email,
    base_url: String,
    auth_token: String,
    timeout: Duration,
}

/// The fields of one message, as the delivery API names them
/// (`From`, `To`, `Subject`, `HtmlBody`, `TextBody`).
pub struct EmailBody {
    pub from: String,
    pub to: String,
    pub subject: String,
    pub html_body: String,
    pub text_body: String,
}

/// A delivery request: a POST of `body` as JSON to `url`, with `auth_token`
/// in the server-token header.
pub struct EmailRequest {
    pub url: String,
    pub auth_token: String,
    pub body: EmailBody,
}

impl EmailClient {
    /// The sender address.
    pub closed spec fn sender_view(&self) -> Seq<char> {
        self.sender@
    }

    /// The base URL of the API.
    pub closed spec fn base_url_view(&self) -> Seq<char> {
        self.base_url@
    }

    /// The server token.
    pub closed spec fn auth_token_view(&self) -> Seq<char> {
        self.auth_token@
    }

    /// How long a request may take.
    pub closed spec fn timeout_view(&self) -> Duration {
        self.timeout
    }

    /// A client that sends as `sender` through the API at `base_url`.
    pub fn new(base_url: String, sender: Email, auth_token: String, timeout: Duration) -> (c: Self)
        ensures
            c.base_url_view() == base_url@,
            c.sender_view() == sender@,
            c.auth_token_view() == auth_token@,
            c.timeout_view() == timeout,
    {
        EmailClient { sender, base_url, auth_token, timeout }
    }

    /// How long a request may take.
    pub fn timeout(&self) -> (t: Duration)
        ensures
            t == self.timeout_view(),
    {
        self.timeout
    }

    /// The request that delivers a message to `recipient`: posted to the
    /// `/email` path under the base URL, from the client's sender.
    pub fn request(&self, recipient: Email, subject: &str, html_body: &str, text_body: &str) -> (r:
        EmailRequest)
        ensures
            r.url@ == self.base_url_view() + "/email"@,
            r.auth_token@ == self.auth_token_view(),
            r.body.from@ == self.sender_view(),
            r.body.to@ == recipient@,
            r.body.subject@ == subject@,
            r.body.html_body@ == html_body@,
            r.body.text_body@ == text_body@,
    {
        EmailRequest {
            url: concat_str(self.base_url.as_str(), "/email"),
            auth_token: self.auth_token.clone(),
            body: EmailBody {
                from: self.sender.as_ref().to_owned(),
                to: recipient.as_ref().to_owned(),
                subject: subject.to_owned(),
                html_body: html_body.to_owned(),
                text_body: text_body.to_owned(),
            },
        }
    }
}

} // verus!
