//! The decisions behind the subscription endpoint: turning a submitted
//! form into a subscriber, and choosing the response status.

use crate::email::{parse_email, Email};
use crate::name::{parse_name, Name};
use crate::subscriber::Subscriber;
use vstd::prelude::*;

verus! {

/// The fields of a submitted subscription form.
pub struct FormData {
    email: String,
    name: String,
}

impl View for FormData {
    /// The address and the name as submitted.
    type V = (Seq<char>, Seq<char>);

    closed spec fn view(&self) -> (Seq<char>, Seq<char>) {
        (self.email@, self.name@)
    }
}

impl FormData {
    /// A form with the given address and name fields.
    pub fn new(email: String, name: String) -> (f: FormData)
        ensures
            f@ == (email@, name@),
    {
        FormData { email, name }
    }

    /// The address field.
    pub fn email(&self) -> (r: &str)
        ensures
            r@ == self@.0,
    {
        self.email.as_str()
    }

    /// The name field.
    pub fn name(&self) -> (r: &str)
        ensures
            r@ == self@.1,
    {
        self.name.as_str()
    }
}

/// What a form with address `email` and name `name` gives: the parsed
/// address and name, or the first error met (the address is checked first).
pub open spec fn parse_subscriber(email: Seq<char>, name: Seq<char>) -> Result<
    (Seq<char>, Seq<char>),
    Seq<char>,
> {
    match parse_email(email) {
        Err(e) => Err(e),
        Ok(em) => match parse_name(name) {
            Err(e) => Err(e),
            Ok(nm) => Ok((em, nm)),
        },
    }
}

/// The address and name of a parsed subscriber, or the error text.
pub open spec fn subscriber_result(r: Result<Subscriber, String>) -> Result<
    (Seq<char>, Seq<char>),
    Seq<char>,
> {
    match r {
        Ok(s) => Ok((s.email@, s.name@)),
        Err(e) => Err(e@),
    }
}

impl Subscriber {
    /// Parses the address, then the name, of a submitted form.
    pub fn from_form(form: FormData) -> (r: Result<Subscriber, String>)
        ensures
            subscriber_result(r) == parse_subscriber(form@.0, form@.1),
    {
        let email = match Email::parse(form.email.as_str()) {
            Ok(e) => e,
            Err(e) => return Err(e),
        };
        let name = match Name::parse(form.name.as_str()) {
            Ok(n) => n,
            Err(e) => return Err(e),
        };
        Ok(Subscriber::new(email, name))
    }
}

impl TryFrom<FormData> for Subscriber {
    type Error = String;

    fn try_from(form: FormData) -> (r: Result<Subscriber, String>)
        ensures
            subscriber_result(r) == parse_subscriber(form@.0, form@.1),
    {
        Subscriber::from_form(form)
    }
}

/// The conversion promises nothing beyond `Subscriber::from_form`, whose
/// contract states the result.
impl vstd::std_specs::convert::TryFromSpecImpl<FormData> for Subscriber {
    open spec fn obeys_try_from_spec() -> bool {
        false
    }

    open spec fn try_from_spec(form: FormData) -> Result<Subscriber, String> {
        arbitrary()
    }
}

/// The HTTP statuses that the service answers with.
#[derive(PartialEq, Eq, Structural, Clone, Copy, Debug)]
pub enum Status {
    Success,
    BadRequest,
    InternalServerError,
}

/// The numeric code of a status.
pub open spec fn status_code(s: Status) -> u16 {
    match s {
        Status::Success => 200,
        Status::BadRequest => 400,
        Status::InternalServerError => 500,
    }
}

impl Status {
    /// The numeric HTTP code.
    pub fn code(&self) -> (c: u16)
        ensures
            c == status_code(*self),
    {
        match self {
            Status::Success => 200,
            Status::BadRequest => 400,
            Status::InternalServerError => 500,
        }
    }
}

/// What the endpoint does with a submitted form.
pub enum SubscribeAction {
    /// Answer at once with this status.
    Respond(Status),
    /// Store this subscriber, then answer by `insert_outcome`.
    Insert(Subscriber),
}

/// The first step of a subscription: a form that does not parse is
/// answered with Bad Request; one that parses is to be stored.
pub fn subscribe(form: FormData) -> (a: SubscribeAction)
    ensures
        match a {
            SubscribeAction::Insert(s) => parse_subscriber(form@.0, form@.1) == Ok::<
                (Seq<char>, Seq<char>),
                Seq<char>,
            >((s.email@, s.name@)),
            SubscribeAction::Respond(st) => st == Status::BadRequest && parse_subscriber(
                form@.0,
                form@.1,
            ) is Err,
        },
{
    match Subscriber::from_form(form) {
        Ok(s) => SubscribeAction::Insert(s),
        Err(_) => SubscribeAction::Respond(Status::BadRequest),
    }
}

/// The answer once the store was tried: OK if it stored the subscriber,
/// Internal Server Error if it failed.
pub fn insert_outcome(inserted: bool) -> (s: Status)
    ensures
        s == (if inserted {
            Status::Success
        } else {
            Status::InternalServerError
        }),
{
    if inserted {
        Status::Success
    } else {
        Status::InternalServerError
    }
}

/// A form is turned into a subscriber exactly when both of its fields
/// parse on their own, and then into the two parsed values; a refused
/// form carries the address's error if the address is refused, else the
/// name's error.
pub proof fn lemma_form_follows_field_parsers(email: Seq<char>, name: Seq<char>)
    ensures
        (parse_email(email) is Ok && parse_name(name) is Ok) ==> parse_subscriber(email, name)
            == Ok::<(Seq<char>, Seq<char>), Seq<char>>(
            (parse_email(email)->Ok_0, parse_name(name)->Ok_0),
        ),
        (parse_subscriber(email, name) is Err) <==> (parse_email(email) is Err || parse_name(
            name,
        ) is Err),
        parse_email(email) matches Err(m) ==> parse_subscriber(email, name) == Err::<
            (Seq<char>, Seq<char>),
            Seq<char>,
        >(m),
        parse_email(email) is Ok ==> (parse_name(name) matches Err(m) ==> parse_subscriber(
            email,
            name,
        ) == Err::<(Seq<char>, Seq<char>), Seq<char>>(m)),
{
}

} // verus!
