//! E-mail addresses that have passed validation.

use crate::text::{all_white_space, concat_str, result_chars, trim, trim_str};
use vstd::prelude::*;

verus! {

/// Whether `validator::validate_email` accepts the text `s`.
pub uninterp spec fn spec_valid_email(s: Seq<char>) -> bool;

/// Calls `validator::validate_email`. Its result depends on the text alone
/// and is named `spec_valid_email`; the function answers `false` at once
/// for an empty text and for a text without `@`, which the second clause
/// states. What else it checks (lengths of the two parts, the user part
/// against a regular expression, the domain part against a regular
/// expression, an IP literal or its IDNA form) is left to the name.
#[verifier::external_body]
fn validate_email(s: &str) -> (r: bool)
    ensures
        r == spec_valid_email(s@),
        r ==> s@.len() > 0 && s@.contains('@'),
{
    validator::validate_email(s)
}

/// A text that an `Email` can hold: already trimmed, and accepted by the
/// validator.
pub open spec fn valid_email(v: Seq<char>) -> bool {
    &&& trim(v) == v
    &&& spec_valid_email(v)
}

/// What parsing `s` as an e-mail address gives: the trimmed text if the
/// validator accepts it, else the message `Invalid email: ` and the
/// trimmed text.
pub open spec fn parse_email(s: Seq<char>) -> Result<Seq<char>, Seq<char>> {
    let t = trim(s);
    if spec_valid_email(t) {
        Ok(t)
    } else {
        Err("Invalid email: "@ + t)
    }
}

/// A validated e-mail address.
#[derive(PartialEq, Eq, PartialOrd, Ord, Debug, Hash)]
pub struct Email(String);

impl View for Email {
    type V = Seq<char>;

    closed spec fn view(&self) -> Seq<char> {
        self.0@
    }
}

impl Email {
    #[verifier::type_invariant]
    closed spec fn wf(self) -> bool {
        valid_email(self.0@)
    }

    /// Builds an `Email` from a text that is already trimmed, given the
    /// validator's verdict on it.
    pub fn from_trimmed(text: &str, valid: bool) -> (r: Result<Email, String>)
        requires
            trim(text@) == text@,
            valid == spec_valid_email(text@),
        ensures
            result_chars(r) == parse_email(text@),
    {
        if valid {
            Ok(Email(text.to_owned()))
        } else {
            Err(concat_str("Invalid email: ", text))
        }
    }

    /// Parses an e-mail address: surrounding white space is dropped and
    /// the rest must pass the validator.
    pub fn parse(text: &str) -> (r: Result<Email, String>)
        ensures
            result_chars(r) == parse_email(text@),
            !trim(text@).contains('@') ==> r is Err,
            all_white_space(text@) ==> r is Err,
    {
        let t = trim_str(text);
        proof {
            crate::text::lemma_trim_idempotent(text@);
            if all_white_space(text@) {
                crate::text::lemma_trim_start_ignores_prefix(text@, Seq::<char>::empty());
                assert(text@ + Seq::<char>::empty() =~= text@);
            }
        }
        let valid = validate_email(t);
        Email::from_trimmed(t, valid)
    }

    /// The address as text.
    pub fn as_ref(&self) -> (r: &str)
        ensures
            r@ == self@,
            valid_email(r@),
    {
        proof {
            use_type_invariant(self);
        }
        self.0.as_str()
    }
}

impl std::str::FromStr for Email {
    type Err = String;

    fn from_str(text: &str) -> (r: Result<Email, String>)
        ensures
            result_chars(r) == parse_email(text@),
    {
        Email::parse(text)
    }
}

impl AsRef<str> for Email {
    fn as_ref(&self) -> (r: &str)
        ensures
            r@ == self@,
            valid_email(r@),
    {
        Email::as_ref(self)
    }
}

/// A text that parsed as an address parses again to the same address.
pub proof fn lemma_email_parse_accepts_its_output(s: Seq<char>)
    ensures
        parse_email(s) matches Ok(v) ==> parse_email(v) == Ok::<Seq<char>, Seq<char>>(v),
{
    crate::text::lemma_trim_idempotent(s);
}

/// White space around an address does not change how it parses.
pub proof fn lemma_email_parse_ignores_padding(p: Seq<char>, s: Seq<char>, q: Seq<char>)
    requires
        all_white_space(p),
        all_white_space(q),
    ensures
        parse_email(p + s + q) == parse_email(s),
{
    crate::text::lemma_trim_ignores_padding(p, s, q);
}

/// The validator's verdict on the trimmed text alone decides an address:
/// accepted, the address is exactly the trimmed text; refused, the error
/// is `Invalid email: ` followed by the trimmed text. No other condition
/// (on length or characters) enters.
pub proof fn lemma_email_verdict_decides(s: Seq<char>)
    ensures
        (parse_email(s) is Ok) <==> spec_valid_email(trim(s)),
        spec_valid_email(trim(s)) ==> parse_email(s) == Ok::<Seq<char>, Seq<char>>(trim(s)),
        !spec_valid_email(trim(s)) ==> parse_email(s) == Err::<Seq<char>, Seq<char>>(
            seq!['I', 'n', 'v', 'a', 'l', 'i', 'd', ' ', 'e', 'm', 'a', 'i', 'l', ':', ' '] + trim(
                s,
            ),
        ),
{
    reveal_strlit("Invalid email: ");
    assert("Invalid email: "@ =~= seq![
        'I',
        'n',
        'v',
        'a',
        'l',
        'i',
        'd',
        ' ',
        'e',
        'm',
        'a',
        'i',
        'l',
        ':',
        ' ',
    ]);
}

} // verus!
