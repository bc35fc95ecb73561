//! Subscriber names that have passed validation.

use crate::text::{all_white_space, chars_of, concat_str, result_chars, trim, trim_str};
use unicode_segmentation::UnicodeSegmentation;
use vstd::prelude::*;

verus! {

/// The number of extended grapheme clusters in the text `s`, as
/// `unicode_segmentation` splits it.
pub uninterp spec fn spec_grapheme_count(s: Seq<char>) -> nat;

/// Counts the extended grapheme clusters of `s` with
/// `UnicodeSegmentation::graphemes(s, true)`. The count depends on the text
/// alone and is named `spec_grapheme_count`. The iterator hands out
/// non-empty slices that together cover the text, so the count is at most
/// the number of characters and is zero exactly for the empty text; which
/// characters form one cluster is left to the name.
#[verifier::external_body]
fn grapheme_count(s: &str) -> (r: usize)
    ensures
        r as nat == spec_grapheme_count(s@),
        r <= s@.len(),
        (r == 0) == (s@.len() == 0),
{
    s.graphemes(true).count()
}

/// The longest name accepted, in grapheme clusters.
pub const MAX_NAME_GRAPHEMES: usize = 256;

/// The characters that a name may not contain: `/()"<>\{}[]`.
pub open spec fn is_forbidden(c: char) -> bool {
    ||| c == '/'
    ||| c == '('
    ||| c == ')'
    ||| c == '"'
    ||| c == '<'
    ||| c == '>'
    ||| c == '\\'
    ||| c == '{'
    ||| c == '}'
    ||| c == '['
    ||| c == ']'
}

/// Some character of `s` is forbidden in a name.
pub open spec fn has_forbidden(s: Seq<char>) -> bool {
    exists|i: int| 0 <= i < s.len() && #[trigger] is_forbidden(s[i])
}

/// The checks on a trimmed text `t` with `graphemes` clusters, in the
/// order the parser makes them.
pub open spec fn check_name(t: Seq<char>, graphemes: nat) -> Result<Seq<char>, Seq<char>> {
    if t.len() == 0 {
        Err("Empty name"@)
    } else if graphemes > MAX_NAME_GRAPHEMES {
        Err("Name too long: "@ + t)
    } else if has_forbidden(t) {
        Err("Invalid name: "@ + t)
    } else {
        Ok(t)
    }
}

/// What parsing `s` as a name gives: the checks applied to the trimmed text.
pub open spec fn parse_name(s: Seq<char>) -> Result<Seq<char>, Seq<char>> {
    check_name(trim(s), spec_grapheme_count(trim(s)))
}

/// A text that a `Name` can hold.
pub open spec fn valid_name(v: Seq<char>) -> bool {
    &&& trim(v) == v
    &&& v.len() > 0
    &&& spec_grapheme_count(v) <= MAX_NAME_GRAPHEMES
    &&& !has_forbidden(v)
}

/// Decides `is_forbidden`.
pub fn is_forbidden_char(c: char) -> (r: bool)
    ensures
        r == is_forbidden(c),
{
    c == '/' || c == '(' || c == ')' || c == '"' || c == '<' || c == '>' || c == '\\' || c
        == '{' || c == '}' || c == '[' || c == ']'
}

/// Decides `has_forbidden`.
pub fn contains_forbidden(s: &str) -> (r: bool)
    ensures
        r == has_forbidden(s@),
{
    let v = chars_of(s);
    let n = v.len();
    let mut i: usize = 0;
    while i < n
        invariant
            i <= n,
            n == v@.len(),
            v@ == s@,
            forall|j: int| 0 <= j < i ==> !#[trigger] is_forbidden(s@[j]),
        decreases n - i,
    {
        if is_forbidden_char(v[i]) {
            return true;
        }
        i = i + 1;
    }
    false
}

/// A validated subscriber name.
#[derive(PartialEq, Eq, PartialOrd, Ord, Debug, Hash)]
pub struct Name(String);

impl View for Name {
    type V = Seq<char>;

    closed spec fn view(&self) -> Seq<char> {
        self.0@
    }
}

impl Name {
    #[verifier::type_invariant]
    closed spec fn wf(self) -> bool {
        valid_name(self.0@)
    }

    /// Builds a `Name` from a text that is already trimmed, given its
    /// number of grapheme clusters.
    pub fn from_trimmed(text: &str, graphemes: usize) -> (r: Result<Name, String>)
        requires
            trim(text@) == text@,
            graphemes as nat == spec_grapheme_count(text@),
        ensures
            result_chars(r) == check_name(text@, graphemes as nat),
    {
        if text.is_empty() {
            Err("Empty name".to_owned())
        } else if graphemes > MAX_NAME_GRAPHEMES {
            Err(concat_str("Name too long: ", text))
        } else if contains_forbidden(text) {
            Err(concat_str("Invalid name: ", text))
        } else {
            Ok(Name(text.to_owned()))
        }
    }

    /// Parses a name: surrounding white space is dropped; the rest must be
    /// non-empty, at most `MAX_NAME_GRAPHEMES` grapheme clusters long, and
    /// free of the characters `/()"<>\{}[]`.
    pub fn parse(text: &str) -> (r: Result<Name, String>)
        ensures
            result_chars(r) == parse_name(text@),
            all_white_space(text@) ==> result_chars(r) == Err::<Seq<char>, Seq<char>>(
                "Empty name"@,
            ),
            trim(text@).len() > 0 && trim(text@).len() <= MAX_NAME_GRAPHEMES && !has_forbidden(
                trim(text@),
            ) ==> r is Ok,
    {
        let t = trim_str(text);
        proof {
            crate::text::lemma_trim_idempotent(text@);
            if all_white_space(text@) {
                crate::text::lemma_trim_start_ignores_prefix(text@, Seq::<char>::empty());
                assert(text@ + Seq::<char>::empty() =~= text@);
            }
        }
        if t.is_empty() {
            return Err("Empty name".to_owned());
        }
        let graphemes = grapheme_count(t);
        Name::from_trimmed(t, graphemes)
    }

    /// The name as text.
    pub fn as_ref(&self) -> (r: &str)
        ensures
            r@ == self@,
            valid_name(r@),
    {
        proof {
            use_type_invariant(self);
        }
        self.0.as_str()
    }
}

impl std::str::FromStr for Name {
    type Err = String;

    fn from_str(text: &str) -> (r: Result<Name, String>)
        ensures
            result_chars(r) == parse_name(text@),
    {
        Name::parse(text)
    }
}

impl AsRef<str> for Name {
    fn as_ref(&self) -> (r: &str)
        ensures
            r@ == self@,
            valid_name(r@),
    {
        Name::as_ref(self)
    }
}

/// A text that parsed as a name parses again to the same name.
pub proof fn lemma_name_parse_accepts_its_output(s: Seq<char>)
    ensures
        parse_name(s) matches Ok(v) ==> parse_name(v) == Ok::<Seq<char>, Seq<char>>(v),
{
    crate::text::lemma_trim_idempotent(s);
}

/// White space around a name does not change how it parses.
pub proof fn lemma_name_parse_ignores_padding(p: Seq<char>, s: Seq<char>, q: Seq<char>)
    requires
        all_white_space(p),
        all_white_space(q),
    ensures
        parse_name(p + s + q) == parse_name(s),
{
    crate::text::lemma_trim_ignores_padding(p, s, q);
}

/// A name with a forbidden character, after trimming, is refused.
pub proof fn lemma_name_forbidden_refused(s: Seq<char>)
    requires
        has_forbidden(trim(s)),
    ensures
        parse_name(s) is Err,
{
}

/// What parsing does with a name, said over its trimmed text `t`: an
/// empty `t` is refused as empty; one of more than 256 grapheme clusters
/// as too long; one holding any of the eleven characters
/// `/ ( ) " < > \ { } [ ]` as invalid; any other `t` is accepted as it
/// stands, whatever else it holds (apostrophes, accents, digits, ...).
pub proof fn lemma_name_parse_outcomes(s: Seq<char>)
    ensures
        ({
            let t = trim(s);
            let bad = |c: char|
                c == '/' || c == '(' || c == ')' || c == '"' || c == '<' || c == '>' || c == '\\'
                    || c == '{' || c == '}' || c == '[' || c == ']';
            &&& t.len() == 0 ==> parse_name(s) == Err::<Seq<char>, Seq<char>>(
                seq!['E', 'm', 'p', 't', 'y', ' ', 'n', 'a', 'm', 'e'],
            )
            &&& t.len() > 0 && spec_grapheme_count(t) > 256 ==> parse_name(s) == Err::<
                Seq<char>,
                Seq<char>,
            >(seq!['N', 'a', 'm', 'e', ' ', 't', 'o', 'o', ' ', 'l', 'o', 'n', 'g', ':', ' '] + t)
            &&& t.len() > 0 && spec_grapheme_count(t) <= 256 && (exists|i: int|
                0 <= i < t.len() && #[trigger] bad(t[i])) ==> parse_name(s) == Err::<
                Seq<char>,
                Seq<char>,
            >(seq!['I', 'n', 'v', 'a', 'l', 'i', 'd', ' ', 'n', 'a', 'm', 'e', ':', ' '] + t)
            &&& t.len() > 0 && spec_grapheme_count(t) <= 256 && (forall|i: int|
                0 <= i < t.len() ==> !#[trigger] bad(t[i])) ==> parse_name(s) == Ok::<
                Seq<char>,
                Seq<char>,
            >(t)
        }),
{
    reveal_strlit("Empty name");
    reveal_strlit("Name too long: ");
    reveal_strlit("Invalid name: ");
    let t = trim(s);
    let bad = |c: char|
        c == '/' || c == '(' || c == ')' || c == '"' || c == '<' || c == '>' || c == '\\' || c
            == '{' || c == '}' || c == '[' || c == ']';
    assert forall|c: char| is_forbidden(c) == bad(c) by {}
    assert("Empty name"@ =~= seq!['E', 'm', 'p', 't', 'y', ' ', 'n', 'a', 'm', 'e']);
    assert("Name too long: "@ =~= seq![
        'N',
        'a',
        'm',
        'e',
        ' ',
        't',
        'o',
        'o',
        ' ',
        'l',
        'o',
        'n',
        'g',
        ':',
        ' ',
    ]);
    assert("Invalid name: "@ =~= seq![
        'I',
        'n',
        'v',
        'a',
        'l',
        'i',
        'd',
        ' ',
        'n',
        'a',
        'm',
        'e',
        ':',
        ' ',
    ]);
    if t.len() > 0 && spec_grapheme_count(t) <= 256 {
        if exists|i: int| 0 <= i < t.len() && #[trigger] bad(t[i]) {
            let i = choose|i: int| 0 <= i < t.len() && #[trigger] bad(t[i]);
            assert(is_forbidden(t[i]));
        } else {
            assert forall|i: int| 0 <= i < t.len() implies !#[trigger] is_forbidden(t[i]) by {
                assert(!bad(t[i]));
            }
        }
    }
}

} // verus!
