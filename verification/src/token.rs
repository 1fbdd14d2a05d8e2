//! The composite credential: an identifier and a secret around a fixed
//! delimiter.

use vstd::prelude::*;
use vstd::string::StringExecFns;
use vstd::string::StrSliceExecFns;
use crate::text::characters;

verus! {

/// The delimiter between the identifier and the secret: the URL-encoded form
/// of two colons.
pub open spec fn delimiter() -> Seq<char> {
    seq!['%', '3', 'A', '%', '3', 'A']
}

/// The delimiter as text.
pub fn delimiter_text() -> (text: &'static str)
    ensures
        text@ == delimiter(),
{
    let text = "%3A%3A";
    proof {
        reveal_strlit("%3A%3A");
        assert(text@ =~= delimiter());
    }
    text
}

/// The credential that holds `identifier` and `secret`.
pub open spec fn join_spec(identifier: Seq<char>, secret: Seq<char>) -> Seq<char> {
    identifier + delimiter() + secret
}

/// Joins an identifier and a secret into one credential.
pub fn join(identifier: &str, secret: &str) -> (credential: String)
    ensures
        credential@ == join_spec(identifier@, secret@),
{
    let mut credential = String::from_str(identifier);
    credential.append(delimiter_text());
    credential.append(secret);
    credential
}

/// Whether the delimiter stands in `text` at position `at`.
pub open spec fn occurs_at(text: Seq<char>, at: int) -> bool {
    &&& 0 <= at
    &&& at + delimiter().len() <= text.len()
    &&& text.subrange(at, at + delimiter().len()) == delimiter()
}

/// Whether `at` is the first position of `text` at which the delimiter stands.
pub open spec fn first_occurrence(text: Seq<char>, at: int) -> bool {
    &&& occurs_at(text, at)
    &&& forall|other: int| occurs_at(text, other) ==> at <= other
}

/// Whether the delimiter stands in `text` at `from` or later.
pub open spec fn occurs_from(text: Seq<char>, from: int) -> bool {
    exists|at: int| from <= at && occurs_at(text, at)
}

/// Why a text is no credential.
#[derive(Clone, Copy, Debug, PartialEq, Eq, Structural)]
pub enum MalformedCredential {
    /// The delimiter does not occur: there is no secret.
    NoDelimiter,
    /// The delimiter occurs again after the first one: it is part of the
    /// data.
    SeveralDelimiters,
    /// Nothing stands before the delimiter.
    EmptyIdentifier,
    /// Nothing stands after the delimiter.
    EmptySecret,
}

impl MalformedCredential {
    /// The text that is shown for this reason.
    pub open spec fn text(self) -> Seq<char> {
        match self {
            MalformedCredential::NoDelimiter => "credential without a secret"@,
            MalformedCredential::SeveralDelimiters => "credential with the delimiter in its data"@,
            MalformedCredential::EmptyIdentifier => "credential with an empty identifier"@,
            MalformedCredential::EmptySecret => "credential with an empty secret"@,
        }
    }

    /// The text that is shown for this reason.
    pub fn describe(self) -> (text: &'static str)
        ensures
            text@ == self.text(),
    {
        match self {
            MalformedCredential::NoDelimiter => "credential without a secret",
            MalformedCredential::SeveralDelimiters => "credential with the delimiter in its data",
            MalformedCredential::EmptyIdentifier => "credential with an empty identifier",
            MalformedCredential::EmptySecret => "credential with an empty secret",
        }
    }
}

/// The identifier and the secret of a credential, or the reason why `text`
/// is none.
///
/// The text is cut at the delimiter from left to right, each cut beginning
/// where the one before it ended. A credential is a text that this cuts into
/// exactly two parts, neither of them empty: the first delimiter has
/// something before it and something after it, and no delimiter begins
/// after its end.
pub open spec fn split_spec(text: Seq<char>) -> Result<(Seq<char>, Seq<char>), MalformedCredential> {
    if !occurs_from(text, 0) {
        Err(MalformedCredential::NoDelimiter)
    } else {
        let first = choose|at: int| first_occurrence(text, at);
        let rest = first + delimiter().len();
        if occurs_from(text, rest) {
            Err(MalformedCredential::SeveralDelimiters)
        } else if first == 0 {
            Err(MalformedCredential::EmptyIdentifier)
        } else if rest == text.len() {
            Err(MalformedCredential::EmptySecret)
        } else {
            Ok((text.take(first), text.skip(rest)))
        }
    }
}

/// Whether a result of `split` is the one that `split_spec` gives.
pub open spec fn split_result_is(
    result: Result<(String, String), MalformedCredential>,
    expected: Result<(Seq<char>, Seq<char>), MalformedCredential>,
) -> bool {
    match (result, expected) {
        (Ok(parts), Ok(views)) => parts.0@ == views.0 && parts.1@ == views.1,
        (Err(reason), Err(expected_reason)) => reason == expected_reason,
        _ => false,
    }
}

fn delimiter_at(chars: &Vec<char>, at: usize) -> (found: bool)
    requires
        at + 6 <= chars.len(),
    ensures
        found == occurs_at(chars@, at as int),
{
    let found = chars[at] == '%' && chars[at + 1] == '3' && chars[at + 2] == 'A'
        && chars[at + 3] == '%' && chars[at + 4] == '3' && chars[at + 5] == 'A';
    proof {
        let part = chars@.subrange(at as int, at + 6);
        if found {
            assert(part =~= delimiter());
        } else {
            assert(part[0] == chars@[at as int]);
            assert(part[1] == chars@[at + 1]);
            assert(part[2] == chars@[at + 2]);
            assert(part[3] == chars@[at + 3]);
            assert(part[4] == chars@[at + 4]);
            assert(part[5] == chars@[at + 5]);
        }
    }
    found
}

/// The first position at or after `from` at which the delimiter stands in
/// `chars`, if there is one.
fn find_delimiter(chars: &Vec<char>, from: usize) -> (found: Option<usize>)
    requires
        from <= chars.len(),
    ensures
        match found {
            Some(at) => from <= at && occurs_at(chars@, at as int) && forall|other: int|
                from <= other < at ==> !occurs_at(chars@, other),
            None => !occurs_from(chars@, from as int),
        },
{
    let n = chars.len();
    let mut at: usize = from;
    while n - at >= 6
        invariant
            n == chars.len(),
            from <= at <= n,
            forall|other: int| from <= other < at ==> !occurs_at(chars@, other),
        decreases n - at,
    {
        if delimiter_at(chars, at) {
            return Some(at);
        }
        at = at + 1;
    }
    None
}

/// Splits a credential into its identifier and its secret.
///
/// The text is cut at the delimiter from left to right. It is a credential
/// when that gives exactly two parts and neither is empty. Any other text is
/// refused, with the reason.
pub fn split(credential: &str) -> (result: Result<(String, String), MalformedCredential>)
    ensures
        split_result_is(result, split_spec(credential@)),
{
    let chars = characters(credential);
    let n = chars.len();
    let first = match find_delimiter(&chars, 0) {
        Some(at) => at,
        None => {
            return Err(MalformedCredential::NoDelimiter);
        },
    };
    proof {
        assert(first_occurrence(credential@, first as int));
        lemma_first_occurrence_is_chosen(credential@, first as int);
    }
    let rest = first + 6;
    if find_delimiter(&chars, rest).is_some() {
        Err(MalformedCredential::SeveralDelimiters)
    } else if first == 0 {
        Err(MalformedCredential::EmptyIdentifier)
    } else if rest == n {
        Err(MalformedCredential::EmptySecret)
    } else {
        let identifier = String::from_str(credential.substring_char(0, first));
        let secret = String::from_str(credential.substring_char(rest, n));
        proof {
            assert(identifier@ =~= credential@.take(first as int));
            assert(secret@ =~= credential@.skip(rest as int));
        }
        Ok((identifier, secret))
    }
}

proof fn lemma_first_occurrence_is_chosen(text: Seq<char>, at: int)
    requires
        first_occurrence(text, at),
    ensures
        (choose|other: int| first_occurrence(text, other)) == at,
        occurs_from(text, 0),
{
    let chosen = choose|other: int| first_occurrence(text, other);
    assert(first_occurrence(text, chosen));
    assert(occurs_at(text, chosen));
    assert(occurs_at(text, at));
}

proof fn lemma_first_occurrence_exists(text: Seq<char>, at: int, below: int)
    requires
        occurs_at(text, at),
        0 <= below <= at,
        forall|other: int| 0 <= other < below ==> !occurs_at(text, other),
    ensures
        exists|first: int| first_occurrence(text, first),
    decreases at - below,
{
    if occurs_at(text, below) {
        assert(first_occurrence(text, below));
    } else {
        lemma_first_occurrence_exists(text, at, below + 1);
    }
}

/// A joined credential holds the delimiter right after the identifier.
pub proof fn lemma_join_holds_delimiter(identifier: Seq<char>, secret: Seq<char>)
    ensures
        occurs_at(join_spec(identifier, secret), identifier.len() as int),
        join_spec(identifier, secret).take(identifier.len() as int) == identifier,
        join_spec(identifier, secret).skip((identifier.len() + delimiter().len()) as int) == secret,
{
    let joined = join_spec(identifier, secret);
    let at = identifier.len() as int;
    assert(joined.subrange(at, at + delimiter().len()) =~= delimiter());
    assert(joined.take(at) =~= identifier);
    assert(joined.skip(at + delimiter().len()) =~= secret);
}

/// Where the delimiter stands in a joined credential after the one between
/// the parts, it stands in the secret.
pub proof fn lemma_later_delimiter_is_in_secret(
    identifier: Seq<char>,
    secret: Seq<char>,
    at: int,
)
    requires
        identifier.len() + delimiter().len() <= at,
        occurs_at(join_spec(identifier, secret), at),
    ensures
        occurs_at(secret, at - identifier.len() - delimiter().len()),
{
    let joined = join_spec(identifier, secret);
    let shift = identifier.len() + delimiter().len();
    assert(secret.subrange(at - shift, at - shift + delimiter().len()) =~= joined.subrange(
        at,
        at + delimiter().len(),
    ));
}

/// Law: splitting the credential joined from a non-empty identifier and a
/// non-empty secret gives back the two, provided that the secret holds no
/// delimiter and that none begins in the joined text before the one between
/// the parts.
pub proof fn lemma_split_join(identifier: Seq<char>, secret: Seq<char>)
    requires
        identifier.len() > 0,
        secret.len() > 0,
        forall|at: int| !occurs_at(secret, at),
        forall|at: int|
            occurs_at(join_spec(identifier, secret), at) ==> identifier.len() <= at,
    ensures
        split_spec(join_spec(identifier, secret)) == Ok::<
            (Seq<char>, Seq<char>),
            MalformedCredential,
        >((identifier, secret)),
{
    let joined = join_spec(identifier, secret);
    let at = identifier.len() as int;
    lemma_join_holds_delimiter(identifier, secret);
    assert(first_occurrence(joined, at));
    lemma_first_occurrence_is_chosen(joined, at);
    assert forall|later: int| at + delimiter().len() <= later implies !occurs_at(
        joined,
        later,
    ) by {
        if occurs_at(joined, later) {
            lemma_later_delimiter_is_in_secret(identifier, secret, later);
        }
    }
}

/// Law: a text is split only if it holds the delimiter and every place at
/// which it holds it overlaps the first. A text without the delimiter, and
/// a text that holds it at two places that do not overlap, are both
/// refused.
pub proof fn lemma_split_needs_one_delimiter(text: Seq<char>)
    ensures
        split_spec(text) is Ok ==> exists|first: int|
            first_occurrence(text, first) && forall|at: int|
                occurs_at(text, at) ==> at < first + delimiter().len(),
        (forall|at: int| !occurs_at(text, at)) ==> split_spec(text) == Err::<
            (Seq<char>, Seq<char>),
            MalformedCredential,
        >(MalformedCredential::NoDelimiter),
        (exists|one: int, other: int|
            one + delimiter().len() <= other && occurs_at(text, one) && occurs_at(text, other))
            ==> split_spec(text) == Err::<(Seq<char>, Seq<char>), MalformedCredential>(
            MalformedCredential::SeveralDelimiters,
        ),
{
    if occurs_from(text, 0) {
        let any = choose|at: int| 0 <= at && occurs_at(text, at);
        lemma_first_occurrence_exists(text, any, 0);
        let first = choose|at: int| first_occurrence(text, at);
        assert(first_occurrence(text, first));
        if exists|one: int, other: int|
            one + delimiter().len() <= other && occurs_at(text, one) && occurs_at(text, other) {
            let (one, other) = choose|one: int, other: int|
                one + delimiter().len() <= other && occurs_at(text, one) && occurs_at(
                    text,
                    other,
                );
            assert(first + delimiter().len() <= other);
            assert(occurs_from(text, first + delimiter().len()));
        }
        if split_spec(text) is Ok {
            assert(!occurs_from(text, first + delimiter().len()));
            assert forall|at: int| occurs_at(text, at) implies at < first + delimiter().len() by {
                if first + delimiter().len() <= at {
                    assert(occurs_from(text, first + delimiter().len()));
                }
            }
        }
    }
}

/// Law: the parts that a split gives are both non-empty, and joined again
/// they are the text that was split.
pub proof fn lemma_join_split(text: Seq<char>)
    requires
        split_spec(text) is Ok,
    ensures
        split_spec(text)->Ok_0.0.len() > 0,
        split_spec(text)->Ok_0.1.len() > 0,
        join_spec(split_spec(text)->Ok_0.0, split_spec(text)->Ok_0.1) == text,
{
    let any = choose|at: int| 0 <= at && occurs_at(text, at);
    lemma_first_occurrence_exists(text, any, 0);
    let first = choose|at: int| first_occurrence(text, at);
    assert(first_occurrence(text, first));
    let parts = split_spec(text)->Ok_0;
    assert(parts.0 == text.take(first));
    assert(parts.1 == text.skip(first + delimiter().len()));
    assert(text.subrange(first, first + delimiter().len()) == delimiter());
    assert(join_spec(parts.0, parts.1) =~= text);
}

/// Law: a text splits into an identifier and a secret exactly when both are
/// non-empty, the text is the two joined, and every place at which the text
/// holds the delimiter overlaps the one between them.
pub proof fn lemma_split_characterised(text: Seq<char>, identifier: Seq<char>, secret: Seq<char>)
    ensures
        split_spec(text) == Ok::<(Seq<char>, Seq<char>), MalformedCredential>(
            (identifier, secret),
        ) <==> {
            &&& identifier.len() > 0
            &&& secret.len() > 0
            &&& text == join_spec(identifier, secret)
            &&& forall|at: int|
                occurs_at(text, at) ==> identifier.len() <= at < identifier.len()
                    + delimiter().len()
        },
{
    if split_spec(text) == Ok::<(Seq<char>, Seq<char>), MalformedCredential>(
        (identifier, secret),
    ) {
        lemma_join_split(text);
        lemma_split_needs_one_delimiter(text);
        let first = choose|at: int| first_occurrence(text, at);
        let any = choose|at: int| 0 <= at && occurs_at(text, at);
        lemma_first_occurrence_exists(text, any, 0);
        assert(first_occurrence(text, first));
        assert(identifier == text.take(first));
        assert(identifier.len() == first);
        assert(!occurs_from(text, first + delimiter().len()));
        assert forall|at: int| occurs_at(text, at) implies identifier.len() <= at
            < identifier.len() + delimiter().len() by {
            if first + delimiter().len() <= at {
                assert(occurs_from(text, first + delimiter().len()));
            }
        }
    }
    if identifier.len() > 0 && secret.len() > 0 && text == join_spec(identifier, secret)
        && forall|at: int|
        occurs_at(text, at) ==> identifier.len() <= at < identifier.len() + delimiter().len() {
        let at = identifier.len() as int;
        lemma_join_holds_delimiter(identifier, secret);
        assert(first_occurrence(text, at));
        lemma_first_occurrence_is_chosen(text, at);
        assert(!occurs_from(text, at + delimiter().len()));
    }
}

} // verus!
