//! Subscriber email addresses.

use email_address::EmailAddress;
use vstd::prelude::*;
use vstd::string::StringExecFns;

verus! {

/// Whether the email grammar accepts `s` as an address.
pub uninterp spec fn email_grammar_accepts(s: Seq<char>) -> bool;

/// `EmailAddress::is_valid`: whether the text parses as an address under
/// the default options. The answer is a function of the text alone, and
/// this crate only names it.
#[verifier::external_body]
pub(crate) fn grammar_accepts(s: &str) -> (b: bool)
    ensures
        b == email_grammar_accepts(s@),
{
    EmailAddress::is_valid(s)
}

/// `i` is the position of the last `@` of `s`: the local part stands before
/// it and the domain after it.
pub open spec fn splits_at(s: Seq<char>, i: int) -> bool {
    &&& 0 <= i < s.len()
    &&& s[i] == '@'
    &&& forall|j: int| i < j < s.len() ==> s[j] != '@'
}

/// `s` has a dot somewhere after position `i`.
pub open spec fn dot_after(s: Seq<char>, i: int) -> bool {
    exists|j: int| i < j < s.len() && s[j] == '.'
}

/// The text has an `@`, something before the last one, and a dot in the
/// domain after it.
pub open spec fn has_mailbox_shape(s: Seq<char>) -> bool {
    exists|i: int| #[trigger] splits_at(s, i) && 0 < i && dot_after(s, i)
}

/// The rule for addresses, given the grammar's answer on `s`.
pub open spec fn email_rule(s: Seq<char>, grammar_ok: bool) -> bool {
    grammar_ok && has_mailbox_shape(s)
}

/// The texts that are subscriber email addresses.
pub open spec fn is_valid_email(s: Seq<char>) -> bool {
    email_rule(s, email_grammar_accepts(s))
}

/// What a rejection of `s` says.
pub open spec fn invalid_email_message(s: Seq<char>) -> Seq<char> {
    s + " is not a valid email address."@
}

fn mailbox_shape(s: &str) -> (b: bool)
    ensures
        b == has_mailbox_shape(s@),
{
    let mut seen_at = false;
    let mut local_present = false;
    let mut domain_dot = false;
    let mut first = true;
    let ghost mut at: int = -1;
    for c in it: s.chars()
        invariant
            it.seq() == s@,
            first == (it.index() == 0),
            seen_at == (at >= 0),
            -1 <= at,
            at < it.index() || at == -1,
            at >= 0 ==> s@[at] == '@',
            forall|j: int| at < j < it.index() ==> s@[j] != '@',
            at >= 0 ==> local_present == (at > 0),
            at >= 0 ==> domain_dot == (exists|j: int| at < j < it.index() && s@[j] == '.'),
    {
        if c == '@' {
            seen_at = true;
            local_present = !first;
            domain_dot = false;
            proof {
                at = it.index();
            }
        } else if c == '.' && seen_at {
            assert(s@[it.index()] == '.');
            domain_dot = true;
        }
        first = false;
    }
    let shaped = seen_at && local_present && domain_dot;
    proof {
        if shaped {
            assert(splits_at(s@, at));
            assert(dot_after(s@, at));
        }
        if has_mailbox_shape(s@) {
            let i = choose|i: int| #[trigger] splits_at(s@, i) && 0 < i && dot_after(s@, i);
            assert(i == at);
        }
    }
    shaped
}

/// Decides the rule for addresses on a text that the grammar has judged.
pub fn check_email(s: &str, grammar_ok: bool) -> (ok: bool)
    ensures
        ok == email_rule(s@, grammar_ok),
{
    grammar_ok && mailbox_shape(s)
}

/// A validated subscriber email address.
#[derive(Debug)]
pub struct SubscriberEmail(String);

impl View for SubscriberEmail {
    type V = Seq<char>;

    closed spec fn view(&self) -> Seq<char> {
        self.0@
    }
}

impl Clone for SubscriberEmail {
    fn clone(&self) -> (copy: Self)
        ensures
            copy@ == self@,
    {
        proof {
            use_type_invariant(self);
        }
        SubscriberEmail(self.0.clone())
    }
}

impl SubscriberEmail {
    #[verifier::type_invariant]
    spec fn well_formed(&self) -> bool {
        is_valid_email(self.0@)
    }

    /// Accepts exactly the texts that the email grammar accepts and that
    /// have a local part, an `@` and a dotted domain. The text is kept as
    /// given; a rejection names the text.
    pub fn parse(s: String) -> (r: Result<SubscriberEmail, String>)
        ensures
            match r {
                Ok(email) => is_valid_email(s@) && email@ == s@,
                Err(message) => !is_valid_email(s@) && message@ == invalid_email_message(s@),
            },
    {
        let grammar_ok = grammar_accepts(s.as_str());
        if check_email(s.as_str(), grammar_ok) {
            Ok(SubscriberEmail(s))
        } else {
            Err(s.concat(" is not a valid email address."))
        }
    }

    /// The address as text.
    pub fn as_ref(&self) -> (s: &str)
        ensures
            s@ == self@,
            is_valid_email(s@),
    {
        proof {
            use_type_invariant(self);
        }
        self.0.as_str()
    }

    /// The address as an owned text.
    pub fn to_string(&self) -> (s: String)
        ensures
            s@ == self@,
    {
        self.0.clone()
    }
}

/// A text has at most one position that splits it.
pub proof fn lemma_split_is_unique(s: Seq<char>, i: int, j: int)
    requires
        splits_at(s, i),
        splits_at(s, j),
    ensures
        i == j,
{
}

/// Whatever the grammar says, a text is no address when it is empty, has
/// no `@`, has nothing before its last `@`, or has no dot after it; so
/// neither is a text that ends with its `@`.
pub proof fn lemma_shapeless_text_is_no_email(s: Seq<char>)
    ensures
        s.len() == 0 ==> !is_valid_email(s),
        !s.contains('@') ==> !is_valid_email(s),
        splits_at(s, 0) ==> !is_valid_email(s),
        forall|i: int| splits_at(s, i) && !dot_after(s, i) ==> !is_valid_email(s),
        s.len() > 0 && s.last() == '@' ==> !is_valid_email(s),
{
    if has_mailbox_shape(s) {
        let k = choose|k: int| #[trigger] splits_at(s, k) && 0 < k && dot_after(s, k);
        assert(s.contains('@')) by {
            assert(s[k] == '@');
        }
        assert forall|i: int| splits_at(s, i) implies dot_after(s, i) && 0 < i by {
            lemma_split_is_unique(s, i, k);
        }
        if s.len() > 0 && s.last() == '@' {
            assert(splits_at(s, s.len() - 1));
            assert(!dot_after(s, s.len() - 1));
        }
    }
}

} // verus!
