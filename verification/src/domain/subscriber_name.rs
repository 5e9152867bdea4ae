//! Subscriber display names.

use crate::unicode::{char_is_whitespace, count_graphemes, grapheme_count, is_white_space};
use vstd::prelude::*;

verus! {

/// The largest number of extended grapheme clusters a name may hold.
pub const MAX_NAME_GRAPHEMES: usize = 256;

/// Characters that no name may contain.
pub open spec fn is_forbidden_char(c: char) -> bool {
    c == '(' || c == ')' || c == '/' || c == '"' || c == '<' || c == '>' || c == '{' || c == '}'
        || c == '\\'
}

/// A text is blank when every character of it is white space; the empty
/// text is blank.
pub open spec fn is_blank(s: Seq<char>) -> bool {
    forall|i: int| 0 <= i < s.len() ==> is_white_space(#[trigger] s[i])
}

/// Some character of the text is forbidden.
pub open spec fn has_forbidden_char(s: Seq<char>) -> bool {
    exists|i: int| 0 <= i < s.len() && is_forbidden_char(#[trigger] s[i])
}

/// The rule for names, given whether `s` is blank and the number of its
/// grapheme clusters.
pub open spec fn name_rule(s: Seq<char>, blank: bool, graphemes: nat) -> bool {
    &&& !blank
    &&& graphemes <= MAX_NAME_GRAPHEMES
    &&& !has_forbidden_char(s)
}

/// The texts that are subscriber names.
pub open spec fn is_valid_name(s: Seq<char>) -> bool {
    name_rule(s, is_blank(s), grapheme_count(s))
}

/// What every rejection says.
pub open spec fn invalid_name_message() -> Seq<char> {
    "Invalid subscriber name."@
}

fn is_forbidden(c: char) -> (b: bool)
    ensures
        b == is_forbidden_char(c),
{
    c == '(' || c == ')' || c == '/' || c == '"' || c == '<' || c == '>' || c == '{' || c == '}'
        || c == '\\'
}

fn all_white_space(s: &str) -> (b: bool)
    ensures
        b == is_blank(s@),
{
    let mut blank = true;
    for c in it: s.chars()
        invariant
            it.seq() == s@,
            blank == (forall|i: int| 0 <= i < it.index() ==> is_white_space(#[trigger] s@[i])),
    {
        if !char_is_whitespace(c) {
            assert(!is_white_space(s@[it.index()]));
            blank = false;
        }
    }
    blank
}

fn any_forbidden(s: &str) -> (b: bool)
    ensures
        b == has_forbidden_char(s@),
{
    let mut found = false;
    for c in it: s.chars()
        invariant
            it.seq() == s@,
            found == (exists|i: int| 0 <= i < it.index() && is_forbidden_char(#[trigger] s@[i])),
    {
        if is_forbidden(c) {
            assert(is_forbidden_char(s@[it.index()]));
            found = true;
        }
    }
    found
}

/// Decides the rule for names on a text of which it is known whether it
/// is blank and how many grapheme clusters it has.
pub fn check_name(s: &str, blank: bool, graphemes: usize) -> (ok: bool)
    ensures
        ok == name_rule(s@, blank, graphemes as nat),
{
    let is_too_long = graphemes > MAX_NAME_GRAPHEMES;
    let has_forbidden_characters = any_forbidden(s);
    !(blank || is_too_long || has_forbidden_characters)
}

/// A validated subscriber name.
#[derive(Debug)]
pub struct SubscriberName(String);

impl View for SubscriberName {
    type V = Seq<char>;

    closed spec fn view(&self) -> Seq<char> {
        self.0@
    }
}

impl SubscriberName {
    #[verifier::type_invariant]
    spec fn well_formed(&self) -> bool {
        is_valid_name(self.0@)
    }

    /// Accepts exactly the texts that are not blank, split into at most 256
    /// extended grapheme clusters and hold no forbidden character. The text
    /// is kept as given. A text of at most 256 characters never fails for
    /// its length.
    pub fn parse(s: String) -> (r: Result<SubscriberName, String>)
        ensures
            match r {
                Ok(name) => is_valid_name(s@) && name@ == s@,
                Err(message) => !is_valid_name(s@) && message@ == invalid_name_message(),
            },
            s@.len() <= MAX_NAME_GRAPHEMES && !is_blank(s@) && !has_forbidden_char(s@) ==> r is Ok,
    {
        let is_empty = all_white_space(s.as_str());
        let graphemes = count_graphemes(s.as_str());
        if check_name(s.as_str(), is_empty, graphemes) {
            Ok(SubscriberName(s))
        } else {
            Err("Invalid subscriber name.".to_owned())
        }
    }

    /// The name as text.
    pub fn as_ref(&self) -> (s: &str)
        ensures
            s@ == self@,
            is_valid_name(s@),
    {
        proof {
            use_type_invariant(self);
        }
        self.0.as_str()
    }
}

/// A text is no name when it is empty or blank, when it holds a
/// forbidden character, a parenthesis for one, or when it splits into more
/// than 256 grapheme clusters.
pub proof fn lemma_refused_names(s: Seq<char>)
    ensures
        s.len() == 0 ==> !is_valid_name(s),
        is_blank(s) ==> !is_valid_name(s),
        has_forbidden_char(s) ==> !is_valid_name(s),
        s.contains('(') || s.contains(')') ==> !is_valid_name(s),
        grapheme_count(s) > MAX_NAME_GRAPHEMES ==> !is_valid_name(s),
{
    if s.contains('(') {
        let i = choose|i: int| 0 <= i < s.len() && s[i] == '(';
        assert(is_forbidden_char(s[i]));
    }
    if s.contains(')') {
        let i = choose|i: int| 0 <= i < s.len() && s[i] == ')';
        assert(is_forbidden_char(s[i]));
    }
}

} // verus!
