use vstd::prelude::*;

verus! {

/// The text that `str::trim` returns for a text: the same characters without
/// the white space at either end.
pub uninterp spec fn trimmed(text: Seq<char>) -> Seq<char>;

/// The text that `str::to_uppercase` returns for a text: each character
/// replaced by its upper case form.
pub uninterp spec fn uppercased(text: Seq<char>) -> Seq<char>;

/// `str::trim`, which cuts the leading and trailing white space off a text.
/// The contract only gives the result its name.
#[verifier::external_body]
fn trim(text: &str) -> (result: String)
    ensures
        result@ == trimmed(text@),
{
    text.trim().to_string()
}

/// `str::to_uppercase`, which maps every character to upper case. The
/// contract only gives the result its name.
#[verifier::external_body]
fn to_uppercase(text: &str) -> (result: String)
    ensures
        result@ == uppercased(text@),
{
    text.to_uppercase()
}

/// The two tokens that mean yes.
pub open spec fn is_yes(token: Seq<char>) -> bool {
    token == "Y"@ || token == "YES"@
}

/// Whether a line typed by the operator agrees to the question asked: without
/// the white space around it and in upper case it reads `Y` or `YES`.
pub open spec fn affirmative(line: Seq<char>) -> bool {
    is_yes(uppercased(trimmed(line)))
}

/// Tells whether an answer, already trimmed and in upper case, means yes.
pub fn means_yes(token: &String) -> (yes: bool)
    ensures
        yes == is_yes(token@),
{
    let short = String::from_str("Y");
    let long = String::from_str("YES");
    *token == short || *token == long
}

/// Reads the operator's answer to a yes/no question out of the line typed.
///
/// Only `Y` and `YES`, in any mix of cases and with any white space around
/// them, agree; every other line, the empty one included, declines.
pub fn confirm(line: &str) -> (agreed: bool)
    ensures
        agreed == affirmative(line@),
{
    let text = trim(line);
    let token = to_uppercase(text.as_str());
    means_yes(&token)
}

} // verus!
