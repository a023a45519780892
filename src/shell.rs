use vstd::prelude::*;

use crate::installers::HostProfile;

verus! {

/// What `str::trim` makes of a text.
pub uninterp spec fn trimmed(s: Seq<char>) -> Seq<char>;

/// What `str::to_lowercase` makes of a text.
pub uninterp spec fn lowered(s: Seq<char>) -> Seq<char>;

/// Relies on `str::trim`: drops leading and trailing whitespace, a function of
/// the characters alone.
#[verifier::external_body]
fn trim(s: &str) -> (r: &str)
    ensures
        r@ == trimmed(s@),
{
    s.trim()
}

/// Relies on `str::to_lowercase`: the Unicode lower case of each character, a
/// function of the characters alone.
#[verifier::external_body]
fn lowercase(s: &str) -> (r: String)
    ensures
        r@ == lowered(s@),
{
    s.to_lowercase()
}

/// The replies that count as "yes", in English and Spanish.
pub open spec fn affirmative(s: Seq<char>) -> bool {
    s == "y"@ || s == "yes"@ || s == "s"@ || s == "si"@
}

/// Whether an answer, already trimmed and in lower case, is one of the
/// affirmative replies.
pub fn is_affirmative(answer: &str) -> (r: bool)
    ensures
        r == affirmative(answer@),
{
    let a = answer.to_owned();
    a == "y".to_owned() || a == "yes".to_owned() || a == "s".to_owned() || a == "si".to_owned()
}

/// Whether a reply typed at a yes/no prompt means yes: it is trimmed, put in
/// lower case and then compared with the affirmative replies. Anything else,
/// the empty reply included, means no.
pub fn confirms(reply: &str) -> (r: bool)
    ensures
        r == affirmative(lowered(trimmed(reply@))),
{
    let t = trim(reply);
    let l = lowercase(t);
    is_affirmative(l.as_str())
}

/// The shell that install scripts are piped through on `h`.
pub fn get_os_shell(h: HostProfile) -> (r: &'static str)
    ensures
        r@ == (if h == HostProfile::Windows {
            "powershell"@
        } else {
            "sh"@
        }),
{
    match h {
        HostProfile::Windows => "powershell",
        _ => "sh",
    }
}

} // verus!
