use vstd::prelude::*;
use vstd::string::StringExecFns;

verus! {

/// Prefix that marks a stored history entry as user input.
pub open spec fn user_prefix() -> Seq<char> {
    "USER:"@
}

/// Prefix that marks a stored history entry as a generated reply.
pub open spec fn assistant_prefix() -> Seq<char> {
    "ASSISTANT:"@
}

/// Opening of the text built for a message that quotes another one.
pub open spec fn reply_head() -> Seq<char> {
    "Reply to: ```\n"@
}

/// Separator between the quoted text and the new input.
pub open spec fn reply_mid() -> Seq<char> {
    "\n```\n"@
}

/// Compares two string slices by their character sequences.
pub fn str_eq(a: &str, b: &str) -> (r: bool)
    ensures
        r == (a@ == b@),
{
    let owned_a = a.to_owned();
    let owned_b = b.to_owned();
    owned_a == owned_b
}

/// Builds the stored history entry for one piece of user input.
pub fn user_entry(text: &str) -> (r: String)
    ensures
        r@ == user_prefix() + text@,
{
    String::from_str("USER:").concat(text)
}

/// Builds the stored history entry for one generated reply.
pub fn assistant_entry(response: &str) -> (r: String)
    ensures
        r@ == assistant_prefix() + response@,
{
    String::from_str("ASSISTANT:").concat(response)
}

/// Combines the text of a quoted message with the new input, the way a
/// submission that replies to an earlier message is presented to the
/// pipeline.
pub fn compose_reply(quoted: &str, text: &str) -> (r: String)
    ensures
        r@ == reply_head() + quoted@ + reply_mid() + text@,
{
    String::from_str("Reply to: ```\n").concat(quoted).concat("\n```\n").concat(text)
}

} // verus!
