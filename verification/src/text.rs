//! Text helpers shared by the input field and the reply previews.

use vstd::prelude::*;
use vstd::string::*;
use crate::requests::opt_text;

verus! {

/// The three characters appended to a shortened message.
pub open spec fn ellipsis() -> Seq<char> {
    seq!['.', '.', '.']
}

/// What `truncate_message` returns: the text itself when it has at most
/// `length` characters, otherwise its first `length` characters followed by
/// an ellipsis.
pub open spec fn truncated(message: Seq<char>, length: nat) -> Seq<char> {
    if message.len() > length {
        message.take(length as int) + ellipsis()
    } else {
        message
    }
}

/// Cuts `message` after `length` characters (not bytes) and marks the cut
/// with `"..."`. A message of at most `length` characters comes back as it
/// is.
pub fn truncate_message(message: String, length: usize) -> (out: String)
    ensures
        out@ == truncated(message@, length as nat),
{
    let count: usize = message.as_str().unicode_len();
    if count > length {
        let head = message.as_str().substring_char(0, length);
        proof {
            reveal_strlit("...");
            assert("..."@ =~= ellipsis());
            assert(message@.subrange(0, length as int) =~= message@.take(length as int));
        }
        String::from_str(head).concat("...")
    } else {
        message
    }
}

/// Whether two texts have the same characters.
pub fn same_text(a: &String, b: &String) -> (r: bool)
    ensures
        r == (a@ == b@),
{
    *a == *b
}

/// Whether an optional text is present and has the characters of `b`.
pub fn is_text(a: &Option<String>, b: &String) -> (r: bool)
    ensures
        r == (opt_text(*a) == Some(b@)),
{
    match a {
        Some(s) => same_text(s, b),
        None => false,
    }
}

} // verus!
