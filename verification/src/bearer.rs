//! The `Authorization` header value that carries a session id.

use vstd::prelude::*;
use vstd::string::*;

verus! {

/// The scheme name and the space that precede the session id.
pub open spec fn bearer_prefix() -> Seq<char> {
    seq!['B', 'e', 'a', 'r', 'e', 'r', ' ']
}

/// The header value for a session id.
pub open spec fn bearer_value(session_id: Seq<char>) -> Seq<char> {
    bearer_prefix() + session_id
}

/// The session id that a header value carries: everything after the first
/// space, provided that `Bearer` stands before it.
pub open spec fn bearer_token_of(value: Seq<char>) -> Option<Seq<char>> {
    if value.len() >= 7 && value.take(7) == bearer_prefix() {
        Some(value.skip(7))
    } else {
        None
    }
}

/// Writes the header value for a session id.
pub fn bearer_header(session_id: &String) -> (value: String)
    ensures
        value@ == bearer_value(session_id@),
{
    proof {
        reveal_strlit("Bearer ");
        assert("Bearer "@ =~= bearer_prefix());
    }
    String::from_str("Bearer ").concat(session_id.as_str())
}

/// Reads the session id out of a header value.
pub fn bearer_token(value: &String) -> (token: Option<String>)
    ensures
        token.is_some() == bearer_token_of(value@).is_some(),
        token matches Some(id) ==> Some(id@) == bearer_token_of(value@),
{
    let length = value.as_str().unicode_len();
    if length < 7 {
        return None;
    }
    let head = String::from_str(value.as_str().substring_char(0, 7));
    let scheme = String::from_str("Bearer ");
    proof {
        reveal_strlit("Bearer ");
        assert("Bearer "@ =~= bearer_prefix());
        assert(value@.subrange(0, 7) =~= value@.take(7));
        assert(value@.subrange(7, length as int) =~= value@.skip(7));
    }
    if head == scheme {
        Some(String::from_str(value.as_str().substring_char(7, length)))
    } else {
        None
    }
}

/// What is written for a session id is read back as that session id.
pub proof fn law_bearer_round_trip(session_id: Seq<char>)
    ensures
        bearer_token_of(bearer_value(session_id)) == Some(session_id),
{
    let value = bearer_value(session_id);
    assert(value.take(7) =~= bearer_prefix());
    assert(value.skip(7) =~= session_id);
}

} // verus!
