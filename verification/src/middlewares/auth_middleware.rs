//! Reading the caller's token from the `Authorization` header.

use crate::errors::{answer, PersErrors, PersErrorsView, UNAUTHORIZED};
use vstd::prelude::*;

verus! {

/// The token of a header value of the form `Bearer <token>`, if it has that form.
pub open spec fn bearer_token(header: Seq<char>) -> Option<Seq<char>> {
    if header.len() >= 7 && header.subrange(0, 7) == "Bearer "@ {
        Some(header.subrange(7, header.len() as int))
    } else {
        None
    }
}

/// What the authentication step answers for an `Authorization` header (absent,
/// or present as text): the bearer token, or 401 with "no auth token present".
pub open spec fn token_outcome(header: Option<Seq<char>>) -> Result<Seq<char>, PersErrorsView> {
    match header {
        Some(h) => match bearer_token(h) {
            Some(t) => Ok(t),
            None => Err(answer(UNAUTHORIZED, "no auth token present"@)),
        },
        None => Err(answer(UNAUTHORIZED, "no auth token present"@)),
    }
}

/// The token that `authenticate_user` reads from the `Authorization` header:
/// the text after `Bearer `, or 401 "no auth token present" when the header
/// is absent, not text, or not of that form.
pub fn authenticate_user(authorization: Option<&str>) -> (res: Result<String, PersErrors>)
    ensures
        match (res, token_outcome(
            match authorization {
                Some(h) => Some(h@),
                None => None,
            },
        )) {
            (Ok(t), Ok(s)) => t@ == s,
            (Err(e), Err(v)) => e@ == v,
            _ => false,
        },
{
    match authorization {
        None => Err(PersErrors::from_text("no auth token present", UNAUTHORIZED)),
        Some(header) => {
            let prefix = "Bearer ";
            proof {
                reveal_strlit("Bearer ");
            }
            assert(prefix@ == "Bearer "@);
            let n = header.unicode_len();
            if n < 7 {
                return Err(PersErrors::from_text("no auth token present", UNAUTHORIZED));
            }
            let mut i: usize = 0;
            while i < 7
                invariant
                    i <= 7,
                    n == header@.len(),
                    n >= 7,
                    prefix@.len() == 7,
                    prefix@ == "Bearer "@,
                    authorization == Some(header),
                    forall|j: int| 0 <= j < i ==> header@[j] == prefix@[j],
                decreases 7 - i,
            {
                if header.get_char(i) != prefix.get_char(i) {
                    assert(header@.subrange(0, 7)[i as int] != prefix@[i as int]);
                    assert(header@.subrange(0, 7) != "Bearer "@);
                    return Err(PersErrors::from_text("no auth token present", UNAUTHORIZED));
                }
                i = i + 1;
            }
            assert(header@.subrange(0, 7) =~= prefix@);
            Ok(header.substring_char(7, n).to_owned())
        },
    }
}

/// Sending `Bearer <token>` hands the authentication step back exactly `<token>`.
pub proof fn lemma_bearer_token_round_trip(token: Seq<char>)
    ensures
        bearer_token("Bearer "@ + token) == Some(token),
        token_outcome(Some("Bearer "@ + token)) == Ok::<Seq<char>, PersErrorsView>(token),
{
    reveal_strlit("Bearer ");
    let h = "Bearer "@ + token;
    assert(h.subrange(0, 7) =~= "Bearer "@);
    assert(h.subrange(7, h.len() as int) =~= token);
}

/// The answer when the bearer token does not verify: 401 "wrong auth tokens".
pub fn wrong_auth_token() -> (e: PersErrors)
    ensures
        e@ == answer(UNAUTHORIZED, "wrong auth tokens"@),
{
    PersErrors::from_text("wrong auth tokens", UNAUTHORIZED)
}

} // verus!
