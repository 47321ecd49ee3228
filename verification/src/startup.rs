//! The startup configuration check: the bot cannot run without its token.
use vstd::prelude::*;

verus! {

/// Validates the token read from the environment: present means the bot may
/// start, absent is fatal and carries the message naming what was missing.
pub fn check_token(token: Option<String>) -> (r: Result<String, String>)
    ensures
        token matches Some(t) ==> r == Ok::<String, String>(t),
        token is None ==> (r matches Err(m) && m@
            == "Error obtaining discord token from environment"@),
{
    match token {
        Some(t) => Ok(t),
        None => Err("Error obtaining discord token from environment".to_owned()),
    }
}

} // verus!
