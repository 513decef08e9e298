//! What is made of a token once it has been checked, and how an error is
//! written down with everything that caused it.

use vstd::prelude::*;
use crate::errors::CustomJWTTokenError;
use crate::schemas::JWTClaims;

verus! {

/// Why the check of a token's signature and claims failed.
#[derive(Clone, Copy, Debug, PartialEq, Eq, Structural)]
pub enum TokenFault {
    /// The signature is good and the token has expired.
    ExpiredSignature,
    /// Anything else: a bad signature, a malformed token, a missing claim.
    Other,
}

/// Whether `result` is what `decoded` comes to: the subject of the claims,
/// `Expired` for a token that has expired, `Invalid Token` otherwise.
pub open spec fn is_subject_of(
    result: Result<String, CustomJWTTokenError>,
    decoded: Result<JWTClaims, TokenFault>,
) -> bool {
    match decoded {
        Ok(claims) => result == Ok::<String, CustomJWTTokenError>(claims.sub),
        Err(TokenFault::ExpiredSignature) => result == Err::<String, CustomJWTTokenError>(
            CustomJWTTokenError::Expired,
        ),
        Err(TokenFault::Other) => result matches Err(CustomJWTTokenError::Invalid(reason))
            && reason@ == "Invalid Token"@,
    }
}

/// Turns the outcome of checking a token into the subject it was issued to,
/// or into the error that is told to the caller.
pub fn decode_token(decoded: Result<JWTClaims, TokenFault>) -> (result: Result<
    String,
    CustomJWTTokenError,
>)
    ensures
        is_subject_of(result, decoded),
{
    match decoded {
        Ok(claims) => Ok(claims.sub),
        Err(TokenFault::ExpiredSignature) => Err(CustomJWTTokenError::Expired),
        Err(TokenFault::Other) => Err(CustomJWTTokenError::Invalid("Invalid Token".to_owned())),
    }
}

/// The text of an error and of its causes, outermost first: the error on a
/// line of its own and an empty line, then for each cause a line
/// `Caused by:` and the cause on the next line behind a tab.
pub open spec fn chain_text(head: Seq<char>, causes: Seq<String>) -> Seq<char>
    decreases causes.len(),
{
    if causes.len() == 0 {
        head + "\n\n"@
    } else {
        chain_text(head, causes.drop_last()) + "Caused by:\n\t"@ + causes.last()@ + "\n"@
    }
}

/// Writes down an error with the chain of its causes, outermost first.
pub fn error_chain_fmt(head: &str, causes: &Vec<String>) -> (text: String)
    ensures
        text@ == chain_text(head@, causes@),
{
    let mut text = head.to_owned();
    text.append("\n\n");
    let mut i: usize = 0;
    while i < causes.len()
        invariant
            i <= causes.len(),
            text@ == chain_text(head@, causes@.take(i as int)),
        decreases causes.len() - i,
    {
        text.append("Caused by:\n\t");
        text.append(causes[i].as_str());
        text.append("\n");
        proof {
            assert(causes@.take(i + 1).drop_last() == causes@.take(i as int));
        }
        i += 1;
    }
    proof {
        assert(causes@.take(causes.len() as int) == causes@);
    }
    text
}

} // verus!
