//! The admission check that every request passes before a handler runs.
//!
//! The allowlist is fixed: the liveness path, and the pages of the
//! interactive documentation. These pass unchecked; none of them reaches a
//! handler of quotes. Every other path needs a bearer token that verifies;
//! without one the request ends with `Unauthorized` and nothing else is done
//! for it.

use vstd::prelude::*;
use crate::error::MyError;
use crate::text::{same_text, starts_with, text_starts_with};
use crate::token::{verified_claims, TokenCodec};

verus! {

/// The liveness path.
pub open spec fn health_path() -> Seq<char> {
    "/health"@
}

/// The entry page of the interactive documentation.
pub open spec fn docs_path() -> Seq<char> {
    "/swagger-ui"@
}

/// The prefix of every other page of the interactive documentation.
pub open spec fn docs_prefix() -> Seq<char> {
    "/swagger-ui/"@
}

/// The path is on the allowlist: it is the liveness path or the entry page
/// of the documentation, or it lies under the documentation's prefix.
pub open spec fn is_open_path(path: Seq<char>) -> bool {
    path == health_path() || path == docs_path() || starts_with(path, docs_prefix())
}

/// The value of a credential that may be missing.
pub open spec fn credential_view(credentials: Option<&str>) -> Option<Seq<char>> {
    match credentials {
        Some(token) => Some(token@),
        None => None,
    }
}

/// The credential is there and verifies under `secret`.
pub open spec fn is_verified(secret: Seq<char>, credential: Option<Seq<char>>) -> bool {
    match credential {
        Some(token) => verified_claims(secret, token) is Some,
        None => false,
    }
}

/// The request is let through.
pub open spec fn admits(secret: Seq<char>, path: Seq<char>, credential: Option<Seq<char>>) -> bool {
    is_open_path(path) || is_verified(secret, credential)
}

/// What the admission check answers, given what it found out about the
/// request.
pub open spec fn admission_result(open_path: bool, verified: bool) -> Result<(), MyError> {
    if open_path || verified {
        Ok(())
    } else {
        Err(MyError::Unauthorized)
    }
}

/// Decides on a request from what is known of it: an allowlisted path passes,
/// and so does a verified credential; everything else is `Unauthorized`.
pub fn admission_answer(open_path: bool, verified: bool) -> (answer: Result<(), MyError>)
    ensures
        answer == admission_result(open_path, verified),
{
    if open_path || verified {
        Ok(())
    } else {
        Err(MyError::Unauthorized)
    }
}

/// Whether the path is on the allowlist.
pub fn path_is_open(path: &str) -> (open: bool)
    ensures
        open == is_open_path(path@),
{
    same_text(path, "/health") || same_text(path, "/swagger-ui") || text_starts_with(
        path,
        "/swagger-ui/",
    )
}

/// Admits a request to `path` that presents `credentials`, or
/// rejects it with `Unauthorized`.
///
/// A request is admitted exactly when its path is on the allowlist or its
/// credential verifies under the codec's secret. A missing credential never
/// verifies.
pub fn validator(codec: &TokenCodec, path: &str, credentials: Option<&str>) -> (answer: Result<
    (),
    MyError,
>)
    ensures
        answer == admission_result(
            is_open_path(path@),
            is_verified(codec.secret(), credential_view(credentials)),
        ),
        answer is Ok <==> admits(codec.secret(), path@, credential_view(credentials)),
        answer matches Err(error) ==> error == MyError::Unauthorized,
{
    if path_is_open(path) {
        return admission_answer(true, false);
    }
    let verified = match credentials {
        Some(token) => codec.verify(token).is_ok(),
        None => false,
    };
    admission_answer(false, verified)
}

/// A token that the codec accepts opens every path; and where the path is
/// not on the allowlist, a request is let through only with such a token.
pub proof fn lemma_admission_follows_the_codec(
    codec: TokenCodec,
    path: Seq<char>,
    credential: Option<Seq<char>>,
)
    ensures
        ({
            let answer = admission_result(
                is_open_path(path),
                is_verified(codec.secret(), credential),
            );
            let accepted = credential matches Some(token) && codec.accepts(token);
            &&& accepted ==> answer is Ok
            &&& !is_open_path(path) && !accepted ==> answer == Err::<(), MyError>(
                MyError::Unauthorized,
            )
        }),
{
}

/// No path under which quotes are served is on the allowlist: a path that
/// begins with `/quotes` or with `/api/` is never open.
pub proof fn lemma_quote_paths_are_guarded(path: Seq<char>)
    requires
        starts_with(path, "/quotes"@) || starts_with(path, "/api/"@),
    ensures
        !is_open_path(path),
{
    reveal_strlit("/quotes");
    reveal_strlit("/api/");
    reveal_strlit("/health");
    reveal_strlit("/swagger-ui");
    reveal_strlit("/swagger-ui/");
    if starts_with(path, "/quotes"@) {
        assert(path.subrange(0, 7)[1] == 'q');
    } else {
        assert(path.subrange(0, 5)[1] == 'a');
    }
    if starts_with(path, docs_prefix()) {
        assert(path.subrange(0, 12)[1] == 's');
    }
}

} // verus!
