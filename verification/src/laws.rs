//! Guarantees of the store models that the flows rely on, stated once over
//! the views the store contracts speak of.

use vstd::prelude::*;

verus! {

/// Banning a token that is already banned leaves it banned and leaves the
/// revocation set unchanged: the second ban is a benign duplicate. The
/// store surfaces it as `TokenAlreadyBanned`; the logout flow does not
/// treat that signal as a failure.
pub proof fn lemma_duplicate_ban_benign(tokens: Set<Seq<char>>, t: Seq<char>)
    ensures
        tokens.insert(t).contains(t),
        tokens.insert(t).insert(t) == tokens.insert(t),
{
    assert(tokens.insert(t).insert(t) =~= tokens.insert(t));
}

/// A challenge consumed by a successful verification is gone: the store
/// holds no entry for the email afterwards, so a second verification with
/// the same attempt identifier and code fails.
pub proof fn lemma_challenge_single_use(
    codes: Map<Seq<char>, (Seq<char>, Seq<char>)>,
    email: Seq<char>,
)
    ensures
        !codes.remove(email).contains_key(email),
{
}

/// Issuing a new challenge supersedes the old one: afterwards the store
/// holds exactly the fresh pair for that email, so any other pair fails
/// verification even if it never expired.
pub proof fn lemma_new_challenge_supersedes(
    codes: Map<Seq<char>, (Seq<char>, Seq<char>)>,
    email: Seq<char>,
    fresh: (Seq<char>, Seq<char>),
    prior: (Seq<char>, Seq<char>),
)
    requires
        prior != fresh,
    ensures
        codes.insert(email, fresh).contains_key(email),
        codes.insert(email, fresh)[email] == fresh,
        codes.insert(email, fresh)[email] != prior,
{
}

} // verus!
