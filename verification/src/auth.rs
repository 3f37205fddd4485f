//! Sign-up and sign-in rules: what a failed store or lookup is reported as,
//! and what a successful sign-in hands back.

use vstd::prelude::*;
use crate::text::{has_substring, contains_str};

verus! {

/// The name and session token that a successful sign-in hands back.
#[derive(Clone, Debug, PartialEq, Eq)]
pub struct Login {
    pub name: String,
    pub token: String,
}

/// What sign-in reads of a stored account.
#[derive(Clone, Debug, PartialEq, Eq)]
pub struct StoredUser {
    pub id: String,
    pub name: String,
    pub email: String,
    pub password: String,
}

/// What the database reports when an insert breaks a unique constraint.
pub open spec fn duplicate_key_marker() -> Seq<char> {
    "duplicate key value violates unique constraint"@
}

/// How a failed sign-up insert is reported: a broken unique constraint
/// means the e-mail is taken; anything else is a failed insert.
pub open spec fn register_failure_text(db_error: Seq<char>) -> Seq<char> {
    if has_substring(db_error, duplicate_key_marker()) {
        "email already exist"@
    } else {
        "error inserting new user"@
    }
}

/// The message of a failed sign-up insert, from the database's own message.
pub fn register_failure_message(db_error: &str) -> (r: String)
    ensures
        r@ == register_failure_text(db_error@),
{
    if contains_str(db_error, "duplicate key value violates unique constraint") {
        String::from_str("email already exist")
    } else {
        String::from_str("error inserting new user")
    }
}

/// The message of a sign-in whose account could not be found or read.
pub open spec fn user_not_found_text() -> Seq<char> {
    "error find user"@
}

/// The message of a sign-in with the wrong password.
pub open spec fn bad_credentials_text() -> Seq<char> {
    "invalid email or password"@
}

/// The account lookup of sign-in: the account if one was found; the same
/// error whether none was found or the lookup failed.
pub fn find_user_outcome(fetched: Result<Option<StoredUser>, String>) -> (r: Result<StoredUser, String>)
    ensures
        match fetched {
            Ok(Some(u)) => r == Ok::<StoredUser, String>(u),
            _ => r matches Err(e) && e@ == user_not_found_text(),
        },
{
    match fetched {
        Ok(Some(user)) => Ok(user),
        _ => Err(String::from_str("error find user")),
    }
}

/// The password check of sign-in: refused unless the password matched.
pub fn check_password(password_matches: bool) -> (r: Result<(), String>)
    ensures
        password_matches ==> r is Ok,
        !password_matches ==> (r matches Err(e) && e@ == bad_credentials_text()),
{
    if password_matches {
        Ok(())
    } else {
        Err(String::from_str("invalid email or password"))
    }
}

/// What a successful sign-in hands back: the account's name and the token.
pub fn signed_in(user: &StoredUser, token: String) -> (r: Login)
    ensures
        r.name@ == user.name@,
        r.token@ == token@,
{
    Login { name: user.name.clone(), token }
}

/// Whether an e-mail address is well-formed enough to be accepted: it holds an `@`.
pub open spec fn is_email(email: Seq<char>) -> bool {
    email.contains('@')
}

/// Checks an e-mail address for an `@`.
pub fn valid_email(email: &str) -> (r: bool)
    ensures
        r == is_email(email@),
{
    let r = contains_str(email, "@");
    proof {
        reveal_strlit("@");
        if r {
            let i = choose|i: int|
                0 <= i && i + 1 <= email@.len() && #[trigger] email@.subrange(i, i + 1) == "@"@;
            assert(email@[i] == email@.subrange(i, i + 1)[0]);
        }
        if email@.contains('@') {
            let i = choose|i: int| 0 <= i < email@.len() && email@[i] == '@';
            assert(email@.subrange(i, i + 1) =~= "@"@);
        }
    }
    r
}

} // verus!
