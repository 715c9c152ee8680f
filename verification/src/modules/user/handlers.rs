//! The rules of account management: what is asked of a password, and what
//! password an account gets when its own is reset. The random text that a
//! reset starts from is drawn outside this module.

use crate::common::error::{explains, AppError, AppResult};
use crate::common::password::hash_password;
use crate::common::text::chars_of;
use crate::modules::auth::handlers::{bad_request, byte_length};
use crate::modules::user::models::CreateUserParams;
use vstd::prelude::*;

verus! {

/// The fewest bytes a password set by an administrator may have.
pub const MIN_PASSWORD_BYTES: usize = 8;

/// The characters of a temporary password that come from the random part.
pub const TEMPORARY_PASSWORD_RANDOM_CHARS: usize = 9;

/// What is asked of a new account before anything is stored: a user name,
/// and a password of eight bytes or more.
pub fn validate_new_user(params: &CreateUserParams) -> (checked: AppResult<()>)
    ensures
        if params.username@.len() == 0 || params.password@.len() == 0 {
            bad_request(checked, "Username and password cannot be empty"@)
        } else if byte_length(params.password@) < MIN_PASSWORD_BYTES {
            bad_request(checked, "Password must be at least 8 characters"@)
        } else {
            checked is Ok
        },
{
    if params.username.as_str().is_empty() || params.password.as_str().is_empty() {
        return Err(AppError::BadRequest("Username and password cannot be empty".to_owned()));
    }
    if params.password.as_str().len() < MIN_PASSWORD_BYTES {
        return Err(AppError::BadRequest("Password must be at least 8 characters".to_owned()));
    }
    Ok(())
}

/// Whether an update of an account changes its password: only where a
/// password was sent and is not empty.
pub open spec fn changes_password(password: Option<String>) -> bool {
    password matches Some(text) && text@.len() > 0
}

/// The hash to store for the password that an update of an account sends,
/// or `None` where the update leaves the password alone. A password of
/// fewer than eight bytes is refused.
pub fn replacement_password_hash(password: &Option<String>) -> (hashed: AppResult<Option<String>>)
    ensures
        !changes_password(*password) ==> hashed == Ok::<Option<String>, AppError>(None),
        changes_password(*password) && byte_length(password->Some_0@) < MIN_PASSWORD_BYTES ==> (
        hashed matches Err(AppError::BadRequest(message)) && message@
            == "Password must be at least 8 characters"@),
        changes_password(*password) && byte_length(password->Some_0@) >= MIN_PASSWORD_BYTES ==> (
        match hashed {
            Ok(hash) => hash is Some,
            Err(failure) => failure matches AppError::InternalError(message) && explains(
                message@,
                "Failed to hash password"@,
            ),
        }),
{
    match password {
        Some(text) => {
            if text.as_str().is_empty() {
                return Ok(None);
            }
            if text.as_str().len() < MIN_PASSWORD_BYTES {
                return Err(
                    AppError::BadRequest("Password must be at least 8 characters".to_owned()),
                );
            }
            match hash_password(text.as_str()) {
                Ok(hash) => Ok(Some(hash)),
                Err(failure) => Err(failure),
            }
        },
        None => Ok(None),
    }
}

/// The shape of a UUID written in its hyphenated form: 36 characters, of
/// which the ninth, the fourteenth, the nineteenth and the twenty-fourth are
/// hyphens and no other is.
pub open spec fn is_uuid_text(text: Seq<char>) -> bool {
    &&& text.len() == 36
    &&& forall|i: int|
        0 <= i < 36 ==> ((#[trigger] text[i] == '-') <==> (i == 8 || i == 13 || i == 18 || i == 23))
}

/// `text` without its hyphens.
pub open spec fn without_hyphens(text: Seq<char>) -> Seq<char> {
    text.filter(is_kept())
}

/// The temporary password made of a random text: `Tmp`, then the first nine
/// characters of the text that are no hyphens. `None` where the text has
/// fewer than nine of them.
pub open spec fn temporary_password_of(random: Seq<char>) -> Option<Seq<char>> {
    if without_hyphens(random).len() >= TEMPORARY_PASSWORD_RANDOM_CHARS {
        Some("Tmp"@ + without_hyphens(random).take(TEMPORARY_PASSWORD_RANDOM_CHARS as int))
    } else {
        None
    }
}

/// Whether a character of a random text goes into the password.
pub open spec fn is_kept() -> spec_fn(char) -> bool {
    |c: char| c != '-'
}

/// The temporary password made of a random text.
pub fn temporary_password_from(random: &str) -> (password: Option<String>)
    ensures
        match temporary_password_of(random@) {
            Some(text) => password matches Some(made) && made@ == text,
            None => password is None,
        },
{
    let chars = chars_of(random);
    let mut password = "Tmp".to_owned();
    let mut taken: usize = 0;
    let mut at: usize = 0;
    while at < chars.len() && taken < TEMPORARY_PASSWORD_RANDOM_CHARS
        invariant
            at <= chars.len(),
            taken <= TEMPORARY_PASSWORD_RANDOM_CHARS,
            chars@ == random@,
            chars@.take(at as int).filter(is_kept()).len() == taken,
            password@ == "Tmp"@ + chars@.take(at as int).filter(is_kept()),
        decreases chars.len() - at,
    {
        let c = chars[at];
        proof {
            assert(chars@.take(at + 1) =~= chars@.take(at as int).push(c));
            chars@.take(at as int).lemma_filter_push(c, is_kept());
            assert(("Tmp"@ + chars@.take(at as int).filter(is_kept())).push(c) =~= "Tmp"@
                + chars@.take(at as int).filter(is_kept()).push(c));
        }
        if c != '-' {
            password.push(c);
            taken = taken + 1;
        }
        at = at + 1;
    }
    proof {
        let front = chars@.take(at as int);
        let back = chars@.skip(at as int);
        assert(front + back =~= chars@);
        Seq::filter_distributes_over_add(front, back, is_kept());
        assert(without_hyphens(random@) == front.filter(is_kept()) + back.filter(is_kept()));
        if taken == TEMPORARY_PASSWORD_RANDOM_CHARS {
            assert(without_hyphens(random@).take(TEMPORARY_PASSWORD_RANDOM_CHARS as int)
                =~= front.filter(is_kept()));
        } else {
            assert(back =~= Seq::<char>::empty());
            assert(back.filter(is_kept()).len() <= back.len()) by {
                back.lemma_filter_len(is_kept());
            }
        }
    }
    if taken < TEMPORARY_PASSWORD_RANDOM_CHARS {
        None
    } else {
        Some(password)
    }
}

/// A text that begins with `count` characters that are no hyphens has at
/// least `count` characters once the hyphens are gone.
proof fn lemma_kept_at_least(text: Seq<char>, count: int)
    requires
        0 <= count <= text.len(),
        forall|i: int| 0 <= i < count ==> #[trigger] text[i] != '-',
    ensures
        text.take(count).filter(is_kept()).len() == count,
        without_hyphens(text).len() >= count,
    decreases count,
{
    if count == 0 {
        assert(text.take(0) =~= Seq::<char>::empty());
        text.take(0).lemma_filter_len(is_kept());
    } else {
        lemma_kept_at_least(text, count - 1);
        assert(text.take(count) =~= text.take(count - 1).push(text[count - 1]));
        text.take(count - 1).lemma_filter_push(text[count - 1], is_kept());
    }
    assert(text.take(count) + text.skip(count) =~= text);
    Seq::filter_distributes_over_add(text.take(count), text.skip(count), is_kept());
}

/// A random text in the shape of a UUID always gives a temporary password:
/// `Tmp` and the first nine characters of the UUID that are no hyphens,
/// twelve characters in all.
pub proof fn lemma_uuid_gives_a_password(text: Seq<char>)
    requires
        is_uuid_text(text),
    ensures
        temporary_password_of(text) matches Some(password) && password.len() == 12
            && "Tmp"@.is_prefix_of(password),
{
    let tail = text.skip(9);
    assert forall|i: int| 0 <= i < 4 implies #[trigger] tail[i] != '-' by {
        assert(tail[i] == text[i + 9]);
    }
    lemma_kept_at_least(tail, 4);
    lemma_kept_at_least(text, 8);
    assert(text.take(9) + tail =~= text);
    Seq::filter_distributes_over_add(text.take(9), tail, is_kept());
    assert(text.take(9) =~= text.take(8).push(text[8]));
    text.take(8).lemma_filter_push(text[8], is_kept());
    reveal_strlit("Tmp");
    let password = temporary_password_of(text)->Some_0;
    assert("Tmp"@ =~= password.subrange(0, 3));
}

} // verus!
