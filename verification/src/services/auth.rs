//! The decisions of logging in and of changing a password: checking a
//! password against the stored bcrypt hash, refusing unknown or disabled
//! users, and hashing a new password. Issuing the session token is not part
//! of the library.
use vstd::prelude::*;
use crate::models::user::User;
use crate::error::AppError;
use crate::ids::{bcrypt_verifies, verify_password, hash_password, cost_text};
use crate::text::{uuid_text, uuid_string};

verus! {

/// The answer to an unknown user or a wrong password.
pub open spec fn bad_credentials_text() -> Seq<char> {
    "用户名或密码错误"@
}

/// The answer to a disabled user.
pub open spec fn disabled_user_text() -> Seq<char> {
    "用户已被禁用"@
}

/// Decides a login at `now` of the user found under the name given (none when
/// no user has it), with the hash stored for that user and the password
/// given: an unknown user is refused, a disabled one is refused as disabled,
/// a password the hash does not verify is refused; otherwise the user, last
/// logged in and updated at `now`.
pub fn login_decision(user: Option<User>, password_hash: &str, password: &str, now: i64) -> (r: Result<User, AppError>)
    ensures
        match user {
            None => r matches Err(AppError::Unauthorized(m)) && m@ == bad_credentials_text(),
            Some(u) => if !u.is_active {
                r matches Err(AppError::Unauthorized(m)) && m@ == disabled_user_text()
            } else if !bcrypt_verifies(password@, password_hash@) {
                r matches Err(AppError::Unauthorized(m)) && m@ == bad_credentials_text()
            } else {
                r == Ok::<User, AppError>(User { last_login: Some(now), updated_at: now, ..u })
            },
        },
{
    match user {
        None => Err(AppError::Unauthorized(String::from_str("用户名或密码错误"))),
        Some(u) => {
            if !u.is_active {
                return Err(AppError::Unauthorized(String::from_str("用户已被禁用")));
            }
            if !verify_password(password, password_hash) {
                return Err(AppError::Unauthorized(String::from_str("用户名或密码错误")));
            }
            Ok(User { last_login: Some(now), updated_at: now, ..u })
        }
    }
}

/// The answer to a user that is not found.
pub open spec fn user_not_found_text(id: u128) -> Seq<char> {
    "User "@ + uuid_text(id) + " not found"@
}

/// The answer to a wrong old password.
pub open spec fn wrong_old_password_text() -> Seq<char> {
    "原密码错误"@
}

/// Changes the password of user `user_id`, given the user and stored hash
/// found under that identifier (none when there is no such user): an unknown
/// user is not found, an old password the stored hash does not verify is a
/// bad request; otherwise the new password is hashed with bcrypt at the
/// default cost of 12, and the new hash, which verifies the new password, is
/// to be stored. When bcrypt gives no hash (its random source failing), the
/// error is an internal one carrying bcrypt's text.
pub fn change_password(found: Option<(User, String)>, user_id: u128, old_password: &str, new_password: &str)
    -> (r: Result<String, AppError>)
    ensures
        match found {
            None => r matches Err(AppError::NotFound(m)) && m@ == user_not_found_text(user_id),
            Some((_, h)) => if !bcrypt_verifies(old_password@, h@) {
                r matches Err(AppError::BadRequest(m)) && m@ == wrong_old_password_text()
            } else {
                &&& r matches Err(e) ==> e is Internal
                &&& r matches Ok(nh) ==> {
                    &&& nh@.len() == 60
                    &&& nh@.subrange(0, 7) == "$2b$"@ + cost_text(12) + "$"@
                    &&& bcrypt_verifies(new_password@, nh@)
                }
            },
        },
{
    match found {
        None => {
            let mut m = String::from_str("User ");
            let id = uuid_string(user_id);
            m.append(id.as_str());
            m.append(" not found");
            Err(AppError::NotFound(m))
        }
        Some((_, h)) => {
            if !verify_password(old_password, h.as_str()) {
                return Err(AppError::BadRequest(String::from_str("原密码错误")));
            }
            match hash_password(new_password, 12) {
                Ok(nh) => Ok(nh),
                Err(e) => Err(AppError::Internal(e)),
            }
        }
    }
}

} // verus!
