//! Users, their roles, and role elevation.

use vstd::prelude::*;

use crate::text::same_text;

verus! {

/// A new account's stored fields.
#[derive(Clone, Debug)]
pub struct CreateUser {
    pub display_name: String,
    pub password_hash: String,
}

/// A stored account (its timestamps live with the store).
#[derive(Clone, Debug)]
pub struct User {
    pub id: String,
    pub display_name: String,
    pub password_hash: String,
    pub role: String,
}

impl User {
    /// The user administers the whole application.
    pub fn is_app_admin(&self) -> (admin: bool)
        ensures
            admin == (self.role@ == "app_admin"@),
    {
        same_text(self.role.as_str(), "app_admin")
    }

    /// The user supervises mosques.
    pub fn is_mosque_supervisor(&self) -> (supervisor: bool)
        ensures
            supervisor == (self.role@ == "mosque_supervisor"@),
    {
        same_text(self.role.as_str(), "mosque_supervisor")
    }

    /// Gives the user a new role.
    pub fn elevate_to(&mut self, elevation_degree: String)
        ensures
            final(self).role == elevation_degree,
            final(self).id == old(self).id,
            final(self).display_name == old(self).display_name,
            final(self).password_hash == old(self).password_hash,
    {
        self.role = elevation_degree;
    }
}

/// A user as the client sees it.
#[derive(Clone, Debug)]
pub struct UserOnClient {
    pub id: String,
    pub display_name: String,
    pub role: String,
}

impl UserOnClient {
    /// The client's view of a stored user: everything but the password hash.
    pub fn from(user: User) -> (client: UserOnClient)
        ensures
            client.id == user.id,
            client.display_name == user.display_name,
            client.role == user.role,
    {
        UserOnClient { id: user.id, display_name: user.display_name, role: user.role }
    }
}

/// The fields of a user that an update writes back to the store (the store
/// stamps the update time itself).
#[derive(Clone, Debug)]
pub struct UpdateUser {
    pub display_name: Option<String>,
    pub role: Option<String>,
}

impl UpdateUser {
    /// The update that stores a user's current name and role.
    pub fn from(user: User) -> (update: UpdateUser)
        ensures
            update.display_name == Some(user.display_name),
            update.role == Some(user.role),
    {
        UpdateUser { display_name: Some(user.display_name), role: Some(user.role) }
    }
}

/// How a user signs in: an e-mail address, a mobile number, or a WorkOS id.
#[derive(Clone, Debug)]
pub enum Identifier {
    Email(String),
    Mobile(String),
    Workos(String),
}

impl Identifier {
    pub open spec fn spec_lookup(self) -> Option<(Seq<char>, Seq<char>)> {
        match self {
            Identifier::Email(v) => Some(("email"@, v@)),
            Identifier::Mobile(v) => Some(("mobile"@, v@)),
            Identifier::Workos(_) => None,
        }
    }

    /// The identifier type and value a password sign-in looks up; WorkOS
    /// identities cannot sign in with a password.
    pub fn login_lookup(&self) -> (lookup: Option<(&'static str, String)>)
        ensures
            match lookup {
                Some((kind, value)) => self.spec_lookup() == Some((kind@, value@)),
                None => self.spec_lookup() is None,
            },
    {
        match self {
            Identifier::Email(email) => Some(("email", email.clone())),
            Identifier::Mobile(mobile) => Some(("mobile", mobile.clone())),
            Identifier::Workos(_) => None,
        }
    }
}

/// A sign-in identifier as the client sees it.
#[derive(Clone, Debug)]
pub struct UserIdentifierOnClient {
    pub identifier_type: String,
    pub identifier_value: String,
}

/// Why a role elevation was refused.
#[derive(Clone, Debug)]
pub enum UserElevationError {
    DatabaseError(String),
    Unauthorized,
    TargetUserNotFound,
    AdminNotFound,
    AlreadyElevated(String),
    SelfElevationNotAllowed,
}

/// Elevates `target` to `elevation_degree` on behalf of `admin`.
///
/// Refused with `AdminNotFound` when the admin does not exist, `Unauthorized`
/// when the admin is not an app admin, `TargetUserNotFound` when the target does
/// not exist, and `AlreadyElevated("mosque supervisor")` when the target already
/// supervises mosques. Otherwise answers the elevated user and the message
/// `Elevated the user to <degree>`.
pub fn elevate_user(admin: Option<User>, target: Option<User>, elevation_degree: String) -> (result:
    Result<(User, String), UserElevationError>)
    ensures
        match admin {
            None => result matches Err(e) && e is AdminNotFound,
            Some(a) => if a.role@ != "app_admin"@ {
                result matches Err(e) && e is Unauthorized
            } else {
                match target {
                    None => result matches Err(e) && e is TargetUserNotFound,
                    Some(t) => if t.role@ == "mosque_supervisor"@ {
                        result matches Err(e) && e matches UserElevationError::AlreadyElevated(r)
                            && r@ == "mosque supervisor"@
                    } else {
                        result matches Ok((u, message)) && u.id == t.id && u.display_name
                            == t.display_name && u.password_hash == t.password_hash && u.role
                            == elevation_degree && message@ == "Elevated the user to "@
                            + elevation_degree@
                    },
                }
            },
        },
{
    match &admin {
        Some(a) => {
            if !a.is_app_admin() {
                return Err(UserElevationError::Unauthorized);
            }
        },
        None => {
            return Err(UserElevationError::AdminNotFound);
        },
    }
    let mut user = match target {
        Some(u) => u,
        None => {
            return Err(UserElevationError::TargetUserNotFound);
        },
    };
    if user.is_mosque_supervisor() {
        return Err(UserElevationError::AlreadyElevated("mosque supervisor".to_string()));
    }
    let mut message = "Elevated the user to ".to_string();
    message.append(elevation_degree.as_str());
    user.elevate_to(elevation_degree);
    Ok((user, message))
}

/// The HTTP status and message a refused elevation is answered with; `None` for
/// a store failure, which is answered as a server error instead.
pub fn elevation_error_response(error: &UserElevationError) -> (response: Option<(u16, String)>)
    ensures
        match error {
            UserElevationError::Unauthorized => response matches Some((status, msg)) && status
                == 401 && msg@ == "You are not authorized to perform this action"@,
            UserElevationError::AdminNotFound => response matches Some((status, msg)) && status
                == 401 && msg@ == "Admin user not found"@,
            UserElevationError::TargetUserNotFound => response matches Some((status, msg))
                && status == 404 && msg@ == "User to elevate not found"@,
            UserElevationError::AlreadyElevated(role) => response matches Some((status, msg))
                && status == 409 && msg@ == "User is already a "@ + role@,
            UserElevationError::SelfElevationNotAllowed => response matches Some((status, msg))
                && status == 400 && msg@ == "You cannot elevate yourself"@,
            UserElevationError::DatabaseError(_) => response is None,
        },
{
    match error {
        UserElevationError::Unauthorized => Some(
            (401, "You are not authorized to perform this action".to_string()),
        ),
        UserElevationError::AdminNotFound => Some((401, "Admin user not found".to_string())),
        UserElevationError::TargetUserNotFound => Some(
            (404, "User to elevate not found".to_string()),
        ),
        UserElevationError::AlreadyElevated(role) => {
            let mut msg = "User is already a ".to_string();
            msg.append(role.as_str());
            Some((409, msg))
        },
        UserElevationError::SelfElevationNotAllowed => Some(
            (400, "You cannot elevate yourself".to_string()),
        ),
        UserElevationError::DatabaseError(_) => None,
    }
}

/// Whether `granter` may make another user an admin of a mosque: only mosque
/// supervisors and app admins may; a missing granter is answered 404, any other
/// granter 401.
pub fn mosque_admin_grant_check(granter: &Option<User>) -> (allowed: Result<(), (u16, String)>)
    ensures
        match granter {
            None => allowed matches Err((status, msg)) && status == 404 && msg@
                == "The user trying to elevate other user's permission to mosque_admin is not a mosque_supervisor"@,
            Some(u) => if u.role@ == "mosque_supervisor"@ || u.role@ == "app_admin"@ {
                allowed is Ok
            } else {
                allowed matches Err((status, msg)) && status == 401 && msg@
                    == "The user trying to elevate other user's permission to mosque_admin is not a mosque_supervisor or app_admin"@
            },
        },
{
    match granter {
        None => Err(
            (
                404,
                "The user trying to elevate other user's permission to mosque_admin is not a mosque_supervisor".to_string(),
            ),
        ),
        Some(user) => {
            if !user.is_mosque_supervisor() && !user.is_app_admin() {
                Err(
                    (
                        401,
                        "The user trying to elevate other user's permission to mosque_admin is not a mosque_supervisor or app_admin".to_string(),
                    ),
                )
            } else {
                Ok(())
            }
        },
    }
}

/// Whether `editor` may change a mosque's prayer times: app admins always may,
/// other users only for a mosque they handle; a missing editor is refused.
pub fn prayer_times_update_check(editor: &Option<User>, handles_mosque: bool) -> (allowed: Result<
    (),
    (u16, String),
>)
    ensures
        match editor {
            None => allowed matches Err((status, msg)) && status == 401 && msg@
                == "The mosque admin was not found"@,
            Some(u) => if u.role@ == "app_admin"@ || handles_mosque {
                allowed is Ok
            } else {
                allowed matches Err((status, msg)) && status == 401 && msg@
                    == "The user trying to update mosque info is not an admin of that mosque"@
            },
        },
{
    match editor {
        None => Err((401, "The mosque admin was not found".to_string())),
        Some(user) => {
            if user.is_app_admin() || handles_mosque {
                Ok(())
            } else {
                Err(
                    (
                        401,
                        "The user trying to update mosque info is not an admin of that mosque".to_string(),
                    ),
                )
            }
        },
    }
}

} // verus!
