//! The session's authentication data, owned by the caller and handed to the
//! functions that need it.

use vstd::prelude::*;

use crate::game::GameState;

verus! {

/// The answer of the login service.
#[derive(Debug)]
pub struct LoginResponse {
    pub return_value: bool,
    pub return_code: i32,
    pub msg: String,
    pub character_count: String,
    pub permission: i32,
    pub privilege: i32,
    pub user_no: i32,
    pub user_name: String,
    pub auth_key: String,
}

/// The account data of a logged-in user.
#[derive(Debug)]
pub struct AuthInfo {
    pub character_count: String,
    pub permission: i32,
    pub privilege: i32,
    pub user_no: i32,
    pub user_name: String,
    pub auth_key: String,
}

impl AuthInfo {
    /// The account data that a login answer carries.
    pub fn from_login(r: &LoginResponse) -> (a: AuthInfo)
        ensures
            a.character_count == r.character_count,
            a.permission == r.permission,
            a.privilege == r.privilege,
            a.user_no == r.user_no,
            a.user_name == r.user_name,
            a.auth_key == r.auth_key,
    {
        AuthInfo {
            character_count: r.character_count.clone(),
            permission: r.permission,
            privilege: r.privilege,
            user_no: r.user_no,
            user_name: r.user_name.clone(),
            auth_key: r.auth_key.clone(),
        }
    }
}

/// What a game launch needs of the session.
#[derive(Debug)]
pub struct GlobalAuthInfo {
    pub character_count: String,
    pub user_no: i32,
    pub user_name: String,
    pub auth_key: String,
}

impl GlobalAuthInfo {
    /// Whether no user is logged in: every field empty or zero.
    pub open spec fn is_cleared(&self) -> bool {
        &&& self.character_count@.len() == 0
        &&& self.user_no == 0
        &&& self.user_name@.len() == 0
        &&& self.auth_key@.len() == 0
    }

    /// No user logged in.
    pub fn new() -> (r: GlobalAuthInfo)
        ensures
            r.is_cleared(),
    {
        GlobalAuthInfo {
            character_count: String::new(),
            user_no: 0,
            user_name: String::new(),
            auth_key: String::new(),
        }
    }
}

/// Records the session data that the front end obtained at login.
pub fn set_auth_info(
    info: &mut GlobalAuthInfo,
    auth_key: String,
    user_name: String,
    user_no: i32,
    character_count: String,
)
    ensures
        final(info).auth_key == auth_key,
        final(info).user_name == user_name,
        final(info).user_no == user_no,
        final(info).character_count == character_count,
{
    info.auth_key = auth_key;
    info.user_name = user_name;
    info.user_no = user_no;
    info.character_count = character_count;
}

/// Logs out: no launch is under way any more and the session data is forgotten.
pub fn handle_logout(state: &mut GameState, info: &mut GlobalAuthInfo)
    ensures
        !final(state).launching(),
        final(info).is_cleared(),
{
    state.reset();
    info.auth_key = String::new();
    info.user_name = String::new();
    info.user_no = 0;
    info.character_count = String::new();
}

} // verus!
