//! User profile and the service that names the current user.

use vstd::prelude::*;

verus! {

/// User profile: display name (nickname) and background/bio.
#[derive(Debug, Clone)]
pub struct UserProfile {
    /// User's display nickname
    pub nickname: String,
    /// User's background or bio
    pub background: String,
}

impl Default for UserProfile {
    /// The profile of a user who has not configured one: nickname "You", empty background.
    fn default() -> (r: Self)
        ensures
            r.nickname@ == "You"@,
            r.background@ == Seq::<char>::empty(),
    {
        UserProfile { nickname: String::from_str("You"), background: String::new() }
    }
}

/// Service for retrieving information about the current user.
pub trait UserService {
    /// Returns the current user's display name.
    fn get_user_name(&self) -> String;

    /// Returns the complete user profile.
    fn get_user_profile(&self) -> UserProfile;
}

/// Single-user implementation that returns constant values.
#[derive(Debug, Clone)]
pub struct DefaultUserService;

impl Default for DefaultUserService {
    /// Creates the service.
    fn default() -> (r: Self)
        ensures
            r == DefaultUserService,
    {
        DefaultUserService
    }
}

impl UserService for DefaultUserService {
    /// Always "user".
    fn get_user_name(&self) -> (r: String)
        ensures
            r@ == "user"@,
    {
        String::from_str("user")
    }

    /// Always the default profile.
    fn get_user_profile(&self) -> (r: UserProfile)
        ensures
            r.nickname@ == "You"@,
            r.background@ == Seq::<char>::empty(),
    {
        UserProfile::default()
    }
}

} // verus!
