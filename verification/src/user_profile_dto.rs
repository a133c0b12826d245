//! Versioned user profile records.
//!
//! - 1.0 → 1.1: adds `background` (empty)

use vstd::prelude::*;
use crate::user::UserProfile;

verus! {

/// User profile record 1.0.0 (nickname only).
#[derive(Debug, Clone)]
pub struct UserProfileV1_0 {
    /// User's display nickname.
    pub nickname: String,
}

/// User profile record 1.1.0 (adds the background).
#[derive(Debug, Clone)]
pub struct UserProfileV1_1 {
    /// User's display nickname.
    pub nickname: String,
    /// User's background or bio.
    pub background: String,
}

impl Default for UserProfileV1_1 {
    /// Nickname "You", empty background.
    fn default() -> (r: Self)
        ensures
            r.nickname@ == "You"@,
            r.background@ == Seq::<char>::empty(),
    {
        UserProfileV1_1 { nickname: String::from_str("You"), background: String::new() }
    }
}

impl UserProfileV1_0 {
    /// 1.0 → 1.1: empty background.
    pub fn migrate(self) -> (r: UserProfileV1_1)
        ensures
            r.nickname == self.nickname,
            r.background@ == Seq::<char>::empty(),
    {
        UserProfileV1_1 { nickname: self.nickname, background: String::new() }
    }
}

impl UserProfileV1_1 {
    /// Reads the record as a profile.
    pub fn into_domain(self) -> (r: UserProfile)
        ensures
            r.nickname == self.nickname,
            r.background == self.background,
    {
        UserProfile { nickname: self.nickname, background: self.background }
    }

    /// Stores a profile in this record.
    pub fn from_domain(profile: UserProfile) -> (r: Self)
        ensures
            r.nickname == profile.nickname,
            r.background == profile.background,
    {
        UserProfileV1_1 { nickname: profile.nickname, background: profile.background }
    }
}

} // verus!
