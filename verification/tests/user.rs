use orcs::user::{DefaultUserService, UserProfile, UserService};

#[test]
fn service_test_default_user_service() {
    let service = DefaultUserService::default();
    assert_eq!(service.get_user_name(), "user");
}

#[test]
fn user_service_test_default_user_service() {
    let service = DefaultUserService::default();
    assert_eq!(service.get_user_name(), "user");
}

#[test]
fn default_profile() {
    let p = UserProfile::default();
    assert_eq!(p.nickname, "You");
    assert_eq!(p.background, "");
    let q = DefaultUserService::default().get_user_profile();
    assert_eq!(q.nickname, "You");
}
