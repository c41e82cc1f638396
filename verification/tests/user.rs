use merzah::user::{
    elevate_user, elevation_error_response, mosque_admin_grant_check, prayer_times_update_check,
    Identifier, UpdateUser, User, UserElevationError, UserOnClient,
};

fn user(id: &str, role: &str) -> User {
    User {
        id: id.to_string(),
        display_name: format!("name of {id}"),
        password_hash: "hash".to_string(),
        role: role.to_string(),
    }
}

#[test]
fn roles_are_recognised() {
    assert!(user("u:1", "app_admin").is_app_admin());
    assert!(!user("u:1", "App_Admin").is_app_admin());
    assert!(user("u:1", "mosque_supervisor").is_mosque_supervisor());
    assert!(!user("u:1", "user").is_mosque_supervisor());
}

#[test]
fn elevation_succeeds_for_admins() {
    let (elevated, message) =
        elevate_user(Some(user("u:1", "app_admin")), Some(user("u:2", "user")), "mosque_supervisor".to_string())
            .unwrap();
    assert_eq!(elevated.id, "u:2");
    assert_eq!(elevated.role, "mosque_supervisor");
    assert_eq!(elevated.password_hash, "hash");
    assert_eq!(message, "Elevated the user to mosque_supervisor");
}

#[test]
fn elevation_refusals() {
    let degree = || "mosque_supervisor".to_string();
    assert!(matches!(elevate_user(None, Some(user("u:2", "user")), degree()), Err(UserElevationError::AdminNotFound)));
    assert!(matches!(
        elevate_user(Some(user("u:1", "educator")), Some(user("u:2", "user")), degree()),
        Err(UserElevationError::Unauthorized)
    ));
    assert!(matches!(
        elevate_user(Some(user("u:1", "app_admin")), None, degree()),
        Err(UserElevationError::TargetUserNotFound)
    ));
    match elevate_user(Some(user("u:1", "app_admin")), Some(user("u:2", "mosque_supervisor")), degree()) {
        Err(UserElevationError::AlreadyElevated(role)) => assert_eq!(role, "mosque supervisor"),
        other => panic!("expected AlreadyElevated, got {:?}", other),
    }
}

#[test]
fn elevation_errors_map_to_responses() {
    assert_eq!(
        elevation_error_response(&UserElevationError::Unauthorized),
        Some((401, "You are not authorized to perform this action".to_string()))
    );
    assert_eq!(
        elevation_error_response(&UserElevationError::AdminNotFound),
        Some((401, "Admin user not found".to_string()))
    );
    assert_eq!(
        elevation_error_response(&UserElevationError::TargetUserNotFound),
        Some((404, "User to elevate not found".to_string()))
    );
    assert_eq!(
        elevation_error_response(&UserElevationError::AlreadyElevated("mosque supervisor".to_string())),
        Some((409, "User is already a mosque supervisor".to_string()))
    );
    assert_eq!(
        elevation_error_response(&UserElevationError::SelfElevationNotAllowed),
        Some((400, "You cannot elevate yourself".to_string()))
    );
    assert_eq!(elevation_error_response(&UserElevationError::DatabaseError("down".to_string())), None);
}

#[test]
fn login_lookup_by_identifier() {
    assert_eq!(Identifier::Email("a@b.c".to_string()).login_lookup(), Some(("email", "a@b.c".to_string())));
    assert_eq!(Identifier::Mobile("+44 1".to_string()).login_lookup(), Some(("mobile", "+44 1".to_string())));
    assert_eq!(Identifier::Workos("w".to_string()).login_lookup(), None);
}

#[test]
fn client_user_drops_password_hash() {
    let client = UserOnClient::from(user("u:3", "educator"));
    assert_eq!((client.id.as_str(), client.role.as_str()), ("u:3", "educator"));
    assert_eq!(client.display_name, "name of u:3");
}

#[test]
fn mosque_admin_grants() {
    assert!(mosque_admin_grant_check(&Some(user("u:1", "mosque_supervisor"))).is_ok());
    assert!(mosque_admin_grant_check(&Some(user("u:1", "app_admin"))).is_ok());
    assert_eq!(mosque_admin_grant_check(&Some(user("u:1", "user"))).unwrap_err().0, 401);
    assert_eq!(mosque_admin_grant_check(&None).unwrap_err().0, 404);
}

#[test]
fn prayer_time_updates() {
    assert!(prayer_times_update_check(&Some(user("u:1", "app_admin")), false).is_ok());
    assert!(prayer_times_update_check(&Some(user("u:1", "user")), true).is_ok());
    assert_eq!(
        prayer_times_update_check(&Some(user("u:1", "user")), false),
        Err((401, "The user trying to update mosque info is not an admin of that mosque".to_string()))
    );
    assert_eq!(
        prayer_times_update_check(&None, true),
        Err((401, "The mosque admin was not found".to_string()))
    );
}

#[test]
fn update_writes_name_and_role() {
    let update = UpdateUser::from(user("u:4", "mosque_supervisor"));
    assert_eq!(update.display_name.as_deref(), Some("name of u:4"));
    assert_eq!(update.role.as_deref(), Some("mosque_supervisor"));
}
