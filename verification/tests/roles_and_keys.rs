use api0_types::{PlatformRole, SetRoleRequest, UserRole};

#[test]
fn roles_use_snake_case_on_the_wire() {
    assert_eq!(PlatformRole::SuperAdmin.wire_str(), "super_admin");
}

#[test]
fn admin_privileges_nest_correctly() {
    assert!(PlatformRole::SuperAdmin.is_admin());
    assert!(PlatformRole::Admin.is_admin());
    assert!(!PlatformRole::Admin.is_super_admin());
    assert!(!PlatformRole::User.is_admin());
}

#[test]
fn role_wire_names_read_back() {
    for role in [PlatformRole::SuperAdmin, PlatformRole::Admin, PlatformRole::User] {
        assert_eq!(PlatformRole::from_wire_name(role.wire_str()), Some(role));
        assert!(!role.is_super_admin() || role.is_admin());
    }
    assert_eq!(PlatformRole::Admin.wire_str(), "admin");
    assert_eq!(PlatformRole::User.wire_str(), "user");
    assert_eq!(PlatformRole::from_wire_name("owner"), None);
    assert_eq!(PlatformRole::from_wire_name("SuperAdmin"), None);
    assert_eq!(PlatformRole::from_wire_name(""), None);
}

#[test]
fn role_records_carry_the_role() {
    let granted = UserRole {
        email: "a@example.com".to_string(),
        role: PlatformRole::Admin,
        granted_by: Some("root@example.com".to_string()),
        granted_at: None,
    };
    let request = SetRoleRequest {
        email: granted.email.clone(),
        role: granted.role,
        granted_by: "root@example.com".to_string(),
    };
    assert!(request.role.is_admin());
    assert!(!request.role.is_super_admin());
}
