//! API keys, key validation, tenants and platform roles.

use vstd::prelude::*;

use crate::text::{same_text, snake_case};

verus! {

#[derive(Debug, Clone)]
pub struct Tenant {
    pub id: String,
    pub name: String,
    pub credit_balance: i64,
    pub created_at: String,
}

#[derive(Debug, Clone)]
pub struct TenantUser {
    pub tenant_id: String,
    pub email: String,
    /// "owner" or "member".
    pub role: String,
}

/// A key as listed to its owner; `last_used` is left off the wire when absent.
#[derive(Debug, Clone)]
pub struct ApiKeyInfo {
    pub id: String,
    pub key_prefix: String,
    pub key_name: String,
    pub generated_at: String,
    pub last_used: Option<String>,
    pub usage_count: i64,
}

/// The `/api/user/key/<tenant_id>` payload: keys plus the tenant's balance.
#[derive(Debug, Clone)]
pub struct KeyPreference {
    pub has_keys: bool,
    pub active_key_count: usize,
    pub keys: Vec<ApiKeyInfo>,
    pub balance: i64,
    pub tenant_id: String,
    pub tenant_name: String,
}

#[derive(Debug, Clone)]
pub struct GenerateKeyRequest {
    pub email: String,
    pub key_name: String,
    /// Tenant to associate the key with. Defaults to the user's personal tenant.
    pub tenant_id: Option<String>,
    /// When set, the key is a consumer key scoped to this provider tenant.
    pub provider_tenant_id: Option<String>,
}

/// A freshly minted key. The raw `key` is returned exactly once.
///
/// `keyPrefix` is camelCase on the wire: that is the shape the dashboard and
/// the OAuth token exchange already consume.
#[derive(Debug, Clone)]
pub struct GeneratedKey {
    pub success: bool,
    pub message: Option<String>,
    pub key: String,
    pub key_prefix: String,
}

#[derive(Debug, Clone)]
pub struct ValidateKeyRequest {
    pub api_key: String,
    pub expected_tenant_id: Option<String>,
}

#[derive(Debug, Clone)]
pub struct ValidateKeyResponse {
    pub valid: bool,
    pub email: Option<String>,
    pub key_id: Option<String>,
    /// The tenant that owns this API key (used for credit deduction).
    pub tenant_id: Option<String>,
    /// If set, this is a consumer key: tools come from this provider tenant,
    /// but credits are deducted from the consumer's tenant (`tenant_id` above).
    pub provider_tenant_id: Option<String>,
    pub message: String,
}

/// A provider tenant as resolved from an OAuth `client_id`
/// (`GET /api/tenant/by-client-id/<client_id>`).
#[derive(Debug, Clone)]
pub struct ProviderInfo {
    pub tenant_id: String,
    pub name: String,
    /// Standard Google OAuth 2.0 Web Client ID registered by the provider.
    /// When set, the authorize page uses Google Identity Services with this
    /// client_id and the gateway validates the resulting ID token against it.
    pub google_client_id: Option<String>,
}

/// Body of `PUT /api/user/mcp-client-id`.
#[derive(Debug, Clone)]
pub struct SetClientIdRequest {
    pub email: String,
    pub mcp_client_id: Option<String>,
    pub google_client_id: Option<String>,
}

/// Platform-level role. Users without a row are [`PlatformRole::User`].
#[derive(Debug, Clone, Copy, PartialEq, Eq, Structural)]
pub enum PlatformRole {
    SuperAdmin,
    Admin,
    User,
}

impl PlatformRole {
    /// The roles that may reach the admin surface.
    pub open spec fn admin(self) -> bool {
        self == PlatformRole::SuperAdmin || self == PlatformRole::Admin
    }

    /// The one role that may grant or revoke other users' roles.
    pub open spec fn super_admin(self) -> bool {
        self == PlatformRole::SuperAdmin
    }

    /// The snake_case spelling of each role on the wire.
    pub open spec fn wire_name(self) -> Seq<char> {
        match self {
            PlatformRole::SuperAdmin => "super_admin"@,
            PlatformRole::Admin => "admin"@,
            PlatformRole::User => "user"@,
        }
    }

    /// The name that the role's `Debug` form prints: the variant's own name.
    pub open spec fn variant_name(self) -> Seq<char> {
        match self {
            PlatformRole::SuperAdmin => "SuperAdmin"@,
            PlatformRole::Admin => "Admin"@,
            PlatformRole::User => "User"@,
        }
    }

    /// The role a wire spelling names, if it names one.
    pub open spec fn read_wire_name(name: Seq<char>) -> Option<PlatformRole> {
        if name == PlatformRole::SuperAdmin.wire_name() {
            Some(PlatformRole::SuperAdmin)
        } else if name == PlatformRole::Admin.wire_name() {
            Some(PlatformRole::Admin)
        } else if name == PlatformRole::User.wire_name() {
            Some(PlatformRole::User)
        } else {
            None
        }
    }

    /// Whether this role may reach the admin surface.
    pub fn is_admin(self) -> (admin: bool)
        ensures
            admin == self.admin(),
            admin <==> (self == PlatformRole::SuperAdmin || self == PlatformRole::Admin),
    {
        match self {
            PlatformRole::SuperAdmin | PlatformRole::Admin => true,
            PlatformRole::User => false,
        }
    }

    /// Whether this role may grant or revoke other users' roles.
    pub fn is_super_admin(self) -> (super_admin: bool)
        ensures
            super_admin == self.super_admin(),
            super_admin <==> self == PlatformRole::SuperAdmin,
    {
        match self {
            PlatformRole::SuperAdmin => true,
            _ => false,
        }
    }

    /// The snake_case spelling of the role on the wire.
    pub fn wire_str(self) -> (name: &'static str)
        ensures
            name@ == self.wire_name(),
            name@ == snake_case(self.variant_name()),
            self == PlatformRole::SuperAdmin ==> name@ == "super_admin"@,
            self == PlatformRole::Admin ==> name@ == "admin"@,
            self == PlatformRole::User ==> name@ == "user"@,
    {
        proof {
            lemma_role_wire_name_is_snake_case(self);
        }
        match self {
            PlatformRole::SuperAdmin => "super_admin",
            PlatformRole::Admin => "admin",
            PlatformRole::User => "user",
        }
    }

    /// Reads a wire spelling back into a role; `None` for a spelling that
    /// names no role.
    pub fn from_wire_name(name: &str) -> (role: Option<PlatformRole>)
        ensures
            role == PlatformRole::read_wire_name(name@),
            name@ == "super_admin"@ ==> role == Some(PlatformRole::SuperAdmin),
            name@ == "admin"@ ==> role == Some(PlatformRole::Admin),
            name@ == "user"@ ==> role == Some(PlatformRole::User),
            (name@ != "super_admin"@ && name@ != "admin"@ && name@ != "user"@) ==> role is None,
            role matches Some(r) ==> r.wire_name() == name@,
    {
        proof {
            lemma_role_spellings();
        }
        if same_text(name, "super_admin") {
            Some(PlatformRole::SuperAdmin)
        } else if same_text(name, "admin") {
            Some(PlatformRole::Admin)
        } else if same_text(name, "user") {
            Some(PlatformRole::User)
        } else {
            None
        }
    }
}

#[derive(Debug, Clone)]
pub struct UserRole {
    pub email: String,
    pub role: PlatformRole,
    pub granted_by: Option<String>,
    pub granted_at: Option<String>,
}

#[derive(Debug, Clone)]
pub struct SetRoleRequest {
    pub email: String,
    pub role: PlatformRole,
    /// Injected by the gateway from the verified caller, never trusted from the body.
    pub granted_by: String,
}

/// The privileges of each role: exactly the super admin may grant or revoke
/// roles, and exactly the super admin and the admin may reach the admin
/// surface.
pub proof fn lemma_role_privileges(role: PlatformRole)
    ensures
        role.super_admin() <==> role == PlatformRole::SuperAdmin,
        role.admin() <==> (role == PlatformRole::SuperAdmin || role == PlatformRole::Admin),
        role.admin() <==> role != PlatformRole::User,
{
}

/// Each role is spelt on the wire as the snake_case of its variant name, the
/// spelling serde's `rename_all = "snake_case"` gives it.
pub proof fn lemma_role_wire_name_is_snake_case(role: PlatformRole)
    ensures
        role.wire_name() == snake_case(role.variant_name()),
{
    match role {
        PlatformRole::SuperAdmin => {
            reveal_strlit("SuperAdmin");
            reveal_strlit("super_admin");
            reveal_with_fuel(crate::text::snake_case_rest, 11);
            assert(snake_case("SuperAdmin"@) =~= "super_admin"@);
        },
        PlatformRole::Admin => {
            reveal_strlit("Admin");
            reveal_strlit("admin");
            reveal_with_fuel(crate::text::snake_case_rest, 6);
            assert(snake_case("Admin"@) =~= "admin"@);
        },
        PlatformRole::User => {
            reveal_strlit("User");
            reveal_strlit("user");
            reveal_with_fuel(crate::text::snake_case_rest, 5);
            assert(snake_case("User"@) =~= "user"@);
        },
    }
}

/// The wire spelling of every role, and how each reads back, written out.
pub proof fn lemma_role_spellings()
    ensures
        PlatformRole::SuperAdmin.wire_name() == "super_admin"@,
        PlatformRole::Admin.wire_name() == "admin"@,
        PlatformRole::User.wire_name() == "user"@,
        PlatformRole::read_wire_name("super_admin"@) == Some(PlatformRole::SuperAdmin),
        PlatformRole::read_wire_name("admin"@) == Some(PlatformRole::Admin),
        PlatformRole::read_wire_name("user"@) == Some(PlatformRole::User),
        PlatformRole::SuperAdmin.variant_name() == "SuperAdmin"@,
        PlatformRole::Admin.variant_name() == "Admin"@,
        PlatformRole::User.variant_name() == "User"@,
{
    lemma_role_wire_name_round_trip(PlatformRole::SuperAdmin);
    lemma_role_wire_name_round_trip(PlatformRole::Admin);
    lemma_role_wire_name_round_trip(PlatformRole::User);
}

/// Admin privileges nest: whoever may grant roles may also reach the admin
/// surface, and an ordinary user may do neither.
pub proof fn lemma_admin_privileges_nest(role: PlatformRole)
    ensures
        role.super_admin() ==> role.admin(),
        role == PlatformRole::User ==> !role.admin() && !role.super_admin(),
{
}

/// Writing a role on the wire and reading it back gives the same role.
pub proof fn lemma_role_wire_name_round_trip(role: PlatformRole)
    ensures
        PlatformRole::read_wire_name(role.wire_name()) == Some(role),
{
    reveal_strlit("super_admin");
    reveal_strlit("admin");
    reveal_strlit("user");
    assert(PlatformRole::SuperAdmin.wire_name().len() == 11);
    assert(PlatformRole::Admin.wire_name().len() == 5);
    assert(PlatformRole::User.wire_name().len() == 4);
}

} // verus!
