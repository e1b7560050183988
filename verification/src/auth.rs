//! Identity and authorisation: legacy user roles, PAS roles, the mapping
//! from token claims to PAS roles, and the identity attached to a request.

use vstd::prelude::*;
use crate::insurance::opt_text;
use crate::text::{strings_view, ascii_lower_seq, ascii_lowercase_chars, chars_eq_str, chars_of, trim_chars, trim_seq};

verus! {

/// Legacy development roles.
#[derive(Debug, Clone, Copy, PartialEq, Eq, Hash, Structural)]
pub enum UserRole {
    Consumer,
    Broker,
    Agent,
    Insurer,
    Regulator,
}

/// The snake_case name of a legacy role.
pub open spec fn user_role_name(r: UserRole) -> Seq<char> {
    match r {
        UserRole::Consumer => "consumer"@,
        UserRole::Broker => "broker"@,
        UserRole::Agent => "agent"@,
        UserRole::Insurer => "insurer"@,
        UserRole::Regulator => "regulator"@,
    }
}

impl UserRole {
    /// Parses the exact snake_case name of a role.
    pub fn parse(s: &str) -> (r: Option<UserRole>)
        ensures
            r matches Some(role) ==> user_role_name(role) == s@,
            r is None ==> forall|role: UserRole| user_role_name(role) != s@,
    {
        let v = chars_of(s);
        if chars_eq_str(&v, "consumer") {
            Some(UserRole::Consumer)
        } else if chars_eq_str(&v, "broker") {
            Some(UserRole::Broker)
        } else if chars_eq_str(&v, "agent") {
            Some(UserRole::Agent)
        } else if chars_eq_str(&v, "insurer") {
            Some(UserRole::Insurer)
        } else if chars_eq_str(&v, "regulator") {
            Some(UserRole::Regulator)
        } else {
            assert forall|role: UserRole| user_role_name(role) != s@ by {
                match role {
                    UserRole::Consumer => {},
                    UserRole::Broker => {},
                    UserRole::Agent => {},
                    UserRole::Insurer => {},
                    UserRole::Regulator => {},
                }
            }
            None
        }
    }

    /// The snake_case name of the role (what `Display` prints).
    pub fn name(&self) -> (s: &'static str)
        ensures
            s@ == user_role_name(*self),
    {
        match self {
            UserRole::Consumer => "consumer",
            UserRole::Broker => "broker",
            UserRole::Agent => "agent",
            UserRole::Insurer => "insurer",
            UserRole::Regulator => "regulator",
        }
    }
}

/// Payload of a locally issued development token.
#[derive(Debug, Clone, Copy)]
pub struct Claims {
    /// The user's UUID.
    pub sub: u128,
    pub role: UserRole,
    /// Issued-at, Unix seconds.
    pub iat: i64,
    /// Expiry, Unix seconds.
    pub exp: i64,
}

/// Roles the API authorises against.
#[derive(Debug, Clone, Copy, PartialEq, Eq, Hash, Structural)]
pub enum PasRole {
    Admin,
    Agent,
    Underwriter,
    Customer,
}

/// The role a raw `roles`/`groups` claim grants: the claim is trimmed and
/// ASCII-lowercased, then looked up among the known aliases.
pub open spec fn claim_role(raw: Seq<char>) -> Option<PasRole> {
    let n = ascii_lower_seq(trim_seq(raw));
    if n == "admin"@ || n == "pas.admin"@ || n == "administrator"@ {
        Some(PasRole::Admin)
    } else if n == "agent"@ || n == "pas.agent"@ {
        Some(PasRole::Agent)
    } else if n == "underwriter"@ || n == "pas.underwriter"@ {
        Some(PasRole::Underwriter)
    } else if n == "customer"@ || n == "pas.customer"@ || n == "consumer"@ {
        Some(PasRole::Customer)
    } else {
        None
    }
}

/// The PAS role a legacy role maps to.
pub open spec fn legacy_role(role: UserRole) -> PasRole {
    match role {
        UserRole::Consumer => PasRole::Customer,
        UserRole::Agent => PasRole::Agent,
        UserRole::Broker => PasRole::Agent,
        UserRole::Insurer => PasRole::Underwriter,
        UserRole::Regulator => PasRole::Admin,
    }
}

impl PasRole {
    /// Maps a raw claim value to a PAS role; unrecognised values map to
    /// `None` rather than to a default role.
    pub fn from_claim(raw: &str) -> (r: Option<Self>)
        ensures
            r == claim_role(raw@),
    {
        let n = ascii_lowercase_chars(&trim_chars(&chars_of(raw)));
        if chars_eq_str(&n, "admin") || chars_eq_str(&n, "pas.admin") || chars_eq_str(
            &n,
            "administrator",
        ) {
            Some(PasRole::Admin)
        } else if chars_eq_str(&n, "agent") || chars_eq_str(&n, "pas.agent") {
            Some(PasRole::Agent)
        } else if chars_eq_str(&n, "underwriter") || chars_eq_str(&n, "pas.underwriter") {
            Some(PasRole::Underwriter)
        } else if chars_eq_str(&n, "customer") || chars_eq_str(&n, "pas.customer")
            || chars_eq_str(&n, "consumer") {
            Some(PasRole::Customer)
        } else {
            None
        }
    }

    /// Maps a legacy development role to a PAS role; every legacy role has one.
    pub fn from_user_role(role: UserRole) -> (r: Option<Self>)
        ensures
            r == Some(legacy_role(role)),
    {
        match role {
            UserRole::Consumer => Some(PasRole::Customer),
            UserRole::Agent | UserRole::Broker => Some(PasRole::Agent),
            UserRole::Insurer => Some(PasRole::Underwriter),
            UserRole::Regulator => Some(PasRole::Admin),
        }
    }
}

/// Where a request's identity was established.
#[derive(Debug, Clone, Copy, PartialEq, Eq, Structural)]
pub enum AuthSource {
    Entra,
    DevLocal,
}

/// The authenticated identity attached to a request.
#[derive(Debug)]
pub struct AuthenticatedUser {
    pub oid: String,
    pub email: Option<String>,
    pub name: Option<String>,
    pub tenant_id: Option<String>,
    /// Raw role and group claims, for audit.
    pub raw_roles: Vec<String>,
    /// Roles mapped from the claims.
    pub pas_roles: Vec<PasRole>,
    pub source: AuthSource,
}

/// Whether some role of `held` is among `allowed`.
pub open spec fn shares_role(held: Seq<PasRole>, allowed: Seq<PasRole>) -> bool {
    exists|i: int, j: int|
        0 <= i < held.len() && 0 <= j < allowed.len() && #[trigger] held[i] == #[trigger] allowed[j]
}

impl AuthenticatedUser {
    /// Whether the user holds at least one of the `allowed` roles.
    pub fn has_any_role(&self, allowed: &[PasRole]) -> (b: bool)
        ensures
            b == shares_role(self.pas_roles@, allowed@),
    {
        let mut i: usize = 0;
        while i < self.pas_roles.len()
            invariant
                i <= self.pas_roles@.len(),
                forall|a: int, j: int|
                    0 <= a < i && 0 <= j < allowed@.len() ==> #[trigger] self.pas_roles@[a]
                        != #[trigger] allowed@[j],
            decreases self.pas_roles.len() - i,
        {
            let mut j: usize = 0;
            while j < allowed.len()
                invariant
                    i < self.pas_roles@.len(),
                    j <= allowed@.len(),
                    forall|a: int, k: int|
                        0 <= a < i && 0 <= k < allowed@.len() ==> #[trigger] self.pas_roles@[a]
                            != #[trigger] allowed@[k],
                    forall|k: int| 0 <= k < j ==> self.pas_roles@[i as int] != #[trigger] allowed@[k],
                decreases allowed.len() - j,
            {
                if self.pas_roles[i] == allowed[j] {
                    return true;
                }
                j = j + 1;
            }
            i = i + 1;
        }
        false
    }
}

// ── Entra token claims ─────────────────────────────────────────────────────

/// The claims of a cryptographically validated Entra access token that the
/// API reads (signature, issuer, audience and expiry already checked).
#[derive(Debug)]
pub struct EntraClaims {
    pub sub: String,
    pub oid: Option<String>,
    pub tid: Option<String>,
    pub email: Option<String>,
    pub preferred_username: Option<String>,
    pub upn: Option<String>,
    pub name: Option<String>,
    pub roles: Vec<String>,
    pub groups: Vec<String>,
}

/// Why a validated token is still refused.
#[derive(Debug, PartialEq, Eq)]
pub enum ClaimsRejection {
    /// The token's `tid` is not the configured tenant.
    TenantMismatch { token_tenant: String, configured_tenant: String },
}

/// Whether some raw claim maps to role `r`.
pub open spec fn grants(raw: Seq<Seq<char>>, r: PasRole) -> bool {
    exists|i: int| 0 <= i < raw.len() && #[trigger] claim_role(raw[i]) == Some(r)
}

/// The PAS roles granted by `raw`, each once, ordered by role name
/// (Admin, Agent, Customer, Underwriter).
pub open spec fn granted_roles(raw: Seq<Seq<char>>) -> Seq<PasRole> {
    (if grants(raw, PasRole::Admin) { seq![PasRole::Admin] } else { seq![] }) + (if grants(
        raw,
        PasRole::Agent,
    ) {
        seq![PasRole::Agent]
    } else {
        seq![]
    }) + (if grants(raw, PasRole::Customer) {
        seq![PasRole::Customer]
    } else {
        seq![]
    }) + (if grants(raw, PasRole::Underwriter) {
        seq![PasRole::Underwriter]
    } else {
        seq![]
    })
}

fn clone_strings(v: &Vec<String>) -> (r: Vec<String>)
    ensures
        r@ == v@,
{
    let mut r: Vec<String> = Vec::new();
    let mut i: usize = 0;
    while i < v.len()
        invariant
            i <= v.len(),
            r@ == v@.subrange(0, i as int),
        decreases v.len() - i,
    {
        r.push(v[i].clone());
        i = i + 1;
        assert(r@ =~= v@.subrange(0, i as int));
    }
    assert(r@ =~= v@);
    r
}

/// The PAS roles granted by a list of raw claims, each once, in role-name
/// order; unrecognised claims grant nothing.
pub fn map_claim_roles(raw: &Vec<String>) -> (r: Vec<PasRole>)
    ensures
        r@ == granted_roles(strings_view(raw@)),
{
    let ghost rv = strings_view(raw@);
    let mut admin = false;
    let mut agent = false;
    let mut customer = false;
    let mut underwriter = false;
    let mut i: usize = 0;
    while i < raw.len()
        invariant
            i <= raw@.len(),
            rv == strings_view(raw@),
            admin == exists|k: int| 0 <= k < i && #[trigger] claim_role(rv[k]) == Some(
                PasRole::Admin,
            ),
            agent == exists|k: int| 0 <= k < i && #[trigger] claim_role(rv[k]) == Some(
                PasRole::Agent,
            ),
            customer == exists|k: int| 0 <= k < i && #[trigger] claim_role(rv[k]) == Some(
                PasRole::Customer,
            ),
            underwriter == exists|k: int| 0 <= k < i && #[trigger] claim_role(rv[k]) == Some(
                PasRole::Underwriter,
            ),
        decreases raw.len() - i,
    {
        let role = PasRole::from_claim(raw[i].as_str());
        assert(rv[i as int] == raw@[i as int]@);
        match role {
            Some(PasRole::Admin) => {
                admin = true;
            },
            Some(PasRole::Agent) => {
                agent = true;
            },
            Some(PasRole::Customer) => {
                customer = true;
            },
            Some(PasRole::Underwriter) => {
                underwriter = true;
            },
            None => {},
        }
        i = i + 1;
    }
    let mut r: Vec<PasRole> = Vec::new();
    if admin {
        r.push(PasRole::Admin);
    }
    if agent {
        r.push(PasRole::Agent);
    }
    if customer {
        r.push(PasRole::Customer);
    }
    if underwriter {
        r.push(PasRole::Underwriter);
    }
    assert(r@ =~= granted_roles(rv));
    r
}

/// The identity of a validated Entra token for the configured tenant.
pub open spec fn token_user_ok(
    claims: EntraClaims,
    user: AuthenticatedUser,
) -> bool {
    let raw = claims.roles@ + claims.groups@;
    &&& user.oid@ == (match claims.oid {
        Some(o) => if o@.len() > 0 { o@ } else { claims.sub@ },
        None => claims.sub@,
    })
    &&& user.email == (match claims.email {
        Some(e) => Some(e),
        None => match claims.preferred_username {
            Some(p) => Some(p),
            None => claims.upn,
        },
    })
    &&& user.name == claims.name
    &&& user.tenant_id == claims.tid
    &&& user.raw_roles@ == raw
    &&& user.pas_roles@ == granted_roles(strings_view(raw))
    &&& user.source == AuthSource::Entra
}

/// Turns the claims of a validated token into the request identity. A token
/// whose `tid` names another tenant is refused; the object id falls back to
/// `sub` when `oid` is absent or empty; raw roles are `roles` then `groups`.
pub fn authenticated_user_from_claims(claims: EntraClaims, tenant_id: &str) -> (r: Result<
    AuthenticatedUser,
    ClaimsRejection,
>)
    ensures
        r is Err <==> (claims.tid matches Some(t) && t@ != tenant_id@),
        r matches Ok(user) ==> token_user_ok(claims, user),
        r matches Err(ClaimsRejection::TenantMismatch { token_tenant, configured_tenant }) ==> (
        claims.tid matches Some(t) && token_tenant@ == t@) && configured_tenant@ == tenant_id@,
{
    if let Some(tid) = &claims.tid {
        let tv = chars_of(tid.as_str());
        if !chars_eq_str(&tv, tenant_id) {
            return Err(
                ClaimsRejection::TenantMismatch {
                    token_tenant: tid.clone(),
                    configured_tenant: String::from_str(tenant_id),
                },
            );
        }
    }
    let oid = match &claims.oid {
        Some(o) => if o.as_str().unicode_len() > 0 {
            o.clone()
        } else {
            claims.sub.clone()
        },
        None => claims.sub.clone(),
    };
    let mut raw_roles = clone_strings(&claims.roles);
    let mut groups = clone_strings(&claims.groups);
    raw_roles.append(&mut groups);
    let pas_roles = map_claim_roles(&raw_roles);
    let email = match claims.email {
        Some(e) => Some(e),
        None => match claims.preferred_username {
            Some(p) => Some(p),
            None => claims.upn,
        },
    };
    Ok(
        AuthenticatedUser {
            oid,
            email,
            name: claims.name,
            tenant_id: claims.tid,
            raw_roles,
            pas_roles,
            source: AuthSource::Entra,
        },
    )
}

proof fn lemma_concat_contains<A>(a: Seq<A>, b: Seq<A>, x: A)
    ensures
        (a + b).contains(x) <==> a.contains(x) || b.contains(x),
{
    if a.contains(x) {
        let i = choose|i: int| 0 <= i < a.len() && a[i] == x;
        assert((a + b)[i] == x);
    }
    if b.contains(x) {
        let i = choose|i: int| 0 <= i < b.len() && b[i] == x;
        assert((a + b)[a.len() + i] == x);
    }
    if (a + b).contains(x) {
        let i = choose|i: int| 0 <= i < (a + b).len() && (a + b)[i] == x;
        if i < a.len() {
            assert(a[i] == x);
        } else {
            assert(b[i - a.len()] == x);
        }
    }
}

proof fn lemma_optional_role_contains(present: bool, role: PasRole, r: PasRole)
    ensures
        (if present { seq![role] } else { Seq::<PasRole>::empty() }).contains(r) <==> (present
            && role == r),
{
    if present && role == r {
        assert(seq![role][0] == r);
    }
}

/// Unrecognised claims never grant a role: a role is granted exactly when
/// some claim names it, and claims that name no role grant nothing.
pub proof fn lemma_roles_only_from_recognised_claims(raw: Seq<Seq<char>>, r: PasRole)
    ensures
        granted_roles(raw).contains(r) <==> grants(raw, r),
        (forall|i: int| 0 <= i < raw.len() ==> #[trigger] claim_role(raw[i]) is None)
            ==> granted_roles(raw).len() == 0,
{
    let sa = if grants(raw, PasRole::Admin) { seq![PasRole::Admin] } else { seq![] };
    let sb = if grants(raw, PasRole::Agent) { seq![PasRole::Agent] } else { seq![] };
    let sc = if grants(raw, PasRole::Customer) { seq![PasRole::Customer] } else { seq![] };
    let sd = if grants(raw, PasRole::Underwriter) { seq![PasRole::Underwriter] } else { seq![] };
    lemma_optional_role_contains(grants(raw, PasRole::Admin), PasRole::Admin, r);
    lemma_optional_role_contains(grants(raw, PasRole::Agent), PasRole::Agent, r);
    lemma_optional_role_contains(grants(raw, PasRole::Customer), PasRole::Customer, r);
    lemma_optional_role_contains(grants(raw, PasRole::Underwriter), PasRole::Underwriter, r);
    lemma_concat_contains(sa, sb, r);
    lemma_concat_contains(sa + sb, sc, r);
    lemma_concat_contains(sa + sb + sc, sd, r);
    assert(granted_roles(raw) == sa + sb + sc + sd);
}

/// Where an Entra tenant's tokens come from: the v2 issuer (or a
/// configured override), the v1 issuer, and the OIDC discovery document.
#[derive(Debug)]
pub struct EntraEndpoints {
    pub issuer_v2: String,
    pub issuer_v1: String,
    pub discovery_url: String,
}

/// The v2 issuer: a non-blank override as given, else the tenant's
/// `login.microsoftonline.com` v2.0 issuer.
pub open spec fn issuer_v2_text(tenant_id: Seq<char>, issuer_override: Option<Seq<char>>) -> Seq<char> {
    let default = "https://login.microsoftonline.com/"@ + tenant_id + "/v2.0"@;
    match issuer_override {
        Some(o) => if trim_seq(o).len() > 0 {
            o
        } else {
            default
        },
        None => default,
    }
}

pub fn entra_endpoints(tenant_id: &str, issuer_override: Option<String>) -> (r: EntraEndpoints)
    ensures
        r.issuer_v2@ == issuer_v2_text(tenant_id@, opt_text(issuer_override)),
        r.issuer_v1@ == "https://sts.windows.net/"@ + tenant_id@ + "/"@,
        r.discovery_url@ == "https://login.microsoftonline.com/"@ + tenant_id@
            + "/v2.0/.well-known/openid-configuration"@,
{
    let issuer_v2 = match issuer_override {
        Some(o) if trim_chars(&chars_of(o.as_str())).len() > 0 => o,
        _ => {
            let mut s = String::from_str("https://login.microsoftonline.com/");
            s.append(tenant_id);
            s.append("/v2.0");
            s
        },
    };
    let mut issuer_v1 = String::from_str("https://sts.windows.net/");
    issuer_v1.append(tenant_id);
    issuer_v1.append("/");
    let mut discovery_url = String::from_str("https://login.microsoftonline.com/");
    discovery_url.append(tenant_id);
    discovery_url.append("/v2.0/.well-known/openid-configuration");
    EntraEndpoints { issuer_v2, issuer_v1, discovery_url }
}

/// How long fetched signing keys are trusted, in seconds (a day).
pub const JWKS_TTL_SECS: u64 = 86_400;

/// Whether cached signing keys fetched `elapsed_nanos` ago may still be
/// used; older ones are fetched again.
pub fn jwks_cache_fresh(elapsed_nanos: u128) -> (r: bool)
    ensures
        r == (elapsed_nanos < JWKS_TTL_SECS * 1_000_000_000),
{
    elapsed_nanos < 86_400_000_000_000
}

} // verus!
