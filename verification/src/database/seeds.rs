//! Seeding the system tables: the statements that look for and insert the
//! Administrator role and policy, the default settings and the first admin
//! user, and the decisions between them.

use vstd::prelude::*;
use vstd::string::*;
use crate::auth::{argon2_hash, new_uuid_v4};
use crate::json::{member_get, members_view, obj_get, Json, JsonValue};
use super::{sql_views, DatabaseError, SqlSpec, SqlValue};

verus! {

broadcast use vstd::std_specs::vec::group_vec_axioms;

/// A row as the backend returns it: column names and values.
pub type Row = Vec<(String, JsonValue)>;

/// The statement that finds an administrator role.
pub fn role_check() -> (r: (String, Vec<SqlValue>))
    ensures
        r.0@ == "SELECT id FROM nexus_roles WHERE admin_access = $1"@,
        sql_views(r.1@) == seq![SqlSpec::Bool(true)],
{
    let b = vec![SqlValue::Bool(true)];
    assert(sql_views(b@) =~= seq![SqlSpec::Bool(true)]);
    (String::from_str("SELECT id FROM nexus_roles WHERE admin_access = $1"), b)
}

/// The statement that finds the first administrator role.
pub fn admin_role_lookup() -> (r: (String, Vec<SqlValue>))
    ensures
        r.0@ == "SELECT id FROM nexus_roles WHERE admin_access = $1 LIMIT 1"@,
        sql_views(r.1@) == seq![SqlSpec::Bool(true)],
{
    let b = vec![SqlValue::Bool(true)];
    assert(sql_views(b@) =~= seq![SqlSpec::Bool(true)]);
    (String::from_str("SELECT id FROM nexus_roles WHERE admin_access = $1 LIMIT 1"), b)
}

/// The statement that inserts the Administrator role with id `role_id`.
pub fn role_insert(role_id: String) -> (r: (String, Vec<SqlValue>))
    ensures
        r.0@ == "INSERT INTO nexus_roles (id, name, icon, description, admin_access, app_access) VALUES ($1, $2, $3, $4, $5, $6)"@,
        sql_views(r.1@) == seq![
            SqlSpec::Text(role_id@),
            SqlSpec::Text("Administrator"@),
            SqlSpec::Text("verified"@),
            SqlSpec::Text("$t:admin_description"@),
            SqlSpec::Bool(true),
            SqlSpec::Bool(true),
        ],
{
    let ghost idv = role_id@;
    let b = vec![
        SqlValue::Text(role_id),
        SqlValue::Text(String::from_str("Administrator")),
        SqlValue::Text(String::from_str("verified")),
        SqlValue::Text(String::from_str("$t:admin_description")),
        SqlValue::Bool(true),
        SqlValue::Bool(true),
    ];
    assert(sql_views(b@) =~= seq![
        SqlSpec::Text(idv),
        SqlSpec::Text("Administrator"@),
        SqlSpec::Text("verified"@),
        SqlSpec::Text("$t:admin_description"@),
        SqlSpec::Bool(true),
        SqlSpec::Bool(true),
    ]);
    (String::from_str("INSERT INTO nexus_roles (id, name, icon, description, admin_access, app_access) VALUES ($1, $2, $3, $4, $5, $6)"), b)
}

/// The statement that finds the first administrator policy.
pub fn admin_policy_lookup() -> (r: (String, Vec<SqlValue>))
    ensures
        r.0@ == "SELECT id FROM nexus_policies WHERE admin_access = $1 LIMIT 1"@,
        sql_views(r.1@) == seq![SqlSpec::Bool(true)],
{
    let b = vec![SqlValue::Bool(true)];
    assert(sql_views(b@) =~= seq![SqlSpec::Bool(true)]);
    (String::from_str("SELECT id FROM nexus_policies WHERE admin_access = $1 LIMIT 1"), b)
}

/// The statement that inserts the Administrator policy with id `policy_id`.
pub fn policy_insert(policy_id: String) -> (r: (String, Vec<SqlValue>))
    ensures
        r.0@ == "INSERT INTO nexus_policies (id, name, icon, description, admin_access, app_access) VALUES ($1, $2, $3, $4, $5, $6)"@,
        sql_views(r.1@) == seq![
            SqlSpec::Text(policy_id@),
            SqlSpec::Text("Administrator"@),
            SqlSpec::Text("verified"@),
            SqlSpec::Text("$t:admin_policy_description"@),
            SqlSpec::Bool(true),
            SqlSpec::Bool(true),
        ],
{
    let ghost idv = policy_id@;
    let b = vec![
        SqlValue::Text(policy_id),
        SqlValue::Text(String::from_str("Administrator")),
        SqlValue::Text(String::from_str("verified")),
        SqlValue::Text(String::from_str("$t:admin_policy_description")),
        SqlValue::Bool(true),
        SqlValue::Bool(true),
    ];
    assert(sql_views(b@) =~= seq![
        SqlSpec::Text(idv),
        SqlSpec::Text("Administrator"@),
        SqlSpec::Text("verified"@),
        SqlSpec::Text("$t:admin_policy_description"@),
        SqlSpec::Bool(true),
        SqlSpec::Bool(true),
    ]);
    (String::from_str("INSERT INTO nexus_policies (id, name, icon, description, admin_access, app_access) VALUES ($1, $2, $3, $4, $5, $6)"), b)
}

/// The statement that looks for any settings row.
pub fn settings_check() -> (r: (String, Vec<SqlValue>))
    ensures
        r.0@ == "SELECT id FROM nexus_settings LIMIT 1"@,
        r.1@.len() == 0,
{
    (String::from_str("SELECT id FROM nexus_settings LIMIT 1"), Vec::new())
}

/// The statement that inserts the default settings.
pub fn settings_insert() -> (r: (String, Vec<SqlValue>))
    ensures
        r.0@ == "INSERT INTO nexus_settings (project_name, project_color, default_language) VALUES ($1, $2, $3)"@,
        sql_views(r.1@) == seq![SqlSpec::Text("Nexus"@), SqlSpec::Text("#6644FF"@), SqlSpec::Text("en-US"@)],
{
    let b = vec![
        SqlValue::Text(String::from_str("Nexus")),
        SqlValue::Text(String::from_str("#6644FF")),
        SqlValue::Text(String::from_str("en-US")),
    ];
    assert(sql_views(b@) =~= seq![SqlSpec::Text("Nexus"@), SqlSpec::Text("#6644FF"@), SqlSpec::Text("en-US"@)]);
    (String::from_str("INSERT INTO nexus_settings (project_name, project_color, default_language) VALUES ($1, $2, $3)"), b)
}

/// The statement that finds a user by e-mail address.
pub fn user_lookup(email: &str) -> (r: (String, Vec<SqlValue>))
    ensures
        r.0@ == "SELECT id FROM nexus_users WHERE email = $1"@,
        sql_views(r.1@) == seq![SqlSpec::Text(email@)],
{
    let b = vec![SqlValue::Text(String::from_str(email))];
    assert(sql_views(b@) =~= seq![SqlSpec::Text(email@)]);
    (String::from_str("SELECT id FROM nexus_users WHERE email = $1"), b)
}

/// The statement that inserts the admin user: named Admin User, active,
/// signing in with the default provider.
pub fn user_insert(user_id: String, email: &str, password_hash: String, role_id: String) -> (r: (String, Vec<SqlValue>))
    ensures
        r.0@ == "INSERT INTO nexus_users (id, email, password, first_name, last_name, role, status, provider) VALUES ($1, $2, $3, $4, $5, $6, $7, $8)"@,
        sql_views(r.1@) == seq![
            SqlSpec::Text(user_id@),
            SqlSpec::Text(email@),
            SqlSpec::Text(password_hash@),
            SqlSpec::Text("Admin"@),
            SqlSpec::Text("User"@),
            SqlSpec::Text(role_id@),
            SqlSpec::Text("active"@),
            SqlSpec::Text("default"@),
        ],
{
    let ghost (u, h, ro) = (user_id@, password_hash@, role_id@);
    let b = vec![
        SqlValue::Text(user_id),
        SqlValue::Text(String::from_str(email)),
        SqlValue::Text(password_hash),
        SqlValue::Text(String::from_str("Admin")),
        SqlValue::Text(String::from_str("User")),
        SqlValue::Text(role_id),
        SqlValue::Text(String::from_str("active")),
        SqlValue::Text(String::from_str("default")),
    ];
    assert(sql_views(b@) =~= seq![
        SqlSpec::Text(u),
        SqlSpec::Text(email@),
        SqlSpec::Text(h),
        SqlSpec::Text("Admin"@),
        SqlSpec::Text("User"@),
        SqlSpec::Text(ro),
        SqlSpec::Text("active"@),
        SqlSpec::Text("default"@),
    ]);
    (String::from_str("INSERT INTO nexus_users (id, email, password, first_name, last_name, role, status, provider) VALUES ($1, $2, $3, $4, $5, $6, $7, $8)"), b)
}

/// The statement that finds the access entry of a role and a policy.
pub fn access_lookup(role_id: &str, policy_id: &str) -> (r: (String, Vec<SqlValue>))
    ensures
        r.0@ == "SELECT id FROM nexus_access WHERE role = $1 AND policy = $2"@,
        sql_views(r.1@) == seq![SqlSpec::Text(role_id@), SqlSpec::Text(policy_id@)],
{
    let b = vec![SqlValue::Text(String::from_str(role_id)), SqlValue::Text(String::from_str(policy_id))];
    assert(sql_views(b@) =~= seq![SqlSpec::Text(role_id@), SqlSpec::Text(policy_id@)]);
    (String::from_str("SELECT id FROM nexus_access WHERE role = $1 AND policy = $2"), b)
}

/// The statement that gives a role a policy (sort 1).
pub fn access_insert(access_id: String, role_id: String, policy_id: String) -> (r: (String, Vec<SqlValue>))
    ensures
        r.0@ == "INSERT INTO nexus_access (id, role, policy, sort) VALUES ($1, $2, $3, $4)"@,
        sql_views(r.1@) == seq![SqlSpec::Text(access_id@), SqlSpec::Text(role_id@), SqlSpec::Text(policy_id@), SqlSpec::Int(1)],
{
    let ghost (a, ro, p) = (access_id@, role_id@, policy_id@);
    let b = vec![SqlValue::Text(access_id), SqlValue::Text(role_id), SqlValue::Text(policy_id), SqlValue::Int(1)];
    assert(sql_views(b@) =~= seq![SqlSpec::Text(a), SqlSpec::Text(ro), SqlSpec::Text(p), SqlSpec::Int(1)]);
    (String::from_str("INSERT INTO nexus_access (id, role, policy, sort) VALUES ($1, $2, $3, $4)"), b)
}

/// Whether a lookup calls for seeding: it succeeded and found nothing (a
/// failed lookup means the table is not there yet, and seeding is skipped).
pub fn needs_seed(lookup: &Result<Vec<Row>, DatabaseError>) -> (r: bool)
    ensures
        r == (lookup matches Ok(rows) && rows@.len() == 0),
{
    match lookup {
        Ok(rows) => rows.len() == 0,
        Err(_) => false,
    }
}

/// The `id` of the first row, when it is a string.
pub open spec fn first_id(rows: Seq<Row>) -> Option<Seq<char>> {
    if rows.len() == 0 {
        None
    } else {
        match obj_get(members_view(rows[0]@), "id"@) {
            Some(Json::Str(s)) => Some(s),
            _ => None,
        }
    }
}

/// The `id` of the first row found, when it is a string; the existing
/// record to use instead of creating one.
pub fn first_row_id(rows: &Vec<Row>) -> (r: Option<String>)
    ensures
        match r {
            Some(s) => first_id(rows@) == Some(s@),
            None => first_id(rows@) is None,
        },
{
    if rows.len() == 0 {
        return None;
    }
    match member_get(&rows[0], "id") {
        Some(v) => match v.as_str() {
            Some(s) => Some(String::from_str(s)),
            None => None,
        },
        None => None,
    }
}

/// A fresh record id: a random version-4 UUID in its hyphenated form.
pub fn new_record_id() -> (r: String)
    ensures
        crate::auth::uuid_v4_text(r@),
{
    new_uuid_v4()
}

/// Hashes the admin password (Argon2, random salt); a failure is a query
/// error `Failed to hash password: ...`. A hash it returns verifies the password.
pub fn hash_admin_password(password: &str) -> (r: Result<String, DatabaseError>)
    ensures
        r matches Ok(h) ==> crate::auth::password_verifies(password@, h@),
        r matches Err(e) ==> (e matches DatabaseError::Query(m) && is_prefix_of_msg(m@)),
{
    match argon2_hash(password) {
        Ok(h) => Ok(h),
        Err(e) => {
            let mut m = String::from_str("Failed to hash password: ");
            let ghost lit = m@;
            m.append(e.as_str());
            assert(m@.subrange(0, lit.len() as int) =~= lit);
            Err(DatabaseError::Query(m))
        },
    }
}

/// Whether a message reports a hashing failure.
pub open spec fn is_prefix_of_msg(m: Seq<char>) -> bool {
    crate::text::is_prefix("Failed to hash password: "@, m)
}

} // verus!
