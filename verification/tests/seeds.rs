use nexus::database::seeds::{
    access_insert, admin_role_lookup, first_row_id, hash_admin_password, needs_seed, new_record_id, role_check,
    role_insert, settings_insert, user_insert, user_lookup,
};
use nexus::database::{DatabaseError, SqlValue};
use nexus::json::{JsonNumber, JsonValue};

fn text(v: &SqlValue) -> String {
    match v {
        SqlValue::Text(t) => t.clone(),
        SqlValue::Bool(b) => b.to_string(),
        SqlValue::Int(i) => i.to_string(),
        _ => "?".to_string(),
    }
}

#[test]
fn role_statements() {
    let (sql, b) = role_check();
    assert_eq!(sql, "SELECT id FROM nexus_roles WHERE admin_access = $1");
    assert_eq!(b.iter().map(text).collect::<Vec<_>>(), vec!["true"]);
    assert!(admin_role_lookup().0.ends_with("LIMIT 1"));
    let (sql, b) = role_insert("r1".to_string());
    assert!(sql.starts_with("INSERT INTO nexus_roles"));
    assert_eq!(b.iter().map(text).collect::<Vec<_>>(), vec!["r1", "Administrator", "verified", "$t:admin_description", "true", "true"]);
}

#[test]
fn user_and_access_statements() {
    let (sql, b) = user_lookup("a@b");
    assert_eq!(sql, "SELECT id FROM nexus_users WHERE email = $1");
    assert_eq!(text(&b[0]), "a@b");
    let (_, b) = user_insert("u".to_string(), "a@b", "h".to_string(), "r".to_string());
    assert_eq!(b.iter().map(text).collect::<Vec<_>>(), vec!["u", "a@b", "h", "Admin", "User", "r", "active", "default"]);
    let (sql, b) = access_insert("x".to_string(), "r".to_string(), "p".to_string());
    assert_eq!(sql, "INSERT INTO nexus_access (id, role, policy, sort) VALUES ($1, $2, $3, $4)");
    assert_eq!(b.iter().map(text).collect::<Vec<_>>(), vec!["x", "r", "p", "1"]);
    let (_, b) = settings_insert();
    assert_eq!(b.iter().map(text).collect::<Vec<_>>(), vec!["Nexus", "#6644FF", "en-US"]);
}

#[test]
fn seeding_decisions() {
    assert!(needs_seed(&Ok(vec![])));
    assert!(!needs_seed(&Ok(vec![vec![("id".to_string(), JsonValue::Null)]])));
    assert!(!needs_seed(&Err(DatabaseError::Query("no table".to_string()))));
    assert_eq!(first_row_id(&vec![vec![("id".to_string(), JsonValue::String("r9".to_string()))]]), Some("r9".to_string()));
    assert_eq!(first_row_id(&vec![vec![("id".to_string(), JsonValue::Number(JsonNumber::PosInt(3)))]]), None);
    assert_eq!(first_row_id(&vec![]), None);
    assert_eq!(new_record_id().len(), 36);
    assert!(hash_admin_password("pw").unwrap().starts_with("$argon2"));
}
