use nexus::stores::auth_state::{AuthState, AuthStatus};
use nexus::stores::collections::{Collection, CollectionsStore};
use nexus::stores::fields::{Field, FieldsStore};
use nexus::stores::notifications::{Notification, NotificationsStore};
use nexus::stores::relations::{Relation, RelationsStore};
use nexus::stores::server::{ProjectInfo, ServerInfo, ServerStore};
use nexus::stores::settings::{Settings, SettingsStore};
use nexus::stores::user::CurrentUser;

fn collection(name: &str, hidden: bool) -> Collection {
    Collection {
        collection: name.to_string(),
        icon: None,
        note: None,
        display_template: None,
        hidden,
        singleton: false,
        sort: None,
        accountability: None,
        color: None,
        group: None,
        collapse: None,
        translations: None,
        versioning: false,
        sort_field: None,
        archive_field: None,
        archive_value: None,
        unarchive_value: None,
    }
}

fn field(collection: &str, name: &str, sort: Option<i32>, hidden: bool) -> Field {
    Field {
        id: None,
        collection: collection.to_string(),
        field: name.to_string(),
        special: None,
        field_type: None,
        interface: None,
        options: None,
        display: None,
        display_options: None,
        readonly: false,
        hidden,
        sort,
        width: None,
        translations: None,
        note: None,
        required: false,
        group: None,
        validation: None,
        validation_message: None,
        conditions: None,
    }
}

fn relation(many: &str, one: Option<&str>) -> Relation {
    Relation {
        id: None,
        many_collection: many.to_string(),
        many_field: "f".to_string(),
        one_collection: one.map(|o| o.to_string()),
        one_field: None,
        one_collection_field: None,
        one_allowed_collections: None,
        junction_field: None,
        sort_field: None,
        one_deselect_action: None,
    }
}

fn user(first: Option<&str>, last: Option<&str>, email: Option<&str>) -> CurrentUser {
    CurrentUser {
        id: "u1".to_string(),
        first_name: first.map(|s| s.to_string()),
        last_name: last.map(|s| s.to_string()),
        email: email.map(|s| s.to_string()),
        avatar: None,
        language: None,
        status: None,
        role: None,
        appearance: None,
        title: None,
        last_page: None,
        theme_dark: None,
        theme_light: None,
        extra: vec![],
    }
}

fn notification(id: i64, status: Option<&str>) -> Notification {
    Notification {
        id,
        status: status.map(|s| s.to_string()),
        subject: None,
        message: None,
        timestamp: None,
        sender: None,
        collection: None,
        item: None,
    }
}

#[test]
fn system_collections_and_icons() {
    let mut c = collection("nexus_users", false);
    assert!(c.is_system());
    assert_eq!(c.display_icon(), "database");
    c.icon = Some("person".to_string());
    assert_eq!(c.display_icon(), "person");
    assert!(!collection("articles", false).is_system());
}

#[test]
fn only_visible_collections_are_listed() {
    let mut store = CollectionsStore::new();
    store.collections = vec![
        collection("articles", false),
        collection("nexus_roles", false),
        collection("drafts", true),
        collection("pages", false),
    ];
    let names: Vec<String> = store.visible_collections().into_iter().map(|c| c.collection).collect();
    assert_eq!(names, vec!["articles".to_string(), "pages".to_string()]);
    assert!(store.get_collection("drafts").is_some());
    assert!(store.get_collection("missing").is_none());
}

#[test]
fn field_labels_and_widths() {
    let mut f = field("a", "author_first_name", None, false);
    assert_eq!(f.display_name(), "Author First Name");
    f.field = "__id  x".to_string();
    assert_eq!(f.display_name(), "Id X");
    assert_eq!(f.width_class(), "full");
    f.width = Some("half-left".to_string());
    assert_eq!(f.width_class(), "half-left");
    f.width = Some("third".to_string());
    assert_eq!(f.width_class(), "full");
}

#[test]
fn fields_of_a_collection_are_sorted_stably() {
    let mut store = FieldsStore::new();
    store.fields = vec![
        field("a", "unsorted", None, false),
        field("a", "second", Some(2), false),
        field("b", "other", Some(1), false),
        field("a", "first", Some(1), false),
        field("a", "hidden", Some(0), true),
        field("a", "also_second", Some(2), false),
    ];
    let shown: Vec<String> = store.for_collection("a").into_iter().map(|f| f.field).collect();
    assert_eq!(shown, vec!["unsorted", "second", "first", "also_second"]);
    let sorted: Vec<String> = store.visible_for_collection("a").into_iter().map(|f| f.field).collect();
    assert_eq!(sorted, vec!["first", "second", "also_second", "unsorted"]);
}

#[test]
fn relations_on_either_side() {
    let mut store = RelationsStore::new();
    store.relations = vec![relation("articles", Some("users")), relation("comments", Some("articles")), relation("x", None)];
    assert_eq!(store.for_collection("articles").len(), 2);
    assert_eq!(store.for_collection("users").len(), 1);
    assert_eq!(store.for_collection("y").len(), 0);
}

#[test]
fn settings_fall_back_to_defaults() {
    let store = SettingsStore::new();
    assert_eq!(store.settings.display_name(), "Nexus");
    assert_eq!(store.settings.theme_color(), "#6644FF");
    let mut s = Settings::default();
    s.project_name = Some("Acme".to_string());
    s.project_color = Some("#000".to_string());
    assert_eq!(s.display_name(), "Acme");
    assert_eq!(s.theme_color(), "#000");
}

#[test]
fn user_names() {
    assert_eq!(user(Some("Ada"), Some("Lovelace"), None).display_name(), "Ada Lovelace");
    assert_eq!(user(Some("Ada"), None, Some("a@b.c")).display_name(), "Ada");
    assert_eq!(user(None, Some("Lovelace"), None).display_name(), "Lovelace");
    assert_eq!(user(None, None, Some("a@b.c")).display_name(), "a@b.c");
    assert_eq!(user(None, None, None).display_name(), "User");
}

#[test]
fn unread_notifications_are_counted() {
    let mut store = NotificationsStore::new();
    store.apply_fetch(vec![notification(1, Some("inbox")), notification(2, Some("archived")), notification(3, Some("inbox")), notification(4, None)]);
    assert_eq!(store.unread_count, 2);
    assert_eq!(store.notifications.len(), 4);
}

#[test]
fn session_follows_request_outcomes() {
    let mut s = AuthState::new(false);
    assert!(!s.is_authenticated());
    s.start_login();
    assert!(s.loading);
    assert_eq!(s.finish_login(Err("bad".to_string())), Err("bad".to_string()));
    assert_eq!(s.status, AuthStatus::Unauthenticated);
    assert_eq!(s.error.as_deref(), Some("bad"));
    assert!(!s.loading);
    assert!(s.finish_login(Ok(())).is_ok());
    assert!(s.is_authenticated());
    assert!(!s.finish_refresh(false));
    assert!(!s.is_authenticated());
    let mut t = AuthState::new(true);
    assert!(t.is_authenticated());
    t.finish_logout();
    assert_eq!(t.status, AuthStatus::Unauthenticated);
}

fn project(name: &str) -> ProjectInfo {
    ProjectInfo {
        project_name: Some(name.to_string()),
        project_color: None,
        project_logo: None,
        public_foreground: None,
        public_background: None,
        public_note: None,
        default_language: None,
        extra: Vec::new(),
    }
}

#[test]
fn server_store_keeps_last_good_info() {
    let mut store = ServerStore::new();
    assert!(store.info.is_none());
    assert!(!store.loading);
    store.loading = true;
    store.finish_fetch(Some(ServerInfo { project: Some(project("Acme")) }));
    assert!(!store.loading);
    assert_eq!(store.info.as_ref().unwrap().project.as_ref().unwrap().project_name.as_deref(), Some("Acme"));
    store.loading = true;
    store.finish_fetch(None);
    assert!(!store.loading);
    assert_eq!(store.info.as_ref().unwrap().project.as_ref().unwrap().project_name.as_deref(), Some("Acme"));
}
