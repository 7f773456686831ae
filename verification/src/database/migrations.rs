//! Schema migrations: the built-in migration list, which of them are still
//! pending, and how each one is run.

use vstd::prelude::*;
use vstd::string::*;
use crate::text::{chars_of, split_chars, split_on, string_of, trim, trim_str, views};
use super::{spec_database_error_message, DatabaseError, Dialect, SqlValue};
use crate::json::{member_get, members_view, obj_get, Json, JsonValue};

verus! {

/// One migration: a version key, a name, and its SQL for each dialect
/// family (statements separated by `;`).
#[derive(Debug)]
pub struct Migration {
    pub version: String,
    pub name: String,
    pub sql_postgres: &'static str,
    pub sql_mysql: &'static str,
    pub sql_sqlite: &'static str,
}

/// The versions of the built-in migrations, in the order they run.
pub open spec fn migration_versions() -> Seq<Seq<char>> {
    seq!["20240101A"@, "20240101B"@, "20240101C"@, "20240101D"@, "20240101E"@, "20240101F"@, "20240101G"@, "20240101H"@, "20240101I"@, "20240101J"@, "20240101K"@, "20240101L"@, "20240101M"@, "20240101N"@, "20240101O"@]
}

/// The names of the built-in migrations, in the order they run.
pub open spec fn migration_names() -> Seq<Seq<char>> {
    seq!["Create Roles Table"@, "Create Users Table"@, "Create Sessions Table"@, "Create Collections Table"@, "Create Fields Table"@, "Create Relations Table"@, "Create Policies Table"@, "Create Permissions Table"@, "Create Access Table"@, "Create Files and Folders Tables"@, "Create Activity and Revisions Tables"@, "Create Settings and Presets Tables"@, "Create Dashboards, Panels, Notifications Tables"@, "Create Flows and Operations Tables"@, "Create Webhooks, Shares, Translations, Versions, Comments Tables"@]
}

/// The PostgreSQL statements of migration 20240101A (Create Roles Table).
pub const ROLES_POSTGRES: &'static str = "
                CREATE TABLE IF NOT EXISTS nexus_roles (
                    id UUID PRIMARY KEY,
                    name VARCHAR(100) NOT NULL,
                    icon VARCHAR(64) DEFAULT 'supervised_user_circle',
                    description TEXT,
                    parent UUID REFERENCES nexus_roles(id),
                    enforce_tfa BOOLEAN DEFAULT FALSE,
                    admin_access BOOLEAN DEFAULT FALSE,
                    app_access BOOLEAN DEFAULT TRUE,
                    created_at TIMESTAMP DEFAULT CURRENT_TIMESTAMP,
                    updated_at TIMESTAMP DEFAULT CURRENT_TIMESTAMP
                )";

/// The MySQL statements of migration 20240101A (Create Roles Table).
pub const ROLES_MYSQL: &'static str = "
                CREATE TABLE IF NOT EXISTS nexus_roles (
                    id CHAR(36) PRIMARY KEY,
                    name VARCHAR(100) NOT NULL,
                    icon VARCHAR(64) DEFAULT 'supervised_user_circle',
                    description TEXT,
                    parent CHAR(36),
                    enforce_tfa BOOLEAN DEFAULT FALSE,
                    admin_access BOOLEAN DEFAULT FALSE,
                    app_access BOOLEAN DEFAULT TRUE,
                    created_at TIMESTAMP DEFAULT CURRENT_TIMESTAMP,
                    updated_at TIMESTAMP DEFAULT CURRENT_TIMESTAMP ON UPDATE CURRENT_TIMESTAMP
                )";

/// The SQLite statements of migration 20240101A (Create Roles Table).
pub const ROLES_SQLITE: &'static str = "
                CREATE TABLE IF NOT EXISTS nexus_roles (
                    id TEXT PRIMARY KEY,
                    name TEXT NOT NULL,
                    icon TEXT DEFAULT 'supervised_user_circle',
                    description TEXT,
                    parent TEXT REFERENCES nexus_roles(id),
                    enforce_tfa INTEGER DEFAULT 0,
                    admin_access INTEGER DEFAULT 0,
                    app_access INTEGER DEFAULT 1,
                    created_at TEXT DEFAULT (datetime('now')),
                    updated_at TEXT DEFAULT (datetime('now'))
                )";

/// The PostgreSQL statements of migration 20240101B (Create Users Table).
pub const USERS_POSTGRES: &'static str = "
                CREATE TABLE IF NOT EXISTS nexus_users (
                    id UUID PRIMARY KEY,
                    first_name VARCHAR(50),
                    last_name VARCHAR(50),
                    email VARCHAR(128) UNIQUE,
                    password VARCHAR(255),
                    location VARCHAR(255),
                    title VARCHAR(50),
                    description TEXT,
                    tags JSON,
                    avatar UUID,
                    language VARCHAR(16) DEFAULT 'en-US',
                    tfa_secret VARCHAR(255),
                    status VARCHAR(16) DEFAULT 'active',
                    role UUID REFERENCES nexus_roles(id),
                    token VARCHAR(255) UNIQUE,
                    last_access TIMESTAMP,
                    last_page VARCHAR(255),
                    provider VARCHAR(128) DEFAULT 'default',
                    external_identifier VARCHAR(255),
                    auth_data JSON,
                    email_notifications BOOLEAN DEFAULT TRUE,
                    appearance VARCHAR(32) DEFAULT 'auto',
                    theme_dark VARCHAR(255),
                    theme_light VARCHAR(255),
                    theme_dark_overrides JSON,
                    theme_light_overrides JSON,
                    created_at TIMESTAMP DEFAULT CURRENT_TIMESTAMP,
                    updated_at TIMESTAMP DEFAULT CURRENT_TIMESTAMP
                )";

/// The MySQL statements of migration 20240101B (Create Users Table).
pub const USERS_MYSQL: &'static str = "
                CREATE TABLE IF NOT EXISTS nexus_users (
                    id CHAR(36) PRIMARY KEY,
                    first_name VARCHAR(50),
                    last_name VARCHAR(50),
                    email VARCHAR(128) UNIQUE,
                    password VARCHAR(255),
                    location VARCHAR(255),
                    title VARCHAR(50),
                    description TEXT,
                    tags JSON,
                    avatar CHAR(36),
                    language VARCHAR(16) DEFAULT 'en-US',
                    tfa_secret VARCHAR(255),
                    status VARCHAR(16) DEFAULT 'active',
                    role CHAR(36),
                    token VARCHAR(255) UNIQUE,
                    last_access TIMESTAMP NULL,
                    last_page VARCHAR(255),
                    provider VARCHAR(128) DEFAULT 'default',
                    external_identifier VARCHAR(255),
                    auth_data JSON,
                    email_notifications BOOLEAN DEFAULT TRUE,
                    appearance VARCHAR(32) DEFAULT 'auto',
                    theme_dark VARCHAR(255),
                    theme_light VARCHAR(255),
                    theme_dark_overrides JSON,
                    theme_light_overrides JSON,
                    created_at TIMESTAMP DEFAULT CURRENT_TIMESTAMP,
                    updated_at TIMESTAMP DEFAULT CURRENT_TIMESTAMP ON UPDATE CURRENT_TIMESTAMP
                )";

/// The SQLite statements of migration 20240101B (Create Users Table).
pub const USERS_SQLITE: &'static str = "
                CREATE TABLE IF NOT EXISTS nexus_users (
                    id TEXT PRIMARY KEY,
                    first_name TEXT,
                    last_name TEXT,
                    email TEXT UNIQUE,
                    password TEXT,
                    location TEXT,
                    title TEXT,
                    description TEXT,
                    tags TEXT,
                    avatar TEXT,
                    language TEXT DEFAULT 'en-US',
                    tfa_secret TEXT,
                    status TEXT DEFAULT 'active',
                    role TEXT REFERENCES nexus_roles(id),
                    token TEXT UNIQUE,
                    last_access TEXT,
                    last_page TEXT,
                    provider TEXT DEFAULT 'default',
                    external_identifier TEXT,
                    auth_data TEXT,
                    email_notifications INTEGER DEFAULT 1,
                    appearance TEXT DEFAULT 'auto',
                    theme_dark TEXT,
                    theme_light TEXT,
                    theme_dark_overrides TEXT,
                    theme_light_overrides TEXT,
                    created_at TEXT DEFAULT (datetime('now')),
                    updated_at TEXT DEFAULT (datetime('now'))
                )";

/// The PostgreSQL statements of migration 20240101C (Create Sessions Table).
pub const SESSIONS_POSTGRES: &'static str = "
                CREATE TABLE IF NOT EXISTS nexus_sessions (
                    token VARCHAR(64) PRIMARY KEY,
                    \"user\" UUID REFERENCES nexus_users(id) ON DELETE CASCADE,
                    expires TIMESTAMP NOT NULL,
                    ip VARCHAR(255),
                    user_agent TEXT,
                    share UUID,
                    origin VARCHAR(255),
                    next_token VARCHAR(64),
                    created_at TIMESTAMP DEFAULT CURRENT_TIMESTAMP
                )";

/// The MySQL statements of migration 20240101C (Create Sessions Table).
pub const SESSIONS_MYSQL: &'static str = "
                CREATE TABLE IF NOT EXISTS nexus_sessions (
                    token VARCHAR(64) PRIMARY KEY,
                    user CHAR(36),
                    expires TIMESTAMP NOT NULL,
                    ip VARCHAR(255),
                    user_agent TEXT,
                    share CHAR(36),
                    origin VARCHAR(255),
                    next_token VARCHAR(64),
                    created_at TIMESTAMP DEFAULT CURRENT_TIMESTAMP
                )";

/// The SQLite statements of migration 20240101C (Create Sessions Table).
pub const SESSIONS_SQLITE: &'static str = "
                CREATE TABLE IF NOT EXISTS nexus_sessions (
                    token TEXT PRIMARY KEY,
                    user TEXT REFERENCES nexus_users(id) ON DELETE CASCADE,
                    expires TEXT NOT NULL,
                    ip TEXT,
                    user_agent TEXT,
                    share TEXT,
                    origin TEXT,
                    next_token TEXT,
                    created_at TEXT DEFAULT (datetime('now'))
                )";

/// The PostgreSQL statements of migration 20240101D (Create Collections Table).
pub const COLLECTIONS_POSTGRES: &'static str = "
                CREATE TABLE IF NOT EXISTS nexus_collections (
                    collection VARCHAR(64) PRIMARY KEY,
                    icon VARCHAR(64),
                    note TEXT,
                    display_template VARCHAR(255),
                    hidden BOOLEAN DEFAULT FALSE,
                    singleton BOOLEAN DEFAULT FALSE,
                    translations JSON,
                    archive_field VARCHAR(64),
                    archive_app_filter BOOLEAN DEFAULT TRUE,
                    archive_value VARCHAR(255),
                    unarchive_value VARCHAR(255),
                    sort_field VARCHAR(64),
                    accountability VARCHAR(16) DEFAULT 'all',
                    color VARCHAR(16),
                    item_duplication_fields JSON,
                    sort INT,
                    \"group\" VARCHAR(64) REFERENCES nexus_collections(collection),
                    collapse VARCHAR(16) DEFAULT 'open',
                    preview_url VARCHAR(255),
                    versioning BOOLEAN DEFAULT FALSE
                )";

/// The MySQL statements of migration 20240101D (Create Collections Table).
pub const COLLECTIONS_MYSQL: &'static str = "
                CREATE TABLE IF NOT EXISTS nexus_collections (
                    collection VARCHAR(64) PRIMARY KEY,
                    icon VARCHAR(64),
                    note TEXT,
                    display_template VARCHAR(255),
                    hidden BOOLEAN DEFAULT FALSE,
                    singleton BOOLEAN DEFAULT FALSE,
                    translations JSON,
                    archive_field VARCHAR(64),
                    archive_app_filter BOOLEAN DEFAULT TRUE,
                    archive_value VARCHAR(255),
                    unarchive_value VARCHAR(255),
                    sort_field VARCHAR(64),
                    accountability VARCHAR(16) DEFAULT 'all',
                    color VARCHAR(16),
                    item_duplication_fields JSON,
                    sort INT,
                    `group` VARCHAR(64),
                    collapse VARCHAR(16) DEFAULT 'open',
                    preview_url VARCHAR(255),
                    versioning BOOLEAN DEFAULT FALSE
                )";

/// The SQLite statements of migration 20240101D (Create Collections Table).
pub const COLLECTIONS_SQLITE: &'static str = "
                CREATE TABLE IF NOT EXISTS nexus_collections (
                    collection TEXT PRIMARY KEY,
                    icon TEXT,
                    note TEXT,
                    display_template TEXT,
                    hidden INTEGER DEFAULT 0,
                    singleton INTEGER DEFAULT 0,
                    translations TEXT,
                    archive_field TEXT,
                    archive_app_filter INTEGER DEFAULT 1,
                    archive_value TEXT,
                    unarchive_value TEXT,
                    sort_field TEXT,
                    accountability TEXT DEFAULT 'all',
                    color TEXT,
                    item_duplication_fields TEXT,
                    sort INTEGER,
                    \"group\" TEXT REFERENCES nexus_collections(collection),
                    collapse TEXT DEFAULT 'open',
                    preview_url TEXT,
                    versioning INTEGER DEFAULT 0
                )";

/// The PostgreSQL statements of migration 20240101E (Create Fields Table).
pub const FIELDS_POSTGRES: &'static str = "
                CREATE TABLE IF NOT EXISTS nexus_fields (
                    id SERIAL PRIMARY KEY,
                    collection VARCHAR(64) NOT NULL REFERENCES nexus_collections(collection) ON DELETE CASCADE,
                    field VARCHAR(64) NOT NULL,
                    special VARCHAR(64),
                    interface VARCHAR(64),
                    options JSON,
                    display VARCHAR(64),
                    display_options JSON,
                    readonly BOOLEAN DEFAULT FALSE,
                    hidden BOOLEAN DEFAULT FALSE,
                    sort INT,
                    width VARCHAR(16) DEFAULT 'full',
                    translations JSON,
                    note TEXT,
                    conditions JSON,
                    required BOOLEAN DEFAULT FALSE,
                    \"group\" VARCHAR(64),
                    validation JSON,
                    validation_message TEXT,
                    UNIQUE(collection, field)
                )";

/// The MySQL statements of migration 20240101E (Create Fields Table).
pub const FIELDS_MYSQL: &'static str = "
                CREATE TABLE IF NOT EXISTS nexus_fields (
                    id INT AUTO_INCREMENT PRIMARY KEY,
                    collection VARCHAR(64) NOT NULL,
                    field VARCHAR(64) NOT NULL,
                    special VARCHAR(64),
                    interface VARCHAR(64),
                    options JSON,
                    display VARCHAR(64),
                    display_options JSON,
                    readonly BOOLEAN DEFAULT FALSE,
                    hidden BOOLEAN DEFAULT FALSE,
                    sort INT,
                    width VARCHAR(16) DEFAULT 'full',
                    translations JSON,
                    note TEXT,
                    conditions JSON,
                    required BOOLEAN DEFAULT FALSE,
                    `group` VARCHAR(64),
                    validation JSON,
                    validation_message TEXT,
                    UNIQUE KEY unique_collection_field (collection, field)
                )";

/// The SQLite statements of migration 20240101E (Create Fields Table).
pub const FIELDS_SQLITE: &'static str = "
                CREATE TABLE IF NOT EXISTS nexus_fields (
                    id INTEGER PRIMARY KEY AUTOINCREMENT,
                    collection TEXT NOT NULL REFERENCES nexus_collections(collection) ON DELETE CASCADE,
                    field TEXT NOT NULL,
                    special TEXT,
                    interface TEXT,
                    options TEXT,
                    display TEXT,
                    display_options TEXT,
                    readonly INTEGER DEFAULT 0,
                    hidden INTEGER DEFAULT 0,
                    sort INTEGER,
                    width TEXT DEFAULT 'full',
                    translations TEXT,
                    note TEXT,
                    conditions TEXT,
                    required INTEGER DEFAULT 0,
                    \"group\" TEXT,
                    validation TEXT,
                    validation_message TEXT,
                    UNIQUE(collection, field)
                )";

/// The PostgreSQL statements of migration 20240101F (Create Relations Table).
pub const RELATIONS_POSTGRES: &'static str = "
                CREATE TABLE IF NOT EXISTS nexus_relations (
                    id SERIAL PRIMARY KEY,
                    many_collection VARCHAR(64) NOT NULL,
                    many_field VARCHAR(64) NOT NULL,
                    one_collection VARCHAR(64),
                    one_field VARCHAR(64),
                    one_collection_field VARCHAR(64),
                    one_allowed_collections TEXT,
                    junction_field VARCHAR(64),
                    sort_field VARCHAR(64),
                    one_deselect_action VARCHAR(16) DEFAULT 'nullify'
                )";

/// The MySQL statements of migration 20240101F (Create Relations Table).
pub const RELATIONS_MYSQL: &'static str = "
                CREATE TABLE IF NOT EXISTS nexus_relations (
                    id INT AUTO_INCREMENT PRIMARY KEY,
                    many_collection VARCHAR(64) NOT NULL,
                    many_field VARCHAR(64) NOT NULL,
                    one_collection VARCHAR(64),
                    one_field VARCHAR(64),
                    one_collection_field VARCHAR(64),
                    one_allowed_collections TEXT,
                    junction_field VARCHAR(64),
                    sort_field VARCHAR(64),
                    one_deselect_action VARCHAR(16) DEFAULT 'nullify'
                )";

/// The SQLite statements of migration 20240101F (Create Relations Table).
pub const RELATIONS_SQLITE: &'static str = "
                CREATE TABLE IF NOT EXISTS nexus_relations (
                    id INTEGER PRIMARY KEY AUTOINCREMENT,
                    many_collection TEXT NOT NULL,
                    many_field TEXT NOT NULL,
                    one_collection TEXT,
                    one_field TEXT,
                    one_collection_field TEXT,
                    one_allowed_collections TEXT,
                    junction_field TEXT,
                    sort_field TEXT,
                    one_deselect_action TEXT DEFAULT 'nullify'
                )";

/// The PostgreSQL statements of migration 20240101G (Create Policies Table).
pub const POLICIES_POSTGRES: &'static str = "
                CREATE TABLE IF NOT EXISTS nexus_policies (
                    id UUID PRIMARY KEY,
                    name VARCHAR(100) NOT NULL,
                    icon VARCHAR(64) DEFAULT 'badge',
                    description TEXT,
                    ip_access TEXT,
                    enforce_tfa BOOLEAN DEFAULT FALSE,
                    admin_access BOOLEAN DEFAULT FALSE,
                    app_access BOOLEAN DEFAULT FALSE,
                    created_at TIMESTAMP DEFAULT CURRENT_TIMESTAMP,
                    updated_at TIMESTAMP DEFAULT CURRENT_TIMESTAMP
                )";

/// The MySQL statements of migration 20240101G (Create Policies Table).
pub const POLICIES_MYSQL: &'static str = "
                CREATE TABLE IF NOT EXISTS nexus_policies (
                    id CHAR(36) PRIMARY KEY,
                    name VARCHAR(100) NOT NULL,
                    icon VARCHAR(64) DEFAULT 'badge',
                    description TEXT,
                    ip_access TEXT,
                    enforce_tfa BOOLEAN DEFAULT FALSE,
                    admin_access BOOLEAN DEFAULT FALSE,
                    app_access BOOLEAN DEFAULT FALSE,
                    created_at TIMESTAMP DEFAULT CURRENT_TIMESTAMP,
                    updated_at TIMESTAMP DEFAULT CURRENT_TIMESTAMP ON UPDATE CURRENT_TIMESTAMP
                )";

/// The SQLite statements of migration 20240101G (Create Policies Table).
pub const POLICIES_SQLITE: &'static str = "
                CREATE TABLE IF NOT EXISTS nexus_policies (
                    id TEXT PRIMARY KEY,
                    name TEXT NOT NULL,
                    icon TEXT DEFAULT 'badge',
                    description TEXT,
                    ip_access TEXT,
                    enforce_tfa INTEGER DEFAULT 0,
                    admin_access INTEGER DEFAULT 0,
                    app_access INTEGER DEFAULT 0,
                    created_at TEXT DEFAULT (datetime('now')),
                    updated_at TEXT DEFAULT (datetime('now'))
                )";

/// The PostgreSQL statements of migration 20240101H (Create Permissions Table).
pub const PERMISSIONS_POSTGRES: &'static str = "
                CREATE TABLE IF NOT EXISTS nexus_permissions (
                    id SERIAL PRIMARY KEY,
                    policy UUID REFERENCES nexus_policies(id) ON DELETE CASCADE,
                    collection VARCHAR(64) NOT NULL,
                    action VARCHAR(16) NOT NULL,
                    permissions JSON,
                    validation JSON,
                    presets JSON,
                    fields TEXT
                )";

/// The MySQL statements of migration 20240101H (Create Permissions Table).
pub const PERMISSIONS_MYSQL: &'static str = "
                CREATE TABLE IF NOT EXISTS nexus_permissions (
                    id INT AUTO_INCREMENT PRIMARY KEY,
                    policy CHAR(36),
                    collection VARCHAR(64) NOT NULL,
                    action VARCHAR(16) NOT NULL,
                    permissions JSON,
                    validation JSON,
                    presets JSON,
                    fields TEXT
                )";

/// The SQLite statements of migration 20240101H (Create Permissions Table).
pub const PERMISSIONS_SQLITE: &'static str = "
                CREATE TABLE IF NOT EXISTS nexus_permissions (
                    id INTEGER PRIMARY KEY AUTOINCREMENT,
                    policy TEXT,
                    collection TEXT NOT NULL,
                    action TEXT NOT NULL,
                    permissions TEXT,
                    validation TEXT,
                    presets TEXT,
                    fields TEXT
                )";

/// The PostgreSQL statements of migration 20240101I (Create Access Table).
pub const ACCESS_POSTGRES: &'static str = "
                CREATE TABLE IF NOT EXISTS nexus_access (
                    id UUID PRIMARY KEY,
                    role UUID REFERENCES nexus_roles(id) ON DELETE CASCADE,
                    \"user\" UUID REFERENCES nexus_users(id) ON DELETE CASCADE,
                    policy UUID NOT NULL REFERENCES nexus_policies(id) ON DELETE CASCADE,
                    sort INT
                )";

/// The MySQL statements of migration 20240101I (Create Access Table).
pub const ACCESS_MYSQL: &'static str = "
                CREATE TABLE IF NOT EXISTS nexus_access (
                    id CHAR(36) PRIMARY KEY,
                    role CHAR(36),
                    user CHAR(36),
                    policy CHAR(36) NOT NULL,
                    sort INT
                )";

/// The SQLite statements of migration 20240101I (Create Access Table).
pub const ACCESS_SQLITE: &'static str = "
                CREATE TABLE IF NOT EXISTS nexus_access (
                    id TEXT PRIMARY KEY,
                    role TEXT REFERENCES nexus_roles(id) ON DELETE CASCADE,
                    user TEXT REFERENCES nexus_users(id) ON DELETE CASCADE,
                    policy TEXT NOT NULL REFERENCES nexus_policies(id) ON DELETE CASCADE,
                    sort INTEGER
                )";

/// The PostgreSQL statements of migration 20240101J (Create Files and Folders Tables).
pub const FILES_POSTGRES: &'static str = "
                CREATE TABLE IF NOT EXISTS nexus_folders (
                    id UUID PRIMARY KEY,
                    name VARCHAR(255) NOT NULL,
                    parent UUID REFERENCES nexus_folders(id)
                );
                CREATE TABLE IF NOT EXISTS nexus_files (
                    id UUID PRIMARY KEY,
                    storage VARCHAR(255) NOT NULL DEFAULT 'local',
                    filename_disk VARCHAR(255),
                    filename_download VARCHAR(255) NOT NULL,
                    title VARCHAR(255),
                    type VARCHAR(255),
                    folder UUID REFERENCES nexus_folders(id),
                    uploaded_by UUID REFERENCES nexus_users(id),
                    created_on TIMESTAMP DEFAULT CURRENT_TIMESTAMP,
                    modified_by UUID REFERENCES nexus_users(id),
                    modified_on TIMESTAMP DEFAULT CURRENT_TIMESTAMP,
                    charset VARCHAR(50),
                    filesize BIGINT DEFAULT 0,
                    width INT,
                    height INT,
                    duration INT,
                    embed VARCHAR(200),
                    description TEXT,
                    location VARCHAR(200),
                    tags JSON,
                    metadata JSON,
                    focal_point_x INT,
                    focal_point_y INT,
                    tus_id VARCHAR(64),
                    tus_data JSON,
                    uploaded_on TIMESTAMP DEFAULT CURRENT_TIMESTAMP
                )";

/// The MySQL statements of migration 20240101J (Create Files and Folders Tables).
pub const FILES_MYSQL: &'static str = "
                CREATE TABLE IF NOT EXISTS nexus_folders (
                    id CHAR(36) PRIMARY KEY,
                    name VARCHAR(255) NOT NULL,
                    parent CHAR(36)
                );
                CREATE TABLE IF NOT EXISTS nexus_files (
                    id CHAR(36) PRIMARY KEY,
                    storage VARCHAR(255) NOT NULL DEFAULT 'local',
                    filename_disk VARCHAR(255),
                    filename_download VARCHAR(255) NOT NULL,
                    title VARCHAR(255),
                    type VARCHAR(255),
                    folder CHAR(36),
                    uploaded_by CHAR(36),
                    created_on TIMESTAMP DEFAULT CURRENT_TIMESTAMP,
                    modified_by CHAR(36),
                    modified_on TIMESTAMP DEFAULT CURRENT_TIMESTAMP ON UPDATE CURRENT_TIMESTAMP,
                    charset VARCHAR(50),
                    filesize BIGINT DEFAULT 0,
                    width INT,
                    height INT,
                    duration INT,
                    embed VARCHAR(200),
                    description TEXT,
                    location VARCHAR(200),
                    tags JSON,
                    metadata JSON,
                    focal_point_x INT,
                    focal_point_y INT,
                    tus_id VARCHAR(64),
                    tus_data JSON,
                    uploaded_on TIMESTAMP DEFAULT CURRENT_TIMESTAMP
                )";

/// The SQLite statements of migration 20240101J (Create Files and Folders Tables).
pub const FILES_SQLITE: &'static str = "
                CREATE TABLE IF NOT EXISTS nexus_folders (
                    id TEXT PRIMARY KEY,
                    name TEXT NOT NULL,
                    parent TEXT REFERENCES nexus_folders(id)
                );
                CREATE TABLE IF NOT EXISTS nexus_files (
                    id TEXT PRIMARY KEY,
                    storage TEXT NOT NULL DEFAULT 'local',
                    filename_disk TEXT,
                    filename_download TEXT NOT NULL,
                    title TEXT,
                    type TEXT,
                    folder TEXT REFERENCES nexus_folders(id),
                    uploaded_by TEXT REFERENCES nexus_users(id),
                    created_on TEXT DEFAULT (datetime('now')),
                    modified_by TEXT REFERENCES nexus_users(id),
                    modified_on TEXT DEFAULT (datetime('now')),
                    charset TEXT,
                    filesize INTEGER DEFAULT 0,
                    width INTEGER,
                    height INTEGER,
                    duration INTEGER,
                    embed TEXT,
                    description TEXT,
                    location TEXT,
                    tags TEXT,
                    metadata TEXT,
                    focal_point_x INTEGER,
                    focal_point_y INTEGER,
                    tus_id TEXT,
                    tus_data TEXT,
                    uploaded_on TEXT DEFAULT (datetime('now'))
                )";

/// The PostgreSQL statements of migration 20240101K (Create Activity and Revisions Tables).
pub const ACTIVITY_POSTGRES: &'static str = "
                CREATE TABLE IF NOT EXISTS nexus_activity (
                    id SERIAL PRIMARY KEY,
                    action VARCHAR(45) NOT NULL,
                    \"user\" UUID,
                    timestamp TIMESTAMP DEFAULT CURRENT_TIMESTAMP,
                    ip VARCHAR(50),
                    user_agent TEXT,
                    collection VARCHAR(64) NOT NULL,
                    item VARCHAR(255) NOT NULL,
                    comment TEXT,
                    origin VARCHAR(255)
                );
                CREATE TABLE IF NOT EXISTS nexus_revisions (
                    id SERIAL PRIMARY KEY,
                    activity INT REFERENCES nexus_activity(id) ON DELETE CASCADE,
                    collection VARCHAR(64) NOT NULL,
                    item VARCHAR(255) NOT NULL,
                    data JSON,
                    delta JSON,
                    parent INT REFERENCES nexus_revisions(id),
                    version UUID
                )";

/// The MySQL statements of migration 20240101K (Create Activity and Revisions Tables).
pub const ACTIVITY_MYSQL: &'static str = "
                CREATE TABLE IF NOT EXISTS nexus_activity (
                    id INT AUTO_INCREMENT PRIMARY KEY,
                    action VARCHAR(45) NOT NULL,
                    user CHAR(36),
                    timestamp TIMESTAMP DEFAULT CURRENT_TIMESTAMP,
                    ip VARCHAR(50),
                    user_agent TEXT,
                    collection VARCHAR(64) NOT NULL,
                    item VARCHAR(255) NOT NULL,
                    comment TEXT,
                    origin VARCHAR(255)
                );
                CREATE TABLE IF NOT EXISTS nexus_revisions (
                    id INT AUTO_INCREMENT PRIMARY KEY,
                    activity INT,
                    collection VARCHAR(64) NOT NULL,
                    item VARCHAR(255) NOT NULL,
                    data JSON,
                    delta JSON,
                    parent INT,
                    version CHAR(36)
                )";

/// The SQLite statements of migration 20240101K (Create Activity and Revisions Tables).
pub const ACTIVITY_SQLITE: &'static str = "
                CREATE TABLE IF NOT EXISTS nexus_activity (
                    id INTEGER PRIMARY KEY AUTOINCREMENT,
                    action TEXT NOT NULL,
                    user TEXT,
                    timestamp TEXT DEFAULT (datetime('now')),
                    ip TEXT,
                    user_agent TEXT,
                    collection TEXT NOT NULL,
                    item TEXT NOT NULL,
                    comment TEXT,
                    origin TEXT
                );
                CREATE TABLE IF NOT EXISTS nexus_revisions (
                    id INTEGER PRIMARY KEY AUTOINCREMENT,
                    activity INTEGER REFERENCES nexus_activity(id) ON DELETE CASCADE,
                    collection TEXT NOT NULL,
                    item TEXT NOT NULL,
                    data TEXT,
                    delta TEXT,
                    parent INTEGER REFERENCES nexus_revisions(id),
                    version TEXT
                )";

/// The PostgreSQL statements of migration 20240101L (Create Settings and Presets Tables).
pub const SETTINGS_POSTGRES: &'static str = "
                CREATE TABLE IF NOT EXISTS nexus_settings (
                    id SERIAL PRIMARY KEY,
                    project_name VARCHAR(100) DEFAULT 'Nexus',
                    project_url VARCHAR(255),
                    project_color VARCHAR(16) DEFAULT '#6644FF',
                    project_logo UUID,
                    public_foreground UUID,
                    public_background UUID,
                    public_note TEXT,
                    auth_login_attempts INT DEFAULT 25,
                    auth_password_policy VARCHAR(100),
                    storage_asset_transform VARCHAR(16) DEFAULT 'all',
                    storage_asset_presets JSON,
                    custom_css TEXT,
                    storage_default_folder UUID,
                    basemaps JSON,
                    mapbox_key VARCHAR(255),
                    module_bar JSON,
                    project_descriptor VARCHAR(100),
                    default_language VARCHAR(16) DEFAULT 'en-US',
                    custom_aspect_ratios JSON,
                    public_favicon UUID,
                    default_appearance VARCHAR(32) DEFAULT 'auto',
                    default_theme_light VARCHAR(255),
                    default_theme_dark VARCHAR(255),
                    theme_light_overrides JSON,
                    theme_dark_overrides JSON,
                    report_error_url VARCHAR(255),
                    report_bug_url VARCHAR(255),
                    report_feature_url VARCHAR(255)
                );
                CREATE TABLE IF NOT EXISTS nexus_presets (
                    id SERIAL PRIMARY KEY,
                    bookmark VARCHAR(255),
                    \"user\" UUID REFERENCES nexus_users(id) ON DELETE CASCADE,
                    role UUID REFERENCES nexus_roles(id) ON DELETE CASCADE,
                    collection VARCHAR(64),
                    search VARCHAR(100),
                    layout VARCHAR(100) DEFAULT 'tabular',
                    layout_query JSON,
                    layout_options JSON,
                    refresh_interval INT,
                    filter JSON,
                    icon VARCHAR(64) DEFAULT 'bookmark',
                    color VARCHAR(255)
                )";

/// The MySQL statements of migration 20240101L (Create Settings and Presets Tables).
pub const SETTINGS_MYSQL: &'static str = "
                CREATE TABLE IF NOT EXISTS nexus_settings (
                    id INT AUTO_INCREMENT PRIMARY KEY,
                    project_name VARCHAR(100) DEFAULT 'Nexus',
                    project_url VARCHAR(255),
                    project_color VARCHAR(16) DEFAULT '#6644FF',
                    project_logo CHAR(36),
                    public_foreground CHAR(36),
                    public_background CHAR(36),
                    public_note TEXT,
                    auth_login_attempts INT DEFAULT 25,
                    auth_password_policy VARCHAR(100),
                    storage_asset_transform VARCHAR(16) DEFAULT 'all',
                    storage_asset_presets JSON,
                    custom_css TEXT,
                    storage_default_folder CHAR(36),
                    basemaps JSON,
                    mapbox_key VARCHAR(255),
                    module_bar JSON,
                    project_descriptor VARCHAR(100),
                    default_language VARCHAR(16) DEFAULT 'en-US',
                    custom_aspect_ratios JSON,
                    public_favicon CHAR(36),
                    default_appearance VARCHAR(32) DEFAULT 'auto',
                    default_theme_light VARCHAR(255),
                    default_theme_dark VARCHAR(255),
                    theme_light_overrides JSON,
                    theme_dark_overrides JSON,
                    report_error_url VARCHAR(255),
                    report_bug_url VARCHAR(255),
                    report_feature_url VARCHAR(255)
                );
                CREATE TABLE IF NOT EXISTS nexus_presets (
                    id INT AUTO_INCREMENT PRIMARY KEY,
                    bookmark VARCHAR(255),
                    user CHAR(36),
                    role CHAR(36),
                    collection VARCHAR(64),
                    search VARCHAR(100),
                    layout VARCHAR(100) DEFAULT 'tabular',
                    layout_query JSON,
                    layout_options JSON,
                    refresh_interval INT,
                    filter JSON,
                    icon VARCHAR(64) DEFAULT 'bookmark',
                    color VARCHAR(255)
                )";

/// The SQLite statements of migration 20240101L (Create Settings and Presets Tables).
pub const SETTINGS_SQLITE: &'static str = "
                CREATE TABLE IF NOT EXISTS nexus_settings (
                    id INTEGER PRIMARY KEY AUTOINCREMENT,
                    project_name TEXT DEFAULT 'Nexus',
                    project_url TEXT,
                    project_color TEXT DEFAULT '#6644FF',
                    project_logo TEXT,
                    public_foreground TEXT,
                    public_background TEXT,
                    public_note TEXT,
                    auth_login_attempts INTEGER DEFAULT 25,
                    auth_password_policy TEXT,
                    storage_asset_transform TEXT DEFAULT 'all',
                    storage_asset_presets TEXT,
                    custom_css TEXT,
                    storage_default_folder TEXT,
                    basemaps TEXT,
                    mapbox_key TEXT,
                    module_bar TEXT,
                    project_descriptor TEXT,
                    default_language TEXT DEFAULT 'en-US',
                    custom_aspect_ratios TEXT,
                    public_favicon TEXT,
                    default_appearance TEXT DEFAULT 'auto',
                    default_theme_light TEXT,
                    default_theme_dark TEXT,
                    theme_light_overrides TEXT,
                    theme_dark_overrides TEXT,
                    report_error_url TEXT,
                    report_bug_url TEXT,
                    report_feature_url TEXT
                );
                CREATE TABLE IF NOT EXISTS nexus_presets (
                    id INTEGER PRIMARY KEY AUTOINCREMENT,
                    bookmark TEXT,
                    user TEXT REFERENCES nexus_users(id) ON DELETE CASCADE,
                    role TEXT REFERENCES nexus_roles(id) ON DELETE CASCADE,
                    collection TEXT,
                    search TEXT,
                    layout TEXT DEFAULT 'tabular',
                    layout_query TEXT,
                    layout_options TEXT,
                    refresh_interval INTEGER,
                    filter TEXT,
                    icon TEXT DEFAULT 'bookmark',
                    color TEXT
                )";

/// The PostgreSQL statements of migration 20240101M (Create Dashboards, Panels, Notifications Tables).
pub const DASHBOARDS_POSTGRES: &'static str = "
                CREATE TABLE IF NOT EXISTS nexus_dashboards (
                    id UUID PRIMARY KEY,
                    name VARCHAR(255) NOT NULL,
                    icon VARCHAR(64) DEFAULT 'dashboard',
                    note TEXT,
                    date_created TIMESTAMP DEFAULT CURRENT_TIMESTAMP,
                    user_created UUID REFERENCES nexus_users(id),
                    color VARCHAR(255)
                );
                CREATE TABLE IF NOT EXISTS nexus_panels (
                    id UUID PRIMARY KEY,
                    dashboard UUID NOT NULL REFERENCES nexus_dashboards(id) ON DELETE CASCADE,
                    name VARCHAR(255),
                    icon VARCHAR(64),
                    color VARCHAR(16),
                    show_header BOOLEAN DEFAULT FALSE,
                    note TEXT,
                    type VARCHAR(255) NOT NULL,
                    position_x INT NOT NULL DEFAULT 0,
                    position_y INT NOT NULL DEFAULT 0,
                    width INT NOT NULL DEFAULT 12,
                    height INT NOT NULL DEFAULT 8,
                    options JSON,
                    date_created TIMESTAMP DEFAULT CURRENT_TIMESTAMP,
                    user_created UUID REFERENCES nexus_users(id)
                );
                CREATE TABLE IF NOT EXISTS nexus_notifications (
                    id SERIAL PRIMARY KEY,
                    timestamp TIMESTAMP DEFAULT CURRENT_TIMESTAMP,
                    status VARCHAR(16) DEFAULT 'inbox',
                    recipient UUID NOT NULL REFERENCES nexus_users(id) ON DELETE CASCADE,
                    sender UUID REFERENCES nexus_users(id),
                    subject VARCHAR(255) NOT NULL,
                    message TEXT,
                    collection VARCHAR(64),
                    item VARCHAR(255)
                )";

/// The MySQL statements of migration 20240101M (Create Dashboards, Panels, Notifications Tables).
pub const DASHBOARDS_MYSQL: &'static str = "
                CREATE TABLE IF NOT EXISTS nexus_dashboards (
                    id CHAR(36) PRIMARY KEY,
                    name VARCHAR(255) NOT NULL,
                    icon VARCHAR(64) DEFAULT 'dashboard',
                    note TEXT,
                    date_created TIMESTAMP DEFAULT CURRENT_TIMESTAMP,
                    user_created CHAR(36),
                    color VARCHAR(255)
                );
                CREATE TABLE IF NOT EXISTS nexus_panels (
                    id CHAR(36) PRIMARY KEY,
                    dashboard CHAR(36) NOT NULL,
                    name VARCHAR(255),
                    icon VARCHAR(64),
                    color VARCHAR(16),
                    show_header BOOLEAN DEFAULT FALSE,
                    note TEXT,
                    type VARCHAR(255) NOT NULL,
                    position_x INT NOT NULL DEFAULT 0,
                    position_y INT NOT NULL DEFAULT 0,
                    width INT NOT NULL DEFAULT 12,
                    height INT NOT NULL DEFAULT 8,
                    options JSON,
                    date_created TIMESTAMP DEFAULT CURRENT_TIMESTAMP,
                    user_created CHAR(36)
                );
                CREATE TABLE IF NOT EXISTS nexus_notifications (
                    id INT AUTO_INCREMENT PRIMARY KEY,
                    timestamp TIMESTAMP DEFAULT CURRENT_TIMESTAMP,
                    status VARCHAR(16) DEFAULT 'inbox',
                    recipient CHAR(36) NOT NULL,
                    sender CHAR(36),
                    subject VARCHAR(255) NOT NULL,
                    message TEXT,
                    collection VARCHAR(64),
                    item VARCHAR(255)
                )";

/// The SQLite statements of migration 20240101M (Create Dashboards, Panels, Notifications Tables).
pub const DASHBOARDS_SQLITE: &'static str = "
                CREATE TABLE IF NOT EXISTS nexus_dashboards (
                    id TEXT PRIMARY KEY,
                    name TEXT NOT NULL,
                    icon TEXT DEFAULT 'dashboard',
                    note TEXT,
                    date_created TEXT DEFAULT (datetime('now')),
                    user_created TEXT REFERENCES nexus_users(id),
                    color TEXT
                );
                CREATE TABLE IF NOT EXISTS nexus_panels (
                    id TEXT PRIMARY KEY,
                    dashboard TEXT NOT NULL REFERENCES nexus_dashboards(id) ON DELETE CASCADE,
                    name TEXT,
                    icon TEXT,
                    color TEXT,
                    show_header INTEGER DEFAULT 0,
                    note TEXT,
                    type TEXT NOT NULL,
                    position_x INTEGER NOT NULL DEFAULT 0,
                    position_y INTEGER NOT NULL DEFAULT 0,
                    width INTEGER NOT NULL DEFAULT 12,
                    height INTEGER NOT NULL DEFAULT 8,
                    options TEXT,
                    date_created TEXT DEFAULT (datetime('now')),
                    user_created TEXT REFERENCES nexus_users(id)
                );
                CREATE TABLE IF NOT EXISTS nexus_notifications (
                    id INTEGER PRIMARY KEY AUTOINCREMENT,
                    timestamp TEXT DEFAULT (datetime('now')),
                    status TEXT DEFAULT 'inbox',
                    recipient TEXT NOT NULL REFERENCES nexus_users(id) ON DELETE CASCADE,
                    sender TEXT REFERENCES nexus_users(id),
                    subject TEXT NOT NULL,
                    message TEXT,
                    collection TEXT,
                    item TEXT
                )";

/// The PostgreSQL statements of migration 20240101N (Create Flows and Operations Tables).
pub const FLOWS_POSTGRES: &'static str = "
                CREATE TABLE IF NOT EXISTS nexus_flows (
                    id UUID PRIMARY KEY,
                    name VARCHAR(255) NOT NULL,
                    icon VARCHAR(64) DEFAULT 'bolt',
                    color VARCHAR(16),
                    description TEXT,
                    status VARCHAR(16) DEFAULT 'active',
                    trigger VARCHAR(255),
                    accountability VARCHAR(16) DEFAULT 'all',
                    options JSON,
                    operation UUID,
                    date_created TIMESTAMP DEFAULT CURRENT_TIMESTAMP,
                    user_created UUID REFERENCES nexus_users(id)
                );
                CREATE TABLE IF NOT EXISTS nexus_operations (
                    id UUID PRIMARY KEY,
                    name VARCHAR(255),
                    key VARCHAR(255) NOT NULL,
                    type VARCHAR(255) NOT NULL,
                    position_x INT NOT NULL DEFAULT 0,
                    position_y INT NOT NULL DEFAULT 0,
                    options JSON,
                    resolve UUID,
                    reject UUID,
                    flow UUID NOT NULL REFERENCES nexus_flows(id) ON DELETE CASCADE,
                    date_created TIMESTAMP DEFAULT CURRENT_TIMESTAMP,
                    user_created UUID REFERENCES nexus_users(id)
                )";

/// The MySQL statements of migration 20240101N (Create Flows and Operations Tables).
pub const FLOWS_MYSQL: &'static str = "
                CREATE TABLE IF NOT EXISTS nexus_flows (
                    id CHAR(36) PRIMARY KEY,
                    name VARCHAR(255) NOT NULL,
                    icon VARCHAR(64) DEFAULT 'bolt',
                    color VARCHAR(16),
                    description TEXT,
                    status VARCHAR(16) DEFAULT 'active',
                    `trigger` VARCHAR(255),
                    accountability VARCHAR(16) DEFAULT 'all',
                    options JSON,
                    operation CHAR(36),
                    date_created TIMESTAMP DEFAULT CURRENT_TIMESTAMP,
                    user_created CHAR(36)
                );
                CREATE TABLE IF NOT EXISTS nexus_operations (
                    id CHAR(36) PRIMARY KEY,
                    name VARCHAR(255),
                    `key` VARCHAR(255) NOT NULL,
                    type VARCHAR(255) NOT NULL,
                    position_x INT NOT NULL DEFAULT 0,
                    position_y INT NOT NULL DEFAULT 0,
                    options JSON,
                    resolve CHAR(36),
                    reject CHAR(36),
                    flow CHAR(36) NOT NULL,
                    date_created TIMESTAMP DEFAULT CURRENT_TIMESTAMP,
                    user_created CHAR(36)
                )";

/// The SQLite statements of migration 20240101N (Create Flows and Operations Tables).
pub const FLOWS_SQLITE: &'static str = "
                CREATE TABLE IF NOT EXISTS nexus_flows (
                    id TEXT PRIMARY KEY,
                    name TEXT NOT NULL,
                    icon TEXT DEFAULT 'bolt',
                    color TEXT,
                    description TEXT,
                    status TEXT DEFAULT 'active',
                    trigger TEXT,
                    accountability TEXT DEFAULT 'all',
                    options TEXT,
                    operation TEXT,
                    date_created TEXT DEFAULT (datetime('now')),
                    user_created TEXT REFERENCES nexus_users(id)
                );
                CREATE TABLE IF NOT EXISTS nexus_operations (
                    id TEXT PRIMARY KEY,
                    name TEXT,
                    key TEXT NOT NULL,
                    type TEXT NOT NULL,
                    position_x INTEGER NOT NULL DEFAULT 0,
                    position_y INTEGER NOT NULL DEFAULT 0,
                    options TEXT,
                    resolve TEXT,
                    reject TEXT,
                    flow TEXT NOT NULL REFERENCES nexus_flows(id) ON DELETE CASCADE,
                    date_created TEXT DEFAULT (datetime('now')),
                    user_created TEXT REFERENCES nexus_users(id)
                )";

/// The PostgreSQL statements of migration 20240101O (Create Webhooks, Shares, Translations, Versions, Comments Tables).
pub const WEBHOOKS_POSTGRES: &'static str = "
                CREATE TABLE IF NOT EXISTS nexus_webhooks (
                    id SERIAL PRIMARY KEY,
                    name VARCHAR(255) NOT NULL,
                    method VARCHAR(10) DEFAULT 'POST',
                    url VARCHAR(255) NOT NULL,
                    status VARCHAR(16) DEFAULT 'active',
                    data BOOLEAN DEFAULT TRUE,
                    actions VARCHAR(100) NOT NULL,
                    collections VARCHAR(255) NOT NULL,
                    headers JSON,
                    was_active_before_deprecation BOOLEAN DEFAULT FALSE,
                    migrated_flow UUID
                );
                CREATE TABLE IF NOT EXISTS nexus_shares (
                    id UUID PRIMARY KEY,
                    name VARCHAR(255),
                    collection VARCHAR(64) NOT NULL,
                    item VARCHAR(255) NOT NULL,
                    role UUID REFERENCES nexus_roles(id),
                    password VARCHAR(255),
                    user_created UUID REFERENCES nexus_users(id),
                    date_created TIMESTAMP DEFAULT CURRENT_TIMESTAMP,
                    date_start TIMESTAMP,
                    date_end TIMESTAMP,
                    times_used INT DEFAULT 0,
                    max_uses INT
                );
                CREATE TABLE IF NOT EXISTS nexus_translations (
                    id UUID PRIMARY KEY,
                    language VARCHAR(16) NOT NULL,
                    key VARCHAR(255) NOT NULL,
                    value TEXT NOT NULL
                );
                CREATE TABLE IF NOT EXISTS nexus_versions (
                    id UUID PRIMARY KEY,
                    key VARCHAR(64) NOT NULL,
                    name VARCHAR(255),
                    collection VARCHAR(64) NOT NULL,
                    item VARCHAR(255) NOT NULL,
                    hash VARCHAR(255),
                    date_created TIMESTAMP DEFAULT CURRENT_TIMESTAMP,
                    date_updated TIMESTAMP DEFAULT CURRENT_TIMESTAMP,
                    user_created UUID REFERENCES nexus_users(id),
                    user_updated UUID REFERENCES nexus_users(id),
                    delta JSON
                );
                CREATE TABLE IF NOT EXISTS nexus_comments (
                    id UUID PRIMARY KEY,
                    collection VARCHAR(64) NOT NULL,
                    item VARCHAR(255) NOT NULL,
                    comment TEXT NOT NULL,
                    date_created TIMESTAMP DEFAULT CURRENT_TIMESTAMP,
                    date_updated TIMESTAMP DEFAULT CURRENT_TIMESTAMP,
                    user_created UUID REFERENCES nexus_users(id),
                    user_updated UUID REFERENCES nexus_users(id)
                )";

/// The MySQL statements of migration 20240101O (Create Webhooks, Shares, Translations, Versions, Comments Tables).
pub const WEBHOOKS_MYSQL: &'static str = "
                CREATE TABLE IF NOT EXISTS nexus_webhooks (
                    id INT AUTO_INCREMENT PRIMARY KEY,
                    name VARCHAR(255) NOT NULL,
                    method VARCHAR(10) DEFAULT 'POST',
                    url VARCHAR(255) NOT NULL,
                    status VARCHAR(16) DEFAULT 'active',
                    data BOOLEAN DEFAULT TRUE,
                    actions VARCHAR(100) NOT NULL,
                    collections VARCHAR(255) NOT NULL,
                    headers JSON,
                    was_active_before_deprecation BOOLEAN DEFAULT FALSE,
                    migrated_flow CHAR(36)
                );
                CREATE TABLE IF NOT EXISTS nexus_shares (
                    id CHAR(36) PRIMARY KEY,
                    name VARCHAR(255),
                    collection VARCHAR(64) NOT NULL,
                    item VARCHAR(255) NOT NULL,
                    role CHAR(36),
                    password VARCHAR(255),
                    user_created CHAR(36),
                    date_created TIMESTAMP DEFAULT CURRENT_TIMESTAMP,
                    date_start TIMESTAMP NULL,
                    date_end TIMESTAMP NULL,
                    times_used INT DEFAULT 0,
                    max_uses INT
                );
                CREATE TABLE IF NOT EXISTS nexus_translations (
                    id CHAR(36) PRIMARY KEY,
                    language VARCHAR(16) NOT NULL,
                    `key` VARCHAR(255) NOT NULL,
                    value TEXT NOT NULL
                );
                CREATE TABLE IF NOT EXISTS nexus_versions (
                    id CHAR(36) PRIMARY KEY,
                    `key` VARCHAR(64) NOT NULL,
                    name VARCHAR(255),
                    collection VARCHAR(64) NOT NULL,
                    item VARCHAR(255) NOT NULL,
                    hash VARCHAR(255),
                    date_created TIMESTAMP DEFAULT CURRENT_TIMESTAMP,
                    date_updated TIMESTAMP DEFAULT CURRENT_TIMESTAMP ON UPDATE CURRENT_TIMESTAMP,
                    user_created CHAR(36),
                    user_updated CHAR(36),
                    delta JSON
                );
                CREATE TABLE IF NOT EXISTS nexus_comments (
                    id CHAR(36) PRIMARY KEY,
                    collection VARCHAR(64) NOT NULL,
                    item VARCHAR(255) NOT NULL,
                    comment TEXT NOT NULL,
                    date_created TIMESTAMP DEFAULT CURRENT_TIMESTAMP,
                    date_updated TIMESTAMP DEFAULT CURRENT_TIMESTAMP ON UPDATE CURRENT_TIMESTAMP,
                    user_created CHAR(36),
                    user_updated CHAR(36)
                )";

/// The SQLite statements of migration 20240101O (Create Webhooks, Shares, Translations, Versions, Comments Tables).
pub const WEBHOOKS_SQLITE: &'static str = "
                CREATE TABLE IF NOT EXISTS nexus_webhooks (
                    id INTEGER PRIMARY KEY AUTOINCREMENT,
                    name TEXT NOT NULL,
                    method TEXT DEFAULT 'POST',
                    url TEXT NOT NULL,
                    status TEXT DEFAULT 'active',
                    data INTEGER DEFAULT 1,
                    actions TEXT NOT NULL,
                    collections TEXT NOT NULL,
                    headers TEXT,
                    was_active_before_deprecation INTEGER DEFAULT 0,
                    migrated_flow TEXT
                );
                CREATE TABLE IF NOT EXISTS nexus_shares (
                    id TEXT PRIMARY KEY,
                    name TEXT,
                    collection TEXT NOT NULL,
                    item TEXT NOT NULL,
                    role TEXT REFERENCES nexus_roles(id),
                    password TEXT,
                    user_created TEXT REFERENCES nexus_users(id),
                    date_created TEXT DEFAULT (datetime('now')),
                    date_start TEXT,
                    date_end TEXT,
                    times_used INTEGER DEFAULT 0,
                    max_uses INTEGER
                );
                CREATE TABLE IF NOT EXISTS nexus_translations (
                    id TEXT PRIMARY KEY,
                    language TEXT NOT NULL,
                    key TEXT NOT NULL,
                    value TEXT NOT NULL
                );
                CREATE TABLE IF NOT EXISTS nexus_versions (
                    id TEXT PRIMARY KEY,
                    key TEXT NOT NULL,
                    name TEXT,
                    collection TEXT NOT NULL,
                    item TEXT NOT NULL,
                    hash TEXT,
                    date_created TEXT DEFAULT (datetime('now')),
                    date_updated TEXT DEFAULT (datetime('now')),
                    user_created TEXT REFERENCES nexus_users(id),
                    user_updated TEXT REFERENCES nexus_users(id),
                    delta TEXT
                );
                CREATE TABLE IF NOT EXISTS nexus_comments (
                    id TEXT PRIMARY KEY,
                    collection TEXT NOT NULL,
                    item TEXT NOT NULL,
                    comment TEXT NOT NULL,
                    date_created TEXT DEFAULT (datetime('now')),
                    date_updated TEXT DEFAULT (datetime('now')),
                    user_created TEXT REFERENCES nexus_users(id),
                    user_updated TEXT REFERENCES nexus_users(id)
                )";

/// The PostgreSQL statements of the built-in migrations, in the order they run.
pub open spec fn migration_postgres_sql() -> Seq<Seq<char>> {
    seq![ROLES_POSTGRES@, USERS_POSTGRES@, SESSIONS_POSTGRES@, COLLECTIONS_POSTGRES@, FIELDS_POSTGRES@, RELATIONS_POSTGRES@, POLICIES_POSTGRES@, PERMISSIONS_POSTGRES@, ACCESS_POSTGRES@, FILES_POSTGRES@, ACTIVITY_POSTGRES@, SETTINGS_POSTGRES@, DASHBOARDS_POSTGRES@, FLOWS_POSTGRES@, WEBHOOKS_POSTGRES@]
}

/// The MySQL statements of the built-in migrations, in the order they run.
pub open spec fn migration_mysql_sql() -> Seq<Seq<char>> {
    seq![ROLES_MYSQL@, USERS_MYSQL@, SESSIONS_MYSQL@, COLLECTIONS_MYSQL@, FIELDS_MYSQL@, RELATIONS_MYSQL@, POLICIES_MYSQL@, PERMISSIONS_MYSQL@, ACCESS_MYSQL@, FILES_MYSQL@, ACTIVITY_MYSQL@, SETTINGS_MYSQL@, DASHBOARDS_MYSQL@, FLOWS_MYSQL@, WEBHOOKS_MYSQL@]
}

/// The SQLite statements of the built-in migrations, in the order they run.
pub open spec fn migration_sqlite_sql() -> Seq<Seq<char>> {
    seq![ROLES_SQLITE@, USERS_SQLITE@, SESSIONS_SQLITE@, COLLECTIONS_SQLITE@, FIELDS_SQLITE@, RELATIONS_SQLITE@, POLICIES_SQLITE@, PERMISSIONS_SQLITE@, ACCESS_SQLITE@, FILES_SQLITE@, ACTIVITY_SQLITE@, SETTINGS_SQLITE@, DASHBOARDS_SQLITE@, FLOWS_SQLITE@, WEBHOOKS_SQLITE@]
}

/// All built-in migrations, in the order they run.
pub fn get_all_migrations() -> (r: Vec<Migration>)
    ensures
        r@.len() == migration_versions().len(),
        forall|i: int| 0 <= i < r@.len() ==> #[trigger] r@[i].version@ == migration_versions()[i]
            && r@[i].name@ == migration_names()[i]
            && r@[i].sql_postgres@ == migration_postgres_sql()[i]
            && r@[i].sql_mysql@ == migration_mysql_sql()[i]
            && r@[i].sql_sqlite@ == migration_sqlite_sql()[i],
{
    let mut r: Vec<Migration> = Vec::new();
    r.push(Migration {
        version: String::from_str("20240101A"),
        name: String::from_str("Create Roles Table"),
        sql_postgres: ROLES_POSTGRES,
        sql_mysql: ROLES_MYSQL,
        sql_sqlite: ROLES_SQLITE,
    });
    r.push(Migration {
        version: String::from_str("20240101B"),
        name: String::from_str("Create Users Table"),
        sql_postgres: USERS_POSTGRES,
        sql_mysql: USERS_MYSQL,
        sql_sqlite: USERS_SQLITE,
    });
    r.push(Migration {
        version: String::from_str("20240101C"),
        name: String::from_str("Create Sessions Table"),
        sql_postgres: SESSIONS_POSTGRES,
        sql_mysql: SESSIONS_MYSQL,
        sql_sqlite: SESSIONS_SQLITE,
    });
    r.push(Migration {
        version: String::from_str("20240101D"),
        name: String::from_str("Create Collections Table"),
        sql_postgres: COLLECTIONS_POSTGRES,
        sql_mysql: COLLECTIONS_MYSQL,
        sql_sqlite: COLLECTIONS_SQLITE,
    });
    r.push(Migration {
        version: String::from_str("20240101E"),
        name: String::from_str("Create Fields Table"),
        sql_postgres: FIELDS_POSTGRES,
        sql_mysql: FIELDS_MYSQL,
        sql_sqlite: FIELDS_SQLITE,
    });
    r.push(Migration {
        version: String::from_str("20240101F"),
        name: String::from_str("Create Relations Table"),
        sql_postgres: RELATIONS_POSTGRES,
        sql_mysql: RELATIONS_MYSQL,
        sql_sqlite: RELATIONS_SQLITE,
    });
    r.push(Migration {
        version: String::from_str("20240101G"),
        name: String::from_str("Create Policies Table"),
        sql_postgres: POLICIES_POSTGRES,
        sql_mysql: POLICIES_MYSQL,
        sql_sqlite: POLICIES_SQLITE,
    });
    r.push(Migration {
        version: String::from_str("20240101H"),
        name: String::from_str("Create Permissions Table"),
        sql_postgres: PERMISSIONS_POSTGRES,
        sql_mysql: PERMISSIONS_MYSQL,
        sql_sqlite: PERMISSIONS_SQLITE,
    });
    r.push(Migration {
        version: String::from_str("20240101I"),
        name: String::from_str("Create Access Table"),
        sql_postgres: ACCESS_POSTGRES,
        sql_mysql: ACCESS_MYSQL,
        sql_sqlite: ACCESS_SQLITE,
    });
    r.push(Migration {
        version: String::from_str("20240101J"),
        name: String::from_str("Create Files and Folders Tables"),
        sql_postgres: FILES_POSTGRES,
        sql_mysql: FILES_MYSQL,
        sql_sqlite: FILES_SQLITE,
    });
    r.push(Migration {
        version: String::from_str("20240101K"),
        name: String::from_str("Create Activity and Revisions Tables"),
        sql_postgres: ACTIVITY_POSTGRES,
        sql_mysql: ACTIVITY_MYSQL,
        sql_sqlite: ACTIVITY_SQLITE,
    });
    r.push(Migration {
        version: String::from_str("20240101L"),
        name: String::from_str("Create Settings and Presets Tables"),
        sql_postgres: SETTINGS_POSTGRES,
        sql_mysql: SETTINGS_MYSQL,
        sql_sqlite: SETTINGS_SQLITE,
    });
    r.push(Migration {
        version: String::from_str("20240101M"),
        name: String::from_str("Create Dashboards, Panels, Notifications Tables"),
        sql_postgres: DASHBOARDS_POSTGRES,
        sql_mysql: DASHBOARDS_MYSQL,
        sql_sqlite: DASHBOARDS_SQLITE,
    });
    r.push(Migration {
        version: String::from_str("20240101N"),
        name: String::from_str("Create Flows and Operations Tables"),
        sql_postgres: FLOWS_POSTGRES,
        sql_mysql: FLOWS_MYSQL,
        sql_sqlite: FLOWS_SQLITE,
    });
    r.push(Migration {
        version: String::from_str("20240101O"),
        name: String::from_str("Create Webhooks, Shares, Translations, Versions, Comments Tables"),
        sql_postgres: WEBHOOKS_POSTGRES,
        sql_mysql: WEBHOOKS_MYSQL,
        sql_sqlite: WEBHOOKS_SQLITE,
    });
    r
}

/// The statement that creates the migration tracking table in dialect `d`.
pub fn migrations_table_sql(d: Dialect) -> (r: &'static str)
    ensures
        r@ == spec_migrations_table_sql(d),
{
    match d {
        Dialect::Postgres | Dialect::CockroachDB => "CREATE TABLE IF NOT EXISTS nexus_migrations (
                version VARCHAR(255) PRIMARY KEY,
                name VARCHAR(255) NOT NULL,
                timestamp TIMESTAMP DEFAULT CURRENT_TIMESTAMP
            )",
        Dialect::MySQL => "CREATE TABLE IF NOT EXISTS nexus_migrations (
                version VARCHAR(255) PRIMARY KEY,
                name VARCHAR(255) NOT NULL,
                timestamp TIMESTAMP DEFAULT CURRENT_TIMESTAMP
            )",
        Dialect::SQLite => "CREATE TABLE IF NOT EXISTS nexus_migrations (
                version TEXT PRIMARY KEY,
                name TEXT NOT NULL,
                timestamp TEXT DEFAULT (datetime('now'))
            )",
        Dialect::MSSQL => "IF NOT EXISTS (SELECT * FROM sys.tables WHERE name = 'nexus_migrations')
            CREATE TABLE nexus_migrations (
                version NVARCHAR(255) PRIMARY KEY,
                name NVARCHAR(255) NOT NULL,
                timestamp DATETIME2 DEFAULT GETUTCDATE()
            )",
        Dialect::Oracle => "BEGIN
                EXECUTE IMMEDIATE 'CREATE TABLE nexus_migrations (
                    version VARCHAR2(255) PRIMARY KEY,
                    name VARCHAR2(255) NOT NULL,
                    timestamp TIMESTAMP DEFAULT SYSTIMESTAMP
                )';
            EXCEPTION WHEN OTHERS THEN NULL; END;",
    }
}

/// The tracking-table statement of each dialect.
pub open spec fn spec_migrations_table_sql(d: Dialect) -> Seq<char> {
    match d {
        Dialect::Postgres | Dialect::CockroachDB => "CREATE TABLE IF NOT EXISTS nexus_migrations (
                version VARCHAR(255) PRIMARY KEY,
                name VARCHAR(255) NOT NULL,
                timestamp TIMESTAMP DEFAULT CURRENT_TIMESTAMP
            )"@,
        Dialect::MySQL => "CREATE TABLE IF NOT EXISTS nexus_migrations (
                version VARCHAR(255) PRIMARY KEY,
                name VARCHAR(255) NOT NULL,
                timestamp TIMESTAMP DEFAULT CURRENT_TIMESTAMP
            )"@,
        Dialect::SQLite => "CREATE TABLE IF NOT EXISTS nexus_migrations (
                version TEXT PRIMARY KEY,
                name TEXT NOT NULL,
                timestamp TEXT DEFAULT (datetime('now'))
            )"@,
        Dialect::MSSQL => "IF NOT EXISTS (SELECT * FROM sys.tables WHERE name = 'nexus_migrations')
            CREATE TABLE nexus_migrations (
                version NVARCHAR(255) PRIMARY KEY,
                name NVARCHAR(255) NOT NULL,
                timestamp DATETIME2 DEFAULT GETUTCDATE()
            )"@,
        Dialect::Oracle => "BEGIN
                EXECUTE IMMEDIATE 'CREATE TABLE nexus_migrations (
                    version VARCHAR2(255) PRIMARY KEY,
                    name VARCHAR2(255) NOT NULL,
                    timestamp TIMESTAMP DEFAULT SYSTIMESTAMP
                )';
            EXCEPTION WHEN OTHERS THEN NULL; END;"@,
    }
}

/// The SQL a migration runs in dialect `d`: the PostgreSQL text for the
/// PostgreSQL family, and as the fallback for MSSQL and Oracle.
pub open spec fn spec_migration_sql(m: Migration, d: Dialect) -> Seq<char> {
    match d {
        Dialect::MySQL => m.sql_mysql@,
        Dialect::SQLite => m.sql_sqlite@,
        _ => m.sql_postgres@,
    }
}

/// The SQL text of migration `m` for dialect `d`.
pub fn migration_sql(m: &Migration, d: Dialect) -> (r: &'static str)
    ensures
        r@ == spec_migration_sql(*m, d),
{
    match d {
        Dialect::Postgres | Dialect::CockroachDB => m.sql_postgres,
        Dialect::MySQL => m.sql_mysql,
        Dialect::SQLite => m.sql_sqlite,
        Dialect::MSSQL | Dialect::Oracle => m.sql_postgres,
    }
}

/// The trimmed pieces that are not empty.
pub open spec fn nonempty_trimmed(pieces: Seq<Seq<char>>) -> Seq<Seq<char>>
    decreases pieces.len(),
{
    if pieces.len() == 0 {
        seq![]
    } else {
        let r = nonempty_trimmed(pieces.drop_last());
        let t = trim(pieces.last());
        if t.len() > 0 { r.push(t) } else { r }
    }
}

/// The statements of a migration script: the pieces between `;`, trimmed,
/// without the empty ones.
pub open spec fn statements(sql: Seq<char>) -> Seq<Seq<char>> {
    nonempty_trimmed(split_on(sql, ';'))
}

/// Splits a migration script into the statements that are executed one by one.
pub fn split_statements(sql: &str) -> (r: Vec<String>)
    ensures
        views(r@) == statements(sql@),
{
    let cs = chars_of(sql);
    let pieces = split_chars(&cs, ';');
    let ghost pv = split_on(sql@, ';');
    let mut r: Vec<String> = Vec::new();
    let mut i: usize = 0;
    assert(pv.take(0) =~= Seq::<Seq<char>>::empty());
    assert(views(r@) =~= Seq::<Seq<char>>::empty());
    while i < pieces.len()
        invariant
            pv == split_on(sql@, ';'),
            pieces@.len() == pv.len(),
            forall|k: int| 0 <= k < pieces@.len() ==> #[trigger] pieces@[k]@ == pv[k],
            i <= pieces@.len(),
            views(r@) == nonempty_trimmed(pv.take(i as int)),
        decreases pieces@.len() - i,
    {
        proof {
            assert(pv.take(i as int + 1).drop_last() =~= pv.take(i as int));
            assert(pv.take(i as int + 1).last() == pv[i as int]);
        }
        let piece = string_of(&pieces[i]);
        let t = trim_str(piece.as_str());
        if !t.is_empty() {
            let st = String::from_str(t);
            proof {
                assert(views(r@.push(st)) =~= views(r@).push(st@));
            }
            r.push(st);
        }
        i = i + 1;
    }
    assert(pv.take(pieces@.len() as int) =~= pv);
    r
}

/// The error reported when a statement of migration `version` fails.
pub fn migration_failure(version: &str, e: &DatabaseError) -> (r: DatabaseError)
    ensures
        r matches DatabaseError::Migration(m) && m@ == "Migration "@ + version@ + " failed: "@ + spec_database_error_message(*e),
{
    let mut m = String::from_str("Migration ");
    m.append(version);
    m.append(" failed: ");
    let em = e.message();
    m.append(em.as_str());
    DatabaseError::Migration(m)
}

/// The statement that records an applied migration, and its bound values
/// (version, then name).
pub fn record_migration_statement(m: &Migration) -> (r: (&'static str, Vec<SqlValue>))
    ensures
        r.0@ == "INSERT INTO nexus_migrations (version, name) VALUES ($1, $2)"@,
        r.1@.len() == 2,
        r.1@[0] matches SqlValue::Text(v) && v@ == m.version@,
        r.1@[1] matches SqlValue::Text(n) && n@ == m.name@,
{
    let mut b: Vec<SqlValue> = Vec::new();
    b.push(SqlValue::Text(m.version.clone()));
    b.push(SqlValue::Text(m.name.clone()));
    ("INSERT INTO nexus_migrations (version, name) VALUES ($1, $2)", b)
}

/// The positions, in order, of the migrations whose version is not among
/// the applied ones.
pub open spec fn pending_spec(versions: Seq<Seq<char>>, applied: Seq<Seq<char>>) -> Seq<int>
    decreases versions.len(),
{
    if versions.len() == 0 {
        seq![]
    } else {
        let p = pending_spec(versions.drop_last(), applied);
        if applied.contains(versions.last()) { p } else { p.push(versions.len() - 1) }
    }
}

/// The versions of a list of migrations.
pub open spec fn versions_of(all: Seq<Migration>) -> Seq<Seq<char>> {
    Seq::new(all.len(), |i: int| all[i].version@)
}

/// The positions, in order, of the migrations of `all` that are not applied
/// yet (their version is not in `applied`).
pub fn pending_migrations(all: &Vec<Migration>, applied: &Vec<String>) -> (r: Vec<usize>)
    ensures
        r@.len() == pending_spec(versions_of(all@), views(applied@)).len(),
        forall|k: int| 0 <= k < r@.len() ==> #[trigger] r@[k] as int == pending_spec(versions_of(all@), views(applied@))[k],
{
    let ghost vs = versions_of(all@);
    let ghost ap = views(applied@);
    let mut r: Vec<usize> = Vec::new();
    let mut i: usize = 0;
    assert(vs.take(0) =~= Seq::<Seq<char>>::empty());
    while i < all.len()
        invariant
            vs == versions_of(all@),
            ap == views(applied@),
            i <= all@.len(),
            r@.len() == pending_spec(vs.take(i as int), ap).len(),
            forall|k: int| 0 <= k < r@.len() ==> #[trigger] r@[k] as int == pending_spec(vs.take(i as int), ap)[k],
        decreases all@.len() - i,
    {
        proof {
            assert(vs.take(i as int + 1).drop_last() =~= vs.take(i as int));
            assert(vs.take(i as int + 1).last() == vs[i as int]);
        }
        let mut found = false;
        let mut j: usize = 0;
        while j < applied.len()
            invariant
                ap == views(applied@),
                j <= applied@.len(),
                found == exists|k: int| 0 <= k < j && ap[k] == vs[i as int],
                vs == versions_of(all@),
                i < all@.len(),
            decreases applied@.len() - j,
        {
            assert(ap[j as int] == applied@[j as int]@);
            assert(vs[i as int] == all@[i as int].version@);
            let eq = crate::text::str_eq(applied[j].as_str(), all[i].version.as_str());
            if eq {
                found = true;
            }
            proof {
                if !eq {
                    assert forall|k: int| 0 <= k < j + 1 && ap[k] == vs[i as int] implies k < j by {}
                }
            }
            j = j + 1;
        }
        proof {
            if found {
                let k = choose|k: int| 0 <= k < applied@.len() && ap[k] == vs[i as int];
                assert(ap.contains(vs[i as int]));
            } else {
                assert(!ap.contains(vs[i as int]));
            }
        }
        if !found {
            r.push(i);
        }
        i = i + 1;
    }
    assert(vs.take(all@.len() as int) =~= vs);
    r
}

/// Membership in the pending list: a position is pending exactly when its
/// version is not applied.
pub proof fn lemma_pending_members(versions: Seq<Seq<char>>, applied: Seq<Seq<char>>)
    ensures
        forall|k: int| 0 <= k < pending_spec(versions, applied).len() ==> 0 <= #[trigger] pending_spec(versions, applied)[k] < versions.len(),
        forall|i: int| 0 <= i < versions.len() ==> (pending_spec(versions, applied).contains(i) <==> !applied.contains(#[trigger] versions[i])),
    decreases versions.len(),
{
    if versions.len() > 0 {
        let d = versions.drop_last();
        lemma_pending_members(d, applied);
        let p = pending_spec(d, applied);
        assert forall|i: int| 0 <= i < versions.len() implies (pending_spec(versions, applied).contains(i) <==> !applied.contains(#[trigger] versions[i])) by {
            if i < versions.len() - 1 {
                assert(d[i] == versions[i]);
                if !applied.contains(versions.last()) {
                    assert(p.push(versions.len() - 1).contains(i) <==> p.contains(i)) by {
                        if p.push(versions.len() - 1).contains(i) {
                            let pp = p.push(versions.len() - 1);
                            let k = choose|k: int| 0 <= k < pp.len() && #[trigger] pp[k] == i;
                            if k == p.len() {
                                assert(false);
                            } else {
                                assert(p[k] == i);
                            }
                        }
                        if p.contains(i) {
                            let k = choose|k: int| 0 <= k < p.len() && p[k] == i;
                            assert(p.push(versions.len() - 1)[k] == i);
                        }
                    }
                }
            } else {
                if !applied.contains(versions.last()) {
                    assert(p.push(versions.len() - 1)[p.len() as int] == i);
                } else {
                    if p.contains(i) {
                        let k = choose|k: int| 0 <= k < p.len() && p[k] == i;
                        assert(p[k] < d.len());
                    }
                }
            }
        }
    }
}

/// Running the pending migrations leaves none pending: once the versions of
/// the pending migrations are added to the applied ones, no migration is
/// pending any more.
pub proof fn lemma_pending_after_apply(versions: Seq<Seq<char>>, applied: Seq<Seq<char>>)
    ensures
        ({
            let p = pending_spec(versions, applied);
            let now = applied + Seq::new(p.len(), |k: int| versions[p[k]]);
            pending_spec(versions, now).len() == 0
        }),
{
    let p = pending_spec(versions, applied);
    let now = applied + Seq::new(p.len(), |k: int| versions[p[k]]);
    lemma_pending_members(versions, applied);
    lemma_pending_members(versions, now);
    assert forall|i: int| 0 <= i < versions.len() implies now.contains(#[trigger] versions[i]) by {
        if applied.contains(versions[i]) {
            let k = choose|k: int| 0 <= k < applied.len() && applied[k] == versions[i];
            assert(now[k] == versions[i]);
        } else {
            assert(p.contains(i));
            let k = choose|k: int| 0 <= k < p.len() && p[k] == i;
            assert(now[applied.len() + k] == versions[i]);
        }
    }
    let q = pending_spec(versions, now);
    if q.len() > 0 {
        assert(q.contains(q[0]));
        assert(0 <= q[0] < versions.len());
        assert(now.contains(versions[q[0]]));
    }
}

/// Running migrations again changes nothing: when every version is already
/// applied, no migration is pending.
pub proof fn lemma_nothing_pending_when_all_applied(versions: Seq<Seq<char>>, applied: Seq<Seq<char>>)
    requires
        forall|i: int| 0 <= i < versions.len() ==> applied.contains(#[trigger] versions[i]),
    ensures
        pending_spec(versions, applied).len() == 0,
    decreases versions.len(),
{
    if versions.len() > 0 {
        let d = versions.drop_last();
        assert forall|i: int| 0 <= i < d.len() implies applied.contains(#[trigger] d[i]) by {
            assert(d[i] == versions[i]);
        }
        lemma_nothing_pending_when_all_applied(d, applied);
        assert(applied.contains(versions[versions.len() - 1]));
    }
}

/// No two built-in migrations share a version.
pub proof fn lemma_migration_versions_distinct()
    ensures
        forall|i: int, j: int| 0 <= i < j < migration_versions().len() ==> migration_versions()[i] != migration_versions()[j],
{
    reveal_strlit("20240101A");
    reveal_strlit("20240101B");
    reveal_strlit("20240101C");
    reveal_strlit("20240101D");
    reveal_strlit("20240101E");
    reveal_strlit("20240101F");
    reveal_strlit("20240101G");
    reveal_strlit("20240101H");
    reveal_strlit("20240101I");
    reveal_strlit("20240101J");
    reveal_strlit("20240101K");
    reveal_strlit("20240101L");
    reveal_strlit("20240101M");
    reveal_strlit("20240101N");
    reveal_strlit("20240101O");
    let v = migration_versions();
    assert forall|i: int, j: int| 0 <= i < j < v.len() implies v[i] != v[j] by {
        assert(v[i][8] != v[j][8]);
    }
}

/// The query that lists the applied migration versions.
pub fn applied_migrations_query() -> (r: &'static str)
    ensures
        r@ == "SELECT version FROM nexus_migrations ORDER BY version"@,
{
    "SELECT version FROM nexus_migrations ORDER BY version"
}

/// The string `version` members of the rows, in order (rows without one are skipped).
pub open spec fn row_versions(rows: Seq<Vec<(String, JsonValue)>>) -> Seq<Seq<char>>
    decreases rows.len(),
{
    if rows.len() == 0 {
        seq![]
    } else {
        let r = row_versions(rows.drop_last());
        match obj_get(members_view(rows.last()@), "version"@) {
            Some(Json::Str(v)) => r.push(v),
            _ => r,
        }
    }
}

/// The applied versions listed by the rows of the version query.
pub fn applied_versions(rows: &Vec<Vec<(String, JsonValue)>>) -> (r: Vec<String>)
    ensures
        views(r@) == row_versions(rows@),
{
    let mut r: Vec<String> = Vec::new();
    let mut i: usize = 0;
    assert(rows@.take(0) =~= Seq::<Vec<(String, JsonValue)>>::empty());
    assert(views(r@) =~= Seq::<Seq<char>>::empty());
    while i < rows.len()
        invariant
            i <= rows@.len(),
            views(r@) == row_versions(rows@.take(i as int)),
        decreases rows@.len() - i,
    {
        proof {
            assert(rows@.take(i as int + 1).drop_last() =~= rows@.take(i as int));
            assert(rows@.take(i as int + 1).last() == rows@[i as int]);
        }
        match member_get(&rows[i], "version") {
            Some(JsonValue::String(v)) => {
                let ghost before = r@;
                r.push(v.clone());
                assert(views(r@) =~= views(before).push(v@));
            },
            _ => {},
        }
        i = i + 1;
    }
    assert(rows@.take(rows@.len() as int) =~= rows@);
    r
}

} // verus!
