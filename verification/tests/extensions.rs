use nexus::env::Env;
use nexus::extensions::{
    default_entrypoint, default_true, determine_runtime, parse_host_list, BunRuntime, ExtensionError, ExtensionLanguage,
    ExtensionManager, ExtensionManifest, ExtensionType, LoadedExtension, RuntimeType, SandboxConfig,
};
use nexus::json::{JsonNumber, JsonValue};

fn manifest(name: &str, t: ExtensionType, entry: Option<&str>, lang: Option<ExtensionLanguage>) -> ExtensionManifest {
    ExtensionManifest {
        name: name.to_string(),
        extension_type: t,
        version: "1.0.0".to_string(),
        description: String::new(),
        icon: String::new(),
        entrypoint: entry.map(|e| e.to_string()),
        language: lang,
        options: None,
        path: None,
        enabled: default_true(),
        entries: vec![],
    }
}

#[test]
fn runtime_is_chosen_by_language_then_entry_point() {
    assert_eq!(determine_runtime(&manifest("a", ExtensionType::Hook, None, Some(ExtensionLanguage::Go))), RuntimeType::Wasm);
    assert_eq!(determine_runtime(&manifest("a", ExtensionType::Hook, Some("x.wasm"), Some(ExtensionLanguage::Typescript))), RuntimeType::Bun);
    assert_eq!(determine_runtime(&manifest("a", ExtensionType::Hook, Some("build/ext.wasm"), None)), RuntimeType::Wasm);
    assert_eq!(determine_runtime(&manifest("a", ExtensionType::Hook, Some("index.js"), None)), RuntimeType::Bun);
    assert_eq!(determine_runtime(&manifest("a", ExtensionType::Hook, None, None)), RuntimeType::Bun);
    assert_eq!(default_entrypoint(&RuntimeType::Wasm), "extension.wasm");
    assert_eq!(default_entrypoint(&RuntimeType::Bun), "dist/index.js");
}

#[test]
fn sandbox_network_policy() {
    let strict = SandboxConfig::default();
    match strict.check_network("example.com") {
        Err(ExtensionError::SandboxViolation(m)) => assert_eq!(m, "Network access is not allowed"),
        _ => panic!("Expected violation"),
    }
    let mut cfg = SandboxConfig::permissive();
    assert_eq!(cfg.max_subprocesses, 5);
    cfg.allowed_hosts = vec!["api.example.com".to_string()];
    assert!(cfg.check_network("api.example.com").is_ok());
    match cfg.check_network("evil.com") {
        Err(ExtensionError::SandboxViolation(m)) => assert_eq!(m, "Host 'evil.com' is not in the allowed list"),
        _ => panic!("Expected violation"),
    }
    cfg.allowed_hosts.push("*".to_string());
    assert!(cfg.check_network("evil.com").is_ok());
}

#[test]
fn sandbox_from_configuration() {
    let env: Env = vec![
        ("EXTENSIONS_SANDBOX_TIMEOUT".to_string(), JsonValue::Number(JsonNumber::PosInt(500))),
        ("EXTENSIONS_SANDBOX_ALLOWED_HOSTS".to_string(), JsonValue::String(" a.com, ,b.com ".to_string())),
        ("EXTENSIONS_SANDBOX_ALLOW_FS".to_string(), JsonValue::String("true".to_string())),
    ];
    let cfg = SandboxConfig::from_env(&env);
    assert_eq!(cfg.max_execution_time_ms, 500);
    assert_eq!(cfg.max_memory_bytes, 134_217_728);
    assert_eq!(cfg.allowed_hosts, vec!["a.com".to_string(), "b.com".to_string()]);
    assert!(cfg.allow_fs);
    assert!(!cfg.allow_env);
    assert_eq!(parse_host_list(""), Vec::<String>::new());
    assert_eq!(BunRuntime::new(&env).bun_path, "bun");
}

#[test]
fn registry_of_loaded_extensions() {
    let mut mgr = ExtensionManager::new();
    let names = mgr.load_all(vec![
        LoadedExtension { manifest: manifest("api", ExtensionType::Endpoint, None, None), runtime: RuntimeType::Bun, path: "e/api".into(), source: vec![] },
        LoadedExtension { manifest: manifest("hook", ExtensionType::Hook, None, Some(ExtensionLanguage::Rust)), runtime: RuntimeType::Wasm, path: "e/hook".into(), source: vec![1] },
    ]);
    assert_eq!(names, vec!["api".to_string(), "hook".to_string()]);
    assert_eq!(mgr.hook_runtime("hook").unwrap(), RuntimeType::Wasm);
    match mgr.hook_runtime("nope") {
        Err(ExtensionError::NotFound(n)) => assert_eq!(n, "nope"),
        _ => panic!("Expected not found"),
    }
    assert_eq!(mgr.get_api_extensions(), vec!["api".to_string()]);
    assert_eq!(ExtensionError::LoadFailed("x".to_string()).message(), "Failed to load extension: x");
}

#[test]
fn a_name_loaded_again_replaces_the_extension() {
    let mut mgr = ExtensionManager::new();
    mgr.load_all(vec![
        LoadedExtension { manifest: manifest("a", ExtensionType::Endpoint, None, None), runtime: RuntimeType::Bun, path: "e/a".into(), source: vec![] },
        LoadedExtension { manifest: manifest("b", ExtensionType::Hook, None, None), runtime: RuntimeType::Bun, path: "e/b".into(), source: vec![] },
    ]);
    let names = mgr.load_all(vec![
        LoadedExtension { manifest: manifest("a", ExtensionType::Hook, None, None), runtime: RuntimeType::Wasm, path: "e/a2".into(), source: vec![] },
    ]);
    assert_eq!(names, vec!["a".to_string()]);
    let listed: Vec<String> = mgr.list().into_iter().map(|m| m.name).collect();
    assert_eq!(listed, vec!["a".to_string(), "b".to_string()]);
    assert_eq!(mgr.hook_runtime("a").unwrap(), RuntimeType::Wasm);
    assert_eq!(mgr.get("a").unwrap().path, "e/a2");
    assert!(mgr.get_api_extensions().is_empty());
}
