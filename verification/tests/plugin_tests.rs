use napcat::plugin::{RustPlugin, WasmPlugin};
use napcat::plugin::{
    collect_action, plugin_output_text, PluginAction, PluginBackend, PluginBackendKind, PluginDefinition, PluginError,
    PluginMetadata, PluginSource,
};
use napcat::plugin_registry::{compare_names, NameOrder, PluginRegistry};

fn shell_definition(name: &str, enabled: bool) -> PluginDefinition {
    PluginDefinition {
        metadata: PluginMetadata::new(name, "0.1.0"),
        source: PluginSource::Rust {
            executable: String::from("/bin/sh"),
            args: vec![String::from("-c"), String::from("cat >/dev/null")],
            timeout_ms: 200,
        },
        enabled,
    }
}

fn http_definition(name: &str) -> PluginDefinition {
    PluginDefinition {
        metadata: PluginMetadata::new(name, "1.0.0"),
        source: PluginSource::Http { endpoint: String::from("http://127.0.0.1:9"), timeout_ms: 50 },
        enabled: true,
    }
}

#[test]
fn plugin_definition_loader_rejects_duplicate_name() {
    let mut registry = PluginRegistry::new();
    let definition = shell_definition("dup", true);

    let backend = registry.prepare_load(definition.clone()).unwrap();
    let name = backend.metadata().name.clone();
    registry.insert(backend);
    assert_eq!(name, "dup");

    let duplicate = registry.prepare_load(definition);
    assert!(matches!(duplicate, Err(PluginError::AlreadyLoaded { .. })));
}

#[test]
fn plugin_manager_requires_enabled_definition() {
    let registry = PluginRegistry::new();
    let result = registry.prepare_load(shell_definition("disabled", false));
    assert!(matches!(result, Err(PluginError::Disabled { name }) if name == "disabled"));
}

#[test]
fn plugin_manager_unload_unknown_is_not_found() {
    let mut registry = PluginRegistry::new();
    let result = registry.remove("missing");
    assert!(matches!(result, Err(PluginError::NotFound { .. })));
}

#[test]
fn plugin_dispatch_returns_empty_for_no_response() {
    let mut registry = PluginRegistry::new();
    let backend = registry.prepare_load(shell_definition("silent", true)).unwrap();
    registry.insert(backend);

    // `cat >/dev/null` writes nothing, and empty output is no action.
    let mut actions = Vec::new();
    for backend in registry.backends() {
        let answer = plugin_output_text(b"").map(|text| text.map(|_| PluginAction::Continue));
        collect_action(&mut actions, backend.metadata().name.clone(), answer).unwrap();
    }
    assert!(actions.is_empty());
}

#[test]
fn blank_names_are_refused() {
    let registry = PluginRegistry::new();
    assert_eq!(registry.prepare_load(http_definition("  ")).err(), Some(PluginError::EmptyName));
}

#[test]
fn missing_executable_is_unavailable() {
    let registry = PluginRegistry::new();
    let mut definition = shell_definition("ghost", true);
    definition.source = PluginSource::Rust {
        executable: String::from("/nonexistent/plugin-binary"),
        args: vec![],
        timeout_ms: 10,
    };
    assert!(matches!(registry.prepare_load(definition), Err(PluginError::RuntimeUnavailable(_))));
}

#[test]
fn registry_lists_in_name_order_and_reports_kinds() {
    let mut registry = PluginRegistry::new();
    for name in ["beta", "alpha", "gamma"] {
        let backend = registry.prepare_load(http_definition(name)).unwrap();
        registry.insert(backend);
    }
    assert_eq!(registry.list(), vec!["alpha", "beta", "gamma"]);
    assert_eq!(registry.len(), 3);
    let kinds = registry.kinds();
    assert_eq!(kinds[0], (String::from("alpha"), PluginBackendKind::Http));
    assert_eq!(registry.metadata("beta").unwrap().version, "1.0.0");
    assert!(matches!(registry.metadata("zeta"), Err(PluginError::NotFound { .. })));
    let removed = registry.remove("beta").unwrap();
    assert_eq!(removed.kind(), PluginBackendKind::Http);
    assert_eq!(registry.list(), vec!["alpha", "gamma"]);
}

#[test]
fn names_order_by_characters() {
    assert_eq!(compare_names("a", "b"), NameOrder::Before);
    assert_eq!(compare_names("ab", "a"), NameOrder::After);
    assert_eq!(compare_names("x", "x"), NameOrder::Same);
}

#[test]
fn plugin_output_is_trimmed_or_refused() {
    assert_eq!(plugin_output_text(b"  \n").unwrap(), None);
    assert_eq!(
        plugin_output_text(b" {\"Stop\":null}\n").unwrap(),
        Some(String::from("{\"Stop\":null}"))
    );
    assert!(matches!(plugin_output_text(&[0xff, 0xfe]), Err(PluginError::InvalidUtf8(_))));
}

#[test]
fn wasm_source_defaults_its_entrypoint() {
    let registry = PluginRegistry::new();
    let definition = PluginDefinition {
        metadata: PluginMetadata::new("w", "1"),
        source: PluginSource::Wasm {
            module: String::from("/nonexistent/mod.wasm"),
            entrypoint: PluginSource::default_wasm_entrypoint(),
            timeout_ms: 10,
        },
        enabled: true,
    };
    assert!(matches!(registry.prepare_load(definition), Err(PluginError::RuntimeUnavailable(_))));
    assert_eq!(PluginSource::default_wasm_entrypoint(), "handle_event");
    let _ = PluginBackend::from_definition(http_definition("h")).unwrap();
}

#[test]
fn http_plugins_need_an_http_scheme() {
    let registry = PluginRegistry::new();
    let mut definition = http_definition("ftp-hook");
    definition.source = PluginSource::Http { endpoint: String::from("ftp://example.com/hook"), timeout_ms: 1000 };
    assert_eq!(
        registry.prepare_load(definition).err(),
        Some(PluginError::RuntimeUnavailable(String::from(
            "http plugin endpoint must use http:// or https://: ftp://example.com/hook"
        )))
    );
    let mut secure = http_definition("tls-hook");
    secure.source = PluginSource::Http { endpoint: String::from("https://example.com/hook"), timeout_ms: 1000 };
    assert!(PluginBackend::from_definition(secure).is_ok());
}

#[test]
fn path_checks_follow_existence() {
    assert_eq!(RustPlugin::path_check("/x", true), Ok(()));
    assert_eq!(
        RustPlugin::path_check("/x", false),
        Err(PluginError::RuntimeUnavailable(String::from("rust plugin executable missing: /x")))
    );
    assert_eq!(
        WasmPlugin::path_check("/m.wasm", false),
        Err(PluginError::RuntimeUnavailable(String::from("wasm module missing: /m.wasm")))
    );
    let built = PluginBackend::build(shell_definition("b", true), false);
    assert_eq!(
        built.err(),
        Some(PluginError::RuntimeUnavailable(String::from("rust plugin executable missing: /bin/sh")))
    );
    assert!(PluginBackend::build(shell_definition("b", true), true).is_ok());
}

#[test]
fn completing_a_load_registers_or_passes_the_failure_on() {
    let mut registry = PluginRegistry::new();
    let backend = registry.prepare_load(http_definition("late")).unwrap();
    let failed = registry.complete_load(backend.clone(), Err(PluginError::Timeout { timeout_ms: 5 }));
    assert_eq!(failed, Err(PluginError::Timeout { timeout_ms: 5 }));
    assert_eq!(registry.len(), 0);
    assert_eq!(registry.complete_load(backend, Ok(())), Ok(String::from("late")));
    assert_eq!(registry.list(), vec!["late"]);
}

#[test]
fn dispatch_answers_are_collected_until_a_failure() {
    let mut actions = Vec::new();
    collect_action(&mut actions, String::from("a"), Ok(Some(PluginAction::Stop))).unwrap();
    collect_action(&mut actions, String::from("b"), Ok(None)).unwrap();
    assert_eq!(
        collect_action(&mut actions, String::from("c"), Err(PluginError::Timeout { timeout_ms: 3 })),
        Err(PluginError::Timeout { timeout_ms: 3 })
    );
    assert_eq!(actions, vec![(String::from("a"), PluginAction::Stop)]);
}
