use inference_runtime::plugins::{
    entry_not_found, frontend_entry, BackendMeta, PluginManager, PluginMetadata,
};

fn meta(id: &str) -> PluginMetadata {
    PluginMetadata {
        id: id.to_string(),
        name: format!("{} plugin", id),
        version: "1.0.0".to_string(),
        description: String::new(),
        author: String::new(),
        icon: None,
        plugin_type: Some("action".to_string()),
        frontend: None,
        backend: Some(BackendMeta { entry: None, permissions: Vec::new() }),
    }
}

fn enabled(m: &PluginManager, id: &str) -> Option<bool> {
    m.plugins.iter().find(|p| p.meta.id == id).map(|p| p.enabled)
}

fn flag(m: &PluginManager, id: &str) -> Option<bool> {
    m.enabled_map.iter().find(|f| f.id == id).map(|f| f.enabled)
}

#[test]
fn new_manager_knows_nothing() {
    let m = PluginManager::new("/data/plugins");
    assert_eq!(m.plugins_dir, "/data/plugins");
    assert!(m.plugins.is_empty());
    assert!(m.enabled_map.is_empty());
}

#[test]
fn plugin_is_enabled_unless_its_flag_says_otherwise() {
    let mut m = PluginManager::new("p");
    m.set_flag("b", false);
    m.set_flag("c", true);
    m.register(meta("a"));
    m.register(meta("b"));
    m.register(meta("c"));
    assert_eq!(enabled(&m, "a"), Some(true));
    assert_eq!(enabled(&m, "b"), Some(false));
    assert_eq!(enabled(&m, "c"), Some(true));
    assert_eq!(m.plugins.len(), 3);
}

#[test]
fn registering_again_replaces_the_plugin() {
    let mut m = PluginManager::new("p");
    m.register(meta("a"));
    let mut newer = meta("a");
    newer.version = "2.0.0".to_string();
    m.register(newer);
    assert_eq!(m.plugins.len(), 1);
    assert_eq!(m.plugins[0].meta.version, "2.0.0");
}

#[test]
fn toggle_stores_the_flag_and_switches_the_plugin() {
    let mut m = PluginManager::new("p");
    m.register(meta("a"));
    m.register(meta("b"));
    m.toggle("a", false);
    assert_eq!(flag(&m, "a"), Some(false));
    assert_eq!(enabled(&m, "a"), Some(false));
    assert_eq!(enabled(&m, "b"), Some(true));
    assert_eq!(flag(&m, "b"), None);
    m.toggle("a", true);
    assert_eq!(flag(&m, "a"), Some(true));
    assert_eq!(enabled(&m, "a"), Some(true));
    assert_eq!(m.enabled_map.len(), 1);
    m.toggle("unknown", false);
    assert_eq!(flag(&m, "unknown"), Some(false));
    assert_eq!(m.plugins.len(), 2);
}

#[test]
fn delete_forgets_plugin_and_flag() {
    let mut m = PluginManager::new("p");
    m.register(meta("a"));
    m.register(meta("b"));
    m.register(meta("c"));
    m.toggle("b", false);
    m.toggle("c", false);
    m.delete_plugin("b");
    assert_eq!(enabled(&m, "b"), None);
    assert_eq!(flag(&m, "b"), None);
    assert_eq!(enabled(&m, "a"), Some(true));
    assert_eq!(enabled(&m, "c"), Some(false));
    assert_eq!(flag(&m, "c"), Some(false));
    m.delete_plugin("b");
    m.delete_plugin("never there");
    assert_eq!(m.plugins.len(), 2);
    assert_eq!(m.enabled_map.len(), 1);
}

#[test]
fn frontend_entry_defaults_to_main_js() {
    assert_eq!(frontend_entry(None), Ok("frontend/main.js".to_string()));
    assert_eq!(frontend_entry(Some("ui/index.mjs")), Ok("ui/index.mjs".to_string()));
    assert_eq!(frontend_entry(Some("UI/Index.JS")), Ok("UI/Index.JS".to_string()));
}

#[test]
fn only_javascript_modules_are_served() {
    let refused = Err("only .js or .mjs entries are allowed".to_string());
    assert_eq!(frontend_entry(Some("frontend/main.ts")), refused);
    assert_eq!(frontend_entry(Some("")), refused);
    assert_eq!(frontend_entry(Some("main.js.txt")), refused);
    assert_eq!(frontend_entry(Some("../secret.txt")), refused);
}

#[test]
fn entries_may_not_climb_out() {
    let refused = Err("invalid entry path".to_string());
    assert_eq!(frontend_entry(Some("../other/main.js")), refused);
    assert_eq!(frontend_entry(Some("a/../../b.mjs")), refused);
    assert_eq!(frontend_entry(Some("a..b.js")), refused);
}

#[test]
fn missing_entry_message() {
    assert_eq!(
        entry_not_found("demo", "frontend/main.js"),
        "frontend entry not found for plugin 'demo' at 'frontend/main.js' (checked appDataDir only)"
    );
}
