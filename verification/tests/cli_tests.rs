use panca::cli::{parse_plugins, plugin_kind, HttpMethod, Panca, PluginError, PluginKind};

fn names(v: &[&str]) -> Vec<String> {
    v.iter().map(|s| s.to_string()).collect()
}

#[test]
fn panca_new_and_default() {
    let _a = Panca::new();
    let _b = Panca::default();
}

#[test]
fn http_method_order() {
    assert!(HttpMethod::Get < HttpMethod::Post);
    assert_eq!(HttpMethod::Get, HttpMethod::Get);
}

#[test]
fn plugins_default_basic() {
    let r = parse_plugins(&names(&["basic"])).unwrap();
    assert_eq!(r, vec![PluginKind::Basic]);
}

#[test]
fn plugins_keep_order() {
    let r = parse_plugins(&names(&["basic", "llamacpp"])).unwrap();
    assert_eq!(r, vec![PluginKind::Basic, PluginKind::LlamaCpp]);
    let r = parse_plugins(&names(&["llamacpp", "basic", "basic"])).unwrap();
    assert_eq!(r, vec![PluginKind::LlamaCpp, PluginKind::Basic, PluginKind::Basic]);
}

#[test]
fn plugins_ignore_ascii_case() {
    let r = parse_plugins(&names(&["BASIC", "LlamaCpp"])).unwrap();
    assert_eq!(r, vec![PluginKind::Basic, PluginKind::LlamaCpp]);
    assert_eq!(plugin_kind(&"bAsIc".to_string()).unwrap(), PluginKind::Basic);
}

#[test]
fn plugins_empty_list() {
    let r = parse_plugins(&Vec::new()).unwrap();
    assert!(r.is_empty());
}

#[test]
fn plugin_unknown_is_refused_lowercased() {
    let err = parse_plugins(&names(&["basic", "Foo", "Bar"])).unwrap_err();
    let PluginError::NotAvailable(name) = &err;
    assert_eq!(name, "foo");
    assert_eq!(err.message(), "Plugin foo not available.");
}

#[test]
fn plugin_non_ascii_kept() {
    let err = plugin_kind(&"BÄSIC".to_string()).unwrap_err();
    let PluginError::NotAvailable(name) = &err;
    assert_eq!(name, "bÄsic");
}
