use dictionary_rs::metadata::Metadata;
use dictionary_rs::query::fallback_indices;
use dictionary_rs::resolver::{
    client_index, default_index, language_index, resolve_index, role_index, user_index, IndexLevel,
    TenantContext,
};

fn ctx(l: Option<&str>, c: Option<&str>, r: Option<&str>, u: Option<&str>) -> TenantContext {
    TenantContext {
        language: l.map(|s| s.to_string()),
        client_id: c.map(|s| s.to_string()),
        role_id: r.map(|s| s.to_string()),
        user_id: u.map(|s| s.to_string()),
    }
}

#[test]
fn language_and_client_only_resolve_to_client_level() {
    let c = ctx(Some("en"), Some("7"), None, None);
    assert_eq!(user_index("menu", &c), "menu_en_7");
    assert_eq!(role_index("menu", &c), "menu_en_7");
}

#[test]
fn full_context_resolves_to_user_level() {
    let c = ctx(Some("es"), Some("11"), Some("102"), Some("100"));
    assert_eq!(user_index("window", &c), "window_es_11_102_100");
    assert_eq!(resolve_index("window", &c, IndexLevel::User), "window_es_11_102_100");
}

#[test]
fn missing_user_gives_role_level() {
    let c = ctx(Some("en"), Some("7"), Some("3"), None);
    assert_eq!(user_index("form", &c), role_index("form", &c));
    assert_eq!(user_index("form", &c), "form_en_7_3");
}

#[test]
fn each_level_stops_at_its_depth() {
    let c = ctx(Some("en"), Some("7"), Some("3"), Some("9"));
    assert_eq!(default_index("menu", &c), "menu");
    assert_eq!(language_index("menu", &c), "menu_en");
    assert_eq!(client_index("menu", &c), "menu_en_7");
    assert_eq!(role_index("menu", &c), "menu_en_7_3");
}

#[test]
fn gap_degrades_to_deepest_resolvable() {
    let c = ctx(Some("en"), None, Some("3"), Some("9"));
    assert_eq!(user_index("process", &c), "process_en");
    let none = ctx(None, Some("7"), None, None);
    assert_eq!(user_index("process", &none), "process");
}

#[test]
fn names_are_lower_cased() {
    let c = ctx(Some("EN_us"), Some("Ab"), None, None);
    assert_eq!(user_index("Menu", &c), "menu_en_us_ab");
    assert_eq!(default_index("BROWSER", &c), "browser");
}

#[test]
fn fallback_names_most_specific_first() {
    let c = ctx(Some("en"), Some("7"), None, Some("5"));
    assert_eq!(fallback_indices("menu", &c), vec!["menu_en_7", "menu_en", "menu"]);
    let empty = ctx(None, None, None, None);
    assert_eq!(fallback_indices("menu", &empty), vec!["menu"]);
}

#[test]
fn metadata_ids_become_decimal_segments() {
    let m = Metadata {
        index_value: Some("Menu".to_string()),
        language: Some("en".to_string()),
        client_id: Some(-7),
        role_id: Some(102),
        user_id: None,
    };
    let c = m.context();
    assert_eq!(c.client_id.as_deref(), Some("-7"));
    assert_eq!(c.role_id.as_deref(), Some("102"));
    assert_eq!(c.user_id, None);
    assert_eq!(m.index_name(IndexLevel::User), Some("menu_en_-7_102".to_string()));
    let no_base = Metadata { index_value: None, language: None, client_id: None, role_id: None, user_id: None };
    assert_eq!(no_base.index_name(IndexLevel::User), None);
}
