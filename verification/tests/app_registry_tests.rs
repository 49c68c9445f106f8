use xarph_sdk::app_registry::{AppRegistry, DesktopEntryInfo};

/// The registry of the desktop entries installed on this machine, read
/// the way the application layer reads them.
fn load() -> AppRegistry {
    let locales = freedesktop_desktop_entry::get_languages_from_env();
    let entries: Vec<DesktopEntryInfo> = freedesktop_desktop_entry::Iter::new(freedesktop_desktop_entry::default_paths())
        .entries(Some(locales.as_slice()))
        .map(|e| DesktopEntryInfo {
            id: e.id().to_string(),
            name: e.name(&locales).map(|s| s.to_string()),
            icon: e.icon().map(|s| s.to_string()),
            exec_line: e.exec().map(|s| s.to_string()),
            categories: e.categories().map(|cats| cats.iter().map(|c| c.to_string()).collect()),
            comment: e.comment(&locales).map(|s| s.to_string()),
            has_try_exec: e.try_exec().is_some(),
            no_display: e.no_display(),
        })
        .collect();
    let mut registry = AppRegistry::new();
    registry.refresh_from(entries);
    registry
}

#[test]
fn test_app_registry_load() {
    let registry = load();
    assert!(registry.len() > 0, "Should find at least some apps");
}

#[test]
fn test_search() {
    let registry = load();
    let results = registry.search("terminal");
    let mentions = |t: &str| t.to_lowercase().contains("terminal");
    let installed = registry
        .all()
        .iter()
        .filter(|a| mentions(&a.name) || a.categories.iter().any(|c| mentions(c)) || a.comment.as_deref().map_or(false, mentions))
        .count();
    assert_eq!(results.len(), installed);
    if installed > 0 {
        assert!(!results.is_empty(), "Should find terminal-related apps");
    }
}

#[test]
fn search_finds_a_terminal_application() {
    let entry = |id: &str, name: &str, cats: &[&str], comment: Option<&str>| DesktopEntryInfo {
        id: id.to_string(),
        name: Some(name.to_string()),
        icon: None,
        exec_line: Some(id.to_string()),
        categories: Some(cats.iter().map(|c| c.to_string()).collect()),
        comment: comment.map(|c| c.to_string()),
        has_try_exec: false,
        no_display: false,
    };
    let mut registry = AppRegistry::new();
    registry.refresh_from(vec![
        entry("vim", "Vim", &["Utility", "TextEditor"], Some("Edit text files")),
        entry("foot", "Foot", &["System", "TerminalEmulator"], Some("A fast Wayland terminal")),
        entry("xterm", "XTerm", &["System"], Some("Standard Terminal for X")),
    ]);
    let results = registry.search("terminal");
    assert!(!results.is_empty(), "Should find terminal-related apps");
    let ids: Vec<&str> = results.iter().map(|a| a.id.as_str()).collect();
    assert_eq!(ids, vec!["foot", "xterm"]);
}

#[test]
fn applications_of_one_name_keep_their_order() {
    let entry = |id: &str, name: &str| DesktopEntryInfo {
        id: id.to_string(),
        name: Some(name.to_string()),
        icon: None,
        exec_line: None,
        categories: None,
        comment: None,
        has_try_exec: false,
        no_display: false,
    };
    let mut registry = AppRegistry::new();
    registry.refresh_from(vec![entry("b1", "B"), entry("a1", "A"), entry("b2", "B"), entry("a2", "A"), entry("b3", "B")]);
    let ids: Vec<&str> = registry.all().iter().map(|a| a.id.as_str()).collect();
    assert_eq!(ids, vec!["a1", "a2", "b1", "b2", "b3"]);
}

#[test]
fn installed_applications_are_sorted_and_displayed_ones_only() {
    let registry = load();
    let names: Vec<&str> = registry.all().iter().map(|a| a.name.as_str()).collect();
    let mut sorted = names.clone();
    sorted.sort();
    assert_eq!(names, sorted);
    for app in registry.all() {
        assert!(registry.find_by_desktop_id(&app.id).is_some());
    }
}
