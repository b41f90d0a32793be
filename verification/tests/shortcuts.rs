use chimera_tui::panels::{shortcuts_from_domain, ActionView};

fn action(id: &'static str, key: Option<&'static str>, slash: Option<&'static str>, domain: &'static str) -> ActionView {
    ActionView { id, default_key: key, slash, title_key: id, domain }
}

#[test]
fn domain_shortcuts_prefer_key_then_slash_then_id() {
    let actions = vec![
        action("quest.pause", Some("p"), Some("pause"), "quest"),
        action("log.find", Some("/"), None, "log"),
        action("quest.resume", None, Some("resume"), "quest"),
        action("quest.export", None, None, "quest"),
    ];
    let r = shortcuts_from_domain(&actions, "quest");
    assert_eq!(r, vec![("p", "quest.pause"), ("resume", "quest.resume"), ("quest.export", "quest.export")]);
    assert!(shortcuts_from_domain(&actions, "budget").is_empty());
}
