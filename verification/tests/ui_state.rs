use gpui_port_tst::settings::{
    nav_item_style, tab_content, KeybindHint, Palette, SettingsTab, TabBody, Weight,
};
use gpui_port_tst::shell::{
    app_keybindings, AppPage, ResultsPanel, ShellAction, ShellKeyBinding, ShellState,
};

#[test]
fn tab_labels_and_ids() {
    assert_eq!(SettingsTab::General.label(), "General");
    assert_eq!(SettingsTab::Keybinds.label(), "Keybinds");
    assert_eq!(SettingsTab::About.label(), "About");
    assert_eq!(SettingsTab::General.id(), "settings-tab-general");
    assert_eq!(SettingsTab::Keybinds.id(), "settings-tab-keybinds");
    assert_eq!(SettingsTab::About.id(), "settings-tab-about");
    assert_eq!(
        SettingsTab::TABS,
        [SettingsTab::General, SettingsTab::Keybinds, SettingsTab::About]
    );
}

#[test]
fn tab_ids_and_labels_are_distinct() {
    for a in SettingsTab::TABS {
        for b in SettingsTab::TABS {
            if a != b {
                assert_ne!(a.id(), b.id());
                assert_ne!(a.label(), b.label());
            }
        }
    }
}

#[test]
fn nav_item_active_and_inactive() {
    let on = nav_item_style(SettingsTab::Keybinds, true);
    assert_eq!(on.id, "settings-tab-keybinds");
    assert_eq!(on.label, "Keybinds");
    assert_eq!(on.background, Palette::Container);
    assert_eq!(on.border, Palette::Border);
    assert_eq!(on.text, Palette::Text);
    assert_eq!(on.weight, Weight::Semibold);
    let off = nav_item_style(SettingsTab::About, false);
    assert_eq!(off.background, Palette::Background);
    assert_eq!(off.border, Palette::Background);
    assert_eq!(off.text, Palette::Disabled);
    assert_eq!(off.weight, Weight::Normal);
}

#[test]
fn tab_bodies() {
    let g = tab_content(SettingsTab::General);
    assert_eq!(g.title, "General");
    assert_eq!(g.body, TabBody::Note("Application preferences will go here."));
    let k = tab_content(SettingsTab::Keybinds);
    assert_eq!(k.title, "Keybinds");
    assert_eq!(
        k.body,
        TabBody::Keybinds(vec![
            KeybindHint { action: "Open Settings", keys: "cmd-, / ctrl-," },
            KeybindHint { action: "Leave Settings", keys: "escape (when Settings is open)" },
        ])
    );
    let a = tab_content(SettingsTab::About);
    assert_eq!(a.title, "About");
    assert_eq!(
        a.body,
        TabBody::Credits { product: "the-search-thing", author: "by the-search-company" }
    );
}

#[test]
fn fresh_shell() {
    let s: ShellState<u32> = ShellState::new();
    assert_eq!(s.page, AppPage::Search);
    assert_eq!(s.settings_tab, SettingsTab::General);
    assert!(!s.search_busy);
    assert!(s.search_error.is_none());
    assert!(s.search_results.is_empty());
    assert!(!s.show_workspace(false));
    assert!(s.show_workspace(true));
    assert_eq!(s.results_panel(), ResultsPanel::NoHits);
}

#[test]
fn blank_query_is_ignored() {
    let mut s: ShellState<u32> = ShellState::new();
    s.finish_search(Err("old".to_string()));
    assert_eq!(s.submit_search("   \t\n"), None);
    assert_eq!(s.submit_search(""), None);
    assert!(!s.search_busy);
    assert_eq!(s.search_error, Some("old".to_string()));
}

#[test]
fn submit_trims_and_starts_search() {
    let mut s: ShellState<u32> = ShellState::new();
    s.finish_search(Ok(vec![4, 5]));
    assert_eq!(s.submit_search("  hello world \n"), Some("hello world".to_string()));
    assert!(s.search_busy);
    assert!(s.search_results.is_empty());
    assert!(s.search_error.is_none());
    assert_eq!(s.results_panel(), ResultsPanel::Searching);
    assert!(s.show_workspace(false));
}

#[test]
fn search_shows_own_outcome() {
    let mut s: ShellState<u32> = ShellState::new();
    s.submit_search("q");
    s.finish_search(Ok(vec![1, 2, 3]));
    assert!(!s.search_busy);
    assert_eq!(s.search_results, vec![1, 2, 3]);
    assert_eq!(s.results_panel(), ResultsPanel::Hits);

    s.submit_search("again");
    s.finish_search(Err("helix down".to_string()));
    assert!(!s.search_busy);
    assert!(s.search_results.is_empty());
    assert_eq!(s.results_panel(), ResultsPanel::Failed("helix down".to_string()));
    assert!(s.show_workspace(false));

    s.submit_search("third");
    s.finish_search(Ok(vec![]));
    assert_eq!(s.results_panel(), ResultsPanel::NoHits);
    assert!(!s.show_workspace(false));
}

#[test]
fn settings_open_and_close() {
    let mut s: ShellState<u32> = ShellState::new();
    assert!(!s.close_settings());
    assert_eq!(s.page, AppPage::Search);
    s.open_settings();
    s.open_settings();
    assert_eq!(s.page, AppPage::Settings);
    s.select_tab(SettingsTab::About);
    assert_eq!(s.settings_tab, SettingsTab::About);
    assert!(s.close_settings());
    assert_eq!(s.page, AppPage::Search);
    assert_eq!(s.settings_tab, SettingsTab::About);
}

#[test]
fn shell_key_bindings() {
    assert_eq!(
        app_keybindings(),
        vec![
            ShellKeyBinding { keys: "cmd-,", action: ShellAction::OpenSettings },
            ShellKeyBinding { keys: "ctrl-,", action: ShellAction::OpenSettings },
            ShellKeyBinding { keys: "escape", action: ShellAction::CloseSettings },
        ]
    );
}

#[test]
fn unicode_white_space_only_query_is_ignored() {
    let mut s: ShellState<u32> = ShellState::new();
    assert_eq!(s.submit_search("\u{3000}\u{a0}\t \u{2028}\u{85}"), None);
    assert!(!s.search_busy);
    assert_eq!(
        s.submit_search("\u{200b}"),
        Some("\u{200b}".to_string())
    );
    assert!(s.search_busy);
}

#[test]
fn keybind_hints_name_the_bound_keys() {
    let hints = match tab_content(SettingsTab::Keybinds).body {
        TabBody::Keybinds(rows) => rows,
        other => panic!("unexpected {other:?}"),
    };
    for b in app_keybindings() {
        let hint = match b.action {
            ShellAction::OpenSettings => hints[0].keys,
            ShellAction::CloseSettings => hints[1].keys,
        };
        assert!(hint.contains(b.keys));
    }
    assert_eq!(hints[0].keys, "cmd-, / ctrl-,");
    assert_eq!(hints[1].keys, "escape (when Settings is open)");
}
