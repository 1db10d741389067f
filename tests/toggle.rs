use sway_spawn::json::JsonValue;
use sway_spawn::spawn::{Action, AppConfig, Spawn, SpawnError, WindowState, resolve};
use sway_spawn::window::{
    SwayWindow, WindowIdentifier, WindowProperties, eq_ignore_ascii_case, matches_identifier,
};

fn text(x: &str) -> JsonValue {
    JsonValue::Str(x.to_string())
}

fn object(members: Vec<(&str, JsonValue)>) -> JsonValue {
    JsonValue::Object(members.into_iter().map(|(k, v)| (k.to_string(), v)).collect())
}

fn window_node(kind: &str, name: Option<&str>, app_id: Option<&str>, focused: bool) -> JsonValue {
    object(vec![
        ("id", JsonValue::Number("7".to_string())),
        ("type", text(kind)),
        ("name", name.map(text).unwrap_or(JsonValue::Null)),
        ("app_id", app_id.map(text).unwrap_or(JsonValue::Null)),
        ("focused", JsonValue::Bool(focused)),
        ("nodes", JsonValue::Array(vec![])),
        ("floating_nodes", JsonValue::Array(vec![])),
    ])
}

fn container(kind: &str, nodes: Vec<JsonValue>, floating: Vec<JsonValue>) -> JsonValue {
    object(vec![
        ("type", text(kind)),
        ("name", JsonValue::Null),
        ("focused", JsonValue::Bool(false)),
        ("nodes", JsonValue::Array(nodes)),
        ("floating_nodes", JsonValue::Array(floating)),
    ])
}

fn record(title: Option<&str>, app_id: Option<&str>, class: Option<&str>, focused: bool) -> SwayWindow {
    SwayWindow {
        title: title.map(|t| t.to_string()),
        app_id: app_id.map(|a| a.to_string()),
        focused,
        window_properties: class.map(|c| WindowProperties { class: Some(c.to_string()) }),
        window_type: "con".to_string(),
    }
}

fn app(command: &str, is_terminal: bool, identifier: WindowIdentifier, startup_override: Option<&str>) -> AppConfig {
    AppConfig {
        command: command.to_string(),
        is_terminal,
        identifier,
        startup_override: startup_override.map(|o| o.to_string()),
    }
}

fn spawn_with(apps: Vec<(&str, AppConfig)>) -> Spawn {
    Spawn {
        terminal: "foot".to_string(),
        apps: apps.into_iter().map(|(n, c)| (n.to_string(), c)).collect(),
    }
}

fn obsidian() -> Spawn {
    spawn_with(vec![(
        "obsidian",
        app("obsidian", false, WindowIdentifier::AppId("obsidian".to_string()), None),
    )])
}

fn fish(startup_override: Option<&str>) -> Spawn {
    spawn_with(vec![(
        "fish",
        app("fish", true, WindowIdentifier::Title("fish-term".to_string()), startup_override),
    )])
}

#[test]
fn title_matches_ignoring_ascii_case() {
    let id = WindowIdentifier::Title("Fish".to_string());
    for t in ["fish", "FISH", "FiSh", "Fish"] {
        assert!(matches_identifier(&record(Some(t), None, None, false), &id), "{}", t);
    }
    assert!(!matches_identifier(&record(Some("fishy"), None, None, false), &id));
    assert!(!matches_identifier(&record(Some("fis"), None, None, false), &id));
}

#[test]
fn app_id_and_class_match_ignoring_ascii_case() {
    let w = record(None, Some("Org.Gnome.Nautilus"), Some("KeePassXC"), false);
    assert!(matches_identifier(&w, &WindowIdentifier::AppId("org.gnome.nautilus".to_string())));
    assert!(matches_identifier(&w, &WindowIdentifier::Class("keepassxc".to_string())));
    assert!(!matches_identifier(&w, &WindowIdentifier::Class("keepass".to_string())));
    assert!(!matches_identifier(&w, &WindowIdentifier::Title("keepassxc".to_string())));
}

#[test]
fn missing_attributes_never_match() {
    let bare = record(None, None, None, true);
    assert!(!matches_identifier(&bare, &WindowIdentifier::Title("x".to_string())));
    assert!(!matches_identifier(&bare, &WindowIdentifier::AppId("x".to_string())));
    assert!(!matches_identifier(&bare, &WindowIdentifier::Class("x".to_string())));
    let mut no_class = record(None, None, None, true);
    no_class.window_properties = Some(WindowProperties { class: None });
    assert!(!matches_identifier(&no_class, &WindowIdentifier::Class("x".to_string())));
}

#[test]
fn case_folding_is_ascii_only() {
    assert!(eq_ignore_ascii_case("Straße", "STRAßE"));
    assert!(!eq_ignore_ascii_case("É", "é"));
    assert!(eq_ignore_ascii_case("", ""));
    assert!(!eq_ignore_ascii_case("a", "ab"));
    assert!(!eq_ignore_ascii_case("[", "{"));
}

#[test]
fn resolve_states() {
    let id = WindowIdentifier::AppId("obsidian".to_string());
    assert_eq!(resolve(&[], &id), WindowState::Absent);
    let other = record(None, Some("firefox"), None, true);
    assert_eq!(resolve(&[other], &id), WindowState::Absent);
    let unfocused = record(None, Some("obsidian"), None, false);
    let other = record(None, Some("firefox"), None, true);
    assert_eq!(resolve(&[other, unfocused], &id), WindowState::PresentUnfocused);
    let focused = record(None, Some("Obsidian"), None, true);
    let unfocused = record(None, Some("obsidian"), None, false);
    assert_eq!(resolve(&[unfocused, focused], &id), WindowState::PresentFocused);
}

#[test]
fn running_and_focused() {
    let s = obsidian();
    let id = WindowIdentifier::AppId("obsidian".to_string());
    let ws = vec![record(None, Some("firefox"), None, true), record(None, Some("obsidian"), None, false)];
    assert!(s.is_running(&ws, &id));
    assert!(!s.is_focused(&ws, &id));
    assert!(!s.is_running(&ws[..1], &id));
    let ws = vec![record(None, Some("obsidian"), None, true)];
    assert!(s.is_focused(&ws, &id));
}

#[test]
fn extraction_finds_every_window() {
    let tree = container(
        "root",
        vec![container(
            "output",
            vec![container(
                "workspace",
                vec![
                    window_node("con", Some("one"), None, false),
                    container("con", vec![window_node("con", Some("three"), None, false)], vec![]),
                ],
                vec![window_node("floating_con", Some("four"), Some("float"), true)],
            )],
            vec![],
        )],
        vec![],
    );
    let s = obsidian();
    let ws = s.get_windows(&tree);
    let titles: Vec<Option<String>> = ws.iter().map(|w| w.title.clone()).collect();
    assert_eq!(
        titles,
        vec![Some("one".to_string()), None, Some("three".to_string()), Some("four".to_string())]
    );
    assert_eq!(ws.len(), 4);
    assert!(ws[3].focused);
    assert_eq!(ws[3].window_type, "floating_con");
}

#[test]
fn extraction_of_empty_tree() {
    let s = obsidian();
    assert_eq!(s.get_windows(&container("root", vec![], vec![])).len(), 0);
    assert_eq!(s.get_windows(&object(vec![])).len(), 0);
    assert_eq!(s.get_windows(&JsonValue::Null).len(), 0);
}

#[test]
fn extraction_appends_to_what_is_there() {
    let s = obsidian();
    let mut ws = vec![record(Some("old"), None, None, false)];
    s.extract_windows(&window_node("con", Some("new"), None, false), &mut ws);
    assert_eq!(ws.len(), 2);
    assert_eq!(ws[1].title, Some("new".to_string()));
}

#[test]
fn malformed_window_is_skipped() {
    let malformed = object(vec![
        ("type", text("con")),
        ("name", text("broken")),
        ("focused", text("yes")),
    ]);
    let tree = container(
        "workspace",
        vec![window_node("con", Some("good"), None, false), malformed],
        vec![],
    );
    let ws = obsidian().get_windows(&tree);
    assert_eq!(ws.len(), 1);
    assert_eq!(ws[0].title, Some("good".to_string()));
}

#[test]
fn skipped_window_keeps_its_children() {
    let missing_focus = object(vec![
        ("type", text("con")),
        ("nodes", JsonValue::Array(vec![window_node("con", Some("inner"), None, false)])),
    ]);
    let ws = obsidian().get_windows(&missing_focus);
    assert_eq!(ws.len(), 1);
    assert_eq!(ws[0].title, Some("inner".to_string()));
}

#[test]
fn decoding_window_members() {
    let node = object(vec![
        ("type", text("con")),
        ("name", text("Vault")),
        ("app_id", JsonValue::Null),
        ("focused", JsonValue::Bool(true)),
        ("window_properties", object(vec![("class", text("obsidian")), ("instance", text("o"))])),
    ]);
    let w = SwayWindow::from_json(&node).unwrap();
    assert_eq!(w, SwayWindow {
        title: Some("Vault".to_string()),
        app_id: None,
        focused: true,
        window_properties: Some(WindowProperties { class: Some("obsidian".to_string()) }),
        window_type: "con".to_string(),
    });
    let seq_props = object(vec![
        ("type", text("con")),
        ("focused", JsonValue::Bool(false)),
        ("window_properties", JsonValue::Array(vec![text("Xterm")])),
    ]);
    let w = SwayWindow::from_json(&seq_props).unwrap();
    assert_eq!(w.window_properties, Some(WindowProperties { class: Some("Xterm".to_string()) }));
    let bad_props = object(vec![
        ("type", text("con")),
        ("focused", JsonValue::Bool(false)),
        ("window_properties", JsonValue::Array(vec![])),
    ]);
    assert_eq!(SwayWindow::from_json(&bad_props), None);
    let bad_name = object(vec![
        ("type", text("con")),
        ("name", JsonValue::Number("3".to_string())),
        ("focused", JsonValue::Bool(false)),
    ]);
    assert_eq!(SwayWindow::from_json(&bad_name), None);
    let no_type = object(vec![("focused", JsonValue::Bool(false))]);
    assert_eq!(SwayWindow::from_json(&no_type), None);
    assert_eq!(SwayWindow::from_json(&JsonValue::Array(vec![])), None);
}

#[test]
fn lookup_takes_first_member() {
    let v = JsonValue::Object(vec![
        ("a".to_string(), JsonValue::Bool(true)),
        ("a".to_string(), JsonValue::Bool(false)),
    ]);
    assert_eq!(v.get("a"), Some(&JsonValue::Bool(true)));
    assert_eq!(v.get("b"), None);
    assert_eq!(JsonValue::Null.get("a"), None);
    assert_eq!(text("x").as_str(), Some(&"x".to_string()));
    assert_eq!(JsonValue::Null.as_array(), None);
}

#[test]
fn absent_app_is_launched_with_its_command() {
    let a = obsidian().handle_window("obsidian", &[]).unwrap();
    assert_eq!(a, Action::Launch("obsidian".to_string()));
    assert_eq!(a.swaymsg_args(), vec!["exec".to_string(), "obsidian".to_string()]);
}

#[test]
fn unfocused_app_is_focused() {
    let ws = [record(None, Some("obsidian"), None, false)];
    let a = obsidian().handle_window("obsidian", &ws).unwrap();
    assert_eq!(a, Action::Focus("[app_id=\"obsidian\"]".to_string()));
    assert_eq!(a.swaymsg_args(), vec!["[app_id=\"obsidian\"] focus".to_string()]);
}

#[test]
fn focused_app_is_hidden() {
    let ws = [record(None, Some("obsidian"), None, true)];
    let a = obsidian().handle_window("obsidian", &ws).unwrap();
    assert_eq!(a, Action::Hide("[app_id=\"obsidian\"]".to_string()));
    assert_eq!(a.swaymsg_args(), vec!["[app_id=\"obsidian\"] move scratchpad".to_string()]);
}

#[test]
fn terminal_app_launches_in_titled_terminal() {
    let a = fish(None).handle_window("fish", &[]).unwrap();
    assert_eq!(a, Action::Launch("foot --title fish-term --command fish".to_string()));
}

#[test]
fn startup_override_is_used_verbatim() {
    let a = fish(Some("foot -e fish -l")).handle_window("fish", &[]).unwrap();
    assert_eq!(a, Action::Launch("foot -e fish -l".to_string()));
}

#[test]
fn terminal_app_known_by_class_runs_its_command() {
    let s = spawn_with(vec![]);
    let c = app("python", true, WindowIdentifier::Class("py".to_string()), None);
    assert_eq!(s.build_startup_command(&c), "python");
    let c = app("julia", false, WindowIdentifier::Title("julia".to_string()), None);
    assert_eq!(s.build_startup_command(&c), "julia");
}

#[test]
fn criteria_name_each_variant() {
    let s = obsidian();
    assert_eq!(s.build_criteria(&WindowIdentifier::Title("fish".to_string())), "[title=\"fish\"]");
    assert_eq!(s.build_criteria(&WindowIdentifier::AppId("a.b".to_string())), "[app_id=\"a.b\"]");
    assert_eq!(s.build_criteria(&WindowIdentifier::Class("KeePassXC".to_string())), "[class=\"KeePassXC\"]");
    assert_eq!(
        s.focus_window(&WindowIdentifier::Class("c".to_string())),
        Action::Focus("[class=\"c\"]".to_string())
    );
    assert_eq!(
        s.move_to_scratchpad(&WindowIdentifier::Title("t".to_string())),
        Action::Hide("[title=\"t\"]".to_string())
    );
}

#[test]
fn decide_covers_each_state() {
    let s = fish(None);
    let c = &s.apps[0].1;
    assert_eq!(s.decide(WindowState::Absent, c), Action::Launch("foot --title fish-term --command fish".to_string()));
    assert_eq!(s.decide(WindowState::PresentUnfocused, c), Action::Focus("[title=\"fish-term\"]".to_string()));
    assert_eq!(s.decide(WindowState::PresentFocused, c), Action::Hide("[title=\"fish-term\"]".to_string()));
}

#[test]
fn focus_of_other_window_does_not_leak() {
    let ws = [record(None, Some("obsidian"), None, false), record(None, Some("firefox"), None, true)];
    let a = obsidian().handle_window("obsidian", &ws).unwrap();
    assert_eq!(a, Action::Focus("[app_id=\"obsidian\"]".to_string()));
}

#[test]
fn unknown_application_is_an_error() {
    let e = obsidian().handle_window("vim", &[]).unwrap_err();
    assert_eq!(e, SpawnError::UnknownApplication("vim".to_string()));
    assert_eq!(e.message(), "Unknown application: vim");
    assert!(obsidian().app_config("Obsidian").is_err());
    assert!(obsidian().app_config("obsidian").is_ok());
}

#[test]
fn first_configuration_of_a_name_counts() {
    let s = spawn_with(vec![
        ("x", app("first", false, WindowIdentifier::AppId("x".to_string()), None)),
        ("x", app("second", false, WindowIdentifier::AppId("x".to_string()), None)),
    ]);
    assert_eq!(s.handle_window("x", &[]).unwrap(), Action::Launch("first".to_string()));
}
