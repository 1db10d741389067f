//! The toggle: resolve the application's state from its windows and pick the
//! one command that moves it on.

use vstd::prelude::*;
use crate::json::{JsonValue, lemma_field_decreases};
use crate::tree::{windows_of, windows_of_list, lemma_windows_of_prefix, own_window, is_window_kind};
use crate::window::{SwayWindow, WindowIdentifier, matches_identifier, window_matches};

verus! {

/// How one application is launched and recognised.
pub struct AppConfig {
    /// The command that starts the application.
    pub command: String,
    /// Whether the application runs inside a terminal.
    pub is_terminal: bool,
    /// How the application's windows are recognised.
    pub identifier: WindowIdentifier,
    /// A command that replaces every other way of starting the application.
    pub startup_override: Option<String>,
}

/// The configuration: the terminal program, and each application by name.
/// Where a name is given twice, its first entry counts.
pub struct Spawn {
    pub terminal: String,
    pub apps: Vec<(String, AppConfig)>,
}

/// Where an application stands relative to the window manager.
#[derive(PartialEq, Eq, Structural, Clone, Copy, Debug)]
pub enum WindowState {
    Absent,
    PresentUnfocused,
    PresentFocused,
}

/// The one step that a toggle takes.
#[derive(PartialEq, Eq, Debug)]
pub enum Action {
    /// Start the application with this command.
    Launch(String),
    /// Focus the windows that these criteria select.
    Focus(String),
    /// Move the windows that these criteria select to the scratchpad.
    Hide(String),
}

/// Why a toggle cannot be made.
#[derive(PartialEq, Eq, Debug)]
pub enum SpawnError {
    /// No application of this name is configured.
    UnknownApplication(String),
}

/// The configuration of the first entry named `name`.
pub open spec fn app_lookup(apps: Seq<(String, AppConfig)>, name: Seq<char>) -> Option<AppConfig>
    decreases apps.len(),
{
    if apps.len() == 0 {
        None
    } else if apps[0].0@ == name {
        Some(apps[0].1)
    } else {
        app_lookup(apps.drop_first(), name)
    }
}

proof fn lemma_app_lookup_skip(apps: Seq<(String, AppConfig)>, name: Seq<char>, i: int)
    requires
        0 <= i <= apps.len(),
        forall|j: int| 0 <= j < i ==> apps[j].0@ != name,
    ensures
        app_lookup(apps, name) == app_lookup(apps.subrange(i, apps.len() as int), name),
    decreases i,
{
    if i > 0 {
        let rest = apps.drop_first();
        lemma_app_lookup_skip(rest, name, i - 1);
        assert(rest.subrange(i - 1, rest.len() as int) =~= apps.subrange(i, apps.len() as int));
    } else {
        assert(apps.subrange(0, apps.len() as int) =~= apps);
    }
}

/// Some window of `ws` belongs to the application.
pub open spec fn any_match(ws: Seq<SwayWindow>, id: WindowIdentifier) -> bool {
    exists|i: int| 0 <= i < ws.len() && #[trigger] window_matches(ws[i], id)
}

/// Some focused window of `ws` belongs to the application.
pub open spec fn any_focused_match(ws: Seq<SwayWindow>, id: WindowIdentifier) -> bool {
    exists|i: int| 0 <= i < ws.len() && ws[i].focused && #[trigger] window_matches(ws[i], id)
}

/// The application's state: absent without a window of its own, focused where
/// one of its windows has the focus, unfocused otherwise.
pub open spec fn state_of(ws: Seq<SwayWindow>, id: WindowIdentifier) -> WindowState {
    if !any_match(ws, id) {
        WindowState::Absent
    } else if any_focused_match(ws, id) {
        WindowState::PresentFocused
    } else {
        WindowState::PresentUnfocused
    }
}

/// The selection criteria for the windows that `id` identifies.
pub open spec fn criteria(id: WindowIdentifier) -> Seq<char> {
    match id {
        WindowIdentifier::Title(t) => "[title=\""@ + t@ + "\"]"@,
        WindowIdentifier::AppId(a) => "[app_id=\""@ + a@ + "\"]"@,
        WindowIdentifier::Class(c) => "[class=\""@ + c@ + "\"]"@,
    }
}

/// The command that starts an application: the override where there is one;
/// for a terminal application known by its title, the terminal with that title
/// running the command; the command itself otherwise.
pub open spec fn startup_command(terminal: Seq<char>, config: AppConfig) -> Seq<char> {
    match config.startup_override {
        Some(o) => o@,
        None => match config.identifier {
            WindowIdentifier::Title(t) => if config.is_terminal {
                terminal + " --title "@ + t@ + " --command "@ + config.command@
            } else {
                config.command@
            },
            _ => config.command@,
        },
    }
}

/// The text that an action carries.
pub open spec fn action_text(a: Action) -> Seq<char> {
    match a {
        Action::Launch(c) => c@,
        Action::Focus(c) => c@,
        Action::Hide(c) => c@,
    }
}

/// The action that the state calls for.
pub open spec fn action_is(a: Action, terminal: Seq<char>, config: AppConfig, state: WindowState) -> bool {
    match state {
        WindowState::Absent => a is Launch && action_text(a) == startup_command(terminal, config),
        WindowState::PresentUnfocused => a is Focus && action_text(a) == criteria(config.identifier),
        WindowState::PresentFocused => a is Hide && action_text(a) == criteria(config.identifier),
    }
}

/// The arguments of the window-manager message that carries out an action.
pub open spec fn message_args(a: Action) -> Seq<Seq<char>> {
    match a {
        Action::Launch(c) => seq!["exec"@, c@],
        Action::Focus(c) => seq![c@ + " focus"@],
        Action::Hide(c) => seq![c@ + " move scratchpad"@],
    }
}

/// The state is always one of the three, and it is absent exactly when no
/// window belongs to the application.
pub proof fn lemma_absent_iff_no_match(ws: Seq<SwayWindow>, id: WindowIdentifier)
    ensures
        state_of(ws, id) == WindowState::Absent || state_of(ws, id) == WindowState::PresentUnfocused
            || state_of(ws, id) == WindowState::PresentFocused,
        (state_of(ws, id) == WindowState::Absent) <==> (forall|i: int|
            0 <= i < ws.len() ==> !#[trigger] window_matches(ws[i], id)),
{
}

/// Where some window belongs to the application, the application is focused
/// exactly when one of its own windows has the focus.
pub proof fn lemma_focused_iff_own_window_focused(ws: Seq<SwayWindow>, id: WindowIdentifier)
    requires
        exists|i: int| 0 <= i < ws.len() && #[trigger] window_matches(ws[i], id),
    ensures
        (state_of(ws, id) == WindowState::PresentFocused) <==> (exists|i: int|
            0 <= i < ws.len() && ws[i].focused && #[trigger] window_matches(ws[i], id)),
{
}

/// Replacing a window that does not belong to the application by another such
/// window (one that has the focus, say) leaves the application's state as it was.
pub proof fn lemma_foreign_window_ignored(ws: Seq<SwayWindow>, id: WindowIdentifier, i: int, w: SwayWindow)
    requires
        0 <= i < ws.len(),
        !window_matches(ws[i], id),
        !window_matches(w, id),
    ensures
        state_of(ws.update(i, w), id) == state_of(ws, id),
{
    let vs = ws.update(i, w);
    assert forall|j: int| 0 <= j < ws.len() implies (window_matches(vs[j], id) == window_matches(ws[j], id)
        && (vs[j].focused && window_matches(vs[j], id)) == (ws[j].focused && window_matches(ws[j], id))) by {
        if j != i {
            assert(vs[j] == ws[j]);
        }
    }
    if any_match(ws, id) {
        let j = choose|j: int| 0 <= j < ws.len() && #[trigger] window_matches(ws[j], id);
        assert(window_matches(vs[j], id));
    }
    if any_match(vs, id) {
        let j = choose|j: int| 0 <= j < vs.len() && #[trigger] window_matches(vs[j], id);
        assert(window_matches(ws[j], id));
    }
    if any_focused_match(ws, id) {
        let j = choose|j: int| 0 <= j < ws.len() && ws[j].focused && #[trigger] window_matches(ws[j], id);
        assert(window_matches(vs[j], id));
    }
    if any_focused_match(vs, id) {
        let j = choose|j: int| 0 <= j < vs.len() && vs[j].focused && #[trigger] window_matches(vs[j], id);
        assert(window_matches(ws[j], id));
    }
}

impl Action {
    /// The arguments of the window-manager message that carries out this action.
    pub fn swaymsg_args(&self) -> (r: Vec<String>)
        ensures
            r@.len() == message_args(*self).len(),
            forall|i: int| 0 <= i < r@.len() ==> #[trigger] r@[i]@ == message_args(*self)[i],
    {
        let mut r: Vec<String> = Vec::new();
        match self {
            Action::Launch(c) => {
                r.push(String::from_str("exec"));
                r.push(c.clone());
            },
            Action::Focus(c) => {
                let mut m = c.clone();
                m.append(" focus");
                r.push(m);
            },
            Action::Hide(c) => {
                let mut m = c.clone();
                m.append(" move scratchpad");
                r.push(m);
            },
        }
        r
    }
}

impl SpawnError {
    /// A message for the user.
    pub fn message(&self) -> (r: String)
        ensures
            match self {
                SpawnError::UnknownApplication(n) => r@ == "Unknown application: "@ + n@,
            },
    {
        match self {
            SpawnError::UnknownApplication(n) => {
                let mut m = String::from_str("Unknown application: ");
                m.append(n.as_str());
                m
            },
        }
    }
}

/// The state of the application that `identifier` identifies among `windows`.
pub fn resolve(windows: &[SwayWindow], identifier: &WindowIdentifier) -> (r: WindowState)
    ensures
        r == state_of(windows@, *identifier),
{
    let mut found = false;
    let mut focused = false;
    let mut i: usize = 0;
    while i < windows.len()
        invariant
            0 <= i <= windows@.len(),
            found == exists|j: int| 0 <= j < i && #[trigger] window_matches(windows@[j], *identifier),
            focused == exists|j: int|
                0 <= j < i && windows@[j].focused && #[trigger] window_matches(windows@[j], *identifier),
        decreases windows@.len() - i,
    {
        if matches_identifier(&windows[i], identifier) {
            found = true;
            if windows[i].focused {
                focused = true;
            }
        }
        i = i + 1;
    }
    if !found {
        WindowState::Absent
    } else if focused {
        WindowState::PresentFocused
    } else {
        WindowState::PresentUnfocused
    }
}


/// Whether a node of this kind bears a window.
fn bears_window(kind: &String) -> (r: bool)
    ensures
        r == is_window_kind(kind@),
{
    *kind == String::from_str("floating_con") || *kind == String::from_str("con")
}

impl Spawn {
    /// The configuration of the application named `app_name`.
    pub fn app_config(&self, app_name: &str) -> (r: Result<&AppConfig, SpawnError>)
        ensures
            app_lookup(self.apps@, app_name@) matches Some(c) ==> r == Ok::<&AppConfig, SpawnError>(&c),
            app_lookup(self.apps@, app_name@) is None ==> (r matches Err(SpawnError::UnknownApplication(n)) && n@ == app_name@),
    {
        let name = String::from_str(app_name);
        let mut i: usize = 0;
        while i < self.apps.len()
            invariant
                0 <= i <= self.apps@.len(),
                name@ == app_name@,
                forall|j: int| 0 <= j < i ==> self.apps@[j].0@ != app_name@,
            decreases self.apps@.len() - i,
        {
            if self.apps[i].0 == name {
                proof {
                    lemma_app_lookup_skip(self.apps@, app_name@, i as int);
                    let rest = self.apps@.subrange(i as int, self.apps@.len() as int);
                    assert(rest[0] == self.apps@[i as int]);
                }
                return Ok(&self.apps[i].1);
            }
            i = i + 1;
        }
        proof {
            lemma_app_lookup_skip(self.apps@, app_name@, i as int);
        }
        Err(SpawnError::UnknownApplication(name))
    }

    /// Appends to `windows` the windows of the subtree at `node`, in pre-order.
    pub fn extract_windows(&self, node: &JsonValue, windows: &mut Vec<SwayWindow>)
        ensures
            final(windows)@ == old(windows)@ + windows_of(*node),
        decreases node,
    {
        let ghost start = windows@;
        let mut own = false;
        if let Some(t) = node.get("type") {
            if let Some(window_type) = t.as_str() {
                own = bears_window(window_type);
            }
        }
        if own {
            if let Some(window) = SwayWindow::from_json(node) {
                windows.push(window);
            }
        }
        assert(windows@ == start + own_window(*node));
        if let Some(children) = node.get("nodes") {
            if let Some(nodes) = children.as_array() {
                proof {
                    lemma_field_decreases(*node, "nodes"@);
                    assert(decreases_to!(*children => children->Array_0));
                }
                self.extract_children(nodes, windows);
            }
        }
        if let Some(children) = node.get("floating_nodes") {
            if let Some(floating) = children.as_array() {
                proof {
                    lemma_field_decreases(*node, "floating_nodes"@);
                    assert(decreases_to!(*children => children->Array_0));
                }
                self.extract_children(floating, windows);
            }
        }
    }

    fn extract_children(&self, nodes: &Vec<JsonValue>, windows: &mut Vec<SwayWindow>)
        ensures
            final(windows)@ == old(windows)@ + windows_of_list(nodes@),
        decreases nodes,
    {
        let ghost start = windows@;
        let mut i: usize = 0;
        while i < nodes.len()
            invariant
                0 <= i <= nodes@.len(),
                windows@ == start + windows_of_list(nodes@.subrange(0, i as int)),
            decreases nodes@.len() - i,
        {
            proof {
                assert(decreases_to!(nodes => nodes@));
                assert(decreases_to!(nodes@ => nodes@[i as int]));
                lemma_windows_of_prefix(nodes@, i as int);
            }
            self.extract_windows(&nodes[i], windows);
            i = i + 1;
        }
        assert(nodes@.subrange(0, nodes@.len() as int) =~= nodes@);
    }

    /// The windows of a snapshot of the window tree, in pre-order.
    pub fn get_windows(&self, tree: &JsonValue) -> (r: Vec<SwayWindow>)
        ensures
            r@ == windows_of(*tree),
    {
        let mut windows: Vec<SwayWindow> = Vec::new();
        self.extract_windows(tree, &mut windows);
        assert(windows@ =~= windows_of(*tree));
        windows
    }

    /// Whether some window of `windows` belongs to the application.
    pub fn is_running(&self, windows: &[SwayWindow], identifier: &WindowIdentifier) -> (r: bool)
        ensures
            r == any_match(windows@, *identifier),
    {
        let mut i: usize = 0;
        while i < windows.len()
            invariant
                0 <= i <= windows@.len(),
                forall|j: int| 0 <= j < i ==> !#[trigger] window_matches(windows@[j], *identifier),
            decreases windows@.len() - i,
        {
            if matches_identifier(&windows[i], identifier) {
                return true;
            }
            i = i + 1;
        }
        false
    }

    /// Whether some focused window of `windows` belongs to the application.
    pub fn is_focused(&self, windows: &[SwayWindow], identifier: &WindowIdentifier) -> (r: bool)
        ensures
            r == any_focused_match(windows@, *identifier),
    {
        let mut i: usize = 0;
        while i < windows.len()
            invariant
                0 <= i <= windows@.len(),
                forall|j: int|
                    0 <= j < i ==> !(windows@[j].focused && #[trigger] window_matches(windows@[j], *identifier)),
            decreases windows@.len() - i,
        {
            if windows[i].focused && matches_identifier(&windows[i], identifier) {
                return true;
            }
            i = i + 1;
        }
        false
    }

    /// The command that starts the application of `config`.
    pub fn build_startup_command(&self, config: &AppConfig) -> (r: String)
        ensures
            r@ == startup_command(self.terminal@, *config),
    {
        if let Some(override_cmd) = &config.startup_override {
            return override_cmd.clone();
        }
        if config.is_terminal {
            if let WindowIdentifier::Title(title) = &config.identifier {
                let mut c = self.terminal.clone();
                c.append(" --title ");
                c.append(title.as_str());
                c.append(" --command ");
                c.append(config.command.as_str());
                return c;
            }
        }
        config.command.clone()
    }

    /// The selection criteria for the windows that `identifier` identifies.
    pub fn build_criteria(&self, identifier: &WindowIdentifier) -> (r: String)
        ensures
            r@ == criteria(*identifier),
    {
        let (mut c, value) = match identifier {
            WindowIdentifier::Title(title) => (String::from_str("[title=\""), title),
            WindowIdentifier::AppId(app_id) => (String::from_str("[app_id=\""), app_id),
            WindowIdentifier::Class(class) => (String::from_str("[class=\""), class),
        };
        c.append(value.as_str());
        c.append("\"]");
        c
    }

    /// The action that focuses the application's windows.
    pub fn focus_window(&self, identifier: &WindowIdentifier) -> (r: Action)
        ensures
            r is Focus,
            action_text(r) == criteria(*identifier),
    {
        Action::Focus(self.build_criteria(identifier))
    }

    /// The action that moves the application's windows to the scratchpad.
    pub fn move_to_scratchpad(&self, identifier: &WindowIdentifier) -> (r: Action)
        ensures
            r is Hide,
            action_text(r) == criteria(*identifier),
    {
        Action::Hide(self.build_criteria(identifier))
    }

    /// The action that the application's state calls for: launch where it is
    /// absent, focus where it is unfocused, hide where it is focused.
    pub fn decide(&self, state: WindowState, config: &AppConfig) -> (r: Action)
        ensures
            action_is(r, self.terminal@, *config, state),
    {
        match state {
            WindowState::Absent => Action::Launch(self.build_startup_command(config)),
            WindowState::PresentUnfocused => self.focus_window(&config.identifier),
            WindowState::PresentFocused => self.move_to_scratchpad(&config.identifier),
        }
    }

    /// The toggle of the application named `app_name`, given the windows of a
    /// snapshot: an error where no such application is configured, else the
    /// action that its state among `windows` calls for.
    pub fn handle_window(&self, app_name: &str, windows: &[SwayWindow]) -> (r: Result<Action, SpawnError>)
        ensures
            app_lookup(self.apps@, app_name@) matches Some(c) ==> (r matches Ok(a) && action_is(
                a,
                self.terminal@,
                c,
                state_of(windows@, c.identifier),
            )),
            app_lookup(self.apps@, app_name@) is None ==> (r matches Err(SpawnError::UnknownApplication(n)) && n@ == app_name@),
    {
        let config = match self.app_config(app_name) {
            Ok(c) => c,
            Err(e) => return Err(e),
        };
        let state = resolve(windows, &config.identifier);
        Ok(self.decide(state, config))
    }
}

} // verus!
