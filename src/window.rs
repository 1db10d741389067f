//! Window records, how a tree node decodes into one, and how a record is
//! matched against an identifier.

use vstd::prelude::*;
use crate::json::{JsonValue, field};

verus! {

/// The optional properties block of a window.
#[derive(PartialEq, Eq, Debug)]
pub struct WindowProperties {
    pub class: Option<String>,
}

/// One window of a snapshot.
#[derive(PartialEq, Eq, Debug)]
pub struct SwayWindow {
    /// The display name (the node's `name`).
    pub title: Option<String>,
    pub app_id: Option<String>,
    pub focused: bool,
    pub window_properties: Option<WindowProperties>,
    /// The node kind (the node's `type`).
    pub window_type: String,
}

/// How an application's windows are recognised.
#[derive(PartialEq, Eq, Debug)]
pub enum WindowIdentifier {
    Title(String),
    AppId(String),
    Class(String),
}

/// An optional string member: absent or null gives `None`, a string gives it,
/// anything else does not decode (outer `None`).
pub open spec fn decode_opt_string(v: Option<JsonValue>) -> Option<Option<String>> {
    match v {
        None => Some(None),
        Some(JsonValue::Null) => Some(None),
        Some(JsonValue::Str(s)) => Some(Some(s)),
        _ => None,
    }
}

/// The properties block: absent or null gives `None`; an object gives its
/// `class`; an array of exactly one element gives that element as the class.
pub open spec fn decode_properties(v: Option<JsonValue>) -> Option<Option<WindowProperties>> {
    let class = match v {
        Some(JsonValue::Object(_)) => decode_opt_string(field(v->0, "class"@)),
        Some(JsonValue::Array(a)) => if a@.len() == 1 {
            decode_opt_string(Some(a@[0]))
        } else {
            None
        },
        _ => None,
    };
    match v {
        None => Some(None),
        Some(JsonValue::Null) => Some(None),
        _ => match class {
            Some(c) => Some(Some(WindowProperties { class: c })),
            None => None,
        },
    }
}

/// The window that an object node decodes to: `name`, `app_id` and
/// `window_properties` are optional, `focused` must be a boolean and `type` a
/// string; other members are ignored. `None` where the node does not decode.
pub open spec fn decode_window(node: JsonValue) -> Option<SwayWindow> {
    let title = decode_opt_string(field(node, "name"@));
    let app_id = decode_opt_string(field(node, "app_id"@));
    let props = decode_properties(field(node, "window_properties"@));
    match (title, app_id, props, field(node, "focused"@), field(node, "type"@)) {
        (
            Some(title),
            Some(app_id),
            Some(window_properties),
            Some(JsonValue::Bool(focused)),
            Some(JsonValue::Str(window_type)),
        ) => if node is Object {
            Some(SwayWindow { title, app_id, focused, window_properties, window_type })
        } else {
            None
        },
        _ => None,
    }
}

fn decode_string_member(v: Option<&JsonValue>) -> (r: Option<Option<String>>)
    ensures
        r == decode_opt_string(match v { Some(x) => Some(*x), None => None }),
{
    match v {
        None => Some(None),
        Some(JsonValue::Null) => Some(None),
        Some(JsonValue::Str(s)) => Some(Some(s.clone())),
        _ => None,
    }
}

fn decode_properties_member(v: Option<&JsonValue>) -> (r: Option<Option<WindowProperties>>)
    ensures
        r == decode_properties(match v { Some(x) => Some(*x), None => None }),
{
    match v {
        None => Some(None),
        Some(JsonValue::Null) => Some(None),
        Some(JsonValue::Object(_)) => {
            let p = v.unwrap();
            match decode_string_member(p.get("class")) {
                Some(class) => Some(Some(WindowProperties { class })),
                None => None,
            }
        },
        Some(JsonValue::Array(a)) => {
            if a.len() == 1 {
                match decode_string_member(Some(&a[0])) {
                    Some(class) => Some(Some(WindowProperties { class })),
                    None => None,
                }
            } else {
                None
            }
        },
        _ => None,
    }
}

impl SwayWindow {
    /// Decodes an object node into a window; `None` where it does not decode.
    pub fn from_json(node: &JsonValue) -> (r: Option<SwayWindow>)
        ensures
            r == decode_window(*node),
    {
        if !matches!(node, JsonValue::Object(_)) {
            return None;
        }
        let title = decode_string_member(node.get("name"));
        let app_id = decode_string_member(node.get("app_id"));
        let props = decode_properties_member(node.get("window_properties"));
        let focused = match node.get("focused") {
            Some(JsonValue::Bool(f)) => *f,
            _ => return None,
        };
        let window_type = match node.get("type") {
            Some(JsonValue::Str(t)) => t.clone(),
            _ => return None,
        };
        match (title, app_id, props) {
            (Some(title), Some(app_id), Some(window_properties)) => Some(
                SwayWindow { title, app_id, focused, window_properties, window_type },
            ),
            _ => None,
        }
    }
}

/// Two characters are equal once ASCII letters are taken in lower case.
pub open spec fn same_char_ignoring_ascii_case(a: char, b: char) -> bool {
    a == b || ('A' <= a <= 'Z' && b as u32 == a as u32 + 32) || ('A' <= b <= 'Z' && a as u32
        == b as u32 + 32)
}

/// Two texts are equal once ASCII letters are taken in lower case.
pub open spec fn eq_ignoring_ascii_case(a: Seq<char>, b: Seq<char>) -> bool {
    a.len() == b.len() && forall|i: int|
        0 <= i < a.len() ==> #[trigger] same_char_ignoring_ascii_case(a[i], b[i])
}

fn char_eq_ignore_ascii_case(a: char, b: char) -> (r: bool)
    ensures
        r == same_char_ignoring_ascii_case(a, b),
{
    a == b || ('A' <= a && a <= 'Z' && (b as u32) == (a as u32) + 32) || ('A' <= b && b <= 'Z'
        && (a as u32) == (b as u32) + 32)
}

/// Compares two texts, ASCII letters without regard to case.
pub fn eq_ignore_ascii_case(a: &str, b: &str) -> (r: bool)
    ensures
        r == eq_ignoring_ascii_case(a@, b@),
{
    let n = a.unicode_len();
    if n != b.unicode_len() {
        return false;
    }
    let mut i: usize = 0;
    while i < n
        invariant
            n == a@.len(),
            n == b@.len(),
            0 <= i <= n,
            forall|j: int| 0 <= j < i ==> #[trigger] same_char_ignoring_ascii_case(a@[j], b@[j]),
        decreases n - i,
    {
        if !char_eq_ignore_ascii_case(a.get_char(i), b.get_char(i)) {
            return false;
        }
        i = i + 1;
    }
    true
}

/// Whether `w` is a window of the application that `id` identifies.
pub open spec fn window_matches(w: SwayWindow, id: WindowIdentifier) -> bool {
    match id {
        WindowIdentifier::Title(t) => w.title matches Some(x) && eq_ignoring_ascii_case(x@, t@),
        WindowIdentifier::AppId(a) => w.app_id matches Some(x) && eq_ignoring_ascii_case(x@, a@),
        WindowIdentifier::Class(c) => w.window_properties matches Some(p) && p.class matches Some(
            x,
        ) && eq_ignoring_ascii_case(x@, c@),
    }
}

/// Whether `w` is a window of the application that `identifier` identifies:
/// the chosen attribute is present and equal up to ASCII case.
pub fn matches_identifier(w: &SwayWindow, identifier: &WindowIdentifier) -> (r: bool)
    ensures
        r == window_matches(*w, *identifier),
{
    match identifier {
        WindowIdentifier::Title(title) => match &w.title {
            Some(t) => eq_ignore_ascii_case(t.as_str(), title.as_str()),
            None => false,
        },
        WindowIdentifier::AppId(app_id) => match &w.app_id {
            Some(a) => eq_ignore_ascii_case(a.as_str(), app_id.as_str()),
            None => false,
        },
        WindowIdentifier::Class(class) => match &w.window_properties {
            Some(wp) => match &wp.class {
                Some(c) => eq_ignore_ascii_case(c.as_str(), class.as_str()),
                None => false,
            },
            None => false,
        },
    }
}

/// A window that lacks the attribute an identifier reads (its title, its
/// application id, or its properties block or the class within it) never matches.
pub proof fn lemma_missing_attribute_never_matches(w: SwayWindow, value: String)
    ensures
        w.title is None ==> !window_matches(w, WindowIdentifier::Title(value)),
        w.app_id is None ==> !window_matches(w, WindowIdentifier::AppId(value)),
        w.window_properties is None ==> !window_matches(w, WindowIdentifier::Class(value)),
        (w.window_properties matches Some(p) && p.class is None) ==> !window_matches(
            w,
            WindowIdentifier::Class(value),
        ),
{
}

} // verus!
