//! Which windows a window tree holds.

use vstd::prelude::*;
use crate::json::{JsonValue, field, lemma_field_decreases};
use crate::window::{SwayWindow, decode_window};

verus! {

/// The node kinds that bear a window: tiled (`con`) and floating (`floating_con`).
pub open spec fn is_window_kind(kind: Seq<char>) -> bool {
    kind == "con"@ || kind == "floating_con"@
}

/// What a node contributes by itself: its window, where its kind bears one and
/// it decodes; nothing otherwise.
pub open spec fn own_window(node: JsonValue) -> Seq<SwayWindow> {
    match field(node, "type"@) {
        Some(JsonValue::Str(kind)) => if is_window_kind(kind@) {
            match decode_window(node) {
                Some(w) => seq![w],
                None => seq![],
            }
        } else {
            seq![]
        },
        _ => seq![],
    }
}

/// The windows of the subtree at `node`, in pre-order: the node's own window,
/// then those under its `nodes`, then those under its `floating_nodes`.
pub open spec fn windows_of(node: JsonValue) -> Seq<SwayWindow>
    decreases node,
{
    let tiled = match field(node, "nodes"@) {
        Some(JsonValue::Array(a)) => {
            proof {
                lemma_field_decreases(node, "nodes"@);
                assert(decreases_to!(JsonValue::Array(a) => a));
                assert(decreases_to!(a => a@));
            }
            windows_of_list(a@)
        },
        _ => seq![],
    };
    let floating = match field(node, "floating_nodes"@) {
        Some(JsonValue::Array(a)) => {
            proof {
                lemma_field_decreases(node, "floating_nodes"@);
                assert(decreases_to!(JsonValue::Array(a) => a));
                assert(decreases_to!(a => a@));
            }
            windows_of_list(a@)
        },
        _ => seq![],
    };
    own_window(node) + tiled + floating
}

/// The windows of each subtree in `nodes`, one subtree after the other.
pub open spec fn windows_of_list(nodes: Seq<JsonValue>) -> Seq<SwayWindow>
    decreases nodes,
{
    if nodes.len() == 0 {
        seq![]
    } else {
        proof {
            assert(decreases_to!(nodes => nodes[nodes.len() - 1]));
            assert(decreases_to!(nodes => nodes.subrange(0, nodes.len() - 1)));
        }
        windows_of_list(nodes.subrange(0, nodes.len() - 1)) + windows_of(nodes[nodes.len() - 1])
    }
}

/// The windows of a list grow by those of each subtree added at its end.
pub proof fn lemma_windows_of_prefix(nodes: Seq<JsonValue>, i: int)
    requires
        0 <= i < nodes.len(),
    ensures
        windows_of_list(nodes.subrange(0, i + 1)) == windows_of_list(nodes.subrange(0, i))
            + windows_of(nodes[i]),
{
    let p = nodes.subrange(0, i + 1);
    assert(p.subrange(0, p.len() - 1) =~= nodes.subrange(0, i));
    assert(p[p.len() - 1] == nodes[i]);
}

/// The child nodes under `key`, where that member is an array.
pub open spec fn children(node: JsonValue, key: Seq<char>) -> Seq<JsonValue> {
    match field(node, key) {
        Some(JsonValue::Array(a)) => a@,
        _ => seq![],
    }
}

/// A node that bears no window of its own and has no child list holds no window:
/// in particular a tree that is an empty root.
pub proof fn lemma_empty_tree(node: JsonValue)
    requires
        !(field(node, "type"@) matches Some(JsonValue::Str(k)) && is_window_kind(k@)),
        children(node, "nodes"@).len() == 0,
        children(node, "floating_nodes"@).len() == 0,
    ensures
        windows_of(node) == Seq::<SwayWindow>::empty(),
{
    assert(windows_of_list(Seq::<JsonValue>::empty()) == Seq::<SwayWindow>::empty());
    assert(own_window(node) =~= Seq::<SwayWindow>::empty());
    assert(windows_of(node) =~= Seq::<SwayWindow>::empty());
}

/// A node of a window-bearing kind that does not decode is skipped: the
/// subtree holds just the windows below it.
pub proof fn lemma_undecodable_node_skipped(node: JsonValue)
    requires
        decode_window(node) is None,
    ensures
        windows_of(node) == windows_of_list(children(node, "nodes"@)) + windows_of_list(
            children(node, "floating_nodes"@),
        ),
{
    assert(own_window(node) =~= Seq::<SwayWindow>::empty());
    assert(windows_of(node) =~= windows_of_list(children(node, "nodes"@)) + windows_of_list(
        children(node, "floating_nodes"@),
    ));
}

} // verus!
