//! The layout tree of the main window, derived from the application state.

use vstd::prelude::*;
use vstd::string::StringExecFns;

use crate::state::{
    AppState, AppStateView, LayoutNode, LayoutTree, NodeView, Pane, PaneId, PaneKind,
    PaneKindView, PaneView, SplitDirection, SplitSize, node_view, node_views,
};
use crate::text::{service_label, service_label_view};

verus! {

/// Width of the dock of service icons, in logical pixels.
pub const DOCK_WIDTH: u32 = 64;

/// Height of the title bar, in logical pixels.
pub const TITLE_BAR_HEIGHT: u32 = 32;

/// The narrowest the service zone is meant to become, in logical pixels.
pub const MIN_SERVICE_WIDTH: u32 = 100;

/// A leaf with the given pane.
pub open spec fn leaf_view(id: Seq<char>, kind: PaneKindView, label: Seq<char>, visible: bool) -> NodeView {
    NodeView::Leaf(PaneView { id, kind, webview_label: label, visible })
}

/// The webview label of the service pane: none when no service is active.
pub open spec fn service_pane_label(active_service_id: Seq<char>) -> Seq<char> {
    if active_service_id.len() == 0 {
        Seq::empty()
    } else {
        service_label_view(active_service_id)
    }
}

/// The layout that the state `s` calls for: a title bar above a row of the dock,
/// the active service and the AI companion.
pub open spec fn layout_of(s: AppStateView) -> NodeView {
    let chrome = leaf_view("chrome"@, PaneKindView::Chrome, "chrome"@, true);
    let service = leaf_view(
        "service:"@ + s.active_service_id,
        PaneKindView::Service(s.active_service_id),
        service_pane_label(s.active_service_id),
        true,
    );
    let ai = leaf_view(
        "ai"@,
        PaneKindView::AiCompanion,
        "ai-webview"@,
        s.show_ai_companion && s.ai_webview_created,
    );
    let ai_size = if s.show_ai_companion {
        SplitSize::Fixed(s.ai_width)
    } else {
        SplitSize::Fixed(0)
    };
    let inner = NodeView::Split {
        direction: SplitDirection::Horizontal,
        sizes: seq![SplitSize::Fixed(DOCK_WIDTH), SplitSize::Flex(1), ai_size],
        children: seq![chrome, service, ai],
    };
    let titlebar = leaf_view("_titlebar"@, PaneKindView::Chrome, Seq::empty(), false);
    NodeView::Split {
        direction: SplitDirection::Vertical,
        sizes: seq![SplitSize::Fixed(TITLE_BAR_HEIGHT), SplitSize::Flex(1)],
        children: seq![titlebar, inner],
    }
}

proof fn lemma_node_views_small(a: LayoutNode, b: LayoutNode, c: LayoutNode)
    ensures
        node_views(seq![a, b]) == seq![node_view(a), node_view(b)],
        node_views(seq![a, b, c]) == seq![node_view(a), node_view(b), node_view(c)],
{
    assert(seq![a].drop_last() =~= Seq::<LayoutNode>::empty());
    assert(node_views(Seq::<LayoutNode>::empty()) == Seq::<NodeView>::empty());
    assert(seq![a].last() == a);
    assert(seq![a, b].last() == b);
    assert(seq![a, b, c].last() == c);
    assert(node_views(seq![a]) =~= seq![node_view(a)]);
    assert(seq![a, b].drop_last() =~= seq![a]);
    assert(node_views(seq![a, b]) =~= seq![node_view(a), node_view(b)]);
    assert(seq![a, b, c].drop_last() =~= seq![a, b]);
    assert(node_views(seq![a, b, c]) =~= seq![node_view(a), node_view(b), node_view(c)]);
}

fn leaf(id: String, kind: PaneKind, webview_label: String, visible: bool) -> (n: LayoutNode)
    ensures
        node_view(n) == NodeView::Leaf(
            PaneView { id: id@, kind: kind@, webview_label: webview_label@, visible },
        ),
{
    LayoutNode::Leaf(Pane { id: PaneId(id), kind, webview_label, visible })
}

/// The size of the third column of the content row (the AI companion's), in a
/// tree shaped as a title bar above a row of three columns.
pub open spec fn ai_column_size(n: NodeView) -> Option<SplitSize> {
    match n {
        NodeView::Split { children, .. } => if children.len() == 2 {
            match children[1] {
                NodeView::Split { sizes, .. } => if sizes.len() == 3 {
                    Some(sizes[2])
                } else {
                    None
                },
                _ => None,
            }
        } else {
            None
        },
        _ => None,
    }
}

/// The AI companion's column is as wide as the setting says whenever the
/// companion is shown, whether or not its webview exists yet (that only decides
/// whether the pane is visible), and has no width when it is hidden.
pub proof fn lemma_ai_column_follows_setting(s: AppStateView, created: bool)
    ensures
        s.show_ai_companion ==> ai_column_size(layout_of(s)) == Some(SplitSize::Fixed(s.ai_width)),
        !s.show_ai_companion ==> ai_column_size(layout_of(s)) == Some(SplitSize::Fixed(0)),
        ai_column_size(layout_of(s)) == ai_column_size(
            layout_of(AppStateView { ai_webview_created: created, ..s }),
        ),
{
}

/// Derives the layout tree from the state; rebuilt on each call, the state stays
/// authoritative.
pub fn build_tree_from_state(state: &AppState) -> (tree: LayoutTree)
    ensures
        node_view(*tree) == layout_of(state@),
        state.show_ai_companion ==> ai_column_size(node_view(*tree)) == Some(
            SplitSize::Fixed(state.ai_width),
        ),
        !state.show_ai_companion ==> ai_column_size(node_view(*tree)) == Some(SplitSize::Fixed(0)),
{
    let chrome = leaf(
        String::from_str("chrome"),
        PaneKind::Chrome,
        String::from_str("chrome"),
        true,
    );

    let mut service_id = String::from_str("service:");
    service_id.append(state.active_service_id.as_str());
    let service_pane_label = if state.active_service_id.as_str().is_empty() {
        String::new()
    } else {
        service_label(state.active_service_id.as_str())
    };
    let service = leaf(
        service_id,
        PaneKind::Service(state.active_service_id.clone()),
        service_pane_label,
        true,
    );

    let ai_visible = state.show_ai_companion && state.ai_webview_created;
    let ai = leaf(
        String::from_str("ai"),
        PaneKind::AiCompanion,
        String::from_str("ai-webview"),
        ai_visible,
    );

    let ai_size = if state.show_ai_companion {
        SplitSize::Fixed(state.ai_width)
    } else {
        SplitSize::Fixed(0)
    };

    proof {
        lemma_node_views_small(chrome, service, ai);
    }
    let inner_sizes = vec![SplitSize::Fixed(DOCK_WIDTH), SplitSize::Flex(1), ai_size];
    let inner_children = vec![chrome, service, ai];
    assert(inner_sizes@ =~= seq![SplitSize::Fixed(DOCK_WIDTH), SplitSize::Flex(1), ai_size]);
    assert(inner_children@ =~= seq![chrome, service, ai]);
    let inner = LayoutNode::Split {
        direction: SplitDirection::Horizontal,
        sizes: inner_sizes,
        children: inner_children,
    };

    let titlebar = leaf(String::from_str("_titlebar"), PaneKind::Chrome, String::new(), false);

    proof {
        lemma_node_views_small(titlebar, inner, inner);
    }
    let root_sizes = vec![SplitSize::Fixed(TITLE_BAR_HEIGHT), SplitSize::Flex(1)];
    let root_children = vec![titlebar, inner];
    assert(root_sizes@ =~= seq![SplitSize::Fixed(TITLE_BAR_HEIGHT), SplitSize::Flex(1)]);
    assert(root_children@ =~= seq![titlebar, inner]);
    let root = LayoutNode::Split {
        direction: SplitDirection::Vertical,
        sizes: root_sizes,
        children: root_children,
    };
    proof {
        lemma_ai_column_follows_setting(state@, state.ai_webview_created);
    }
    std::sync::Arc::new(root)
}

} // verus!
