use shell_core::layout::{build_tree_from_state, DOCK_WIDTH, TITLE_BAR_HEIGHT};
use shell_core::state::{AppState, LayoutNode, PaneKind, SplitDirection, SplitSize};

fn make_state(show_ai: bool, ai_width: u32, ai_created: bool) -> AppState {
    let mut s = AppState::default();
    s.active_service_id = "svc1".into();
    s.show_ai_companion = show_ai;
    s.ai_width = ai_width;
    s.ai_webview_created = ai_created;
    s
}

fn leaf_count(node: &LayoutNode) -> usize {
    match node {
        LayoutNode::Leaf(_) => 1,
        LayoutNode::Split { children, .. } => children.iter().map(leaf_count).sum(),
    }
}

#[test]
fn build_tree_labels_and_visibility() {
    let state = make_state(true, 300, true);
    let tree = build_tree_from_state(&state);

    // 4 panes: _titlebar + chrome + service + ai
    assert_eq!(leaf_count(&tree), 4);

    // Root is vertical split [titlebar | inner_horizontal]
    if let LayoutNode::Split { children, .. } = tree.as_ref() {
        let inner = if let LayoutNode::Split { children, .. } = &children[1] {
            children
        } else {
            panic!()
        };
        let chrome_pane = if let LayoutNode::Leaf(p) = &inner[0] {
            p
        } else {
            panic!()
        };
        assert_eq!(chrome_pane.webview_label, "chrome");
        let svc_pane = if let LayoutNode::Leaf(p) = &inner[1] {
            p
        } else {
            panic!()
        };
        assert_eq!(svc_pane.webview_label, "service-svc1");
        let ai_pane = if let LayoutNode::Leaf(p) = &inner[2] {
            p
        } else {
            panic!()
        };
        assert_eq!(ai_pane.webview_label, "ai-webview");
        assert!(ai_pane.visible);
    } else {
        panic!("expected Split at root");
    }
}

#[test]
fn tree_sizes_follow_settings() {
    let tree = build_tree_from_state(&make_state(true, 400, true));
    match tree.as_ref() {
        LayoutNode::Split { direction, sizes, children } => {
            assert_eq!(*direction, SplitDirection::Vertical);
            assert_eq!(sizes, &vec![SplitSize::Fixed(TITLE_BAR_HEIGHT), SplitSize::Flex(1)]);
            match &children[0] {
                LayoutNode::Leaf(p) => {
                    assert_eq!(p.id.0, "_titlebar");
                    assert_eq!(p.webview_label, "");
                    assert!(!p.visible);
                }
                _ => panic!("titlebar must be a leaf"),
            }
            match &children[1] {
                LayoutNode::Split { direction, sizes, children } => {
                    assert_eq!(*direction, SplitDirection::Horizontal);
                    assert_eq!(
                        sizes,
                        &vec![SplitSize::Fixed(DOCK_WIDTH), SplitSize::Flex(1), SplitSize::Fixed(400)]
                    );
                    match &children[1] {
                        LayoutNode::Leaf(p) => {
                            assert_eq!(p.id.0, "service:svc1");
                            assert!(matches!(&p.kind, PaneKind::Service(id) if id == "svc1"));
                        }
                        _ => panic!("service pane must be a leaf"),
                    }
                }
                _ => panic!("content must be a split"),
            }
        }
        _ => panic!("expected Split at root"),
    }
}

#[test]
fn hidden_companion_gets_no_width() {
    let tree = build_tree_from_state(&make_state(false, 400, true));
    if let LayoutNode::Split { children, .. } = tree.as_ref() {
        if let LayoutNode::Split { sizes, children, .. } = &children[1] {
            assert_eq!(sizes[2], SplitSize::Fixed(0));
            if let LayoutNode::Leaf(ai) = &children[2] {
                assert!(!ai.visible);
            } else {
                panic!()
            }
        } else {
            panic!()
        }
    } else {
        panic!()
    }
}

#[test]
fn companion_invisible_until_created() {
    let tree = build_tree_from_state(&make_state(true, 400, false));
    if let LayoutNode::Split { children, .. } = tree.as_ref() {
        if let LayoutNode::Split { children, .. } = &children[1] {
            if let LayoutNode::Leaf(ai) = &children[2] {
                assert!(!ai.visible);
            } else {
                panic!()
            }
        } else {
            panic!()
        }
    } else {
        panic!()
    }
}

#[test]
fn no_active_service_means_no_service_webview() {
    let mut state = make_state(true, 400, true);
    state.active_service_id = String::new();
    let tree = build_tree_from_state(&state);
    if let LayoutNode::Split { children, .. } = tree.as_ref() {
        if let LayoutNode::Split { children, .. } = &children[1] {
            if let LayoutNode::Leaf(p) = &children[1] {
                assert_eq!(p.webview_label, "");
                assert_eq!(p.id.0, "service:");
            } else {
                panic!()
            }
        } else {
            panic!()
        }
    } else {
        panic!()
    }
}
