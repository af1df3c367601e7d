//! The application state and the layout-tree datatypes, with their views.

use vstd::prelude::*;

use crate::badges::BadgeCounts;

verus! {

/// A web service shown in the main zone of the window.
pub struct Service {
    pub id: String,
    pub name: String,
    pub url: String,
    pub icon: String,
    pub enabled: bool,
    pub favicon_url: Option<String>,
}

/// The mathematical value of a [`Service`]: its strings as character sequences.
pub ghost struct ServiceView {
    pub id: Seq<char>,
    pub name: Seq<char>,
    pub url: Seq<char>,
    pub icon: Seq<char>,
    pub enabled: bool,
    pub favicon_url: Option<Seq<char>>,
}

pub open spec fn opt_string_view(o: Option<String>) -> Option<Seq<char>> {
    match o {
        Some(s) => Some(s@),
        None => None,
    }
}

impl View for Service {
    type V = ServiceView;

    open spec fn view(&self) -> ServiceView {
        ServiceView {
            id: self.id@,
            name: self.name@,
            url: self.url@,
            icon: self.icon@,
            enabled: self.enabled,
            favicon_url: opt_string_view(self.favicon_url),
        }
    }
}

impl Clone for Service {
    fn clone(&self) -> (r: Self)
        ensures
            r == *self,
    {
        Service {
            id: self.id.clone(),
            name: self.name.clone(),
            url: self.url.clone(),
            icon: self.icon.clone(),
            enabled: self.enabled,
            favicon_url: match &self.favicon_url {
                Some(f) => Some(f.clone()),
                None => None,
            },
        }
    }
}

/// An AI assistant service shown in the companion zone.
pub struct AiService {
    pub id: String,
    pub name: String,
    pub url: String,
    pub is_default: bool,
}

/// The mathematical value of an [`AiService`].
pub ghost struct AiServiceView {
    pub id: Seq<char>,
    pub name: Seq<char>,
    pub url: Seq<char>,
    pub is_default: bool,
}

impl View for AiService {
    type V = AiServiceView;

    open spec fn view(&self) -> AiServiceView {
        AiServiceView { id: self.id@, name: self.name@, url: self.url@, is_default: self.is_default }
    }
}

impl Clone for AiService {
    fn clone(&self) -> (r: Self)
        ensures
            r == *self,
    {
        AiService {
            id: self.id.clone(),
            name: self.name.clone(),
            url: self.url.clone(),
            is_default: self.is_default,
        }
    }
}

pub open spec fn service_views(s: Seq<Service>) -> Seq<ServiceView> {
    s.map_values(|x: Service| x@)
}

pub open spec fn ai_service_views(s: Seq<AiService>) -> Seq<AiServiceView> {
    s.map_values(|x: AiService| x@)
}

pub open spec fn string_views(s: Seq<String>) -> Seq<Seq<char>> {
    s.map_values(|x: String| x@)
}

/// The ids of a list of services, in order.
pub open spec fn service_ids(s: Seq<ServiceView>) -> Seq<Seq<char>> {
    s.map_values(|x: ServiceView| x.id)
}

/// The ids of a list of AI services, in order.
pub open spec fn ai_service_ids(s: Seq<AiServiceView>) -> Seq<Seq<char>> {
    s.map_values(|x: AiServiceView| x.id)
}

/// Everything the shell keeps in memory while it runs.
pub struct AppState {
    pub services: Vec<Service>,
    pub active_service_id: String,
    pub ai_services: Vec<AiService>,
    pub active_ai_service_id: String,
    pub show_ai_companion: bool,
    pub ai_width: u32,
    pub ai_webview_created: bool,
    pub created_webview_labels: Vec<String>,
    pub badge_counts: BadgeCounts,
}

/// The mathematical value of an [`AppState`].
pub ghost struct AppStateView {
    pub services: Seq<ServiceView>,
    pub active_service_id: Seq<char>,
    pub ai_services: Seq<AiServiceView>,
    pub active_ai_service_id: Seq<char>,
    pub show_ai_companion: bool,
    pub ai_width: u32,
    pub ai_webview_created: bool,
    pub created_webview_labels: Seq<Seq<char>>,
    pub badge_counts: Map<Seq<char>, u32>,
}

impl View for AppState {
    type V = AppStateView;

    open spec fn view(&self) -> AppStateView {
        AppStateView {
            services: service_views(self.services@),
            active_service_id: self.active_service_id@,
            ai_services: ai_service_views(self.ai_services@),
            active_ai_service_id: self.active_ai_service_id@,
            show_ai_companion: self.show_ai_companion,
            ai_width: self.ai_width,
            ai_webview_created: self.ai_webview_created,
            created_webview_labels: string_views(self.created_webview_labels@),
            badge_counts: self.badge_counts@,
        }
    }
}

impl Default for AppState {
    fn default() -> (r: Self)
        ensures
            r@ == (AppStateView {
                services: Seq::empty(),
                active_service_id: Seq::empty(),
                ai_services: Seq::empty(),
                active_ai_service_id: Seq::empty(),
                show_ai_companion: false,
                ai_width: 0,
                ai_webview_created: false,
                created_webview_labels: Seq::empty(),
                badge_counts: Map::empty(),
            }),
    {
        let r = AppState {
            services: Vec::new(),
            active_service_id: String::new(),
            ai_services: Vec::new(),
            active_ai_service_id: String::new(),
            show_ai_companion: false,
            ai_width: 0,
            ai_webview_created: false,
            created_webview_labels: Vec::new(),
            badge_counts: BadgeCounts::new(),
        };
        assert(r@.services =~= Seq::empty());
        assert(r@.ai_services =~= Seq::empty());
        assert(r@.created_webview_labels =~= Seq::empty());
        r
    }
}

/// Copies a list of services; the copy has the same value.
pub fn clone_services(v: &Vec<Service>) -> (r: Vec<Service>)
    ensures
        r@ == v@,
{
    let r = v.clone();
    assert forall|i: int| 0 <= i < v.len() implies r@[i] == v@[i] by {
        assert(cloned::<Service>(v[i], r[i]));
    }
    assert(r@ =~= v@);
    r
}

/// Copies a list of AI services; the copy has the same value.
pub fn clone_ai_services(v: &Vec<AiService>) -> (r: Vec<AiService>)
    ensures
        r@ == v@,
{
    let r = v.clone();
    assert forall|i: int| 0 <= i < v.len() implies r@[i] == v@[i] by {
        assert(cloned::<AiService>(v[i], r[i]));
    }
    assert(r@ =~= v@);
    r
}

/// The identity of a pane in the layout tree.
pub struct PaneId(pub String);

impl Clone for PaneId {
    fn clone(&self) -> (r: Self)
        ensures
            r == *self,
    {
        PaneId(self.0.clone())
    }
}

/// What a pane shows.
pub enum PaneKind {
    Chrome,
    Service(String),
    AiCompanion,
}

/// The mathematical value of a [`PaneKind`].
pub ghost enum PaneKindView {
    Chrome,
    Service(Seq<char>),
    AiCompanion,
}

impl View for PaneKind {
    type V = PaneKindView;

    open spec fn view(&self) -> PaneKindView {
        match self {
            PaneKind::Chrome => PaneKindView::Chrome,
            PaneKind::Service(id) => PaneKindView::Service(id@),
            PaneKind::AiCompanion => PaneKindView::AiCompanion,
        }
    }
}

/// A leaf of the layout tree: one rectangle of the window, possibly backed by a webview.
pub struct Pane {
    pub id: PaneId,
    pub kind: PaneKind,
    /// The label of the child webview placed in this pane; empty when there is none.
    pub webview_label: String,
    pub visible: bool,
}

/// The mathematical value of a [`Pane`].
pub ghost struct PaneView {
    pub id: Seq<char>,
    pub kind: PaneKindView,
    pub webview_label: Seq<char>,
    pub visible: bool,
}

impl View for Pane {
    type V = PaneView;

    open spec fn view(&self) -> PaneView {
        PaneView {
            id: self.id.0@,
            kind: self.kind@,
            webview_label: self.webview_label@,
            visible: self.visible,
        }
    }
}

/// The axis along which a split lays out its children.
#[derive(Clone, Copy, PartialEq, Eq, Structural, Debug)]
pub enum SplitDirection {
    /// Children side by side, left to right.
    Horizontal,
    /// Children stacked, top to bottom.
    Vertical,
}

/// How much of a split's extent one child takes.
#[derive(Clone, Copy, PartialEq, Eq, Structural, Debug)]
pub enum SplitSize {
    /// A fixed extent, in whole logical pixels.
    Fixed(u32),
    /// A share, by weight, of what the fixed children leave.
    Flex(u32),
}

/// A node of the layout tree.
pub enum LayoutNode {
    Leaf(Pane),
    Split { direction: SplitDirection, sizes: Vec<SplitSize>, children: Vec<LayoutNode> },
}

/// A shared, immutable layout tree.
pub type LayoutTree = std::sync::Arc<LayoutNode>;

/// The mathematical value of a [`LayoutNode`].
pub ghost enum NodeView {
    Leaf(PaneView),
    Split { direction: SplitDirection, sizes: Seq<SplitSize>, children: Seq<NodeView> },
}

/// The values of a list of layout nodes, in order.
pub open spec fn node_views(s: Seq<LayoutNode>) -> Seq<NodeView>
    decreases s,
{
    if s.len() == 0 {
        Seq::empty()
    } else {
        node_views(s.drop_last()).push(node_view(s.last()))
    }
}

/// The value of a layout node.
pub open spec fn node_view(n: LayoutNode) -> NodeView
    decreases n,
{
    match n {
        LayoutNode::Leaf(p) => NodeView::Leaf(p@),
        LayoutNode::Split { direction, sizes, children } => NodeView::Split {
            direction,
            sizes: sizes@,
            children: node_views(children@),
        },
    }
}

impl View for LayoutNode {
    type V = NodeView;

    open spec fn view(&self) -> NodeView {
        node_view(*self)
    }
}

} // verus!
