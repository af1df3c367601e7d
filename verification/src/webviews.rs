//! Bookkeeping of the child webviews: which labels have been created, and which
//! webviews to hide or show around a modal.

use vstd::prelude::*;
use vstd::string::StringExecFns;

use crate::services::{labels_without, strings_without};
use crate::state::{AppState, AppStateView, string_views};
use crate::text::{service_label, service_label_view};

verus! {

/// The label of the webview of the AI companion.
pub open spec fn ai_webview_label() -> Seq<char> {
    "ai-webview"@
}

/// `labels` with `label` added at the end unless it is there already.
pub open spec fn with_label(labels: Seq<Seq<char>>, label: Seq<char>) -> Seq<Seq<char>> {
    if labels.contains(label) {
        labels
    } else {
        labels.push(label)
    }
}

/// `labels` with each of `added`, in order, added as `with_label` does.
pub open spec fn with_labels(labels: Seq<Seq<char>>, added: Seq<Seq<char>>) -> Seq<Seq<char>>
    decreases added.len(),
{
    if added.len() == 0 {
        labels
    } else {
        with_label(with_labels(labels, added.drop_last()), added.last())
    }
}

/// The webviews to hide so that a modal of the main window can be seen: the
/// active service's, when one is active, then the AI companion's.
pub open spec fn webviews_hidden_for_modal(s: AppStateView) -> Seq<Seq<char>> {
    if s.active_service_id.len() > 0 {
        seq![service_label_view(s.active_service_id), ai_webview_label()]
    } else {
        seq![ai_webview_label()]
    }
}

/// The webviews to show again afterwards: the active service's, when one is
/// active, then the AI companion's, when it is meant to be shown.
pub open spec fn webviews_restored_after_modal(s: AppStateView) -> Seq<Seq<char>> {
    let service: Seq<Seq<char>> = if s.active_service_id.len() > 0 {
        seq![service_label_view(s.active_service_id)]
    } else {
        Seq::empty()
    };
    let ai: Seq<Seq<char>> = if s.show_ai_companion {
        seq![ai_webview_label()]
    } else {
        Seq::empty()
    };
    service + ai
}

/// Recording a label keeps the labels free of duplicates, makes the label
/// recorded, and recording it again changes nothing.
pub proof fn lemma_record_label(labels: Seq<Seq<char>>, label: Seq<char>)
    requires
        labels.no_duplicates(),
    ensures
        with_label(labels, label).no_duplicates(),
        with_label(labels, label).contains(label),
        with_label(with_label(labels, label), label) == with_label(labels, label),
{
    broadcast use vstd::seq_lib::group_seq_properties;

    if !labels.contains(label) {
        let t = labels.push(label);
        assert(t[labels.len() as int] == label);
        assert forall|i: int, j: int| 0 <= i < t.len() && 0 <= j < t.len() && i != j implies t[i]
            != t[j] by {
            if i == labels.len() {
                assert(labels[j] == t[j]);
            } else if j == labels.len() {
                assert(labels[i] == t[i]);
            }
        }
    }
}

/// Taking stock of existing webviews keeps the labels free of duplicates and
/// records each label found.
pub proof fn lemma_register_labels(labels: Seq<Seq<char>>, added: Seq<Seq<char>>)
    requires
        labels.no_duplicates(),
    ensures
        with_labels(labels, added).no_duplicates(),
        forall|i: int| 0 <= i < added.len() ==> with_labels(labels, added).contains(#[trigger] added[i]),
    decreases added.len(),
{
    broadcast use vstd::seq_lib::group_seq_properties;

    if added.len() > 0 {
        let p = added.drop_last();
        lemma_register_labels(labels, p);
        let before = with_labels(labels, p);
        lemma_record_label(before, added.last());
        assert forall|i: int| 0 <= i < added.len() implies with_labels(labels, added).contains(
            #[trigger] added[i],
        ) by {
            if i < p.len() {
                assert(p[i] == added[i]);
                assert(before.contains(added[i]));
            }
        }
    }
}

/// Forgetting a label leaves no record of it, and keeps the others free of
/// duplicates.
pub proof fn lemma_forget_label(labels: Seq<Seq<char>>, label: Seq<char>)
    ensures
        !labels_without(labels, label).contains(label),
        forall|x: Seq<char>| #[trigger]
            labels_without(labels, label).contains(x) ==> labels.contains(x),
        labels.no_duplicates() ==> labels_without(labels, label).no_duplicates(),
    decreases labels.len(),
{
    broadcast use vstd::seq_lib::group_seq_properties;

    if labels.len() > 0 {
        let p = labels.drop_last();
        let l = labels.last();
        lemma_forget_label(p, label);
        let w = labels_without(p, label);
        assert(labels =~= p.push(l));
        if labels.no_duplicates() {
            assert(p.no_duplicates()) by {
                assert forall|i: int, j: int| 0 <= i < p.len() && 0 <= j < p.len() && i != j
                    implies p[i] != p[j] by {
                    assert(p[i] == labels[i] && p[j] == labels[j]);
                }
            }
            if l != label {
                assert(!p.contains(l)) by {
                    if p.contains(l) {
                        let i = choose|i: int| 0 <= i < p.len() && p[i] == l;
                        assert(labels[i] == labels[labels.len() - 1]);
                    }
                }
                let t = w.push(l);
                assert(!w.contains(l));
                assert forall|i: int, j: int| 0 <= i < t.len() && 0 <= j < t.len() && i != j
                    implies t[i] != t[j] by {
                    if i == w.len() {
                        assert(w.contains(t[j]));
                    } else if j == w.len() {
                        assert(w.contains(t[i]));
                    }
                }
            }
        }
    }
}

/// After a modal, the AI companion's webview is shown again exactly when the
/// companion is meant to be shown, and the service's exactly when one is active,
/// each whatever the other is.
pub proof fn lemma_restore_follows_settings(s: AppStateView)
    ensures
        webviews_restored_after_modal(s).contains(ai_webview_label()) <==> s.show_ai_companion,
        s.active_service_id.len() > 0 ==> webviews_restored_after_modal(s).contains(
            service_label_view(s.active_service_id),
        ),
        s.active_service_id.len() == 0 ==> forall|x: Seq<char>| #[trigger]
            webviews_restored_after_modal(s).contains(x) ==> x == ai_webview_label(),
        webviews_hidden_for_modal(s).contains(ai_webview_label()),
{
    broadcast use vstd::seq_lib::group_seq_properties;

    reveal_strlit("ai-webview");
    reveal_strlit("service-");
    let r = webviews_restored_after_modal(s);
    let h = webviews_hidden_for_modal(s);
    if s.active_service_id.len() > 0 {
        let l = service_label_view(s.active_service_id);
        assert(l[0] == 's');
        assert(ai_webview_label()[0] == 'a');
        assert(l != ai_webview_label());
        assert(r[0] == l);
        assert(h[1] == ai_webview_label());
        if s.show_ai_companion {
            assert(r[1] == ai_webview_label());
        } else {
            assert(r =~= seq![l]);
        }
    } else {
        assert(h[0] == ai_webview_label());
        if s.show_ai_companion {
            assert(r =~= seq![ai_webview_label()]);
            assert(r[0] == ai_webview_label());
        } else {
            assert(r =~= Seq::<Seq<char>>::empty());
        }
    }
}

/// Everything shown again after a modal was hidden for it.
pub proof fn lemma_restored_were_hidden(s: AppStateView)
    ensures
        forall|x: Seq<char>| #[trigger]
            webviews_restored_after_modal(s).contains(x) ==> webviews_hidden_for_modal(s).contains(x),
{
    broadcast use vstd::seq_lib::group_seq_properties;

    let r = webviews_restored_after_modal(s);
    let h = webviews_hidden_for_modal(s);
    assert forall|x: Seq<char>| #[trigger] r.contains(x) implies h.contains(x) by {
        let i = choose|i: int| 0 <= i < r.len() && r[i] == x;
        if s.active_service_id.len() > 0 {
            assert(h[0] == service_label_view(s.active_service_id));
            assert(h[1] == ai_webview_label());
        } else {
            assert(h[0] == ai_webview_label());
        }
    }
}

/// Whether `labels` holds a label with the characters of `label`.
pub fn has_label(labels: &Vec<String>, label: &String) -> (r: bool)
    ensures
        r == string_views(labels@).contains(label@),
{
    let ghost s = string_views(labels@);
    let mut i: usize = 0;
    while i < labels.len()
        invariant
            s == string_views(labels@),
            0 <= i <= labels.len(),
            forall|j: int| 0 <= j < i ==> s[j] != label@,
        decreases labels.len() - i,
    {
        if labels[i] == *label {
            assert(s[i as int] == label@);
            return true;
        }
        i = i + 1;
    }
    false
}

impl AppState {
    /// Records that the webview `label` exists, once.
    pub fn record_webview_label(&mut self, label: String)
        ensures
            final(self)@ == (AppStateView {
                created_webview_labels: with_label(old(self)@.created_webview_labels, label@),
                ..old(self)@
            }),
    {
        if !has_label(&self.created_webview_labels, &label) {
            let ghost before = self.created_webview_labels@;
            self.created_webview_labels.push(label);
            assert(string_views(self.created_webview_labels@) =~= string_views(before).push(
                label@,
            ));
        }
    }

    /// Forgets every record of the webview `label`.
    pub fn forget_webview_label(&mut self, label: &str)
        ensures
            final(self)@ == (AppStateView {
                created_webview_labels: labels_without(old(self)@.created_webview_labels, label@),
                ..old(self)@
            }),
    {
        self.created_webview_labels = strings_without(&self.created_webview_labels, label);
    }

    /// Takes stock of the webviews found to exist: records each of `labels`, once,
    /// and notes the AI webview when `ai_webview_exists`.
    pub fn register_existing_webviews(&mut self, labels: Vec<String>, ai_webview_exists: bool)
        ensures
            final(self)@ == (AppStateView {
                ai_webview_created: old(self)@.ai_webview_created || ai_webview_exists,
                created_webview_labels: with_labels(
                    old(self)@.created_webview_labels,
                    string_views(labels@),
                ),
                ..old(self)@
            }),
    {
        if ai_webview_exists {
            self.ai_webview_created = true;
        }
        let ghost start = *self;
        let ghost added = string_views(labels@);
        let mut i: usize = 0;
        while i < labels.len()
            invariant
                added == string_views(labels@),
                0 <= i <= labels.len(),
                self@ == (AppStateView {
                    created_webview_labels: with_labels(
                        start@.created_webview_labels,
                        added.take(i as int),
                    ),
                    ..start@
                }),
            decreases labels.len() - i,
        {
            assert(added.take(i + 1).drop_last() =~= added.take(i as int));
            assert(added[i as int] == labels@[i as int]@);
            self.record_webview_label(labels[i].clone());
            i = i + 1;
        }
        assert(added.take(labels.len() as int) =~= added);
    }

    /// The webviews to hide so that a modal of the main window can be seen.
    pub fn webviews_to_hide(&self) -> (r: Vec<String>)
        ensures
            string_views(r@) == webviews_hidden_for_modal(self@),
    {
        let mut r: Vec<String> = Vec::new();
        if !self.active_service_id.as_str().is_empty() {
            r.push(service_label(self.active_service_id.as_str()));
        }
        r.push(String::from_str("ai-webview"));
        assert(string_views(r@) =~= webviews_hidden_for_modal(self@));
        r
    }

    /// The webviews to show again once the modal is gone.
    pub fn webviews_to_restore(&self) -> (r: Vec<String>)
        ensures
            string_views(r@) == webviews_restored_after_modal(self@),
            string_views(r@).contains("ai-webview"@) <==> self.show_ai_companion,
    {
        proof {
            lemma_restore_follows_settings(self@);
        }
        let mut r: Vec<String> = Vec::new();
        if !self.active_service_id.as_str().is_empty() {
            r.push(service_label(self.active_service_id.as_str()));
        }
        if self.show_ai_companion {
            r.push(String::from_str("ai-webview"));
        }
        assert(string_views(r@) =~= webviews_restored_after_modal(self@));
        r
    }
}

} // verus!
