//! The AI companion: its list of assistant services, the active one, and
//! whether and how wide the companion is shown.

use vstd::prelude::*;
use vstd::string::StringExecFns;

use crate::seqs::{first_index, lemma_first_index, lemma_first_index_at, lemma_first_index_none};
use crate::state::{AiService, AiServiceView, AppState, AppStateView, ai_service_views, clone_ai_services};
use crate::text::{decimal_string, decimal_view, str_eq};

verus! {

/// The narrowest the AI companion may be, in logical pixels.
pub const MIN_AI_WIDTH: u32 = 300;

/// The widest the AI companion may be, in logical pixels.
pub const MAX_AI_WIDTH: u32 = 800;

/// `width` brought into the range the AI companion allows.
pub open spec fn clamped_ai_width(width: u32) -> u32 {
    if width < MIN_AI_WIDTH {
        MIN_AI_WIDTH
    } else if width > MAX_AI_WIDTH {
        MAX_AI_WIDTH
    } else {
        width
    }
}

/// The position of the first AI service with id `id`, if any.
pub open spec fn first_ai_service_with_id(s: Seq<AiServiceView>, id: Seq<char>) -> Option<int> {
    first_index(s, |x: AiServiceView| x.id == id)
}

/// The AI services of `s` whose id is not `id`, in order.
pub open spec fn ai_services_without(s: Seq<AiServiceView>, id: Seq<char>) -> Seq<AiServiceView>
    decreases s.len(),
{
    if s.len() == 0 {
        s
    } else if s.last().id == id {
        ai_services_without(s.drop_last(), id)
    } else {
        ai_services_without(s.drop_last(), id).push(s.last())
    }
}

/// The AI service that `add_ai_service` appends for the input `input` at time `now`.
pub open spec fn added_ai_service(input: AiServiceView, now: u64) -> AiServiceView {
    AiServiceView {
        id: "ai-"@ + decimal_view(now as nat),
        name: input.name,
        url: input.url,
        is_default: false,
    }
}

/// The AI service the companion shows in state `s`: the one with the active id,
/// else the first one, else none.
pub open spec fn active_ai_choice(s: AppStateView) -> Option<AiServiceView> {
    match first_ai_service_with_id(s.ai_services, s.active_ai_service_id) {
        Some(k) => Some(s.ai_services[k]),
        None => if s.ai_services.len() > 0 {
            Some(s.ai_services[0])
        } else {
            None
        },
    }
}

/// Whether removing the AI service `id` from `s` is refused: the first service
/// with that id is a built-in one.
pub open spec fn removal_refused(s: AppStateView, id: Seq<char>) -> bool {
    match first_ai_service_with_id(s.ai_services, id) {
        Some(k) => s.ai_services[k].is_default,
        None => false,
    }
}

/// Whether removing the AI service `id` from `s` moves the active service to the
/// first remaining one.
pub open spec fn removal_resets_active(s: AppStateView, id: Seq<char>) -> bool {
    s.active_ai_service_id == id && ai_services_without(s.ai_services, id).len() > 0
}

/// The state after the AI service `id` is removed from `s` (when that is not refused).
pub open spec fn after_ai_removal(s: AppStateView, id: Seq<char>) -> AppStateView {
    let remaining = ai_services_without(s.ai_services, id);
    AppStateView {
        ai_services: remaining,
        active_ai_service_id: if removal_resets_active(s, id) {
            remaining[0].id
        } else {
            s.active_ai_service_id
        },
        ..s
    }
}

pub open spec fn opt_ai_view(o: Option<AiService>) -> Option<AiServiceView> {
    match o {
        Some(a) => Some(a@),
        None => None,
    }
}

/// What `remove_ai_service` did.
#[derive(Clone, Copy, PartialEq, Eq, Structural, Debug)]
pub enum AiServiceRemoval {
    /// The service is built in; nothing changed.
    Refused,
    /// The service is gone; `active_changed` tells whether another one became active.
    Removed { active_changed: bool },
}

/// `clamp_ai_width` always lands in the allowed range, and clamping twice is
/// clamping once.
pub proof fn lemma_clamp_in_range(width: u32)
    ensures
        MIN_AI_WIDTH <= clamped_ai_width(width) <= MAX_AI_WIDTH,
        clamped_ai_width(clamped_ai_width(width)) == clamped_ai_width(width),
{
}

/// After `set_active_ai_service(id)` finds a service, `active_ai_service` gives
/// back that service.
pub proof fn lemma_active_after_set(s: AppStateView, id: Seq<char>)
    requires
        first_ai_service_with_id(s.ai_services, id) is Some,
    ensures
        active_ai_choice(AppStateView { active_ai_service_id: id, ..s }) == Some(
            s.ai_services[first_ai_service_with_id(s.ai_services, id)->0],
        ),
{
}

/// `active_ai_service` gives a listed service, and gives one whenever any is listed.
pub proof fn lemma_active_choice_is_listed(s: AppStateView)
    ensures
        active_ai_choice(s) is Some <==> s.ai_services.len() > 0,
        active_ai_choice(s) matches Some(v) ==> s.ai_services.contains(v),
{
    lemma_first_index(s.ai_services, |x: AiServiceView| x.id == s.active_ai_service_id);
    if let Some(k) = first_ai_service_with_id(s.ai_services, s.active_ai_service_id) {
        assert(s.ai_services.contains(s.ai_services[k]));
    } else if s.ai_services.len() > 0 {
        assert(s.ai_services.contains(s.ai_services[0]));
    }
}

/// `ai_services_without` keeps exactly the services with another id.
pub proof fn lemma_ai_services_without_members(s: Seq<AiServiceView>, id: Seq<char>)
    ensures
        forall|x: AiServiceView| #[trigger]
            ai_services_without(s, id).contains(x) <==> (s.contains(x) && x.id != id),
    decreases s.len(),
{
    broadcast use vstd::seq_lib::group_seq_properties;

    if s.len() > 0 {
        let p = s.drop_last();
        let l = s.last();
        let w = ai_services_without(p, id);
        lemma_ai_services_without_members(p, id);
        assert(s =~= p.push(l));
        assert forall|x: AiServiceView| #[trigger]
            ai_services_without(s, id).contains(x) <==> (s.contains(x) && x.id != id) by {
            assert(s.contains(x) <==> (p.contains(x) || x == l));
            if l.id == id {
                assert(ai_services_without(s, id) == w);
            } else {
                assert(ai_services_without(s, id) == w.push(l));
                assert(w.push(l).contains(x) <==> (w.contains(x) || x == l));
            }
        }
    }
}

/// After `remove_ai_service(id)` goes through, no AI service has the id `id`.
pub proof fn lemma_ai_removal_leaves_no_such_id(s: Seq<AiServiceView>, id: Seq<char>)
    ensures
        first_ai_service_with_id(ai_services_without(s, id), id) is None,
{
    let out = ai_services_without(s, id);
    lemma_ai_services_without_members(s, id);
    assert forall|j: int| 0 <= j < out.len() implies !(out[j].id == id) by {
        assert(out.contains(out[j]));
    }
    lemma_first_index_none(out, |x: AiServiceView| x.id == id);
}

/// The active AI service keeps naming a listed service: if it did before a
/// removal that goes through, it does after, unless no service is left.
pub proof fn lemma_removal_keeps_active_listed(s: AppStateView, id: Seq<char>)
    requires
        first_ai_service_with_id(s.ai_services, s.active_ai_service_id) is Some,
    ensures
        ({
            let t = after_ai_removal(s, id);
            t.ai_services.len() > 0 ==> first_ai_service_with_id(
                t.ai_services,
                t.active_ai_service_id,
            ) is Some
        }),
{
    let t = after_ai_removal(s, id);
    lemma_ai_services_without_members(s.ai_services, id);
    lemma_first_index(s.ai_services, |x: AiServiceView| x.id == s.active_ai_service_id);
    lemma_first_index(t.ai_services, |x: AiServiceView| x.id == t.active_ai_service_id);
    if t.ai_services.len() > 0 {
        if s.active_ai_service_id == id {
            assert(t.active_ai_service_id == t.ai_services[0].id);
        } else {
            let k = first_ai_service_with_id(s.ai_services, s.active_ai_service_id)->0;
            let a = s.ai_services[k];
            assert(s.ai_services.contains(a));
            assert(t.ai_services.contains(a));
            let j = choose|j: int| 0 <= j < t.ai_services.len() && t.ai_services[j] == a;
            assert(t.ai_services[j].id == t.active_ai_service_id);
        }
    }
}

proof fn lemma_ai_services_without_step(s: Seq<AiServiceView>, id: Seq<char>, i: int)
    requires
        0 <= i < s.len(),
    ensures
        ai_services_without(s.take(i + 1), id) == (if s[i].id != id {
            ai_services_without(s.take(i), id).push(s[i])
        } else {
            ai_services_without(s.take(i), id)
        }),
{
    assert(s.take(i + 1).drop_last() =~= s.take(i));
}

/// The position of the first AI service with id `id`.
pub fn find_ai_service(services: &Vec<AiService>, id: &str) -> (r: Option<usize>)
    ensures
        match first_ai_service_with_id(ai_service_views(services@), id@) {
            Some(k) => 0 <= k < services.len() && r == Some(k as usize),
            None => r is None,
        },
        r matches Some(k) ==> k < services.len() && services@[k as int].id@ == id@,
{
    let ghost s = ai_service_views(services@);
    let mut i: usize = 0;
    while i < services.len()
        invariant
            s == ai_service_views(services@),
            0 <= i <= services.len(),
            forall|j: int| 0 <= j < i ==> s[j].id != id@,
        decreases services.len() - i,
    {
        if str_eq(services[i].id.as_str(), id) {
            proof {
                lemma_first_index_at(s, |x: AiServiceView| x.id == id@, i as int);
                assert(s[i as int].id == services@[i as int].id@);
            }
            return Some(i);
        }
        i = i + 1;
    }
    proof {
        lemma_first_index_none(s, |x: AiServiceView| x.id == id@);
    }
    None
}

fn ai_services_without_id(services: &Vec<AiService>, id: &str) -> (r: Vec<AiService>)
    ensures
        ai_service_views(r@) == ai_services_without(ai_service_views(services@), id@),
{
    let ghost s = ai_service_views(services@);
    let mut r: Vec<AiService> = Vec::new();
    let mut i: usize = 0;
    while i < services.len()
        invariant
            s == ai_service_views(services@),
            0 <= i <= services.len(),
            ai_service_views(r@) == ai_services_without(s.take(i as int), id@),
        decreases services.len() - i,
    {
        proof {
            lemma_ai_services_without_step(s, id@, i as int);
        }
        assert(s[i as int] == services@[i as int]@);
        if !str_eq(services[i].id.as_str(), id) {
            let ghost before = r@;
            r.push(services[i].clone());
            assert(ai_service_views(r@) =~= ai_service_views(before).push(s[i as int]));
        }
        i = i + 1;
    }
    assert(s.take(services.len() as int) =~= s);
    r
}

/// `width` brought into the range the AI companion allows.
pub fn clamp_ai_width(width: u32) -> (r: u32)
    ensures
        r == clamped_ai_width(width),
        MIN_AI_WIDTH <= r <= MAX_AI_WIDTH,
{
    if width < MIN_AI_WIDTH {
        MIN_AI_WIDTH
    } else if width > MAX_AI_WIDTH {
        MAX_AI_WIDTH
    } else {
        width
    }
}

impl AppState {
    /// The current list of AI services.
    pub fn ai_services_snapshot(&self) -> (r: Vec<AiService>)
        ensures
            r@ == self.ai_services@,
    {
        clone_ai_services(&self.ai_services)
    }

    /// The AI service the companion shows: the one with the active id, else the
    /// first one, else none.
    pub fn active_ai_service(&self) -> (r: Option<AiService>)
        ensures
            opt_ai_view(r) == active_ai_choice(self@),
    {
        match find_ai_service(&self.ai_services, self.active_ai_service_id.as_str()) {
            Some(k) => {
                assert(self@.ai_services[k as int] == self.ai_services@[k as int]@);
                Some(self.ai_services[k].clone())
            },
            None => if self.ai_services.len() > 0 {
                assert(self@.ai_services[0] == self.ai_services@[0]@);
                Some(self.ai_services[0].clone())
            } else {
                None
            },
        }
    }

    /// Makes the AI service `service_id` the active one when there is such a
    /// service; returns it.
    pub fn set_active_ai_service(&mut self, service_id: &str) -> (r: Option<AiService>)
        ensures
            match first_ai_service_with_id(old(self)@.ai_services, service_id@) {
                Some(k) => opt_ai_view(r) == Some(old(self)@.ai_services[k])
                    && final(self)@ == (AppStateView {
                    active_ai_service_id: service_id@,
                    ..old(self)@
                }),
                None => r is None && *final(self) == *old(self),
            },
    {
        match find_ai_service(&self.ai_services, service_id) {
            Some(k) => {
                assert(self@.ai_services[k as int] == self.ai_services@[k as int]@);
                let found = self.ai_services[k].clone();
                self.active_ai_service_id = String::from_str(service_id);
                Some(found)
            },
            None => None,
        }
    }

    /// Appends a new assistant service made from `service`, with an id drawn
    /// from the time `now` (milliseconds since the epoch); returns the new list.
    pub fn add_ai_service(&mut self, service: AiService, now: u64) -> (r: Vec<AiService>)
        ensures
            final(self)@ == (AppStateView {
                ai_services: old(self)@.ai_services.push(added_ai_service(service@, now)),
                ..old(self)@
            }),
            r@ == final(self).ai_services@,
    {
        let mut id = String::from_str("ai-");
        let stamp = decimal_string(now);
        id.append(stamp.as_str());
        let new_service = AiService { id, name: service.name, url: service.url, is_default: false };
        let ghost before = self.ai_services@;
        self.ai_services.push(new_service);
        assert(ai_service_views(self.ai_services@) =~= ai_service_views(before).push(
            added_ai_service(service@, now),
        ));
        clone_ai_services(&self.ai_services)
    }

    /// Removes every AI service with id `service_id`, unless the first of them is
    /// built in. When the active one goes, the first remaining one becomes active.
    pub fn remove_ai_service(&mut self, service_id: &str) -> (r: AiServiceRemoval)
        ensures
            removal_refused(old(self)@, service_id@) ==> r == AiServiceRemoval::Refused
                && *final(self) == *old(self),
            !removal_refused(old(self)@, service_id@) ==> r == (AiServiceRemoval::Removed {
                active_changed: removal_resets_active(old(self)@, service_id@),
            }) && final(self)@ == after_ai_removal(old(self)@, service_id@),
    {
        let is_default = match find_ai_service(&self.ai_services, service_id) {
            Some(k) => {
                assert(self@.ai_services[k as int] == self.ai_services@[k as int]@);
                self.ai_services[k].is_default
            },
            None => false,
        };
        if is_default {
            return AiServiceRemoval::Refused;
        }
        self.ai_services = ai_services_without_id(&self.ai_services, service_id);
        let mut active_changed = false;
        if str_eq(self.active_ai_service_id.as_str(), service_id) {
            if self.ai_services.len() > 0 {
                assert(self@.ai_services[0] == self.ai_services@[0]@);
                self.active_ai_service_id = self.ai_services[0].id.clone();
                active_changed = true;
            }
        }
        AiServiceRemoval::Removed { active_changed }
    }

    /// Shows or hides the AI companion; returns the new setting.
    pub fn set_show_ai_companion(&mut self, show: bool) -> (r: bool)
        ensures
            final(self)@ == (AppStateView { show_ai_companion: show, ..old(self)@ }),
            r == show,
    {
        self.show_ai_companion = show;
        show
    }

    /// Flips whether the AI companion is shown; returns the new setting.
    pub fn toggle_ai_companion(&mut self) -> (r: bool)
        ensures
            final(self)@ == (AppStateView {
                show_ai_companion: !old(self).show_ai_companion,
                ..old(self)@
            }),
            r == !old(self).show_ai_companion,
    {
        self.show_ai_companion = !self.show_ai_companion;
        self.show_ai_companion
    }

    /// Sets the width of the AI companion, brought into its allowed range;
    /// returns the width set.
    pub fn set_ai_width(&mut self, width: u32) -> (r: u32)
        ensures
            final(self)@ == (AppStateView { ai_width: clamped_ai_width(width), ..old(self)@ }),
            r == clamped_ai_width(width),
    {
        let w = clamp_ai_width(width);
        self.ai_width = w;
        w
    }
}

} // verus!
