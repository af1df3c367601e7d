//! The list of web services: adding, removing, editing and reordering them.

use vstd::prelude::*;
use vstd::string::StringExecFns;

use crate::seqs::{
    first_index, lemma_filter_take_step, lemma_first_index, lemma_first_index_at,
    lemma_first_index_none,
};
use crate::multisets::same_strings;
use crate::state::{
    AppState, AppStateView, Service, ServiceView, clone_services, service_ids,
    service_views, string_views,
};
use crate::text::{
    contains_text, decimal_string, decimal_view, lemma_decimal_injective, service_label,
    service_label_view, str_contains, str_eq,
};

verus! {

/// The position of the first service with id `id`, if any.
pub open spec fn first_service_with_id(s: Seq<ServiceView>, id: Seq<char>) -> Option<int> {
    first_index(s, |x: ServiceView| x.id == id)
}

/// The services of `s` whose id is not `id`, in order.
pub open spec fn services_without(s: Seq<ServiceView>, id: Seq<char>) -> Seq<ServiceView> {
    s.filter(|x: ServiceView| x.id != id)
}

/// The labels of `s` other than `label`, in order.
pub open spec fn labels_without(s: Seq<Seq<char>>, label: Seq<char>) -> Seq<Seq<char>>
    decreases s.len(),
{
    if s.len() == 0 {
        s
    } else if s.last() == label {
        labels_without(s.drop_last(), label)
    } else {
        labels_without(s.drop_last(), label).push(s.last())
    }
}

/// The icon a service gets when none is given: a link symbol.
pub open spec fn default_icon() -> Seq<char> {
    "\u{1F517}"@
}

/// The service that `add_service` appends for the input `input` at time `now`.
pub open spec fn added_service(input: ServiceView, now: u64) -> ServiceView {
    ServiceView {
        id: "custom-"@ + decimal_view(now as nat),
        name: input.name,
        url: input.url,
        icon: if input.icon.len() == 0 {
            default_icon()
        } else {
            input.icon
        },
        enabled: true,
        favicon_url: None,
    }
}

/// `current` edited by `input`: everything but the id is taken from the input,
/// the favicon only when the input has one.
pub open spec fn updated_service(current: ServiceView, input: ServiceView) -> ServiceView {
    ServiceView {
        id: current.id,
        name: input.name,
        url: input.url,
        icon: input.icon,
        enabled: input.enabled,
        favicon_url: if input.favicon_url is Some {
            input.favicon_url
        } else {
            current.favicon_url
        },
    }
}

/// The list `s` after `update_service` with the input `input`.
pub open spec fn services_after_update(s: Seq<ServiceView>, input: ServiceView) -> Seq<ServiceView> {
    match first_service_with_id(s, input.id) {
        Some(k) => s.update(k, updated_service(s[k], input)),
        None => s,
    }
}

/// The list `s` with `favicon` as the favicon of its `k`-th service.
pub open spec fn with_favicon(s: Seq<ServiceView>, k: int, favicon: Seq<char>) -> Seq<ServiceView> {
    s.update(k, ServiceView { favicon_url: Some(favicon), ..s[k] })
}

/// The service `add_service` appends keeps what the user typed: its name and
/// address, and its icon unless none was given (then the link icon); it starts
/// enabled, without a favicon, under an id made of "custom-" and the time.
pub proof fn lemma_added_service_keeps_input(input: ServiceView, now: u64)
    ensures
        added_service(input, now).name == input.name,
        added_service(input, now).url == input.url,
        input.icon.len() > 0 ==> added_service(input, now).icon == input.icon,
        input.icon.len() == 0 ==> added_service(input, now).icon == default_icon(),
        added_service(input, now).enabled,
        added_service(input, now).favicon_url is None,
        added_service(input, now).id == "custom-"@ + decimal_view(now as nat),
{
}

/// `update_service` edits the first service with the input's id, and only it:
/// that service then has the input's name, address, icon and enabled flag, keeps
/// its id and stays the first with it, takes the input's favicon when one is
/// given and keeps its own otherwise; every other service is left as it was.
pub proof fn lemma_update_edits_first_match(s: Seq<ServiceView>, input: ServiceView)
    requires
        first_service_with_id(s, input.id) is Some,
    ensures
        ({
            let k = first_service_with_id(s, input.id)->0;
            let t = services_after_update(s, input);
            &&& t.len() == s.len()
            &&& first_service_with_id(t, input.id) == Some(k)
            &&& t[k].id == s[k].id
            &&& t[k].name == input.name
            &&& t[k].url == input.url
            &&& t[k].icon == input.icon
            &&& t[k].enabled == input.enabled
            &&& (input.favicon_url is Some ==> t[k].favicon_url == input.favicon_url)
            &&& (input.favicon_url is None ==> t[k].favicon_url == s[k].favicon_url)
            &&& forall|j: int| 0 <= j < s.len() && j != k ==> t[j] == s[j]
        }),
{
    let k = first_service_with_id(s, input.id)->0;
    let t = services_after_update(s, input);
    lemma_first_index(s, |x: ServiceView| x.id == input.id);
    lemma_first_index_at(t, |x: ServiceView| x.id == input.id, k);
}

/// `update_service` changes nothing when no service has the input's id.
pub proof fn lemma_update_unknown_id(s: Seq<ServiceView>, input: ServiceView)
    requires
        first_service_with_id(s, input.id) is None,
    ensures
        services_after_update(s, input) == s,
{
}

/// Services added at different times get different ids.
pub proof fn lemma_added_ids_differ(input1: ServiceView, input2: ServiceView, now1: u64, now2: u64)
    requires
        now1 != now2,
    ensures
        added_service(input1, now1).id != added_service(input2, now2).id,
{
    let (i1, i2) = (added_service(input1, now1).id, added_service(input2, now2).id);
    if i1 == i2 {
        let n = "custom-"@.len() as int;
        assert(i1.skip(n) =~= decimal_view(now1 as nat));
        assert(i2.skip(n) =~= decimal_view(now2 as nat));
        lemma_decimal_injective(now1 as nat, now2 as nat);
    }
}

/// After `remove_service(id)` no service has the id `id`.
pub proof fn lemma_removed_service_is_gone(s: Seq<ServiceView>, id: Seq<char>)
    ensures
        first_service_with_id(services_without(s, id), id) is None,
{
    let out = services_without(s, id);
    assert forall|j: int| 0 <= j < out.len() implies !(out[j].id == id) by {
        s.lemma_filter_pred(|x: ServiceView| x.id != id, j);
    }
    lemma_first_index_none(out, |x: ServiceView| x.id == id);
}

/// `remove_service(id)` keeps every service with another id.
pub proof fn lemma_remove_keeps_others(s: Seq<ServiceView>, id: Seq<char>, i: int)
    requires
        0 <= i < s.len(),
        s[i].id != id,
    ensures
        services_without(s, id).contains(s[i]),
{
    s.lemma_filter_contains(|x: ServiceView| x.id != id, i);
}

/// Removing, by its id, a service just added under a new id gives back the
/// list from before.
pub proof fn lemma_remove_undoes_add(s: Seq<ServiceView>, x: ServiceView)
    requires
        first_service_with_id(s, x.id) is None,
    ensures
        services_without(s.push(x), x.id) == s,
    decreases s.len(),
{
    reveal_with_fuel(Seq::<_>::filter, 1);
    lemma_first_index(s, |y: ServiceView| y.id == x.id);
    assert(s.push(x).drop_last() =~= s);
    lemma_keeps_all(s, x.id);
}

proof fn lemma_keeps_all(s: Seq<ServiceView>, id: Seq<char>)
    requires
        forall|j: int| 0 <= j < s.len() ==> s[j].id != id,
    ensures
        services_without(s, id) == s,
    decreases s.len(),
{
    reveal_with_fuel(Seq::<_>::filter, 1);
    if s.len() > 0 {
        lemma_keeps_all(s.drop_last(), id);
        assert(s.drop_last().push(s.last()) =~= s);
    }
}

/// `update_service` changes no id: the list keeps its ids, in order.
pub proof fn lemma_update_keeps_ids(s: Seq<ServiceView>, input: ServiceView)
    ensures
        service_ids(services_after_update(s, input)) == service_ids(s),
{
    lemma_first_index(s, |x: ServiceView| x.id == input.id);
    assert(service_ids(services_after_update(s, input)) =~= service_ids(s));
}

/// Recording a favicon twice asks for one save: after the first
/// `update_favicon(id, f)`, the first service with id `id` has the favicon `f`,
/// so the second changes nothing.
pub proof fn lemma_favicon_update_is_idempotent(s: Seq<ServiceView>, id: Seq<char>, favicon: Seq<char>)
    requires
        first_service_with_id(s, id) is Some,
    ensures
        ({
            let k = first_service_with_id(s, id)->0;
            let t = with_favicon(s, k, favicon);
            first_service_with_id(t, id) == Some(k) && t[k].favicon_url == Some(favicon)
        }),
{
    let k = first_service_with_id(s, id)->0;
    let t = with_favicon(s, k, favicon);
    lemma_first_index(s, |x: ServiceView| x.id == id);
    lemma_first_index_at(t, |x: ServiceView| x.id == id, k);
}

proof fn lemma_services_without_step(s: Seq<ServiceView>, id: Seq<char>, i: int)
    requires
        0 <= i < s.len(),
    ensures
        services_without(s.take(i + 1), id) == (if s[i].id != id {
            services_without(s.take(i), id).push(s[i])
        } else {
            services_without(s.take(i), id)
        }),
{
    lemma_filter_take_step(s, |x: ServiceView| x.id != id, i);
}

pub proof fn lemma_labels_without_step(s: Seq<Seq<char>>, label: Seq<char>, i: int)
    requires
        0 <= i < s.len(),
    ensures
        labels_without(s.take(i + 1), label) == (if s[i] != label {
            labels_without(s.take(i), label).push(s[i])
        } else {
            labels_without(s.take(i), label)
        }),
{
    assert(s.take(i + 1).drop_last() =~= s.take(i));
}

/// The position of the first service with id `id`.
pub fn find_service(services: &Vec<Service>, id: &str) -> (r: Option<usize>)
    ensures
        match first_service_with_id(service_views(services@), id@) {
            Some(k) => 0 <= k < services.len() && r == Some(k as usize),
            None => r is None,
        },
        r matches Some(k) ==> k < services.len() && services@[k as int].id@ == id@,
{
    let ghost s = service_views(services@);
    let mut i: usize = 0;
    while i < services.len()
        invariant
            s == service_views(services@),
            0 <= i <= services.len(),
            forall|j: int| 0 <= j < i ==> s[j].id != id@,
        decreases services.len() - i,
    {
        if str_eq(services[i].id.as_str(), id) {
            proof {
                lemma_first_index_at(s, |x: ServiceView| x.id == id@, i as int);
                assert(s[i as int].id == services@[i as int].id@);
            }
            return Some(i);
        }
        i = i + 1;
    }
    proof {
        lemma_first_index_none(s, |x: ServiceView| x.id == id@);
    }
    None
}

/// The labels of `labels` other than `label`, in order.
pub fn strings_without(labels: &Vec<String>, label: &str) -> (r: Vec<String>)
    ensures
        string_views(r@) == labels_without(string_views(labels@), label@),
{
    let ghost s = string_views(labels@);
    let mut r: Vec<String> = Vec::new();
    let mut i: usize = 0;
    while i < labels.len()
        invariant
            s == string_views(labels@),
            0 <= i <= labels.len(),
            string_views(r@) == labels_without(s.take(i as int), label@),
        decreases labels.len() - i,
    {
        proof {
            lemma_labels_without_step(s, label@, i as int);
        }
        if !str_eq(labels[i].as_str(), label) {
            let ghost before = r@;
            r.push(labels[i].clone());
            assert(string_views(r@) =~= string_views(before).push(s[i as int]));
        }
        i = i + 1;
    }
    assert(s.take(labels.len() as int) =~= s);
    r
}

fn services_without_id(services: &Vec<Service>, id: &str) -> (r: Vec<Service>)
    ensures
        service_views(r@) == services_without(service_views(services@), id@),
{
    let ghost s = service_views(services@);
    let mut r: Vec<Service> = Vec::new();
    let mut i: usize = 0;
    while i < services.len()
        invariant
            s == service_views(services@),
            0 <= i <= services.len(),
            service_views(r@) == services_without(s.take(i as int), id@),
        decreases services.len() - i,
    {
        proof {
            lemma_services_without_step(s, id@, i as int);
        }
        if !str_eq(services[i].id.as_str(), id) {
            let ghost before = r@;
            r.push(services[i].clone());
            assert(service_views(r@) =~= service_views(before).push(s[i as int]));
        }
        i = i + 1;
    }
    assert(s.take(services.len() as int) =~= s);
    r
}

/// Whether `a` and `b` list the same service ids, each as often.
pub open spec fn same_service_ids(a: Seq<ServiceView>, b: Seq<ServiceView>) -> bool {
    service_ids(a).to_multiset() == service_ids(b).to_multiset()
}

/// The position of the first service whose address mentions Slack, if any.
pub open spec fn first_slack_service(s: Seq<ServiceView>) -> Option<int> {
    first_index(s, |x: ServiceView| contains_text(x.url, "slack.com"@))
}

/// The webview labels of the enabled services of `s`, in order.
pub open spec fn enabled_service_labels_of(s: Seq<ServiceView>) -> Seq<Seq<char>>
    decreases s.len(),
{
    if s.len() == 0 {
        Seq::empty()
    } else if s.last().enabled {
        enabled_service_labels_of(s.drop_last()).push(service_label_view(s.last().id))
    } else {
        enabled_service_labels_of(s.drop_last())
    }
}

/// The ids of `services`, in order.
pub fn service_id_list(services: &Vec<Service>) -> (r: Vec<String>)
    ensures
        string_views(r@) == service_ids(service_views(services@)),
{
    let ghost s = service_ids(service_views(services@));
    let mut r: Vec<String> = Vec::new();
    let mut i: usize = 0;
    while i < services.len()
        invariant
            s == service_ids(service_views(services@)),
            0 <= i <= services.len(),
            string_views(r@) == s.take(i as int),
        decreases services.len() - i,
    {
        let ghost before = r@;
        assert(s[i as int] == services@[i as int].id@);
        r.push(services[i].id.clone());
        assert(string_views(r@) =~= string_views(before).push(s[i as int]));
        assert(s.take(i + 1) =~= s.take(i as int).push(s[i as int]));
        i = i + 1;
    }
    assert(s.take(services.len() as int) =~= s);
    r
}

fn clone_opt_string(o: &Option<String>) -> (r: Option<String>)
    ensures
        r == *o,
{
    match o {
        Some(s) => Some(s.clone()),
        None => None,
    }
}

impl AppState {
    /// The current list of services.
    pub fn services_snapshot(&self) -> (r: Vec<Service>)
        ensures
            r@ == self.services@,
    {
        clone_services(&self.services)
    }

    /// Appends a new, enabled service made from `service`, with an id drawn from
    /// the time `now` (milliseconds since the epoch) and a link icon when none
    /// is given; returns the new list.
    pub fn add_service(&mut self, service: Service, now: u64) -> (r: Vec<Service>)
        ensures
            final(self)@ == (AppStateView {
                services: old(self)@.services.push(added_service(service@, now)),
                ..old(self)@
            }),
            r@ == final(self).services@,
            final(self)@.services.len() == old(self)@.services.len() + 1,
            final(self)@.services.last().name == service@.name,
            final(self)@.services.last().url == service@.url,
            service@.icon.len() > 0 ==> final(self)@.services.last().icon == service@.icon,
            final(self)@.services.last().enabled,
    {
        proof {
            lemma_added_service_keeps_input(service@, now);
        }
        let mut id = String::from_str("custom-");
        let stamp = decimal_string(now);
        id.append(stamp.as_str());
        let icon = if service.icon.as_str().is_empty() {
            String::from_str("\u{1F517}")
        } else {
            service.icon
        };
        let new_service = Service {
            id,
            name: service.name,
            url: service.url,
            icon,
            enabled: true,
            favicon_url: None,
        };
        let ghost before = self.services@;
        self.services.push(new_service);
        assert(service_views(self.services@) =~= service_views(before).push(
            added_service(service@, now),
        ));
        clone_services(&self.services)
    }

    /// Removes every service with id `service_id`, and forgets the label of its
    /// webview; returns the new list.
    pub fn remove_service(&mut self, service_id: &str) -> (r: Vec<Service>)
        ensures
            final(self)@ == (AppStateView {
                services: services_without(old(self)@.services, service_id@),
                created_webview_labels: labels_without(
                    old(self)@.created_webview_labels,
                    service_label_view(service_id@),
                ),
                ..old(self)@
            }),
            r@ == final(self).services@,
    {
        let label = service_label(service_id);
        self.services = services_without_id(&self.services, service_id);
        self.created_webview_labels = strings_without(&self.created_webview_labels, label.as_str());
        clone_services(&self.services)
    }

    /// Edits the first service whose id is that of `service`: its name, address,
    /// icon and enabled flag, and its favicon when `service` has one; returns the
    /// new list. Without such a service nothing changes.
    pub fn update_service(&mut self, service: Service) -> (r: Vec<Service>)
        ensures
            final(self)@ == (AppStateView {
                services: services_after_update(old(self)@.services, service@),
                ..old(self)@
            }),
            r@ == final(self).services@,
            first_service_with_id(old(self)@.services, service@.id) matches Some(k) ==> {
                &&& final(self)@.services[k].name == service@.name
                &&& final(self)@.services[k].url == service@.url
                &&& final(self)@.services[k].icon == service@.icon
                &&& final(self)@.services[k].enabled == service@.enabled
            },
    {
        proof {
            if first_service_with_id(old(self)@.services, service@.id) is Some {
                lemma_update_edits_first_match(old(self)@.services, service@);
            }
        }
        match find_service(&self.services, service.id.as_str()) {
            Some(k) => {
                let favicon_url = match service.favicon_url {
                    Some(f) => Some(f),
                    None => clone_opt_string(&self.services[k].favicon_url),
                };
                let edited = Service {
                    id: self.services[k].id.clone(),
                    name: service.name,
                    url: service.url,
                    icon: service.icon,
                    enabled: service.enabled,
                    favicon_url,
                };
                let ghost before = self.services@;
                let ghost expected = updated_service(service_views(before)[k as int], service@);
                assert(edited@ == expected);
                self.services.set(k, edited);
                assert(service_views(self.services@) =~= service_views(before).update(
                    k as int,
                    expected,
                ));
            },
            None => {},
        }
        clone_services(&self.services)
    }

    /// Takes `services` as the new order when it lists the same ids, each as
    /// often, as the current list; otherwise keeps the list. Says whether it
    /// took the new order.
    pub fn reorder_services(&mut self, services: Vec<Service>) -> (applied: bool)
        ensures
            applied == same_service_ids(old(self)@.services, service_views(services@)),
            applied ==> final(self)@ == (AppStateView {
                services: service_views(services@),
                ..old(self)@
            }),
            !applied ==> *final(self) == *old(self),
            same_service_ids(final(self)@.services, old(self)@.services),
    {
        let current_ids = service_id_list(&self.services);
        let new_ids = service_id_list(&services);
        if !same_strings(&current_ids, &new_ids) {
            return false;
        }
        self.services = services;
        true
    }

    /// Makes `service_id` the active service; returns it.
    pub fn set_active_service(&mut self, service_id: String) -> (r: String)
        ensures
            final(self)@ == (AppStateView { active_service_id: service_id@, ..old(self)@ }),
            r@ == service_id@,
    {
        let r = service_id.clone();
        self.active_service_id = service_id;
        r
    }

    /// Records `favicon_url` as the favicon of the first service with id
    /// `service_id`. Says whether the list has to be saved and announced: not when
    /// that service already had this favicon; yes otherwise, also when there is no
    /// such service.
    pub fn update_favicon(&mut self, service_id: &str, favicon_url: String) -> (changed: bool)
        ensures
            match first_service_with_id(old(self)@.services, service_id@) {
                Some(k) => if old(self)@.services[k].favicon_url == Some(favicon_url@) {
                    !changed && *final(self) == *old(self)
                } else {
                    changed && final(self)@ == (AppStateView {
                        services: with_favicon(old(self)@.services, k, favicon_url@),
                        ..old(self)@
                    })
                },
                None => changed && *final(self) == *old(self),
            },
    {
        match find_service(&self.services, service_id) {
            Some(k) => {
                let same = match &self.services[k].favicon_url {
                    Some(f) => *f == favicon_url,
                    None => false,
                };
                if same {
                    return false;
                }
                let current = &self.services[k];
                let edited = Service {
                    id: current.id.clone(),
                    name: current.name.clone(),
                    url: current.url.clone(),
                    icon: current.icon.clone(),
                    enabled: current.enabled,
                    favicon_url: Some(favicon_url),
                };
                let ghost before = self.services@;
                self.services.set(k, edited);
                assert(service_views(self.services@) =~= service_views(before).update(
                    k as int,
                    ServiceView { favicon_url: Some(edited@.favicon_url->0), ..service_views(before)[k as int] },
                ));
                true
            },
            None => true,
        }
    }

    /// The address of the first service with id `service_id`, if any.
    pub fn service_url(&self, service_id: &str) -> (r: Option<String>)
        ensures
            match first_service_with_id(self@.services, service_id@) {
                Some(k) => r is Some && r->0@ == self@.services[k].url,
                None => r is None,
            },
    {
        match find_service(&self.services, service_id) {
            Some(k) => {
                assert(self@.services[k as int] == self.services@[k as int]@);
                Some(self.services[k].url.clone())
            },
            None => None,
        }
    }

    /// The webview labels of the enabled services, in order.
    pub fn enabled_service_labels(&self) -> (r: Vec<String>)
        ensures
            string_views(r@) == enabled_service_labels_of(self@.services),
    {
        let ghost s = self@.services;
        let mut r: Vec<String> = Vec::new();
        let mut i: usize = 0;
        while i < self.services.len()
            invariant
                s == service_views(self.services@),
                0 <= i <= self.services.len(),
                string_views(r@) == enabled_service_labels_of(s.take(i as int)),
            decreases self.services.len() - i,
        {
            assert(s.take(i + 1).drop_last() =~= s.take(i as int));
            if self.services[i].enabled {
                let ghost before = r@;
                r.push(service_label(self.services[i].id.as_str()));
                assert(string_views(r@) =~= string_views(before).push(
                    service_label_view(s[i as int].id),
                ));
            }
            i = i + 1;
        }
        assert(s.take(self.services.len() as int) =~= s);
        r
    }

    /// The webview label of the first service whose address mentions Slack, if any.
    pub fn slack_service_label(&self) -> (r: Option<String>)
        ensures
            match first_slack_service(self@.services) {
                Some(k) => r is Some && r->0@ == service_label_view(self@.services[k].id),
                None => r is None,
            },
    {
        let ghost s = self@.services;
        let mut i: usize = 0;
        while i < self.services.len()
            invariant
                s == service_views(self.services@),
                0 <= i <= self.services.len(),
                forall|j: int| 0 <= j < i ==> !contains_text(s[j].url, "slack.com"@),
            decreases self.services.len() - i,
        {
            if str_contains(self.services[i].url.as_str(), "slack.com") {
                proof {
                    lemma_first_index_at(
                        s,
                        |x: ServiceView| contains_text(x.url, "slack.com"@),
                        i as int,
                    );
                }
                return Some(service_label(self.services[i].id.as_str()));
            }
            i = i + 1;
        }
        proof {
            lemma_first_index_none(s, |x: ServiceView| contains_text(x.url, "slack.com"@));
        }
        None
    }
}

} // verus!
