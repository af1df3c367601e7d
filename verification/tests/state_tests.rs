use shell_core::ai::{clamp_ai_width, AiServiceRemoval};
use shell_core::badges::BadgeCounts;
use shell_core::clock::{chrono_now, epoch_millis_stamp};
use shell_core::multisets::same_strings;
use shell_core::popup::is_auth_complete;
use shell_core::script::{ai_input_script, input_script};
use shell_core::state::{AiService, AppState, Service};
use shell_core::text::{decimal_string, service_label, str_contains, str_eq};
use shell_core::urls::parse_navigation_url;

fn service(id: &str, url: &str, enabled: bool) -> Service {
    Service {
        id: id.into(),
        name: format!("name of {}", id),
        url: url.into(),
        icon: "i".into(),
        enabled,
        favicon_url: None,
    }
}

fn ai(id: &str, is_default: bool) -> AiService {
    AiService { id: id.into(), name: id.to_uppercase(), url: format!("https://{}.example", id), is_default }
}

fn ids(list: &[Service]) -> Vec<String> {
    list.iter().map(|s| s.id.clone()).collect()
}

fn state_with_services() -> AppState {
    let mut s = AppState::default();
    s.services = vec![
        service("slack", "https://app.slack.com/client", true),
        service("mail", "https://mail.example.com", false),
        service("chat", "https://chat.example.com", true),
    ];
    s.ai_services = vec![ai("alpha", true), ai("beta", false), ai("gamma", false)];
    s.active_ai_service_id = "beta".into();
    s
}

#[test]
fn add_service_builds_custom_entry() {
    let mut s = AppState::default();
    let input = Service {
        id: "ignored".into(),
        name: "Docs".into(),
        url: "https://docs.example".into(),
        icon: String::new(),
        enabled: false,
        favicon_url: Some("f".into()),
    };
    let list = s.add_service(input, 1700000000123);
    assert_eq!(list.len(), 1);
    assert_eq!(list[0].id, "custom-1700000000123");
    assert_eq!(list[0].name, "Docs");
    assert_eq!(list[0].icon, "\u{1F517}");
    assert!(list[0].enabled);
    assert_eq!(list[0].favicon_url, None);
    assert_eq!(s.services.len(), 1);
}

#[test]
fn add_service_keeps_given_icon() {
    let mut s = state_with_services();
    let list = s.add_service(service("x", "https://x", false), 7);
    assert_eq!(ids(&list), vec!["slack", "mail", "chat", "custom-7"]);
    assert_eq!(list[3].icon, "i");
}

#[test]
fn remove_service_drops_service_and_label() {
    let mut s = state_with_services();
    s.created_webview_labels = vec!["service-mail".into(), "service-chat".into(), "service-mail".into()];
    let list = s.remove_service("mail");
    assert_eq!(ids(&list), vec!["slack", "chat"]);
    assert_eq!(s.created_webview_labels, vec!["service-chat".to_string()]);
    let again = s.remove_service("mail");
    assert_eq!(ids(&again), vec!["slack", "chat"]);
}

#[test]
fn update_service_edits_first_match() {
    let mut s = state_with_services();
    s.services[2].favicon_url = Some("old-icon".into());
    let mut edit = service("chat", "https://new.example", false);
    edit.name = "Renamed".into();
    let list = s.update_service(edit);
    assert_eq!(list[2].name, "Renamed");
    assert_eq!(list[2].url, "https://new.example");
    assert!(!list[2].enabled);
    assert_eq!(list[2].favicon_url, Some("old-icon".to_string()));
    let mut with_icon = service("chat", "https://new.example", true);
    with_icon.favicon_url = Some("new-icon".into());
    let list = s.update_service(with_icon);
    assert_eq!(list[2].favicon_url, Some("new-icon".to_string()));
    let unknown = s.update_service(service("nope", "u", true));
    assert_eq!(ids(&unknown), vec!["slack", "mail", "chat"]);
}

#[test]
fn reorder_services_applies_permutations_only() {
    let mut s = state_with_services();
    let reordered = vec![
        service("chat", "c", true),
        service("slack", "s", true),
        service("mail", "m", true),
    ];
    assert!(s.reorder_services(reordered));
    assert_eq!(ids(&s.services), vec!["chat", "slack", "mail"]);
    let wrong = vec![service("chat", "c", true), service("slack", "s", true)];
    assert!(!s.reorder_services(wrong));
    assert_eq!(ids(&s.services), vec!["chat", "slack", "mail"]);
    let duplicated = vec![
        service("chat", "c", true),
        service("chat", "c", true),
        service("mail", "m", true),
    ];
    assert!(!s.reorder_services(duplicated));
}

#[test]
fn same_strings_counts_repeats() {
    let a: Vec<String> = vec!["a".into(), "b".into(), "a".into()];
    let b: Vec<String> = vec!["b".into(), "a".into(), "a".into()];
    let c: Vec<String> = vec!["b".into(), "b".into(), "a".into()];
    assert!(same_strings(&a, &b));
    assert!(!same_strings(&a, &c));
    assert!(same_strings(&Vec::new(), &Vec::new()));
}

#[test]
fn set_active_service_returns_id() {
    let mut s = AppState::default();
    assert_eq!(s.set_active_service("chat".into()), "chat");
    assert_eq!(s.active_service_id, "chat");
}

#[test]
fn active_ai_service_falls_back_to_first() {
    let mut s = state_with_services();
    assert_eq!(s.active_ai_service().unwrap().id, "beta");
    s.active_ai_service_id = "missing".into();
    assert_eq!(s.active_ai_service().unwrap().id, "alpha");
    s.ai_services.clear();
    assert!(s.active_ai_service().is_none());
}

#[test]
fn set_active_ai_service_only_for_known_ids() {
    let mut s = state_with_services();
    assert_eq!(s.set_active_ai_service("gamma").unwrap().id, "gamma");
    assert_eq!(s.active_ai_service_id, "gamma");
    assert_eq!(s.active_ai_service().unwrap().id, "gamma");
    assert!(s.set_active_ai_service("nope").is_none());
    assert_eq!(s.active_ai_service_id, "gamma");
}

#[test]
fn add_ai_service_is_never_default() {
    let mut s = AppState::default();
    let list = s.add_ai_service(ai("x", true), 42);
    assert_eq!(list[0].id, "ai-42");
    assert_eq!(list[0].name, "X");
    assert!(!list[0].is_default);
}

#[test]
fn remove_ai_service_refuses_built_in() {
    let mut s = state_with_services();
    assert_eq!(s.remove_ai_service("alpha"), AiServiceRemoval::Refused);
    assert_eq!(s.ai_services.len(), 3);
}

#[test]
fn remove_active_ai_service_moves_active_to_first() {
    let mut s = state_with_services();
    assert_eq!(
        s.remove_ai_service("beta"),
        AiServiceRemoval::Removed { active_changed: true }
    );
    assert_eq!(s.active_ai_service_id, "alpha");
    assert_eq!(s.ai_services.iter().map(|a| a.id.as_str()).collect::<Vec<_>>(), vec!["alpha", "gamma"]);
    assert_eq!(
        s.remove_ai_service("gamma"),
        AiServiceRemoval::Removed { active_changed: false }
    );
    assert_eq!(
        s.remove_ai_service("unknown"),
        AiServiceRemoval::Removed { active_changed: false }
    );
}

#[test]
fn ai_width_is_clamped() {
    assert_eq!(clamp_ai_width(10), 300);
    assert_eq!(clamp_ai_width(300), 300);
    assert_eq!(clamp_ai_width(555), 555);
    assert_eq!(clamp_ai_width(801), 800);
    let mut s = AppState::default();
    assert_eq!(s.set_ai_width(9000), 800);
    assert_eq!(s.ai_width, 800);
}

#[test]
fn companion_toggle_and_set() {
    let mut s = AppState::default();
    assert!(s.toggle_ai_companion());
    assert!(!s.toggle_ai_companion());
    assert!(s.set_show_ai_companion(true));
    assert!(s.show_ai_companion);
}

#[test]
fn badge_counts_read_after_write() {
    let mut b = BadgeCounts::new();
    assert_eq!(b.get("slack"), None);
    b.insert("slack".into(), 3);
    b.insert("mail".into(), 1);
    b.insert("slack".into(), 5);
    assert_eq!(b.get("slack"), Some(5));
    assert_eq!(b.get("mail"), Some(1));
    assert_eq!(b.get("chat"), None);
}

#[test]
fn webview_labels_are_recorded_once() {
    let mut s = AppState::default();
    s.record_webview_label("service-a".into());
    s.record_webview_label("service-a".into());
    s.record_webview_label("service-b".into());
    assert_eq!(s.created_webview_labels, vec!["service-a".to_string(), "service-b".to_string()]);
    s.forget_webview_label("service-a");
    assert_eq!(s.created_webview_labels, vec!["service-b".to_string()]);
}

#[test]
fn register_existing_webviews_records_found_labels() {
    let mut s = AppState::default();
    s.created_webview_labels = vec!["service-a".into()];
    s.register_existing_webviews(vec!["service-a".into(), "service-c".into()], true);
    assert!(s.ai_webview_created);
    assert_eq!(s.created_webview_labels, vec!["service-a".to_string(), "service-c".to_string()]);
    s.register_existing_webviews(Vec::new(), false);
    assert!(s.ai_webview_created);
}

#[test]
fn enabled_service_labels_skip_disabled() {
    let s = state_with_services();
    assert_eq!(
        s.enabled_service_labels(),
        vec!["service-slack".to_string(), "service-chat".to_string()]
    );
}

#[test]
fn webviews_hidden_and_restored_around_modal() {
    let mut s = AppState::default();
    assert_eq!(s.webviews_to_hide(), vec!["ai-webview".to_string()]);
    assert!(s.webviews_to_restore().is_empty());
    s.active_service_id = "chat".into();
    s.show_ai_companion = true;
    assert_eq!(s.webviews_to_hide(), vec!["service-chat".to_string(), "ai-webview".to_string()]);
    assert_eq!(s.webviews_to_restore(), vec!["service-chat".to_string(), "ai-webview".to_string()]);
    s.show_ai_companion = false;
    assert_eq!(s.webviews_to_restore(), vec!["service-chat".to_string()]);
}

#[test]
fn service_url_and_slack_label() {
    let s = state_with_services();
    assert_eq!(s.service_url("mail"), Some("https://mail.example.com".to_string()));
    assert_eq!(s.service_url("nope"), None);
    assert_eq!(s.slack_service_label(), Some("service-slack".to_string()));
    assert_eq!(s.auth_return_label(Some("service-x".into())), Some("service-x".to_string()));
    assert_eq!(s.auth_return_label(None), Some("service-slack".to_string()));
    assert_eq!(AppState::default().auth_return_label(None), None);
}

#[test]
fn favicon_updates_once() {
    let mut s = state_with_services();
    assert!(s.update_favicon("chat", "https://chat.example.com/favicon.ico".into()));
    assert_eq!(s.services[2].favicon_url.as_deref(), Some("https://chat.example.com/favicon.ico"));
    assert!(!s.update_favicon("chat", "https://chat.example.com/favicon.ico".into()));
    assert!(s.update_favicon("nope", "x".into()));
}

#[test]
fn auth_completion_rules() {
    assert!(is_auth_complete("https://app.slack.com/client/T1", None, false));
    assert!(is_auth_complete("https://team.slack.com/messages", None, false));
    assert!(!is_auth_complete("https://team.slack.com/signin", None, false));
    assert!(!is_auth_complete("https://accounts.google.com/?next=x.slack.com", None, false));
    assert!(!is_auth_complete("https://oauth2.slack.com/x", None, false));
    assert!(!is_auth_complete("https://example.com", None, false));
    assert!(is_auth_complete("https://chat.example.com/home", Some("example.com"), false));
    assert!(!is_auth_complete("https://chat.example.com/login", Some("example.com"), true));
    assert!(!is_auth_complete("https://other.org", Some("example.com"), false));
}

#[test]
fn text_helpers() {
    assert!(str_contains("hello world", "lo w"));
    assert!(str_contains("abc", ""));
    assert!(!str_contains("abc", "abcd"));
    assert!(!str_contains("abc", "ac"));
    assert!(str_eq("same", "same"));
    assert!(!str_eq("same", "sane"));
    assert_eq!(service_label("x1"), "service-x1");
    assert_eq!(decimal_string(0), "0");
    assert_eq!(decimal_string(1234567890123), "1234567890123");
    assert_eq!(decimal_string(u64::MAX), "18446744073709551615");
}

#[test]
fn input_script_embeds_json_literal() {
    let script = ai_input_script(&"say \"hi\"\n".to_string());
    assert!(script.contains("el.value = \"say \\\"hi\\\"\\n\";"));
    assert!(script.contains("el.textContent = \"say \\\"hi\\\"\\n\";"));
    assert!(script.contains("navigator.clipboard.writeText(\"say \\\"hi\\\"\\n\");"));
    assert!(script.starts_with("(function() {"));
    assert!(script.ends_with("})();"));
    assert_eq!(input_script("@@@").matches("@@@").count(), 3);
}

#[test]
fn navigation_urls_are_parsed() {
    let u = parse_navigation_url("https://example.com/a?b=c").unwrap();
    assert_eq!(u.as_str(), "https://example.com/a?b=c");
    assert_eq!(
        parse_navigation_url("not a url").unwrap_err(),
        "relative URL without a base"
    );
}

#[test]
fn clock_reads_milliseconds() {
    let a = chrono_now();
    assert!(a > 1_600_000_000_000);
}

#[test]
fn removing_an_added_service_restores_the_list() {
    let mut s = state_with_services();
    let added = s.add_service(service("new", "https://new.example", true), 99);
    let id = added[3].id.clone();
    let list = s.remove_service(&id);
    assert_eq!(ids(&list), vec!["slack", "mail", "chat"]);
}

#[test]
fn services_added_at_different_times_differ() {
    let mut s = AppState::default();
    s.add_service(service("a", "u", true), 1);
    let list = s.add_service(service("a", "u", true), 10);
    assert_ne!(list[0].id, list[1].id);
}

#[test]
fn epoch_stamp_truncates_and_defaults() {
    assert_eq!(epoch_millis_stamp(Some(1_700_000_000_123)), 1_700_000_000_123);
    assert_eq!(epoch_millis_stamp(Some((1u128 << 64) + 5)), 5);
    assert_eq!(epoch_millis_stamp(None), 0);
}
