use url_shortener::event::{Event, EventLog};
use url_shortener::{Slug, Url};

fn created(slug: &str, url: &str) -> Event {
    Event::LinkCreated { slug: Slug(slug.to_string()), url: Url(url.to_string()) }
}

fn redirected(slug: &str) -> Event {
    Event::RedirectOccurred { slug: Slug(slug.to_string()) }
}

#[test]
fn new_log_is_empty() {
    let log = EventLog::new();
    assert!(log.is_empty());
    assert_eq!(log.len(), 0);
    assert_eq!(log.get(0), None);
    assert_eq!(log.entries(), vec![]);
}

#[test]
fn append_hands_out_increasing_sequence_numbers() {
    let mut log = EventLog::new();
    assert_eq!(log.append(created("abc", "https://x.test/")), 0);
    assert_eq!(log.append(redirected("abc")), 1);
    assert_eq!(log.append(redirected("abc")), 2);
    assert_eq!(log.len(), 3);
    assert!(!log.is_empty());
}

#[test]
fn get_returns_the_event_at_its_sequence_number() {
    let mut log = EventLog::new();
    log.append(created("abc", "https://x.test/"));
    log.append(redirected("abc"));
    assert_eq!(log.get(0), Some(&created("abc", "https://x.test/")));
    assert_eq!(log.get(1), Some(&redirected("abc")));
    assert_eq!(log.get(2), None);
    assert_eq!(log.get(usize::MAX), None);
}

#[test]
fn append_keeps_earlier_entries() {
    let mut log = EventLog::new();
    log.append(created("abc", "https://x.test/"));
    let before = log.entries();
    log.append(created("abc", "https://again.test/"));
    let after = log.entries();
    assert_eq!(after.len(), 2);
    assert_eq!(after[0], before[0]);
    assert_eq!(after[1], (1, created("abc", "https://again.test/")));
}

#[test]
fn entries_are_in_append_order_and_restartable() {
    let mut log = EventLog::new();
    log.append(redirected("b"));
    log.append(created("a", "https://a.test/"));
    log.append(redirected("a"));
    let first = log.entries();
    let second = log.entries();
    assert_eq!(first, second);
    assert_eq!(
        first,
        vec![
            (0, redirected("b")),
            (1, created("a", "https://a.test/")),
            (2, redirected("a")),
        ]
    );
}

#[test]
fn event_slug_names_the_slug() {
    assert_eq!(created("abc", "https://x.test/").slug(), &Slug("abc".to_string()));
    assert_eq!(redirected("xyz").slug(), &Slug("xyz".to_string()));
}

#[test]
fn events_compare_by_content() {
    assert_eq!(created("abc", "https://x.test/"), created("abc", "https://x.test/"));
    assert_ne!(created("abc", "https://x.test/"), created("abc", "https://y.test/"));
    assert_ne!(created("abc", "https://x.test/"), created("abd", "https://x.test/"));
    assert_ne!(created("abc", "https://x.test/"), redirected("abc"));
    assert_ne!(redirected("abc"), created("abc", "https://x.test/"));
    assert_eq!(redirected("abc"), redirected("abc"));
    assert_ne!(redirected("abc"), redirected("abd"));
    let event = created("abc", "https://x.test/");
    assert_eq!(event.clone(), event);
}
