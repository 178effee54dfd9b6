use url_shortener::capability::{generate_slug, SLUG_LENGTH};
use url_shortener::commands::CommandHandler;
use url_shortener::event::Event;
use url_shortener::queries::QueryHandler;
use url_shortener::replay::rebuild;
use url_shortener::{ShortLink, ShortenerError, Slug, Stats, Url, UrlShortenerService};

fn url(text: &str) -> Url {
    Url(text.to_string())
}

fn slug(text: &str) -> Slug {
    Slug(text.to_string())
}

#[test]
fn check_create_defined_slug() {
    let my_url = Url("https://www.example.com/".to_string());
    let my_slug = Slug("my-awesome-slug".to_string());
    let mut shortener = UrlShortenerService::new();

    assert_eq!(
        ShortLink {
            url: my_url.clone(),
            slug: my_slug.clone()
        },
        shortener
            .handle_create_short_link(my_url, Some(my_slug))
            .expect("not implemented")
    );
}

#[test]
fn check_one_redirect_defined_slug() {
    let my_url = Url("https://www.example.com/".to_string());
    let my_slug = Slug("my-awesome-slug".to_string());
    let mut shortener = UrlShortenerService::new();

    shortener
        .handle_create_short_link(my_url.clone(), Some(my_slug.clone()))
        .expect("not implemented");

    assert_eq!(
        ShortLink {
            url: my_url,
            slug: my_slug.clone()
        },
        shortener.handle_redirect(my_slug).expect("not implemented")
    );
}

#[test]
fn check_few_redirects_defined_slug() {
    let my_url = Url("https://www.example.com/".to_string());
    let my_slug = Slug("my-awesome-slug".to_string());
    let mut shortener = UrlShortenerService::new();

    shortener
        .handle_create_short_link(my_url.clone(), Some(my_slug.clone()))
        .expect("not implemented");

    for _ in 0..10 {
        shortener
            .handle_redirect(my_slug.clone())
            .expect("not implemented");
    }

    assert_eq!(
        ShortLink {
            url: my_url,
            slug: my_slug.clone()
        },
        shortener.handle_redirect(my_slug).expect("not implemented")
    );
}

#[test]
fn check_one_redirect_random_slug() {
    let my_url = Url("https://www.example.com/".to_string());
    let mut shortener = UrlShortenerService::new();

    let short_link = shortener
        .handle_create_short_link(my_url.clone(), None)
        .expect("not implemented");
    let slug = short_link.clone().slug;

    assert_eq!(
        short_link,
        shortener.handle_redirect(slug).expect("not implemented")
    );
}

#[test]
fn round_trip_creation_then_slug_in_use() {
    let mut service = UrlShortenerService::new();
    let created = service.handle_create_short_link(url("https://example.com/"), Some(slug("my-slug")));
    assert_eq!(
        created,
        Ok(ShortLink { slug: slug("my-slug"), url: url("https://example.com/") })
    );
    let again = service.handle_create_short_link(url("https://elsewhere.test/a"), Some(slug("my-slug")));
    assert_eq!(again, Err(ShortenerError::SlugAlreadyInUse));
    let same = service.handle_create_short_link(url("https://example.com/"), Some(slug("my-slug")));
    assert_eq!(same, Err(ShortenerError::SlugAlreadyInUse));
    assert_eq!(service.log().len(), 1);
}

#[test]
fn redirect_ten_times_then_stats() {
    let mut service = UrlShortenerService::new();
    service
        .handle_create_short_link(url("https://x.test/"), Some(slug("abc")))
        .unwrap();
    for _ in 0..10 {
        let link = service.handle_redirect(slug("abc")).unwrap();
        assert_eq!(link, ShortLink { slug: slug("abc"), url: url("https://x.test/") });
    }
    let stats = service.get_stats(slug("abc")).unwrap();
    assert_eq!(stats.redirects, 10);
    assert_eq!(
        stats,
        Stats { link: ShortLink { slug: slug("abc"), url: url("https://x.test/") }, redirects: 10 }
    );
}

#[test]
fn unknown_slug_on_fresh_service() {
    let mut service = UrlShortenerService::new();
    assert_eq!(service.handle_redirect(slug("nope")), Err(ShortenerError::SlugNotFound));
    assert_eq!(service.get_stats(slug("nope")), Err(ShortenerError::SlugNotFound));
    assert!(service.log().is_empty());
}

#[test]
fn invalid_url_is_rejected_and_changes_nothing() {
    let mut service = UrlShortenerService::new();
    let rejected = service.handle_create_short_link(url("not a url"), None);
    assert_eq!(rejected, Err(ShortenerError::InvalidUrl));
    assert!(service.log().is_empty());
    assert_eq!(service.get_stats(slug("abc")), Err(ShortenerError::SlugNotFound));
    assert_eq!(service.get_stats(slug("not a url")), Err(ShortenerError::SlugNotFound));

    let with_slug = service.handle_create_short_link(url("not a url"), Some(slug("abc")));
    assert_eq!(with_slug, Err(ShortenerError::InvalidUrl));
    assert_eq!(service.get_stats(slug("abc")), Err(ShortenerError::SlugNotFound));
    assert!(!service.registry().contains(&slug("abc")));
}

#[test]
fn validator_accepts_absolute_and_rejects_relative() {
    let mut service = UrlShortenerService::new();
    assert!(service.handle_create_short_link(url("https://example.com/"), Some(slug("a"))).is_ok());
    assert!(service.handle_create_short_link(url("http://example.com/path?q=1#frag"), Some(slug("b"))).is_ok());
    assert!(service.handle_create_short_link(url("ftp://files.example.org/pub"), Some(slug("c"))).is_ok());
    assert_eq!(
        service.handle_create_short_link(url("/only/a/path"), Some(slug("d"))),
        Err(ShortenerError::InvalidUrl)
    );
    assert_eq!(
        service.handle_create_short_link(url("example.com"), Some(slug("e"))),
        Err(ShortenerError::InvalidUrl)
    );
    assert_eq!(
        service.handle_create_short_link(url(""), Some(slug("f"))),
        Err(ShortenerError::InvalidUrl)
    );
    assert_eq!(
        service.handle_create_short_link(url("https://"), Some(slug("g"))),
        Err(ShortenerError::InvalidUrl)
    );
    assert_eq!(service.log().len(), 3);
}

#[test]
fn invalid_url_is_reported_before_slug_in_use() {
    let mut service = UrlShortenerService::new();
    service.handle_create_short_link(url("https://example.com/"), Some(slug("taken"))).unwrap();
    assert_eq!(
        service.handle_create_short_link(url("not a url"), Some(slug("taken"))),
        Err(ShortenerError::InvalidUrl)
    );
    assert_eq!(
        service.register_link(url("https://example.com/"), slug("taken"), false),
        Err(ShortenerError::InvalidUrl)
    );
    assert_eq!(
        service.register_link(url("https://example.com/"), slug("taken"), true),
        Err(ShortenerError::SlugAlreadyInUse)
    );
}

#[test]
fn register_link_goes_by_the_given_verdict() {
    let mut service = UrlShortenerService::new();
    assert_eq!(
        service.register_link(url("not a url"), slug("x"), true),
        Ok(ShortLink { slug: slug("x"), url: url("not a url") })
    );
    assert_eq!(
        service.register_link(url("https://example.com/"), slug("y"), false),
        Err(ShortenerError::InvalidUrl)
    );
    assert_eq!(service.log().len(), 1);
    assert_eq!(
        service.log().get(0),
        Some(&Event::LinkCreated { slug: slug("x"), url: url("not a url") })
    );
}

#[test]
fn generated_slug_has_seven_alphanumeric_characters() {
    for _ in 0..200 {
        let generated = generate_slug();
        assert_eq!(generated.0.chars().count(), 7);
        assert_eq!(generated.0.len(), SLUG_LENGTH);
        assert!(generated.0.chars().all(|c| c.is_ascii_alphanumeric()));
    }
}

#[test]
fn generated_slugs_vary() {
    let first = generate_slug();
    let mut differs = false;
    for _ in 0..50 {
        if generate_slug() != first {
            differs = true;
        }
    }
    assert!(differs);
}

#[test]
fn creation_without_slug_registers_a_generated_one() {
    let mut service = UrlShortenerService::new();
    let link = service.handle_create_short_link(url("https://example.com/"), None).unwrap();
    assert_eq!(link.url, url("https://example.com/"));
    assert_eq!(link.slug.0.chars().count(), 7);
    assert!(link.slug.0.chars().all(|c| c.is_ascii_alphanumeric()));
    assert_eq!(service.registry().lookup(&link.slug), Some(url("https://example.com/")));
    assert_eq!(
        service.get_stats(link.slug.clone()),
        Ok(Stats { link: link.clone(), redirects: 0 })
    );
    assert_eq!(
        service.handle_create_short_link(url("https://example.com/"), Some(link.slug.clone())),
        Err(ShortenerError::SlugAlreadyInUse)
    );
}

#[test]
fn successful_creations_never_share_a_slug() {
    let mut service = UrlShortenerService::new();
    let mut handed_out: Vec<Slug> = Vec::new();
    let requested = ["a", "b", "a", "c", "b", "a", "d"];
    for name in requested {
        if let Ok(link) = service.handle_create_short_link(url("https://example.com/"), Some(slug(name))) {
            assert!(!handed_out.contains(&link.slug));
            handed_out.push(link.slug);
        }
    }
    for _ in 0..20 {
        if let Ok(link) = service.handle_create_short_link(url("https://example.com/"), None) {
            assert!(!handed_out.contains(&link.slug));
            handed_out.push(link.slug);
        }
    }
    assert_eq!(handed_out[..4].to_vec(), vec![slug("a"), slug("b"), slug("c"), slug("d")]);
    assert_eq!(service.log().len(), handed_out.len());
}

#[test]
fn several_slugs_may_share_one_url() {
    let mut service = UrlShortenerService::new();
    service.handle_create_short_link(url("https://example.com/"), Some(slug("one"))).unwrap();
    service.handle_create_short_link(url("https://example.com/"), Some(slug("two"))).unwrap();
    assert_eq!(service.handle_redirect(slug("one")).unwrap().url, url("https://example.com/"));
    assert_eq!(service.handle_redirect(slug("two")).unwrap().url, url("https://example.com/"));
}

#[test]
fn slugs_are_case_sensitive() {
    let mut service = UrlShortenerService::new();
    service.handle_create_short_link(url("https://lower.test/"), Some(slug("abc"))).unwrap();
    assert_eq!(service.handle_redirect(slug("ABC")), Err(ShortenerError::SlugNotFound));
    service.handle_create_short_link(url("https://upper.test/"), Some(slug("ABC"))).unwrap();
    assert_eq!(service.handle_redirect(slug("ABC")).unwrap().url, url("https://upper.test/"));
    assert_eq!(service.handle_redirect(slug("abc")).unwrap().url, url("https://lower.test/"));
}

#[test]
fn stats_asked_twice_are_identical() {
    let mut service = UrlShortenerService::new();
    service.handle_create_short_link(url("https://x.test/"), Some(slug("abc"))).unwrap();
    service.handle_redirect(slug("abc")).unwrap();
    let first = service.get_stats(slug("abc"));
    let second = service.get_stats(slug("abc"));
    assert_eq!(first, second);
    assert_eq!(first.unwrap().redirects, 1);
    assert_eq!(service.log().len(), 2);
    let missing_first = service.get_stats(slug("nope"));
    let missing_second = service.get_stats(slug("nope"));
    assert_eq!(missing_first, missing_second);
}

#[test]
fn stats_change_only_by_redirect_of_that_slug() {
    let mut service = UrlShortenerService::new();
    service.handle_create_short_link(url("https://x.test/"), Some(slug("abc"))).unwrap();
    service.handle_redirect(slug("abc")).unwrap();
    let before = service.get_stats(slug("abc"));
    service.handle_create_short_link(url("https://y.test/"), Some(slug("other"))).unwrap();
    service.handle_redirect(slug("other")).unwrap();
    let _ = service.handle_redirect(slug("nope"));
    let _ = service.handle_create_short_link(url("https://z.test/"), Some(slug("abc")));
    let _ = service.handle_create_short_link(url("not a url"), Some(slug("fresh")));
    assert_eq!(service.get_stats(slug("abc")), before);
    service.handle_redirect(slug("abc")).unwrap();
    assert_eq!(service.get_stats(slug("abc")).unwrap().redirects, 2);
}

#[test]
fn counter_follows_successful_redirects() {
    let mut service = UrlShortenerService::new();
    service.handle_create_short_link(url("https://x.test/"), Some(slug("abc"))).unwrap();
    service.handle_create_short_link(url("https://y.test/"), Some(slug("xyz"))).unwrap();
    assert_eq!(service.get_stats(slug("abc")).unwrap().redirects, 0);
    let mut last: u64 = 0;
    for round in 1..=25u64 {
        service.handle_redirect(slug("abc")).unwrap();
        if round % 5 == 0 {
            service.handle_redirect(slug("xyz")).unwrap();
        }
        let _ = service.handle_redirect(slug("missing"));
        let now = service.get_stats(slug("abc")).unwrap().redirects;
        assert!(now >= last);
        assert_eq!(now, round);
        last = now;
    }
    assert_eq!(service.get_stats(slug("xyz")).unwrap().redirects, 5);
    assert_eq!(service.counters().get(&slug("missing")), 0);
}

#[test]
fn failed_commands_append_nothing() {
    let mut service = UrlShortenerService::new();
    service.handle_create_short_link(url("https://x.test/"), Some(slug("abc"))).unwrap();
    let before = service.log().entries();
    assert_eq!(service.handle_redirect(slug("nope")), Err(ShortenerError::SlugNotFound));
    assert_eq!(
        service.handle_create_short_link(url("https://x.test/"), Some(slug("abc"))),
        Err(ShortenerError::SlugAlreadyInUse)
    );
    assert_eq!(
        service.handle_create_short_link(url("::"), Some(slug("new"))),
        Err(ShortenerError::InvalidUrl)
    );
    assert_eq!(service.log().entries(), before);
    assert_eq!(service.get_stats(slug("abc")).unwrap().redirects, 0);
}

#[test]
fn log_records_commands_in_order() {
    let mut service = UrlShortenerService::new();
    service.handle_create_short_link(url("https://x.test/"), Some(slug("abc"))).unwrap();
    service.handle_redirect(slug("abc")).unwrap();
    service.handle_create_short_link(url("https://y.test/"), Some(slug("xyz"))).unwrap();
    service.handle_redirect(slug("abc")).unwrap();
    assert_eq!(
        service.log().entries(),
        vec![
            (0, Event::LinkCreated { slug: slug("abc"), url: url("https://x.test/") }),
            (1, Event::RedirectOccurred { slug: slug("abc") }),
            (2, Event::LinkCreated { slug: slug("xyz"), url: url("https://y.test/") }),
            (3, Event::RedirectOccurred { slug: slug("abc") }),
        ]
    );
}

#[test]
fn replay_of_the_log_equals_the_live_projections() {
    let mut service = UrlShortenerService::new();
    let names = ["abc", "xyz", "abc", "q", "nope"];
    for (round, name) in names.iter().enumerate() {
        let _ = service.handle_create_short_link(
            url(&format!("https://host{}.test/", round)),
            Some(slug(name)),
        );
        let _ = service.handle_redirect(slug("abc"));
        let _ = service.handle_redirect(slug(name));
        let _ = service.handle_redirect(slug("never"));
        let _ = service.handle_create_short_link(url("nonsense"), Some(slug("bad")));

        let (registry, counters) = rebuild(service.log());
        for probe in ["abc", "xyz", "q", "nope", "never", "bad"] {
            assert_eq!(registry.lookup(&slug(probe)), service.registry().lookup(&slug(probe)));
            assert_eq!(registry.contains(&slug(probe)), service.registry().contains(&slug(probe)));
            assert_eq!(counters.get(&slug(probe)), service.counters().get(&slug(probe)));
        }
    }
    assert_eq!(service.registry().lookup(&slug("abc")), Some(url("https://host0.test/")));
    assert_eq!(service.counters().get(&slug("abc")), 7);
    assert_eq!(service.counters().get(&slug("xyz")), 1);
    assert_eq!(service.counters().get(&slug("never")), 0);
    assert!(!service.registry().contains(&slug("bad")));
}
