use doh::config::Config;
use doh::credentials::Credentials;
use doh::nostr::NostrAuth;
use doh::platforms::{AttemptEnd, Platform, PostResult};
use doh::post_manager::{DispatchTask, PlatformType, PostManager};

fn empty_credentials() -> Credentials {
    Credentials::empty()
}

fn nostr_only() -> Credentials {
    let mut c = empty_credentials();
    c.nostr_use_pleb_signer = true;
    c
}

#[test]
fn configured_predicates() {
    let mut c = empty_credentials();
    assert!(!c.has_twitter() && !c.has_bluesky() && !c.has_nostr() && !c.has_mastodon());
    c.twitter_consumer_key = Some("a".to_string());
    c.twitter_consumer_secret = Some("b".to_string());
    c.twitter_access_token = Some("c".to_string());
    assert!(!c.has_twitter());
    c.twitter_access_secret = Some("d".to_string());
    assert!(c.has_twitter());
    c.bluesky_handle = Some("h".to_string());
    assert!(!c.has_bluesky());
    c.bluesky_app_password = Some("p".to_string());
    assert!(c.has_bluesky());
    c.nostr_nsec = Some("k".to_string());
    assert!(c.has_nostr());
    c.mastodon_instance_url = Some("u".to_string());
    c.mastodon_access_token = Some("t".to_string());
    assert!(c.has_mastodon());
}

#[test]
fn config_defaults_to_nothing_selected() {
    let c = Config::default();
    assert!(!c.post_to_x && !c.post_to_bluesky && !c.post_to_nostr && !c.post_to_mastodon);
}

#[test]
fn unconfigured_platform_is_skipped_and_order_kept() {
    // X has no credentials; Nostr is configured. The outcome list keeps the
    // callers' order: the skip first, then whatever the Nostr attempt ended
    // with.
    let manager = PostManager::new(nostr_only());
    let names = vec!["X".to_string(), "Nostr".to_string()];
    let plan = manager.plan(&names);
    assert_eq!(plan.len(), 2);
    match &plan[0] {
        DispatchTask::Skip { name, detail } => {
            assert_eq!(name, "X");
            assert_eq!(detail, "Not configured");
        }
        _ => panic!("the unconfigured platform must be skipped"),
    }
    assert!(matches!(plan[1], DispatchTask::Attempt { target: PlatformType::Nostr }));

    let ends = vec![AttemptEnd::Returned(PostResult::Error {
        message: "relay unreachable".to_string(),
    })];
    let outcomes = manager.collect(&plan, &ends);
    assert_eq!(outcomes.len(), 2);
    assert_eq!(outcomes[0].platform_name, "X");
    assert!(!outcomes[0].success);
    assert_eq!(outcomes[0].detail, "Not configured");
    assert_eq!(outcomes[1].platform_name, "Nostr");
    assert!(!outcomes[1].success);
    assert_eq!(outcomes[1].detail, "relay unreachable");
}

#[test]
fn unknown_names_are_dropped() {
    let manager = PostManager::new(nostr_only());
    let names = vec!["Friendica".to_string(), "Nostr".to_string(), "x".to_string()];
    let plan = manager.plan(&names);
    assert_eq!(plan.len(), 1);
    assert!(matches!(plan[0], DispatchTask::Attempt { target: PlatformType::Nostr }));
}

#[test]
fn collect_maps_every_kind_of_end() {
    let mut creds = nostr_only();
    creds.bluesky_handle = Some("h".to_string());
    creds.bluesky_app_password = Some("p".to_string());
    creds.mastodon_instance_url = Some("https://m".to_string());
    creds.mastodon_access_token = Some("t".to_string());
    let manager = PostManager::new(creds);
    let names = vec![
        "BlueSky".to_string(),
        "Nostr".to_string(),
        "Mastodon".to_string(),
        "X".to_string(),
    ];
    let plan = manager.plan(&names);
    let ends = vec![
        AttemptEnd::Returned(PostResult::Success { url: None }),
        AttemptEnd::Returned(PostResult::Success { url: Some("https://njump/x".to_string()) }),
        AttemptEnd::Fault { message: "connection reset".to_string() },
    ];
    let outcomes = manager.collect(&plan, &ends);
    assert_eq!(outcomes.len(), 4);
    assert_eq!(outcomes[0].platform_name, "BlueSky");
    assert!(outcomes[0].success);
    assert_eq!(outcomes[0].detail, "Posted successfully");
    assert_eq!(outcomes[1].platform_name, "Nostr");
    assert!(outcomes[1].success);
    assert_eq!(outcomes[1].detail, "https://njump/x");
    assert_eq!(outcomes[2].platform_name, "Mastodon");
    assert!(!outcomes[2].success);
    assert_eq!(outcomes[2].detail, "Error: connection reset");
    assert_eq!(outcomes[3].platform_name, "X");
    assert!(!outcomes[3].success);
    assert_eq!(outcomes[3].detail, "Not configured");
}

#[test]
fn nostr_platform_uses_default_relays_when_none_configured() {
    let manager = PostManager::new(nostr_only());
    let p = manager.nostr_platform();
    assert!(matches!(p.auth, NostrAuth::PlebSigner));
    assert_eq!(
        p.relays,
        vec![
            "wss://relay.primal.net".to_string(),
            "wss://relay.damus.io".to_string(),
            "wss://relay.pleb.one".to_string(),
        ]
    );
    assert_eq!(p.image_host_url, None);

    let mut creds = nostr_only();
    creds.nostr_use_pleb_signer = false;
    creds.nostr_nsec = Some("sec".to_string());
    creds.nostr_relays = vec!["wss://mine".to_string()];
    creds.nostr_image_host_url = Some("https://b".to_string());
    let manager = PostManager::new(creds);
    let p = manager.nostr_platform();
    match p.auth {
        NostrAuth::Nsec(k) => assert_eq!(k, "sec"),
        _ => panic!("a local key was configured"),
    }
    assert_eq!(p.relays, vec!["wss://mine".to_string()]);
    assert_eq!(p.image_host_url, Some("https://b".to_string()));
}

#[test]
fn adapter_builders_carry_credentials() {
    let mut creds = empty_credentials();
    creds.twitter_consumer_key = Some("ck".to_string());
    creds.twitter_consumer_secret = Some("cs".to_string());
    creds.twitter_access_token = Some("at".to_string());
    creds.twitter_access_secret = Some("as".to_string());
    creds.bluesky_handle = Some("h".to_string());
    creds.bluesky_app_password = Some("p".to_string());
    creds.mastodon_instance_url = Some("https://m/".to_string());
    creds.mastodon_access_token = Some("t".to_string());
    let manager = PostManager::new(creds);

    let t = manager.twitter_platform();
    assert_eq!(t.consumer_key, "ck");
    assert_eq!(t.access_secret, "as");
    assert!(t.is_authenticated());
    assert_eq!(t.name(), "X");

    let b = manager.bluesky_platform();
    assert_eq!(b.handle, "h");
    assert_eq!(b.app_password, "p");
    assert!(b.access_token.is_none());
    assert!(b.is_authenticated());
    assert_eq!(b.name(), "BlueSky");

    let m = manager.mastodon_platform();
    assert_eq!(m.instance_url, "https://m");
    assert_eq!(m.access_token, "t");
}

#[test]
fn nostr_readiness_follows_auth_mode() {
    let remote = doh::nostr::NostrPlatform::new(NostrAuth::PlebSigner, vec![], None);
    assert!(remote.is_authenticated());
    assert_eq!(remote.name(), "Nostr");
    let bad = doh::nostr::NostrPlatform::new(NostrAuth::Nsec("xyz".to_string()), vec![], None);
    assert!(!bad.is_authenticated());
    let good = doh::nostr::NostrPlatform::new(
        NostrAuth::Nsec(
            "0000000000000000000000000000000000000000000000000000000000000001".to_string(),
        ),
        vec![],
        None,
    );
    assert!(good.is_authenticated());
}
