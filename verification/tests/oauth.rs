use doh::twitter::TwitterPlatform;

fn platform() -> TwitterPlatform {
    TwitterPlatform::new(
        "xvz1evFS4wEEPTGEFPHBog".to_string(),
        "kAcSOqF21Fu85e7zjz7ZN2U4ZRhfV3WpwPAoE3Z7kBw".to_string(),
        "370773112-GmHxMAgYyLbNEtIKZeRNFsMKPR9EyMZeS9weJAEb".to_string(),
        "LswwdoUaIvS8ltyTt5jkRh4J50vUPVVHtR2YPi5kE".to_string(),
    )
}

const TS: u64 = 1318622958;
const NONCE: &str = "kYjzVBB8Y0ZFabxSWbWovY3uYSQ2pTgmZeNu2VS4cg";

fn update_params() -> Vec<(String, String)> {
    vec![
        ("include_entities".to_string(), "true".to_string()),
        (
            "status".to_string(),
            "Hello Ladies + Gentlemen, a signed OAuth request!".to_string(),
        ),
    ]
}

#[test]
fn percent_encode_unreserved_kept() {
    assert_eq!(
        TwitterPlatform::percent_encode("AZaz09-._~"),
        "AZaz09-._~"
    );
}

#[test]
fn percent_encode_reserved_escaped() {
    assert_eq!(
        TwitterPlatform::percent_encode("Hello Ladies + Gentlemen!"),
        "Hello%20Ladies%20%2B%20Gentlemen%21"
    );
    assert_eq!(TwitterPlatform::percent_encode("a&b=c"), "a%26b%3Dc");
}

#[test]
fn signature_known_vector() {
    let p = platform();
    let mut all: Vec<(String, String)> = vec![
        ("oauth_consumer_key".to_string(), "xvz1evFS4wEEPTGEFPHBog".to_string()),
        (
            "oauth_token".to_string(),
            "370773112-GmHxMAgYyLbNEtIKZeRNFsMKPR9EyMZeS9weJAEb".to_string(),
        ),
        ("oauth_signature_method".to_string(), "HMAC-SHA1".to_string()),
        ("oauth_timestamp".to_string(), TS.to_string()),
        ("oauth_nonce".to_string(), NONCE.to_string()),
        ("oauth_version".to_string(), "1.0".to_string()),
    ];
    all.extend(update_params());
    let sig = p.generate_signature(
        "post",
        "https://api.twitter.com/1.1/statuses/update.json",
        &all,
    );
    assert_eq!(sig, "hCtSmYh+iHYCEqBWrE7C7hYmtUk=");
}

#[test]
fn signature_ignores_parameter_order() {
    let p = platform();
    let mut a = update_params();
    let sig1 = p.generate_signature("POST", "https://example.com/x", &a);
    a.reverse();
    let sig2 = p.generate_signature("POST", "https://example.com/x", &a);
    assert_eq!(sig1, sig2);
}

#[test]
fn header_known_vector() {
    let p = platform();
    let header = p.generate_oauth_header(
        "post",
        "https://api.twitter.com/1.1/statuses/update.json",
        &update_params(),
        TS,
        NONCE,
    );
    assert_eq!(
        header,
        "OAuth oauth_consumer_key=\"xvz1evFS4wEEPTGEFPHBog\", \
         oauth_nonce=\"kYjzVBB8Y0ZFabxSWbWovY3uYSQ2pTgmZeNu2VS4cg\", \
         oauth_signature=\"hCtSmYh%2BiHYCEqBWrE7C7hYmtUk%3D\", \
         oauth_signature_method=\"HMAC-SHA1\", \
         oauth_timestamp=\"1318622958\", \
         oauth_token=\"370773112-GmHxMAgYyLbNEtIKZeRNFsMKPR9EyMZeS9weJAEb\", \
         oauth_version=\"1.0\""
    );
}

#[test]
fn header_deterministic_on_equal_inputs() {
    let p = platform();
    let params = update_params();
    let h1 = p.generate_oauth_header("POST", "https://api.twitter.com/2/tweets", &params, TS, NONCE);
    let h2 = p.generate_oauth_header("POST", "https://api.twitter.com/2/tweets", &params, TS, NONCE);
    assert_eq!(h1, h2);
}

#[test]
fn header_changes_with_each_input() {
    let p = platform();
    let params = update_params();
    let base = p.generate_oauth_header("POST", "https://api.twitter.com/2/tweets", &params, TS, NONCE);
    let other_method =
        p.generate_oauth_header("GET", "https://api.twitter.com/2/tweets", &params, TS, NONCE);
    let other_url =
        p.generate_oauth_header("POST", "https://api.twitter.com/2/posts", &params, TS, NONCE);
    let other_ts =
        p.generate_oauth_header("POST", "https://api.twitter.com/2/tweets", &params, TS + 1, NONCE);
    let other_nonce =
        p.generate_oauth_header("POST", "https://api.twitter.com/2/tweets", &params, TS, "abc");
    let other_params = p.generate_oauth_header(
        "POST",
        "https://api.twitter.com/2/tweets",
        &vec![("q".to_string(), "1".to_string())],
        TS,
        NONCE,
    );
    assert_ne!(base, other_method);
    assert_ne!(base, other_url);
    assert_ne!(base, other_ts);
    assert_ne!(base, other_nonce);
    assert_ne!(base, other_params);
}

#[test]
fn method_is_uppercased() {
    let p = platform();
    let h1 = p.generate_oauth_header("post", "https://example.com/", &Vec::new(), TS, NONCE);
    let h2 = p.generate_oauth_header("POST", "https://example.com/", &Vec::new(), TS, NONCE);
    assert_eq!(h1, h2);
}
