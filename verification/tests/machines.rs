use doh::bluesky::{BlueSkyPlatform, BskyAction, BskyEvent, BskyPost};
use doh::mastodon::{MastodonAction, MastodonEvent, MastodonPlatform, MastodonPost};
use doh::nostr::{
    blossom_auth_event_json, blossom_upload_request, build_content, public_key_hex,
    secret_key_valid, signer_envelope_result, unsigned_note_json, NostrAction, NostrAuth,
    NostrEvent, NostrPhase, NostrPost,
};
use doh::platforms::{AttemptEnd, Post, PostResult};
use doh::twitter::{TwitterAction, TwitterEvent, TwitterPost};

fn post_with_images(n: usize) -> Post {
    Post {
        text: "hello world".to_string(),
        images: (0..n).map(|i| vec![i as u8; 4]).collect(),
    }
}

// A valid secp256k1 secret key in hex, and the x-only public key it derives.
const SECRET: &str = "0000000000000000000000000000000000000000000000000000000000000001";
const PUBKEY: &str = "79be667ef9dcbbac55a06295ce870b07029bfcdb2dce28d959f2815b16f81798";

#[test]
fn bluesky_uploads_at_most_four_of_five_images() {
    let platform = BlueSkyPlatform {
        handle: "alice.example".to_string(),
        app_password: "pw".to_string(),
        access_token: Some("tok".to_string()),
    };
    let post = post_with_images(5);
    let (mut m, action) = BskyPost::start(&platform, &post, "2024-01-01T00:00:00Z".to_string());
    let mut uploads = 0usize;
    let mut action = action;
    loop {
        match action {
            BskyAction::UploadImage { index, url, authorization } => {
                assert_eq!(index, uploads);
                assert!(index < 4);
                assert_eq!(url, "https://bsky.social/xrpc/com.atproto.repo.uploadBlob");
                assert_eq!(authorization, "Bearer tok");
                uploads += 1;
                action = m.step(BskyEvent::BlobUploaded {
                    blob_type: "blob".to_string(),
                    link: format!("link{}", index),
                    mime_type: "image/png".to_string(),
                    size: 10 + index as u64,
                });
            }
            BskyAction::CreateRecord { url, authorization, body } => {
                assert_eq!(uploads, 4);
                assert_eq!(url, "https://bsky.social/xrpc/com.atproto.repo.createRecord");
                assert_eq!(authorization, "Bearer tok");
                let expected = "{\"repo\":\"alice.example\",\
                    \"collection\":\"app.bsky.feed.post\",\"record\":\
                    {\"text\":\"hello world\",\"createdAt\":\"2024-01-01T00:00:00Z\",\
                    \"$type\":\"app.bsky.feed.post\",\"embed\":\
                    {\"$type\":\"app.bsky.embed.images\",\"images\":[\
                    {\"alt\":\"\",\"image\":{\"$type\":\"blob\",\"ref\":{\"$link\":\"link0\"},\"mimeType\":\"image/png\",\"size\":10}},\
                    {\"alt\":\"\",\"image\":{\"$type\":\"blob\",\"ref\":{\"$link\":\"link1\"},\"mimeType\":\"image/png\",\"size\":11}},\
                    {\"alt\":\"\",\"image\":{\"$type\":\"blob\",\"ref\":{\"$link\":\"link2\"},\"mimeType\":\"image/png\",\"size\":12}},\
                    {\"alt\":\"\",\"image\":{\"$type\":\"blob\",\"ref\":{\"$link\":\"link3\"},\"mimeType\":\"image/png\",\"size\":13}}\
                    ]}}}";
                assert_eq!(body, expected);
                action = m.step(BskyEvent::RecordCreated);
            }
            BskyAction::Finished { end } => {
                assert!(matches!(
                    end,
                    AttemptEnd::Returned(PostResult::Success { url: None })
                ));
                break;
            }
            BskyAction::Login { .. } => panic!("a held token never logs in"),
        }
    }
}

#[test]
fn bluesky_upload_failure_aborts_before_later_images() {
    let platform = BlueSkyPlatform {
        handle: "alice.example".to_string(),
        app_password: "pw".to_string(),
        access_token: Some("tok".to_string()),
    };
    let post = post_with_images(4);
    let (mut m, action) = BskyPost::start(&platform, &post, "now".to_string());
    assert!(matches!(action, BskyAction::UploadImage { index: 0, .. }));
    let a2 = m.step(BskyEvent::BlobUploaded {
        blob_type: "blob".to_string(),
        link: "l0".to_string(),
        mime_type: "image/png".to_string(),
        size: 1,
    });
    assert!(matches!(a2, BskyAction::UploadImage { index: 1, .. }));
    // The second of four fails: the attempt ends here, with that image's
    // error, and images three and four are never asked for.
    let a3 = m.step(BskyEvent::BlobRejected { body: "too big".to_string() });
    match a3 {
        BskyAction::Finished { end } => match end {
            AttemptEnd::Returned(PostResult::Error { message }) => {
                assert_eq!(message, "Failed to upload image: Failed to upload blob: too big");
            }
            other => panic!("unexpected end: {:?}", other),
        },
        _ => panic!("the attempt did not end on the failed upload"),
    }
}

#[test]
fn bluesky_logs_in_first_without_token() {
    let platform = BlueSkyPlatform::new("alice.example".to_string(), "pw".to_string());
    let post = post_with_images(0);
    let (mut m, action) = BskyPost::start(&platform, &post, "now".to_string());
    match action {
        BskyAction::Login { url, body } => {
            assert_eq!(url, "https://bsky.social/xrpc/com.atproto.server.createSession");
            assert_eq!(body, "{\"identifier\":\"alice.example\",\"password\":\"pw\"}");
        }
        _ => panic!("the first action must be the login"),
    }
    let a2 = m.step(BskyEvent::LoginFailed { status: "401 Unauthorized".to_string() });
    match a2 {
        BskyAction::Finished { end } => match end {
            AttemptEnd::Fault { message } => assert_eq!(message, "Login failed: 401 Unauthorized"),
            other => panic!("unexpected end: {:?}", other),
        },
        _ => panic!("a failed login must end the attempt"),
    }
}

#[test]
fn bluesky_process_failure_aborts_with_error() {
    let platform = BlueSkyPlatform {
        handle: "a".to_string(),
        app_password: "p".to_string(),
        access_token: Some("tok".to_string()),
    };
    let post = post_with_images(2);
    let (mut m, _) = BskyPost::start(&platform, &post, "now".to_string());
    let a = m.step(BskyEvent::ProcessFailed { message: "unrecognized image data".to_string() });
    match a {
        BskyAction::Finished { end } => match end {
            AttemptEnd::Returned(PostResult::Error { message }) => {
                assert_eq!(message, "Failed to process image: unrecognized image data");
            }
            other => panic!("unexpected end: {:?}", other),
        },
        _ => panic!("a failed transcode must end the attempt"),
    }
}

#[test]
fn twitter_uploads_then_tweets_with_media_ids() {
    let post = post_with_images(2);
    let (mut m, action) = TwitterPost::start(&post);
    match action {
        TwitterAction::UploadMedia { index, url } => {
            assert_eq!(index, 0);
            assert_eq!(url, "https://upload.twitter.com/1.1/media/upload.json");
        }
        _ => panic!("the first action uploads the first image"),
    }
    let a2 = m.step(TwitterEvent::MediaUploaded { media_id: "111".to_string() });
    assert!(matches!(a2, TwitterAction::UploadMedia { index: 1, .. }));
    let a3 = m.step(TwitterEvent::MediaUploaded { media_id: "222".to_string() });
    match a3 {
        TwitterAction::PostTweet { url, body } => {
            assert_eq!(url, "https://api.twitter.com/2/tweets");
            assert_eq!(
                body,
                "{\"text\":\"hello world\",\"media\":{\"media_ids\":[\"111\",\"222\"]}}"
            );
        }
        _ => panic!("after the last upload the tweet goes out"),
    }
    let a4 = m.step(TwitterEvent::TweetPosted);
    match a4 {
        TwitterAction::Finished { end } => match end {
            AttemptEnd::Returned(PostResult::Success { url }) => {
                assert_eq!(url.unwrap(), "Posted to X");
            }
            other => panic!("unexpected end: {:?}", other),
        },
        _ => panic!("an accepted tweet ends the attempt"),
    }
}

#[test]
fn twitter_zero_images_tweets_without_media() {
    let post = post_with_images(0);
    let (_m, action) = TwitterPost::start(&post);
    match action {
        TwitterAction::PostTweet { body, .. } => {
            assert_eq!(body, "{\"text\":\"hello world\"}");
        }
        _ => panic!("with no images the tweet goes out at once"),
    }
}

#[test]
fn twitter_upload_failure_aborts() {
    let post = post_with_images(3);
    let (mut m, _) = TwitterPost::start(&post);
    let a = m.step(TwitterEvent::MediaRejected { body: "nope".to_string() });
    match a {
        TwitterAction::Finished { end } => match end {
            AttemptEnd::Returned(PostResult::Error { message }) => {
                assert_eq!(message, "Failed to upload image: Failed to upload media: nope");
            }
            other => panic!("unexpected end: {:?}", other),
        },
        _ => panic!("a rejected upload must end the attempt"),
    }
}

#[test]
fn mastodon_zero_images_skips_media_endpoint() {
    let platform = MastodonPlatform::new(
        "https://mastodon.example///".to_string(),
        "token".to_string(),
    );
    assert_eq!(platform.instance_url, "https://mastodon.example");
    let post = post_with_images(0);
    let (mut m, action) = MastodonPost::start(&platform, &post);
    match action {
        MastodonAction::PostStatus { url, authorization, body } => {
            assert_eq!(url, "https://mastodon.example/api/v1/statuses");
            assert_eq!(authorization, "Bearer token");
            // No media were uploaded: the payload carries no media_ids key.
            assert_eq!(body, "{\"status\":\"hello world\"}");
        }
        _ => panic!("a post with no images goes straight to the status endpoint"),
    }
    let a2 = m.step(MastodonEvent::StatusPosted {
        id: "123".to_string(),
        url: None,
    });
    match a2 {
        MastodonAction::Finished { end } => match end {
            AttemptEnd::Returned(PostResult::Success { url }) => {
                assert_eq!(url.unwrap(), "https://mastodon.example/web/statuses/123");
            }
            other => panic!("unexpected end: {:?}", other),
        },
        _ => panic!("an accepted status ends the attempt"),
    }
}

#[test]
fn mastodon_uploads_then_posts_with_media_ids() {
    let platform = MastodonPlatform::new("https://m.example".to_string(), "t".to_string());
    let post = post_with_images(2);
    let (mut m, action) = MastodonPost::start(&platform, &post);
    assert!(matches!(action, MastodonAction::UploadMedia { index: 0, .. }));
    let a2 = m.step(MastodonEvent::MediaUploaded { id: "m1".to_string() });
    assert!(matches!(a2, MastodonAction::UploadMedia { index: 1, .. }));
    let a3 = m.step(MastodonEvent::MediaUploaded { id: "m2".to_string() });
    match a3 {
        MastodonAction::PostStatus { body, .. } => {
            assert_eq!(body, "{\"status\":\"hello world\",\"media_ids\":[\"m1\",\"m2\"]}");
        }
        _ => panic!("after the last upload the status goes out"),
    }
}

#[test]
fn mastodon_upload_failure_aborts() {
    let platform = MastodonPlatform::new("https://m.example".to_string(), "t".to_string());
    let post = post_with_images(3);
    let (mut m, _) = MastodonPost::start(&platform, &post);
    let a = m.step(MastodonEvent::MediaFailed {
        status: "413 Payload Too Large".to_string(),
        body: "too big".to_string(),
    });
    match a {
        MastodonAction::Finished { end } => match end {
            AttemptEnd::Fault { message } => {
                assert_eq!(
                    message,
                    "Failed to upload image: Failed to upload media: 413 Payload Too Large - too big"
                );
            }
            other => panic!("unexpected end: {:?}", other),
        },
        _ => panic!("a failed upload must end the attempt"),
    }
}

#[test]
fn signer_envelope_success_unwraps_double_encoding() {
    let r = signer_envelope_result(true, Some("\"inner text\"".to_string()), None);
    assert_eq!(r, Ok("inner text".to_string()));
}

#[test]
fn signer_envelope_failure_carries_message() {
    let r = signer_envelope_result(false, None, Some("denied".to_string()));
    assert_eq!(r, Err("Pleb_Signer error: denied".to_string()));
    let r = signer_envelope_result(false, None, None);
    assert_eq!(r, Err("Pleb_Signer error: Unknown error".to_string()));
    let r = signer_envelope_result(true, None, None);
    assert_eq!(r, Err("No result in response".to_string()));
    let r = signer_envelope_result(true, Some("not json".to_string()), None);
    assert_eq!(r, Err("signer result is not a JSON string".to_string()));
}

fn remote_platform() -> doh::nostr::NostrPlatform {
    doh::nostr::NostrPlatform::new(
        NostrAuth::PlebSigner,
        vec!["wss://relay.example".to_string()],
        None,
    )
}

#[test]
fn nostr_remote_signing_success_broadcasts_signed_event() {
    let post = post_with_images(0);
    let (mut m, action) = NostrPost::start(&remote_platform(), &post, 1700000000);
    assert!(matches!(action, NostrAction::RequestPublicKey));
    let a2 = m.step(NostrEvent::PubkeyResponse {
        success: true,
        result: Some(format!("\"{}\"", PUBKEY)),
        error: None,
    });
    match a2 {
        NostrAction::RequestSignature { event_json, app_id } => {
            assert_eq!(app_id, "com.sgtapple.doh");
            assert_eq!(
                event_json,
                "{\"content\":\"hello world\",\"created_at\":1700000000,\"kind\":1,\"tags\":[]}"
            );
        }
        _ => panic!("with no images the signature request follows the pubkey"),
    }
    // The signer returns a double-encoded signed event.
    let signed = "{\"id\":\"ab\",\"sig\":\"cd\"}";
    let envelope_result = format!("\"{}\"", signed.replace('"', "\\\""));
    let a3 = m.step(NostrEvent::SignResponse {
        success: true,
        result: Some(envelope_result),
        error: None,
    });
    match a3 {
        NostrAction::BroadcastSigned { event_json, relays } => {
            assert_eq!(event_json, signed);
            assert_eq!(relays, vec!["wss://relay.example".to_string()]);
        }
        _ => panic!("a signed event goes out to the relays"),
    }
    let a4 = m.step(NostrEvent::NoteSent);
    match a4 {
        NostrAction::Finished { end } => {
            assert!(matches!(end, AttemptEnd::Returned(PostResult::Success { url: None })));
        }
        _ => panic!("a sent note ends the attempt"),
    }
}

#[test]
fn nostr_remote_signing_denial_yields_error() {
    let post = post_with_images(0);
    let (mut m, _) = NostrPost::start(&remote_platform(), &post, 1700000000);
    let _ = m.step(NostrEvent::PubkeyResponse {
        success: true,
        result: Some(format!("\"{}\"", PUBKEY)),
        error: None,
    });
    let a = m.step(NostrEvent::SignResponse {
        success: false,
        result: None,
        error: Some("denied".to_string()),
    });
    match a {
        NostrAction::Finished { end } => match end {
            AttemptEnd::Returned(PostResult::Error { message }) => {
                assert_eq!(message, "Failed to sign event: Pleb_Signer error: denied");
                assert!(message.contains("denied"));
            }
            other => panic!("unexpected end: {:?}", other),
        },
        _ => panic!("a denied signature must end the attempt"),
    }
}

#[test]
fn nostr_local_key_validation() {
    assert!(secret_key_valid(SECRET));
    assert!(!secret_key_valid("not a key"));
    assert_eq!(public_key_hex(SECRET).unwrap(), PUBKEY);
    assert_eq!(public_key_hex("nope"), None);

    let platform = doh::nostr::NostrPlatform::new(
        NostrAuth::Nsec(String::new()),
        vec!["wss://r.example".to_string()],
        None,
    );
    let (m, action) = NostrPost::start(&platform, &post_with_images(0), 1);
    assert_eq!(m.phase, NostrPhase::Done);
    match action {
        NostrAction::Finished { end } => match end {
            AttemptEnd::Returned(PostResult::Error { message }) => {
                assert_eq!(message, "Failed to load keys: nsec key is empty");
            }
            other => panic!("unexpected end: {:?}", other),
        },
        _ => panic!("an empty key ends the attempt at once"),
    }
}

#[test]
fn nostr_local_flow_appends_uploaded_urls() {
    let platform = doh::nostr::NostrPlatform::new(
        NostrAuth::Nsec(SECRET.to_string()),
        vec!["wss://r.example".to_string()],
        Some("https://blossom.example".to_string()),
    );
    let post = post_with_images(2);
    let (mut m, action) = NostrPost::start(&platform, &post, 5);
    match action {
        NostrAction::Connect { relays } => {
            assert_eq!(relays, vec!["wss://r.example".to_string()]);
        }
        _ => panic!("a usable key connects first"),
    }
    let a2 = m.step(NostrEvent::Connected);
    assert!(matches!(a2, NostrAction::UploadImage { index: 0 }));
    let a3 = m.step(NostrEvent::BlossomUploaded { url: "https://b/x1".to_string() });
    assert!(matches!(a3, NostrAction::UploadImage { index: 1 }));
    // The second image fails: it is skipped, not fatal.
    let a4 = m.step(NostrEvent::BlossomSkipped);
    match a4 {
        NostrAction::BroadcastNote { content } => {
            assert_eq!(content, "hello world\nhttps://b/x1");
        }
        _ => panic!("after the images the note goes out"),
    }
    let a5 = m.step(NostrEvent::NoteFailed { message: "no relay".to_string() });
    match a5 {
        NostrAction::Finished { end } => match end {
            AttemptEnd::Returned(PostResult::Error { message }) => {
                assert_eq!(message, "Failed to send event: no relay");
            }
            other => panic!("unexpected end: {:?}", other),
        },
        _ => panic!("a failed broadcast ends the attempt"),
    }
}

#[test]
fn content_and_note_builders() {
    assert_eq!(build_content("t", &vec![]), "t");
    assert_eq!(
        build_content("t", &vec!["u1".to_string(), "u2".to_string()]),
        "t\nu1\nu2"
    );
    assert_eq!(
        unsigned_note_json("say \"hi\"", 42),
        "{\"content\":\"say \\\"hi\\\"\",\"created_at\":42,\"kind\":1,\"tags\":[]}"
    );
}

#[test]
fn blossom_auth_event_shape() {
    let json = blossom_auth_event_json("pk", "beef", 100, 700);
    assert_eq!(
        json,
        "{\"pubkey\":\"pk\",\"created_at\":100,\"kind\":24242,\
         \"tags\":[[\"t\",\"upload\"],[\"x\",\"beef\"],[\"expiration\",\"700\"]],\
         \"content\":\"\"}"
    );
}

#[test]
fn blossom_upload_request_signs_a_valid_event() {
    let req = blossom_upload_request(b"image bytes", "https://blossom.example/", SECRET, 1700000000)
        .unwrap();
    assert_eq!(req.url, "https://blossom.example/upload");
    let token = req.authorization.strip_prefix("Nostr ").unwrap();
    let decoded = base64::Engine::decode(&base64::engine::general_purpose::STANDARD, token).unwrap();
    // The authorization carries exactly the signed event the request holds.
    assert_eq!(decoded, req.signed_event.as_bytes());
    let event = nostr_sdk::prelude::Event::from_json(&decoded).unwrap();
    event.verify().unwrap();
    assert_eq!(event.pubkey.to_hex(), PUBKEY);
    assert_eq!(event.kind.as_u16(), 24242);
    assert_eq!(event.content, "");
    let json: serde_json::Value = serde_json::from_slice(&decoded).unwrap();
    let tags = json.get("tags").unwrap().as_array().unwrap();
    assert_eq!(tags[0].as_array().unwrap()[1].as_str().unwrap(), "upload");
    // The x tag carries the SHA-256 of the processed bytes.
    let expected_hash = doh::strutil::hex_lower(&doh::codec::sha256(b"image bytes"));
    assert_eq!(tags[1].as_array().unwrap()[1].as_str().unwrap(), expected_hash);
    assert_eq!(tags[2].as_array().unwrap()[1].as_str().unwrap(), "1700000600");
}

#[test]
fn blossom_upload_request_needs_a_usable_key() {
    assert!(blossom_upload_request(b"x", "https://b", "bad key", 0).is_none());
}
