//! Credential material for every platform, and the per-platform "configured"
//! predicates that decide whether a dispatch attempts a platform at all.
//! Loading and saving this record is the surrounding application's business;
//! the core only reads it.

use vstd::prelude::*;

verus! {

/// The secrets and identifiers for all platforms. A missing field leaves the
/// corresponding platform unconfigured.
#[derive(Debug, Clone)]
pub struct Credentials {
    pub twitter_consumer_key: Option<String>,
    pub twitter_consumer_secret: Option<String>,
    pub twitter_access_token: Option<String>,
    pub twitter_access_secret: Option<String>,
    pub bluesky_handle: Option<String>,
    pub bluesky_app_password: Option<String>,
    pub nostr_nsec: Option<String>,
    pub nostr_use_pleb_signer: bool,
    pub nostr_image_host_url: Option<String>,
    pub nostr_relays: Vec<String>,
    pub mastodon_instance_url: Option<String>,
    pub mastodon_access_token: Option<String>,
}

impl Credentials {
    /// The record with nothing configured.
    pub fn empty() -> (r: Credentials)
        ensures
            !r.spec_has_twitter(),
            !r.spec_has_bluesky(),
            !r.spec_has_nostr(),
            !r.spec_has_mastodon(),
            r.nostr_relays@.len() == 0,
    {
        Credentials {
            twitter_consumer_key: None,
            twitter_consumer_secret: None,
            twitter_access_token: None,
            twitter_access_secret: None,
            bluesky_handle: None,
            bluesky_app_password: None,
            nostr_nsec: None,
            nostr_use_pleb_signer: false,
            nostr_image_host_url: None,
            nostr_relays: Vec::new(),
            mastodon_instance_url: None,
            mastodon_access_token: None,
        }
    }

    /// All four X credential fields are present.
    pub open spec fn spec_has_twitter(&self) -> bool {
        &&& self.twitter_consumer_key is Some
        &&& self.twitter_consumer_secret is Some
        &&& self.twitter_access_token is Some
        &&& self.twitter_access_secret is Some
    }

    /// Handle and app password are present.
    pub open spec fn spec_has_bluesky(&self) -> bool {
        self.bluesky_handle is Some && self.bluesky_app_password is Some
    }

    /// Either the remote signer is chosen or a local secret key is present.
    pub open spec fn spec_has_nostr(&self) -> bool {
        self.nostr_use_pleb_signer || self.nostr_nsec is Some
    }

    /// Instance URL and access token are present.
    pub open spec fn spec_has_mastodon(&self) -> bool {
        self.mastodon_instance_url is Some && self.mastodon_access_token is Some
    }

    /// Whether X is configured.
    pub fn has_twitter(&self) -> (r: bool)
        ensures
            r == self.spec_has_twitter(),
    {
        self.twitter_consumer_key.is_some() && self.twitter_consumer_secret.is_some()
            && self.twitter_access_token.is_some() && self.twitter_access_secret.is_some()
    }

    /// Whether BlueSky is configured.
    pub fn has_bluesky(&self) -> (r: bool)
        ensures
            r == self.spec_has_bluesky(),
    {
        self.bluesky_handle.is_some() && self.bluesky_app_password.is_some()
    }

    /// Whether Nostr is configured.
    pub fn has_nostr(&self) -> (r: bool)
        ensures
            r == self.spec_has_nostr(),
    {
        self.nostr_use_pleb_signer || self.nostr_nsec.is_some()
    }

    /// Whether Mastodon is configured.
    pub fn has_mastodon(&self) -> (r: bool)
        ensures
            r == self.spec_has_mastodon(),
    {
        self.mastodon_instance_url.is_some() && self.mastodon_access_token.is_some()
    }
}

} // verus!
