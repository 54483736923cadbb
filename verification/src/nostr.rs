//! The Nostr adapter: dual authentication (a local secret key, or an
//! external signer process reached over IPC), optional image uploads to a
//! Blossom host authorized by a signed upload event, and one kind-1 text
//! note carrying the uploaded URLs as extra lines. Image upload failures are
//! best-effort: the failed image's URL is simply left out. The external
//! signer answers with an envelope whose `result` is itself JSON-encoded and
//! is unwrapped with a second decode.

use vstd::prelude::*;
use vstd::string::*;
use crate::codec::{base64_chars, base64_encode, sha256};
use crate::jsonx::{json_quoted, json_unquoted, json_unquote, push_json_string};
use crate::strutil::trim_trailing_slashes;
use crate::platforms::{AttemptEnd, Platform, Post, PostResult};
use crate::strutil::{dec_chars, hex_lower, push_char, strs_view, u64_to_dec};

verus! {

broadcast use vstd::string::group_string_axioms;

/// Whether the nostr crate accepts the string as a secret key, by name.
pub uninterp spec fn nsec_valid(s: Seq<char>) -> bool;

/// The lower-case hex public key derived from a secret key string, by name.
pub uninterp spec fn pubkey_hex_of(s: Seq<char>) -> Seq<char>;

/// Relies on nostr's Keys::parse: acceptance is a function of the string
/// alone.
#[verifier::external_body]
pub fn secret_key_valid(s: &str) -> (r: bool)
    ensures
        r == nsec_valid(s@),
{
    nostr_sdk::prelude::Keys::parse(s).is_ok()
}

/// Relies on nostr's Keys::parse and PublicKey::to_hex: the public key is a
/// function of the secret key string alone, and parsing succeeds on exactly
/// the accepted strings.
#[verifier::external_body]
pub fn public_key_hex(s: &str) -> (r: Option<String>)
    ensures
        r is Some <==> nsec_valid(s@),
        r matches Some(pk) ==> pk@ == pubkey_hex_of(s@),
{
    let keys = nostr_sdk::prelude::Keys::parse(s).ok()?;
    Some(keys.public_key().to_hex())
}

/// Relies on nostr's UnsignedEvent::from_json, Keys::parse and
/// SignEvent::sign_event: parses the unsigned event, signs it with the
/// parsed key, and serializes the signed event. Schnorr signing draws
/// randomness, so nothing is promised of the signed value; success at least
/// needs the key to parse, the first of the three calls.
#[verifier::external_body]
fn sign_unsigned_event_json(unsigned_json: &str, secret: &str) -> (r: Option<String>)
    ensures
        r is Some ==> nsec_valid(secret@),
{
    let keys = nostr_sdk::prelude::Keys::parse(secret).ok()?;
    let unsigned = nostr_sdk::prelude::UnsignedEvent::from_json(unsigned_json.as_bytes()).ok()?;
    let event = nostr_sdk::prelude::SignEvent::sign_event(&keys, unsigned).ok()?;
    Some(event.as_json())
}

/// The caller identifier handed to the external signer.
pub open spec fn app_id_spec() -> Seq<char> {
    ("com.sgtapple.doh")@
}

/// The text note's content: the text, with each uploaded URL appended as its
/// own line.
pub open spec fn content_with_urls(text: Seq<char>, urls: Seq<Seq<char>>) -> Seq<char>
    decreases urls.len(),
{
    if urls.len() == 0 {
        text
    } else {
        content_with_urls(text, urls.drop_last()) + seq!['\n'] + urls.last()
    }
}

/// Appends each URL as its own line.
pub fn build_content(text: &str, urls: &Vec<String>) -> (r: String)
    ensures
        r@ == content_with_urls(text@, strs_view(urls@)),
{
    let mut out = <String as StringExecFns>::from_str(text);
    let mut i: usize = 0;
    proof {
        assert(out@ =~= content_with_urls(text@, strs_view(urls@).take(0)));
    }
    while i < urls.len()
        invariant
            i <= urls@.len(),
            out@ == content_with_urls(text@, strs_view(urls@).take(i as int)),
        decreases urls@.len() - i,
    {
        push_char(&mut out, '\n');
        out.append(urls[i].as_str());
        proof {
            assert(strs_view(urls@).take(i + 1).drop_last() =~= strs_view(urls@).take(i as int));
            assert(strs_view(urls@).take(i + 1).last() == urls@[i as int]@);
            assert(out@ =~= content_with_urls(text@, strs_view(urls@).take(i + 1)));
        }
        i = i + 1;
    }
    proof {
        assert(strs_view(urls@).take(urls@.len() as int) =~= strs_view(urls@));
    }
    out
}

/// The unsigned kind-1 note handed to the external signer, keys in
/// alphabetical order.
pub open spec fn unsigned_note_json_spec(content: Seq<char>, created_at: u64) -> Seq<char> {
    ("{\"content\":")@ + json_quoted(content) + (",\"created_at\":")@ + dec_chars(
        created_at as int,
    ) + (",\"kind\":1,\"tags\":[]}")@
}

/// The unsigned kind-1 note as JSON.
pub fn unsigned_note_json(content: &str, created_at: u64) -> (r: String)
    ensures
        r@ == unsigned_note_json_spec(content@, created_at),
{
    let mut out = <String as StringExecFns>::from_str("{\"content\":");
    push_json_string(&mut out, content);
    out.append(",\"created_at\":");
    let d = u64_to_dec(created_at);
    out.append(d.as_str());
    out.append(",\"kind\":1,\"tags\":[]}");
    proof {
        assert(out@ =~= unsigned_note_json_spec(content@, created_at));
    }
    out
}

/// The transcode configuration every Blossom image goes through: metadata
/// stripped, never size-compressed.
pub fn nostr_image_processor() -> (r: crate::image_utils::ImageProcessor)
    ensures
        r.max_size is None,
        r.max_dimension is None,
        r.strip_exif,
{
    crate::image_utils::ImageProcessor::new().with_exif_stripping()
}

/// How long an upload authorization stays valid, in seconds.
pub const UPLOAD_AUTH_WINDOW: u64 = 600;

/// The unsigned upload authorization event: the signer's public key, the
/// creation time, the reserved kind, the tags declaring the operation, the
/// content hash and the expiration, and an empty content.
pub open spec fn blossom_auth_json_spec(
    pubkey_hex: Seq<char>,
    hash_hex: Seq<char>,
    created_at: u64,
    expiration: u64,
) -> Seq<char> {
    ("{\"pubkey\":")@ + json_quoted(pubkey_hex) + (",\"created_at\":")@ + dec_chars(
        created_at as int,
    ) + (",\"kind\":24242,\"tags\":[[\"t\",\"upload\"],[\"x\",")@ + json_quoted(hash_hex) + (
    "],[\"expiration\",")@ + json_quoted(dec_chars(expiration as int)) + (
    "]],\"content\":\"\"}")@
}

/// The unsigned upload authorization event as JSON.
pub fn blossom_auth_event_json(pubkey_hex: &str, hash_hex: &str, created_at: u64, expiration: u64)
    -> (r: String)
    ensures
        r@ == blossom_auth_json_spec(pubkey_hex@, hash_hex@, created_at, expiration),
{
    let mut out = <String as StringExecFns>::from_str("{\"pubkey\":");
    push_json_string(&mut out, pubkey_hex);
    out.append(",\"created_at\":");
    let d = u64_to_dec(created_at);
    out.append(d.as_str());
    out.append(",\"kind\":24242,\"tags\":[[\"t\",\"upload\"],[\"x\",");
    push_json_string(&mut out, hash_hex);
    out.append("],[\"expiration\",");
    let e = u64_to_dec(expiration);
    push_json_string(&mut out, e.as_str());
    out.append("]],\"content\":\"\"}");
    proof {
        assert(out@ =~= blossom_auth_json_spec(pubkey_hex@, hash_hex@, created_at, expiration));
    }
    out
}

/// The upload endpoint under a Blossom host.
pub open spec fn blossom_upload_url_spec(host: Seq<char>) -> Seq<char> {
    trim_trailing_slashes(host) + ("/upload")@
}

/// One ready-to-send Blossom upload: the endpoint, the signed authorization
/// event, and the `Authorization` value carrying that event base64-encoded.
pub struct BlossomRequest {
    pub url: String,
    pub signed_event: String,
    pub authorization: String,
}

/// Builds the upload request for one processed image: hash the bytes, build
/// the authorization event over the hash with a ten-minute window (the exact
/// bytes handed to the signer are `blossom_auth_json_spec` over
/// `sha256_of(processed)`), sign it with the given secret key, and carry the
/// signed event base64-encoded in a `Nostr` authorization value. `None`
/// where the secret key is not accepted or signing failed.
pub fn blossom_upload_request(processed: &[u8], host: &str, signer_secret: &str, now: u64) -> (r:
    Option<BlossomRequest>)
    requires
        now + UPLOAD_AUTH_WINDOW <= u64::MAX,
    ensures
        !nsec_valid(signer_secret@) ==> r is None,
        r matches Some(req) ==> {
            &&& req.url@ == blossom_upload_url_spec(host@)
            &&& req.authorization@ == ("Nostr ")@ + base64_chars(
                vstd::utf8::encode_utf8(req.signed_event@),
            )
        },
{
    let digest = sha256(processed);
    let hash_hex = hex_lower(digest.as_slice());
    let pubkey = match public_key_hex(signer_secret) {
        Some(pk) => pk,
        None => {
            return None;
        },
    };
    let unsigned = blossom_auth_event_json(
        pubkey.as_str(),
        hash_hex.as_str(),
        now,
        now + UPLOAD_AUTH_WINDOW,
    );
    let signed = match sign_unsigned_event_json(unsigned.as_str(), signer_secret) {
        Some(s) => s,
        None => {
            return None;
        },
    };
    let b64 = base64_encode(signed.as_str().as_bytes());
    let mut authorization = <String as StringExecFns>::from_str("Nostr ");
    authorization.append(b64.as_str());
    let mut url = crate::strutil::trim_slashes(host);
    url.append("/upload");
    proof {
        assert(authorization@ == ("Nostr ")@ + base64_chars(vstd::utf8::encode_utf8(signed@)));
    }
    Some(BlossomRequest { url, signed_event: signed, authorization })
}

/// What `signer_envelope_result` gives back, at the specification level: the
/// unwrapped double-encoded result, or the message of the failure.
pub open spec fn envelope_outcome(
    success: bool,
    result: Option<String>,
    error: Option<String>,
) -> Result<Seq<char>, Seq<char>> {
    if !success {
        Err(
            ("Pleb_Signer error: ")@ + (match error {
                Some(e) => e@,
                None => ("Unknown error")@,
            }),
        )
    } else {
        match result {
            None => Err(("No result in response")@),
            Some(enc) => match json_unquoted(enc@) {
                Some(t) => Ok(t),
                None => Err(("signer result is not a JSON string")@),
            },
        }
    }
}

/// The external signer's answer, interpreted: the double-encoded result
/// unwrapped on success, and the carried or fallback error message on
/// failure.
pub fn signer_envelope_result(success: bool, result: Option<String>, error: Option<String>) -> (r:
    Result<String, String>)
    ensures
        match r {
            Ok(out) => envelope_outcome(success, result, error) == Ok::<Seq<char>, Seq<char>>(
                out@,
            ),
            Err(m) => envelope_outcome(success, result, error) == Err::<Seq<char>, Seq<char>>(m@),
        },
{
    if !success {
        let mut m = <String as StringExecFns>::from_str("Pleb_Signer error: ");
        match error {
            Some(e) => m.append(e.as_str()),
            None => m.append("Unknown error"),
        }
        return Err(m);
    }
    match result {
        None => Err(<String as StringExecFns>::from_str("No result in response")),
        Some(enc) => match json_unquote(enc.as_str()) {
            Some(out) => Ok(out),
            None => Err(<String as StringExecFns>::from_str("signer result is not a JSON string")),
        },
    }
}

/// How the adapter authenticates: a local secret key, or the external signer
/// process.
pub enum NostrAuth {
    /// A secret key string held locally.
    Nsec(String),
    /// Delegate signing to the external signer over IPC.
    PlebSigner,
}

/// The Nostr adapter: the authentication mode, the relays to publish to, and
/// the optional Blossom image host.
pub struct NostrPlatform {
    pub auth: NostrAuth,
    pub relays: Vec<String>,
    pub image_host_url: Option<String>,
}

impl NostrPlatform {
    /// An adapter over an authentication mode, relay list and optional image
    /// host.
    pub fn new(auth: NostrAuth, relays: Vec<String>, image_host_url: Option<String>) -> (r:
        NostrPlatform)
        ensures
            r.auth == auth,
            r.relays == relays,
            r.image_host_url == image_host_url,
    {
        NostrPlatform { auth, relays, image_host_url }
    }
}

impl Platform for NostrPlatform {
    open spec fn spec_name(&self) -> Seq<char> {
        ("Nostr")@
    }

    /// Readiness of the credential material alone: under the external signer
    /// the reachability probe is the caller's, as the trait lays down.
    open spec fn spec_ready(&self) -> bool {
        match self.auth {
            NostrAuth::Nsec(k) => k@.len() > 0 && nsec_valid(k@),
            NostrAuth::PlebSigner => true,
        }
    }

    fn name(&self) -> (r: String) {
        <String as StringExecFns>::from_str("Nostr")
    }

    fn is_authenticated(&self) -> (r: bool) {
        match &self.auth {
            NostrAuth::Nsec(k) => !k.as_str().is_empty() && secret_key_valid(k.as_str()),
            NostrAuth::PlebSigner => true,
        }
    }
}

/// Where one Nostr post attempt stands.
#[derive(PartialEq, Eq, Structural, Clone, Copy, Debug)]
pub enum NostrPhase {
    /// Waiting for the external signer's public key.
    AwaitPubkey,
    /// Waiting for the relay connections to settle.
    AwaitConnect,
    /// Uploading images to the Blossom host.
    Uploading,
    /// Waiting for the external signer's signature over the note.
    AwaitSignature,
    /// Waiting for the broadcast's outcome.
    AwaitBroadcast,
    /// The attempt is over.
    Done,
}

/// What the driver is asked to do next for a Nostr post.
pub enum NostrAction {
    /// Ask the external signer for its public key over IPC.
    RequestPublicKey,
    /// Build a relay client, register the relays, connect, and let the
    /// connections settle.
    Connect { relays: Vec<String> },
    /// Strip the image at `index` of metadata, build its Blossom request
    /// with the active upload identity, and PUT the bytes. A failure is
    /// reported and the image skipped.
    UploadImage { index: usize },
    /// Hand the unsigned note to the external signer over IPC, under this
    /// caller identifier.
    RequestSignature { event_json: String, app_id: String },
    /// Broadcast the note, signing locally.
    BroadcastNote { content: String },
    /// Parse the signed event, connect to the relays, and broadcast it.
    BroadcastSigned { event_json: String, relays: Vec<String> },
    /// The attempt is over.
    Finished { end: AttemptEnd },
}

/// What the driver reports back.
pub enum NostrEvent {
    /// The external signer answered the public key request with this
    /// envelope.
    PubkeyResponse { success: bool, result: Option<String>, error: Option<String> },
    /// The relay connections settled.
    Connected,
    /// The Blossom host stored the image at this URL.
    BlossomUploaded { url: String },
    /// The image could not be processed or stored; it is skipped.
    BlossomSkipped,
    /// The external signer answered the signature request with this
    /// envelope.
    SignResponse { success: bool, result: Option<String>, error: Option<String> },
    /// The signed event could not be parsed.
    SignedParseFailed { message: String },
    /// The broadcast went through.
    NoteSent,
    /// The broadcast failed.
    NoteFailed { message: String },
}

/// One Nostr post attempt, either mode: resolve the identity, upload what
/// images a configured host takes, then sign and broadcast one note.
pub struct NostrPost {
    pub local: bool,
    pub text: String,
    pub n_images: usize,
    pub relays: Vec<String>,
    pub created_at: u64,
    pub phase: NostrPhase,
    pub idx: usize,
    pub urls: Vec<String>,
}

impl NostrPost {
    /// The machine's bookkeeping is consistent, and its phase agrees with
    /// its mode: only the remote mode waits on the signer, only the local
    /// mode waits on an early connect.
    pub open spec fn wf(&self) -> bool {
        &&& self.idx <= self.n_images
        &&& self.urls@.len() <= self.idx
        &&& (self.phase == NostrPhase::AwaitPubkey ==> !self.local)
        &&& (self.phase == NostrPhase::AwaitConnect ==> self.local)
        &&& (self.phase == NostrPhase::AwaitSignature ==> !self.local)
    }

    /// The action that follows once every image is handled: sign locally and
    /// broadcast, or ask the external signer for a signature.
    pub open spec fn finish_uploads_post(&self, r: NostrAction) -> bool {
        if self.local {
            r matches NostrAction::BroadcastNote { content } && content@ == content_with_urls(
                self.text@,
                strs_view(self.urls@),
            )
        } else {
            r matches NostrAction::RequestSignature { event_json, app_id } && event_json@
                == unsigned_note_json_spec(
                content_with_urls(self.text@, strs_view(self.urls@)),
                self.created_at,
            ) && app_id@ == app_id_spec()
        }
    }

    fn advance_uploads(&self) -> (r: NostrAction)
        requires
            self.wf(),
        ensures
            self.idx < self.n_images ==> (r matches NostrAction::UploadImage { index } && index
                == self.idx),
            self.idx == self.n_images ==> self.finish_uploads_post(r),
    {
        if self.idx < self.n_images {
            NostrAction::UploadImage { index: self.idx }
        } else {
            let content = build_content(self.text.as_str(), &self.urls);
            if self.local {
                NostrAction::BroadcastNote { content }
            } else {
                NostrAction::RequestSignature {
                    event_json: unsigned_note_json(content.as_str(), self.created_at),
                    app_id: <String as StringExecFns>::from_str("com.sgtapple.doh"),
                }
            }
        }
    }

    /// Begins one attempt. A local key that is empty or not accepted ends it
    /// at once; a usable local key connects to the relays first; the
    /// external signer is asked for its public key first. Images count only
    /// where an image host is configured at all.
    pub fn start(platform: &NostrPlatform, post: &Post, created_at: u64) -> (r: (
        NostrPost,
        NostrAction,
    ))
        ensures
            r.0.wf(),
            r.0.text == post.text,
            r.0.relays@ == platform.relays@,
            r.0.created_at == created_at,
            r.0.local == (platform.auth is Nsec),
            r.0.idx == 0,
            r.0.n_images == (if platform.image_host_url is Some {
                post.images@.len()
            } else {
                0
            }),
            platform.auth matches NostrAuth::Nsec(k) ==> {
                &&& (k@.len() == 0 ==> r.0.phase == NostrPhase::Done && (r.1
                    matches NostrAction::Finished { end } && end matches AttemptEnd::Returned(
                    PostResult::Error { message },
                ) && message@ == ("Failed to load keys: nsec key is empty")@))
                &&& (k@.len() > 0 && !nsec_valid(k@) ==> r.0.phase == NostrPhase::Done && (r.1
                    matches NostrAction::Finished { end } && end matches AttemptEnd::Returned(
                    PostResult::Error { message },
                ) && message@ == (
                "Failed to load keys: Invalid nsec key. Must start with 'nsec1'")@))
                &&& (k@.len() > 0 && nsec_valid(k@) ==> r.0.phase == NostrPhase::AwaitConnect && (
                r.1 matches NostrAction::Connect { relays } && relays@ == platform.relays@))
            },
            platform.auth is PlebSigner ==> r.0.phase == NostrPhase::AwaitPubkey && r.1
                is RequestPublicKey,
    {
        let local = match &platform.auth {
            NostrAuth::Nsec(_) => true,
            NostrAuth::PlebSigner => false,
        };
        let n_images = if platform.image_host_url.is_some() {
            post.images.len()
        } else {
            0
        };
        let mut state = NostrPost {
            local,
            text: post.text.clone(),
            n_images,
            relays: crate::strutil::clone_string_vec(&platform.relays),
            created_at,
            phase: NostrPhase::AwaitConnect,
            idx: 0,
            urls: Vec::new(),
        };
        match &platform.auth {
            NostrAuth::Nsec(k) => {
                if k.as_str().is_empty() {
                    state.phase = NostrPhase::Done;
                    let action = NostrAction::Finished {
                        end: AttemptEnd::Returned(
                            PostResult::Error {
                                message: <String as StringExecFns>::from_str(
                                    "Failed to load keys: nsec key is empty",
                                ),
                            },
                        ),
                    };
                    (state, action)
                } else if !secret_key_valid(k.as_str()) {
                    state.phase = NostrPhase::Done;
                    let action = NostrAction::Finished {
                        end: AttemptEnd::Returned(
                            PostResult::Error {
                                message: <String as StringExecFns>::from_str(
                                    "Failed to load keys: Invalid nsec key. Must start with 'nsec1'",
                                ),
                            },
                        ),
                    };
                    (state, action)
                } else {
                    let action = NostrAction::Connect { relays: crate::strutil::clone_string_vec(&state.relays) };
                    (state, action)
                }
            },
            NostrAuth::PlebSigner => {
                state.phase = NostrPhase::AwaitPubkey;
                (state, NostrAction::RequestPublicKey)
            },
        }
    }

    /// Advances the attempt by one reported event. Signer refusals and
    /// broadcast failures end it as that platform error; a skipped image
    /// only moves to the next one.
    pub fn step(&mut self, event: NostrEvent) -> (r: NostrAction)
        requires
            old(self).wf(),
            old(self).phase != NostrPhase::Done,
            event is PubkeyResponse ==> old(self).phase == NostrPhase::AwaitPubkey,
            event is Connected ==> old(self).phase == NostrPhase::AwaitConnect,
            (event is BlossomUploaded || event is BlossomSkipped) ==> old(self).phase
                == NostrPhase::Uploading && old(self).idx < old(self).n_images,
            event is SignResponse ==> old(self).phase == NostrPhase::AwaitSignature,
            (event is NoteSent || event is NoteFailed || event is SignedParseFailed) ==> old(self).phase == NostrPhase::AwaitBroadcast,
        ensures
            final(self).wf(),
            final(self).local == old(self).local,
            final(self).text == old(self).text,
            final(self).n_images == old(self).n_images,
            final(self).relays == old(self).relays,
            final(self).created_at == old(self).created_at,
            r matches NostrAction::UploadImage { index } ==> index < old(self).n_images
                && final(self).phase == NostrPhase::Uploading,
            event matches NostrEvent::PubkeyResponse { success, result, error } ==> ({
                let outcome = envelope_outcome(success, result, error);
                match outcome {
                    Err(m) => final(self).phase == NostrPhase::Done && (r
                        matches NostrAction::Finished { end } && end
                        matches AttemptEnd::Returned(PostResult::Error { message }) && message@
                        == ("Failed to get pubkey: ")@ + m),
                    Ok(_) => {
                        &&& final(self).idx == old(self).idx
                        &&& final(self).urls == old(self).urls
                        &&& final(self).phase == (if old(self).n_images > 0 {
                            NostrPhase::Uploading
                        } else {
                            NostrPhase::AwaitSignature
                        })
                        &&& (old(self).n_images > 0 ==> (r matches NostrAction::UploadImage {
                            index,
                        } && index == 0))
                        &&& (old(self).n_images == 0 ==> final(self).finish_uploads_post(r))
                    },
                }
            }),
            event is Connected ==> {
                &&& final(self).idx == old(self).idx
                &&& final(self).urls == old(self).urls
                &&& final(self).phase == (if old(self).n_images > 0 {
                    NostrPhase::Uploading
                } else {
                    NostrPhase::AwaitBroadcast
                })
                &&& (old(self).n_images > 0 ==> (r matches NostrAction::UploadImage { index }
                    && index == 0))
                &&& (old(self).n_images == 0 ==> final(self).finish_uploads_post(r))
            },
            event matches NostrEvent::BlossomUploaded { url } ==> {
                &&& final(self).idx == old(self).idx + 1
                &&& strs_view(final(self).urls@) == strs_view(old(self).urls@).push(url@)
                &&& (old(self).idx + 1 < old(self).n_images ==> final(self).phase
                    == NostrPhase::Uploading && (r matches NostrAction::UploadImage { index }
                    && index == old(self).idx + 1))
                &&& (old(self).idx + 1 == old(self).n_images ==> final(self).phase == (if old(
                    self,
                ).local {
                    NostrPhase::AwaitBroadcast
                } else {
                    NostrPhase::AwaitSignature
                }) && final(self).finish_uploads_post(r))
            },
            event is BlossomSkipped ==> {
                &&& final(self).idx == old(self).idx + 1
                &&& final(self).urls == old(self).urls
                &&& (old(self).idx + 1 < old(self).n_images ==> final(self).phase
                    == NostrPhase::Uploading && (r matches NostrAction::UploadImage { index }
                    && index == old(self).idx + 1))
                &&& (old(self).idx + 1 == old(self).n_images ==> final(self).phase == (if old(
                    self,
                ).local {
                    NostrPhase::AwaitBroadcast
                } else {
                    NostrPhase::AwaitSignature
                }) && final(self).finish_uploads_post(r))
            },
            event matches NostrEvent::SignResponse { success, result, error } ==> ({
                let outcome = envelope_outcome(success, result, error);
                match outcome {
                    Err(m) => final(self).phase == NostrPhase::Done && (r
                        matches NostrAction::Finished { end } && end
                        matches AttemptEnd::Returned(PostResult::Error { message }) && message@
                        == ("Failed to sign event: ")@ + m),
                    Ok(signed) => final(self).phase == NostrPhase::AwaitBroadcast && (r
                        matches NostrAction::BroadcastSigned { event_json, relays } && event_json@
                        == signed && relays@ == old(self).relays@),
                }
            }),
            event matches NostrEvent::SignedParseFailed { message } ==> final(self).phase
                == NostrPhase::Done && (r matches NostrAction::Finished { end } && end
                matches AttemptEnd::Returned(PostResult::Error { message: m }) && m@ == (
            "Failed to parse signed event: ")@ + message@),
            event is NoteSent ==> final(self).phase == NostrPhase::Done && (r
                matches NostrAction::Finished { end } && end matches AttemptEnd::Returned(
                PostResult::Success { url },
            ) && url is None),
            event matches NostrEvent::NoteFailed { message } ==> final(self).phase
                == NostrPhase::Done && (r matches NostrAction::Finished { end } && end
                matches AttemptEnd::Returned(PostResult::Error { message: m }) && m@ == (
            "Failed to send event: ")@ + message@),
    {
        match event {
            NostrEvent::PubkeyResponse { success, result, error } => {
                match signer_envelope_result(success, result, error) {
                    Err(m) => {
                        self.phase = NostrPhase::Done;
                        let mut message = <String as StringExecFns>::from_str(
                            "Failed to get pubkey: ",
                        );
                        message.append(m.as_str());
                        NostrAction::Finished {
                            end: AttemptEnd::Returned(PostResult::Error { message }),
                        }
                    },
                    Ok(_) => {
                        if self.n_images > 0 {
                            self.phase = NostrPhase::Uploading;
                            NostrAction::UploadImage { index: 0 }
                        } else {
                            self.phase = NostrPhase::AwaitSignature;
                            self.advance_uploads()
                        }
                    },
                }
            },
            NostrEvent::Connected => {
                if self.n_images > 0 {
                    self.phase = NostrPhase::Uploading;
                    NostrAction::UploadImage { index: 0 }
                } else {
                    self.phase = NostrPhase::AwaitBroadcast;
                    self.advance_uploads()
                }
            },
            NostrEvent::BlossomUploaded { url } => {
                let ghost pre = strs_view(self.urls@);
                self.urls.push(url);
                self.idx = self.idx + 1;
                proof {
                    assert(strs_view(self.urls@) =~= pre.push(self.urls@.last()@));
                }
                if self.idx < self.n_images {
                    NostrAction::UploadImage { index: self.idx }
                } else {
                    self.phase = if self.local {
                        NostrPhase::AwaitBroadcast
                    } else {
                        NostrPhase::AwaitSignature
                    };
                    self.advance_uploads()
                }
            },
            NostrEvent::BlossomSkipped => {
                self.idx = self.idx + 1;
                if self.idx < self.n_images {
                    NostrAction::UploadImage { index: self.idx }
                } else {
                    self.phase = if self.local {
                        NostrPhase::AwaitBroadcast
                    } else {
                        NostrPhase::AwaitSignature
                    };
                    self.advance_uploads()
                }
            },
            NostrEvent::SignResponse { success, result, error } => {
                match signer_envelope_result(success, result, error) {
                    Err(m) => {
                        self.phase = NostrPhase::Done;
                        let mut message = <String as StringExecFns>::from_str(
                            "Failed to sign event: ",
                        );
                        message.append(m.as_str());
                        NostrAction::Finished {
                            end: AttemptEnd::Returned(PostResult::Error { message }),
                        }
                    },
                    Ok(signed) => {
                        self.phase = NostrPhase::AwaitBroadcast;
                        NostrAction::BroadcastSigned {
                            event_json: signed,
                            relays: crate::strutil::clone_string_vec(&self.relays),
                        }
                    },
                }
            },
            NostrEvent::SignedParseFailed { message } => {
                self.phase = NostrPhase::Done;
                let mut m = <String as StringExecFns>::from_str("Failed to parse signed event: ");
                m.append(message.as_str());
                NostrAction::Finished {
                    end: AttemptEnd::Returned(PostResult::Error { message: m }),
                }
            },
            NostrEvent::NoteSent => {
                self.phase = NostrPhase::Done;
                NostrAction::Finished {
                    end: AttemptEnd::Returned(PostResult::Success { url: None }),
                }
            },
            NostrEvent::NoteFailed { message } => {
                self.phase = NostrPhase::Done;
                let mut m = <String as StringExecFns>::from_str("Failed to send event: ");
                m.append(message.as_str());
                NostrAction::Finished {
                    end: AttemptEnd::Returned(PostResult::Error { message: m }),
                }
            },
        }
    }
}

} // verus!
