//! The BlueSky adapter: create a session where no access token is held yet,
//! upload at most the first four images as blobs (each transcoded to at most
//! one megabyte and two thousand pixels), then create the feed-post record
//! embedding the collected blob references in upload order. The first upload
//! or processing failure aborts the whole post with that failure.

use vstd::prelude::*;
use vstd::string::*;
use crate::image_utils::ImageProcessor;
use crate::jsonx::{json_quoted, push_json_string};
use crate::platforms::{bearer_spec, bearer_value, AttemptEnd, Platform, Post, PostResult};
use crate::strutil::{dec_chars, push_char, u64_to_dec};

verus! {

broadcast use vstd::string::group_string_axioms;

/// How many images one post may carry.
pub const IMAGE_CAP: usize = 4;

/// The byte budget for one uploaded image.
pub const IMAGE_MAX_BYTES: usize = 1000000;

/// The pixel cap for one uploaded image.
pub const IMAGE_MAX_DIMENSION: u32 = 2000;

/// How many images of a post are uploaded: all of them, up to the cap.
pub open spec fn upload_cap(n: usize) -> usize {
    if n > IMAGE_CAP {
        IMAGE_CAP
    } else {
        n
    }
}

/// The transcode configuration every BlueSky image goes through.
pub fn bluesky_image_processor() -> (r: ImageProcessor)
    ensures
        r.max_size == Some(IMAGE_MAX_BYTES),
        r.max_dimension == Some(IMAGE_MAX_DIMENSION),
        !r.strip_exif,
{
    ImageProcessor::new().with_max_size(IMAGE_MAX_BYTES).with_max_dimension(IMAGE_MAX_DIMENSION)
}

/// One blob reference as the upload endpoint returned it.
#[derive(Debug, Clone)]
pub struct BlobRefData {
    pub blob_type: String,
    pub link: String,
    pub mime_type: String,
    pub size: u64,
}

/// View of a blob reference.
pub open spec fn blob_view(b: BlobRefData) -> (Seq<char>, Seq<char>, Seq<char>, u64) {
    (b.blob_type@, b.link@, b.mime_type@, b.size)
}

/// View of a blob reference list.
pub open spec fn blobs_view(v: Seq<BlobRefData>) -> Seq<(Seq<char>, Seq<char>, Seq<char>, u64)> {
    v.map_values(|b: BlobRefData| blob_view(b))
}

/// The session-creation payload.
pub open spec fn login_json_spec(handle: Seq<char>, password: Seq<char>) -> Seq<char> {
    ("{\"identifier\":")@ + json_quoted(handle) + (",\"password\":")@ + json_quoted(password) + (
    "}")@
}

/// One blob reference as JSON, as the record embeds it.
pub open spec fn blob_json_spec(b: (Seq<char>, Seq<char>, Seq<char>, u64)) -> Seq<char> {
    ("{\"$type\":")@ + json_quoted(b.0) + (",\"ref\":{\"$link\":")@ + json_quoted(b.1) + (
    "},\"mimeType\":")@ + json_quoted(b.2) + (",\"size\":")@ + dec_chars(b.3 as int) + ("}")@
}

/// One image entry of the embed: an empty alt text and the blob.
pub open spec fn image_ref_json_spec(b: (Seq<char>, Seq<char>, Seq<char>, u64)) -> Seq<char> {
    ("{\"alt\":\"\",\"image\":")@ + blob_json_spec(b) + ("}")@
}

/// The image entries joined with commas.
pub open spec fn image_list_spec(bs: Seq<(Seq<char>, Seq<char>, Seq<char>, u64)>) -> Seq<char>
    decreases bs.len(),
{
    if bs.len() == 0 {
        Seq::empty()
    } else if bs.len() == 1 {
        image_ref_json_spec(bs[0])
    } else {
        image_list_spec(bs.drop_last()) + seq![','] + image_ref_json_spec(bs.last())
    }
}

/// The images embed object.
pub open spec fn embed_json_spec(bs: Seq<(Seq<char>, Seq<char>, Seq<char>, u64)>) -> Seq<char> {
    ("{\"$type\":\"app.bsky.embed.images\",\"images\":[")@ + image_list_spec(bs) + ("]}")@
}

/// The feed-post record: text, creation timestamp, its type, and the embed
/// only where at least one blob was uploaded.
pub open spec fn record_json_spec(
    text: Seq<char>,
    created_at: Seq<char>,
    bs: Seq<(Seq<char>, Seq<char>, Seq<char>, u64)>,
) -> Seq<char> {
    ("{\"text\":")@ + json_quoted(text) + (",\"createdAt\":")@ + json_quoted(created_at) + (
    ",\"$type\":\"app.bsky.feed.post\"")@ + (if bs.len() == 0 {
        ("}")@
    } else {
        (",\"embed\":")@ + embed_json_spec(bs) + ("}")@
    })
}

/// The create-record payload: the repository (the handle), the collection,
/// and the record.
pub open spec fn create_record_json_spec(
    handle: Seq<char>,
    text: Seq<char>,
    created_at: Seq<char>,
    bs: Seq<(Seq<char>, Seq<char>, Seq<char>, u64)>,
) -> Seq<char> {
    ("{\"repo\":")@ + json_quoted(handle) + (
    ",\"collection\":\"app.bsky.feed.post\",\"record\":")@ + record_json_spec(
        text,
        created_at,
        bs,
    ) + ("}")@
}

fn login_json(handle: &str, password: &str) -> (r: String)
    ensures
        r@ == login_json_spec(handle@, password@),
{
    let mut out = <String as StringExecFns>::from_str("{\"identifier\":");
    push_json_string(&mut out, handle);
    out.append(",\"password\":");
    push_json_string(&mut out, password);
    out.append("}");
    proof {
        assert(out@ =~= login_json_spec(handle@, password@));
    }
    out
}

fn push_blob_json(out: &mut String, b: &BlobRefData)
    ensures
        final(out)@ == old(out)@ + blob_json_spec(blob_view(*b)),
{
    out.append("{\"$type\":");
    push_json_string(out, b.blob_type.as_str());
    out.append(",\"ref\":{\"$link\":");
    push_json_string(out, b.link.as_str());
    out.append("},\"mimeType\":");
    push_json_string(out, b.mime_type.as_str());
    out.append(",\"size\":");
    let d = u64_to_dec(b.size);
    out.append(d.as_str());
    out.append("}");
    proof {
        assert(final(out)@ =~= old(out)@ + blob_json_spec(blob_view(*b)));
    }
}

fn create_record_json(handle: &str, text: &str, created_at: &str, refs: &Vec<BlobRefData>) -> (r:
    String)
    ensures
        r@ == create_record_json_spec(handle@, text@, created_at@, blobs_view(refs@)),
{
    let mut out = <String as StringExecFns>::from_str("{\"repo\":");
    push_json_string(&mut out, handle);
    out.append(",\"collection\":\"app.bsky.feed.post\",\"record\":");
    out.append("{\"text\":");
    push_json_string(&mut out, text);
    out.append(",\"createdAt\":");
    push_json_string(&mut out, created_at);
    out.append(",\"$type\":\"app.bsky.feed.post\"");
    if refs.len() == 0 {
        out.append("}");
        out.append("}");
        proof {
            assert(out@ =~= create_record_json_spec(
                handle@,
                text@,
                created_at@,
                blobs_view(refs@),
            ));
        }
        return out;
    }
    out.append(",\"embed\":");
    out.append("{\"$type\":\"app.bsky.embed.images\",\"images\":[");
    let ghost mark = out@;
    let mut i: usize = 0;
    proof {
        assert(out@ =~= mark + image_list_spec(blobs_view(refs@).take(0)));
    }
    while i < refs.len()
        invariant
            i <= refs@.len(),
            out@ == mark + image_list_spec(blobs_view(refs@).take(i as int)),
        decreases refs@.len() - i,
    {
        if i > 0 {
            push_char(&mut out, ',');
        }
        out.append("{\"alt\":\"\",\"image\":");
        push_blob_json(&mut out, &refs[i]);
        out.append("}");
        proof {
            assert(blobs_view(refs@).take(i + 1).drop_last() =~= blobs_view(refs@).take(i as int));
            assert(blobs_view(refs@).take(i + 1).last() == blob_view(refs@[i as int]));
            assert(out@ =~= mark + image_list_spec(blobs_view(refs@).take(i + 1)));
        }
        i = i + 1;
    }
    out.append("]}");
    out.append("}");
    out.append("}");
    proof {
        assert(blobs_view(refs@).take(refs@.len() as int) =~= blobs_view(refs@));
        assert(out@ =~= create_record_json_spec(handle@, text@, created_at@, blobs_view(refs@)));
    }
    out
}

/// The BlueSky adapter: a handle, an app password, and the access token of
/// the running session, once one was created.
#[derive(Debug, Clone)]
pub struct BlueSkyPlatform {
    pub handle: String,
    pub app_password: String,
    pub access_token: Option<String>,
}

impl BlueSkyPlatform {
    /// An adapter with no session yet.
    pub fn new(handle: String, app_password: String) -> (r: BlueSkyPlatform)
        ensures
            r.handle == handle,
            r.app_password == app_password,
            r.access_token is None,
    {
        BlueSkyPlatform { handle, app_password, access_token: None }
    }
}

impl Platform for BlueSkyPlatform {
    open spec fn spec_name(&self) -> Seq<char> {
        ("BlueSky")@
    }

    open spec fn spec_ready(&self) -> bool {
        self.handle@.len() > 0 && self.app_password@.len() > 0
    }

    fn name(&self) -> (r: String) {
        <String as StringExecFns>::from_str("BlueSky")
    }

    fn is_authenticated(&self) -> (r: bool) {
        !self.handle.as_str().is_empty() && !self.app_password.as_str().is_empty()
    }
}

/// What the driver is asked to do next for a BlueSky post.
pub enum BskyAction {
    /// POST the JSON `body` to the session-creation endpoint.
    Login { url: String, body: String },
    /// Transcode the image at `index` under `bluesky_image_processor` and
    /// POST the bytes to `url` with their MIME type, authorized by the
    /// `Authorization` value.
    UploadImage { index: usize, url: String, authorization: String },
    /// POST the JSON `body` to the record-creation endpoint, authorized by
    /// the `Authorization` value.
    CreateRecord { url: String, authorization: String, body: String },
    /// The attempt is over.
    Finished { end: AttemptEnd },
}

/// What the driver reports back.
pub enum BskyEvent {
    /// The session was created; its access token.
    LoginOk { access_jwt: String },
    /// The session endpoint refused; its status line.
    LoginFailed { status: String },
    /// Transcoding the current image failed with this description.
    ProcessFailed { message: String },
    /// The blob was stored; the returned reference.
    BlobUploaded { blob_type: String, link: String, mime_type: String, size: u64 },
    /// The blob endpoint refused; the response text.
    BlobRejected { body: String },
    /// The blob upload never completed.
    UploadTransport { message: String },
    /// The record was created.
    RecordCreated,
    /// The record endpoint refused; the response text.
    RecordFailed { body: String },
    /// A session or record request never completed.
    Transport { message: String },
}

/// One BlueSky post attempt: log in where needed, upload at most the first
/// four images, then create the record.
pub struct BskyPost {
    pub handle: String,
    pub text: String,
    pub created_at: String,
    pub n_images: usize,
    pub token: Option<String>,
    pub idx: usize,
    pub refs: Vec<BlobRefData>,
    pub done: bool,
}

impl BskyPost {
    /// The machine's bookkeeping is consistent.
    pub open spec fn wf(&self) -> bool {
        self.idx <= upload_cap(self.n_images) && self.refs@.len() == self.idx
    }

    /// Whether the machine still waits for a session.
    pub open spec fn logging_in(&self) -> bool {
        self.token is None
    }

    /// Whether the machine is uploading images.
    pub open spec fn uploading(&self) -> bool {
        self.token is Some && self.idx < upload_cap(self.n_images)
    }

    /// The action that carries the attempt on once a session token is held:
    /// the next image upload, or the record creation once the first four
    /// images (or all of them, where fewer) are up.
    pub open spec fn continue_post(&self, r: BskyAction) -> bool {
        if self.idx < upload_cap(self.n_images) {
            r matches BskyAction::UploadImage { index, url, authorization } && index == self.idx
                && url@ == ("https://bsky.social/xrpc/com.atproto.repo.uploadBlob")@
                && authorization@ == bearer_spec(self.token->0@)
        } else {
            r matches BskyAction::CreateRecord { url, authorization, body } && url@ == (
            "https://bsky.social/xrpc/com.atproto.repo.createRecord")@ && authorization@
                == bearer_spec(self.token->0@) && body@ == create_record_json_spec(
                self.handle@,
                self.text@,
                self.created_at@,
                blobs_view(self.refs@),
            )
        }
    }

    fn advance(&self) -> (r: BskyAction)
        requires
            self.wf(),
            self.token is Some,
        ensures
            self.continue_post(r),
            r matches BskyAction::UploadImage { index, url, authorization } ==> index < IMAGE_CAP
                && index < self.n_images,
    {
        let token: &String = match &self.token {
            Some(t) => t,
            None => {
                proof {
                    assert(false);
                }
                unreached()
            },
        };
        let cap = if self.n_images > IMAGE_CAP {
            IMAGE_CAP
        } else {
            self.n_images
        };
        if self.idx < cap {
            BskyAction::UploadImage {
                index: self.idx,
                url: <String as StringExecFns>::from_str(
                    "https://bsky.social/xrpc/com.atproto.repo.uploadBlob",
                ),
                authorization: bearer_value(token.as_str()),
            }
        } else {
            BskyAction::CreateRecord {
                url: <String as StringExecFns>::from_str(
                    "https://bsky.social/xrpc/com.atproto.repo.createRecord",
                ),
                authorization: bearer_value(token.as_str()),
                body: create_record_json(
                    self.handle.as_str(),
                    self.text.as_str(),
                    self.created_at.as_str(),
                    &self.refs,
                ),
            }
        }
    }

    /// Begins one attempt. With no session token held, the first action is
    /// the login; with one, the attempt carries straight on to uploads or to
    /// the record.
    pub fn start(platform: &BlueSkyPlatform, post: &Post, created_at: String) -> (r: (
        BskyPost,
        BskyAction,
    ))
        ensures
            r.0.wf(),
            !r.0.done,
            r.0.handle == platform.handle,
            r.0.text == post.text,
            r.0.created_at == created_at,
            r.0.n_images == post.images@.len(),
            r.0.idx == 0,
            r.0.token == platform.access_token,
            platform.access_token is None ==> (r.1 matches BskyAction::Login { url, body } && url@
                == ("https://bsky.social/xrpc/com.atproto.server.createSession")@ && body@
                == login_json_spec(platform.handle@, platform.app_password@)),
            platform.access_token is Some ==> r.0.continue_post(r.1),
            r.1 matches BskyAction::UploadImage { index, url, authorization } ==> index < IMAGE_CAP
                && index < r.0.n_images,
    {
        let state = BskyPost {
            handle: platform.handle.clone(),
            text: post.text.clone(),
            created_at,
            n_images: post.images.len(),
            token: match &platform.access_token {
                Some(t) => Some(t.clone()),
                None => None,
            },
            idx: 0,
            refs: Vec::new(),
            done: false,
        };
        let action = if state.token.is_none() {
            BskyAction::Login {
                url: <String as StringExecFns>::from_str(
                    "https://bsky.social/xrpc/com.atproto.server.createSession",
                ),
                body: login_json(platform.handle.as_str(), platform.app_password.as_str()),
            }
        } else {
            state.advance()
        };
        (state, action)
    }

    /// Advances the attempt by one reported event. A login failure or a
    /// session/record transport fault ends it as a local fault; a processing
    /// or upload failure ends it as that platform error, before any later
    /// image is asked for; an accepted blob moves on; an accepted record
    /// ends the attempt successfully.
    pub fn step(&mut self, event: BskyEvent) -> (r: BskyAction)
        requires
            old(self).wf(),
            !old(self).done,
            (event is LoginOk || event is LoginFailed) ==> old(self).logging_in(),
            (event is ProcessFailed || event is BlobUploaded || event is BlobRejected || event
                is UploadTransport) ==> old(self).uploading(),
            (event is RecordCreated || event is RecordFailed) ==> !old(self).logging_in()
                && !old(self).uploading(),
        ensures
            final(self).wf(),
            final(self).handle == old(self).handle,
            final(self).text == old(self).text,
            final(self).created_at == old(self).created_at,
            final(self).n_images == old(self).n_images,
            r matches BskyAction::UploadImage { index, url, authorization } ==> index < IMAGE_CAP
                && index < old(self).n_images,
            event matches BskyEvent::LoginOk { access_jwt } ==> {
                &&& !final(self).done
                &&& final(self).token == Some(access_jwt)
                &&& final(self).idx == old(self).idx
                &&& final(self).refs == old(self).refs
                &&& final(self).continue_post(r)
            },
            event matches BskyEvent::LoginFailed { status } ==> {
                &&& final(self).done
                &&& r matches BskyAction::Finished { end } && end matches AttemptEnd::Fault {
                    message,
                } && message@ == ("Login failed: ")@ + status@
            },
            event matches BskyEvent::ProcessFailed { message } ==> {
                &&& final(self).done
                &&& r matches BskyAction::Finished { end } && end matches AttemptEnd::Returned(
                    PostResult::Error { message: m },
                ) && m@ == ("Failed to process image: ")@ + message@
            },
            event matches BskyEvent::BlobUploaded { blob_type, link, mime_type, size } ==> {
                &&& !final(self).done
                &&& final(self).token == old(self).token
                &&& final(self).idx == old(self).idx + 1
                &&& blobs_view(final(self).refs@) == blobs_view(old(self).refs@).push(
                    (blob_type@, link@, mime_type@, size),
                )
                &&& final(self).continue_post(r)
            },
            event matches BskyEvent::BlobRejected { body } ==> {
                &&& final(self).done
                &&& r matches BskyAction::Finished { end } && end matches AttemptEnd::Returned(
                    PostResult::Error { message: m },
                ) && m@ == ("Failed to upload image: Failed to upload blob: ")@ + body@
            },
            event matches BskyEvent::UploadTransport { message } ==> {
                &&& final(self).done
                &&& r matches BskyAction::Finished { end } && end matches AttemptEnd::Returned(
                    PostResult::Error { message: m },
                ) && m@ == ("Failed to upload image: ")@ + message@
            },
            event is RecordCreated ==> {
                &&& final(self).done
                &&& r matches BskyAction::Finished { end } && end matches AttemptEnd::Returned(
                    PostResult::Success { url },
                ) && url is None
            },
            event matches BskyEvent::RecordFailed { body } ==> {
                &&& final(self).done
                &&& r matches BskyAction::Finished { end } && end matches AttemptEnd::Returned(
                    PostResult::Error { message: m },
                ) && m@ == ("Failed to post: ")@ + body@
            },
            event matches BskyEvent::Transport { message } ==> {
                &&& final(self).done
                &&& r matches BskyAction::Finished { end } && end matches AttemptEnd::Fault {
                    message: m,
                } && m == message
            },
    {
        match event {
            BskyEvent::LoginOk { access_jwt } => {
                self.token = Some(access_jwt);
                self.advance()
            },
            BskyEvent::LoginFailed { status } => {
                self.done = true;
                let mut message = <String as StringExecFns>::from_str("Login failed: ");
                message.append(status.as_str());
                BskyAction::Finished { end: AttemptEnd::Fault { message } }
            },
            BskyEvent::ProcessFailed { message } => {
                self.done = true;
                let mut m = <String as StringExecFns>::from_str("Failed to process image: ");
                m.append(message.as_str());
                BskyAction::Finished {
                    end: AttemptEnd::Returned(PostResult::Error { message: m }),
                }
            },
            BskyEvent::BlobUploaded { blob_type, link, mime_type, size } => {
                let ghost pre = blobs_view(self.refs@);
                self.refs.push(BlobRefData { blob_type, link, mime_type, size });
                self.idx = self.idx + 1;
                proof {
                    assert(blobs_view(self.refs@) =~= pre.push(blob_view(self.refs@.last())));
                }
                self.advance()
            },
            BskyEvent::BlobRejected { body } => {
                self.done = true;
                let mut m = <String as StringExecFns>::from_str(
                    "Failed to upload image: Failed to upload blob: ",
                );
                m.append(body.as_str());
                BskyAction::Finished {
                    end: AttemptEnd::Returned(PostResult::Error { message: m }),
                }
            },
            BskyEvent::UploadTransport { message } => {
                self.done = true;
                let mut m = <String as StringExecFns>::from_str("Failed to upload image: ");
                m.append(message.as_str());
                BskyAction::Finished {
                    end: AttemptEnd::Returned(PostResult::Error { message: m }),
                }
            },
            BskyEvent::RecordCreated => {
                self.done = true;
                BskyAction::Finished {
                    end: AttemptEnd::Returned(PostResult::Success { url: None }),
                }
            },
            BskyEvent::RecordFailed { body } => {
                self.done = true;
                let mut m = <String as StringExecFns>::from_str("Failed to post: ");
                m.append(body.as_str());
                BskyAction::Finished {
                    end: AttemptEnd::Returned(PostResult::Error { message: m }),
                }
            },
            BskyEvent::Transport { message } => {
                self.done = true;
                BskyAction::Finished { end: AttemptEnd::Fault { message } }
            },
        }
    }
}

} // verus!
