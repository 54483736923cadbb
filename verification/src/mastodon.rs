//! The Mastodon adapter: upload each image to the media endpoint, then post
//! one status carrying the text and the collected media identifiers. A post
//! with no images goes straight to the status endpoint, and its payload
//! carries no media list at all. Any single upload failure aborts the post
//! with that failure.

use vstd::prelude::*;
use vstd::string::*;
use crate::jsonx::{json_quoted, push_json_string, quoted_list};
use crate::platforms::{bearer_spec, bearer_value, AttemptEnd, Post, PostResult};
use crate::strutil::{push_char, strs_view, trim_slashes, trim_trailing_slashes};

verus! {

broadcast use vstd::string::group_string_axioms;

/// The media upload endpoint under an instance.
pub open spec fn media_url_spec(instance: Seq<char>) -> Seq<char> {
    instance + ("/api/v2/media")@
}

/// The status endpoint under an instance.
pub open spec fn status_url_spec(instance: Seq<char>) -> Seq<char> {
    instance + ("/api/v1/statuses")@
}

/// The status payload: the text, and the media identifier list only where
/// there is one — a post with no uploads carries no `media_ids` key.
pub open spec fn status_body_spec(text: Seq<char>, ids: Seq<Seq<char>>) -> Seq<char> {
    if ids.len() == 0 {
        ("{\"status\":")@ + json_quoted(text) + ("}")@
    } else {
        ("{\"status\":")@ + json_quoted(text) + (",\"media_ids\":[")@ + quoted_list(ids) + ("]}")@
    }
}

fn status_body(text: &str, ids: &Vec<String>) -> (r: String)
    ensures
        r@ == status_body_spec(text@, strs_view(ids@)),
{
    let mut out = <String as StringExecFns>::from_str("{\"status\":");
    push_json_string(&mut out, text);
    if ids.len() == 0 {
        out.append("}");
        proof {
            assert(out@ =~= status_body_spec(text@, strs_view(ids@)));
        }
        return out;
    }
    out.append(",\"media_ids\":[");
    let ghost mark = out@;
    let mut i: usize = 0;
    proof {
        assert(out@ =~= mark + quoted_list(strs_view(ids@).take(0)));
    }
    while i < ids.len()
        invariant
            i <= ids@.len(),
            out@ == mark + quoted_list(strs_view(ids@).take(i as int)),
        decreases ids@.len() - i,
    {
        if i > 0 {
            push_char(&mut out, ',');
        }
        push_json_string(&mut out, ids[i].as_str());
        proof {
            assert(strs_view(ids@).take(i + 1).drop_last() =~= strs_view(ids@).take(i as int));
            assert(strs_view(ids@).take(i + 1).last() == ids@[i as int]@);
            assert(out@ =~= mark + quoted_list(strs_view(ids@).take(i + 1)));
        }
        i = i + 1;
    }
    out.append("]}");
    proof {
        assert(strs_view(ids@).take(ids@.len() as int) =~= strs_view(ids@));
        assert(out@ =~= status_body_spec(text@, strs_view(ids@)));
    }
    out
}

/// The URL synthesized when the status response carries none.
pub open spec fn fallback_url_spec(instance: Seq<char>, id: Seq<char>) -> Seq<char> {
    instance + ("/web/statuses/")@ + id
}

/// The Mastodon adapter: an instance URL (trailing slashes trimmed) and an
/// access token.
#[derive(Debug, Clone)]
pub struct MastodonPlatform {
    pub instance_url: String,
    pub access_token: String,
}

impl MastodonPlatform {
    /// An adapter over an instance URL and an access token.
    pub fn new(instance_url: String, access_token: String) -> (r: MastodonPlatform)
        ensures
            r.instance_url@ == trim_trailing_slashes(instance_url@),
            r.access_token == access_token,
    {
        MastodonPlatform { instance_url: trim_slashes(instance_url.as_str()), access_token }
    }
}

/// What the driver is asked to do next for a Mastodon post.
pub enum MastodonAction {
    /// POST the image at `index` as a multipart form to `url`, authorized by
    /// the `Authorization` value.
    UploadMedia { index: usize, url: String, authorization: String },
    /// POST the JSON `body` to `url`, authorized by the `Authorization`
    /// value.
    PostStatus { url: String, authorization: String, body: String },
    /// The attempt is over.
    Finished { end: AttemptEnd },
}

/// What the driver reports back.
pub enum MastodonEvent {
    /// The media endpoint accepted the image and returned an identifier.
    MediaUploaded { id: String },
    /// The media endpoint answered with a failure status and body.
    MediaFailed { status: String, body: String },
    /// The status endpoint accepted the post.
    StatusPosted { id: String, url: Option<String> },
    /// The status endpoint answered with a failure status and body.
    StatusFailed { status: String, body: String },
    /// The request never completed.
    Transport { message: String },
}

/// One Mastodon post attempt: upload the images in order, then post the
/// status.
pub struct MastodonPost {
    pub instance_url: String,
    pub access_token: String,
    pub text: String,
    pub n_images: usize,
    pub idx: usize,
    pub media_ids: Vec<String>,
    pub done: bool,
}

impl MastodonPost {
    /// The machine's bookkeeping is consistent.
    pub open spec fn wf(&self) -> bool {
        self.idx <= self.n_images && self.media_ids@.len() == self.idx
    }

    /// Whether the machine is still uploading images.
    pub open spec fn uploading(&self) -> bool {
        self.idx < self.n_images
    }

    /// Begins one attempt: the first action asks for the first image, or —
    /// with no images at all — goes straight to the status endpoint, with a
    /// payload that carries no media list.
    pub fn start(platform: &MastodonPlatform, post: &Post) -> (r: (MastodonPost, MastodonAction))
        ensures
            r.0.wf(),
            !r.0.done,
            r.0.instance_url == platform.instance_url,
            r.0.access_token == platform.access_token,
            r.0.text == post.text,
            r.0.n_images == post.images@.len(),
            r.0.idx == 0,
            post.images@.len() > 0 ==> (r.1 matches MastodonAction::UploadMedia {
                index,
                url,
                authorization,
            } && index == 0 && url@ == media_url_spec(platform.instance_url@) && authorization@
                == bearer_spec(platform.access_token@)),
            post.images@.len() == 0 ==> (r.1 matches MastodonAction::PostStatus {
                url,
                authorization,
                body,
            } && url@ == status_url_spec(platform.instance_url@) && authorization@ == bearer_spec(
                platform.access_token@,
            ) && body@ == status_body_spec(post.text@, Seq::empty())),
    {
        let state = MastodonPost {
            instance_url: platform.instance_url.clone(),
            access_token: platform.access_token.clone(),
            text: post.text.clone(),
            n_images: post.images.len(),
            idx: 0,
            media_ids: Vec::new(),
            done: false,
        };
        let action = if state.n_images > 0 {
            let mut url = state.instance_url.clone();
            url.append("/api/v2/media");
            MastodonAction::UploadMedia {
                index: 0,
                url,
                authorization: bearer_value(state.access_token.as_str()),
            }
        } else {
            let mut url = state.instance_url.clone();
            url.append("/api/v1/statuses");
            let body = status_body(state.text.as_str(), &state.media_ids);
            proof {
                assert(strs_view(state.media_ids@) =~= Seq::<Seq<char>>::empty());
            }
            MastodonAction::PostStatus {
                url,
                authorization: bearer_value(state.access_token.as_str()),
                body,
            }
        };
        (state, action)
    }

    /// Advances the attempt by one reported event. An upload or status
    /// failure, or a transport fault, ends the attempt with that failure;
    /// an accepted upload moves to the next image or to the status post; an
    /// accepted status ends it with the post's URL, synthesized from the
    /// instance and identifier where the response carried none. A machine
    /// that never had images never asks for a media upload.
    pub fn step(&mut self, event: MastodonEvent) -> (r: MastodonAction)
        requires
            old(self).wf(),
            !old(self).done,
            (event is MediaUploaded || event is MediaFailed) ==> old(self).uploading(),
            (event is StatusPosted || event is StatusFailed) ==> !old(self).uploading(),
        ensures
            final(self).wf(),
            final(self).instance_url == old(self).instance_url,
            final(self).access_token == old(self).access_token,
            final(self).text == old(self).text,
            final(self).n_images == old(self).n_images,
            old(self).n_images == 0 ==> !(r is UploadMedia),
            event matches MastodonEvent::MediaUploaded { id } ==> {
                &&& !final(self).done
                &&& final(self).idx == old(self).idx + 1
                &&& strs_view(final(self).media_ids@) == strs_view(old(self).media_ids@).push(id@)
                &&& (old(self).idx + 1 < old(self).n_images ==> (r
                    matches MastodonAction::UploadMedia { index, url, authorization } && index
                    == old(self).idx + 1 && url@ == media_url_spec(old(self).instance_url@)
                    && authorization@ == bearer_spec(old(self).access_token@)))
                &&& (old(self).idx + 1 == old(self).n_images ==> (r
                    matches MastodonAction::PostStatus { url, authorization, body } && url@
                    == status_url_spec(old(self).instance_url@) && authorization@ == bearer_spec(
                    old(self).access_token@,
                ) && body@ == status_body_spec(
                    old(self).text@,
                    strs_view(old(self).media_ids@).push(id@),
                )))
            },
            event matches MastodonEvent::MediaFailed { status, body } ==> {
                &&& final(self).done
                &&& r matches MastodonAction::Finished { end } && end matches AttemptEnd::Fault {
                    message,
                } && message@ == ("Failed to upload image: Failed to upload media: ")@ + status@ + (
                " - ")@ + body@
            },
            event matches MastodonEvent::StatusPosted { id, url } ==> {
                &&& final(self).done
                &&& r matches MastodonAction::Finished { end } && end
                    matches AttemptEnd::Returned(PostResult::Success { url: out }) && out
                    matches Some(u) && u@ == (match url {
                    Some(given) => given@,
                    None => fallback_url_spec(old(self).instance_url@, id@),
                })
            },
            event matches MastodonEvent::StatusFailed { status, body } ==> {
                &&& final(self).done
                &&& r matches MastodonAction::Finished { end } && end matches AttemptEnd::Fault {
                    message,
                } && message@ == ("Failed to post status: ")@ + status@ + (" - ")@ + body@
            },
            event matches MastodonEvent::Transport { message } ==> {
                &&& final(self).done
                &&& r matches MastodonAction::Finished { end } && end matches AttemptEnd::Fault {
                    message: m,
                } && m == message
            },
    {
        match event {
            MastodonEvent::MediaUploaded { id } => {
                let ghost pre_ids = strs_view(self.media_ids@);
                self.media_ids.push(id);
                self.idx = self.idx + 1;
                proof {
                    assert(strs_view(self.media_ids@) =~= pre_ids.push(
                        self.media_ids@.last()@,
                    ));
                }
                if self.idx < self.n_images {
                    let mut url = self.instance_url.clone();
                    url.append("/api/v2/media");
                    MastodonAction::UploadMedia {
                        index: self.idx,
                        url,
                        authorization: bearer_value(self.access_token.as_str()),
                    }
                } else {
                    let mut url = self.instance_url.clone();
                    url.append("/api/v1/statuses");
                    let body = status_body(self.text.as_str(), &self.media_ids);
                    MastodonAction::PostStatus {
                        url,
                        authorization: bearer_value(self.access_token.as_str()),
                        body,
                    }
                }
            },
            MastodonEvent::MediaFailed { status, body } => {
                self.done = true;
                let mut message = <String as StringExecFns>::from_str(
                    "Failed to upload image: Failed to upload media: ",
                );
                message.append(status.as_str());
                message.append(" - ");
                message.append(body.as_str());
                MastodonAction::Finished { end: AttemptEnd::Fault { message } }
            },
            MastodonEvent::StatusPosted { id, url } => {
                self.done = true;
                let resolved = match url {
                    Some(given) => given,
                    None => {
                        let mut u = self.instance_url.clone();
                        u.append("/web/statuses/");
                        u.append(id.as_str());
                        u
                    },
                };
                MastodonAction::Finished {
                    end: AttemptEnd::Returned(PostResult::Success { url: Some(resolved) }),
                }
            },
            MastodonEvent::StatusFailed { status, body } => {
                self.done = true;
                let mut message = <String as StringExecFns>::from_str("Failed to post status: ");
                message.append(status.as_str());
                message.append(" - ");
                message.append(body.as_str());
                MastodonAction::Finished { end: AttemptEnd::Fault { message } }
            },
            MastodonEvent::Transport { message } => {
                self.done = true;
                MastodonAction::Finished { end: AttemptEnd::Fault { message } }
            },
        }
    }
}

} // verus!
