//! The X adapter's OAuth 1.0a signing: RFC 3986 percent-encoding, the
//! canonical parameter string, the signature base string, the HMAC-SHA1
//! signature and the `Authorization` header. The header is a pure function of
//! its inputs, timestamp and nonce included, so two calls on equal inputs
//! give equal headers.

use vstd::prelude::*;
use vstd::string::*;
use crate::codec::{base64_chars, base64_encode, hmac_sha1, hmac_sha1_of};
use crate::platforms::{AttemptEnd, PostResult};
use crate::jsonx::chars_of;
use crate::strutil::{
    ascii_pairs, dec_chars, hex_digit_upper, pairs_view, push_char, sort_pairs, sort_params,
    u64_to_dec,
};

verus! {

broadcast use vstd::string::group_string_axioms;

/// An RFC 3986 unreserved character: kept as it is by percent-encoding.
pub open spec fn unreserved(c: char) -> bool {
    ('A' <= c && c <= 'Z') || ('a' <= c && c <= 'z') || ('0' <= c && c <= '9') || c == '-' || c
        == '.' || c == '_' || c == '~'
}

/// Percent-encoding of one character: unreserved characters stand, every
/// other character becomes `%` and two upper-case hexadecimal digits of its
/// low byte.
pub open spec fn percent_char(c: char) -> Seq<char> {
    if unreserved(c) {
        seq![c]
    } else {
        let b = (c as u32) % 256;
        seq!['%', hex_digit_upper(b as int / 16), hex_digit_upper(b as int % 16)]
    }
}

/// Percent-encoding of a text, character by character.
pub open spec fn percent_spec(s: Seq<char>) -> Seq<char>
    decreases s.len(),
{
    if s.len() == 0 {
        Seq::empty()
    } else {
        percent_spec(s.drop_last()) + percent_char(s.last())
    }
}

/// Percent-encoded text is ASCII, whatever went in.
pub proof fn lemma_percent_ascii(s: Seq<char>)
    ensures
        vstd::utf8::is_ascii_chars(percent_spec(s)),
    decreases s.len(),
{
    if s.len() > 0 {
        lemma_percent_ascii(s.drop_last());
    }
}

/// Upper-casing of one character, ASCII letters only.
pub open spec fn ascii_upper_char(c: char) -> char {
    if 'a' <= c && c <= 'z' {
        (((c as u32) - 32) as u8) as char
    } else {
        c
    }
}

/// Upper-casing of a text, ASCII letters only.
pub open spec fn ascii_upper_spec(s: Seq<char>) -> Seq<char>
    decreases s.len(),
{
    if s.len() == 0 {
        Seq::empty()
    } else {
        ascii_upper_spec(s.drop_last()).push(ascii_upper_char(s.last()))
    }
}

/// Encoding applied to both sides of every pair.
pub open spec fn enc_pairs(ps: Seq<(Seq<char>, Seq<char>)>) -> Seq<(Seq<char>, Seq<char>)> {
    ps.map_values(|p: (Seq<char>, Seq<char>)| (percent_spec(p.0), percent_spec(p.1)))
}

proof fn lemma_pairs_view_push(v: Seq<(String, String)>, x: (String, String))
    ensures
        pairs_view(v.push(x)) =~= pairs_view(v).push((x.0@, x.1@)),
{
}

proof fn lemma_enc_pairs_push(s: Seq<(Seq<char>, Seq<char>)>, p: (Seq<char>, Seq<char>))
    ensures
        enc_pairs(s.push(p)) =~= enc_pairs(s).push((percent_spec(p.0), percent_spec(p.1))),
{
}

/// `k=v` pairs joined with `&`.
pub open spec fn join_params(ps: Seq<(Seq<char>, Seq<char>)>) -> Seq<char>
    decreases ps.len(),
{
    if ps.len() == 0 {
        Seq::empty()
    } else if ps.len() == 1 {
        ps[0].0 + seq!['='] + ps[0].1
    } else {
        join_params(ps.drop_last()) + seq!['&'] + ps.last().0 + seq!['='] + ps.last().1
    }
}

/// The canonical OAuth parameter string: every key and value
/// percent-encoded, sorted by key with ties broken by value, joined `k=v`
/// with `&`.
pub open spec fn param_string_spec(ps: Seq<(Seq<char>, Seq<char>)>) -> Seq<char> {
    join_params(sort_pairs(enc_pairs(ps)))
}

/// The signature base string: method upper-cased, then the encoded URL, then
/// the encoded parameter string, joined with `&`.
pub open spec fn base_string_spec(
    method: Seq<char>,
    url: Seq<char>,
    ps: Seq<(Seq<char>, Seq<char>)>,
) -> Seq<char> {
    ascii_upper_spec(method) + seq!['&'] + percent_spec(url) + seq!['&'] + percent_spec(
        param_string_spec(ps),
    )
}

/// The signing key: the two encoded secrets joined with `&`.
pub open spec fn signing_key_spec(consumer_secret: Seq<char>, access_secret: Seq<char>) -> Seq<
    char,
> {
    percent_spec(consumer_secret) + seq!['&'] + percent_spec(access_secret)
}

/// The OAuth signature: base64 of the HMAC-SHA1 tag of the base string under
/// the signing key, both taken as UTF-8 bytes.
pub open spec fn oauth_signature_spec(
    consumer_secret: Seq<char>,
    access_secret: Seq<char>,
    method: Seq<char>,
    url: Seq<char>,
    ps: Seq<(Seq<char>, Seq<char>)>,
) -> Seq<char> {
    base64_chars(
        hmac_sha1_of(
            vstd::utf8::encode_utf8(signing_key_spec(consumer_secret, access_secret)),
            vstd::utf8::encode_utf8(base_string_spec(method, url, ps)),
        ),
    )
}

/// The six standard OAuth parameters for one request.
pub open spec fn oauth_base_params(
    consumer_key: Seq<char>,
    access_token: Seq<char>,
    timestamp: u64,
    nonce: Seq<char>,
) -> Seq<(Seq<char>, Seq<char>)> {
    seq![
        (("oauth_consumer_key")@, consumer_key),
        (("oauth_token")@, access_token),
        (("oauth_signature_method")@, ("HMAC-SHA1")@),
        (("oauth_timestamp")@, dec_chars(timestamp as int)),
        (("oauth_nonce")@, nonce),
        (("oauth_version")@, ("1.0")@),
    ]
}

/// One quoted header entry, `k="v"` with the value percent-encoded.
pub open spec fn header_part(k: Seq<char>, v: Seq<char>) -> Seq<char> {
    k + seq!['=', '"'] + percent_spec(v) + seq!['"']
}

/// The whole `Authorization` header value: `OAuth ` and the seven entries,
/// comma-joined in their sorted order.
pub open spec fn oauth_header_spec(
    consumer_key: Seq<char>,
    consumer_secret: Seq<char>,
    access_token: Seq<char>,
    access_secret: Seq<char>,
    method: Seq<char>,
    url: Seq<char>,
    extras: Seq<(Seq<char>, Seq<char>)>,
    timestamp: u64,
    nonce: Seq<char>,
) -> Seq<char> {
    let sig = oauth_signature_spec(
        consumer_secret,
        access_secret,
        method,
        url,
        oauth_base_params(consumer_key, access_token, timestamp, nonce) + extras,
    );
    ("OAuth ")@ + header_part(("oauth_consumer_key")@, consumer_key) + (", ")@ + header_part(
        ("oauth_nonce")@,
        nonce,
    ) + (", ")@ + header_part(("oauth_signature")@, sig) + (", ")@ + header_part(
        ("oauth_signature_method")@,
        ("HMAC-SHA1")@,
    ) + (", ")@ + header_part(("oauth_timestamp")@, dec_chars(timestamp as int)) + (", ")@
        + header_part(("oauth_token")@, access_token) + (", ")@ + header_part(
        ("oauth_version")@,
        ("1.0")@,
    )
}

/// The OAuth header is a pure function of its inputs: equal methods, URLs,
/// parameters, keys, timestamps and nonces give equal header values.
pub proof fn lemma_oauth_header_deterministic(
    consumer_key1: Seq<char>,
    consumer_secret1: Seq<char>,
    access_token1: Seq<char>,
    access_secret1: Seq<char>,
    method1: Seq<char>,
    url1: Seq<char>,
    extras1: Seq<(Seq<char>, Seq<char>)>,
    timestamp1: u64,
    nonce1: Seq<char>,
    consumer_key2: Seq<char>,
    consumer_secret2: Seq<char>,
    access_token2: Seq<char>,
    access_secret2: Seq<char>,
    method2: Seq<char>,
    url2: Seq<char>,
    extras2: Seq<(Seq<char>, Seq<char>)>,
    timestamp2: u64,
    nonce2: Seq<char>,
)
    requires
        consumer_key1 == consumer_key2,
        consumer_secret1 == consumer_secret2,
        access_token1 == access_token2,
        access_secret1 == access_secret2,
        method1 == method2,
        url1 == url2,
        extras1 == extras2,
        timestamp1 == timestamp2,
        nonce1 == nonce2,
    ensures
        oauth_header_spec(
            consumer_key1,
            consumer_secret1,
            access_token1,
            access_secret1,
            method1,
            url1,
            extras1,
            timestamp1,
            nonce1,
        ) == oauth_header_spec(
            consumer_key2,
            consumer_secret2,
            access_token2,
            access_secret2,
            method2,
            url2,
            extras2,
            timestamp2,
            nonce2,
        ),
{
}

/// The X adapter: four OAuth 1.0a secrets and the signing they drive.
pub struct TwitterPlatform {
    pub consumer_key: String,
    pub consumer_secret: String,
    pub access_token: String,
    pub access_secret: String,
}

impl TwitterPlatform {
    /// An adapter over the four OAuth secrets.
    pub fn new(consumer_key: String, consumer_secret: String, access_token: String,
        access_secret: String) -> (r: TwitterPlatform)
        ensures
            r.consumer_key == consumer_key,
            r.consumer_secret == consumer_secret,
            r.access_token == access_token,
            r.access_secret == access_secret,
    {
        TwitterPlatform { consumer_key, consumer_secret, access_token, access_secret }
    }

    /// Percent-encodes per the RFC 3986 unreserved set, as `percent_spec`
    /// lays it down.
    pub fn percent_encode(s: &str) -> (r: String)
        ensures
            r@ == percent_spec(s@),
            vstd::utf8::is_ascii_chars(r@),
    {
        let cs = chars_of(s);
        let mut out = String::new();
        let mut i: usize = 0;
        proof {
            assert(out@ =~= percent_spec(s@.take(0)));
        }
        while i < cs.len()
            invariant
                i <= cs@.len(),
                cs@ == s@,
                out@ == percent_spec(s@.take(i as int)),
            decreases cs@.len() - i,
        {
            let c = cs[i];
            if (c >= 'A' && c <= 'Z') || (c >= 'a' && c <= 'z') || (c >= '0' && c <= '9') || c
                == '-' || c == '.' || c == '_' || c == '~' {
                push_char(&mut out, c);
            } else {
                let b: u32 = (c as u32) % 256;
                push_char(&mut out, '%');
                push_char(&mut out, crate::strutil::hex_digit_upper_exec((b / 16) as u8));
                push_char(&mut out, crate::strutil::hex_digit_upper_exec((b % 16) as u8));
            }
            proof {
                assert(s@.take(i + 1).drop_last() =~= s@.take(i as int));
                assert(s@.take(i + 1).last() == s@[i as int]);
                assert(out@ =~= percent_spec(s@.take(i + 1)));
            }
            i = i + 1;
        }
        proof {
            assert(s@.take(s@.len() as int) =~= s@);
            lemma_percent_ascii(s@);
        }
        out
    }

    /// Upper-cases ASCII letters, as `ascii_upper_spec` lays it down.
    fn ascii_upper(s: &str) -> (r: String)
        ensures
            r@ == ascii_upper_spec(s@),
    {
        let cs = chars_of(s);
        let mut out = String::new();
        let mut i: usize = 0;
        proof {
            assert(out@ =~= ascii_upper_spec(s@.take(0)));
        }
        while i < cs.len()
            invariant
                i <= cs@.len(),
                cs@ == s@,
                out@ == ascii_upper_spec(s@.take(i as int)),
            decreases cs@.len() - i,
        {
            let c = cs[i];
            if c >= 'a' && c <= 'z' {
                let u: u32 = (c as u32) - 32;
                push_char(&mut out, (u as u8) as char);
            } else {
                push_char(&mut out, c);
            }
            proof {
                assert(s@.take(i + 1).drop_last() =~= s@.take(i as int));
                assert(s@.take(i + 1).last() == s@[i as int]);
                assert(out@ =~= ascii_upper_spec(s@.take(i + 1)));
            }
            i = i + 1;
        }
        proof {
            assert(s@.take(s@.len() as int) =~= s@);
        }
        out
    }

    /// The OAuth signature over the full parameter list (standard parameters
    /// and request parameters together, unencoded), as
    /// `oauth_signature_spec` lays it down.
    pub fn generate_signature(&self, method: &str, url: &str, params: &Vec<(String, String)>) -> (r:
        String)
        ensures
            r@ == oauth_signature_spec(
                self.consumer_secret@,
                self.access_secret@,
                method@,
                url@,
                pairs_view(params@),
            ),
    {
        // Encode both sides of every pair.
        let mut enc: Vec<(String, String)> = Vec::new();
        let mut i: usize = 0;
        proof {
            assert(pairs_view(enc@) =~= enc_pairs(pairs_view(params@).take(0)));
        }
        while i < params.len()
            invariant
                i <= params@.len(),
                pairs_view(enc@) == enc_pairs(pairs_view(params@).take(i as int)),
                ascii_pairs(enc@),
            decreases params@.len() - i,
        {
            let k = Self::percent_encode(params[i].0.as_str());
            let v = Self::percent_encode(params[i].1.as_str());
            let ghost pre = enc@;
            let ghost pv = pairs_view(params@);
            enc.push((k, v));
            proof {
                lemma_pairs_view_push(pre, (k, v));
                assert(pv.take(i + 1) =~= pv.take(i as int).push(pv[i as int]));
                lemma_enc_pairs_push(pv.take(i as int), pv[i as int]);
                assert(pv[i as int] == (params@[i as int].0@, params@[i as int].1@));
                assert(pairs_view(enc@) == enc_pairs(pv.take(i + 1)));
                assert(ascii_pairs(enc@));
            }
            i = i + 1;
        }
        proof {
            assert(pairs_view(params@).take(params@.len() as int) =~= pairs_view(params@));
        }
        let sorted = sort_params(enc);
        // Join the sorted pairs into the parameter string.
        let mut param_string = String::new();
        let mut j: usize = 0;
        proof {
            assert(param_string@ =~= join_params(pairs_view(sorted@).take(0)));
        }
        while j < sorted.len()
            invariant
                j <= sorted@.len(),
                ascii_pairs(sorted@),
                pairs_view(sorted@) == sort_pairs(enc_pairs(pairs_view(params@))),
                param_string@ == join_params(pairs_view(sorted@).take(j as int)),
            decreases sorted@.len() - j,
        {
            if j > 0 {
                push_char(&mut param_string, '&');
            }
            param_string.append(sorted[j].0.as_str());
            push_char(&mut param_string, '=');
            param_string.append(sorted[j].1.as_str());
            proof {
                assert(pairs_view(sorted@).take(j + 1).drop_last() =~= pairs_view(sorted@).take(
                    j as int,
                ));
                assert(pairs_view(sorted@).take(j + 1).last() == pairs_view(sorted@)[j as int]);
                assert(param_string@ =~= join_params(pairs_view(sorted@).take(j + 1)));
            }
            j = j + 1;
        }
        proof {
            assert(pairs_view(sorted@).take(sorted@.len() as int) =~= pairs_view(sorted@));
        }
        // The base string and the signing key.
        let mut base_string = Self::ascii_upper(method);
        push_char(&mut base_string, '&');
        base_string.append(Self::percent_encode(url).as_str());
        push_char(&mut base_string, '&');
        base_string.append(Self::percent_encode(param_string.as_str()).as_str());
        proof {
            assert(base_string@ =~= base_string_spec(method@, url@, pairs_view(params@)));
        }
        let mut signing_key = Self::percent_encode(self.consumer_secret.as_str());
        push_char(&mut signing_key, '&');
        signing_key.append(Self::percent_encode(self.access_secret.as_str()).as_str());
        proof {
            assert(signing_key@ =~= signing_key_spec(self.consumer_secret@, self.access_secret@));
        }
        let mac = hmac_sha1(signing_key.as_str().as_bytes(), base_string.as_str().as_bytes());
        base64_encode(mac.as_slice())
    }

    /// The `Authorization` header value for one request, as
    /// `oauth_header_spec` lays it down. Timestamp and nonce are the
    /// caller's: the header is deterministic once they are fixed.
    pub fn generate_oauth_header(&self, method: &str, url: &str, params: &Vec<(String, String)>,
        timestamp: u64, nonce: &str) -> (r: String)
        ensures
            r@ == oauth_header_spec(
                self.consumer_key@,
                self.consumer_secret@,
                self.access_token@,
                self.access_secret@,
                method@,
                url@,
                pairs_view(params@),
                timestamp,
                nonce@,
            ),
    {
        let ts = u64_to_dec(timestamp);
        // The full parameter list for the signature: the six standard
        // parameters, then the request parameters.
        let mut all: Vec<(String, String)> = Vec::new();
        all.push((String::from_str("oauth_consumer_key"), self.consumer_key.clone()));
        all.push((String::from_str("oauth_token"), self.access_token.clone()));
        all.push((String::from_str("oauth_signature_method"), String::from_str("HMAC-SHA1")));
        all.push((String::from_str("oauth_timestamp"), ts.clone()));
        all.push((String::from_str("oauth_nonce"), String::from_str(nonce)));
        all.push((String::from_str("oauth_version"), String::from_str("1.0")));
        let mut i: usize = 0;
        while i < params.len()
            invariant
                i <= params@.len(),
                pairs_view(all@) =~= oauth_base_params(
                    self.consumer_key@,
                    self.access_token@,
                    timestamp,
                    nonce@,
                ) + pairs_view(params@).take(i as int),
            decreases params@.len() - i,
        {
            let ghost pre = all@;
            let ghost pv = pairs_view(params@);
            let ghost base = oauth_base_params(
                self.consumer_key@,
                self.access_token@,
                timestamp,
                nonce@,
            );
            all.push((params[i].0.clone(), params[i].1.clone()));
            proof {
                lemma_pairs_view_push(pre, (params@[i as int].0, params@[i as int].1));
                assert(pv.take(i + 1) =~= pv.take(i as int).push(pv[i as int]));
                assert(pv[i as int] == (params@[i as int].0@, params@[i as int].1@));
                assert((base + pv.take(i as int)).push(pv[i as int]) =~= base + pv.take(i + 1));
                assert(pairs_view(all@) =~= base + pv.take(i + 1));
            }
            i = i + 1;
        }
        proof {
            assert(pairs_view(params@).take(params@.len() as int) =~= pairs_view(params@));
        }
        let sig = self.generate_signature(method, url, &all);
        // The seven header entries in their sorted order.
        let mut out = String::from_str("OAuth ");
        Self::push_header_part(&mut out, "oauth_consumer_key", self.consumer_key.as_str());
        out.append(", ");
        Self::push_header_part(&mut out, "oauth_nonce", nonce);
        out.append(", ");
        Self::push_header_part(&mut out, "oauth_signature", sig.as_str());
        out.append(", ");
        Self::push_header_part(&mut out, "oauth_signature_method", "HMAC-SHA1");
        out.append(", ");
        Self::push_header_part(&mut out, "oauth_timestamp", ts.as_str());
        out.append(", ");
        Self::push_header_part(&mut out, "oauth_token", self.access_token.as_str());
        out.append(", ");
        Self::push_header_part(&mut out, "oauth_version", "1.0");
        proof {
            assert(out@ =~= oauth_header_spec(
                self.consumer_key@,
                self.consumer_secret@,
                self.access_token@,
                self.access_secret@,
                method@,
                url@,
                pairs_view(params@),
                timestamp,
                nonce@,
            ));
        }
        out
    }

    fn push_header_part(out: &mut String, k: &str, v: &str)
        ensures
            final(out)@ == old(out)@ + header_part(k@, v@),
    {
        out.append(k);
        out.append("=\"");
        out.append(Self::percent_encode(v).as_str());
        out.append("\"");
        proof {
            reveal_strlit("=\"");
            reveal_strlit("\"");
            assert(final(out)@ =~= old(out)@ + header_part(k@, v@));
        }
    }
}

/// The byte budget for one uploaded image.
pub const IMAGE_MAX_BYTES: usize = 5000000;

/// The transcode configuration every X image goes through.
pub fn twitter_image_processor() -> (r: crate::image_utils::ImageProcessor)
    ensures
        r.max_size == Some(IMAGE_MAX_BYTES),
        r.max_dimension is None,
        !r.strip_exif,
{
    crate::image_utils::ImageProcessor::new().with_max_size(IMAGE_MAX_BYTES)
}

/// The tweet payload: the text, and the media identifier list only where at
/// least one image was uploaded.
pub open spec fn tweet_json_spec(text: Seq<char>, ids: Seq<Seq<char>>) -> Seq<char> {
    if ids.len() == 0 {
        ("{\"text\":")@ + crate::jsonx::json_quoted(text) + ("}")@
    } else {
        ("{\"text\":")@ + crate::jsonx::json_quoted(text) + (",\"media\":{\"media_ids\":[")@
            + crate::jsonx::quoted_list(ids) + ("]}}")@
    }
}

fn tweet_json(text: &str, ids: &Vec<String>) -> (r: String)
    ensures
        r@ == tweet_json_spec(text@, crate::strutil::strs_view(ids@)),
{
    let mut out = <String as StringExecFns>::from_str("{\"text\":");
    crate::jsonx::push_json_string(&mut out, text);
    if ids.len() == 0 {
        out.append("}");
        proof {
            assert(out@ =~= tweet_json_spec(text@, crate::strutil::strs_view(ids@)));
        }
        return out;
    }
    out.append(",\"media\":{\"media_ids\":[");
    let ghost mark = out@;
    let ghost sv = crate::strutil::strs_view(ids@);
    let mut i: usize = 0;
    proof {
        assert(out@ =~= mark + crate::jsonx::quoted_list(sv.take(0)));
    }
    while i < ids.len()
        invariant
            i <= ids@.len(),
            sv == crate::strutil::strs_view(ids@),
            out@ == mark + crate::jsonx::quoted_list(sv.take(i as int)),
        decreases ids@.len() - i,
    {
        if i > 0 {
            push_char(&mut out, ',');
        }
        crate::jsonx::push_json_string(&mut out, ids[i].as_str());
        proof {
            assert(sv.take(i + 1).drop_last() =~= sv.take(i as int));
            assert(sv.take(i + 1).last() == ids@[i as int]@);
            assert(out@ =~= mark + crate::jsonx::quoted_list(sv.take(i + 1)));
        }
        i = i + 1;
    }
    out.append("]}}");
    proof {
        assert(sv.take(ids@.len() as int) =~= sv);
        assert(out@ =~= tweet_json_spec(text@, sv));
    }
    out
}

/// What the driver is asked to do next for an X post. The driver signs each
/// request itself with `generate_oauth_header`, timestamp and nonce being
/// its own.
pub enum TwitterAction {
    /// Transcode the image at `index` under `twitter_image_processor` and
    /// POST it as a signed multipart form to `url`.
    UploadMedia { index: usize, url: String },
    /// POST the signed JSON `body` to `url`.
    PostTweet { url: String, body: String },
    /// The attempt is over.
    Finished { end: AttemptEnd },
}

/// What the driver reports back.
pub enum TwitterEvent {
    /// Transcoding the current image failed with this description.
    ProcessFailed { message: String },
    /// The media endpoint accepted the image and returned an identifier.
    MediaUploaded { media_id: String },
    /// The media endpoint answered with a failure body.
    MediaRejected { body: String },
    /// The media upload never completed.
    MediaTransport { message: String },
    /// The tweet endpoint accepted the post.
    TweetPosted,
    /// The tweet endpoint answered with a failure body.
    TweetRejected { body: String },
    /// The tweet request never completed.
    Transport { message: String },
}

/// One X post attempt: upload every image in order, then post the tweet. The
/// first upload failure aborts the post; a transcode failure is a local
/// fault, as the original flow raised it.
pub struct TwitterPost {
    pub text: String,
    pub n_images: usize,
    pub idx: usize,
    pub media_ids: Vec<String>,
    pub done: bool,
}

impl TwitterPost {
    /// The machine's bookkeeping is consistent.
    pub open spec fn wf(&self) -> bool {
        self.idx <= self.n_images && self.media_ids@.len() == self.idx
    }

    /// Whether the machine is still uploading images.
    pub open spec fn uploading(&self) -> bool {
        self.idx < self.n_images
    }

    /// The action that carries the attempt on: the next image upload, or the
    /// tweet once every image is up.
    pub open spec fn continue_post(&self, r: TwitterAction) -> bool {
        if self.idx < self.n_images {
            r matches TwitterAction::UploadMedia { index, url } && index == self.idx && url@ == (
            "https://upload.twitter.com/1.1/media/upload.json")@
        } else {
            r matches TwitterAction::PostTweet { url, body } && url@ == (
            "https://api.twitter.com/2/tweets")@ && body@ == tweet_json_spec(
                self.text@,
                crate::strutil::strs_view(self.media_ids@),
            )
        }
    }

    fn advance(&self) -> (r: TwitterAction)
        requires
            self.wf(),
        ensures
            self.continue_post(r),
    {
        if self.idx < self.n_images {
            TwitterAction::UploadMedia {
                index: self.idx,
                url: <String as StringExecFns>::from_str(
                    "https://upload.twitter.com/1.1/media/upload.json",
                ),
            }
        } else {
            TwitterAction::PostTweet {
                url: <String as StringExecFns>::from_str("https://api.twitter.com/2/tweets"),
                body: tweet_json(self.text.as_str(), &self.media_ids),
            }
        }
    }

    /// Begins one attempt: the first image's upload, or the tweet where
    /// there are no images.
    pub fn start(post: &crate::platforms::Post) -> (r: (TwitterPost, TwitterAction))
        ensures
            r.0.wf(),
            !r.0.done,
            r.0.text == post.text,
            r.0.n_images == post.images@.len(),
            r.0.idx == 0,
            r.0.continue_post(r.1),
    {
        let state = TwitterPost {
            text: post.text.clone(),
            n_images: post.images.len(),
            idx: 0,
            media_ids: Vec::new(),
            done: false,
        };
        let action = state.advance();
        (state, action)
    }

    /// Advances the attempt by one reported event. The first upload or
    /// transcode failure ends the attempt; an accepted upload moves on; the
    /// tweet's outcome ends it.
    pub fn step(&mut self, event: TwitterEvent) -> (r: TwitterAction)
        requires
            old(self).wf(),
            !old(self).done,
            (event is ProcessFailed || event is MediaUploaded || event is MediaRejected || event
                is MediaTransport) ==> old(self).uploading(),
            (event is TweetPosted || event is TweetRejected) ==> !old(self).uploading(),
        ensures
            final(self).wf(),
            final(self).text == old(self).text,
            final(self).n_images == old(self).n_images,
            event matches TwitterEvent::ProcessFailed { message } ==> {
                &&& final(self).done
                &&& r matches TwitterAction::Finished { end } && end matches AttemptEnd::Fault {
                    message: m,
                } && m == message
            },
            event matches TwitterEvent::MediaUploaded { media_id } ==> {
                &&& !final(self).done
                &&& final(self).idx == old(self).idx + 1
                &&& crate::strutil::strs_view(final(self).media_ids@)
                    == crate::strutil::strs_view(old(self).media_ids@).push(media_id@)
                &&& final(self).continue_post(r)
            },
            event matches TwitterEvent::MediaRejected { body } ==> {
                &&& final(self).done
                &&& r matches TwitterAction::Finished { end } && end
                    matches AttemptEnd::Returned(PostResult::Error { message }) && message@ == (
                "Failed to upload image: Failed to upload media: ")@ + body@
            },
            event matches TwitterEvent::MediaTransport { message } ==> {
                &&& final(self).done
                &&& r matches TwitterAction::Finished { end } && end
                    matches AttemptEnd::Returned(PostResult::Error { message: m }) && m@ == (
                "Failed to upload image: ")@ + message@
            },
            event is TweetPosted ==> {
                &&& final(self).done
                &&& r matches TwitterAction::Finished { end } && end
                    matches AttemptEnd::Returned(PostResult::Success { url }) && url
                    matches Some(u) && u@ == ("Posted to X")@
            },
            event matches TwitterEvent::TweetRejected { body } ==> {
                &&& final(self).done
                &&& r matches TwitterAction::Finished { end } && end
                    matches AttemptEnd::Returned(PostResult::Error { message }) && message@ == (
                "Failed to post: ")@ + body@
            },
            event matches TwitterEvent::Transport { message } ==> {
                &&& final(self).done
                &&& r matches TwitterAction::Finished { end } && end matches AttemptEnd::Fault {
                    message: m,
                } && m == message
            },
    {
        match event {
            TwitterEvent::ProcessFailed { message } => {
                self.done = true;
                TwitterAction::Finished { end: AttemptEnd::Fault { message } }
            },
            TwitterEvent::MediaUploaded { media_id } => {
                let ghost pre = crate::strutil::strs_view(self.media_ids@);
                self.media_ids.push(media_id);
                self.idx = self.idx + 1;
                proof {
                    assert(crate::strutil::strs_view(self.media_ids@) =~= pre.push(
                        self.media_ids@.last()@,
                    ));
                }
                self.advance()
            },
            TwitterEvent::MediaRejected { body } => {
                self.done = true;
                let mut message = <String as StringExecFns>::from_str(
                    "Failed to upload image: Failed to upload media: ",
                );
                message.append(body.as_str());
                TwitterAction::Finished {
                    end: AttemptEnd::Returned(PostResult::Error { message }),
                }
            },
            TwitterEvent::MediaTransport { message } => {
                self.done = true;
                let mut m = <String as StringExecFns>::from_str("Failed to upload image: ");
                m.append(message.as_str());
                TwitterAction::Finished {
                    end: AttemptEnd::Returned(PostResult::Error { message: m }),
                }
            },
            TwitterEvent::TweetPosted => {
                self.done = true;
                TwitterAction::Finished {
                    end: AttemptEnd::Returned(
                        PostResult::Success {
                            url: Some(<String as StringExecFns>::from_str("Posted to X")),
                        },
                    ),
                }
            },
            TwitterEvent::TweetRejected { body } => {
                self.done = true;
                let mut message = <String as StringExecFns>::from_str("Failed to post: ");
                message.append(body.as_str());
                TwitterAction::Finished {
                    end: AttemptEnd::Returned(PostResult::Error { message }),
                }
            },
            TwitterEvent::Transport { message } => {
                self.done = true;
                TwitterAction::Finished { end: AttemptEnd::Fault { message } }
            },
        }
    }
}

impl crate::platforms::Platform for TwitterPlatform {
    open spec fn spec_name(&self) -> Seq<char> {
        ("X")@
    }

    open spec fn spec_ready(&self) -> bool {
        self.consumer_key@.len() > 0 && self.consumer_secret@.len() > 0 && self.access_token@.len()
            > 0 && self.access_secret@.len() > 0
    }

    fn name(&self) -> (r: String) {
        String::from_str("X")
    }

    fn is_authenticated(&self) -> (r: bool) {
        !self.consumer_key.as_str().is_empty() && !self.consumer_secret.as_str().is_empty()
            && !self.access_token.as_str().is_empty() && !self.access_secret.as_str().is_empty()
    }
}

} // verus!
