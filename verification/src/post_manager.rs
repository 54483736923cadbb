//! The dispatcher: select platforms from the caller's ordered name list and
//! the credentials, build each selected platform's adapter, and fold the
//! per-platform attempt ends into one outcome list. Outcomes stand in the
//! order the names were given; a platform whose credential is incomplete is
//! skipped with a fixed outcome and never attempted; no attempt's failure
//! touches any other outcome.

use vstd::prelude::*;
use vstd::string::*;
use crate::bluesky::BlueSkyPlatform;
use crate::credentials::Credentials;
use crate::mastodon::MastodonPlatform;
use crate::strutil::trim_trailing_slashes;
use crate::nostr::{NostrAuth, NostrPlatform};
use crate::platforms::{AttemptEnd, PostOutcome, PostResult};
use crate::strutil::{clone_string_vec, strs_view};
use crate::twitter::TwitterPlatform;

verus! {

broadcast use vstd::string::group_string_axioms;

/// The four platforms a dispatch can target.
#[derive(Debug, Clone, Copy, PartialEq, Eq, Structural)]
pub enum PlatformType {
    X,
    BlueSky,
    Nostr,
    Mastodon,
}

/// The display name of a platform.
pub open spec fn platform_name_spec(t: PlatformType) -> Seq<char> {
    match t {
        PlatformType::X => ("X")@,
        PlatformType::BlueSky => ("BlueSky")@,
        PlatformType::Nostr => ("Nostr")@,
        PlatformType::Mastodon => ("Mastodon")@,
    }
}

/// The platform a caller-supplied name selects, if any.
pub open spec fn target_of(name: Seq<char>) -> Option<PlatformType> {
    if name == ("X")@ {
        Some(PlatformType::X)
    } else if name == ("BlueSky")@ {
        Some(PlatformType::BlueSky)
    } else if name == ("Nostr")@ {
        Some(PlatformType::Nostr)
    } else if name == ("Mastodon")@ {
        Some(PlatformType::Mastodon)
    } else {
        None
    }
}

/// Whether the credentials configure a platform.
pub open spec fn configured_spec(creds: Credentials, t: PlatformType) -> bool {
    match t {
        PlatformType::X => creds.spec_has_twitter(),
        PlatformType::BlueSky => creds.spec_has_bluesky(),
        PlatformType::Nostr => creds.spec_has_nostr(),
        PlatformType::Mastodon => creds.spec_has_mastodon(),
    }
}

/// One step of a dispatch plan: a platform skipped with a ready outcome, or
/// a platform to attempt.
pub enum DispatchTask {
    Skip { name: String, detail: String },
    Attempt { target: PlatformType },
}

/// The specification-level shape of one step.
pub enum TaskV {
    SkipV { name: Seq<char>, detail: Seq<char> },
    AttemptV { target: PlatformType },
}

/// View of one step.
pub open spec fn task_view(t: DispatchTask) -> TaskV {
    match t {
        DispatchTask::Skip { name, detail } => TaskV::SkipV { name: name@, detail: detail@ },
        DispatchTask::Attempt { target } => TaskV::AttemptV { target },
    }
}

/// View of a plan.
pub open spec fn tasks_view(v: Seq<DispatchTask>) -> Seq<TaskV> {
    v.map_values(|t: DispatchTask| task_view(t))
}

/// The plan for an ordered name list: unknown names are dropped, configured
/// platforms become attempts, and the rest are skipped with the fixed
/// not-configured outcome — in the callers' order.
pub open spec fn plan_spec(creds: Credentials, names: Seq<Seq<char>>) -> Seq<TaskV>
    decreases names.len(),
{
    if names.len() == 0 {
        Seq::empty()
    } else {
        plan_spec(creds, names.drop_last()) + (match target_of(names.last()) {
            Some(t) => if configured_spec(creds, t) {
                seq![TaskV::AttemptV { target: t }]
            } else {
                seq![TaskV::SkipV { name: names.last(), detail: ("Not configured")@ }]
            },
            None => Seq::empty(),
        })
    }
}

/// How many attempts a plan holds.
pub open spec fn count_attempts(tasks: Seq<TaskV>) -> nat
    decreases tasks.len(),
{
    if tasks.len() == 0 {
        0
    } else {
        (match tasks[0] {
            TaskV::AttemptV { .. } => 1 as nat,
            TaskV::SkipV { .. } => 0 as nat,
        }) + count_attempts(tasks.drop_first())
    }
}

/// View of one outcome line.
pub open spec fn outcome_view(o: PostOutcome) -> (Seq<char>, bool, Seq<char>) {
    (o.platform_name@, o.success, o.detail@)
}

/// View of an outcome list.
pub open spec fn outcomes_view(v: Seq<PostOutcome>) -> Seq<(Seq<char>, bool, Seq<char>)> {
    v.map_values(|o: PostOutcome| outcome_view(o))
}

/// The outcome line for one attempt's end: a returned success becomes the
/// URL (or the fixed success note), a returned error its message, and a
/// local fault its message behind `Error: `.
pub open spec fn end_outcome_spec(t: PlatformType, end: AttemptEnd) -> (Seq<char>, bool, Seq<
    char,
>) {
    match end {
        AttemptEnd::Returned(PostResult::Success { url }) => (
            platform_name_spec(t),
            true,
            match url {
                Some(u) => u@,
                None => ("Posted successfully")@,
            },
        ),
        AttemptEnd::Returned(PostResult::Error { message }) => (
            platform_name_spec(t),
            false,
            message@,
        ),
        AttemptEnd::Fault { message } => (platform_name_spec(t), false, ("Error: ")@ + message@),
    }
}

/// The outcome lines for a plan and its attempts' ends, in plan order: each
/// skip keeps its fixed line, and each attempt consumes the next end.
pub open spec fn collect_spec(tasks: Seq<TaskV>, ends: Seq<AttemptEnd>) -> Seq<(
    Seq<char>,
    bool,
    Seq<char>,
)>
    decreases tasks.len(),
{
    if tasks.len() == 0 {
        Seq::empty()
    } else {
        match tasks[0] {
            TaskV::SkipV { name, detail } => seq![(name, false, detail)] + collect_spec(
                tasks.drop_first(),
                ends,
            ),
            TaskV::AttemptV { target } => seq![end_outcome_spec(target, ends[0])] + collect_spec(
                tasks.drop_first(),
                ends.drop_first(),
            ),
        }
    }
}

/// Every step of the plan yields exactly one outcome line, whatever each
/// attempt's end was: one platform's failure never takes another platform's
/// line away.
pub proof fn lemma_collect_len(tasks: Seq<TaskV>, ends: Seq<AttemptEnd>)
    requires
        count_attempts(tasks) <= ends.len(),
    ensures
        collect_spec(tasks, ends).len() == tasks.len(),
    decreases tasks.len(),
{
    if tasks.len() > 0 {
        match tasks[0] {
            TaskV::SkipV { .. } => {
                lemma_collect_len(tasks.drop_first(), ends);
            },
            TaskV::AttemptV { .. } => {
                lemma_collect_len(tasks.drop_first(), ends.drop_first());
            },
        }
    }
}

/// The display name of a platform.
pub fn platform_name(t: PlatformType) -> (r: String)
    ensures
        r@ == platform_name_spec(t),
{
    match t {
        PlatformType::X => <String as StringExecFns>::from_str("X"),
        PlatformType::BlueSky => <String as StringExecFns>::from_str("BlueSky"),
        PlatformType::Nostr => <String as StringExecFns>::from_str("Nostr"),
        PlatformType::Mastodon => <String as StringExecFns>::from_str("Mastodon"),
    }
}

/// The outcome line for one attempt's end.
pub fn end_outcome(t: PlatformType, end: &AttemptEnd) -> (r: PostOutcome)
    ensures
        outcome_view(r) == end_outcome_spec(t, *end),
{
    let name = platform_name(t);
    match end {
        AttemptEnd::Returned(PostResult::Success { url }) => {
            let detail = match url {
                Some(u) => u.clone(),
                None => <String as StringExecFns>::from_str("Posted successfully"),
            };
            PostOutcome { platform_name: name, success: true, detail }
        },
        AttemptEnd::Returned(PostResult::Error { message }) => {
            PostOutcome { platform_name: name, success: false, detail: message.clone() }
        },
        AttemptEnd::Fault { message } => {
            let mut detail = <String as StringExecFns>::from_str("Error: ");
            detail.append(message.as_str());
            PostOutcome { platform_name: name, success: false, detail }
        },
    }
}

/// The dispatcher: the credential set one dispatch reads.
pub struct PostManager {
    pub credentials: Credentials,
}

impl PostManager {
    /// A dispatcher over a credential set.
    pub fn new(credentials: Credentials) -> (r: PostManager)
        ensures
            r.credentials == credentials,
    {
        PostManager { credentials }
    }

    /// The plan for an ordered name list, as `plan_spec` lays it down:
    /// outcomes will stand in the callers' order, unknown names are dropped,
    /// and an unconfigured platform is skipped with the fixed
    /// not-configured outcome rather than attempted.
    pub fn plan(&self, platforms: &Vec<String>) -> (r: Vec<DispatchTask>)
        ensures
            tasks_view(r@) == plan_spec(self.credentials, strs_view(platforms@)),
    {
        let mut out: Vec<DispatchTask> = Vec::new();
        let mut i: usize = 0;
        proof {
            assert(tasks_view(out@) =~= plan_spec(self.credentials, strs_view(platforms@).take(0)));
        }
        while i < platforms.len()
            invariant
                i <= platforms@.len(),
                tasks_view(out@) == plan_spec(
                    self.credentials,
                    strs_view(platforms@).take(i as int),
                ),
            decreases platforms@.len() - i,
        {
            let name = &platforms[i];
            let target: Option<PlatformType> = if *name == <String as StringExecFns>::from_str(
                "X",
            ) {
                Some(PlatformType::X)
            } else if *name == <String as StringExecFns>::from_str("BlueSky") {
                Some(PlatformType::BlueSky)
            } else if *name == <String as StringExecFns>::from_str("Nostr") {
                Some(PlatformType::Nostr)
            } else if *name == <String as StringExecFns>::from_str("Mastodon") {
                Some(PlatformType::Mastodon)
            } else {
                None
            };
            let ghost pre = out@;
            match target {
                Some(t) => {
                    let ok = match t {
                        PlatformType::X => self.credentials.has_twitter(),
                        PlatformType::BlueSky => self.credentials.has_bluesky(),
                        PlatformType::Nostr => self.credentials.has_nostr(),
                        PlatformType::Mastodon => self.credentials.has_mastodon(),
                    };
                    if ok {
                        out.push(DispatchTask::Attempt { target: t });
                    } else {
                        out.push(
                            DispatchTask::Skip {
                                name: name.clone(),
                                detail: <String as StringExecFns>::from_str("Not configured"),
                            },
                        );
                    }
                },
                None => {},
            }
            proof {
                let ns = strs_view(platforms@);
                assert(ns.take(i + 1).drop_last() =~= ns.take(i as int));
                assert(ns.take(i + 1).last() == platforms@[i as int]@);
                assert(tasks_view(out@) =~= plan_spec(self.credentials, ns.take(i + 1)));
            }
            i = i + 1;
        }
        proof {
            assert(strs_view(platforms@).take(platforms@.len() as int) =~= strs_view(platforms@));
        }
        out
    }

    /// Folds a plan and its attempts' ends into the outcome list, in plan
    /// order, as `collect_spec` lays it down. Each attempt consumes one end;
    /// the ends stand in the order the attempts were made.
    pub fn collect(&self, plan: &Vec<DispatchTask>, ends: &Vec<AttemptEnd>) -> (r: Vec<
        PostOutcome,
    >)
        requires
            count_attempts(tasks_view(plan@)) == ends@.len(),
        ensures
            outcomes_view(r@) == collect_spec(tasks_view(plan@), ends@),
            r@.len() == plan@.len(),
    {
        let ghost tv = tasks_view(plan@);
        let n_ends = ends.len();
        let mut out: Vec<PostOutcome> = Vec::new();
        let mut i: usize = 0;
        let mut j: usize = 0;
        proof {
            assert(tv.skip(0) =~= tv);
            assert(ends@.skip(0) =~= ends@);
            assert(collect_spec(tv, ends@) =~= outcomes_view(out@) + collect_spec(
                tv.skip(0),
                ends@.skip(0),
            ));
        }
        while i < plan.len()
            invariant
                i <= plan@.len(),
                j <= ends@.len(),
                n_ends == ends@.len(),
                tv == tasks_view(plan@),
                out@.len() == i,
                count_attempts(tv.skip(i as int)) == ends@.len() - j,
                collect_spec(tv, ends@) == outcomes_view(out@) + collect_spec(
                    tv.skip(i as int),
                    ends@.skip(j as int),
                ),
            decreases plan@.len() - i,
        {
            proof {
                assert(tv.skip(i as int)[0] == tv[i as int]);
                assert(tv.skip(i as int).drop_first() =~= tv.skip(i + 1));
            }
            let ghost pre = out@;
            match &plan[i] {
                DispatchTask::Skip { name, detail } => {
                    out.push(
                        PostOutcome {
                            platform_name: name.clone(),
                            success: false,
                            detail: detail.clone(),
                        },
                    );
                    proof {
                        assert(outcomes_view(out@) =~= outcomes_view(pre).push(
                            (tv[i as int]->SkipV_name, false, tv[i as int]->SkipV_detail),
                        ));
                        assert(collect_spec(tv.skip(i as int), ends@.skip(j as int)) =~= seq![
                            (tv[i as int]->SkipV_name, false, tv[i as int]->SkipV_detail),
                        ] + collect_spec(tv.skip(i + 1), ends@.skip(j as int)));
                        assert(collect_spec(tv, ends@) =~= outcomes_view(out@) + collect_spec(
                            tv.skip(i + 1),
                            ends@.skip(j as int),
                        ));
                    }
                },
                DispatchTask::Attempt { target } => {
                    proof {
                        assert(tv.skip(i as int)[0] == tv[i as int]);
                        assert(tv[i as int] is AttemptV);
                        assert(count_attempts(tv.skip(i as int)) == 1 + count_attempts(
                            tv.skip(i as int).drop_first(),
                        ));
                        assert(count_attempts(tv.skip(i as int)) >= 1);
                        assert(j < ends@.len());
                        assert(ends@.skip(j as int)[0] == ends@[j as int]);
                        assert(ends@.skip(j as int).drop_first() =~= ends@.skip(j + 1));
                    }
                    let o = end_outcome(*target, &ends[j]);
                    out.push(o);
                    j = j + 1;
                    proof {
                        assert(outcomes_view(out@) =~= outcomes_view(pre).push(
                            end_outcome_spec(tv[i as int]->AttemptV_target, ends@[j - 1]),
                        ));
                        assert(collect_spec(tv, ends@) =~= outcomes_view(out@) + collect_spec(
                            tv.skip(i + 1),
                            ends@.skip(j as int),
                        ));
                    }
                },
            }
            i = i + 1;
        }
        proof {
            assert(tv.skip(plan@.len() as int).len() == 0);
            assert(collect_spec(tv.skip(plan@.len() as int), ends@.skip(j as int)) =~= Seq::<(
                Seq<char>,
                bool,
                Seq<char>,
            )>::empty());
            assert(outcomes_view(out@) =~= collect_spec(tv, ends@));
        }
        out
    }

    /// The X adapter the credentials describe.
    pub fn twitter_platform(&self) -> (r: TwitterPlatform)
        requires
            self.credentials.spec_has_twitter(),
        ensures
            r.consumer_key == self.credentials.twitter_consumer_key->0,
            r.consumer_secret == self.credentials.twitter_consumer_secret->0,
            r.access_token == self.credentials.twitter_access_token->0,
            r.access_secret == self.credentials.twitter_access_secret->0,
    {
        TwitterPlatform::new(
            clone_some(&self.credentials.twitter_consumer_key),
            clone_some(&self.credentials.twitter_consumer_secret),
            clone_some(&self.credentials.twitter_access_token),
            clone_some(&self.credentials.twitter_access_secret),
        )
    }

    /// The BlueSky adapter the credentials describe, with no session yet.
    pub fn bluesky_platform(&self) -> (r: BlueSkyPlatform)
        requires
            self.credentials.spec_has_bluesky(),
        ensures
            r.handle == self.credentials.bluesky_handle->0,
            r.app_password == self.credentials.bluesky_app_password->0,
            r.access_token is None,
    {
        BlueSkyPlatform::new(
            clone_some(&self.credentials.bluesky_handle),
            clone_some(&self.credentials.bluesky_app_password),
        )
    }

    /// The Mastodon adapter the credentials describe.
    pub fn mastodon_platform(&self) -> (r: MastodonPlatform)
        requires
            self.credentials.spec_has_mastodon(),
        ensures
            r.instance_url@ == trim_trailing_slashes(
                self.credentials.mastodon_instance_url->0@,
            ),
            r.access_token == self.credentials.mastodon_access_token->0,
    {
        MastodonPlatform::new(
            clone_some(&self.credentials.mastodon_instance_url),
            clone_some(&self.credentials.mastodon_access_token),
        )
    }

    /// The Nostr adapter the credentials describe: the remote signer where
    /// chosen, otherwise the local key; the configured relays, or the three
    /// well-known defaults where none are; and the optional image host.
    pub fn nostr_platform(&self) -> (r: NostrPlatform)
        requires
            self.credentials.spec_has_nostr(),
        ensures
            self.credentials.nostr_use_pleb_signer ==> r.auth is PlebSigner,
            !self.credentials.nostr_use_pleb_signer ==> (r.auth matches NostrAuth::Nsec(k) && k
                == self.credentials.nostr_nsec->0),
            self.credentials.nostr_relays@.len() > 0 ==> r.relays@
                == self.credentials.nostr_relays@,
            self.credentials.nostr_relays@.len() == 0 ==> strs_view(r.relays@) == seq![
                ("wss://relay.primal.net")@,
                ("wss://relay.damus.io")@,
                ("wss://relay.pleb.one")@,
            ],
            r.image_host_url == self.credentials.nostr_image_host_url,
    {
        let auth = if self.credentials.nostr_use_pleb_signer {
            NostrAuth::PlebSigner
        } else {
            NostrAuth::Nsec(clone_some(&self.credentials.nostr_nsec))
        };
        let relays: Vec<String> = if self.credentials.nostr_relays.len() == 0 {
            let mut v: Vec<String> = Vec::new();
            v.push(<String as StringExecFns>::from_str("wss://relay.primal.net"));
            v.push(<String as StringExecFns>::from_str("wss://relay.damus.io"));
            v.push(<String as StringExecFns>::from_str("wss://relay.pleb.one"));
            proof {
                assert(strs_view(v@) =~= seq![
                    ("wss://relay.primal.net")@,
                    ("wss://relay.damus.io")@,
                    ("wss://relay.pleb.one")@,
                ]);
            }
            v
        } else {
            clone_string_vec(&self.credentials.nostr_relays)
        };
        let image_host = match &self.credentials.nostr_image_host_url {
            Some(u) => Some(u.clone()),
            None => None,
        };
        NostrPlatform::new(auth, relays, image_host)
    }
}

/// The contained string, which the callers' `requires` guarantee present.
fn clone_some(o: &Option<String>) -> (r: String)
    requires
        o is Some,
    ensures
        r == o->0,
{
    match o {
        Some(s) => s.clone(),
        None => unreached(),
    }
}

} // verus!
