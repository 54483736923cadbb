//! The shared shape of a posting attempt: the post itself, the per-platform
//! result, the aggregated outcome, and the capability contract every platform
//! adapter satisfies.

use vstd::prelude::*;
use vstd::string::*;

verus! {

broadcast use vstd::string::group_string_axioms;

/// The `Authorization` header value for a bearer token.
pub open spec fn bearer_spec(token: Seq<char>) -> Seq<char> {
    ("Bearer ")@ + token
}

/// `Bearer ` followed by the token.
pub fn bearer_value(token: &str) -> (r: String)
    ensures
        r@ == bearer_spec(token@),
{
    let mut out = <String as StringExecFns>::from_str("Bearer ");
    out.append(token);
    out
}

/// A post: text and the raw bytes of any attached images, in order.
#[derive(Debug, Clone)]
pub struct Post {
    pub text: String,
    pub images: Vec<Vec<u8>>,
}

/// What one platform reported for one post attempt.
#[derive(Debug, Clone)]
pub enum PostResult {
    Success { url: Option<String> },
    Error { message: String },
}

/// How one platform's attempt ended: with a result the protocol produced, or
/// with a local fault that would have been raised to the caller.
#[derive(Debug, Clone)]
pub enum AttemptEnd {
    Returned(PostResult),
    Fault { message: String },
}

/// One line of the aggregated dispatch report.
#[derive(Debug, Clone)]
pub struct PostOutcome {
    pub platform_name: String,
    pub success: bool,
    pub detail: String,
}

/// The capability contract of a platform adapter: a fixed name, and a
/// readiness predicate over its credential material. Readiness is pure; where
/// a platform's notion of ready also needs a reachability probe (the remote
/// signer), the caller makes that probe itself.
pub trait Platform {
    /// The platform's display name.
    spec fn spec_name(&self) -> Seq<char>;

    /// Whether the credential material is complete enough to try a post.
    spec fn spec_ready(&self) -> bool;

    fn name(&self) -> (r: String)
        ensures
            r@ == self.spec_name(),
    ;

    fn is_authenticated(&self) -> (r: bool)
        ensures
            r == self.spec_ready(),
    ;
}

} // verus!
