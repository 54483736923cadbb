//! Which platforms a post goes to by default. Persisting this choice is the
//! surrounding application's business.

use vstd::prelude::*;

verus! {

/// Per-platform selection flags.
#[derive(Debug, Clone, PartialEq, Eq, Structural)]
pub struct Config {
    pub post_to_x: bool,
    pub post_to_bluesky: bool,
    pub post_to_nostr: bool,
    pub post_to_mastodon: bool,
}

impl Default for Config {
    /// Every platform starts deselected.
    fn default() -> (r: Config)
        ensures
            !r.post_to_x,
            !r.post_to_bluesky,
            !r.post_to_nostr,
            !r.post_to_mastodon,
    {
        Config { post_to_x: false, post_to_bluesky: false, post_to_nostr: false, post_to_mastodon: false }
    }
}

} // verus!
