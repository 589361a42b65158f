//! Feed identifiers.

pub mod us;
pub mod xx;

pub use us::Feed as Us;
pub use xx::Feed as Internal;

use vstd::prelude::*;

use crate::group::Group;

verus! {

/// A feed identifier: two bytes as the native library reports them.
#[derive(Clone, Copy, Debug)]
pub struct Id {
    /// The two identifier bytes.
    pub bytes: [u8; 2],
}

/// A trait for group-specific feed tables.
pub trait Feed: Sized {
    /// Whether the operating-MIC table has an entry for this feed.
    spec fn mic_known(&self) -> bool;

    /// The operating MIC the table gives for this feed, if any.
    spec fn spec_mic(&self) -> Option<i32>;

    /// The feed group this feed is part of.
    spec fn spec_group(&self) -> Group;

    /// Retrieve the SGMT or operating MIC for a given feed.
    fn mic(&self) -> (r: Option<i32>)
        requires
            self.mic_known(),
        ensures
            r == self.spec_mic(),
    ;

    /// Retrieve the feed group ("country") this feed is part of.
    fn group(&self) -> (r: Group)
        ensures
            r == self.spec_group(),
    ;
}

} // verus!
