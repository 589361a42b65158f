//! Feed codes for the vendor-internal group.

use vstd::prelude::*;

use super::{Feed as FeedTrait, Id};
use crate::group::{Corporate, Group};

verus! {

/// Vendor-internal feed codes.
#[derive(Clone, Copy, Debug, PartialEq, Eq, Structural)]
pub enum Feed {
    /// Baskets (Level 1)
    Baskets,
    /// Filtered exchange keylists (Level 1)
    FilteredExchangeKeylists,
    /// User-defined composite keylists (Level 1)
    UserKeylists,
    /// Options chain keylists (Level 1)
    OptionsChainKeylists,
    /// Hardware pass-through (Level 1)
    Passthrough,
    /// Filtered keylists (Level 1)
    FilteredKeylists,
    /// Filtered subscribed keylists (Level 1)
    FilteredSubscribedKeylists,
    /// Keylists (Level 1)
    Keylists,
    /// Broadcast exchange (Level 1)
    Broadcast,
    /// User-defined quote montage (Level 1)
    Montage,
    /// User-defined composite (Level 1)
    Composite,
}

/// The table of vendor-internal feed codes, as one spec-level lookup
/// over the two identifier bytes.
pub open spec fn spec_feed_of(a: u8, b: u8) -> Option<Feed> {
    if a == 0x42 && b == 0x58 {
        Some(Feed::Baskets)
    } else if a == 0x45 && b == 0x58 {
        Some(Feed::FilteredExchangeKeylists)
    } else if a == 0x49 && b == 0x58 {
        Some(Feed::UserKeylists)
    } else if a == 0x4f && b == 0x58 {
        Some(Feed::OptionsChainKeylists)
    } else if a == 0x50 && b == 0x58 {
        Some(Feed::Passthrough)
    } else if a == 0x52 && b == 0x58 {
        Some(Feed::FilteredKeylists)
    } else if a == 0x53 && b == 0x58 {
        Some(Feed::FilteredSubscribedKeylists)
    } else if a == 0x55 && b == 0x58 {
        Some(Feed::Keylists)
    } else if a == 0x5c && b == 0x42 {
        Some(Feed::Broadcast)
    } else if a == 0x5c && b == 0x4e {
        Some(Feed::Montage)
    } else if a == 0x5c && b == 0x55 {
        Some(Feed::Composite)
    } else {
        None
    }
}

impl Feed {
    /// Look the two identifier bytes up in the feed table.
    pub fn try_from_bytes(a: u8, b: u8) -> (r: Option<Feed>)
        ensures
            r == spec_feed_of(a, b),
    {
        if a == 0x42 && b == 0x58 {
            Some(Feed::Baskets)
        } else if a == 0x45 && b == 0x58 {
            Some(Feed::FilteredExchangeKeylists)
        } else if a == 0x49 && b == 0x58 {
            Some(Feed::UserKeylists)
        } else if a == 0x4f && b == 0x58 {
            Some(Feed::OptionsChainKeylists)
        } else if a == 0x50 && b == 0x58 {
            Some(Feed::Passthrough)
        } else if a == 0x52 && b == 0x58 {
            Some(Feed::FilteredKeylists)
        } else if a == 0x53 && b == 0x58 {
            Some(Feed::FilteredSubscribedKeylists)
        } else if a == 0x55 && b == 0x58 {
            Some(Feed::Keylists)
        } else if a == 0x5c && b == 0x42 {
            Some(Feed::Broadcast)
        } else if a == 0x5c && b == 0x4e {
            Some(Feed::Montage)
        } else if a == 0x5c && b == 0x55 {
            Some(Feed::Composite)
        } else {
            None
        }
    }

    /// Look a feed identifier up in the feed table.
    pub fn try_from_id(id: &Id) -> (r: Option<Feed>)
        ensures
            r == spec_feed_of(id.bytes@[0], id.bytes@[1]),
    {
        Self::try_from_bytes(id.bytes[0], id.bytes[1])
    }
}

impl FeedTrait for Feed {
    /// No vendor-internal feed has an operating MIC, so the table is
    /// complete for all of them.
    open spec fn mic_known(&self) -> bool {
        true
    }

    open spec fn spec_mic(&self) -> Option<i32> {
        None
    }

    open spec fn spec_group(&self) -> Group {
        Group::Corporate(Corporate::ExegyInternal)
    }

    fn mic(&self) -> (r: Option<i32>) {
        None
    }

    fn group(&self) -> (r: Group) {
        Group::Corporate(Corporate::ExegyInternal)
    }
}

} // verus!
