//! The two requests a client can make.

use vstd::prelude::*;

verus! {

/// A request for an icon's content.
#[derive(Clone, Debug, PartialEq, Eq)]
pub struct AssetIconRequest {
    /// Id of the asset whose icon is wanted.
    pub asset_id: String,
    /// Fingerprint of the copy the client already holds, if it holds one.
    pub match_header: Option<String>,
}

/// A request for the state of an icon.
#[derive(Clone, Debug, PartialEq, Eq)]
pub struct AssetIconCheck {
    /// Id of the asset whose icon is asked about.
    pub asset_id: String,
    /// `Some(true)` where the cached file is to be dropped and fetched again.
    pub force_refresh: Option<bool>,
}

impl AssetIconRequest {
    /// The fingerprint the client sent, as a sequence of characters.
    pub open spec fn token(&self) -> Option<Seq<char>> {
        match self.match_header {
            Some(t) => Some(t@),
            None => None,
        }
    }
}

impl AssetIconCheck {
    /// Whether the request forces a refresh. Only an explicit `true` does.
    pub open spec fn spec_forces_refresh(&self) -> bool {
        self.force_refresh == Some(true)
    }

    /// Whether the request forces a refresh. Only an explicit `true` does.
    #[verifier::when_used_as_spec(spec_forces_refresh)]
    pub fn forces_refresh(&self) -> (forced: bool)
        ensures
            forced == self.spec_forces_refresh(),
    {
        match self.force_refresh {
            Some(flag) => flag,
            None => false,
        }
    }
}

} // verus!
