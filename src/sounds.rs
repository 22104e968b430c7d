use vstd::prelude::*;

use crate::engine::{ClickRole, role_of};

verus! {

/// File name of the asset that holds the click of a role.
pub open spec fn asset_name_of(role: ClickRole) -> Seq<char> {
    match role {
        ClickRole::Accent => "bright.wav"@,
        ClickRole::Regular => "high.wav"@,
    }
}

/// The file name under which the click of `role` is stored.
pub fn asset_name(role: ClickRole) -> (r: &'static str)
    ensures
        r@ == asset_name_of(role),
{
    match role {
        ClickRole::Accent => "bright.wav",
        ClickRole::Regular => "high.wav",
    }
}

/// Why the click sounds could not be loaded.
#[derive(Clone, Copy, Debug, PartialEq, Eq, Structural)]
pub enum LoadError {
    /// The asset of this role was missing or unreadable.
    Missing(ClickRole),
}

/// The two click sounds, as the raw bytes of their audio files, loaded once
/// and read-only from then on.
pub struct ClickSounds {
    accent: Vec<u8>,
    regular: Vec<u8>,
}

impl ClickSounds {
    /// The bytes of the click of `role`.
    pub closed spec fn bytes_of(&self, role: ClickRole) -> Seq<u8> {
        match role {
            ClickRole::Accent => self.accent@,
            ClickRole::Regular => self.regular@,
        }
    }

    pub fn new(accent: Vec<u8>, regular: Vec<u8>) -> (r: Self)
        ensures
            r.bytes_of(ClickRole::Accent) == accent@,
            r.bytes_of(ClickRole::Regular) == regular@,
    {
        ClickSounds { accent, regular }
    }

    /// The store from what was read of the two assets; fails on the first
    /// one that is missing, the accent first.
    pub fn from_assets(accent: Option<Vec<u8>>, regular: Option<Vec<u8>>) -> (r: Result<
        Self,
        LoadError,
    >)
        ensures
            accent is None ==> r == Err::<Self, LoadError>(LoadError::Missing(ClickRole::Accent)),
            accent is Some && regular is None ==> r == Err::<Self, LoadError>(
                LoadError::Missing(ClickRole::Regular),
            ),
            accent is Some && regular is Some ==> r is Ok,
            r matches Ok(s) ==> s.bytes_of(ClickRole::Accent) == accent->0@ && s.bytes_of(
                ClickRole::Regular,
            ) == regular->0@,
    {
        match accent {
            None => Err(LoadError::Missing(ClickRole::Accent)),
            Some(a) => match regular {
                None => Err(LoadError::Missing(ClickRole::Regular)),
                Some(b) => Ok(ClickSounds::new(a, b)),
            },
        }
    }

    /// The bytes of the click of `role`, without a copy.
    pub fn get(&self, role: ClickRole) -> (r: &[u8])
        ensures
            r@ == self.bytes_of(role),
    {
        match role {
            ClickRole::Accent => self.accent.as_slice(),
            ClickRole::Regular => self.regular.as_slice(),
        }
    }

    /// The bytes of the click that sounds at `position`.
    pub fn for_position(&self, position: u32) -> (r: &[u8])
        ensures
            r@ == self.bytes_of(role_of(position as int)),
    {
        self.get(crate::engine::click_role(position))
    }
}

} // verus!
