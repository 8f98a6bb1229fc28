//! The MPRIS root interface (`org.mpris.MediaPlayer2`): what the bridge
//! says of the media player application itself.

use vstd::prelude::*;

verus! {

/// The properties of the MPRIS root interface.
pub struct Root {
    pub can_quit: bool,
    pub can_set_fullscreen: bool,
    pub fullscreen: bool,
    pub has_track_list: bool,
    pub identity: String,
    pub can_raise: bool,
    pub desktop_entry: String,
    pub supported_uri_schemes: Vec<String>,
    pub supported_mime_types: Vec<String>,
}

impl Root {
    /// The root of the Cider bridge: it can quit and be raised, has no
    /// fullscreen and no track list, is called `Cider` with desktop entry
    /// `cider`, and opens no URI schemes and no MIME types.
    pub open spec fn is_cider_default(self) -> bool {
        &&& self.can_quit
        &&& !self.can_set_fullscreen
        &&& !self.fullscreen
        &&& !self.has_track_list
        &&& self.identity@ == "Cider"@
        &&& self.can_raise
        &&& self.desktop_entry@ == "cider"@
        &&& self.supported_uri_schemes@.len() == 0
        &&& self.supported_mime_types@.len() == 0
    }

    pub fn new() -> (r: Root)
        ensures
            r.is_cider_default(),
    {
        Self::default()
    }

    /// `Raise`: the bridge cannot bring Cider's window forward, so the
    /// request changes nothing.
    pub fn raise(&self) {
    }

    pub fn can_quit(&self) -> (b: bool)
        ensures
            b == self.can_quit,
    {
        self.can_quit
    }

    pub fn can_set_fullscreen(&self) -> (b: bool)
        ensures
            b == self.can_set_fullscreen,
    {
        self.can_set_fullscreen
    }

    pub fn fullscreen(&self) -> (b: bool)
        ensures
            b == self.fullscreen,
    {
        self.fullscreen
    }

    /// A write of `Fullscreen`: the bridge does not control Cider's window,
    /// which handles its own fullscreen, so the write changes nothing.
    pub fn set_fullscreen(&mut self, value: bool)
        ensures
            *final(self) == *old(self),
    {
    }

    pub fn has_track_list(&self) -> (b: bool)
        ensures
            b == self.has_track_list,
    {
        self.has_track_list
    }

    pub fn identity(&self) -> (s: &str)
        ensures
            s@ == self.identity@,
    {
        self.identity.as_str()
    }

    pub fn can_raise(&self) -> (b: bool)
        ensures
            b == self.can_raise,
    {
        self.can_raise
    }

    pub fn desktop_entry(&self) -> (s: &str)
        ensures
            s@ == self.desktop_entry@,
    {
        self.desktop_entry.as_str()
    }

    pub fn supported_uri_schemes(&self) -> (v: Vec<String>)
        ensures
            v@ == self.supported_uri_schemes@,
    {
        self.supported_uri_schemes.clone()
    }

    pub fn supported_mime_types(&self) -> (v: Vec<String>)
        ensures
            v@ == self.supported_mime_types@,
    {
        self.supported_mime_types.clone()
    }
}

impl Default for Root {
    fn default() -> (r: Root)
        ensures
            r.is_cider_default(),
    {
        let r = Root {
            can_quit: true,
            can_set_fullscreen: false,
            fullscreen: false,
            has_track_list: false,
            identity: String::from_str("Cider"),
            can_raise: true,
            desktop_entry: String::from_str("cider"),
            supported_uri_schemes: Vec::new(),
            supported_mime_types: Vec::new(),
        };
        r
    }
}

} // verus!
