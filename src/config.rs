use vstd::prelude::*;

verus! {

/// Named configuration profiles.
pub struct Config;

impl Config {
    /// Profiles are not supported yet: every name gives the same notice.
    pub fn load_profile(_name: &str) -> (r: String)
        ensures
            r@ == "Profile loading not implemented"@,
    {
        String::from_str("Profile loading not implemented")
    }
}

} // verus!
