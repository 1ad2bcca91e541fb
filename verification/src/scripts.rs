//! The shell scripts that switch the virtual display driver on and off
//! around a session.  Running them is privileged plumbing outside this
//! crate; here the exact script text for each action is fixed.

use vstd::prelude::*;

verus! {

/// Which display-driver action a script performs.
#[derive(Clone, Copy, Debug, PartialEq, Eq, Structural)]
pub enum ScriptType {
    EnableDisplayDriver,
    DisableDisplayDriver,
}

impl ScriptType {
    /// The exact script text for this action.
    pub open spec fn spec_script(self) -> Seq<char> {
        match self {
            ScriptType::EnableDisplayDriver =>
                "$ConfirmPreference = 'None'\nGet-PnpDevice -FriendlyName \"IddSampleDriver Device\" | Enable-PnpDevice\n"@,
            ScriptType::DisableDisplayDriver =>
                "$ConfirmPreference = 'None'\nGet-PnpDevice -FriendlyName \"IddSampleDriver Device\" | Disable-PnpDevice\n"@,
        }
    }

    /// The script text handed to the shell runner.
    pub fn to_script(self) -> (r: String)
        ensures
            r@ == self.spec_script(),
    {
        match self {
            ScriptType::EnableDisplayDriver => {
                let s: &str =
                    "$ConfirmPreference = 'None'\nGet-PnpDevice -FriendlyName \"IddSampleDriver Device\" | Enable-PnpDevice\n";
                s.to_owned()
            }
            ScriptType::DisableDisplayDriver => {
                let s: &str =
                    "$ConfirmPreference = 'None'\nGet-PnpDevice -FriendlyName \"IddSampleDriver Device\" | Disable-PnpDevice\n";
                s.to_owned()
            }
        }
    }
}

} // verus!
