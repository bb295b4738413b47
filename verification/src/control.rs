//! The colorization policy: three optional booleans and a fixed
//! precedence that decides whether escape sequences are emitted.
//!
//! The two environment-derived fields are read once, outside this
//! library, and handed in as plain `Option<bool>` values; only the
//! manual override ever changes afterwards.

use vstd::prelude::*;

verus! {

/// Decides whether rendering should emit escape sequences.
#[derive(Debug)]
pub struct ShouldColorize {
    /// Derived from the CLICOLOR environment variable.
    pub clicolor: Option<bool>,
    /// Derived from the CLICOLOR_FORCE environment variable.
    pub clicolor_force: Option<bool>,
    /// Set only through `set_override` / `unset_override`.
    pub manual_override: Option<bool>,
}

/// How an environment variable's value reads as a policy flag: an absent
/// or unreadable variable decides nothing, any present value other than
/// the literal string "0" counts as true.
pub open spec fn spec_normalize(env_res: Option<String>) -> Option<bool> {
    match env_res {
        Some(s) => Some(s@ != "0"@),
        None => None,
    }
}

impl ShouldColorize {
    /// The policy's decision: the manual override wins, then
    /// CLICOLOR_FORCE, then CLICOLOR; with all three unset,
    /// colorization is on.
    pub open spec fn spec_should_colorize(self) -> bool {
        match self.manual_override {
            Some(b) => b,
            None => match self.clicolor_force {
                Some(b) => b,
                None => match self.clicolor {
                    Some(b) => b,
                    None => true,
                },
            },
        }
    }

    /// A policy built from already-normalized environment readings,
    /// with no manual override in place.
    pub fn new(clicolor: Option<bool>, clicolor_force: Option<bool>) -> (r: ShouldColorize)
        ensures
            r.clicolor == clicolor,
            r.clicolor_force == clicolor_force,
            r.manual_override is None,
    {
        ShouldColorize { clicolor, clicolor_force, manual_override: None }
    }

    /// A policy built from the raw values of the CLICOLOR and
    /// CLICOLOR_FORCE environment variables, `None` standing for an
    /// absent or unreadable variable.
    pub fn from_env_values(
        clicolor: Option<String>,
        clicolor_force: Option<String>,
    ) -> (r: ShouldColorize)
        ensures
            r.clicolor == spec_normalize(clicolor),
            r.clicolor_force == spec_normalize(clicolor_force),
            r.manual_override is None,
    {
        ShouldColorize {
            clicolor: ShouldColorize::normalize_env(clicolor),
            clicolor_force: ShouldColorize::normalize_env(clicolor_force),
            manual_override: None,
        }
    }

    pub fn should_colorize(&self) -> (r: bool)
        ensures
            r == self.spec_should_colorize(),
    {
        if let Some(manual_override) = self.manual_override {
            return manual_override;
        }
        if let Some(forced_value) = self.clicolor_force {
            return forced_value;
        }
        if let Some(value) = self.clicolor {
            return value;
        }
        true
    }

    /// Pins the decision to the given value, whatever the environment said.
    pub fn set_override(&mut self, override_colorize: bool)
        ensures
            final(self).manual_override == Some(override_colorize),
            final(self).clicolor == old(self).clicolor,
            final(self).clicolor_force == old(self).clicolor_force,
    {
        self.manual_override = Some(override_colorize);
    }

    /// Hands the decision back to the environment-derived fields.
    pub fn unset_override(&mut self)
        ensures
            final(self).manual_override is None,
            final(self).clicolor == old(self).clicolor,
            final(self).clicolor_force == old(self).clicolor_force,
    {
        self.manual_override = None;
    }

    /// Reads an environment variable's value as a policy flag.
    pub fn normalize_env(env_res: Option<String>) -> (r: Option<bool>)
        ensures
            r == spec_normalize(env_res),
    {
        match env_res {
            Some(string) => {
                let zero = String::from_str("0");
                Some(!(string == zero))
            },
            None => None,
        }
    }
}

impl Default for ShouldColorize {
    /// The policy with nothing set: it colorizes.
    fn default() -> (r: ShouldColorize)
        ensures
            r.clicolor is None,
            r.clicolor_force is None,
            r.manual_override is None,
    {
        ShouldColorize { clicolor: None, clicolor_force: None, manual_override: None }
    }
}

} // verus!
