use vstd::prelude::*;

verus! {

/// Independent toggles that shape the generated files.
#[derive(Clone, Copy, Debug, PartialEq, Eq, Structural)]
pub struct FeatureFlags {
    /// Keep comments in the generated flake.
    pub comments: bool,
    /// Add a package (and container image) definition to the flake.
    pub package: bool,
    /// Add a development shell to the flake and write an `.envrc`.
    pub dev: bool,
    /// Write a `.gitignore`.
    pub git: bool,
}

impl FeatureFlags {
    /// All toggles off.
    pub fn none() -> (r: FeatureFlags)
        ensures
            !r.comments && !r.package && !r.dev && !r.git,
    {
        FeatureFlags { comments: false, package: false, dev: false, git: false }
    }

    /// All toggles on.
    pub fn all() -> (r: FeatureFlags)
        ensures
            r.comments && r.package && r.dev && r.git,
    {
        FeatureFlags { comments: true, package: true, dev: true, git: true }
    }
}

} // verus!
