//! What the firmware hands to the loader and takes back: the boot device's
//! path, the policy by which that path is shown, and the handle of a loaded
//! image.

use vstd::prelude::*;

verus! {

/// How the firmware turns a device path into text.
#[derive(Clone, Copy, Debug, PartialEq, Eq, Structural)]
pub struct TextPolicy {
    /// Ask for the shorter form that is meant for display only.
    pub display_only: bool,
    /// Let the firmware abbreviate nodes where a shortcut exists.
    pub allow_shortcuts: bool,
}

impl TextPolicy {
    /// The policy of this loader: full paths, nothing abbreviated.
    pub open spec fn full() -> TextPolicy {
        TextPolicy { display_only: false, allow_shortcuts: false }
    }

    #[verifier::when_used_as_spec(full)]
    pub fn full_paths() -> (policy: TextPolicy)
        ensures
            policy == TextPolicy::full(),
    {
        TextPolicy { display_only: false, allow_shortcuts: false }
    }
}

/// The path of the medium, and the place on it, that the loader was started
/// from: its nodes as the firmware lays them out, and the text that the
/// firmware gave for them.
#[derive(Clone, Debug, PartialEq, Eq)]
pub struct BootDevicePath {
    /// The structural form, which finds the file system and tags the image.
    pub nodes: Vec<u8>,
    /// The display form, shown to the operator and used for nothing else.
    pub text: String,
}

/// The firmware's handle of an image that is staged for execution. The
/// loader passes it on and never looks inside.
#[derive(Clone, Copy, Debug, PartialEq, Eq, Structural)]
pub struct LoadedImageHandle {
    pub raw: usize,
}

/// What the build recorded of itself, for the banner.
#[derive(Clone, Debug, PartialEq, Eq)]
pub struct Build {
    pub version: String,
    pub compiler: String,
    pub timestamp: String,
}

} // verus!
