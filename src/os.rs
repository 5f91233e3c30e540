use vstd::prelude::*;

verus! {

/// Describes the family and the major, minor, patch and patch-minor versions
/// of an operating system.
#[derive(Clone, Debug, PartialEq, Eq, Hash)]
pub struct OS {
    pub family: String,
    pub major: Option<String>,
    pub minor: Option<String>,
    pub patch: Option<String>,
    pub patch_minor: Option<String>,
}

/// The mathematical value of an `OS`.
pub struct OSModel {
    pub family: Seq<char>,
    pub major: Option<Seq<char>>,
    pub minor: Option<Seq<char>>,
    pub patch: Option<Seq<char>>,
    pub patch_minor: Option<Seq<char>>,
}

impl View for OS {
    type V = OSModel;

    open spec fn view(&self) -> OSModel {
        OSModel {
            family: self.family@,
            major: self.major.deep_view(),
            minor: self.minor.deep_view(),
            patch: self.patch.deep_view(),
            patch_minor: self.patch_minor.deep_view(),
        }
    }
}

/// The operating system reported when no rule matches: family `Other`, no
/// versions.
pub open spec fn default_os() -> OSModel {
    OSModel { family: "Other"@, major: None, minor: None, patch: None, patch_minor: None }
}

impl Default for OS {
    fn default() -> (r: OS)
        ensures
            r@ == default_os(),
    {
        OS {
            family: String::from_str("Other"),
            major: None,
            minor: None,
            patch: None,
            patch_minor: None,
        }
    }
}

} // verus!
