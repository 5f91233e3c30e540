use vstd::prelude::*;

verus! {

/// Describes the family and the major, minor and patch versions of a
/// user-agent client.
#[derive(Clone, Debug, PartialEq, Eq, Hash)]
pub struct UserAgent {
    pub family: String,
    pub major: Option<String>,
    pub minor: Option<String>,
    pub patch: Option<String>,
}

/// The mathematical value of a `UserAgent`.
pub struct UserAgentModel {
    pub family: Seq<char>,
    pub major: Option<Seq<char>>,
    pub minor: Option<Seq<char>>,
    pub patch: Option<Seq<char>>,
}

impl View for UserAgent {
    type V = UserAgentModel;

    open spec fn view(&self) -> UserAgentModel {
        UserAgentModel {
            family: self.family@,
            major: self.major.deep_view(),
            minor: self.minor.deep_view(),
            patch: self.patch.deep_view(),
        }
    }
}

/// The user agent reported when no rule matches: family `Other`, no versions.
pub open spec fn default_user_agent() -> UserAgentModel {
    UserAgentModel { family: "Other"@, major: None, minor: None, patch: None }
}

impl Default for UserAgent {
    fn default() -> (r: UserAgent)
        ensures
            r@ == default_user_agent(),
    {
        UserAgent { family: String::from_str("Other"), major: None, minor: None, patch: None }
    }
}

} // verus!
