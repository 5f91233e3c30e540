use crate::file::RegexFile;
use crate::parser::{build_outcome, BuildError, UserAgentParser};
use vstd::prelude::*;

verus! {

/// The choices a builder holds: which facets to compile, and whether
/// patterns are compiled in Unicode mode.
pub struct BuildOptions {
    pub device: bool,
    pub os: bool,
    pub user_agent: bool,
    pub unicode: bool,
}

/// Builds a `UserAgentParser` with some facets left out or without Unicode
/// mode.
#[derive(Debug, Clone, Copy)]
pub struct UserAgentParserBuilder {
    device: bool,
    os: bool,
    user_agent: bool,
    unicode: bool,
}

impl View for UserAgentParserBuilder {
    type V = BuildOptions;

    closed spec fn view(&self) -> BuildOptions {
        BuildOptions {
            device: self.device,
            os: self.os,
            user_agent: self.user_agent,
            unicode: self.unicode,
        }
    }
}

impl UserAgentParserBuilder {
    /// Every facet included, Unicode mode on.
    pub fn new() -> (r: Self)
        ensures
            r@ == (BuildOptions { device: true, os: true, user_agent: true, unicode: true }),
    {
        UserAgentParserBuilder { device: true, os: true, user_agent: true, unicode: true }
    }

    /// Turns Unicode mode on or off. Unicode patterns take more memory, and
    /// most user-agent strings are ASCII.
    pub fn with_unicode_support(self, enabled: bool) -> (r: Self)
        ensures
            r@ == (BuildOptions { unicode: enabled, ..self@ }),
    {
        UserAgentParserBuilder { unicode: enabled, ..self }
    }

    /// Includes or leaves out the device rules.
    pub fn with_device(self, enabled: bool) -> (r: Self)
        ensures
            r@ == (BuildOptions { device: enabled, ..self@ }),
    {
        UserAgentParserBuilder { device: enabled, ..self }
    }

    /// Includes or leaves out the operating-system rules.
    pub fn with_os(self, enabled: bool) -> (r: Self)
        ensures
            r@ == (BuildOptions { os: enabled, ..self@ }),
    {
        UserAgentParserBuilder { os: enabled, ..self }
    }

    /// Includes or leaves out the user-agent rules.
    pub fn with_user_agent(self, enabled: bool) -> (r: Self)
        ensures
            r@ == (BuildOptions { user_agent: enabled, ..self@ }),
    {
        UserAgentParserBuilder { user_agent: enabled, ..self }
    }

    /// Builds the engine from `regex_file` with these choices.
    pub fn build(self, regex_file: RegexFile) -> (r: Result<UserAgentParser, BuildError>)
        ensures
            build_outcome(r, regex_file, self@.device, self@.os, self@.user_agent, self@.unicode),
    {
        UserAgentParser::_try_from(regex_file, self.device, self.os, self.user_agent, self.unicode)
    }
}

} // verus!
