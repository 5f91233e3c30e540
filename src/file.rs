use vstd::prelude::*;

verus! {

/// The rule table: one ordered list of rule entries per facet.
#[derive(Debug)]
pub struct RegexFile {
    pub user_agent_parsers: Vec<UserAgentParserEntry>,
    pub os_parsers: Vec<OSParserEntry>,
    pub device_parsers: Vec<DeviceParserEntry>,
}

/// One user-agent rule: a pattern and the templates of its fields.
#[derive(Debug)]
pub struct UserAgentParserEntry {
    pub regex: String,
    pub family_replacement: Option<String>,
    pub v1_replacement: Option<String>,
    pub v2_replacement: Option<String>,
    pub v3_replacement: Option<String>,
}

/// One operating-system rule: a pattern and the templates of its fields.
#[derive(Debug)]
pub struct OSParserEntry {
    pub regex: String,
    pub os_replacement: Option<String>,
    pub os_v1_replacement: Option<String>,
    pub os_v2_replacement: Option<String>,
    pub os_v3_replacement: Option<String>,
}

/// One device rule: a pattern, its flags (`i`: ignore case) and the
/// templates of its fields.
#[derive(Debug)]
pub struct DeviceParserEntry {
    pub regex_flag: Option<String>,
    pub regex: String,
    pub device_replacement: Option<String>,
    pub brand_replacement: Option<String>,
    pub model_replacement: Option<String>,
}

} // verus!
