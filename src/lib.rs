//! Classification of user-agent strings into browser, operating system and
//! device, by ordered tables of regular-expression rules: the first rule of
//! a facet that matches gives its fields, from capture groups or from
//! templates that refer to them.

mod client;
mod device;
mod file;
pub mod laws;
mod os;
pub mod parser;
pub mod pattern;
pub mod template;
pub mod text;
mod user_agent;

pub use client::{Client, ClientModel};
pub use device::{default_device, Device, DeviceModel};
pub use file::{DeviceParserEntry, OSParserEntry, RegexFile, UserAgentParserEntry};
pub use os::{default_os, OSModel, OS};
pub use parser::builder::{BuildOptions, UserAgentParserBuilder};
pub use parser::{BuildError, Parser, UserAgentParser};
pub use template::{Groups, Template};
pub use text::{clean_escapes, has_group, none_if_empty};
pub use user_agent::{default_user_agent, UserAgent, UserAgentModel};
