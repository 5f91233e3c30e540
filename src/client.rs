use crate::device::{Device, DeviceModel};
use crate::os::{OSModel, OS};
use crate::user_agent::{UserAgent, UserAgentModel};
use vstd::prelude::*;

verus! {

/// The three facets of one user-agent string: device, operating system and
/// user agent.
#[derive(Clone, Debug, PartialEq, Eq, Hash)]
pub struct Client {
    pub device: Device,
    pub os: OS,
    pub user_agent: UserAgent,
}

/// The mathematical value of a `Client`.
pub struct ClientModel {
    pub device: DeviceModel,
    pub os: OSModel,
    pub user_agent: UserAgentModel,
}

impl View for Client {
    type V = ClientModel;

    open spec fn view(&self) -> ClientModel {
        ClientModel { device: self.device@, os: self.os@, user_agent: self.user_agent@ }
    }
}

} // verus!
