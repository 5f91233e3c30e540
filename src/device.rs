use vstd::prelude::*;

verus! {

/// Describes the family, brand and model of a device.
#[derive(Clone, Debug, PartialEq, Eq, Hash)]
pub struct Device {
    pub family: String,
    pub brand: Option<String>,
    pub model: Option<String>,
}

/// The mathematical value of a `Device`.
pub struct DeviceModel {
    pub family: Seq<char>,
    pub brand: Option<Seq<char>>,
    pub model: Option<Seq<char>>,
}

impl View for Device {
    type V = DeviceModel;

    open spec fn view(&self) -> DeviceModel {
        DeviceModel {
            family: self.family@,
            brand: self.brand.deep_view(),
            model: self.model.deep_view(),
        }
    }
}

/// The device reported when no rule matches: family `Other`, no brand or
/// model.
pub open spec fn default_device() -> DeviceModel {
    DeviceModel { family: "Other"@, brand: None, model: None }
}

impl Default for Device {
    fn default() -> (r: Device)
        ensures
            r@ == default_device(),
    {
        Device { family: String::from_str("Other"), brand: None, model: None }
    }
}

} // verus!
