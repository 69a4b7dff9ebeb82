use vstd::prelude::*;
use crate::text::str_eq;

verus! {

/// Where the list of supported laptops lives unless overridden.
pub const DEVICE_FILE_DEFAULT: &'static str = "/usr/share/razercontrol/laptops.json";

/// Logo LED states as encoded in the daemon protocol: index = logo_state value.
pub const LOGO_LABELS: [&'static str; 3] = ["Off", "On", "Breathing"];

/// Fallback fan range (RPM) when a device entry doesn't declare one.
pub const DEFAULT_FAN_MIN: i32 = 3500;

/// Upper end of the fallback fan range (RPM).
pub const DEFAULT_FAN_MAX: i32 = 5000;

/// One entry of the supported-laptops list.
#[derive(Debug, Clone)]
pub struct SupportedDevice {
    pub name: String,
    pub vid: String,
    pub pid: String,
    pub features: Vec<String>,
    pub fan: Vec<u16>,
}

/// Whether `feature` is one of the feature tags in `features`.
pub open spec fn tags_contain(features: Seq<String>, feature: Seq<char>) -> bool {
    exists|i: int| 0 <= i < features.len() && #[trigger] features[i]@ == feature
}

/// Scans a list of feature tags for one that equals `feature`.
pub fn tags_include(features: &[String], feature: &str) -> (r: bool)
    ensures
        r == tags_contain(features@, feature@),
{
    let n = features.len();
    let mut i: usize = 0;
    while i < n
        invariant
            n == features@.len(),
            i <= n,
            forall|j: int| 0 <= j < i ==> #[trigger] features@[j]@ != feature@,
        decreases n - i,
    {
        if str_eq(features[i].as_str(), feature) {
            return true;
        }
        i = i + 1;
    }
    false
}

impl SupportedDevice {
    /// Whether the device declares the feature tag `feature`.
    pub open spec fn spec_has_feature(&self, feature: Seq<char>) -> bool {
        tags_contain(self.features@, feature)
    }

    pub fn has_feature(&self, feature: &str) -> (r: bool)
        ensures
            r == self.spec_has_feature(feature@),
    {
        tags_include(self.features.as_slice(), feature)
    }

    pub fn can_boost(&self) -> (r: bool)
        ensures
            r == self.spec_has_feature("boost"@),
    {
        self.has_feature("boost")
    }

    pub fn has_logo(&self) -> (r: bool)
        ensures
            r == self.spec_has_feature("logo"@),
    {
        self.has_feature("logo")
    }
}

/// The device-list path: the `RAZER_DEVICE_FILE` override when one is set,
/// the packaged default otherwise.
pub open spec fn spec_device_file_path(override_path: Option<String>) -> Seq<char> {
    match override_path {
        Some(p) => p@,
        None => DEVICE_FILE_DEFAULT@,
    }
}

/// Chooses the device-list path from the value of the override variable
/// (`None` when it is unset or not valid Unicode).
pub fn device_file_path_from(override_path: Option<String>) -> (path: String)
    ensures
        path@ == spec_device_file_path(override_path),
{
    match override_path {
        Some(p) => p,
        None => DEVICE_FILE_DEFAULT.to_owned(),
    }
}

/// An override path is used as it is; without one the packaged list is read.
pub proof fn lemma_device_file_path_place(p: String)
    ensures
        spec_device_file_path(Some(p)) == p@,
        spec_device_file_path(None) == "/usr/share/razercontrol/laptops.json"@,
{
}

/// A device has a feature exactly when one of its tags reads the same; a
/// device without tags has none.
pub proof fn lemma_feature_tags(tag: String, rest: Seq<String>, feature: Seq<char>)
    ensures
        tags_contain(seq![tag] + rest, tag@),
        tags_contain(rest, feature) ==> tags_contain(seq![tag] + rest, feature),
        tag@ != feature ==> (tags_contain(seq![tag] + rest, feature) <==> tags_contain(rest, feature)),
        !tags_contain(Seq::empty(), feature),
{
    let s = seq![tag] + rest;
    assert(s[0] == tag);
    if tags_contain(rest, feature) {
        let i = choose|i: int| 0 <= i < rest.len() && #[trigger] rest[i]@ == feature;
        assert(s[i + 1] == rest[i]);
    }
    if tag@ != feature && tags_contain(s, feature) {
        let i = choose|i: int| 0 <= i < s.len() && #[trigger] s[i]@ == feature;
        assert(i > 0);
        assert(rest[i - 1] == s[i]);
    }
}

} // verus!
