//! The target resolver: a closed mapping between the fixed vocabulary of SDK
//! name strings and structured Apple platform targets.

use vstd::prelude::*;
use vstd::string::StringExecFns;

verus! {

/// The family of Apple devices an SDK targets.
#[derive(Debug, Copy, Clone, Eq, PartialEq, PartialOrd, Ord, Structural)]
pub enum AppleDeviceTarget {
    MacOS,
    IPhoneOS,
    TvOS,
    WatchOS,
}

/// A resolved SDK target: a device family, built either for the device
/// itself or for its simulator.
#[derive(Debug, Copy, Clone, Eq, PartialEq, PartialOrd, Ord, Structural)]
pub enum AppleTarget {
    Device(AppleDeviceTarget),
    Simulator(AppleDeviceTarget),
}

/// Compares two string slices by their character sequences.
pub(crate) fn str_eq(a: &str, b: &str) -> (r: bool)
    ensures
        r == (a@ == b@),
{
    let sa = String::from_str(a);
    let sb = String::from_str(b);
    sa == sb
}

impl AppleDeviceTarget {
    /// The canonical SDK name of the device build for this family.
    pub open spec fn spec_name(self) -> Seq<char> {
        match self {
            AppleDeviceTarget::MacOS => "macosx"@,
            AppleDeviceTarget::IPhoneOS => "iphoneos"@,
            AppleDeviceTarget::TvOS => "appletvos"@,
            AppleDeviceTarget::WatchOS => "watchos"@,
        }
    }

    /// Which device family, if any, a raw SDK name string names directly.
    pub open spec fn spec_resolve(s: Seq<char>) -> Option<AppleDeviceTarget> {
        if s == "appletvos"@ {
            Some(AppleDeviceTarget::TvOS)
        } else if s == "iphoneos"@ {
            Some(AppleDeviceTarget::IPhoneOS)
        } else if s == "macosx"@ {
            Some(AppleDeviceTarget::MacOS)
        } else if s == "watchos"@ {
            Some(AppleDeviceTarget::WatchOS)
        } else {
            None
        }
    }

    /// Resolves a raw SDK name against the device-only vocabulary.
    pub fn try_from(sdk_name: &str) -> (r: Result<AppleDeviceTarget, ()>)
        ensures
            match r {
                Ok(t) => AppleDeviceTarget::spec_resolve(sdk_name@) == Some(t),
                Err(_) => AppleDeviceTarget::spec_resolve(sdk_name@) is None,
            },
    {
        if str_eq(sdk_name, "appletvos") {
            Ok(AppleDeviceTarget::TvOS)
        } else if str_eq(sdk_name, "iphoneos") {
            Ok(AppleDeviceTarget::IPhoneOS)
        } else if str_eq(sdk_name, "macosx") {
            Ok(AppleDeviceTarget::MacOS)
        } else if str_eq(sdk_name, "watchos") {
            Ok(AppleDeviceTarget::WatchOS)
        } else {
            Err(())
        }
    }

    /// The canonical SDK name of the device build for this family.
    pub fn to_string(&self) -> (r: String)
        ensures
            r@ == self.spec_name(),
    {
        match self {
            AppleDeviceTarget::TvOS => String::from_str("appletvos"),
            AppleDeviceTarget::IPhoneOS => String::from_str("iphoneos"),
            AppleDeviceTarget::MacOS => String::from_str("macosx"),
            AppleDeviceTarget::WatchOS => String::from_str("watchos"),
        }
    }
}

impl AppleTarget {
    /// The canonical SDK name of this target. For every name the resolver
    /// accepts, this is the accepted spelling, so conversion is a right
    /// inverse of resolution. `Simulator(MacOS)` never arises from
    /// resolution; its name is defined here all the same.
    pub open spec fn spec_name(self) -> Seq<char> {
        match self {
            AppleTarget::Device(AppleDeviceTarget::MacOS) => "macosx"@,
            AppleTarget::Device(AppleDeviceTarget::IPhoneOS) => "iphoneos"@,
            AppleTarget::Device(AppleDeviceTarget::TvOS) => "appletvos"@,
            AppleTarget::Device(AppleDeviceTarget::WatchOS) => "watchos"@,
            AppleTarget::Simulator(AppleDeviceTarget::MacOS) => "macosxsimulator"@,
            AppleTarget::Simulator(AppleDeviceTarget::IPhoneOS) => "iphonesimulator"@,
            AppleTarget::Simulator(AppleDeviceTarget::TvOS) => "appletvsimulator"@,
            AppleTarget::Simulator(AppleDeviceTarget::WatchOS) => "watchsimulator"@,
        }
    }

    /// Which target, if any, a raw SDK name string resolves to. Matching is
    /// exact and case-sensitive against the fixed vocabulary of seven names;
    /// no string resolves to a macOS simulator.
    pub open spec fn spec_resolve(s: Seq<char>) -> Option<AppleTarget> {
        if s == "appletvos"@ {
            Some(AppleTarget::Device(AppleDeviceTarget::TvOS))
        } else if s == "appletvsimulator"@ {
            Some(AppleTarget::Simulator(AppleDeviceTarget::TvOS))
        } else if s == "iphoneos"@ {
            Some(AppleTarget::Device(AppleDeviceTarget::IPhoneOS))
        } else if s == "iphonesimulator"@ {
            Some(AppleTarget::Simulator(AppleDeviceTarget::IPhoneOS))
        } else if s == "macosx"@ {
            Some(AppleTarget::Device(AppleDeviceTarget::MacOS))
        } else if s == "watchos"@ {
            Some(AppleTarget::Device(AppleDeviceTarget::WatchOS))
        } else if s == "watchsimulator"@ {
            Some(AppleTarget::Simulator(AppleDeviceTarget::WatchOS))
        } else {
            None
        }
    }

    /// Resolves a raw SDK name against the full vocabulary of seven names.
    pub fn try_from(sdk_name: &str) -> (r: Result<AppleTarget, ()>)
        ensures
            match r {
                Ok(t) => AppleTarget::spec_resolve(sdk_name@) == Some(t),
                Err(_) => AppleTarget::spec_resolve(sdk_name@) is None,
            },
    {
        if str_eq(sdk_name, "appletvos") {
            Ok(AppleTarget::Device(AppleDeviceTarget::TvOS))
        } else if str_eq(sdk_name, "appletvsimulator") {
            Ok(AppleTarget::Simulator(AppleDeviceTarget::TvOS))
        } else if str_eq(sdk_name, "iphoneos") {
            Ok(AppleTarget::Device(AppleDeviceTarget::IPhoneOS))
        } else if str_eq(sdk_name, "iphonesimulator") {
            Ok(AppleTarget::Simulator(AppleDeviceTarget::IPhoneOS))
        } else if str_eq(sdk_name, "macosx") {
            Ok(AppleTarget::Device(AppleDeviceTarget::MacOS))
        } else if str_eq(sdk_name, "watchos") {
            Ok(AppleTarget::Device(AppleDeviceTarget::WatchOS))
        } else if str_eq(sdk_name, "watchsimulator") {
            Ok(AppleTarget::Simulator(AppleDeviceTarget::WatchOS))
        } else {
            Err(())
        }
    }

    /// The canonical SDK name of this target.
    pub fn to_string(&self) -> (r: String)
        ensures
            r@ == self.spec_name(),
    {
        match self {
            AppleTarget::Device(d) => d.to_string(),
            AppleTarget::Simulator(AppleDeviceTarget::MacOS) => String::from_str(
                "macosxsimulator",
            ),
            AppleTarget::Simulator(AppleDeviceTarget::IPhoneOS) => String::from_str(
                "iphonesimulator",
            ),
            AppleTarget::Simulator(AppleDeviceTarget::TvOS) => String::from_str(
                "appletvsimulator",
            ),
            AppleTarget::Simulator(AppleDeviceTarget::WatchOS) => String::from_str(
                "watchsimulator",
            ),
        }
    }

    /// The environment variable that holds the SDK root for this target:
    /// the canonical SDK name, upper-cased, followed by `_SDKROOT`.
    pub open spec fn spec_sdk_root_key(self) -> Seq<char> {
        match self {
            AppleTarget::Device(AppleDeviceTarget::MacOS) => "MACOSX_SDKROOT"@,
            AppleTarget::Device(AppleDeviceTarget::IPhoneOS) => "IPHONEOS_SDKROOT"@,
            AppleTarget::Device(AppleDeviceTarget::TvOS) => "APPLETVOS_SDKROOT"@,
            AppleTarget::Device(AppleDeviceTarget::WatchOS) => "WATCHOS_SDKROOT"@,
            AppleTarget::Simulator(AppleDeviceTarget::MacOS) => "MACOSXSIMULATOR_SDKROOT"@,
            AppleTarget::Simulator(AppleDeviceTarget::IPhoneOS) => "IPHONESIMULATOR_SDKROOT"@,
            AppleTarget::Simulator(AppleDeviceTarget::TvOS) => "APPLETVSIMULATOR_SDKROOT"@,
            AppleTarget::Simulator(AppleDeviceTarget::WatchOS) => "WATCHSIMULATOR_SDKROOT"@,
        }
    }

    /// The name of the environment variable that holds this target's SDK
    /// root path.
    pub fn sdk_root_environment_key(&self) -> (r: String)
        ensures
            r@ == self.spec_sdk_root_key(),
    {
        match self {
            AppleTarget::Device(AppleDeviceTarget::MacOS) => String::from_str("MACOSX_SDKROOT"),
            AppleTarget::Device(AppleDeviceTarget::IPhoneOS) => String::from_str(
                "IPHONEOS_SDKROOT",
            ),
            AppleTarget::Device(AppleDeviceTarget::TvOS) => String::from_str("APPLETVOS_SDKROOT"),
            AppleTarget::Device(AppleDeviceTarget::WatchOS) => String::from_str("WATCHOS_SDKROOT"),
            AppleTarget::Simulator(AppleDeviceTarget::MacOS) => String::from_str(
                "MACOSXSIMULATOR_SDKROOT",
            ),
            AppleTarget::Simulator(AppleDeviceTarget::IPhoneOS) => String::from_str(
                "IPHONESIMULATOR_SDKROOT",
            ),
            AppleTarget::Simulator(AppleDeviceTarget::TvOS) => String::from_str(
                "APPLETVSIMULATOR_SDKROOT",
            ),
            AppleTarget::Simulator(AppleDeviceTarget::WatchOS) => String::from_str(
                "WATCHSIMULATOR_SDKROOT",
            ),
        }
    }
}

/// Round-trip stability of resolution: whenever a raw string resolves to a
/// target, the target's canonical name is that very string, so resolving the
/// canonical name gives the same target back.
pub proof fn lemma_resolve_roundtrip(s: Seq<char>)
    requires
        AppleTarget::spec_resolve(s) is Some,
    ensures
        AppleTarget::spec_resolve(s)->Some_0.spec_name() == s,
        AppleTarget::spec_resolve(AppleTarget::spec_resolve(s)->Some_0.spec_name())
            == AppleTarget::spec_resolve(s),
{
    reveal_strlit("macosx");
    reveal_strlit("iphoneos");
    reveal_strlit("iphonesimulator");
    reveal_strlit("appletvos");
    reveal_strlit("appletvsimulator");
    reveal_strlit("watchos");
    reveal_strlit("watchsimulator");
}

/// A string outside the fixed vocabulary of seven SDK names resolves to
/// nothing.
pub proof fn lemma_resolve_rejects_unknown(s: Seq<char>)
    requires
        s != "macosx"@,
        s != "iphoneos"@,
        s != "iphonesimulator"@,
        s != "appletvos"@,
        s != "appletvsimulator"@,
        s != "watchos"@,
        s != "watchsimulator"@,
    ensures
        AppleTarget::spec_resolve(s) is None,
{
}

} // verus!
