//! The closed sets of backend identifiers, one per capability category,
//! and the platform descriptor.

use vstd::prelude::*;

verus! {

/// Backends able to inspect an image in a registry.
#[derive(Debug, Clone, Copy, PartialEq, Eq, Structural)]
pub enum InspectDriverType {
    Skopeo,
    Podman,
    Docker,
}

/// Backends able to build an image.
#[derive(Debug, Clone, Copy, PartialEq, Eq, Structural)]
pub enum BuildDriverType {
    Buildah,
    Podman,
    Docker,
}

/// Backends able to sign an image.
#[derive(Debug, Clone, Copy, PartialEq, Eq, Structural)]
pub enum SigningDriverType {
    Cosign,
    Sigstore,
}

/// Backends able to run a container.
#[derive(Debug, Clone, Copy, PartialEq, Eq, Structural)]
pub enum RunDriverType {
    Podman,
    Docker,
}

impl RunDriverType {
    /// The command name of the backend, as a character sequence.
    pub open spec fn spec_command_name(self) -> Seq<char> {
        match self {
            RunDriverType::Podman => "podman"@,
            RunDriverType::Docker => "docker"@,
        }
    }
}

impl From<RunDriverType> for String {
    fn from(value: RunDriverType) -> (r: Self)
        ensures
            r@ == value.spec_command_name(),
    {
        match value {
            RunDriverType::Podman => "podman".to_owned(),
            RunDriverType::Docker => "docker".to_owned(),
        }
    }
}

impl vstd::std_specs::convert::FromSpecImpl<RunDriverType> for String {
    open spec fn obeys_from_spec() -> bool {
        false
    }

    open spec fn from_spec(v: RunDriverType) -> String {
        arbitrary()
    }
}

/// The continuous-integration context a run takes place in.
#[derive(Debug, Clone, Copy, PartialEq, Eq, Structural)]
pub enum CiDriverType {
    Local,
    Gitlab,
    Github,
}

/// The platform an image is built for.  Every selector carries two fixed
/// strings: a display form and an architecture name.
#[derive(Debug, Clone, Copy, PartialEq, Eq, Structural)]
pub enum Platform {
    Native,
    LinuxAmd64,
    LinuxArm64,
}

impl Platform {
    /// The architecture name of the platform, as a character sequence.
    pub open spec fn spec_arch(self) -> Seq<char> {
        match self {
            Platform::Native => "native"@,
            Platform::LinuxAmd64 => "amd64"@,
            Platform::LinuxArm64 => "arm64"@,
        }
    }

    /// The display form of the platform, as a character sequence.
    pub open spec fn spec_display(self) -> Seq<char> {
        match self {
            Platform::Native => "native"@,
            Platform::LinuxAmd64 => "linux/amd64"@,
            Platform::LinuxArm64 => "linux/arm64"@,
        }
    }

    /// The architecture of the platform.
    pub fn arch(&self) -> (r: &'static str)
        ensures
            r@ == self.spec_arch(),
    {
        match *self {
            Platform::Native => "native",
            Platform::LinuxAmd64 => "amd64",
            Platform::LinuxArm64 => "arm64",
        }
    }

    /// The human-readable platform string, such as `linux/amd64`.
    pub fn display_str(&self) -> (r: &'static str)
        ensures
            r@ == self.spec_display(),
    {
        match *self {
            Platform::Native => "native",
            Platform::LinuxAmd64 => "linux/amd64",
            Platform::LinuxArm64 => "linux/arm64",
        }
    }
}

impl Default for Platform {
    /// The platform assumed when the caller does not request one.
    fn default() -> (r: Self)
        ensures
            r == Platform::Native,
    {
        Platform::Native
    }
}

} // verus!
