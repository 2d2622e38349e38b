//! The driver-selection protocol: one decision procedure per capability
//! category, each probing the host in a fixed priority order, resolving
//! to exactly one backend, and memoizing the choice.
//!
//! Probing the host (command presence, version compatibility, CI
//! indicator variables) is the collaborators' work; its outcome is
//! handed in as a [`HostProbes`] snapshot and a [`VersionPolicy`], so
//! every decision here is a pure function of that outcome.  The resolver
//! counts how many times it consulted the snapshot: a resolution served
//! from the cache or from an explicit override consults it zero times.

use crate::types::{
    BuildDriverType, CiDriverType, InspectDriverType, RunDriverType, SigningDriverType,
};
use vstd::prelude::*;
use vstd::string::StringExecFns;

verus! {

/// What probing the host reported: which commands are on the search
/// path, and which CI indicator variables are set.
#[derive(Debug, Clone, Copy, PartialEq, Eq, Structural)]
pub struct HostProbes {
    pub skopeo_present: bool,
    pub docker_present: bool,
    pub podman_present: bool,
    pub buildah_present: bool,
    pub cosign_present: bool,
    pub gitlab_ci_set: bool,
    pub github_actions_set: bool,
}

/// What the per-backend version collaborators reported: whether each
/// installed backend satisfies that backend's declared minimum-version
/// requirement, and the requirement itself in display form, for
/// diagnostics.
#[derive(Debug, Clone)]
pub struct VersionPolicy {
    pub docker_ok: bool,
    pub podman_ok: bool,
    pub buildah_ok: bool,
    pub docker_req: String,
    pub podman_req: String,
    pub buildah_req: String,
}

/// The unrecoverable configuration errors: no usable backend for a
/// category that has no fallback.  The build and run variants carry the
/// minimum-version requirements so the diagnostic can name them.
#[derive(Debug, Clone)]
pub enum DriverError {
    NoInspectDriver,
    NoBuildDriver { docker_req: String, podman_req: String, buildah_req: String },
    NoRunDriver { docker_req: String, podman_req: String },
}

impl DriverError {
    /// The diagnostic for the error, naming every candidate tool and,
    /// where versions were checked, the minimum version required.
    pub open spec fn spec_message(self) -> Seq<char> {
        match self {
            DriverError::NoInspectDriver => {
                "Could not determine inspection strategy. You need either skopeo, docker, or podman"@
            },
            DriverError::NoBuildDriver { docker_req, podman_req, buildah_req } => {
                "Could not determine strategy, need either docker version "@ + docker_req@
                    + ", podman version "@ + podman_req@ + ", or buildah version "@ + buildah_req@
                    + " to continue"@
            },
            DriverError::NoRunDriver { docker_req, podman_req } => {
                "Could not determine strategy, need either docker version "@ + docker_req@
                    + ", or podman version "@ + podman_req@ + " to continue"@
            },
        }
    }

    /// Renders the diagnostic message.
    pub fn message(&self) -> (r: String)
        ensures
            r@ == self.spec_message(),
    {
        match self {
            DriverError::NoInspectDriver => {
                "Could not determine inspection strategy. You need either skopeo, docker, or podman".to_owned()
            },
            DriverError::NoBuildDriver { docker_req, podman_req, buildah_req } => {
                let mut m = "Could not determine strategy, need either docker version ".to_owned();
                m.append(docker_req.as_str());
                m.append(", podman version ");
                m.append(podman_req.as_str());
                m.append(", or buildah version ");
                m.append(buildah_req.as_str());
                m.append(" to continue");
                proof {
                    assert(m@ =~= self.spec_message());
                }
                m
            },
            DriverError::NoRunDriver { docker_req, podman_req } => {
                let mut m = "Could not determine strategy, need either docker version ".to_owned();
                m.append(docker_req.as_str());
                m.append(", or podman version ");
                m.append(podman_req.as_str());
                m.append(" to continue");
                proof {
                    assert(m@ =~= self.spec_message());
                }
                m
            },
        }
    }
}

/// The inspection backend the probe outcome selects: the first of
/// skopeo, docker, podman whose command is present.
pub open spec fn spec_select_inspect(p: HostProbes) -> Option<InspectDriverType> {
    if p.skopeo_present {
        Some(InspectDriverType::Skopeo)
    } else if p.docker_present {
        Some(InspectDriverType::Docker)
    } else if p.podman_present {
        Some(InspectDriverType::Podman)
    } else {
        None
    }
}

/// The build backend the probe outcome selects: the first of docker,
/// podman, buildah that is present with a satisfying version.
pub open spec fn spec_select_build(p: HostProbes, v: VersionPolicy) -> Option<BuildDriverType> {
    if p.docker_present && v.docker_ok {
        Some(BuildDriverType::Docker)
    } else if p.podman_present && v.podman_ok {
        Some(BuildDriverType::Podman)
    } else if p.buildah_present && v.buildah_ok {
        Some(BuildDriverType::Buildah)
    } else {
        None
    }
}

/// The run backend the probe outcome selects: the first of docker,
/// podman that is present with a satisfying version.
pub open spec fn spec_select_run(p: HostProbes, v: VersionPolicy) -> Option<RunDriverType> {
    if p.docker_present && v.docker_ok {
        Some(RunDriverType::Docker)
    } else if p.podman_present && v.podman_ok {
        Some(RunDriverType::Podman)
    } else {
        None
    }
}

/// The signing backend the probe outcome selects when the optional
/// sigstore capability is enabled: cosign when its command is present,
/// the sigstore fallback otherwise.
pub open spec fn spec_select_signing(cosign_present: bool) -> SigningDriverType {
    if cosign_present {
        SigningDriverType::Cosign
    } else {
        SigningDriverType::Sigstore
    }
}

/// The CI context the indicator variables select: a context is chosen
/// only when exactly one indicator is set.
pub open spec fn spec_select_ci(gitlab_set: bool, github_set: bool) -> CiDriverType {
    if gitlab_set && !github_set {
        CiDriverType::Gitlab
    } else if github_set && !gitlab_set {
        CiDriverType::Github
    } else {
        CiDriverType::Local
    }
}

/// Per-process resolver state: one memoized choice per category, a count
/// of probe rounds performed, and the runtime flag that admits the
/// optional sigstore signing backend into the candidate set.
///
/// Callers should treat the fields as read-only; they are resolved only
/// through the `resolve_*` methods.
#[derive(Debug, Clone)]
pub struct DriverResolver {
    pub inspect: Option<InspectDriverType>,
    pub build: Option<BuildDriverType>,
    pub signing: Option<SigningDriverType>,
    pub run: Option<RunDriverType>,
    pub ci: Option<CiDriverType>,
    pub probe_count: u64,
    pub sigstore_enabled: bool,
}

/// One resolution step for the inspection category: a cached choice is
/// returned unchanged; otherwise an explicit override is accepted and
/// cached without probing; otherwise one probe round selects by
/// priority, and failure to select is an error.
pub open spec fn spec_resolve_inspect(
    s: DriverResolver,
    requested: Option<InspectDriverType>,
    p: HostProbes,
) -> (DriverResolver, Result<InspectDriverType, DriverError>) {
    if s.inspect is Some {
        (s, Ok(s.inspect->0))
    } else if requested is Some {
        (DriverResolver { inspect: requested, ..s }, Ok(requested->0))
    } else {
        let probed = DriverResolver { probe_count: (s.probe_count + 1) as u64, ..s };
        match spec_select_inspect(p) {
            Some(d) => (DriverResolver { inspect: Some(d), ..probed }, Ok(d)),
            None => (probed, Err(DriverError::NoInspectDriver)),
        }
    }
}

/// One resolution step for the build category; as for inspection, with
/// the version policy consulted and named in the failure diagnostic.
pub open spec fn spec_resolve_build(
    s: DriverResolver,
    requested: Option<BuildDriverType>,
    p: HostProbes,
    v: VersionPolicy,
) -> (DriverResolver, Result<BuildDriverType, DriverError>) {
    if s.build is Some {
        (s, Ok(s.build->0))
    } else if requested is Some {
        (DriverResolver { build: requested, ..s }, Ok(requested->0))
    } else {
        let probed = DriverResolver { probe_count: (s.probe_count + 1) as u64, ..s };
        match spec_select_build(p, v) {
            Some(d) => (DriverResolver { build: Some(d), ..probed }, Ok(d)),
            None => (
                probed,
                Err(DriverError::NoBuildDriver {
                    docker_req: v.docker_req,
                    podman_req: v.podman_req,
                    buildah_req: v.buildah_req,
                }),
            ),
        }
    }
}

/// One resolution step for the run category; as for build, over the two
/// run candidates.
pub open spec fn spec_resolve_run(
    s: DriverResolver,
    requested: Option<RunDriverType>,
    p: HostProbes,
    v: VersionPolicy,
) -> (DriverResolver, Result<RunDriverType, DriverError>) {
    if s.run is Some {
        (s, Ok(s.run->0))
    } else if requested is Some {
        (DriverResolver { run: requested, ..s }, Ok(requested->0))
    } else {
        let probed = DriverResolver { probe_count: (s.probe_count + 1) as u64, ..s };
        match spec_select_run(p, v) {
            Some(d) => (DriverResolver { run: Some(d), ..probed }, Ok(d)),
            None => (
                probed,
                Err(DriverError::NoRunDriver {
                    docker_req: v.docker_req,
                    podman_req: v.podman_req,
                }),
            ),
        }
    }
}

/// One resolution step for the signing category.  This category always
/// resolves: with the sigstore capability disabled the choice is cosign
/// outright, with no probe; with it enabled, one probe round decides
/// between cosign and the sigstore fallback.
pub open spec fn spec_resolve_signing(
    s: DriverResolver,
    requested: Option<SigningDriverType>,
    p: HostProbes,
) -> (DriverResolver, SigningDriverType) {
    if s.signing is Some {
        (s, s.signing->0)
    } else if requested is Some {
        (DriverResolver { signing: requested, ..s }, requested->0)
    } else if !s.sigstore_enabled {
        (
            DriverResolver { signing: Some(SigningDriverType::Cosign), ..s },
            SigningDriverType::Cosign,
        )
    } else {
        let d = spec_select_signing(p.cosign_present);
        (
            DriverResolver {
                signing: Some(d),
                probe_count: (s.probe_count + 1) as u64,
                ..s
            },
            d,
        )
    }
}

/// One resolution step for the CI-context category.  This category
/// always resolves; one probe round reads the indicator variables.
pub open spec fn spec_resolve_ci(
    s: DriverResolver,
    requested: Option<CiDriverType>,
    p: HostProbes,
) -> (DriverResolver, CiDriverType) {
    if s.ci is Some {
        (s, s.ci->0)
    } else if requested is Some {
        (DriverResolver { ci: requested, ..s }, requested->0)
    } else {
        let d = spec_select_ci(p.gitlab_ci_set, p.github_actions_set);
        (
            DriverResolver { ci: Some(d), probe_count: (s.probe_count + 1) as u64, ..s },
            d,
        )
    }
}

impl DriverResolver {
    /// A fresh resolver: nothing resolved, nothing probed.
    pub fn new(sigstore_enabled: bool) -> (r: Self)
        ensures
            r == (DriverResolver {
                inspect: None,
                build: None,
                signing: None,
                run: None,
                ci: None,
                probe_count: 0,
                sigstore_enabled,
            }),
    {
        DriverResolver {
            inspect: None,
            build: None,
            signing: None,
            run: None,
            ci: None,
            probe_count: 0,
            sigstore_enabled,
        }
    }

    /// Resolves the inspection backend: the first of skopeo, docker,
    /// podman that is present, unless a cached choice or an explicit
    /// override short-circuits the probe.
    pub fn resolve_inspect(
        &mut self,
        requested: Option<InspectDriverType>,
        probes: &HostProbes,
    ) -> (r: Result<InspectDriverType, DriverError>)
        requires
            old(self).probe_count < u64::MAX,
        ensures
            (*final(self), r) == spec_resolve_inspect(*old(self), requested, *probes),
    {
        if let Some(cached) = self.inspect {
            return Ok(cached);
        }
        if let Some(choice) = requested {
            self.inspect = Some(choice);
            return Ok(choice);
        }
        self.probe_count = self.probe_count + 1;
        if probes.skopeo_present {
            self.inspect = Some(InspectDriverType::Skopeo);
            Ok(InspectDriverType::Skopeo)
        } else if probes.docker_present {
            self.inspect = Some(InspectDriverType::Docker);
            Ok(InspectDriverType::Docker)
        } else if probes.podman_present {
            self.inspect = Some(InspectDriverType::Podman);
            Ok(InspectDriverType::Podman)
        } else {
            Err(DriverError::NoInspectDriver)
        }
    }

    /// Resolves the build backend: the first of docker, podman, buildah
    /// that is present with a satisfying version, unless a cached choice
    /// or an explicit override short-circuits the probe.
    pub fn resolve_build(
        &mut self,
        requested: Option<BuildDriverType>,
        probes: &HostProbes,
        versions: &VersionPolicy,
    ) -> (r: Result<BuildDriverType, DriverError>)
        requires
            old(self).probe_count < u64::MAX,
        ensures
            (*final(self), r) == spec_resolve_build(*old(self), requested, *probes, *versions),
    {
        if let Some(cached) = self.build {
            return Ok(cached);
        }
        if let Some(choice) = requested {
            self.build = Some(choice);
            return Ok(choice);
        }
        self.probe_count = self.probe_count + 1;
        if probes.docker_present && versions.docker_ok {
            self.build = Some(BuildDriverType::Docker);
            Ok(BuildDriverType::Docker)
        } else if probes.podman_present && versions.podman_ok {
            self.build = Some(BuildDriverType::Podman);
            Ok(BuildDriverType::Podman)
        } else if probes.buildah_present && versions.buildah_ok {
            self.build = Some(BuildDriverType::Buildah);
            Ok(BuildDriverType::Buildah)
        } else {
            Err(DriverError::NoBuildDriver {
                docker_req: versions.docker_req.clone(),
                podman_req: versions.podman_req.clone(),
                buildah_req: versions.buildah_req.clone(),
            })
        }
    }

    /// Resolves the run backend: the first of docker, podman that is
    /// present with a satisfying version, unless a cached choice or an
    /// explicit override short-circuits the probe.
    pub fn resolve_run(
        &mut self,
        requested: Option<RunDriverType>,
        probes: &HostProbes,
        versions: &VersionPolicy,
    ) -> (r: Result<RunDriverType, DriverError>)
        requires
            old(self).probe_count < u64::MAX,
        ensures
            (*final(self), r) == spec_resolve_run(*old(self), requested, *probes, *versions),
    {
        if let Some(cached) = self.run {
            return Ok(cached);
        }
        if let Some(choice) = requested {
            self.run = Some(choice);
            return Ok(choice);
        }
        self.probe_count = self.probe_count + 1;
        if probes.docker_present && versions.docker_ok {
            self.run = Some(RunDriverType::Docker);
            Ok(RunDriverType::Docker)
        } else if probes.podman_present && versions.podman_ok {
            self.run = Some(RunDriverType::Podman);
            Ok(RunDriverType::Podman)
        } else {
            Err(DriverError::NoRunDriver {
                docker_req: versions.docker_req.clone(),
                podman_req: versions.podman_req.clone(),
            })
        }
    }

    /// Resolves the signing backend.  Always succeeds: cosign is the
    /// guaranteed fallback, and the sigstore alternative is considered
    /// only when the capability flag enables it and cosign is absent.
    pub fn resolve_signing(
        &mut self,
        requested: Option<SigningDriverType>,
        probes: &HostProbes,
    ) -> (r: SigningDriverType)
        requires
            old(self).probe_count < u64::MAX,
        ensures
            (*final(self), r) == spec_resolve_signing(*old(self), requested, *probes),
    {
        if let Some(cached) = self.signing {
            return cached;
        }
        if let Some(choice) = requested {
            self.signing = Some(choice);
            return choice;
        }
        if !self.sigstore_enabled {
            self.signing = Some(SigningDriverType::Cosign);
            return SigningDriverType::Cosign;
        }
        self.probe_count = self.probe_count + 1;
        let d = if probes.cosign_present {
            SigningDriverType::Cosign
        } else {
            SigningDriverType::Sigstore
        };
        self.signing = Some(d);
        d
    }

    /// Resolves the CI context from the indicator variables.  Always
    /// succeeds: Local is the guaranteed fallback when neither or both
    /// indicators are set.
    pub fn resolve_ci(
        &mut self,
        requested: Option<CiDriverType>,
        probes: &HostProbes,
    ) -> (r: CiDriverType)
        requires
            old(self).probe_count < u64::MAX,
        ensures
            (*final(self), r) == spec_resolve_ci(*old(self), requested, *probes),
    {
        if let Some(cached) = self.ci {
            return cached;
        }
        if let Some(choice) = requested {
            self.ci = Some(choice);
            return choice;
        }
        self.probe_count = self.probe_count + 1;
        let d = if probes.gitlab_ci_set && !probes.github_actions_set {
            CiDriverType::Gitlab
        } else if probes.github_actions_set && !probes.gitlab_ci_set {
            CiDriverType::Github
        } else {
            CiDriverType::Local
        };
        self.ci = Some(d);
        d
    }
}

/// Law: once the inspection choice is resolved, every further
/// resolution step returns the identical choice and leaves the resolver
/// — its probe count included — unchanged, whatever is requested and
/// whatever a fresh probe would report.
pub proof fn lemma_inspect_memoized(
    s: DriverResolver,
    req1: Option<InspectDriverType>,
    p1: HostProbes,
    req2: Option<InspectDriverType>,
    p2: HostProbes,
)
    requires
        spec_resolve_inspect(s, req1, p1).1 is Ok,
    ensures
        spec_resolve_inspect(spec_resolve_inspect(s, req1, p1).0, req2, p2)
            == spec_resolve_inspect(s, req1, p1),
{
}

/// Law: once the build choice is resolved, every further resolution
/// step returns the identical choice and leaves the resolver unchanged.
pub proof fn lemma_build_memoized(
    s: DriverResolver,
    req1: Option<BuildDriverType>,
    p1: HostProbes,
    v1: VersionPolicy,
    req2: Option<BuildDriverType>,
    p2: HostProbes,
    v2: VersionPolicy,
)
    requires
        spec_resolve_build(s, req1, p1, v1).1 is Ok,
    ensures
        spec_resolve_build(spec_resolve_build(s, req1, p1, v1).0, req2, p2, v2)
            == spec_resolve_build(s, req1, p1, v1),
{
}

/// Law: once the run choice is resolved, every further resolution step
/// returns the identical choice and leaves the resolver unchanged.
pub proof fn lemma_run_memoized(
    s: DriverResolver,
    req1: Option<RunDriverType>,
    p1: HostProbes,
    v1: VersionPolicy,
    req2: Option<RunDriverType>,
    p2: HostProbes,
    v2: VersionPolicy,
)
    requires
        spec_resolve_run(s, req1, p1, v1).1 is Ok,
    ensures
        spec_resolve_run(spec_resolve_run(s, req1, p1, v1).0, req2, p2, v2)
            == spec_resolve_run(s, req1, p1, v1),
{
}

/// Law: the signing choice always resolves, and once resolved every
/// further resolution step returns the identical choice and leaves the
/// resolver unchanged.
pub proof fn lemma_signing_memoized(
    s: DriverResolver,
    req1: Option<SigningDriverType>,
    p1: HostProbes,
    req2: Option<SigningDriverType>,
    p2: HostProbes,
)
    ensures
        spec_resolve_signing(spec_resolve_signing(s, req1, p1).0, req2, p2)
            == spec_resolve_signing(s, req1, p1),
{
}

/// Law: the CI context always resolves, and once resolved every further
/// resolution step returns the identical context and leaves the
/// resolver unchanged.
pub proof fn lemma_ci_memoized(
    s: DriverResolver,
    req1: Option<CiDriverType>,
    p1: HostProbes,
    req2: Option<CiDriverType>,
    p2: HostProbes,
)
    ensures
        spec_resolve_ci(spec_resolve_ci(s, req1, p1).0, req2, p2)
            == spec_resolve_ci(s, req1, p1),
{
}

/// Law: on a category not yet resolved, an explicit override is
/// returned as given — whatever the host reports — and no probe is
/// performed.  Stated for each category in turn.
pub proof fn lemma_override_wins(
    s: DriverResolver,
    inspect_req: InspectDriverType,
    build_req: BuildDriverType,
    run_req: RunDriverType,
    signing_req: SigningDriverType,
    ci_req: CiDriverType,
    p: HostProbes,
    v: VersionPolicy,
)
    ensures
        s.inspect is None ==> spec_resolve_inspect(s, Some(inspect_req), p)
            == (DriverResolver { inspect: Some(inspect_req), ..s }, Ok::<
            InspectDriverType,
            DriverError,
        >(inspect_req)),
        s.build is None ==> spec_resolve_build(s, Some(build_req), p, v)
            == (DriverResolver { build: Some(build_req), ..s }, Ok::<
            BuildDriverType,
            DriverError,
        >(build_req)),
        s.run is None ==> spec_resolve_run(s, Some(run_req), p, v)
            == (DriverResolver { run: Some(run_req), ..s }, Ok::<RunDriverType, DriverError>(
            run_req,
        )),
        s.signing is None ==> spec_resolve_signing(s, Some(signing_req), p)
            == (DriverResolver { signing: Some(signing_req), ..s }, signing_req),
        s.ci is None ==> spec_resolve_ci(s, Some(ci_req), p)
            == (DriverResolver { ci: Some(ci_req), ..s }, ci_req),
{
}

/// Law: build-backend priority.  A present docker with a satisfying
/// version wins outright; otherwise a present podman with a satisfying
/// version wins; and when no candidate is usable, a fresh,
/// non-overridden resolution fails and caches nothing.
pub proof fn lemma_build_priority(s: DriverResolver, p: HostProbes, v: VersionPolicy)
    ensures
        p.docker_present && v.docker_ok ==> spec_select_build(p, v) == Some(
            BuildDriverType::Docker,
        ),
        !(p.docker_present && v.docker_ok) && p.podman_present && v.podman_ok
            ==> spec_select_build(p, v) == Some(BuildDriverType::Podman),
        !(p.docker_present && v.docker_ok) && !(p.podman_present && v.podman_ok) && !(
        p.buildah_present && v.buildah_ok) ==> spec_select_build(p, v) is None,
        s.build is None && spec_select_build(p, v) is None ==> {
            &&& spec_resolve_build(s, None, p, v).1 is Err
            &&& spec_resolve_build(s, None, p, v).0.build is None
        },
{
}

/// Law: CI-context selection.  The Gitlab indicator alone selects
/// Gitlab, the Github indicator alone selects Github, and when both or
/// neither are set the context is Local.
pub proof fn lemma_ci_context(gitlab_set: bool, github_set: bool)
    ensures
        gitlab_set && !github_set ==> spec_select_ci(gitlab_set, github_set)
            == CiDriverType::Gitlab,
        github_set && !gitlab_set ==> spec_select_ci(gitlab_set, github_set)
            == CiDriverType::Github,
        gitlab_set == github_set ==> spec_select_ci(gitlab_set, github_set) == CiDriverType::Local,
{
}

} // verus!
