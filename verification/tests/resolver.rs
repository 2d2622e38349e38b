use driver_select::resolve::{DriverError, DriverResolver, HostProbes, VersionPolicy};
use driver_select::types::{
    BuildDriverType, CiDriverType, InspectDriverType, RunDriverType, SigningDriverType,
};

fn no_host() -> HostProbes {
    HostProbes {
        skopeo_present: false,
        docker_present: false,
        podman_present: false,
        buildah_present: false,
        cosign_present: false,
        gitlab_ci_set: false,
        github_actions_set: false,
    }
}

fn versions(docker_ok: bool, podman_ok: bool, buildah_ok: bool) -> VersionPolicy {
    VersionPolicy {
        docker_ok,
        podman_ok,
        buildah_ok,
        docker_req: ">=23".to_string(),
        podman_req: ">=4".to_string(),
        buildah_req: ">=1.24".to_string(),
    }
}

#[test]
fn repeated_resolution_probes_once() {
    let mut resolver = DriverResolver::new(false);
    let probes = HostProbes {
        skopeo_present: true,
        docker_present: true,
        podman_present: true,
        buildah_present: true,
        cosign_present: true,
        gitlab_ci_set: false,
        github_actions_set: false,
    };
    let first = resolver.resolve_inspect(None, &probes).unwrap();
    assert!(matches!(first, InspectDriverType::Skopeo));
    assert_eq!(resolver.probe_count, 1);
    for _ in 0..10 {
        let again = resolver.resolve_inspect(None, &probes).unwrap();
        assert!(matches!(again, InspectDriverType::Skopeo));
        assert_eq!(resolver.probe_count, 1);
    }
}

#[test]
fn repeated_resolution_ignores_changed_host() {
    let mut resolver = DriverResolver::new(false);
    let mut probes = no_host();
    probes.podman_present = true;
    let first = resolver.resolve_inspect(None, &probes).unwrap();
    assert!(matches!(first, InspectDriverType::Podman));
    // Even if the host changes afterwards, the cached choice stands.
    probes.skopeo_present = true;
    let again = resolver.resolve_inspect(None, &probes).unwrap();
    assert!(matches!(again, InspectDriverType::Podman));
    assert_eq!(resolver.probe_count, 1);
}

#[test]
fn override_wins_without_probing() {
    let mut resolver = DriverResolver::new(false);
    let probes = HostProbes {
        skopeo_present: true,
        docker_present: true,
        podman_present: true,
        buildah_present: true,
        cosign_present: true,
        gitlab_ci_set: true,
        github_actions_set: false,
    };
    let v = versions(true, true, true);
    let inspect = resolver
        .resolve_inspect(Some(InspectDriverType::Podman), &probes)
        .unwrap();
    assert!(matches!(inspect, InspectDriverType::Podman));
    let build = resolver
        .resolve_build(Some(BuildDriverType::Buildah), &probes, &v)
        .unwrap();
    assert!(matches!(build, BuildDriverType::Buildah));
    let run = resolver
        .resolve_run(Some(RunDriverType::Podman), &probes, &v)
        .unwrap();
    assert!(matches!(run, RunDriverType::Podman));
    let signing = resolver.resolve_signing(Some(SigningDriverType::Sigstore), &probes);
    assert!(matches!(signing, SigningDriverType::Sigstore));
    let ci = resolver.resolve_ci(Some(CiDriverType::Github), &probes);
    assert!(matches!(ci, CiDriverType::Github));
    assert_eq!(resolver.probe_count, 0);
}

#[test]
fn build_prefers_docker_over_podman() {
    let mut resolver = DriverResolver::new(false);
    let mut probes = no_host();
    probes.docker_present = true;
    probes.podman_present = true;
    let choice = resolver
        .resolve_build(None, &probes, &versions(true, true, true))
        .unwrap();
    assert!(matches!(choice, BuildDriverType::Docker));
}

#[test]
fn build_takes_podman_when_docker_not_valid() {
    let mut resolver = DriverResolver::new(false);
    let mut probes = no_host();
    probes.docker_present = true;
    probes.podman_present = true;
    // Docker is installed but its version does not satisfy the requirement.
    let choice = resolver
        .resolve_build(None, &probes, &versions(false, true, true))
        .unwrap();
    assert!(matches!(choice, BuildDriverType::Podman));
}

#[test]
fn build_falls_back_to_buildah() {
    let mut resolver = DriverResolver::new(false);
    let mut probes = no_host();
    probes.buildah_present = true;
    let choice = resolver
        .resolve_build(None, &probes, &versions(true, true, true))
        .unwrap();
    assert!(matches!(choice, BuildDriverType::Buildah));
}

#[test]
fn build_with_no_usable_backend_is_fatal() {
    let mut resolver = DriverResolver::new(false);
    let result = resolver.resolve_build(None, &no_host(), &versions(true, true, true));
    let err = result.expect_err("no backend should resolve");
    let message = err.message();
    assert!(message.contains("docker"));
    assert!(message.contains("podman"));
    assert!(message.contains("buildah"));
    assert!(message.contains(">=23"));
    assert!(message.contains(">=4"));
    assert!(message.contains(">=1.24"));
}

#[test]
fn build_present_but_all_versions_unsatisfied_is_fatal() {
    let mut resolver = DriverResolver::new(false);
    let mut probes = no_host();
    probes.docker_present = true;
    probes.podman_present = true;
    probes.buildah_present = true;
    let result = resolver.resolve_build(None, &probes, &versions(false, false, false));
    assert!(matches!(result, Err(DriverError::NoBuildDriver { .. })));
}

#[test]
fn inspect_priority_and_fatal_message() {
    let mut probes = no_host();
    probes.docker_present = true;
    probes.podman_present = true;
    let mut resolver = DriverResolver::new(false);
    let choice = resolver.resolve_inspect(None, &probes).unwrap();
    assert!(matches!(choice, InspectDriverType::Docker));

    let mut fresh = DriverResolver::new(false);
    let err = fresh
        .resolve_inspect(None, &no_host())
        .expect_err("no inspection tool is present");
    let message = err.message();
    assert_eq!(
        message,
        "Could not determine inspection strategy. You need either skopeo, docker, or podman"
    );
    assert!(matches!(err, DriverError::NoInspectDriver));
}

#[test]
fn run_priority_and_fatal() {
    let mut probes = no_host();
    probes.docker_present = true;
    probes.podman_present = true;
    let mut resolver = DriverResolver::new(false);
    let choice = resolver
        .resolve_run(None, &probes, &versions(true, true, true))
        .unwrap();
    assert!(matches!(choice, RunDriverType::Docker));

    let mut fresh = DriverResolver::new(false);
    let err = fresh
        .resolve_run(None, &probes, &versions(false, false, false))
        .expect_err("no run backend is usable");
    assert!(matches!(err, DriverError::NoRunDriver { .. }));
    let message = err.message();
    assert!(message.contains("docker"));
    assert!(message.contains("podman"));
}

#[test]
fn signing_without_sigstore_is_cosign_without_probing() {
    let mut resolver = DriverResolver::new(false);
    let choice = resolver.resolve_signing(None, &no_host());
    assert!(matches!(choice, SigningDriverType::Cosign));
    assert_eq!(resolver.probe_count, 0);
}

#[test]
fn signing_with_sigstore_depends_on_cosign() {
    let mut with_cosign = DriverResolver::new(true);
    let mut probes = no_host();
    probes.cosign_present = true;
    let choice = with_cosign.resolve_signing(None, &probes);
    assert!(matches!(choice, SigningDriverType::Cosign));
    assert_eq!(with_cosign.probe_count, 1);

    let mut without_cosign = DriverResolver::new(true);
    let choice = without_cosign.resolve_signing(None, &no_host());
    assert!(matches!(choice, SigningDriverType::Sigstore));
}

#[test]
fn ci_context_combinations() {
    let combos = [
        (true, false, CiDriverType::Gitlab),
        (false, true, CiDriverType::Github),
        (true, true, CiDriverType::Local),
        (false, false, CiDriverType::Local),
    ];
    for (gitlab, github, expected) in combos {
        let mut resolver = DriverResolver::new(false);
        let mut probes = no_host();
        probes.gitlab_ci_set = gitlab;
        probes.github_actions_set = github;
        let choice = resolver.resolve_ci(None, &probes);
        assert_eq!(choice, expected);
    }
}
