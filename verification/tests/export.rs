use std::path::PathBuf;

use lock_export::error::{Artifact, ExportError, MissingKey};
use lock_export::export::{
    explicit_spec_file, requirements_file, resolve_platform, start_export, Args, ExportRequest,
    ExportStep, FileToWrite, LockSlice, PendingExport,
};
use lock_export::package::{
    Location, LockedPackage, NativePackage, PackageHashes, SecondaryPackage, UnsupportedPolicy,
};
use rattler_conda_types::Platform;
use typed_path::UnixPathBuf;
use url::Url;

const MD5_A: [u8; 16] = [
    0xd4, 0x1d, 0x8c, 0xd9, 0x8f, 0x00, 0xb2, 0x04, 0xe9, 0x80, 0x09, 0x98, 0xec, 0xf8, 0x42, 0x7e,
];
const MD5_B: [u8; 16] = [
    0x00, 0x01, 0x02, 0x03, 0x04, 0x05, 0x06, 0x07, 0x08, 0x09, 0x0a, 0x0b, 0x0c, 0x0d, 0x0e, 0x0f,
];
const HEX_A: &str = "d41d8cd98f00b204e9800998ecf8427e";
const HEX_B: &str = "000102030405060708090a0b0c0d0e0f";

fn request(policy: UnsupportedPolicy) -> ExportRequest {
    ExportRequest {
        environment: "default".to_string(),
        platform: Platform::Linux64,
        manifest: "/work/pixi.toml".to_string(),
        policy,
    }
}

fn native(name: &str, md5: Option<[u8; 16]>) -> LockedPackage {
    LockedPackage::Native(NativePackage {
        name: name.to_string(),
        url: Url::parse(&format!("https://conda.example.org/linux-64/{name}-1.0.conda")).unwrap(),
        md5,
    })
}

fn local(path: PathBuf, editable: bool, hashes: Option<PackageHashes>) -> LockedPackage {
    LockedPackage::Secondary(SecondaryPackage { location: Location::Path(path), editable, hashes })
}

/// What running an export to its end leaves behind.
struct Outcome {
    written: Vec<FileToWrite>,
    warnings: usize,
    result: Result<(), ExportError>,
}

/// Runs an export; the file named `fails_on`, if any, cannot be written.
fn run(request: ExportRequest, slice: LockSlice, fails_on: Option<&str>) -> Outcome {
    let mut written = Vec::new();
    let start = start_export(request, slice);
    let warnings = start.ignored;
    let mut step = start.step;
    loop {
        match step {
            ExportStep::Write { file, pending } => {
                if fails_on == Some(file.name.as_str()) {
                    step = pending.write_failed(format!("/cwd/{}", file.name), "disk full".to_string());
                } else {
                    written.push(file);
                    step = pending.written();
                }
            }
            ExportStep::Finished => return Outcome { written, warnings, result: Ok(()) },
            ExportStep::Failed(error) => return Outcome { written, warnings, result: Err(error) },
        }
    }
}

#[test]
fn platform_asked_for_wins_over_the_best_one() {
    assert_eq!(resolve_platform(Some(Platform::Win64), Platform::Linux64), Platform::Win64);
    assert_eq!(resolve_platform(None, Platform::Linux64), Platform::Linux64);
}

#[test]
fn arguments_make_the_request() {
    let args = Args {
        environment: None,
        platform: None,
        ignore_pypi_errors: false,
        write_pypi_requirements: true,
    };
    assert_eq!(args.policy(), UnsupportedPolicy::EmitAsRequirements);
    let request =
        args.request("default".to_string(), Platform::Osx64, "/work/pixi.toml".to_string());
    assert_eq!(request.environment, "default");
    assert_eq!(request.platform, Platform::Osx64);
    assert_eq!(request.manifest, "/work/pixi.toml");
    assert_eq!(request.policy, UnsupportedPolicy::EmitAsRequirements);

    let args = Args {
        environment: Some("prod".to_string()),
        platform: Some(Platform::Win64),
        ignore_pypi_errors: true,
        write_pypi_requirements: false,
    };
    let request = args.request("prod".to_string(), Platform::Osx64, "pixi.toml".to_string());
    assert_eq!(request.platform, Platform::Win64);
    assert_eq!(request.policy, UnsupportedPolicy::Ignore);

    let args = Args {
        environment: None,
        platform: None,
        ignore_pypi_errors: false,
        write_pypi_requirements: false,
    };
    assert_eq!(args.policy(), UnsupportedPolicy::Fail);
}

#[test]
fn file_names_follow_platform_and_environment() {
    assert_eq!(explicit_spec_file(&Platform::Linux64, "default"), "conda-linux-64-default.lock");
    assert_eq!(explicit_spec_file(&Platform::OsxArm64, "test-env"), "conda-osx-arm64-test-env.lock");
    assert_eq!(requirements_file(&Platform::Linux64, "default"), "requirements-linux-64-default.txt");
    assert_eq!(requirements_file(&Platform::Win64, "dev"), "requirements-win-64-dev.txt");
}

#[test]
fn export_of_native_packages_writes_the_pinned_list_alone() {
    let slice = LockSlice::Packages(vec![native("numpy", Some(MD5_A)), native("python", Some(MD5_B))]);
    let outcome = run(request(UnsupportedPolicy::Fail), slice, None);
    assert_eq!(outcome.result, Ok(()));
    assert_eq!(outcome.warnings, 0);
    assert_eq!(
        outcome.written,
        vec![FileToWrite {
            artifact: Artifact::ExplicitSpec,
            name: "conda-linux-64-default.lock".to_string(),
            contents: format!(
                "# Generated by `pixi project export`\n# platform: linux-64\n@EXPLICIT\nhttps://conda.example.org/linux-64/numpy-1.0.conda#{HEX_A}\nhttps://conda.example.org/linux-64/python-1.0.conda#{HEX_B}\n"
            ),
        }]
    );
}

#[test]
fn export_fails_on_a_native_package_without_digest_and_writes_nothing() {
    let slice = LockSlice::Packages(vec![native("numpy", None)]);
    let outcome = run(request(UnsupportedPolicy::Fail), slice, None);
    assert_eq!(outcome.result, Err(ExportError::Integrity { package: "numpy".to_string() }));
    assert!(outcome.written.is_empty());
}

#[test]
fn export_ignoring_unsupported_packages_drops_them_with_a_warning() {
    let slice = LockSlice::Packages(vec![
        native("numpy", Some(MD5_A)),
        local(PathBuf::from("./my-package"), true, None),
    ]);
    let outcome = run(request(UnsupportedPolicy::Ignore), slice, None);
    assert_eq!(outcome.result, Ok(()));
    assert_eq!(outcome.warnings, 1);
    assert_eq!(
        outcome.written,
        vec![FileToWrite {
            artifact: Artifact::ExplicitSpec,
            name: "conda-linux-64-default.lock".to_string(),
            contents: format!(
                "# Generated by `pixi project export`\n# platform: linux-64\n@EXPLICIT\nhttps://conda.example.org/linux-64/numpy-1.0.conda#{HEX_A}\n"
            ),
        }]
    );
}

#[test]
fn export_emitting_requirements_writes_both_files() {
    let slice = LockSlice::Packages(vec![
        native("numpy", Some(MD5_A)),
        local(PathBuf::from("./my-package"), true, None),
    ]);
    let outcome = run(request(UnsupportedPolicy::EmitAsRequirements), slice, None);
    assert_eq!(outcome.result, Ok(()));
    assert_eq!(outcome.warnings, 0);
    assert_eq!(outcome.written.len(), 2);
    assert_eq!(outcome.written[0].artifact, Artifact::ExplicitSpec);
    assert_eq!(outcome.written[0].name, "conda-linux-64-default.lock");
    assert_eq!(
        outcome.written[0].contents,
        format!(
            "# Generated by `pixi project export`\n# platform: linux-64\n@EXPLICIT\nhttps://conda.example.org/linux-64/numpy-1.0.conda#{HEX_A}\n"
        )
    );
    assert_eq!(
        outcome.written[1],
        FileToWrite {
            artifact: Artifact::Requirements,
            name: "requirements-linux-64-default.txt".to_string(),
            contents: "-e ./my-package\n".to_string(),
        }
    );
}

#[test]
fn export_emitting_requirements_writes_an_empty_file_for_no_packages() {
    let slice = LockSlice::Packages(vec![native("numpy", Some(MD5_A))]);
    let outcome = run(request(UnsupportedPolicy::EmitAsRequirements), slice, None);
    assert_eq!(outcome.result, Ok(()));
    assert_eq!(outcome.written.len(), 2);
    assert_eq!(outcome.written[1].name, "requirements-linux-64-default.txt");
    assert_eq!(outcome.written[1].contents, "");
}

#[test]
fn export_refuses_unsupported_packages_and_writes_nothing() {
    let slice = LockSlice::Packages(vec![
        native("numpy", None),
        local(PathBuf::from("./my-package"), false, None),
    ]);
    let outcome = run(request(UnsupportedPolicy::Fail), slice, None);
    assert_eq!(outcome.result, Err(ExportError::Configuration));
    assert!(outcome.written.is_empty());
}

#[test]
fn export_of_an_unknown_environment_fails() {
    let outcome = run(request(UnsupportedPolicy::Fail), LockSlice::NoEnvironment, None);
    assert_eq!(
        outcome.result,
        Err(ExportError::NotFound {
            key: MissingKey::Environment,
            name: "default".to_string(),
            manifest: "/work/pixi.toml".to_string(),
        })
    );
    assert!(outcome.written.is_empty());
}

#[test]
fn export_for_a_platform_without_packages_fails() {
    let outcome = run(request(UnsupportedPolicy::Fail), LockSlice::NoPlatform, None);
    assert_eq!(
        outcome.result,
        Err(ExportError::NotFound {
            key: MissingKey::Platform,
            name: "linux-64".to_string(),
            manifest: "/work/pixi.toml".to_string(),
        })
    );
    assert!(outcome.written.is_empty());
}

#[test]
fn export_stops_when_the_pinned_list_cannot_be_written() {
    let slice = LockSlice::Packages(vec![
        native("numpy", Some(MD5_A)),
        local(PathBuf::from("./my-package"), false, None),
    ]);
    let outcome = run(
        request(UnsupportedPolicy::EmitAsRequirements),
        slice,
        Some("conda-linux-64-default.lock"),
    );
    assert_eq!(
        outcome.result,
        Err(ExportError::Io {
            artifact: Artifact::ExplicitSpec,
            path: "/cwd/conda-linux-64-default.lock".to_string(),
            cause: "disk full".to_string(),
        })
    );
    assert!(outcome.written.is_empty());
}

#[test]
fn export_keeps_the_pinned_list_when_the_requirements_cannot_be_written() {
    let slice = LockSlice::Packages(vec![
        native("numpy", Some(MD5_A)),
        local(PathBuf::from("./my-package"), false, None),
    ]);
    let outcome = run(
        request(UnsupportedPolicy::EmitAsRequirements),
        slice,
        Some("requirements-linux-64-default.txt"),
    );
    assert_eq!(
        outcome.result,
        Err(ExportError::Io {
            artifact: Artifact::Requirements,
            path: "/cwd/requirements-linux-64-default.txt".to_string(),
            cause: "disk full".to_string(),
        })
    );
    assert_eq!(outcome.written.len(), 1);
    assert_eq!(outcome.written[0].artifact, Artifact::ExplicitSpec);
}

#[test]
fn export_keeps_the_pinned_list_when_a_path_is_no_text() {
    let path = PathBuf::from(&UnixPathBuf::from(vec![0x2fu8, 0xff]));
    let slice = LockSlice::Packages(vec![native("numpy", Some(MD5_A)), local(path, false, None)]);
    let outcome = run(request(UnsupportedPolicy::EmitAsRequirements), slice, None);
    assert_eq!(outcome.result, Err(ExportError::Encoding));
    assert_eq!(outcome.written.len(), 1);
    assert_eq!(outcome.written[0].artifact, Artifact::ExplicitSpec);
}

#[test]
fn export_warns_of_ignored_packages_even_if_it_then_fails() {
    let slice = LockSlice::Packages(vec![
        local(PathBuf::from("./a"), false, None),
        native("numpy", None),
        local(PathBuf::from("./b"), false, None),
    ]);
    let outcome = run(request(UnsupportedPolicy::Ignore), slice, None);
    assert_eq!(outcome.result, Err(ExportError::Integrity { package: "numpy".to_string() }));
    assert_eq!(outcome.warnings, 2);
    assert!(outcome.written.is_empty());
}

#[test]
fn export_is_complete_after_the_requirements_are_written() {
    let pending = PendingExport {
        request: request(UnsupportedPolicy::EmitAsRequirements),
        artifact: Artifact::Requirements,
        secondary: vec![],
    };
    assert!(matches!(pending.written(), ExportStep::Finished));
}

#[test]
fn message_of_each_error() {
    let environment = ExportError::NotFound {
        key: MissingKey::Environment,
        name: "prod".to_string(),
        manifest: "/work/pixi.toml".to_string(),
    };
    assert_eq!(environment.message(), "unknown environment 'prod' in /work/pixi.toml");
    let platform = ExportError::NotFound {
        key: MissingKey::Platform,
        name: "win-64".to_string(),
        manifest: "/work/pixi.toml".to_string(),
    };
    assert_eq!(platform.message(), "platform 'win-64' not found in /work/pixi.toml");
    let integrity = ExportError::Integrity { package: "numpy".to_string() };
    assert_eq!(integrity.message(), "Package numpy does not contain an md5 hash");
    let configuration = ExportError::Configuration.message();
    assert!(configuration.contains("`--ignore-pypi-errors`"));
    assert!(configuration.contains("`--write-pypi-requirements`"));
    assert_eq!(
        configuration,
        "PyPI packages are not supported. Specify `--ignore-pypi-errors` to ignore this erroror `--write-pypi-requirements` to write pypi requirements to a separate requirements.txt file"
    );
    assert_eq!(ExportError::Encoding.message(), "Could not convert a local path to text");
    let spec = ExportError::Io {
        artifact: Artifact::ExplicitSpec,
        path: "/cwd/a.lock".to_string(),
        cause: "permission denied".to_string(),
    };
    assert_eq!(spec.message(), "Could not write environment file: permission denied");
    let requirements = ExportError::Io {
        artifact: Artifact::Requirements,
        path: "/cwd/a.txt".to_string(),
        cause: "permission denied".to_string(),
    };
    assert_eq!(requirements.message(), "Could not write requirements file: permission denied");
}
