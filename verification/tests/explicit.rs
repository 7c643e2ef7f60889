use std::str::FromStr;

use lock_export::error::ExportError;
use lock_export::explicit::{
    build_explicit_spec, explicit_spec_contents, ExplicitEntry, ExplicitEnvironmentSpec,
};
use lock_export::package::NativePackage;
use rattler_conda_types::Platform;
use url::Url;

const MD5_A: [u8; 16] = [
    0xd4, 0x1d, 0x8c, 0xd9, 0x8f, 0x00, 0xb2, 0x04, 0xe9, 0x80, 0x09, 0x98, 0xec, 0xf8, 0x42, 0x7e,
];
const MD5_B: [u8; 16] = [
    0x00, 0x01, 0x02, 0x03, 0x04, 0x05, 0x06, 0x07, 0x08, 0x09, 0x0a, 0x0b, 0x0c, 0x0d, 0x0e, 0x0f,
];
const HEX_A: &str = "d41d8cd98f00b204e9800998ecf8427e";
const HEX_B: &str = "000102030405060708090a0b0c0d0e0f";

fn native(name: &str, url: &str, md5: Option<[u8; 16]>) -> NativePackage {
    NativePackage { name: name.to_string(), url: Url::parse(url).unwrap(), md5 }
}

fn locations(spec: &ExplicitEnvironmentSpec) -> Vec<String> {
    spec.entries.iter().map(|entry| entry.location()).collect()
}

#[test]
fn build_pins_each_package_by_its_digest() {
    let packages = vec![
        native("numpy", "https://conda.anaconda.org/conda-forge/linux-64/numpy-1.26.conda", Some(MD5_A)),
        native("python", "https://conda.anaconda.org/conda-forge/linux-64/python-3.12.conda", Some(MD5_B)),
    ];
    let spec = build_explicit_spec(Platform::Linux64, &packages).unwrap();
    assert_eq!(spec.platform, Platform::Linux64);
    assert_eq!(
        locations(&spec),
        vec![
            format!("https://conda.anaconda.org/conda-forge/linux-64/numpy-1.26.conda#{HEX_A}"),
            format!("https://conda.anaconda.org/conda-forge/linux-64/python-3.12.conda#{HEX_B}"),
        ]
    );
    assert_eq!(spec.entries[0].url.fragment(), Some(HEX_A));
    assert_eq!(spec.entries[1].url.fragment(), Some(HEX_B));
}

#[test]
fn build_keeps_the_order_of_the_packages() {
    let packages = vec![
        native("zlib", "https://example.com/z.conda", Some(MD5_B)),
        native("abc", "https://example.com/a.conda", Some(MD5_A)),
        native("mid", "https://example.com/m.conda", Some(MD5_B)),
    ];
    let spec = build_explicit_spec(Platform::Osx64, &packages).unwrap();
    assert_eq!(
        locations(&spec),
        vec![
            format!("https://example.com/z.conda#{HEX_B}"),
            format!("https://example.com/a.conda#{HEX_A}"),
            format!("https://example.com/m.conda#{HEX_B}"),
        ]
    );
}

#[test]
fn build_replaces_a_fragment_that_is_already_there() {
    let packages = vec![native("pkg", "https://example.com/p.conda?x=1#old-fragment", Some(MD5_A))];
    let spec = build_explicit_spec(Platform::Linux64, &packages).unwrap();
    assert_eq!(locations(&spec), vec![format!("https://example.com/p.conda?x=1#{HEX_A}")]);
}

#[test]
fn build_leaves_the_package_untouched() {
    let packages = vec![native("pkg", "https://example.com/p.conda#old", Some(MD5_A))];
    let _ = build_explicit_spec(Platform::Linux64, &packages).unwrap();
    assert_eq!(packages[0].url.as_str(), "https://example.com/p.conda#old");
}

#[test]
fn build_keeps_a_direct_reference_prefix() {
    let packages = vec![native("pkg", "direct+https://example.com/p.conda", Some(MD5_A))];
    let spec = build_explicit_spec(Platform::Linux64, &packages).unwrap();
    assert_eq!(locations(&spec), vec![format!("direct+https://example.com/p.conda#{HEX_A}")]);
}

#[test]
fn build_keeps_duplicates() {
    let packages = vec![
        native("pkg", "https://example.com/p.conda", Some(MD5_A)),
        native("pkg", "https://example.com/p.conda", Some(MD5_A)),
    ];
    let spec = build_explicit_spec(Platform::Linux64, &packages).unwrap();
    assert_eq!(
        locations(&spec),
        vec![
            format!("https://example.com/p.conda#{HEX_A}"),
            format!("https://example.com/p.conda#{HEX_A}"),
        ]
    );
}

#[test]
fn build_of_no_packages_is_an_empty_list() {
    let spec = build_explicit_spec(Platform::Win64, &[]).unwrap();
    assert_eq!(spec.platform, Platform::Win64);
    assert!(spec.entries.is_empty());
}

#[test]
fn build_fails_on_a_package_without_digest() {
    let packages = vec![native("nodigest", "https://example.com/n.conda", None)];
    let error = build_explicit_spec(Platform::Linux64, &packages).unwrap_err();
    assert_eq!(error, ExportError::Integrity { package: "nodigest".to_string() });
}

#[test]
fn build_names_the_first_package_without_digest() {
    let packages = vec![
        native("good", "https://example.com/g.conda", Some(MD5_A)),
        native("first-bad", "https://example.com/b1.conda", None),
        native("second-bad", "https://example.com/b2.conda", None),
        native("good-again", "https://example.com/g2.conda", Some(MD5_B)),
    ];
    let error = build_explicit_spec(Platform::Linux64, &packages).unwrap_err();
    assert_eq!(error, ExportError::Integrity { package: "first-bad".to_string() });
}

#[test]
fn build_fails_exactly_when_a_digest_is_missing() {
    let with = native("with", "https://example.com/w.conda", Some(MD5_A));
    let without = native("without", "https://example.com/o.conda", None);
    let lists = vec![
        vec![],
        vec![with.clone()],
        vec![without.clone()],
        vec![with.clone(), with.clone()],
        vec![with.clone(), without.clone()],
        vec![without.clone(), with.clone()],
    ];
    for packages in lists {
        let missing = packages.iter().any(|package| package.md5.is_none());
        assert_eq!(build_explicit_spec(Platform::Linux64, &packages).is_err(), missing);
    }
}

#[test]
fn entry_gives_location_and_digest() {
    let packages = vec![native("pkg", "https://example.com/p.conda", Some(MD5_B))];
    let spec = build_explicit_spec(Platform::Linux64, &packages).unwrap();
    assert_eq!(spec.entries[0].location(), format!("https://example.com/p.conda#{HEX_B}"));
    assert_eq!(spec.entries[0].digest(), Some(HEX_B.to_string()));
}

#[test]
fn entry_without_fragment_has_no_digest() {
    let entry = ExplicitEntry { url: Url::parse("https://example.com/p.conda").unwrap() };
    assert_eq!(entry.location(), "https://example.com/p.conda");
    assert_eq!(entry.digest(), None);
}

#[test]
fn spec_string_names_platform_marker_and_urls() {
    let packages = vec![
        native("a", "https://example.com/a.conda", Some(MD5_A)),
        native("b", "https://example.com/b.conda", Some(MD5_B)),
    ];
    let spec = build_explicit_spec(Platform::Linux64, &packages).unwrap();
    assert_eq!(
        spec.to_spec_string(),
        format!(
            "# platform: linux-64\n@EXPLICIT\nhttps://example.com/a.conda#{HEX_A}\nhttps://example.com/b.conda#{HEX_B}\n"
        )
    );
}

#[test]
fn spec_string_of_an_empty_list_has_only_the_head() {
    let spec = ExplicitEnvironmentSpec { platform: Platform::OsxArm64, entries: vec![] };
    assert_eq!(spec.to_spec_string(), "# platform: osx-arm64\n@EXPLICIT\n");
}

#[test]
fn contents_open_with_the_provenance_comment() {
    let packages = vec![native("a", "https://example.com/a.conda", Some(MD5_A))];
    let spec = build_explicit_spec(Platform::Linux64, &packages).unwrap();
    assert_eq!(
        explicit_spec_contents(&spec),
        format!(
            "# Generated by `pixi project export`\n# platform: linux-64\n@EXPLICIT\nhttps://example.com/a.conda#{HEX_A}\n"
        )
    );
}

#[test]
fn contents_are_read_back_by_the_format_s_own_reader() {
    let packages = vec![
        native("a", "https://example.com/a.conda", Some(MD5_A)),
        native("b", "https://example.com/sub/b.tar.bz2?x=y", Some(MD5_B)),
        native("a", "https://example.com/a.conda", Some(MD5_A)),
    ];
    let spec = build_explicit_spec(Platform::LinuxAarch64, &packages).unwrap();
    let read =
        rattler_conda_types::ExplicitEnvironmentSpec::from_str(&explicit_spec_contents(&spec))
            .unwrap();
    assert_eq!(read.platform, Some(Platform::LinuxAarch64));
    let read_urls: Vec<Url> = read.packages.into_iter().map(|package| package.url).collect();
    let written_urls: Vec<Url> = spec.entries.iter().map(|entry| entry.url.clone()).collect();
    assert_eq!(read_urls, written_urls);
    let digests: Vec<Option<&str>> = read_urls.iter().map(|url| url.fragment()).collect();
    assert_eq!(digests, vec![Some(HEX_A), Some(HEX_B), Some(HEX_A)]);
}
