use extr::dispatch::{adapter_or_error, resolve_batch, settle_batch};
use extr::error::DispatchError;
use extr::extractor::zip::ZipExtractor;
use extr::extractor::Extractor;
use extr::kind::ExtractorKind;
use extr::registry::{
    build_registry, get_extractor, register_extractor, register_extractors, Registry,
};
use extr::resolve::{is_usable, probe_binaries, probe_binary, select_binary, Probe};
use extr::trust::Platform;

fn found(path: &str) -> Probe {
    Probe { located: Some(path.to_string()), canonical: Some(path.to_string()) }
}

fn absent() -> Probe {
    Probe { located: None, canonical: None }
}

#[test]
fn only_installed_candidate_is_selected() {
    let names = vec!["a", "b", "c"];
    let probes = vec![absent(), found("/usr/bin/b"), absent()];
    let r = select_binary(Platform::Linux, &vec!["x"], &names, &probes);
    assert_eq!(r, Ok("/usr/bin/b".to_string()));
}

#[test]
fn first_usable_candidate_wins() {
    let names = vec!["a", "b", "c"];
    let probes = vec![found("/usr/bin/a"), found("/usr/bin/b"), found("/usr/bin/c")];
    let r = select_binary(Platform::Linux, &vec!["x"], &names, &probes);
    assert_eq!(r, Ok("/usr/bin/a".to_string()));
}

#[test]
fn untrusted_candidate_is_passed_over() {
    let names = vec!["a", "b"];
    let probes = vec![found("/home/me/bin/a"), found("/usr/local/bin/b")];
    let r = select_binary(Platform::Linux, &vec!["x"], &names, &probes);
    assert_eq!(r, Ok("/usr/local/bin/b".to_string()));
}

#[test]
fn symlink_into_untrusted_place_is_passed_over() {
    let linked = Probe {
        located: Some("/usr/bin/a".to_string()),
        canonical: Some("/home/me/a".to_string()),
    };
    let unresolved = Probe { located: Some("/usr/bin/b".to_string()), canonical: None };
    assert!(!is_usable(Platform::Linux, &linked));
    assert!(!is_usable(Platform::Linux, &unresolved));
    let kept = Probe {
        located: Some("/home/me/bin/c".to_string()),
        canonical: Some("/usr/bin/c".to_string()),
    };
    let r = select_binary(
        Platform::Linux,
        &vec!["x"],
        &vec!["a", "b", "c"],
        &vec![linked, unresolved, kept],
    );
    assert_eq!(r, Ok("/home/me/bin/c".to_string()));
}

#[test]
fn no_candidate_gives_error_naming_all() {
    let names = vec!["unzip", "7z", "bsdtar", "jar"];
    let probes = vec![absent(), found("/tmp/7z"), absent(), absent()];
    let r = select_binary(Platform::Linux, &vec!["zip", "jar", "war"], &names, &probes);
    let e = r.unwrap_err();
    assert_eq!(
        e,
        DispatchError::NoTrustedTool {
            formats: vec!["zip".to_string(), "jar".to_string(), "war".to_string()],
            candidates: vec![
                "unzip".to_string(),
                "7z".to_string(),
                "bsdtar".to_string(),
                "jar".to_string()
            ],
        }
    );
    let message = e.message();
    for name in names {
        assert!(message.contains(name));
    }
    assert_eq!(
        message,
        "💥 Whoops! No suitable extraction tool found on your system for zip, jar, war archives. Please use your package manager to install one of: unzip, 7z, bsdtar, jar"
    );
}

#[test]
fn unknown_platform_resolves_nothing() {
    let r = select_binary(Platform::Other, &vec!["x"], &vec!["a"], &vec![found("/usr/bin/a")]);
    assert!(r.is_err());
    assert!(ZipExtractor.get_verified_binary(Platform::Other).is_err());
}

#[test]
fn probing_a_missing_tool_finds_nothing() {
    let p = probe_binary("no-such-tool-by-this-name-anywhere");
    assert_eq!(p, absent());
    assert_eq!(probe_binaries(&vec!["no-such-tool-a", "no-such-tool-b"]).len(), 2);
}

#[test]
fn compound_key_selects_tar_adapter() {
    let mut registry = Registry::new();
    register_extractor(&mut registry, ExtractorKind::Gzip);
    register_extractor(&mut registry, ExtractorKind::Tar);
    assert_eq!(get_extractor(&registry, "archive.tar.gz"), Some(ExtractorKind::Tar));
    assert_eq!(get_extractor(&registry, "archive.gz"), Some(ExtractorKind::Gzip));
    assert_eq!(get_extractor(&registry, "archive.zip"), None);
}

#[test]
fn later_registration_takes_the_key_over() {
    let mut registry = Registry::new();
    registry.insert("gz", ExtractorKind::Gzip);
    assert_eq!(registry.get("gz"), Some(ExtractorKind::Gzip));
    registry.insert("gz", ExtractorKind::Tar);
    assert_eq!(registry.get("gz"), Some(ExtractorKind::Tar));
    assert_eq!(registry.len(), 1);
}

#[test]
fn registry_holds_keys_in_ascending_order() {
    let mut registry = Registry::new();
    registry.insert("zip", ExtractorKind::Zip);
    registry.insert("7z", ExtractorKind::Sevenz);
    registry.insert("tar.gz", ExtractorKind::Tar);
    registry.insert("tar", ExtractorKind::Tar);
    registry.insert("gz", ExtractorKind::Gzip);
    let mut keys = Vec::new();
    for i in 0..registry.len() {
        keys.push(registry.entry(i).0.to_string());
    }
    assert_eq!(keys, vec!["7z", "gz", "tar", "tar.gz", "zip"]);
    assert_eq!(registry.entry(1), ("gz", ExtractorKind::Gzip));
}

#[test]
fn full_registry_knows_every_format() {
    let registry = register_extractors();
    assert_eq!(registry.len(), 29);
    assert_eq!(get_extractor(&registry, "a.zip"), Some(ExtractorKind::Zip));
    assert_eq!(get_extractor(&registry, "a.JAR"), Some(ExtractorKind::Zip));
    assert_eq!(get_extractor(&registry, "a.tgz"), Some(ExtractorKind::Tar));
    assert_eq!(get_extractor(&registry, "a.tar.zst"), Some(ExtractorKind::Tar));
    assert_eq!(get_extractor(&registry, "a.zst"), Some(ExtractorKind::Zstd));
    assert_eq!(get_extractor(&registry, "a.7z"), Some(ExtractorKind::Sevenz));
    assert_eq!(get_extractor(&registry, "a.rpm"), Some(ExtractorKind::DebRpm));
    assert_eq!(get_extractor(&registry, "a.lzh"), Some(ExtractorKind::Lha));
    assert_eq!(get_extractor(&registry, "a.exe"), Some(ExtractorKind::Sfx));
    assert_eq!(get_extractor(&registry, "a.unknownext"), None);
    assert_eq!(get_extractor(&registry, "/"), None);
}

#[test]
fn compress_adapter_is_reached_in_either_case() {
    let registry = register_extractors();
    assert_eq!(get_extractor(&registry, "file.Z"), Some(ExtractorKind::Compress));
    assert_eq!(get_extractor(&registry, "file.z"), Some(ExtractorKind::Compress));
    assert_eq!(registry.get("z"), Some(ExtractorKind::Compress));
    assert_eq!(registry.get("Z"), None);
    let found = get_extractor(&registry, "file.Z").unwrap();
    assert_eq!(found.binary_names(Platform::Linux), vec!["uncompress"]);
}

#[test]
fn keys_are_lower_cased_when_they_are_made() {
    let mut registry = Registry::new();
    registry.insert("GZ", ExtractorKind::Gzip);
    registry.insert("Tar.Gz", ExtractorKind::Tar);
    assert_eq!(registry.len(), 2);
    assert_eq!(registry.entry(0), ("gz", ExtractorKind::Gzip));
    assert_eq!(registry.entry(1), ("tar.gz", ExtractorKind::Tar));
    assert_eq!(registry.get("gz"), Some(ExtractorKind::Gzip));
    assert_eq!(registry.get("GZ"), None);
    registry.insert("gz", ExtractorKind::Zip);
    assert_eq!(registry.len(), 2);
    assert_eq!(registry.get("gz"), Some(ExtractorKind::Zip));
    assert_eq!(get_extractor(&registry, "a.GZ"), Some(ExtractorKind::Zip));
}

#[test]
fn every_key_of_the_full_registry_is_lower_case() {
    let registry = register_extractors();
    for i in 0..registry.len() {
        let key = registry.entry(i).0.to_string();
        assert_eq!(key, key.to_lowercase());
    }
}

#[test]
fn adapter_without_candidates_resolves_nothing() {
    let r = select_binary(Platform::Linux, &vec!["x"], &vec![], &vec![]);
    assert_eq!(
        r,
        Err(DispatchError::NoTrustedTool { formats: vec!["x".to_string()], candidates: vec![] })
    );
}

#[test]
fn registry_from_a_list_of_adapters() {
    let registry = build_registry(&vec![ExtractorKind::Zip, ExtractorKind::Xz]);
    assert_eq!(registry.len(), 4);
    assert_eq!(registry.get("war"), Some(ExtractorKind::Zip));
    assert_eq!(registry.get("xz"), Some(ExtractorKind::Xz));
    assert_eq!(registry.get("gz"), None);
}

#[test]
fn file_without_adapter_is_unsupported() {
    let registry = register_extractors();
    let e = adapter_or_error(&registry, "b.unknownext").unwrap_err();
    assert_eq!(e, DispatchError::UnsupportedFormat { file: "b.unknownext".to_string() });
    assert_eq!(
        e.message(),
        "💥 Whoops! Unable to find a supported extractor for b.unknownext, is the file an archive?"
    );
    assert_eq!(adapter_or_error(&registry, "a.zip"), Ok(ExtractorKind::Zip));
}

#[test]
fn batch_with_unknown_file_fails_as_a_whole() {
    let registry = register_extractors();
    let files = vec!["a.zip".to_string(), "b.unknownext".to_string()];
    assert!(resolve_batch(&registry, Platform::Linux, &files).is_err());
    let alone = vec!["b.unknownext".to_string()];
    assert_eq!(
        resolve_batch(&registry, Platform::Linux, &alone),
        Err(DispatchError::UnsupportedFormat { file: "b.unknownext".to_string() })
    );
}

#[test]
fn empty_batch_resolves_to_nothing() {
    let registry = register_extractors();
    assert_eq!(resolve_batch(&registry, Platform::Linux, &vec![]), Ok(vec![]));
}

#[test]
fn batch_on_unknown_platform_fails() {
    let registry = register_extractors();
    let files = vec!["a.zip".to_string()];
    let e = resolve_batch(&registry, Platform::Other, &files).unwrap_err();
    assert_eq!(
        e,
        DispatchError::NoTrustedTool {
            formats: vec!["zip".to_string(), "jar".to_string(), "war".to_string()],
            candidates: vec![
                "unzip".to_string(),
                "7z".to_string(),
                "bsdtar".to_string(),
                "jar".to_string()
            ],
        }
    );
}

fn names(files: &[&str]) -> Vec<String> {
    files.iter().map(|f| f.to_string()).collect()
}

#[test]
fn batch_passes_when_every_file_has_a_usable_tool() {
    let registry = register_extractors();
    let files = names(&["a.zip", "b.tar.gz"]);
    let probes = vec![
        vec![absent(), found("/usr/bin/7z"), absent(), absent()],
        vec![absent(), found("/usr/bin/tar"), absent(), absent()],
    ];
    assert_eq!(
        settle_batch(&registry, Platform::Linux, &files, &probes),
        Ok(vec![ExtractorKind::Zip, ExtractorKind::Tar])
    );
}

#[test]
fn batch_fails_with_the_first_failing_file() {
    let registry = register_extractors();
    let files = names(&["a.zip", "b.gz", "c.unknownext"]);
    let probes = vec![
        vec![found("/usr/bin/unzip"), absent(), absent(), absent()],
        vec![absent(), found("/home/me/bin/gunzip")],
        vec![],
    ];
    assert_eq!(
        settle_batch(&registry, Platform::Linux, &files, &probes),
        Err(DispatchError::NoTrustedTool {
            formats: vec!["gz".to_string()],
            candidates: vec!["gzip".to_string(), "gunzip".to_string()],
        })
    );
}

#[test]
fn unsupported_file_fails_the_batch_whatever_was_found() {
    let registry = register_extractors();
    let files = names(&["a.zip", "b.unknownext"]);
    let probes = vec![
        vec![found("/usr/bin/unzip"), absent(), absent(), absent()],
        vec![found("/usr/bin/anything")],
    ];
    assert_eq!(
        settle_batch(&registry, Platform::Linux, &files, &probes),
        Err(DispatchError::UnsupportedFormat { file: "b.unknownext".to_string() })
    );
    let other_way = names(&["b.unknownext", "a.zip"]);
    assert_eq!(
        settle_batch(&registry, Platform::Linux, &other_way, &vec![vec![], vec![]]),
        Err(DispatchError::UnsupportedFormat { file: "b.unknownext".to_string() })
    );
}

#[test]
fn file_without_findings_has_no_usable_tool() {
    let registry = register_extractors();
    let files = names(&["a.xz"]);
    assert_eq!(
        settle_batch(&registry, Platform::Linux, &files, &vec![]),
        Err(DispatchError::NoTrustedTool {
            formats: vec!["xz".to_string()],
            candidates: vec!["xz".to_string(), "unxz".to_string()],
        })
    );
    assert_eq!(settle_batch(&registry, Platform::Linux, &vec![], &vec![]), Ok(vec![]));
}
