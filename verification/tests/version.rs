use fping_exporter::fping::version::{
    output_to_version, parse_fping_version, version_from, ProcessOutput, Version, VersionError,
};
use fping_exporter::fping::{discovery_timeout, for_program, PROBE_FLAGS, VERSION_FLAG};
use fping_exporter::scrape::{advance, AccessError, ScrapeAction, ScrapeEvent, ScrapeMode, ScrapeStage};
use std::io;

fn basic_template(program_path: &str) {
    assert_eq!(
        parse_fping_version(&format!(
            "{0}: Version 4.2\n{0}: comments to david@schweikert.ch\n",
            program_path
        )),
        Some(Version::new(4, 2, 0))
    );
    assert_eq!(
        parse_fping_version(&format!("{}: Version 5.0\n", program_path)),
        Some(Version::new(5, 0, 0))
    );
}

#[test]
fn handling_fping_paths() {
    // Lookup through PATH
    basic_template("fping");
    // Direct call
    basic_template("/bin/fping");
    // nix derivation
    basic_template("/nix/store/s03vfmkr85irmca739szvnpfrps267pl-fping-5.0/bin/fping");
    // relative call
    basic_template("../fping/bin/fping");

    // No output -> failure to parse
    assert_eq!(parse_fping_version(""), None);
}

#[test]
fn version_components() {
    assert_eq!(parse_fping_version("fping: Version 4.3.1"), Some(Version::new(4, 3, 1)));
    assert_eq!(parse_fping_version("fping: Version 10.20.30-rc1"), Some(Version::new(10, 20, 30)));
    assert_eq!(parse_fping_version("fping: Version 4"), None);
    assert_eq!(parse_fping_version(": Version 4.2"), None);
    assert_eq!(parse_fping_version("fping: Version 18446744073709551616.2"), None);
    // a patch number that cannot be read counts as 0
    assert_eq!(parse_fping_version("fping: Version 4.2.18446744073709551616"), Some(Version::new(4, 2, 0)));
    assert_eq!(version_from(Some(vec![Some("1"), Some("2"), Some("3")])), Some(Version { major: 1, minor: 2, patch: 3 }));
    assert_eq!(version_from(Some(vec![Some("1"), Some("2"), None])), Some(Version::new(1, 2, 0)));
    assert_eq!(version_from(Some(vec![Some("1"), None, Some("3")])), None);
    assert_eq!(version_from(Some(vec![Some("1"), Some("2")])), None);
    assert_eq!(version_from(None), None);
}

#[test]
fn probe_output_becomes_a_version() {
    let ran = |code: Option<i32>, stdout: &str| output_to_version(Ok(ProcessOutput { code, stdout: stdout.to_string() }));
    assert!(matches!(ran(Some(0), "fping: Version 4.4\n"), Ok(Version { major: 4, minor: 4, patch: 0 })));
    assert!(matches!(ran(Some(0), "hello"), Err(VersionError::UnknownFormat(text)) if text == "hello"));
    assert!(matches!(ran(Some(4), "fping: Version 4.4\n"), Err(VersionError::DependenciesMissing)));
    assert!(matches!(ran(Some(1), "out"), Err(VersionError::ProcessFailure(Some(1), text)) if text == "out"));
    assert!(matches!(ran(None, "fping: Version 4.4"), Err(VersionError::ProcessFailure(None, text)) if text == "fping: Version 4.4"));
}

#[test]
fn probe_that_cannot_be_run() {
    assert!(matches!(
        output_to_version(Err(io::Error::from(io::ErrorKind::NotFound))),
        Err(VersionError::BinaryNotFound)
    ));
    assert!(matches!(
        output_to_version(Err(io::Error::from(io::ErrorKind::PermissionDenied))),
        Err(VersionError::Other(error)) if error.kind() == io::ErrorKind::PermissionDenied
    ));
    assert!(matches!(VersionError::from_io(io::Error::from(io::ErrorKind::NotFound)), VersionError::BinaryNotFound));
    assert!(matches!(
        VersionError::timed_out(),
        VersionError::SpecificFailure(text) if text.starts_with("fping failed to exit in a reasonable timespan")
    ));
}

#[test]
fn probe_gets_fifty_milliseconds_for_its_version() {
    assert_eq!(discovery_timeout(), std::time::Duration::from_millis(50));
}

#[test]
fn launcher_arguments() {
    let launcher = for_program("/bin/fping");
    assert_eq!(launcher.program(), "/bin/fping");
    assert_eq!(launcher.version_arguments(), vec![VERSION_FLAG.to_string()]);
    assert_eq!(VERSION_FLAG, "--version");
    assert_eq!(PROBE_FLAGS, "-ADln");
    assert_eq!(
        launcher.spawn_arguments(&vec!["dns.google".to_string(), "::1".to_string()]),
        vec!["-ADln".to_string(), "dns.google".to_string(), "::1".to_string()]
    );
    assert_eq!(launcher.spawn_arguments(&Vec::new()), vec!["-ADln".to_string()]);
}

#[test]
fn scrape_mode_follows_the_version() {
    assert_eq!(ScrapeMode::for_version(&Version::new(4, 3, 0)), ScrapeMode::Limited);
    assert_eq!(ScrapeMode::for_version(&Version::new(4, 4, 0)), ScrapeMode::Limited);
    assert_eq!(ScrapeMode::for_version(&Version::new(5, 0, 0)), ScrapeMode::Limited);
    assert_eq!(ScrapeMode::for_version(&Version::new(4, 2, 9)), ScrapeMode::Unlimited);
    assert_eq!(ScrapeMode::for_version(&Version::new(3, 10, 0)), ScrapeMode::Unlimited);
    assert_eq!(ScrapeMode::select(true), ScrapeMode::Limited);
    assert_eq!(ScrapeMode::select(false), ScrapeMode::Unlimited);
    assert_eq!(ScrapeMode::Limited.queue_capacity(), Some(1));
    assert_eq!(ScrapeMode::Unlimited.queue_capacity(), None);
}

#[test]
fn limited_scrape_waits_for_its_cycle() {
    let mode = ScrapeMode::Limited;
    assert_eq!(advance(mode, ScrapeStage::Start, ScrapeEvent::Begin), Some((ScrapeStage::Requesting, ScrapeAction::Request)));
    assert_eq!(advance(mode, ScrapeStage::Requesting, ScrapeEvent::Accepted), Some((ScrapeStage::Waiting, ScrapeAction::Await)));
    assert_eq!(advance(mode, ScrapeStage::Waiting, ScrapeEvent::Completed), Some((ScrapeStage::Finished, ScrapeAction::Snapshot)));
    assert_eq!(
        advance(mode, ScrapeStage::Waiting, ScrapeEvent::Dropped),
        Some((ScrapeStage::Finished, ScrapeAction::Fail(AccessError::RequestDropped)))
    );
    assert_eq!(advance(mode, ScrapeStage::Start, ScrapeEvent::Completed), None);
    assert_eq!(advance(mode, ScrapeStage::Finished, ScrapeEvent::Begin), None);
}

#[test]
fn scrape_fails_fast_when_the_probe_is_gone() {
    assert_eq!(
        advance(ScrapeMode::Limited, ScrapeStage::Requesting, ScrapeEvent::Refused),
        Some((ScrapeStage::Finished, ScrapeAction::Fail(AccessError::FpingProcessDead)))
    );
}

#[test]
fn unlimited_scrape_reads_at_once() {
    let mode = ScrapeMode::Unlimited;
    assert_eq!(advance(mode, ScrapeStage::Start, ScrapeEvent::Begin), Some((ScrapeStage::Finished, ScrapeAction::Snapshot)));
    assert_eq!(advance(mode, ScrapeStage::Start, ScrapeEvent::Accepted), None);
    assert_eq!(advance(mode, ScrapeStage::Waiting, ScrapeEvent::Completed), None);
}
