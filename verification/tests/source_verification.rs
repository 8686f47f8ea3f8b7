use registry_backend::source_verification::{
    compile_contract, conclude_verification, digest_report, is_git_source, is_wasm_file_name,
    RegistryError, VerificationAction, VerificationEvent, VerificationOutput, VerificationRun, VerificationStage,
    VERIFICATION_TIMEOUT_SECS,
};
use registry_backend::text::{has_prefix, has_suffix, str_eq_ignore_ascii_case};

const EMPTY_SHA256: &str = "e3b0c44298fc1c149afbf4c8996fb92427ae41e4649b934ca495991b7852b855";

fn started(url: &str, hash: &str) -> VerificationRun {
    let (run, action) = VerificationRun::start(url, "1.0.0", hash);
    assert!(matches!(action, VerificationAction::CreateWorkspace));
    run
}

fn built(url: &str, hash: &str) -> VerificationRun {
    let mut run = started(url, hash);
    assert!(matches!(run.step(VerificationEvent::WorkspaceReady), VerificationAction::CloneRepository { .. }));
    assert!(matches!(
        run.step(VerificationEvent::CloneFinished { success: true, stderr: String::new() }),
        VerificationAction::BuildWasm
    ));
    let action = run.step(VerificationEvent::BuildFinished {
        success: true,
        stdout: "compiled".to_string(),
        stderr: "warning: x".to_string(),
    });
    assert!(matches!(action, VerificationAction::ListReleaseDir));
    run
}

fn finish(action: VerificationAction) -> Result<VerificationOutput, RegistryError> {
    match action {
        VerificationAction::Finish(r) => r,
        _ => panic!("expected the run to finish"),
    }
}

#[test]
fn test_verify_contract_invalid_url() {
    let mut run = started("invalid_url", "some_hash");
    let result = finish(run.step(VerificationEvent::WorkspaceReady));
    assert!(result.is_err());
    if let Err(RegistryError::InvalidInput(msg)) = result {
        assert!(msg.contains("Only Git URLs are currently supported"));
    } else {
        panic!("Expected InvalidInput error");
    }
}

#[test]
fn git_and_http_sources_are_cloned() {
    for url in ["https://github.com/a/b", "git@github.com:a/b.git", "http://x"] {
        let mut run = started(url, "h");
        match run.step(VerificationEvent::WorkspaceReady) {
            VerificationAction::CloneRepository { source_url } => assert_eq!(source_url, url),
            _ => panic!("expected a clone"),
        }
        assert_eq!(run.stage, VerificationStage::Cloning);
    }
    assert!(!is_git_source("ftp://x"));
    assert!(!is_git_source("ht"));
}

#[test]
fn failed_clone_is_a_verification_failure() {
    let mut run = started("https://example.com/repo", "h");
    run.step(VerificationEvent::WorkspaceReady);
    let r = finish(run.step(VerificationEvent::CloneFinished { success: false, stderr: "not found".to_string() }));
    match r {
        Err(RegistryError::VerificationFailed(m)) => assert_eq!(m, "Failed to clone repository: not found"),
        _ => panic!("expected VerificationFailed"),
    }
    assert_eq!(run.stage, VerificationStage::Finished);
}

#[test]
fn failed_build_is_unverified_with_log() {
    let mut run = started("https://example.com/repo", "h");
    run.step(VerificationEvent::WorkspaceReady);
    run.step(VerificationEvent::CloneFinished { success: true, stderr: String::new() });
    let out = finish(run.step(VerificationEvent::BuildFinished {
        success: false,
        stdout: "out".to_string(),
        stderr: "error[E0425]".to_string(),
    }))
    .ok()
    .unwrap();
    assert!(!out.is_verified);
    assert_eq!(out.compiler_output, "out\nerror[E0425]");
    assert!(out.built_wasm_hash.is_none());
}

fn entry(name: &str) -> VerificationEvent {
    VerificationEvent::ReleaseEntry(Some(name.to_string()))
}

#[test]
fn missing_wasm_is_unverified() {
    let mut run = built("https://example.com/repo", "h");
    assert!(matches!(run.step(entry("deps")), VerificationAction::NextReleaseEntry));
    assert!(matches!(run.step(entry(".wasm")), VerificationAction::NextReleaseEntry));
    assert_eq!(run.stage, VerificationStage::Locating);
    let out = finish(run.step(VerificationEvent::ReleaseEntry(None))).ok().unwrap();
    assert!(!out.is_verified);
    assert_eq!(out.compiler_output, "compiled\nwarning: x\nError: No WASM file found after build.");
    assert!(out.built_wasm_hash.is_none());

    let mut run = built("https://example.com/repo", "h");
    let out = finish(run.step(VerificationEvent::ReleaseMissing)).ok().unwrap();
    assert_eq!(out.compiler_output, "compiled\nwarning: x\nError: No WASM file found after build.");
}

#[test]
fn matching_hash_verifies_ignoring_case() {
    let mut run = built("https://example.com/repo", &EMPTY_SHA256.to_uppercase());
    assert!(matches!(run.step(entry("build")), VerificationAction::NextReleaseEntry));
    assert!(matches!(run.step(entry("contract.wasm")), VerificationAction::ReadWasm));
    assert_eq!(run.stage, VerificationStage::Reading);
    let out = finish(run.step(VerificationEvent::WasmRead(Vec::new()))).ok().unwrap();
    assert!(out.is_verified);
    assert_eq!(out.built_wasm_hash.as_deref(), Some(EMPTY_SHA256));
    assert_eq!(out.compiler_output, "compiled\nwarning: x");
}

#[test]
fn different_hash_is_unverified() {
    let mut run = built("https://example.com/repo", EMPTY_SHA256);
    run.step(entry("a.wasm"));
    let out = finish(run.step(VerificationEvent::WasmRead(b"abc".to_vec()))).ok().unwrap();
    assert!(!out.is_verified);
    assert_eq!(
        out.built_wasm_hash.as_deref(),
        Some("ba7816bf8f01cfea414140de5dae2223b00361a396177a9cb410ff61f20015ad")
    );
}

#[test]
fn io_failures_are_internal_errors() {
    let cases: Vec<(usize, &str)> = vec![
        (0, "Failed to create temp dir: disk full"),
        (1, "Failed to execute git clone: disk full"),
        (2, "Failed to execute cargo build: disk full"),
        (3, "disk full"),
        (4, "Failed to read WASM: disk full"),
    ];
    for (stage, expected) in cases {
        let mut run = started("https://example.com/repo", "h");
        if stage >= 1 {
            run.step(VerificationEvent::WorkspaceReady);
        }
        if stage >= 2 {
            run.step(VerificationEvent::CloneFinished { success: true, stderr: String::new() });
        }
        if stage >= 3 {
            run.step(VerificationEvent::BuildFinished { success: true, stdout: String::new(), stderr: String::new() });
        }
        if stage >= 4 {
            run.step(entry("x.wasm"));
        }
        assert!(run.can_accept(&VerificationEvent::IoFailed(String::new())));
        match finish(run.step(VerificationEvent::IoFailed("disk full".to_string()))) {
            Err(RegistryError::Internal(m)) => assert_eq!(m, expected),
            _ => panic!("expected Internal"),
        }
        assert!(!run.can_accept(&VerificationEvent::IoFailed(String::new())));
    }
}

#[test]
fn events_out_of_order_are_refused() {
    let run = started("https://example.com/repo", "h");
    assert!(run.can_accept(&VerificationEvent::WorkspaceReady));
    assert!(!run.can_accept(&VerificationEvent::WasmRead(Vec::new())));
    assert!(!run.can_accept(&VerificationEvent::ReleaseEntry(None)));
    assert!(!run.can_accept(&VerificationEvent::ReleaseMissing));
}

#[test]
fn timeout_is_a_verification_failure() {
    assert_eq!(VERIFICATION_TIMEOUT_SECS, 300);
    match conclude_verification(None) {
        Err(RegistryError::VerificationFailed(m)) => assert_eq!(m, "Verification timed out after 5 minutes"),
        _ => panic!("expected VerificationFailed"),
    }
    let done = VerificationOutput { is_verified: true, compiler_output: "ok".to_string(), built_wasm_hash: None };
    let r = conclude_verification(Some(Ok(done))).ok().unwrap();
    assert!(r.is_verified);
    assert_eq!(r.compiler_output, "ok");
}

#[test]
fn raw_compilation_is_not_offered() {
    match compile_contract("fn main() {}") {
        Err(RegistryError::Internal(m)) => {
            assert_eq!(m, "Raw compilation not fully supported, use verify_contract directly")
        }
        _ => panic!("expected Internal"),
    }
}

#[test]
fn wasm_file_names() {
    assert!(is_wasm_file_name("a.wasm"));
    assert!(is_wasm_file_name("my_contract.wasm"));
    assert!(is_wasm_file_name("..wasm"));
    assert!(!is_wasm_file_name(".wasm"));
    assert!(!is_wasm_file_name("a.wasm.d"));
    assert!(!is_wasm_file_name("wasm"));
    assert!(!is_wasm_file_name("a.WASM"));
}

#[test]
fn digest_report_renders_lower_hex() {
    let out = digest_report(&vec![0x00, 0xab, 0x10, 0xff], "00AB10FF", "log".to_string());
    assert_eq!(out.built_wasm_hash.as_deref(), Some("00ab10ff"));
    assert!(out.is_verified);
    assert_eq!(out.compiler_output, "log");
    let out = digest_report(&vec![0x00, 0xab], "00ac", String::new());
    assert!(!out.is_verified);
    let out = digest_report(&vec![0x00, 0xab], "00ab00", String::new());
    assert!(!out.is_verified);
}

#[test]
fn text_helpers() {
    assert!(has_prefix("https://x", "https://"));
    assert!(!has_prefix("http", "https"));
    assert!(has_prefix("abc", ""));
    assert!(has_suffix("x.wasm", ".wasm"));
    assert!(!has_suffix("asm", ".wasm"));
    assert!(str_eq_ignore_ascii_case("AbC", "aBc"));
    assert!(!str_eq_ignore_ascii_case("abc", "abd"));
    assert!(!str_eq_ignore_ascii_case("abc", "ab"));
    assert!(!str_eq_ignore_ascii_case("[", "{"));
    assert!(str_eq_ignore_ascii_case("é", "é"));
}

fn verdict(hash: &str, wasm: &[u8]) -> VerificationOutput {
    let mut run = built("https://example.com/repo", hash);
    run.step(entry("c.wasm"));
    finish(run.step(VerificationEvent::WasmRead(wasm.to_vec()))).ok().unwrap()
}

#[test]
fn verdict_ignores_case_of_deployed_hash() {
    let lower = verdict(EMPTY_SHA256, b"");
    let upper = verdict(&EMPTY_SHA256.to_uppercase(), b"");
    assert_eq!(lower.is_verified, upper.is_verified);
    assert_eq!(lower.built_wasm_hash, upper.built_wasm_hash);
    assert_eq!(lower.compiler_output, upper.compiler_output);
    assert!(lower.is_verified);
    let lower = verdict("ba7816bf8f01cfea414140de5dae2223b00361a396177a9cb410ff61f20015ad", b"");
    let upper = verdict("BA7816BF8F01CFEA414140DE5DAE2223B00361A396177A9CB410FF61F20015AD", b"");
    assert!(!lower.is_verified && !upper.is_verified);
}
