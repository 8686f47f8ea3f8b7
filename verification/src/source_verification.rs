//! Source verification of a deployed contract: clone the repository, build it
//! for `wasm32-unknown-unknown`, hash the first built WASM file with SHA-256
//! and compare the hex digest with the on-chain hash, ignoring ASCII case.
//!
//! The cloning, building and file access are performed by the caller; this
//! module decides, step by step, what happens next and what the outcome is.
//! Each step is specified by the transition function `next` over the views of
//! the run, its events and its actions.

use crate::digest::{hex_encode, is_lower_hex_digit, lemma_lower_hex_shape, lower_hex, sha256, sha256_digest};
use crate::text::{
    concat, eq_ignore_ascii_case, ends_with, has_prefix, has_suffix, lemma_eq_ignore_ascii_case_equivalence,
    lemma_eq_ignore_ascii_case_transitive, starts_with, str_eq_ignore_ascii_case,
};
use vstd::prelude::*;
use vstd::string::*;

verus! {

/// Result of a source verification.
pub struct VerificationOutput {
    pub is_verified: bool,
    pub compiler_output: String,
    pub built_wasm_hash: Option<String>,
}

/// Errors reported by the registry's verification engine.
pub enum RegistryError {
    VerificationFailed(String),
    Internal(String),
    InvalidInput(String),
}

/// How long a verification request may run, in seconds (five minutes).
pub const VERIFICATION_TIMEOUT_SECS: u64 = 300;

/// Where a verification run stands.
#[derive(Clone, Copy, PartialEq, Eq, Structural, Debug)]
pub enum VerificationStage {
    Preparing,
    Cloning,
    Building,
    Locating,
    Reading,
    Finished,
}

/// What the caller is asked to do next.
pub enum VerificationAction {
    /// Create a fresh temporary directory to clone into.
    CreateWorkspace,
    /// `git clone <source_url> <workspace>/repo`.
    CloneRepository { source_url: String },
    /// `cargo build --target wasm32-unknown-unknown --release` in the clone.
    BuildWasm,
    /// Open `target/wasm32-unknown-unknown/release` and report its first entry.
    ListReleaseDir,
    /// Report the next entry of the release directory.
    NextReleaseEntry,
    /// Read the file of the entry reported last.
    ReadWasm,
    /// The run is over.
    Finish(Result<VerificationOutput, RegistryError>),
}

/// What the caller reports back after performing an action.
pub enum VerificationEvent {
    WorkspaceReady,
    CloneFinished { success: bool, stderr: String },
    BuildFinished { success: bool, stdout: String, stderr: String },
    /// The release directory does not exist.
    ReleaseMissing,
    /// The file name of the next directory entry, or `None` past the last one.
    ReleaseEntry(Option<String>),
    WasmRead(Vec<u8>),
    /// The requested I/O itself failed; the text describes the failure.
    IoFailed(String),
}

/// One source verification in progress.
pub struct VerificationRun {
    pub stage: VerificationStage,
    pub source_url: String,
    pub deployed_wasm_hash: String,
    pub compiler_output: String,
}

/// The value of a `VerificationOutput`.
pub struct VerificationOutputView {
    pub is_verified: bool,
    pub compiler_output: Seq<char>,
    pub built_wasm_hash: Option<Seq<char>>,
}

/// The value of a `RegistryError`.
pub enum RegistryErrorView {
    VerificationFailed(Seq<char>),
    Internal(Seq<char>),
    InvalidInput(Seq<char>),
}

/// The value of a `VerificationAction`.
pub enum VerificationActionView {
    CreateWorkspace,
    CloneRepository(Seq<char>),
    BuildWasm,
    ListReleaseDir,
    NextReleaseEntry,
    ReadWasm,
    Finish(Result<VerificationOutputView, RegistryErrorView>),
}

/// The value of a `VerificationEvent`.
pub enum VerificationEventView {
    WorkspaceReady,
    CloneFinished(bool, Seq<char>),
    BuildFinished(bool, Seq<char>, Seq<char>),
    ReleaseMissing,
    ReleaseEntry(Option<Seq<char>>),
    WasmRead(Seq<u8>),
    IoFailed(Seq<char>),
}

/// The value of a `VerificationRun`.
pub struct VerificationRunView {
    pub stage: VerificationStage,
    pub source_url: Seq<char>,
    pub deployed_wasm_hash: Seq<char>,
    pub compiler_output: Seq<char>,
}

impl View for VerificationOutput {
    type V = VerificationOutputView;

    open spec fn view(&self) -> VerificationOutputView {
        VerificationOutputView {
            is_verified: self.is_verified,
            compiler_output: self.compiler_output@,
            built_wasm_hash: match self.built_wasm_hash {
                Some(h) => Some(h@),
                None => None,
            },
        }
    }
}

impl View for RegistryError {
    type V = RegistryErrorView;

    open spec fn view(&self) -> RegistryErrorView {
        match self {
            RegistryError::VerificationFailed(m) => RegistryErrorView::VerificationFailed(m@),
            RegistryError::Internal(m) => RegistryErrorView::Internal(m@),
            RegistryError::InvalidInput(m) => RegistryErrorView::InvalidInput(m@),
        }
    }
}

/// The value of a verification outcome.
pub open spec fn outcome_view(r: Result<VerificationOutput, RegistryError>) -> Result<VerificationOutputView, RegistryErrorView> {
    match r {
        Ok(out) => Ok(out@),
        Err(e) => Err(e@),
    }
}

impl View for VerificationAction {
    type V = VerificationActionView;

    open spec fn view(&self) -> VerificationActionView {
        match self {
            VerificationAction::CreateWorkspace => VerificationActionView::CreateWorkspace,
            VerificationAction::CloneRepository { source_url } => VerificationActionView::CloneRepository(source_url@),
            VerificationAction::BuildWasm => VerificationActionView::BuildWasm,
            VerificationAction::ListReleaseDir => VerificationActionView::ListReleaseDir,
            VerificationAction::NextReleaseEntry => VerificationActionView::NextReleaseEntry,
            VerificationAction::ReadWasm => VerificationActionView::ReadWasm,
            VerificationAction::Finish(r) => VerificationActionView::Finish(outcome_view(*r)),
        }
    }
}

impl View for VerificationEvent {
    type V = VerificationEventView;

    open spec fn view(&self) -> VerificationEventView {
        match self {
            VerificationEvent::WorkspaceReady => VerificationEventView::WorkspaceReady,
            VerificationEvent::CloneFinished { success, stderr } => VerificationEventView::CloneFinished(*success, stderr@),
            VerificationEvent::BuildFinished { success, stdout, stderr } => VerificationEventView::BuildFinished(
                *success,
                stdout@,
                stderr@,
            ),
            VerificationEvent::ReleaseMissing => VerificationEventView::ReleaseMissing,
            VerificationEvent::ReleaseEntry(name) => VerificationEventView::ReleaseEntry(
                match name {
                    Some(n) => Some(n@),
                    None => None,
                },
            ),
            VerificationEvent::WasmRead(bytes) => VerificationEventView::WasmRead(bytes@),
            VerificationEvent::IoFailed(m) => VerificationEventView::IoFailed(m@),
        }
    }
}

impl View for VerificationRun {
    type V = VerificationRunView;

    open spec fn view(&self) -> VerificationRunView {
        VerificationRunView {
            stage: self.stage,
            source_url: self.source_url@,
            deployed_wasm_hash: self.deployed_wasm_hash@,
            compiler_output: self.compiler_output@,
        }
    }
}

/// Only Git URLs are supported as a source: those starting with `http` or `git`.
pub open spec fn is_supported_source(url: Seq<char>) -> bool {
    starts_with(url, "http"@) || starts_with(url, "git"@)
}

/// A file name whose extension is `wasm`: it ends in `.wasm` and has a
/// non-empty stem before that dot.
pub open spec fn has_wasm_extension(name: Seq<char>) -> bool {
    name.len() > 5 && ends_with(name, ".wasm"@)
}

/// A file name is taken for WASM exactly when it is a non-empty stem followed
/// by `.wasm`, whatever the stem's length.
pub proof fn lemma_wasm_file_names(stem: Seq<char>, name: Seq<char>)
    ensures
        stem.len() > 0 ==> has_wasm_extension(stem + ".wasm"@),
        has_wasm_extension(name) ==> name.len() > 5 && name.subrange(name.len() - 5, name.len() as int) == ".wasm"@,
        !has_wasm_extension(".wasm"@),
{
    reveal_strlit(".wasm");
    let n = stem + ".wasm"@;
    assert(n.subrange(n.len() - 5, n.len() as int) =~= ".wasm"@);
}

/// Sources whose URL starts with `http` or `git` are cloned; a URL that
/// starts with neither letter is refused.
pub proof fn lemma_supported_sources(rest: Seq<char>, url: Seq<char>)
    ensures
        is_supported_source("http"@ + rest),
        is_supported_source("git"@ + rest),
        url.len() > 0 && url[0] != 'h' && url[0] != 'g' ==> !is_supported_source(url),
{
    reveal_strlit("http");
    reveal_strlit("git");
    assert(("http"@ + rest).subrange(0, 4) =~= "http"@);
    assert(("git"@ + rest).subrange(0, 3) =~= "git"@);
    if url.len() > 0 && url[0] != 'h' && url[0] != 'g' {
        if starts_with(url, "http"@) {
            assert(url.subrange(0, 4)[0] == "http"@[0]);
        }
        if starts_with(url, "git"@) {
            assert(url.subrange(0, 3)[0] == "git"@[0]);
        }
    }
}

/// The message of an I/O failure during `stage`.
pub open spec fn io_failure_message(stage: VerificationStage, e: Seq<char>) -> Seq<char> {
    match stage {
        VerificationStage::Preparing => "Failed to create temp dir: "@ + e,
        VerificationStage::Cloning => "Failed to execute git clone: "@ + e,
        VerificationStage::Building => "Failed to execute cargo build: "@ + e,
        VerificationStage::Reading => "Failed to read WASM: "@ + e,
        _ => e,
    }
}

/// The compiler output recorded from a build: stdout, a newline, stderr.
pub open spec fn build_log(stdout: Seq<char>, stderr: Seq<char>) -> Seq<char> {
    stdout + "\n"@ + stderr
}

/// An unverified outcome with the given compiler output and no built hash.
pub open spec fn unverified_output(output: Seq<char>) -> VerificationOutputView {
    VerificationOutputView { is_verified: false, compiler_output: output, built_wasm_hash: None }
}

/// The outcome for a built WASM whose SHA-256 digest is `digest`: its
/// lower-case hex is reported, and the contract is verified exactly when that
/// hex equals the deployed hash up to ASCII case.
pub open spec fn digest_output(digest: Seq<u8>, deployed: Seq<char>, output: Seq<char>) -> VerificationOutputView {
    VerificationOutputView {
        is_verified: eq_ignore_ascii_case(lower_hex(digest), deployed),
        compiler_output: output,
        built_wasm_hash: Some(lower_hex(digest)),
    }
}

/// A SHA-256 digest in lower-case hex: 64 hex digits.
pub open spec fn is_sha256_hex(h: Seq<char>) -> bool {
    h.len() == 64 && forall|i: int| 0 <= i < h.len() ==> is_lower_hex_digit(#[trigger] h[i])
}

/// The run `r` with its stage set to `stage`.
pub open spec fn at_stage(r: VerificationRunView, stage: VerificationStage) -> VerificationRunView {
    VerificationRunView { stage, ..r }
}

/// The run state after `e` and the action it calls for.
pub open spec fn next(r: VerificationRunView, e: VerificationEventView) -> (VerificationRunView, VerificationActionView) {
    let done = at_stage(r, VerificationStage::Finished);
    match e {
        VerificationEventView::IoFailed(m) => (
            done,
            VerificationActionView::Finish(Err(RegistryErrorView::Internal(io_failure_message(r.stage, m)))),
        ),
        VerificationEventView::WorkspaceReady => if is_supported_source(r.source_url) {
            (at_stage(r, VerificationStage::Cloning), VerificationActionView::CloneRepository(r.source_url))
        } else {
            (
                done,
                VerificationActionView::Finish(
                    Err(RegistryErrorView::InvalidInput("Only Git URLs are currently supported for source_code"@)),
                ),
            )
        },
        VerificationEventView::CloneFinished(success, stderr) => if success {
            (at_stage(r, VerificationStage::Building), VerificationActionView::BuildWasm)
        } else {
            (
                done,
                VerificationActionView::Finish(
                    Err(RegistryErrorView::VerificationFailed("Failed to clone repository: "@ + stderr)),
                ),
            )
        },
        VerificationEventView::BuildFinished(success, stdout, stderr) => {
            let log = build_log(stdout, stderr);
            if success {
                (
                    VerificationRunView { stage: VerificationStage::Locating, compiler_output: log, ..r },
                    VerificationActionView::ListReleaseDir,
                )
            } else {
                (
                    VerificationRunView { stage: VerificationStage::Finished, compiler_output: log, ..r },
                    VerificationActionView::Finish(Ok(unverified_output(log))),
                )
            }
        },
        VerificationEventView::ReleaseEntry(Some(name)) => if has_wasm_extension(name) {
            (at_stage(r, VerificationStage::Reading), VerificationActionView::ReadWasm)
        } else {
            (r, VerificationActionView::NextReleaseEntry)
        },
        VerificationEventView::WasmRead(bytes) => (
            done,
            VerificationActionView::Finish(Ok(digest_output(sha256(bytes), r.deployed_wasm_hash, r.compiler_output))),
        ),
        _ => (
            done,
            VerificationActionView::Finish(
                Ok(unverified_output(r.compiler_output + "\nError: No WASM file found after build."@)),
            ),
        ),
    }
}

/// The actions a run in state `r` calls for as it takes `events` in turn,
/// up to and including the one that finishes it.
pub open spec fn drive(r: VerificationRunView, events: Seq<VerificationEventView>) -> Seq<VerificationActionView>
    decreases events.len(),
{
    if events.len() == 0 {
        seq![]
    } else {
        let (r1, a) = next(r, events[0]);
        if a is Finish {
            seq![a]
        } else {
            seq![a] + drive(r1, events.subrange(1, events.len() as int))
        }
    }
}

/// Two runs that differ only in deployed hashes equal up to ASCII case.
pub open spec fn differ_in_hash_case(r1: VerificationRunView, r2: VerificationRunView) -> bool {
    &&& r1.stage == r2.stage
    &&& r1.source_url == r2.source_url
    &&& r1.compiler_output == r2.compiler_output
    &&& eq_ignore_ascii_case(r1.deployed_wasm_hash, r2.deployed_wasm_hash)
}

/// A digest matches two deployed hashes equally when they are equal up to
/// ASCII case.
pub proof fn lemma_hash_match_ignores_deployed_case(digest: Seq<u8>, deployed: Seq<char>, other: Seq<char>)
    requires
        eq_ignore_ascii_case(deployed, other),
    ensures
        eq_ignore_ascii_case(lower_hex(digest), deployed) == eq_ignore_ascii_case(lower_hex(digest), other),
{
    lemma_eq_ignore_ascii_case_equivalence(deployed, other);
    if eq_ignore_ascii_case(lower_hex(digest), deployed) {
        lemma_eq_ignore_ascii_case_transitive(lower_hex(digest), deployed, other);
    }
    if eq_ignore_ascii_case(lower_hex(digest), other) {
        lemma_eq_ignore_ascii_case_transitive(lower_hex(digest), other, deployed);
    }
}

/// The case of the deployed hash does not matter: two runs that differ only
/// in deployed hashes equal up to ASCII case call for the same actions, and
/// reach the same outcome, whatever events they take.
pub proof fn lemma_verdict_ignores_deployed_case(
    r1: VerificationRunView,
    r2: VerificationRunView,
    events: Seq<VerificationEventView>,
)
    requires
        differ_in_hash_case(r1, r2),
    ensures
        drive(r1, events) == drive(r2, events),
    decreases events.len(),
{
    if events.len() > 0 {
        let e = events[0];
        if let VerificationEventView::WasmRead(bytes) = e {
            lemma_hash_match_ignores_deployed_case(sha256(bytes), r1.deployed_wasm_hash, r2.deployed_wasm_hash);
        }
        let (s1, a1) = next(r1, e);
        let (s2, a2) = next(r2, e);
        assert(a1 == a2);
        assert(differ_in_hash_case(s1, s2));
        lemma_verdict_ignores_deployed_case(s1, s2, events.subrange(1, events.len() as int));
    }
}

/// Whether `url` names a supported (Git) source.
pub fn is_git_source(url: &str) -> (r: bool)
    ensures
        r == is_supported_source(url@),
{
    has_prefix(url, "http") || has_prefix(url, "git")
}

/// Whether a file name has the extension `wasm`.
pub fn is_wasm_file_name(name: &str) -> (r: bool)
    ensures
        r == has_wasm_extension(name@),
{
    name.unicode_len() > 5 && has_suffix(name, ".wasm")
}

/// The verification outcome for a build whose WASM has SHA-256 digest
/// `digest`: the digest in lower-case hex is reported, and the contract is
/// verified exactly when that hex equals `deployed_wasm_hash` up to ASCII case.
pub fn digest_report(digest: &Vec<u8>, deployed_wasm_hash: &str, compiler_output: String) -> (out: VerificationOutput)
    ensures
        out@ == digest_output(digest@, deployed_wasm_hash@, compiler_output@),
{
    let built_hash = hex_encode(digest.as_slice());
    let is_verified = str_eq_ignore_ascii_case(built_hash.as_str(), deployed_wasm_hash);
    VerificationOutput { is_verified, compiler_output, built_wasm_hash: Some(built_hash) }
}

/// The outcome of a verification given what the time limit let through:
/// `None` when the run did not finish within `VERIFICATION_TIMEOUT_SECS`.
pub fn conclude_verification(finished: Option<Result<VerificationOutput, RegistryError>>) -> (r: Result<VerificationOutput, RegistryError>)
    ensures
        match finished {
            Some(res) => r == res,
            None => r matches Err(RegistryError::VerificationFailed(m)) && m@ == "Verification timed out after 5 minutes"@,
        },
{
    match finished {
        Some(res) => res,
        None => Err(RegistryError::VerificationFailed(String::from_str("Verification timed out after 5 minutes"))),
    }
}

/// Raw compilation without a deployed hash to compare against is not offered.
pub fn compile_contract(source_code: &str) -> (r: Result<Vec<u8>, RegistryError>)
    ensures
        r matches Err(RegistryError::Internal(m))
            && m@ == "Raw compilation not fully supported, use verify_contract directly"@,
{
    Err(RegistryError::Internal(String::from_str("Raw compilation not fully supported, use verify_contract directly")))
}

fn unverified(compiler_output: String) -> (out: VerificationOutput)
    ensures
        out@ == unverified_output(compiler_output@),
{
    VerificationOutput { is_verified: false, compiler_output, built_wasm_hash: None }
}

impl VerificationRun {
    /// Which events the run can take in its current stage.
    pub open spec fn accepts(&self, event: &VerificationEvent) -> bool {
        match (self.stage, event) {
            (_, VerificationEvent::IoFailed(_)) => self.stage != VerificationStage::Finished,
            (VerificationStage::Preparing, VerificationEvent::WorkspaceReady) => true,
            (VerificationStage::Cloning, VerificationEvent::CloneFinished { .. }) => true,
            (VerificationStage::Building, VerificationEvent::BuildFinished { .. }) => true,
            (VerificationStage::Locating, VerificationEvent::ReleaseMissing) => true,
            (VerificationStage::Locating, VerificationEvent::ReleaseEntry(_)) => true,
            (VerificationStage::Reading, VerificationEvent::WasmRead(_)) => true,
            _ => false,
        }
    }

    /// Executable form of `accepts`.
    pub fn can_accept(&self, event: &VerificationEvent) -> (r: bool)
        ensures
            r == self.accepts(event),
    {
        match (self.stage, event) {
            (VerificationStage::Finished, _) => false,
            (_, VerificationEvent::IoFailed(_)) => true,
            (VerificationStage::Preparing, VerificationEvent::WorkspaceReady) => true,
            (VerificationStage::Cloning, VerificationEvent::CloneFinished { .. }) => true,
            (VerificationStage::Building, VerificationEvent::BuildFinished { .. }) => true,
            (VerificationStage::Locating, VerificationEvent::ReleaseMissing) => true,
            (VerificationStage::Locating, VerificationEvent::ReleaseEntry(_)) => true,
            (VerificationStage::Reading, VerificationEvent::WasmRead(_)) => true,
            _ => false,
        }
    }

    /// Starts verifying the code at `source_url` against `deployed_wasm_hash`.
    /// The compiler version and build parameters are accepted and not used.
    pub fn start(source_url: &str, compiler_version: &str, deployed_wasm_hash: &str) -> (res: (
        VerificationRun,
        VerificationAction,
    ))
        ensures
            res.0@ == (VerificationRunView {
                stage: VerificationStage::Preparing,
                source_url: source_url@,
                deployed_wasm_hash: deployed_wasm_hash@,
                compiler_output: Seq::<char>::empty(),
            }),
            res.1 is CreateWorkspace,
    {
        (
            VerificationRun {
                stage: VerificationStage::Preparing,
                source_url: String::from_str(source_url),
                deployed_wasm_hash: String::from_str(deployed_wasm_hash),
                compiler_output: String::new(),
            },
            VerificationAction::CreateWorkspace,
        )
    }

    /// Takes the caller's report on the last action and decides the next one,
    /// as `next` says. The run finishes exactly when it answers `Finish`; a
    /// reported hash is always 64 lower-case hex digits.
    pub fn step(&mut self, event: VerificationEvent) -> (action: VerificationAction)
        requires
            old(self).accepts(&event),
        ensures
            (final(self)@, action@) == next(old(self)@, event@),
            action is Finish <==> final(self).stage == VerificationStage::Finished,
            action matches VerificationAction::Finish(Ok(out)) ==> (out.built_wasm_hash matches Some(h)
                ==> is_sha256_hex(h@)),
    {
        let ghost before = self@;
        let ghost ev = event@;
        match event {
            VerificationEvent::IoFailed(e) => {
                let prefix = match self.stage {
                    VerificationStage::Preparing => "Failed to create temp dir: ",
                    VerificationStage::Cloning => "Failed to execute git clone: ",
                    VerificationStage::Building => "Failed to execute cargo build: ",
                    VerificationStage::Reading => "Failed to read WASM: ",
                    _ => "",
                };
                let m = concat(prefix, e.as_str());
                proof {
                    reveal_strlit("");
                    assert(Seq::<char>::empty() + e@ =~= e@);
                }
                self.stage = VerificationStage::Finished;
                VerificationAction::Finish(Err(RegistryError::Internal(m)))
            },
            VerificationEvent::WorkspaceReady => {
                if is_git_source(self.source_url.as_str()) {
                    self.stage = VerificationStage::Cloning;
                    VerificationAction::CloneRepository { source_url: self.source_url.clone() }
                } else {
                    self.stage = VerificationStage::Finished;
                    VerificationAction::Finish(
                        Err(
                            RegistryError::InvalidInput(
                                String::from_str("Only Git URLs are currently supported for source_code"),
                            ),
                        ),
                    )
                }
            },
            VerificationEvent::CloneFinished { success, stderr } => {
                if success {
                    self.stage = VerificationStage::Building;
                    VerificationAction::BuildWasm
                } else {
                    self.stage = VerificationStage::Finished;
                    VerificationAction::Finish(
                        Err(RegistryError::VerificationFailed(concat("Failed to clone repository: ", stderr.as_str()))),
                    )
                }
            },
            VerificationEvent::BuildFinished { success, stdout, stderr } => {
                let mut output = concat(stdout.as_str(), "\n");
                output.append(stderr.as_str());
                if success {
                    self.compiler_output = output;
                    self.stage = VerificationStage::Locating;
                    VerificationAction::ListReleaseDir
                } else {
                    self.compiler_output = output.clone();
                    self.stage = VerificationStage::Finished;
                    VerificationAction::Finish(Ok(unverified(output)))
                }
            },
            VerificationEvent::ReleaseEntry(Some(name)) => {
                if is_wasm_file_name(name.as_str()) {
                    self.stage = VerificationStage::Reading;
                    VerificationAction::ReadWasm
                } else {
                    VerificationAction::NextReleaseEntry
                }
            },
            VerificationEvent::WasmRead(bytes) => {
                let digest = sha256_digest(bytes.as_slice());
                proof {
                    lemma_lower_hex_shape(digest@);
                }
                self.stage = VerificationStage::Finished;
                let out = digest_report(&digest, self.deployed_wasm_hash.as_str(), self.compiler_output.clone());
                VerificationAction::Finish(Ok(out))
            },
            _ => {
                self.stage = VerificationStage::Finished;
                let output = concat(self.compiler_output.as_str(), "\nError: No WASM file found after build.");
                VerificationAction::Finish(Ok(unverified(output)))
            },
        }
    }
}

} // verus!
