//! The invocation engine: one state machine that decides every step of a
//! sandboxed run. The surrounding process performs each handed-out
//! [`Action`] — building the ephemeral root, fetching over the network,
//! writing under the root, the privilege-gated isolation calls, spawning —
//! and reports the outcome back as an [`Event`]; the machine alone decides
//! what happens next. Decompression of layer blobs happens here, so a
//! corrupt stream is decided by the machine, not by the caller.
//!
//! The states run one way only:
//! root building → staging → device creation → (token → manifest → one
//! blob/extract round per layer, skipped when no image is pulled) → root
//! entry → namespace isolation → spawn → wait. Any failure moves to the
//! terminal `Failed` state; no step retries, and nothing steps out of a
//! terminal state.

use vstd::prelude::*;
use vstd::string::*;
use crate::errors::RunError;
use crate::image::{ImageReference, well_formed_reference, splits_at, parse_image_reference};
use crate::paths::{staging_path, stageable, strip_slashes};
use crate::registry::{
    Layer,
    token_url,
    manifest_url,
    blob_url,
    token_url_spec,
    manifest_url_spec,
    manifest_accept,
    manifest_accept_spec,
    blob_url_spec,
    gunzip,
    gzip_wf,
    gunzip_of,
};

verus! {

/// Permission bits of the device directory and the null-device placeholder:
/// read and execute for every principal, write for none.
pub const DEVICE_MODE: u32 = 0o555;

/// The device placeholder mode grants write permission to some principal.
pub open spec fn grants_write(mode: u32) -> bool {
    mode & 0o222 != 0
}

/// The device placeholder is created without write permission for any
/// principal.
pub proof fn lemma_device_mode_has_no_write()
    ensures
        !grants_write(DEVICE_MODE),
{
    assert(0o555u32 & 0o222 == 0) by (bit_vector);
}

/// What one invocation was asked to do: which image to pull (none when the
/// pull is skipped), and the command to run with its arguments.
#[derive(Debug)]
pub struct Config {
    pub pull: Option<ImageReference>,
    pub command: String,
    pub args: Vec<String>,
}

/// How the root switch went: entered, refused for lack of privilege, or
/// failed as a filesystem operation.
#[derive(Clone, Copy, Debug, PartialEq, Eq, Structural)]
pub enum EnterOutcome {
    Entered,
    PermissionDenied,
    IoFailure,
}

/// Where the invocation stands. The `Await…` states hold what the pull has
/// established so far: the bearer token, the manifest's layers, and which
/// layer is in flight.
#[derive(Debug)]
pub enum State {
    BuildingRoot,
    StagingCommand,
    CreatingDevice,
    AwaitToken,
    AwaitManifest { token: String },
    AwaitBlob { token: String, layers: Vec<Layer>, next: usize },
    AwaitExtract { token: String, layers: Vec<Layer>, next: usize },
    EnteringRoot,
    Isolating,
    Spawning,
    Running,
    Exited { code: i32 },
    Failed { error: RunError },
}

/// The outcome of the action last handed out. A `None` payload stands for
/// any failure of that step: network failure, a non-success response, or a
/// payload that did not parse.
#[derive(Debug)]
pub enum Event {
    RootBuilt { ok: bool },
    CommandStaged { ok: bool },
    DeviceCreated { ok: bool },
    TokenResponse { token: Option<String> },
    ManifestResponse { layers: Option<Vec<Layer>> },
    BlobResponse { data: Option<Vec<u8>> },
    LayerExtracted { ok: bool },
    RootEntered { outcome: EnterOutcome },
    NamespaceIsolated { ok: bool },
    Spawned { ok: bool },
    ChildExited { code: Option<i32> },
}

/// What the caller must do next. `ExtractLayer` hands over the decompressed
/// tar stream of one layer, to be written under the root with every entry
/// path checked; `Wait` blocks on the running child; `Report` ends the
/// invocation with the child's exit code; `Fail` ends it with an error.
#[derive(Debug)]
pub enum Action {
    BuildRoot,
    StageCommand { rel_path: String },
    CreateDevice { mode: u32 },
    FetchToken { url: String },
    FetchManifest { url: String, token: String, accept: String },
    FetchBlob { url: String, token: String },
    ExtractLayer { data: Vec<u8> },
    EnterRoot,
    IsolateNamespace,
    Spawn { command: String, args: Vec<String> },
    Wait,
    Report { code: i32 },
    Fail { error: RunError },
}

/// The event that the state is waiting for; terminal states wait for none.
pub open spec fn expected_event(s: State, e: Event) -> bool {
    match s {
        State::BuildingRoot => e is RootBuilt,
        State::StagingCommand => e is CommandStaged,
        State::CreatingDevice => e is DeviceCreated,
        State::AwaitToken => e is TokenResponse,
        State::AwaitManifest { .. } => e is ManifestResponse,
        State::AwaitBlob { .. } => e is BlobResponse,
        State::AwaitExtract { .. } => e is LayerExtracted,
        State::EnteringRoot => e is RootEntered,
        State::Isolating => e is NamespaceIsolated,
        State::Spawning => e is Spawned,
        State::Running => e is ChildExited,
        State::Exited { .. } => false,
        State::Failed { .. } => false,
    }
}

/// Nothing follows this state.
pub open spec fn is_terminal(s: State) -> bool {
    s is Exited || s is Failed
}

/// What a state may assume of its configuration: the pull states exist only
/// when an image is being pulled, and the layer index stays in range.
pub open spec fn consistent(cfg: Config, s: State) -> bool {
    match s {
        State::AwaitToken => cfg.pull is Some,
        State::AwaitManifest { .. } => cfg.pull is Some,
        State::AwaitBlob { token, layers, next } => cfg.pull is Some && next < layers@.len(),
        State::AwaitExtract { token, layers, next } => cfg.pull is Some && next < layers@.len(),
        _ => true,
    }
}

/// The step failed: the machine is terminally `Failed` with `err` and the
/// caller is told to end the invocation with that error.
pub open spec fn failed_with(r: (State, Action), err: RunError) -> bool {
    &&& r.0 matches State::Failed { error } && error == err
    &&& r.1 matches Action::Fail { error } && error == err
}

/// The pull (if any) is complete: the machine commits to the prepared root.
pub open spec fn moves_to_enter(r: (State, Action)) -> bool {
    r.0 is EnteringRoot && r.1 is EnterRoot
}

/// The full transition relation of the engine: for the state and the event
/// it waited for, exactly which state and action `step` hands back.
pub open spec fn step_post(cfg: Config, s: State, e: Event, r: (State, Action)) -> bool {
    match (s, e) {
        (State::BuildingRoot, Event::RootBuilt { ok }) => {
            if !ok {
                failed_with(r, RunError::Io)
            } else if stageable(cfg.command@) {
                &&& r.0 is StagingCommand
                &&& r.1 matches Action::StageCommand { rel_path } && rel_path@ == strip_slashes(
                    cfg.command@,
                )
            } else {
                failed_with(r, RunError::Io)
            }
        },
        (State::StagingCommand, Event::CommandStaged { ok }) => {
            if ok {
                &&& r.0 is CreatingDevice
                &&& r.1 matches Action::CreateDevice { mode } && mode == DEVICE_MODE
            } else {
                failed_with(r, RunError::Io)
            }
        },
        (State::CreatingDevice, Event::DeviceCreated { ok }) => {
            if !ok {
                failed_with(r, RunError::Io)
            } else {
                match cfg.pull {
                    None => moves_to_enter(r),
                    Some(img) => {
                        &&& r.0 is AwaitToken
                        &&& r.1 matches Action::FetchToken { url } && url@ == token_url_spec(
                            img.name@,
                        )
                    },
                }
            }
        },
        (State::AwaitToken, Event::TokenResponse { token }) => {
            match token {
                None => failed_with(r, RunError::Auth),
                Some(t) => {
                    &&& r.0 matches State::AwaitManifest { token: st } && st@ == t@
                    &&& r.1 matches Action::FetchManifest { url, token: at, accept } && at@ == t@
                        && accept@ == manifest_accept_spec() && (cfg.pull matches Some(img)
                        ==> url@ == manifest_url_spec(img.name@, img.tag@))
                },
            }
        },
        (State::AwaitManifest { token }, Event::ManifestResponse { layers }) => {
            match layers {
                None => failed_with(r, RunError::Manifest),
                Some(ls) => {
                    if ls@.len() == 0 {
                        moves_to_enter(r)
                    } else {
                        &&& r.0 matches State::AwaitBlob { token: st, layers: sl, next } && st@
                            == token@ && sl@ == ls@ && next == 0
                        &&& r.1 matches Action::FetchBlob { url, token: at } && at@ == token@ && (
                        cfg.pull matches Some(img) ==> url@ == blob_url_spec(
                            img.name@,
                            ls@[0].digest@,
                        ))
                    }
                },
            }
        },
        (State::AwaitBlob { token, layers, next }, Event::BlobResponse { data }) => {
            match data {
                None => failed_with(r, RunError::LayerFetch),
                Some(bytes) => {
                    if gzip_wf(bytes@) {
                        &&& r.0 matches State::AwaitExtract { token: st, layers: sl, next: sn }
                            && st@ == token@ && sl@ == layers@ && sn == next
                        &&& r.1 matches Action::ExtractLayer { data: d } && d@ == gunzip_of(bytes@)
                    } else {
                        failed_with(r, RunError::Decompress)
                    }
                },
            }
        },
        (State::AwaitExtract { token, layers, next }, Event::LayerExtracted { ok }) => {
            if !ok {
                failed_with(r, RunError::Extract)
            } else if next + 1 < layers@.len() {
                &&& r.0 matches State::AwaitBlob { token: st, layers: sl, next: sn } && st@
                    == token@ && sl@ == layers@ && sn == next + 1
                &&& r.1 matches Action::FetchBlob { url, token: at } && at@ == token@ && (
                cfg.pull matches Some(img) ==> url@ == blob_url_spec(
                    img.name@,
                    layers@[next + 1].digest@,
                ))
            } else {
                moves_to_enter(r)
            }
        },
        (State::EnteringRoot, Event::RootEntered { outcome }) => {
            match outcome {
                EnterOutcome::Entered => r.0 is Isolating && r.1 is IsolateNamespace,
                EnterOutcome::PermissionDenied => failed_with(r, RunError::Permission),
                EnterOutcome::IoFailure => failed_with(r, RunError::Io),
            }
        },
        (State::Isolating, Event::NamespaceIsolated { ok }) => {
            // Namespace isolation is best-effort: the run continues whether
            // or not it succeeded. The caller saw the outcome and is the one
            // to warn about it.
            &&& r.0 is Spawning
            &&& r.1 matches Action::Spawn { command, args } && command@ == cfg.command@ && args@
                == cfg.args@
        },
        (State::Spawning, Event::Spawned { ok }) => {
            if ok {
                r.0 is Running && r.1 is Wait
            } else {
                failed_with(r, RunError::Spawn)
            }
        },
        (State::Running, Event::ChildExited { code }) => {
            // A child killed without an exit code reports 1 by policy.
            let final_code: i32 = match code {
                Some(c) => c,
                None => 1i32,
            };
            &&& r.0 matches State::Exited { code: c } && c == final_code
            &&& r.1 matches Action::Report { code: c } && c == final_code
        },
        _ => false,
    }
}

/// Turns the raw invocation inputs into a configuration: `skip` means no
/// image is pulled; anything else must be a well-formed `name:tag`
/// reference, rejected as a usage error before anything else happens.
pub fn plan_invocation(image: &str, command: &str, args: Vec<String>) -> (r: Result<
    Config,
    RunError,
>)
    ensures
        image@ == "skip"@ ==> (r matches Ok(cfg) && cfg.pull is None && cfg.command@ == command@
            && cfg.args == args),
        image@ != "skip"@ ==> {
            &&& r is Ok <==> well_formed_reference(image@)
            &&& r matches Ok(cfg) ==> {
                &&& cfg.pull matches Some(img) && exists|i: int|
                    #[trigger] splits_at(image@, i) && img.name@ == image@.subrange(0, i)
                        && img.tag@ == image@.subrange(i + 1, image@.len() as int)
                &&& cfg.command@ == command@
                &&& cfg.args == args
            }
        },
        r matches Err(e) ==> e == RunError::Usage,
{
    if str_eq(image, "skip") {
        Ok(Config { pull: None, command: command.to_owned(), args })
    } else {
        match parse_image_reference(image) {
            Ok(img) => Ok(Config { pull: Some(img), command: command.to_owned(), args }),
            Err(e) => Err(e),
        }
    }
}

/// The first state and action of every invocation: build the ephemeral root.
pub fn start() -> (r: (State, Action))
    ensures
        r.0 is BuildingRoot,
        r.1 is BuildRoot,
        forall|cfg: Config| consistent(cfg, r.0),
{
    (State::BuildingRoot, Action::BuildRoot)
}

/// One decision of the engine: from the current state and the outcome of
/// the last action, the next state and the next action, exactly as
/// [`step_post`] states.
pub fn step(cfg: &Config, s: State, e: Event) -> (r: (State, Action))
    requires
        expected_event(s, e),
        consistent(*cfg, s),
    ensures
        step_post(*cfg, s, e, r),
        consistent(*cfg, r.0),
{
    match (s, e) {
        (State::BuildingRoot, Event::RootBuilt { ok }) => {
            if !ok {
                fail(RunError::Io)
            } else {
                match staging_path(command_of(cfg)) {
                    Some(rel_path) => (State::StagingCommand, Action::StageCommand { rel_path }),
                    None => fail(RunError::Io),
                }
            }
        },
        (State::StagingCommand, Event::CommandStaged { ok }) => {
            if ok {
                (State::CreatingDevice, Action::CreateDevice { mode: DEVICE_MODE })
            } else {
                fail(RunError::Io)
            }
        },
        (State::CreatingDevice, Event::DeviceCreated { ok }) => {
            if !ok {
                fail(RunError::Io)
            } else {
                match &cfg.pull {
                    None => (State::EnteringRoot, Action::EnterRoot),
                    Some(img) => (
                        State::AwaitToken,
                        Action::FetchToken { url: token_url(img.name.as_str()) },
                    ),
                }
            }
        },
        (State::AwaitToken, Event::TokenResponse { token }) => {
            match token {
                None => fail(RunError::Auth),
                Some(t) => {
                    match &cfg.pull {
                        Some(img) => {
                            let url = manifest_url(img.name.as_str(), img.tag.as_str());
                            let at = t.clone();
                            let accept = manifest_accept();
                            (State::AwaitManifest { token: t }, Action::FetchManifest {
                                url,
                                token: at,
                                accept,
                            })
                        },
                        None => vstd::pervasive::unreached(),
                    }
                },
            }
        },
        (State::AwaitManifest { token }, Event::ManifestResponse { layers }) => {
            match layers {
                None => fail(RunError::Manifest),
                Some(ls) => {
                    if ls.len() == 0 {
                        (State::EnteringRoot, Action::EnterRoot)
                    } else {
                        match &cfg.pull {
                            Some(img) => {
                                let url = blob_url(img.name.as_str(), ls[0].digest.as_str());
                                let at = token.clone();
                                (State::AwaitBlob { token, layers: ls, next: 0 },
                                Action::FetchBlob { url, token: at })
                            },
                            None => vstd::pervasive::unreached(),
                        }
                    }
                },
            }
        },
        (State::AwaitBlob { token, layers, next }, Event::BlobResponse { data }) => {
            match data {
                None => fail(RunError::LayerFetch),
                Some(bytes) => {
                    match gunzip(&bytes) {
                        None => fail(RunError::Decompress),
                        Some(tar_bytes) => (
                            State::AwaitExtract { token, layers, next },
                            Action::ExtractLayer { data: tar_bytes },
                        ),
                    }
                },
            }
        },
        (State::AwaitExtract { token, layers, next }, Event::LayerExtracted { ok }) => {
            if !ok {
                fail(RunError::Extract)
            } else if next < layers.len() - 1 {
                match &cfg.pull {
                    Some(img) => {
                        let n = next + 1;
                        let url = blob_url(img.name.as_str(), layers[n].digest.as_str());
                        let at = token.clone();
                        (State::AwaitBlob { token, layers, next: n }, Action::FetchBlob {
                            url,
                            token: at,
                        })
                    },
                    None => vstd::pervasive::unreached(),
                }
            } else {
                (State::EnteringRoot, Action::EnterRoot)
            }
        },
        (State::EnteringRoot, Event::RootEntered { outcome }) => {
            match outcome {
                EnterOutcome::Entered => (State::Isolating, Action::IsolateNamespace),
                EnterOutcome::PermissionDenied => fail(RunError::Permission),
                EnterOutcome::IoFailure => fail(RunError::Io),
            }
        },
        (State::Isolating, Event::NamespaceIsolated { ok: _ }) => {
            let command = command_of(cfg).to_owned();
            let args = clone_strings(&cfg.args);
            (State::Spawning, Action::Spawn { command, args })
        },
        (State::Spawning, Event::Spawned { ok }) => {
            if ok {
                (State::Running, Action::Wait)
            } else {
                fail(RunError::Spawn)
            }
        },
        (State::Running, Event::ChildExited { code }) => {
            let final_code: i32 = match code {
                Some(c) => c,
                None => 1,
            };
            (State::Exited { code: final_code }, Action::Report { code: final_code })
        },
        _ => vstd::pervasive::unreached(),
    }
}

/// The terminal failure pair for `err`.
fn fail(err: RunError) -> (r: (State, Action))
    ensures
        failed_with(r, err),
{
    (State::Failed { error: err }, Action::Fail { error: err })
}

/// The configured command, as a borrowed string.
fn command_of<'a>(cfg: &'a Config) -> (r: &'a str)
    ensures
        r@ == cfg.command@,
{
    cfg.command.as_str()
}

/// Character-for-character string equality.
fn str_eq(a: &str, b: &str) -> (r: bool)
    ensures
        r == (a@ == b@),
{
    let n = a.unicode_len();
    let m = b.unicode_len();
    if n != m {
        return false;
    }
    let mut i: usize = 0;
    while i < n
        invariant
            n == a@.len(),
            n == b@.len(),
            0 <= i <= n,
            forall|j: int| 0 <= j < i ==> a@[j] == b@[j],
        decreases n - i,
    {
        if a.get_char(i) != b.get_char(i) {
            return false;
        }
        i = i + 1;
    }
    proof {
        assert(a@ =~= b@);
    }
    true
}

/// An element-wise copy of the argument vector.
fn clone_strings(v: &Vec<String>) -> (r: Vec<String>)
    ensures
        r@ == v@,
{
    let mut out: Vec<String> = Vec::new();
    let mut i: usize = 0;
    while i < v.len()
        invariant
            0 <= i <= v.len(),
            out@.len() == i,
            forall|j: int| 0 <= j < i ==> out@[j] == v@[j],
        decreases v.len() - i,
    {
        out.push(v[i].clone());
        i = i + 1;
    }
    proof {
        assert(out@ =~= v@);
    }
    out
}

/// An invocation that pulls no image never touches the network: no step of
/// it hands out a fetch action.
pub proof fn lemma_skip_never_fetches(cfg: Config, s: State, e: Event, r: (State, Action))
    requires
        cfg.pull is None,
        consistent(cfg, s),
        expected_event(s, e),
        step_post(cfg, s, e, r),
    ensures
        !(r.1 is FetchToken),
        !(r.1 is FetchManifest),
        !(r.1 is FetchBlob),
{
}

/// A failed step is final: the machine that reported a failure accepts no
/// further event, so nothing follows the failure — in particular, after a
/// corrupt layer stream no later layer is fetched.
pub proof fn lemma_failure_is_final(cfg: Config, s: State, e: Event, r: (State, Action))
    requires
        step_post(cfg, s, e, r),
        r.0 is Failed,
    ensures
        is_terminal(r.0),
        forall|e2: Event| !expected_event(r.0, e2),
{
}

/// Layers leave the machine strictly in manifest order: a blob fetch is
/// handed out only for the layer the machine points at, the pointer starts
/// at the first layer and moves forward one layer at a time, and only after
/// the previous layer was extracted.
pub proof fn lemma_layers_in_manifest_order(cfg: Config, s: State, e: Event, r: (State, Action))
    requires
        consistent(cfg, s),
        expected_event(s, e),
        step_post(cfg, s, e, r),
        r.0 is AwaitBlob,
    ensures
        s matches State::AwaitManifest { .. } ==> r.0->AwaitBlob_next == 0,
        s matches State::AwaitExtract { next, .. } ==> r.0->AwaitBlob_next == next + 1,
        s is AwaitManifest || s is AwaitExtract,
{
}

} // verus!
