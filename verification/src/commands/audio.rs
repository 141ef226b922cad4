//! The decisions of recording and transcription: whether the pill shows,
//! whether recording may start, which engine and model transcribe, how
//! failures are reported, and which recording files are safe to open.
use vstd::prelude::*;

use crate::license::{CachedLicense, LicenseState};
use crate::recognition::model_selection::{any_engine_available, RecognitionAvailabilitySnapshot};
use crate::remote::settings::{display_name_of, SavedConnection};
use crate::sorting::{is_stable_order, stable_order};
use crate::text::{
    chars_of, has_suffix, str_ends_with, contains, decimal, decimal_string, has_prefix, push_str, split, split_str, str_contains,
    str_eq, str_starts_with, to_lowercase, trim, unicode_lowercase,
};

verus! {

// ---------------------------------------------------------------------------
// The pill
// ---------------------------------------------------------------------------

/// Payload for pill toast messages
#[derive(Debug, Clone)]
pub struct PillToastPayload {
    pub id: u64,
    pub message: String,
    pub duration_ms: u64,
}

/// The toast that follows the one numbered `previous_id` (numbers wrap).
pub fn pill_toast_payload(previous_id: u64, message: &str, duration_ms: u64) -> (r: PillToastPayload)
    ensures
        r.id == (if previous_id == u64::MAX {
            0
        } else {
            previous_id + 1
        }),
        r.message@ == message@,
        r.duration_ms == duration_ms,
{
    let id = if previous_id == u64::MAX {
        0
    } else {
        previous_id + 1
    };
    PillToastPayload { id, message: message.to_owned(), duration_ms }
}

/// The pill hides when idle unless the indicator mode is `always`.
pub fn should_hide_pill_when_idle(mode: &str) -> (b: bool)
    ensures
        b == (mode@ != "always"@),
{
    !str_eq(mode, "always")
}

/// The pill shows while recording when the widget is on and the indicator
/// mode is not `never`.
pub fn should_show_pill(show_pill_widget: bool, mode: &str) -> (b: bool)
    ensures
        b == (show_pill_widget && mode@ != "never"@),
{
    show_pill_widget && !str_eq(mode, "never")
}

// ---------------------------------------------------------------------------
// Cached recording configuration
// ---------------------------------------------------------------------------

/// A point in time, as `std::time::Instant` measures it.
#[verifier::external_type_specification]
#[verifier::external_body]
pub struct ExInstant(std::time::Instant);

/// `Instant` is `Copy`; its `clone` returns the same instant.
pub assume_specification[ <std::time::Instant as Clone>::clone ](t: &std::time::Instant) -> (r:
    std::time::Instant)
    ensures
        r == *t,
;

/// Calls `Instant::now`. The result is the current time, of which nothing is
/// stated.
#[verifier::external_body]
fn instant_now() -> (r: std::time::Instant) {
    std::time::Instant::now()
}

/// Calls `Instant::elapsed` and gives the nanoseconds since `t`. The result
/// depends on the clock, so nothing is stated of it.
#[verifier::external_body]
fn elapsed_nanos(t: &std::time::Instant) -> (r: u128) {
    t.elapsed().as_nanos()
}

/// How long a cached configuration stays fresh: five minutes.
pub const MAX_CACHE_AGE_NANOS: u128 = 300_000_000_000;

/// Settings read from the store for recording; `None` where a key is absent.
#[derive(Debug, Clone)]
pub struct StoredRecordingSettings {
    pub show_pill_widget: Option<bool>,
    pub ai_enabled: Option<bool>,
    pub ai_provider: Option<String>,
    pub ai_model: Option<String>,
    pub current_model: Option<String>,
    pub current_engine: Option<String>,
    pub language: Option<String>,
    pub translate_to_english: Option<bool>,
    pub show_recording_status: Option<bool>,
}

/// Cached recording configuration to avoid repeated store access during transcription flow
#[derive(Debug, Clone)]
pub struct RecordingConfig {
    pub show_pill_widget: bool,
    pub pill_indicator_mode: String,
    pub ai_enabled: bool,
    pub ai_provider: String,
    pub ai_model: String,
    pub current_model: String,
    pub current_engine: String,
    pub language: String,
    pub translate_to_english: bool,
    pub show_recording_status: bool,
    /// When the configuration was read from the store.
    pub loaded_at: std::time::Instant,
}

/// A stored string, or `default`.
fn string_or(v: Option<String>, default: &str) -> (r: String)
    ensures
        r@ == (match v {
            Some(s) => s@,
            None => default@,
        }),
{
    match v {
        Some(s) => s,
        None => default.to_owned(),
    }
}

/// A configuration of this age is still fresh.
pub fn is_fresh_age(age_nanos: u128) -> (b: bool)
    ensures
        b == (age_nanos < MAX_CACHE_AGE_NANOS),
{
    age_nanos < MAX_CACHE_AGE_NANOS
}

impl RecordingConfig {
    /// The configuration for stored settings, loaded now: the pill widget and
    /// the recording status show by default, AI formatting and translation
    /// are off, the engine is Whisper, the language English, and the AI
    /// provider, AI model and model are empty.
    pub fn from_stored(stored: StoredRecordingSettings, pill_indicator_mode: String) -> (r:
        RecordingConfig)
        ensures
            r.show_pill_widget == (match stored.show_pill_widget {
                Some(b) => b,
                None => true,
            }),
            r.pill_indicator_mode == pill_indicator_mode,
            r.ai_enabled == (stored.ai_enabled == Some(true)),
            r.ai_provider@ == (match stored.ai_provider {
                Some(s) => s@,
                None => Seq::empty(),
            }),
            r.ai_model@ == (match stored.ai_model {
                Some(s) => s@,
                None => Seq::empty(),
            }),
            r.current_model@ == (match stored.current_model {
                Some(s) => s@,
                None => Seq::empty(),
            }),
            r.current_engine@ == (match stored.current_engine {
                Some(s) => s@,
                None => "whisper"@,
            }),
            r.language@ == (match stored.language {
                Some(s) => s@,
                None => "en"@,
            }),
            r.translate_to_english == (stored.translate_to_english == Some(true)),
            r.show_recording_status == (match stored.show_recording_status {
                Some(b) => b,
                None => true,
            }),
    {
        proof {
            reveal_strlit("");
        }
        RecordingConfig {
            show_pill_widget: match stored.show_pill_widget {
                Some(b) => b,
                None => true,
            },
            pill_indicator_mode,
            ai_enabled: match stored.ai_enabled {
                Some(b) => b,
                None => false,
            },
            ai_provider: string_or(stored.ai_provider, ""),
            ai_model: string_or(stored.ai_model, ""),
            current_model: string_or(stored.current_model, ""),
            current_engine: string_or(stored.current_engine, "whisper"),
            language: string_or(stored.language, "en"),
            translate_to_english: match stored.translate_to_english {
                Some(b) => b,
                None => false,
            },
            show_recording_status: match stored.show_recording_status {
                Some(b) => b,
                None => true,
            },
            loaded_at: instant_now(),
        }
    }

    /// Whether the configuration was loaded less than five minutes ago
    /// (`is_fresh_age` of its age; the age depends on the clock).
    pub fn is_fresh(&self) -> (b: bool) {
        is_fresh_age(elapsed_nanos(&self.loaded_at))
    }
}

// ---------------------------------------------------------------------------
// May recording start?
// ---------------------------------------------------------------------------

/// What the cached license allows.
#[derive(Debug, Clone, Copy, PartialEq, Eq, Structural)]
pub enum RecordingLicenseState {
    Ready,
    Loading,
    Blocked,
}

/// The license state for recording: no cache yet is `Loading`; an expired or
/// missing license is `Blocked`; a trial or a license is `Ready`.
pub open spec fn license_gate(cache: Option<LicenseState>) -> RecordingLicenseState {
    match cache {
        None => RecordingLicenseState::Loading,
        Some(LicenseState::Expired) => RecordingLicenseState::Blocked,
        Some(LicenseState::NoLicense) => RecordingLicenseState::Blocked,
        Some(_) => RecordingLicenseState::Ready,
    }
}

/// What the cached license allows.
pub fn recording_license_state(cache: Option<&CachedLicense>) -> (r: RecordingLicenseState)
    ensures
        r == license_gate(
            match cache {
                Some(c) => Some(c.status.status),
                None => None,
            },
        ),
{
    match cache {
        Some(cached) => match cached.status.status {
            LicenseState::Expired => RecordingLicenseState::Blocked,
            LicenseState::NoLicense => RecordingLicenseState::Blocked,
            _ => RecordingLicenseState::Ready,
        },
        None => RecordingLicenseState::Loading,
    }
}

/// Why recording cannot start.
#[derive(Debug, Clone, Copy, PartialEq, Eq, Structural)]
pub enum RequirementFailure {
    /// Soniox is selected but its token is missing.
    SonioxTokenMissing,
    /// No engine can transcribe.
    NoModels,
    /// The license does not allow recording.
    LicenseRequired,
    /// The license is not known yet.
    LicenseLoading,
}

/// The error each failure returns.
pub open spec fn requirement_error_text(f: RequirementFailure) -> Seq<char> {
    match f {
        RequirementFailure::SonioxTokenMissing => "Soniox token missing"@,
        RequirementFailure::NoModels =>
            "No speech recognition models installed. Please download a model first."@,
        RequirementFailure::LicenseRequired => "License required to record"@,
        RequirementFailure::LicenseLoading =>
            "License status is still loading. Please try again in a moment."@,
    }
}

/// The guidance shown in the main window for a failed requirement.
pub open spec fn requirement_guidance_text(f: RequirementFailure) -> Seq<char> {
    match f {
        RequirementFailure::SonioxTokenMissing => "Please configure your Soniox token in Models before recording."@,
        RequirementFailure::NoModels => "Please download at least one model from Models before recording."@,
        RequirementFailure::LicenseRequired => "Your trial has expired. Please purchase a license to continue"@,
        RequirementFailure::LicenseLoading => "License status is still loading. Please try again in a moment."@,
    }
}

impl RequirementFailure {
    /// The error the command returns.
    pub fn error_message(&self) -> (r: &'static str)
        ensures
            r@ == requirement_error_text(*self),
    {
        match self {
            RequirementFailure::SonioxTokenMissing => "Soniox token missing",
            RequirementFailure::NoModels =>
                "No speech recognition models installed. Please download a model first.",
            RequirementFailure::LicenseRequired => "License required to record",
            RequirementFailure::LicenseLoading =>
                "License status is still loading. Please try again in a moment.",
        }
    }

    /// The guidance shown in the main window.
    pub fn guidance(&self) -> (r: &'static str)
        ensures
            r@ == requirement_guidance_text(*self),
    {
        match self {
            RequirementFailure::SonioxTokenMissing =>
                "Please configure your Soniox token in Models before recording.",
            RequirementFailure::NoModels =>
                "Please download at least one model from Models before recording.",
            RequirementFailure::LicenseRequired =>
                "Your trial has expired. Please purchase a license to continue",
            RequirementFailure::LicenseLoading =>
                "License status is still loading. Please try again in a moment.",
        }
    }
}

/// Recording needs an engine first and then a license.
pub open spec fn requirements_outcome(
    availability: RecognitionAvailabilitySnapshot,
    license: Option<LicenseState>,
) -> Result<(), RequirementFailure> {
    if !any_engine_available(availability) {
        if availability.soniox_selected && !availability.soniox_ready {
            Err(RequirementFailure::SonioxTokenMissing)
        } else {
            Err(RequirementFailure::NoModels)
        }
    } else {
        match license_gate(license) {
            RecordingLicenseState::Blocked => Err(RequirementFailure::LicenseRequired),
            RecordingLicenseState::Loading => Err(RequirementFailure::LicenseLoading),
            RecordingLicenseState::Ready => Ok(()),
        }
    }
}

/// Checks that some engine can transcribe and that the license allows
/// recording.
pub fn check_recording_requirements(
    availability: &RecognitionAvailabilitySnapshot,
    license: Option<&CachedLicense>,
) -> (r: Result<(), RequirementFailure>)
    ensures
        r == requirements_outcome(
            *availability,
            match license {
                Some(c) => Some(c.status.status),
                None => None,
            },
        ),
{
    if !availability.any_available() {
        if availability.soniox_selected && !availability.soniox_ready {
            return Err(RequirementFailure::SonioxTokenMissing);
        }
        return Err(RequirementFailure::NoModels);
    }
    match recording_license_state(license) {
        RecordingLicenseState::Blocked => Err(RequirementFailure::LicenseRequired),
        RecordingLicenseState::Loading => Err(RequirementFailure::LicenseLoading),
        RecordingLicenseState::Ready => Ok(()),
    }
}

/// The toast for a recorder that failed to start, from its error.
pub open spec fn recorder_failure_text(e: Seq<char>) -> Seq<char> {
    if contains(e, "permission"@) || contains(e, "access"@) {
        "Microphone permission denied"@
    } else if contains(e, "device"@) || contains(e, "not found"@) {
        "No microphone found"@
    } else if contains(e, "in use"@) || contains(e, "busy"@) {
        "Microphone busy"@
    } else {
        "Recording failed"@
    }
}

/// The toast for a recorder that failed to start.
pub fn recorder_failure_toast(e: &str) -> (r: &'static str)
    ensures
        r@ == recorder_failure_text(e@),
{
    if str_contains(e, "permission") || str_contains(e, "access") {
        "Microphone permission denied"
    } else if str_contains(e, "device") || str_contains(e, "not found") {
        "No microphone found"
    } else if str_contains(e, "in use") || str_contains(e, "busy") {
        "Microphone busy"
    } else {
        "Recording failed"
    }
}

/// The file a recording started at `timestamp` (seconds) is written to.
pub fn recording_file_name(timestamp: u64) -> (r: String)
    ensures
        r@ == "recording_"@ + decimal(timestamp as nat) + ".wav"@,
{
    let mut r = "recording_".to_owned();
    let d = decimal_string(timestamp);
    push_str(&mut r, d.as_str());
    push_str(&mut r, ".wav");
    r
}

// ---------------------------------------------------------------------------
// Choosing the engine and the model
// ---------------------------------------------------------------------------

/// `available[i]` is the first model that starts with `prefix`.
pub open spec fn is_first_prefixed(available: Seq<String>, prefix: Seq<char>, i: int) -> bool {
    &&& 0 <= i < available.len()
    &&& has_prefix(available[i]@, prefix)
    &&& forall|j: int| 0 <= j < i ==> !has_prefix((#[trigger] available[j])@, prefix)
}

/// `available` holds a model named `name`.
pub open spec fn holds_model(available: Seq<String>, name: Seq<char>) -> bool {
    exists|k: int| 0 <= k < available.len() && (#[trigger] available[k])@ == name
}

/// `priority[j]` is the first priority model that is available.
pub open spec fn is_first_available(available: Seq<String>, priority: Seq<String>, j: int) -> bool {
    &&& 0 <= j < priority.len()
    &&& holds_model(available, priority[j]@)
    &&& forall|k: int| 0 <= k < j ==> !holds_model(available, (#[trigger] priority[k])@)
}

/// The fallback for a requested model: the first available model that
/// starts like it (up to its first `-`), else the first available model in
/// priority order, else the first available model, else `base.en`.
pub open spec fn is_fallback_for(
    available: Seq<String>,
    requested: Seq<char>,
    priority: Seq<String>,
    r: Seq<char>,
) -> bool {
    let prefix = split(requested, '-')[0];
    if requested.len() > 0 && exists|i: int| is_first_prefixed(available, prefix, i) {
        exists|i: int| is_first_prefixed(available, prefix, i) && r == available[i]@
    } else if exists|j: int| is_first_available(available, priority, j) {
        exists|j: int| is_first_available(available, priority, j) && r == priority[j]@
    } else if available.len() > 0 {
        r == available[0]@
    } else {
        r == "base.en"@
    }
}

/// Whether `available` holds a model named `name`.
fn has_model(available: &[String], name: &str) -> (b: bool)
    ensures
        b == holds_model(available@, name@),
{
    let mut k: usize = 0;
    while k < available.len()
        invariant
            k <= available@.len(),
            forall|m: int| 0 <= m < k ==> (#[trigger] available@[m])@ != name@,
        decreases available@.len() - k,
    {
        if str_eq(available[k].as_str(), name) {
            return true;
        }
        k = k + 1;
    }
    false
}

/// Select the best fallback model based on available models
/// Prioritizes models by size (smaller to larger for better performance)
pub fn select_best_fallback_model(
    available_models: &[String],
    requested: &str,
    model_priority: &[String],
) -> (r: String)
    ensures
        is_fallback_for(available_models@, requested@, model_priority@, r@),
{
    let ghost av = available_models@;
    let ghost pr = model_priority@;
    let ghost prefix = split(requested@, '-')[0];
    proof {
        crate::text::lemma_split_nonempty(requested@, '-');
    }
    if !requested.is_empty() {
        let parts = split_str(requested, '-');
        let head = parts[0].as_str();
        let mut i: usize = 0;
        while i < available_models.len()
            invariant
                i <= av.len(),
                av == available_models@,
                pr == model_priority@,
                requested@.len() > 0,
                prefix == split(requested@, '-')[0],
                head@ == prefix,
                forall|j: int| 0 <= j < i ==> !has_prefix((#[trigger] av[j])@, prefix),
            decreases av.len() - i,
        {
            if str_starts_with(available_models[i].as_str(), head) {
                let r = available_models[i].clone();
                assert(is_first_prefixed(av, prefix, i as int) && r@ == av[i as int]@);
                return r;
            }
            i = i + 1;
        }
        assert(!exists|i: int| is_first_prefixed(av, prefix, i));
    }
    let mut j: usize = 0;
    while j < model_priority.len()
        invariant
            j <= pr.len(),
            pr == model_priority@,
            av == available_models@,
            prefix == split(requested@, '-')[0],
            !(requested@.len() > 0 && exists|i: int| is_first_prefixed(av, prefix, i)),
            forall|k: int| 0 <= k < j ==> !holds_model(av, (#[trigger] pr[k])@),
        decreases pr.len() - j,
    {
        if has_model(available_models, model_priority[j].as_str()) {
            let r = model_priority[j].clone();
            assert(is_first_available(av, pr, j as int) && r@ == pr[j as int]@);
            return r;
        }
        j = j + 1;
    }
    assert(!exists|j: int| is_first_available(av, pr, j));
    if available_models.len() > 0 {
        available_models[0].clone()
    } else {
        "base.en".to_owned()
    }
}

/// The engine a transcription runs on.
#[derive(Debug, Clone)]
pub enum ActiveEngineSelection {
    Whisper { model_name: String, model_path: String },
    Parakeet { model_name: String },
    Soniox { model_name: String },
    Remote {
        server_id: String,
        server_name: String,
        host: String,
        port: u16,
        password: Option<String>,
    },
}

/// An engine selection as values.
pub enum EngineView {
    Whisper { model_name: Seq<char>, model_path: Seq<char> },
    Parakeet { model_name: Seq<char> },
    Soniox { model_name: Seq<char> },
    Remote {
        server_id: Seq<char>,
        server_name: Seq<char>,
        host: Seq<char>,
        port: u16,
        password: Option<Seq<char>>,
    },
}

/// The view of an optional string.
pub open spec fn opt_view(o: Option<String>) -> Option<Seq<char>> {
    match o {
        Some(s) => Some(s@),
        None => None,
    }
}

impl View for ActiveEngineSelection {
    type V = EngineView;

    open spec fn view(&self) -> EngineView {
        match self {
            ActiveEngineSelection::Whisper { model_name, model_path } => EngineView::Whisper {
                model_name: model_name@,
                model_path: model_path@,
            },
            ActiveEngineSelection::Parakeet { model_name } => EngineView::Parakeet {
                model_name: model_name@,
            },
            ActiveEngineSelection::Soniox { model_name } => EngineView::Soniox {
                model_name: model_name@,
            },
            ActiveEngineSelection::Remote { server_id, server_name, host, port, password } =>
                EngineView::Remote {
                server_id: server_id@,
                server_name: server_name@,
                host: host@,
                port: *port,
                password: opt_view(*password),
            },
        }
    }
}

/// The engine's name.
pub open spec fn engine_label(e: EngineView) -> Seq<char> {
    match e {
        EngineView::Whisper { .. } => "whisper"@,
        EngineView::Parakeet { .. } => "parakeet"@,
        EngineView::Soniox { .. } => "soniox"@,
        EngineView::Remote { .. } => "remote"@,
    }
}

/// The model (for a remote server, the server's name) the engine runs.
pub open spec fn engine_model(e: EngineView) -> Seq<char> {
    match e {
        EngineView::Whisper { model_name, .. } => model_name,
        EngineView::Parakeet { model_name } => model_name,
        EngineView::Soniox { model_name } => model_name,
        EngineView::Remote { server_name, .. } => server_name,
    }
}

/// Transcription on a saved remote server.
pub open spec fn remote_view(c: SavedConnection) -> EngineView {
    EngineView::Remote {
        server_id: c.id@,
        server_name: display_name_of(c),
        host: c.host@,
        port: c.port,
        password: opt_view(c.password),
    }
}

impl ActiveEngineSelection {
    /// Transcription on a saved remote server.
    pub fn remote(conn: &SavedConnection) -> (r: ActiveEngineSelection)
        ensures
            r@ == remote_view(*conn),
    {
        ActiveEngineSelection::Remote {
            server_id: conn.id.clone(),
            server_name: conn.display_name(),
            host: conn.host.clone(),
            port: conn.port,
            password: crate::remote::settings::copy_opt_string(&conn.password),
        }
    }

    /// The engine's name.
    pub fn engine_name(&self) -> (r: &'static str)
        ensures
            r@ == engine_label(self@),
    {
        match self {
            ActiveEngineSelection::Whisper { .. } => "whisper",
            ActiveEngineSelection::Parakeet { .. } => "parakeet",
            ActiveEngineSelection::Soniox { .. } => "soniox",
            ActiveEngineSelection::Remote { .. } => "remote",
        }
    }

    /// The model (for a remote server, the server's name) the engine runs.
    pub fn model_name(&self) -> (r: &str)
        ensures
            r@ == engine_model(self@),
    {
        match self {
            ActiveEngineSelection::Whisper { model_name, .. } => model_name.as_str(),
            ActiveEngineSelection::Parakeet { model_name } => model_name.as_str(),
            ActiveEngineSelection::Soniox { model_name } => model_name.as_str(),
            ActiveEngineSelection::Remote { server_name, .. } => server_name.as_str(),
        }
    }
}

/// The error when the Soniox token is missing.
pub const SONIOX_TOKEN_MESSAGE: &'static str =
    "Soniox token not configured. Please configure it in Models.";

/// The engine for a model that a file transcription names, with an optional
/// engine hint (compared in lower case). An active remote server always
/// wins. The other inputs are what the managers report: whether the Soniox
/// token is stored, the path of the Whisper model if it is downloaded, and
/// for the Parakeet model `None` when the registry does not know it, else
/// whether it is downloaded.
pub open spec fn engine_for_model(
    model: Seq<char>,
    hint: Option<Seq<char>>,
    remote: Option<SavedConnection>,
    soniox_token: bool,
    whisper_path: Option<Seq<char>>,
    parakeet: Option<bool>,
) -> Result<EngineView, Seq<char>> {
    match remote {
        Some(c) => Ok(remote_view(c)),
        None => match hint {
            Some(h) => if h == "soniox"@ {
                if soniox_token {
                    Ok(EngineView::Soniox { model_name: model })
                } else {
                    Err(SONIOX_TOKEN_MESSAGE@)
                }
            } else if h == "parakeet"@ {
                match parakeet {
                    Some(true) => Ok(EngineView::Parakeet { model_name: model }),
                    Some(false) => Err(
                        "Parakeet model '"@ + model
                            + "' is not downloaded. Please download it first."@,
                    ),
                    None => Err("Parakeet model '"@ + model + "' not found in registry."@),
                }
            } else if h == "whisper"@ || h == "whisper.cpp"@ {
                match whisper_path {
                    Some(p) => Ok(EngineView::Whisper { model_name: model, model_path: p }),
                    None => Err("Whisper model '"@ + model + "' not found"@),
                }
            } else {
                Err("Unknown model engine '"@ + h + "'."@)
            },
            None => if model == "soniox"@ {
                if soniox_token {
                    Ok(EngineView::Soniox { model_name: model })
                } else {
                    Err(SONIOX_TOKEN_MESSAGE@)
                }
            } else {
                match whisper_path {
                    Some(p) => Ok(EngineView::Whisper { model_name: model, model_path: p }),
                    None => match parakeet {
                        Some(true) => Ok(EngineView::Parakeet { model_name: model }),
                        Some(false) => Err(
                            "Model '"@ + model
                                + "' is a Parakeet model but not downloaded. Please download it first."@,
                        ),
                        None => Err(
                            "Model '"@ + model + "' not found in Whisper or Parakeet registries"@,
                        ),
                    },
                }
            },
        },
    }
}

/// `head` + `model` + `tail`.
fn framed(head: &str, model: &str, tail: &str) -> (r: String)
    ensures
        r@ == head@ + model@ + tail@,
{
    let mut r = head.to_owned();
    push_str(&mut r, model);
    push_str(&mut r, tail);
    r
}

/// Resolves the engine for a model named by a file transcription (see
/// `engine_for_model`); the hint is lower-cased first.
pub fn resolve_engine_for_model(
    model_name: &str,
    engine_hint: Option<&str>,
    active_remote: Option<&SavedConnection>,
    soniox_token: bool,
    whisper_path: Option<String>,
    parakeet_downloaded: Option<bool>,
) -> (r: Result<ActiveEngineSelection, String>)
    ensures
        ({
            let expected = engine_for_model(
                model_name@,
                match engine_hint {
                    Some(h) => Some(unicode_lowercase(h@)),
                    None => None,
                },
                match active_remote {
                    Some(c) => Some(*c),
                    None => None,
                },
                soniox_token,
                opt_view(whisper_path),
                parakeet_downloaded,
            );
            match r {
                Ok(e) => expected == Ok::<EngineView, Seq<char>>(e@),
                Err(m) => expected == Err::<EngineView, Seq<char>>(m@),
            }
        }),
{
    if let Some(c) = active_remote {
        return Ok(ActiveEngineSelection::remote(c));
    }
    match engine_hint {
        Some(hint) => {
            let h = to_lowercase(hint);
            if str_eq(h.as_str(), "soniox") {
                if soniox_token {
                    Ok(ActiveEngineSelection::Soniox { model_name: model_name.to_owned() })
                } else {
                    Err(SONIOX_TOKEN_MESSAGE.to_owned())
                }
            } else if str_eq(h.as_str(), "parakeet") {
                match parakeet_downloaded {
                    Some(true) => Ok(
                        ActiveEngineSelection::Parakeet { model_name: model_name.to_owned() },
                    ),
                    Some(false) => Err(
                        framed(
                            "Parakeet model '",
                            model_name,
                            "' is not downloaded. Please download it first.",
                        ),
                    ),
                    None => Err(framed("Parakeet model '", model_name, "' not found in registry.")),
                }
            } else if str_eq(h.as_str(), "whisper") || str_eq(h.as_str(), "whisper.cpp") {
                match whisper_path {
                    Some(p) => Ok(
                        ActiveEngineSelection::Whisper {
                            model_name: model_name.to_owned(),
                            model_path: p,
                        },
                    ),
                    None => Err(framed("Whisper model '", model_name, "' not found")),
                }
            } else {
                Err(framed("Unknown model engine '", h.as_str(), "'."))
            }
        },
        None => {
            if str_eq(model_name, "soniox") {
                if soniox_token {
                    return Ok(ActiveEngineSelection::Soniox { model_name: model_name.to_owned() });
                } else {
                    return Err(SONIOX_TOKEN_MESSAGE.to_owned());
                }
            }
            match whisper_path {
                Some(p) => Ok(
                    ActiveEngineSelection::Whisper { model_name: model_name.to_owned(), model_path: p },
                ),
                None => match parakeet_downloaded {
                    Some(true) => Ok(
                        ActiveEngineSelection::Parakeet { model_name: model_name.to_owned() },
                    ),
                    Some(false) => Err(
                        framed(
                            "Model '",
                            model_name,
                            "' is a Parakeet model but not downloaded. Please download it first.",
                        ),
                    ),
                    None => Err(
                        framed("Model '", model_name, "' not found in Whisper or Parakeet registries"),
                    ),
                },
            }
        },
    }
}

/// Why a finished recording cannot be transcribed: no usable model.
#[derive(Debug, Clone, Copy, PartialEq, Eq, Structural)]
pub enum MissingModel {
    NoParakeetModel,
    ParakeetNotDownloaded,
    ParakeetUnavailable,
    NoSonioxModel,
    SonioxTokenMissing,
    NoWhisperModels,
}

/// The message logged and returned when a model is missing.
pub open spec fn missing_model_log_text(m: MissingModel) -> Seq<char> {
    match m {
        MissingModel::NoParakeetModel => "No Parakeet model selected"@,
        MissingModel::ParakeetNotDownloaded => "Selected Parakeet model is not downloaded"@,
        MissingModel::ParakeetUnavailable => "Selected Parakeet model is not available"@,
        MissingModel::NoSonioxModel => "No Soniox model selected"@,
        MissingModel::SonioxTokenMissing => "Soniox token not configured"@,
        MissingModel::NoWhisperModels => "No speech recognition models installed"@,
    }
}

/// The message shown to the user when a model is missing.
pub open spec fn missing_model_user_text(m: MissingModel) -> Seq<char> {
    match m {
        MissingModel::NoParakeetModel => "Please select a Parakeet model before recording."@,
        MissingModel::ParakeetNotDownloaded => "Please download the selected Parakeet model before recording."@,
        MissingModel::ParakeetUnavailable => "The selected Parakeet model is unavailable. Please download it again."@,
        MissingModel::NoSonioxModel => "Please select the Soniox cloud model before recording."@,
        MissingModel::SonioxTokenMissing => "Please configure your Soniox token in Models before recording."@,
        MissingModel::NoWhisperModels => "Please download at least one speech recognition model from Models to use VoiceTypr."@,
    }
}

impl MissingModel {
    /// The message logged and returned.
    pub fn log_message(&self) -> (r: &'static str)
        ensures
            r@ == missing_model_log_text(*self),
    {
        match self {
            MissingModel::NoParakeetModel => "No Parakeet model selected",
            MissingModel::ParakeetNotDownloaded => "Selected Parakeet model is not downloaded",
            MissingModel::ParakeetUnavailable => "Selected Parakeet model is not available",
            MissingModel::NoSonioxModel => "No Soniox model selected",
            MissingModel::SonioxTokenMissing => "Soniox token not configured",
            MissingModel::NoWhisperModels => "No speech recognition models installed",
        }
    }

    /// The message shown to the user.
    pub fn user_message(&self) -> (r: &'static str)
        ensures
            r@ == missing_model_user_text(*self),
    {
        match self {
            MissingModel::NoParakeetModel => "Please select a Parakeet model before recording.",
            MissingModel::ParakeetNotDownloaded =>
                "Please download the selected Parakeet model before recording.",
            MissingModel::ParakeetUnavailable =>
                "The selected Parakeet model is unavailable. Please download it again.",
            MissingModel::NoSonioxModel => "Please select the Soniox cloud model before recording.",
            MissingModel::SonioxTokenMissing =>
                "Please configure your Soniox token in Models before recording.",
            MissingModel::NoWhisperModels =>
                "Please download at least one speech recognition model from Models to use VoiceTypr.",
        }
    }
}

/// The engine chosen for a finished recording; for Whisper, the model and,
/// when the configured model was not downloaded, the model that was asked for.
#[derive(Debug, Clone)]
pub enum PlannedEngine {
    Selected(ActiveEngineSelection),
    Whisper { model_name: String, requested: Option<String> },
}

/// The engine for a finished recording. An active remote server wins; else
/// the configured engine: Parakeet needs a selected, known and downloaded
/// model (`parakeet_downloaded` as for `engine_for_model`); Soniox a selected
/// model and the token; any other engine means Whisper, which needs a
/// downloaded model: the configured one when it is downloaded, else the
/// fallback for it (or for nothing, when none is configured).
pub fn choose_recording_engine(
    active_remote: Option<&SavedConnection>,
    engine: &str,
    configured_model: &str,
    parakeet_downloaded: Option<bool>,
    soniox_token: bool,
    downloaded_whisper: &Vec<String>,
    models_by_size: &Vec<String>,
) -> (r: Result<PlannedEngine, MissingModel>)
    ensures
        active_remote matches Some(c) ==> (r matches Ok(PlannedEngine::Selected(e)) && e@
            == remote_view(*c)),
        active_remote.is_none() && engine@ == "parakeet"@ ==> (if configured_model@.len() == 0 {
            r == Err::<PlannedEngine, MissingModel>(MissingModel::NoParakeetModel)
        } else {
            match parakeet_downloaded {
                None => r == Err::<PlannedEngine, MissingModel>(MissingModel::ParakeetUnavailable),
                Some(false) => r == Err::<PlannedEngine, MissingModel>(
                    MissingModel::ParakeetNotDownloaded,
                ),
                Some(true) => r matches Ok(PlannedEngine::Selected(e)) && e@
                    == EngineView::Parakeet { model_name: configured_model@ },
            }
        }),
        active_remote.is_none() && engine@ == "soniox"@ ==> (if configured_model@.len() == 0 {
            r == Err::<PlannedEngine, MissingModel>(MissingModel::NoSonioxModel)
        } else if !soniox_token {
            r == Err::<PlannedEngine, MissingModel>(MissingModel::SonioxTokenMissing)
        } else {
            r matches Ok(PlannedEngine::Selected(e)) && e@ == EngineView::Soniox {
                model_name: configured_model@,
            }
        }),
        active_remote.is_none() && engine@ != "parakeet"@ && engine@ != "soniox"@ ==> (if downloaded_whisper@.len() == 0 {
            r == Err::<PlannedEngine, MissingModel>(MissingModel::NoWhisperModels)
        } else if configured_model@.len() > 0 && holds_model(
            downloaded_whisper@,
            configured_model@,
        ) {
            r matches Ok(PlannedEngine::Whisper { model_name, requested }) && model_name@
                == configured_model@ && requested.is_none()
        } else {
            r matches Ok(PlannedEngine::Whisper { model_name, requested }) && is_fallback_for(
                downloaded_whisper@,
                configured_model@,
                models_by_size@,
                model_name@,
            ) && (configured_model@.len() > 0 ==> (requested matches Some(q) && q@
                == configured_model@)) && (configured_model@.len() == 0 ==> requested.is_none())
        }),
{
    proof {
        reveal_strlit("parakeet");
        reveal_strlit("soniox");
        assert("parakeet"@.len() != "soniox"@.len());
    }
    if let Some(c) = active_remote {
        return Ok(PlannedEngine::Selected(ActiveEngineSelection::remote(c)));
    }
    if str_eq(engine, "parakeet") {
        if configured_model.is_empty() {
            return Err(MissingModel::NoParakeetModel);
        }
        return match parakeet_downloaded {
            None => Err(MissingModel::ParakeetUnavailable),
            Some(false) => Err(MissingModel::ParakeetNotDownloaded),
            Some(true) => Ok(
                PlannedEngine::Selected(
                    ActiveEngineSelection::Parakeet { model_name: configured_model.to_owned() },
                ),
            ),
        };
    }
    if str_eq(engine, "soniox") {
        if configured_model.is_empty() {
            return Err(MissingModel::NoSonioxModel);
        }
        if !soniox_token {
            return Err(MissingModel::SonioxTokenMissing);
        }
        return Ok(
            PlannedEngine::Selected(
                ActiveEngineSelection::Soniox { model_name: configured_model.to_owned() },
            ),
        );
    }
    if downloaded_whisper.len() == 0 {
        return Err(MissingModel::NoWhisperModels);
    }
    if !configured_model.is_empty() {
        if has_model(downloaded_whisper.as_slice(), configured_model) {
            return Ok(PlannedEngine::Whisper { model_name: configured_model.to_owned(), requested: None });
        }
        let fallback = select_best_fallback_model(
            downloaded_whisper.as_slice(),
            configured_model,
            models_by_size.as_slice(),
        );
        return Ok(
            PlannedEngine::Whisper {
                model_name: fallback,
                requested: Some(configured_model.to_owned()),
            },
        );
    }
    let best = select_best_fallback_model(
        downloaded_whisper.as_slice(),
        "",
        models_by_size.as_slice(),
    );
    proof {
        reveal_strlit("");
        assert(configured_model@ =~= ""@);
    }
    Ok(PlannedEngine::Whisper { model_name: best, requested: None })
}

// ---------------------------------------------------------------------------
// After transcription
// ---------------------------------------------------------------------------

/// Whisper's marker for audio without speech.
pub const BLANK_AUDIO_MARKER: &'static str = "[BLANK_AUDIO]";

/// A transcription with no speech: blank, or Whisper's blank-audio marker.
pub fn is_blank_transcription(text: &str) -> (b: bool)
    ensures
        b == (trim(text@).len() == 0 || text@ == BLANK_AUDIO_MARKER@),
{
    crate::text::is_blank(text) || str_eq(text, BLANK_AUDIO_MARKER)
}

/// How many times a Whisper transcription is tried.
pub const MAX_TRANSCRIPTION_ATTEMPTS: u32 = 3;

/// The pause before another attempt, in milliseconds.
pub const RETRY_DELAY_MS: u64 = 500;

/// After attempt `attempt` (counted from 1) ended, the next attempt, if any:
/// a success ends the tries, a failure is retried until the last attempt.
pub fn next_transcription_attempt(attempt: u32, succeeded: bool) -> (r: Option<u32>)
    ensures
        r == (if !succeeded && attempt < MAX_TRANSCRIPTION_ATTEMPTS {
            Some((attempt + 1) as u32)
        } else {
            None::<u32>
        }),
{
    if !succeeded && attempt < MAX_TRANSCRIPTION_ATTEMPTS {
        Some(attempt + 1)
    } else {
        None
    }
}

/// A failed transcription's error comes from a remote server (the recording
/// is then kept for another try).
pub open spec fn is_remote_failure_text(e: Seq<char>) -> bool {
    contains(e, "remote server"@) || contains(e, "Remote server"@) || contains(
        e,
        "Connection refused"@,
    )
}

/// Whether a failed transcription's error comes from a remote server.
pub fn is_remote_failure(e: &str) -> (b: bool)
    ensures
        b == is_remote_failure_text(e@),
{
    str_contains(e, "remote server") || str_contains(e, "Remote server") || str_contains(
        e,
        "Connection refused",
    )
}

/// How a failed transcription is handled.
#[derive(Debug, Clone, Copy, PartialEq, Eq, Structural)]
pub enum TranscriptionFailure {
    Cancelled,
    TooShort,
    RemoteUnavailable,
    Other,
}

/// The handling of a failed transcription, from its error.
pub open spec fn failure_kind(e: Seq<char>) -> TranscriptionFailure {
    if contains(e, "cancelled"@) {
        TranscriptionFailure::Cancelled
    } else if contains(e, "too short"@) {
        TranscriptionFailure::TooShort
    } else if is_remote_failure_text(e) {
        TranscriptionFailure::RemoteUnavailable
    } else {
        TranscriptionFailure::Other
    }
}

/// Classifies a failed transcription.
pub fn classify_transcription_failure(e: &str) -> (r: TranscriptionFailure)
    ensures
        r == failure_kind(e@),
{
    if str_contains(e, "cancelled") {
        TranscriptionFailure::Cancelled
    } else if str_contains(e, "too short") {
        TranscriptionFailure::TooShort
    } else if is_remote_failure(e) {
        TranscriptionFailure::RemoteUnavailable
    } else {
        TranscriptionFailure::Other
    }
}

/// The toast for failed AI formatting, from its error.
pub open spec fn formatting_failure_text(e: Seq<char>) -> Seq<char> {
    if contains(e, "400"@) || contains(e, "Bad Request"@) {
        "Formatting failed: API key missing or invalid"@
    } else if contains(e, "401"@) || contains(e, "Unauthorized"@) {
        "Formatting failed: API key unauthorized"@
    } else if contains(e, "429"@) {
        "Formatting failed: Rate limit exceeded"@
    } else if contains(e, "network"@) || contains(e, "connection"@) {
        "Formatting failed: Network error"@
    } else {
        "Formatting failed: Service unavailable"@
    }
}

/// The toast for failed AI formatting.
pub fn formatting_failure_toast(e: &str) -> (r: &'static str)
    ensures
        r@ == formatting_failure_text(e@),
{
    if str_contains(e, "400") || str_contains(e, "Bad Request") {
        "Formatting failed: API key missing or invalid"
    } else if str_contains(e, "401") || str_contains(e, "Unauthorized") {
        "Formatting failed: API key unauthorized"
    } else if str_contains(e, "429") {
        "Formatting failed: Rate limit exceeded"
    } else if str_contains(e, "network") || str_contains(e, "connection") {
        "Formatting failed: Network error"
    } else {
        "Formatting failed: Service unavailable"
    }
}

/// Whether failed formatting points at the API key (the main window is then
/// asked to check it).
pub fn formatting_failure_is_key_problem(e: &str) -> (b: bool)
    ensures
        b == (contains(e@, "400"@) || contains(e@, "401"@) || contains(e@, "Bad Request"@)
            || contains(e@, "Unauthorized"@)),
{
    str_contains(e, "400") || str_contains(e, "401") || str_contains(e, "Bad Request")
        || str_contains(e, "Unauthorized")
}

/// The toast when pasting the text failed.
pub fn paste_failure_toast(e: &str) -> (r: &'static str)
    ensures
        r@ == (if contains(e@, "accessibility"@) || contains(e@, "permission"@) {
            "Text copied - grant permission to auto-paste"@
        } else {
            "Paste failed - text in clipboard"@
        }),
{
    if str_contains(e, "accessibility") || str_contains(e, "permission") {
        "Text copied - grant permission to auto-paste"
    } else {
        "Paste failed - text in clipboard"
    }
}

// ---------------------------------------------------------------------------
// Recording state
// ---------------------------------------------------------------------------

/// The states of the recording flow.
#[derive(Debug, Clone, Copy, PartialEq, Eq, Structural)]
pub enum RecordingState {
    Idle,
    Starting,
    Recording,
    Stopping,
    Transcribing,
    Error,
}

/// The name the front end knows a state by.
pub open spec fn state_name(s: RecordingState) -> Seq<char> {
    match s {
        RecordingState::Idle => "idle"@,
        RecordingState::Starting => "starting"@,
        RecordingState::Recording => "recording"@,
        RecordingState::Stopping => "stopping"@,
        RecordingState::Transcribing => "transcribing"@,
        RecordingState::Error => "error"@,
    }
}

/// The recording state as the front end reads it.
#[derive(Debug, Clone)]
pub struct RecordingStateResponse {
    pub state: String,
    pub error: Option<String>,
}

/// The response for a state, without an error.
pub fn recording_state_response(s: RecordingState) -> (r: RecordingStateResponse)
    ensures
        r.state@ == state_name(s),
        r.error.is_none(),
{
    let name = match s {
        RecordingState::Idle => "idle",
        RecordingState::Starting => "starting",
        RecordingState::Recording => "recording",
        RecordingState::Stopping => "stopping",
        RecordingState::Transcribing => "transcribing",
        RecordingState::Error => "error",
    };
    RecordingStateResponse { state: name.to_owned(), error: None }
}

/// The error recorded when a running transcription is cancelled.
pub const TRANSCRIPTION_CANCELLED: &'static str = "Transcription cancelled";

/// The states a cancellation passes through, ending at `Idle`: recording
/// stops first; a transcription goes through `Error`; other states go
/// straight to `Idle`.
pub open spec fn cancel_path(s: RecordingState) -> Seq<RecordingState> {
    match s {
        RecordingState::Recording => seq![RecordingState::Stopping, RecordingState::Idle],
        RecordingState::Transcribing => seq![RecordingState::Error, RecordingState::Idle],
        _ => seq![RecordingState::Idle],
    }
}

/// The states a cancellation passes through from state `s`.
pub fn cancel_transitions(s: RecordingState) -> (r: Vec<RecordingState>)
    ensures
        r@ == cancel_path(s),
        r@.len() >= 1 && r@.last() == RecordingState::Idle,
{
    let mut r: Vec<RecordingState> = Vec::new();
    match s {
        RecordingState::Recording => {
            r.push(RecordingState::Stopping);
        },
        RecordingState::Transcribing => {
            r.push(RecordingState::Error);
        },
        _ => {},
    }
    r.push(RecordingState::Idle);
    assert(r@ =~= cancel_path(s));
    r
}

// ---------------------------------------------------------------------------
// Recording files
// ---------------------------------------------------------------------------

/// Why a file name may not name a recording (paths as on Unix): empty,
/// absolute, starting with `.`, or holding a `..` component.
pub open spec fn filename_error(f: Seq<char>) -> Option<Seq<char>> {
    let segments = split(f, '/');
    if f.len() == 0 {
        Some("Empty filename"@)
    } else if f[0] == '/' {
        Some("Absolute paths are not allowed"@)
    } else if segments[0] == "."@ {
        Some("Invalid path component: CurDir"@)
    } else if exists|i: int| 0 <= i < segments.len() && #[trigger] segments[i] == ".."@ {
        Some("Invalid path component: ParentDir"@)
    } else {
        None
    }
}

/// Validate that a recording filename is safe (no path traversal)
pub fn validate_recording_filename(filename: &str) -> (r: Result<(), String>)
    ensures
        match filename_error(filename@) {
            Some(m) => r matches Err(e) && e@ == m,
            None => r is Ok,
        },
{
    if filename.is_empty() {
        return Err("Empty filename".to_owned());
    }
    if str_starts_with(filename, "/") {
        proof {
            reveal_strlit("/");
            assert(filename@.subrange(0, 1)[0] == filename@[0]);
        }
        return Err("Absolute paths are not allowed".to_owned());
    }
    proof {
        reveal_strlit("/");
        if filename@[0] == '/' {
            assert(filename@.subrange(0, 1) =~= "/"@);
        }
        crate::text::lemma_split_nonempty(filename@, '/');
    }
    let segments = split_str(filename, '/');
    if str_eq(segments[0].as_str(), ".") {
        return Err("Invalid path component: CurDir".to_owned());
    }
    let mut i: usize = 0;
    while i < segments.len()
        invariant
            i <= segments@.len(),
            segments@.len() == split(filename@, '/').len(),
            forall|j: int| 0 <= j < segments@.len() ==> (#[trigger] segments@[j])@ == split(filename@, '/')[j],
            forall|j: int| 0 <= j < i ==> split(filename@, '/')[j] != ".."@,
            filename@.len() > 0,
            filename@[0] != '/',
            split(filename@, '/')[0] != "."@,
        decreases segments@.len() - i,
    {
        if str_eq(segments[i].as_str(), "..") {
            assert(split(filename@, '/')[i as int] == ".."@);
            return Err("Invalid path component: ParentDir".to_owned());
        }
        i = i + 1;
    }
    Ok(())
}

/// The name a kept recording is stored under: the timestamp, `_`, the first
/// eight characters of a UUID, and `.wav`.
pub fn saved_recording_file_name(timestamp: &str, uuid_text: &str) -> (r: String)
    requires
        uuid_text@.len() >= 8,
    ensures
        r@ == timestamp@ + "_"@ + uuid_text@.subrange(0, 8) + ".wav"@,
{
    let mut r = timestamp.to_owned();
    push_str(&mut r, "_");
    let chars = crate::text::chars_of(uuid_text);
    let head = crate::text::slice_chars(chars.as_slice(), 0, 8);
    crate::text::push_chars(&mut r, head.as_slice());
    push_str(&mut r, ".wav");
    r
}


// ---------------------------------------------------------------------------
// Retention of recordings
// ---------------------------------------------------------------------------

/// A file of the recordings folder: its name and, where the system reports
/// one, its creation time in nanoseconds since the Unix epoch.
#[derive(Debug, Clone)]
pub struct RecordingFile {
    pub name: String,
    pub created_nanos: Option<u64>,
}

/// A file name whose extension (what follows its last dot, where that dot
/// does not start the name) is `wav`.
pub open spec fn is_wav_name(name: Seq<char>) -> bool {
    name.len() > 4 && has_suffix(name, ".wav"@)
}

/// Whether a file name has the extension `wav` (case matters).
pub fn is_wav_file_name(name: &str) -> (b: bool)
    ensures
        b == is_wav_name(name@),
{
    let v = chars_of(name);
    v.len() > 4 && str_ends_with(name, ".wav")
}

/// The WAV files among `files`, in their order.
pub open spec fn wav_files(files: Seq<RecordingFile>) -> Seq<RecordingFile>
    decreases files.len(),
{
    if files.len() == 0 {
        Seq::empty()
    } else {
        let rest = wav_files(files.drop_last());
        if is_wav_name(files.last().name@) {
            rest.push(files.last())
        } else {
            rest
        }
    }
}

/// The sort key of a creation time: an unknown time sorts first.
pub open spec fn creation_key(created: Option<u64>) -> u128 {
    match created {
        None => 0,
        Some(t) => (t + 1) as u128,
    }
}

/// The sort keys of a list of files.
pub open spec fn creation_keys(files: Seq<RecordingFile>) -> Seq<u128> {
    Seq::new(files.len(), |i: int| creation_key(files[i].created_nanos))
}

/// How many of `n` recordings are over the limit (`0` means no limit).
pub open spec fn excess_count(n: int, max_count: int) -> int {
    if max_count == 0 || n <= max_count {
        0
    } else {
        n - max_count
    }
}

/// The recordings to delete so that at most `max_count` WAV files remain
/// (`0` keeps them all): the oldest by creation time, an unknown time
/// counting as oldest and equal times keeping the folder's order.
pub fn recordings_to_remove(files: &Vec<RecordingFile>, max_count: usize) -> (r: Vec<String>)
    ensures
        ({
            let w = wav_files(files@);
            &&& r@.len() == excess_count(w.len() as int, max_count as int)
            &&& exists|order: Seq<usize>|
                #[trigger] is_stable_order(creation_keys(w), order) && forall|i: int|
                    0 <= i < r@.len() ==> (#[trigger] r@[i])@ == w[order[i] as int].name@
        }),
{
    let mut names: Vec<String> = Vec::new();
    let mut keys: Vec<u128> = Vec::new();
    let mut i: usize = 0;
    while i < files.len()
        invariant
            i <= files@.len(),
            names@.len() == keys@.len(),
            names@.len() == wav_files(files@.take(i as int)).len(),
            forall|j: int|
                0 <= j < names@.len() ==> (#[trigger] names@[j])@ == wav_files(
                    files@.take(i as int),
                )[j].name@,
            forall|j: int|
                0 <= j < keys@.len() ==> #[trigger] keys@[j] == creation_key(
                    wav_files(files@.take(i as int))[j].created_nanos,
                ),
        decreases files@.len() - i,
    {
        assert(files@.take(i + 1).drop_last() =~= files@.take(i as int));
        let f = &files[i];
        if is_wav_file_name(f.name.as_str()) {
            names.push(f.name.clone());
            let key: u128 = match f.created_nanos {
                None => 0,
                Some(t) => t as u128 + 1,
            };
            keys.push(key);
        }
        i = i + 1;
    }
    assert(files@.take(files@.len() as int) =~= files@);
    let ghost w = wav_files(files@);
    assert(keys@ =~= creation_keys(w));
    let order = stable_order(&keys);
    let n = names.len();
    let count: usize = if max_count == 0 || n <= max_count {
        0
    } else {
        n - max_count
    };
    let mut r: Vec<String> = Vec::new();
    let mut p: usize = 0;
    while p < count
        invariant
            p <= count,
            count <= n,
            n == names@.len(),
            n == keys@.len(),
            is_stable_order(keys@, order@),
            forall|j: int| 0 <= j < n ==> (#[trigger] names@[j])@ == w[j].name@,
            r@.len() == p,
            forall|j: int| 0 <= j < p ==> (#[trigger] r@[j])@ == names@[order@[j] as int]@,
        decreases count - p,
    {
        let k = order[p];
        r.push(names[k].clone());
        p = p + 1;
    }
    assert(is_stable_order(creation_keys(w), order@));
    r
}

// ---------------------------------------------------------------------------
// A stopped recording
// ---------------------------------------------------------------------------

/// The size of a WAV header: a file no larger holds no samples.
pub const WAV_HEADER_BYTES: u64 = 44;

/// Whether a recorded file of `file_len` bytes holds audio beyond its header.
pub fn has_audio_samples(file_len: u64) -> (b: bool)
    ensures
        b == (file_len > WAV_HEADER_BYTES),
{
    file_len > WAV_HEADER_BYTES
}

/// The toast after the recorder stopped with `stop_message`: a stop caused by
/// silence says that no sound was heard.
pub fn stop_toast(stop_message: &str) -> (r: Option<&'static str>)
    ensures
        contains(stop_message@, "silence"@) ==> (r matches Some(t) && t@ == "No sound detected"@),
        !contains(stop_message@, "silence"@) ==> r is None,
{
    if str_contains(stop_message, "silence") {
        Some("No sound detected")
    } else {
        None
    }
}

} // verus!
