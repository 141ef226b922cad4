//! The model list shown to the user and the decisions of downloading a model.
use vstd::prelude::*;

use crate::sorting::{is_stable_order, stable_order};
use crate::text::{contains, push_str, str_contains, str_eq};

verus! {

/// The engines that run local models.
#[derive(Debug, Clone, Copy, PartialEq, Eq, Structural)]
pub enum ModelEngine {
    Whisper,
    Parakeet,
}

/// The name of an engine.
pub open spec fn engine_str(e: ModelEngine) -> Seq<char> {
    match e {
        ModelEngine::Whisper => "whisper"@,
        ModelEngine::Parakeet => "parakeet"@,
    }
}

impl ModelEngine {
    /// The name of the engine.
    pub fn as_str(&self) -> (r: &'static str)
        ensures
            r@ == engine_str(*self),
    {
        match self {
            ModelEngine::Whisper => "whisper",
            ModelEngine::Parakeet => "parakeet",
        }
    }
}

/// A Whisper model as its manager describes it.
#[derive(Debug, Clone)]
pub struct WhisperModelInfo {
    pub display_name: String,
    pub size: u64,
    pub url: String,
    pub sha256: String,
    pub downloaded: bool,
    pub speed_score: u8,
    pub accuracy_score: u8,
    pub recommended: bool,
}

/// A Parakeet model as its manager reports it.
#[derive(Debug, Clone)]
pub struct ParakeetModelStatus {
    pub name: String,
    pub display_name: String,
    pub size: u64,
    pub url: String,
    pub sha256: String,
    pub downloaded: bool,
    pub speed_score: u8,
    pub accuracy_score: u8,
    pub recommended: bool,
}

/// A model of any engine, as the model list shows it.
#[derive(Debug, Clone)]
pub struct UnifiedModelInfo {
    pub name: String,
    pub display_name: String,
    pub size: u64,
    pub url: String,
    pub sha256: String,
    pub downloaded: bool,
    pub speed_score: u8,
    pub accuracy_score: u8,
    pub recommended: bool,
    pub engine: String,
    pub kind: String,
    pub requires_setup: bool,
}

/// The model list.
#[derive(Debug, Clone)]
pub struct ModelStatusResponse {
    pub models: Vec<UnifiedModelInfo>,
}

impl UnifiedModelInfo {
    /// A copy of the entry.
    pub fn duplicate(&self) -> (r: UnifiedModelInfo)
        ensures
            r == *self,
    {
        UnifiedModelInfo {
            name: self.name.clone(),
            display_name: self.display_name.clone(),
            size: self.size,
            url: self.url.clone(),
            sha256: self.sha256.clone(),
            downloaded: self.downloaded,
            speed_score: self.speed_score,
            accuracy_score: self.accuracy_score,
            recommended: self.recommended,
            engine: self.engine.clone(),
            kind: self.kind.clone(),
            requires_setup: self.requires_setup,
        }
    }
}

/// The list entry of a Whisper model: local, needing no setup.
pub fn convert_whisper_model(name: String, info: WhisperModelInfo) -> (r: UnifiedModelInfo)
    ensures
        r.name == name,
        r.display_name == info.display_name,
        r.size == info.size,
        r.url == info.url,
        r.sha256 == info.sha256,
        r.downloaded == info.downloaded,
        r.speed_score == info.speed_score,
        r.accuracy_score == info.accuracy_score,
        r.recommended == info.recommended,
        r.engine@ == "whisper"@,
        r.kind@ == "local"@,
        !r.requires_setup,
{
    UnifiedModelInfo {
        name,
        display_name: info.display_name,
        size: info.size,
        url: info.url,
        sha256: info.sha256,
        downloaded: info.downloaded,
        speed_score: info.speed_score,
        accuracy_score: info.accuracy_score,
        recommended: info.recommended,
        engine: ModelEngine::Whisper.as_str().to_owned(),
        kind: "local".to_owned(),
        requires_setup: false,
    }
}

/// The list entry of a Parakeet model: local, needing no setup.
pub fn convert_parakeet_model(status: ParakeetModelStatus) -> (r: UnifiedModelInfo)
    ensures
        r.name == status.name,
        r.display_name == status.display_name,
        r.size == status.size,
        r.url == status.url,
        r.sha256 == status.sha256,
        r.downloaded == status.downloaded,
        r.speed_score == status.speed_score,
        r.accuracy_score == status.accuracy_score,
        r.recommended == status.recommended,
        r.engine@ == "parakeet"@,
        r.kind@ == "local"@,
        !r.requires_setup,
{
    UnifiedModelInfo {
        name: status.name,
        display_name: status.display_name,
        size: status.size,
        url: status.url,
        sha256: status.sha256,
        downloaded: status.downloaded,
        speed_score: status.speed_score,
        accuracy_score: status.accuracy_score,
        recommended: status.recommended,
        engine: ModelEngine::Parakeet.as_str().to_owned(),
        kind: "local".to_owned(),
        requires_setup: false,
    }
}

/// The cloud models: Soniox, usable once its key is stored.
pub fn collect_cloud_models(has_soniox_key: bool) -> (r: Vec<UnifiedModelInfo>)
    ensures
        r@.len() == 1,
        r@[0].name@ == "soniox"@,
        r@[0].display_name@ == "Soniox (Cloud)"@,
        r@[0].size == 0,
        r@[0].url@.len() == 0,
        r@[0].sha256@.len() == 0,
        r@[0].downloaded == has_soniox_key,
        r@[0].speed_score == 9,
        r@[0].accuracy_score == 10,
        r@[0].recommended,
        r@[0].engine@ == "soniox"@,
        r@[0].kind@ == "cloud"@,
        r@[0].requires_setup == !has_soniox_key,
{
    let mut r: Vec<UnifiedModelInfo> = Vec::new();
    r.push(
        UnifiedModelInfo {
            name: "soniox".to_owned(),
            display_name: "Soniox (Cloud)".to_owned(),
            size: 0,
            url: String::new(),
            sha256: String::new(),
            downloaded: has_soniox_key,
            speed_score: 9,
            accuracy_score: 10,
            recommended: true,
            engine: "soniox".to_owned(),
            kind: "cloud".to_owned(),
            requires_setup: !has_soniox_key,
        },
    );
    r
}

/// The sort key of a list entry: local models first, then by size.
pub open spec fn list_key(m: UnifiedModelInfo) -> u128 {
    if m.kind@ == "cloud"@ {
        (0x1_0000_0000_0000_0000 + m.size) as u128
    } else {
        m.size as u128
    }
}

/// The sort keys of a list.
pub open spec fn list_keys(ms: Seq<UnifiedModelInfo>) -> Seq<u128> {
    Seq::new(ms.len(), |i: int| list_key(ms[i]))
}

/// The model list in display order: local models before cloud models, each
/// group by size, entries that tie in their original order.
pub fn sort_models(models: &Vec<UnifiedModelInfo>) -> (r: Vec<UnifiedModelInfo>)
    ensures
        exists|order: Seq<usize>|
            is_stable_order(list_keys(models@), order) && r@.len() == order.len() && forall|
                p: int,
            |
                0 <= p < order.len() ==> #[trigger] r@[p] == models@[order[p] as int],
{
    let mut keys: Vec<u128> = Vec::new();
    let mut i: usize = 0;
    while i < models.len()
        invariant
            i <= models@.len(),
            keys@.len() == i,
            forall|j: int| 0 <= j < i ==> keys@[j] == list_key(#[trigger] models@[j]),
        decreases models@.len() - i,
    {
        let m = &models[i];
        let k: u128 = if str_eq(m.kind.as_str(), "cloud") {
            0x1_0000_0000_0000_0000u128 + m.size as u128
        } else {
            m.size as u128
        };
        keys.push(k);
        i = i + 1;
    }
    assert(keys@ =~= list_keys(models@));
    let order = stable_order(&keys);
    let mut r: Vec<UnifiedModelInfo> = Vec::new();
    let mut p: usize = 0;
    while p < order.len()
        invariant
            is_stable_order(list_keys(models@), order@),
            order@.len() == models@.len(),
            p <= order@.len(),
            r@.len() == p,
            forall|q: int| 0 <= q < p ==> #[trigger] r@[q] == models@[order@[q] as int],
        decreases order@.len() - p,
    {
        let idx = order[p];
        r.push(models[idx].duplicate());
        p = p + 1;
    }
    r
}

/// Which engine knows a model: Whisper's registry first, then Parakeet's.
pub fn determine_model_engine(
    model_name: &str,
    in_whisper_registry: bool,
    in_parakeet_registry: bool,
) -> (r: Result<ModelEngine, String>)
    ensures
        in_whisper_registry ==> r == Ok::<ModelEngine, String>(ModelEngine::Whisper),
        !in_whisper_registry && in_parakeet_registry ==> r == Ok::<ModelEngine, String>(
            ModelEngine::Parakeet,
        ),
        !in_whisper_registry && !in_parakeet_registry ==> (r matches Err(m) && m@
            == "Invalid model name: "@ + model_name@),
{
    if in_whisper_registry {
        return Ok(ModelEngine::Whisper);
    }
    if in_parakeet_registry {
        return Ok(ModelEngine::Parakeet);
    }
    let mut m = "Invalid model name: ".to_owned();
    push_str(&mut m, model_name);
    Err(m)
}

/// What a download is of: the engine and the expected size in bytes.
#[derive(Debug, Clone, Copy, PartialEq, Eq, Structural)]
pub struct DownloadTarget {
    pub engine: ModelEngine,
    pub size_bytes: u64,
}

/// The target of a download, from the size each registry gives the model
/// (`None` where it does not know it).
pub fn identify_download_target(
    model_name: &str,
    whisper_size: Option<u64>,
    parakeet_size: Option<u64>,
) -> (r: Result<DownloadTarget, String>)
    ensures
        match (whisper_size, parakeet_size) {
            (Some(s), _) => r == Ok::<DownloadTarget, String>(
                DownloadTarget { engine: ModelEngine::Whisper, size_bytes: s },
            ),
            (None, Some(s)) => r == Ok::<DownloadTarget, String>(
                DownloadTarget { engine: ModelEngine::Parakeet, size_bytes: s },
            ),
            (None, None) => r matches Err(m) && m@ == "Invalid model name: "@ + model_name@,
        },
{
    match determine_model_engine(model_name, whisper_size.is_some(), parakeet_size.is_some()) {
        Err(e) => Err(e),
        Ok(ModelEngine::Whisper) => Ok(
            DownloadTarget { engine: ModelEngine::Whisper, size_bytes: whisper_size.unwrap() },
        ),
        Ok(ModelEngine::Parakeet) => Ok(
            DownloadTarget { engine: ModelEngine::Parakeet, size_bytes: parakeet_size.unwrap() },
        ),
    }
}

/// How a download ended.
#[derive(Debug, Clone, PartialEq, Eq)]
pub enum DownloadOutcome {
    /// Downloaded (and, for Parakeet, confirmed).
    Completed,
    /// The user cancelled; the error is returned as it is.
    Cancelled(String),
    /// Parakeet did not confirm the model: the message for the error event.
    Unconfirmed(String),
    /// The download failed with this error.
    Failed(String),
}

/// The end of a download, from its result and, for a Parakeet model, whether
/// the manager lists it as downloaded afterwards.
pub fn download_outcome(
    model_name: &str,
    engine: ModelEngine,
    result: Result<(), String>,
    parakeet_confirmed: bool,
) -> (r: DownloadOutcome)
    ensures
        match result {
            Err(e) => if contains(e@, "cancelled"@) {
                r matches DownloadOutcome::Cancelled(m) && m@ == e@
            } else {
                r matches DownloadOutcome::Failed(m) && m@ == e@
            },
            Ok(()) => if engine == ModelEngine::Parakeet && !parakeet_confirmed {
                r matches DownloadOutcome::Unconfirmed(m) && m@ == "Parakeet sidecar did not confirm '"@
                    + model_name@ + "' as downloaded. Please try again."@
            } else {
                r == DownloadOutcome::Completed
            },
        },
{
    match result {
        Err(e) => {
            if str_contains(e.as_str(), "cancelled") {
                DownloadOutcome::Cancelled(e)
            } else {
                DownloadOutcome::Failed(e)
            }
        },
        Ok(()) => {
            if engine == ModelEngine::Parakeet && !parakeet_confirmed {
                let mut m = "Parakeet sidecar did not confirm '".to_owned();
                push_str(&mut m, model_name);
                push_str(&mut m, "' as downloaded. Please try again.");
                DownloadOutcome::Unconfirmed(m)
            } else {
                DownloadOutcome::Completed
            }
        },
    }
}

} // verus!
