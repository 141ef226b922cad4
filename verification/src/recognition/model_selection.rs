//! Availability of the recognition engines and the choice of a default model.
use vstd::prelude::*;

verus! {

/// Snapshot of recognition engine availability
#[derive(Debug, Clone, Copy, PartialEq, Eq, Structural)]
pub struct RecognitionAvailabilitySnapshot {
    pub whisper_available: bool,
    pub parakeet_available: bool,
    pub soniox_selected: bool,
    pub soniox_ready: bool,
    pub remote_available: bool,
}

/// Some engine can transcribe: a local model, a configured Soniox, or a
/// remote server.
pub open spec fn any_engine_available(s: RecognitionAvailabilitySnapshot) -> bool {
    s.whisper_available || s.parakeet_available || (s.soniox_selected && s.soniox_ready)
        || s.remote_available
}

impl RecognitionAvailabilitySnapshot {
    /// Whether some engine can transcribe.
    pub fn any_available(&self) -> (b: bool)
        ensures
            b == any_engine_available(*self),
    {
        self.whisper_available || self.parakeet_available || (self.soniox_selected
            && self.soniox_ready) || self.remote_available
    }
}

/// Whether Soniox is the selected engine and whether its key is stored: the
/// stored engine defaults to Whisper; without the settings store neither.
pub fn soniox_availability(
    store_available: bool,
    stored_engine: Option<&str>,
    key_present: bool,
) -> (r: (bool, bool))
    ensures
        r == (if store_available && (stored_engine matches Some(e) && e@ == "soniox"@) {
            (true, key_present)
        } else {
            (false, false)
        }),
{
    if !store_available {
        return (false, false);
    }
    match stored_engine {
        Some(e) => {
            if crate::text::str_eq(e, "soniox") {
                (true, key_present)
            } else {
                (false, false)
            }
        },
        None => (false, false),
    }
}

/// A model as the ranking sees it.
#[derive(Debug, Clone)]
pub struct RankedModel {
    pub name: String,
    pub downloaded: bool,
    pub recommended: bool,
    pub accuracy_score: u8,
    pub size: u64,
}

/// `a` ranks strictly before `b`: recommended first, then higher accuracy,
/// then smaller size.
pub open spec fn ranks_before(a: RankedModel, b: RankedModel) -> bool {
    ||| (a.recommended && !b.recommended)
    ||| (a.recommended == b.recommended && a.accuracy_score > b.accuracy_score)
    ||| (a.recommended == b.recommended && a.accuracy_score == b.accuracy_score && a.size < b.size)
}

/// Position `i` holds the model a stable sort by rank puts first among the
/// downloaded ones: no downloaded model ranks before it, and it ranks before
/// every downloaded model that comes earlier.
pub open spec fn is_best_at(ms: Seq<RankedModel>, i: int) -> bool {
    &&& 0 <= i < ms.len()
    &&& ms[i].downloaded
    &&& forall|j: int| 0 <= j < ms.len() && ms[j].downloaded ==> !ranks_before(ms[j], ms[i])
    &&& forall|j: int| 0 <= j < i && ms[j].downloaded ==> ranks_before(ms[i], ms[j])
}

/// What the picked model is: downloaded; recommended whenever some downloaded
/// model is; at least as accurate as every downloaded model with the same
/// recommendation; no larger than those of the same recommendation and
/// accuracy; and, among models equal to it in all three, the first.
pub proof fn lemma_best_model_is_preferred(ms: Seq<RankedModel>, i: int)
    requires
        is_best_at(ms, i),
    ensures
        ms[i].downloaded,
        forall|j: int|
            0 <= j < ms.len() && (#[trigger] ms[j]).downloaded && ms[j].recommended
                ==> ms[i].recommended,
        forall|j: int|
            0 <= j < ms.len() && (#[trigger] ms[j]).downloaded && ms[j].recommended
                == ms[i].recommended ==> ms[j].accuracy_score <= ms[i].accuracy_score,
        forall|j: int|
            0 <= j < ms.len() && (#[trigger] ms[j]).downloaded && ms[j].recommended
                == ms[i].recommended && ms[j].accuracy_score == ms[i].accuracy_score
                ==> ms[i].size <= ms[j].size,
        forall|j: int|
            0 <= j < i && (#[trigger] ms[j]).downloaded ==> !(ms[j].recommended
                == ms[i].recommended && ms[j].accuracy_score == ms[i].accuracy_score
                && ms[j].size == ms[i].size),
{
}

/// The best downloaded model (see `is_best_at`), if any model is downloaded.
pub fn pick_best_model(models: &Vec<RankedModel>) -> (r: Option<String>)
    ensures
        match r {
            Some(n) => exists|i: int| is_best_at(models@, i) && models@[i].name == n,
            None => forall|j: int| 0 <= j < models@.len() ==> !(#[trigger] models@[j]).downloaded,
        },
{
    let mut best: Option<usize> = None;
    let mut k: usize = 0;
    while k < models.len()
        invariant
            k <= models@.len(),
            match best {
                Some(b) => {
                    &&& b < k
                    &&& models@[b as int].downloaded
                    &&& forall|j: int|
                        0 <= j < k && models@[j].downloaded ==> !ranks_before(
                            models@[j],
                            models@[b as int],
                        )
                    &&& forall|j: int|
                        0 <= j < b && models@[j].downloaded ==> ranks_before(
                            models@[b as int],
                            models@[j],
                        )
                },
                None => forall|j: int| 0 <= j < k ==> !(#[trigger] models@[j]).downloaded,
            },
        decreases models@.len() - k,
    {
        let m = &models[k];
        if m.downloaded {
            match best {
                None => {
                    best = Some(k);
                },
                Some(b) => {
                    let c = &models[b];
                    let better = (m.recommended && !c.recommended) || (m.recommended
                        == c.recommended && m.accuracy_score > c.accuracy_score) || (
                    m.recommended == c.recommended && m.accuracy_score == c.accuracy_score
                        && m.size < c.size);
                    if better {
                        best = Some(k);
                    }
                },
            }
        }
        k = k + 1;
    }
    match best {
        Some(b) => {
            assert(is_best_at(models@, b as int));
            Some(models[b].name.clone())
        },
        None => None,
    }
}

/// What to store when no model is selected yet.
#[derive(Debug, Clone, PartialEq, Eq)]
pub enum AutoSelection {
    /// A model is already selected, or nothing can be selected.
    Nothing,
    /// Only a remote server is available: onboarding is complete.
    MarkOnboarded,
    /// Select `model` of `engine` and mark onboarding complete.
    Select { engine: String, model: String },
}

/// The automatic choice when no model is selected: the best Parakeet model,
/// else the best Whisper model, else Soniox when it is selected and ready;
/// with none of them, only an available remote server marks onboarding done.
/// `best_parakeet` and `best_whisper` are the picks among the downloaded
/// models of each engine (`None` where the engine is unavailable).
pub fn auto_selection(
    current_model: &str,
    availability: &RecognitionAvailabilitySnapshot,
    best_parakeet: Option<String>,
    best_whisper: Option<String>,
) -> (r: AutoSelection)
    ensures
        current_model@.len() > 0 ==> r == AutoSelection::Nothing,
        current_model@.len() == 0 ==> match r {
            AutoSelection::Select { engine, model } => {
                ||| (availability.parakeet_available && best_parakeet == Some(model) && engine@
                    == "parakeet"@)
                ||| (!(availability.parakeet_available && best_parakeet.is_some())
                    && availability.whisper_available && best_whisper == Some(model) && engine@
                    == "whisper"@)
                ||| (!(availability.parakeet_available && best_parakeet.is_some()) && !(
                availability.whisper_available && best_whisper.is_some())
                    && availability.soniox_selected && availability.soniox_ready && engine@
                    == "soniox"@ && model@ == "soniox"@)
            },
            AutoSelection::MarkOnboarded => {
                &&& !(availability.parakeet_available && best_parakeet.is_some())
                &&& !(availability.whisper_available && best_whisper.is_some())
                &&& !(availability.soniox_selected && availability.soniox_ready)
                &&& availability.remote_available
            },
            AutoSelection::Nothing => {
                &&& !(availability.parakeet_available && best_parakeet.is_some())
                &&& !(availability.whisper_available && best_whisper.is_some())
                &&& !(availability.soniox_selected && availability.soniox_ready)
                &&& !availability.remote_available
            },
        },
{
    if !current_model.is_empty() {
        return AutoSelection::Nothing;
    }
    if availability.parakeet_available {
        if let Some(m) = best_parakeet {
            return AutoSelection::Select { engine: "parakeet".to_owned(), model: m };
        }
    }
    if availability.whisper_available {
        if let Some(m) = best_whisper {
            return AutoSelection::Select { engine: "whisper".to_owned(), model: m };
        }
    }
    if availability.soniox_selected && availability.soniox_ready {
        return AutoSelection::Select { engine: "soniox".to_owned(), model: "soniox".to_owned() };
    }
    if availability.remote_available {
        AutoSelection::MarkOnboarded
    } else {
        AutoSelection::Nothing
    }
}

} // verus!
