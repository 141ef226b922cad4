//! Defaults of the Parakeet sidecar's load command.
use vstd::prelude::*;

verus! {

/// The numeric precision a model loads with when none is given.
pub fn default_precision() -> (r: String)
    ensures
        r@ == "bf16"@,
{
    "bf16".to_owned()
}

/// The attention mode a model loads with when none is given.
pub fn default_attention() -> (r: String)
    ensures
        r@ == "full"@,
{
    "full".to_owned()
}

/// The local attention context when none is given.
pub fn default_local_context() -> (r: i32)
    ensures
        r == 256,
{
    256
}

} // verus!
