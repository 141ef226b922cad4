//! The ledger of an app-data reset: what was cleared and what failed.
use vstd::prelude::*;

use crate::text::{contains, push_str, str_contains};

verus! {

/// The outcome of a reset.
#[derive(Debug, Clone)]
pub struct ResetResult {
    pub success: bool,
    pub errors: Vec<String>,
    pub cleared_items: Vec<String>,
}

/// What a reset has cleared so far and what failed.
#[derive(Debug, Clone)]
pub struct ResetLedger {
    pub errors: Vec<String>,
    pub cleared_items: Vec<String>,
}

/// The text of a failure is `Store access failed` when the secure store does
/// not exist (then nothing was there to clear).
pub const MISSING_STORE_TEXT: &'static str = "Store access failed";

impl ResetLedger {
    /// A ledger with nothing recorded.
    pub fn new() -> (r: ResetLedger)
        ensures
            r.errors@.len() == 0,
            r.cleared_items@.len() == 0,
    {
        ResetLedger { errors: Vec::new(), cleared_items: Vec::new() }
    }

    /// Records a cleared item.
    pub fn cleared(&mut self, item: &str)
        ensures
            final(self).cleared_items@.len() == old(self).cleared_items@.len() + 1,
            final(self).cleared_items@.drop_last() == old(self).cleared_items@,
            final(self).cleared_items@.last()@ == item@,
            final(self).errors@ == old(self).errors@,
    {
        self.cleared_items.push(item.to_owned());
    }

    /// Records a failure as `<what>: <error>`.
    pub fn failed(&mut self, what: &str, error: &str)
        ensures
            final(self).errors@.len() == old(self).errors@.len() + 1,
            final(self).errors@.drop_last() == old(self).errors@,
            final(self).errors@.last()@ == what@ + ": "@ + error@,
            final(self).cleared_items@ == old(self).cleared_items@,
    {
        let mut m = what.to_owned();
        push_str(&mut m, ": ");
        push_str(&mut m, error);
        self.errors.push(m);
    }

    /// Records the outcome of one step: the item when it succeeded, else the
    /// failure.
    pub fn record(&mut self, outcome: Result<(), String>, item: &str, failure: &str)
        ensures
            match outcome {
                Ok(()) => final(self).cleared_items@.len() == old(self).cleared_items@.len() + 1
                    && final(self).cleared_items@.drop_last() == old(self).cleared_items@
                    && final(self).cleared_items@.last()@ == item@ && final(self).errors@ == old(self).errors@,
                Err(e) => final(self).errors@.len() == old(self).errors@.len() + 1
                    && final(self).errors@.drop_last() == old(self).errors@
                    && final(self).errors@.last()@ == failure@ + ": "@ + e@
                    && final(self).cleared_items@ == old(self).cleared_items@,
            },
    {
        match outcome {
            Ok(()) => self.cleared(item),
            Err(e) => self.failed(failure, e.as_str()),
        }
    }

    /// Records the removal of the license: a missing secure store is no
    /// failure.
    pub fn record_license(&mut self, outcome: Result<(), String>)
        ensures
            match outcome {
                Ok(()) => final(self).cleared_items@.len() == old(self).cleared_items@.len() + 1
                    && final(self).cleared_items@.last()@ == "License data"@ && final(self).errors@ == old(self).errors@,
                Err(e) => if contains(e@, MISSING_STORE_TEXT@) {
                    *final(self) == *old(self)
                } else {
                    final(self).errors@.len() == old(self).errors@.len() + 1
                        && final(self).errors@.last()@ == "Failed to clear license: "@ + e@
                        && final(self).cleared_items@ == old(self).cleared_items@
                },
            },
    {
        match outcome {
            Ok(()) => self.cleared("License data"),
            Err(e) => {
                if !str_contains(e.as_str(), MISSING_STORE_TEXT) {
                    self.failed("Failed to clear license", e.as_str());
                    proof {
                        reveal_strlit("Failed to clear license");
                        reveal_strlit(": ");
                        reveal_strlit("Failed to clear license: ");
                    }
                }
            },
        }
    }

    /// The result: successful exactly when nothing failed.
    pub fn finish(self) -> (r: ResetResult)
        ensures
            r.success == (self.errors@.len() == 0),
            r.errors == self.errors,
            r.cleared_items == self.cleared_items,
    {
        let success = self.errors.len() == 0;
        ResetResult { success, errors: self.errors, cleared_items: self.cleared_items }
    }
}

/// The script that resets the app's privacy permissions on macOS.
pub fn permission_reset_script(app_identifier: &str) -> (r: String)
    ensures
        r@ == "do shell script \"tccutil reset All "@ + app_identifier@
            + "\" with administrator privileges"@,
{
    let mut r = "do shell script \"tccutil reset All ".to_owned();
    push_str(&mut r, app_identifier);
    push_str(&mut r, "\" with administrator privileges");
    r
}

/// The registry key of the app's settings on Windows.
pub fn registry_settings_key(app_identifier: &str) -> (r: String)
    ensures
        r@ == "HKCU\\\\Software\\\\"@ + app_identifier@,
{
    let mut r = "HKCU\\\\Software\\\\".to_owned();
    push_str(&mut r, app_identifier);
    r
}

} // verus!
