//! Factory reset: confirmation and the summary of its twelve best-effort
//! steps.
//!
//! Factory reset stops all apps, deletes app data, the app registry, AI
//! history, AI permission grants and audit rows, settings, session state,
//! metrics history and crash logs, rebuilds the default directories and
//! restarts the system. Each step is best-effort: a failure in one step
//! does not prevent the following steps from running.

use vstd::prelude::*;
use crate::text::equals;

pub use crate::admin::constants::FACTORY_RESET_CONFIRMATION_TEXT;

verus! {

/// The number of factory reset steps.
pub const FACTORY_RESET_STEP_COUNT: usize = 12;

/// The name of step `i` (counting from zero).
pub open spec fn step_name_text(i: int) -> Seq<char> {
    if i == 0 {
        "Stop all running apps"@
    } else if i == 1 {
        "Delete app data directories"@
    } else if i == 2 {
        "Delete installed app registry"@
    } else if i == 3 {
        "Delete AI conversation history"@
    } else if i == 4 {
        "Delete AI permission grants"@
    } else if i == 5 {
        "Delete AI audit rows"@
    } else if i == 6 {
        "Reset all settings"@
    } else if i == 7 {
        "Delete session state"@
    } else if i == 8 {
        "Delete metrics history"@
    } else if i == 9 {
        "Delete crash logs"@
    } else if i == 10 {
        "Rebuild default directories"@
    } else {
        "Restart system"@
    }
}

/// How many of the outcomes succeeded.
pub open spec fn count_ok(outcomes: Seq<Result<(), String>>) -> nat
    decreases outcomes.len(),
{
    if outcomes.len() == 0 {
        0
    } else {
        count_ok(outcomes.drop_last()) + if outcomes.last() is Ok { 1nat } else { 0nat }
    }
}

proof fn lemma_count_ok_bounded(outcomes: Seq<Result<(), String>>)
    ensures
        count_ok(outcomes) <= outcomes.len(),
    decreases outcomes.len(),
{
    if outcomes.len() > 0 {
        lemma_count_ok_bounded(outcomes.drop_last());
    }
}

/// The result of a single factory reset step.
#[derive(Debug, Clone)]
pub struct FactoryResetStep {
    /// Step number (1-12).
    pub step: u32,
    /// Human-readable step name.
    pub name: String,
    /// Whether the step succeeded.
    pub success: bool,
    /// The error message if the step failed.
    pub error: Option<String>,
}

/// The result of a complete factory reset.
#[derive(Debug, Clone)]
pub struct FactoryResetResult {
    /// Individual step results, in order.
    pub steps: Vec<FactoryResetStep>,
    /// Whether all steps succeeded.
    pub all_succeeded: bool,
    /// Number of successful steps.
    pub succeeded_count: u32,
    /// Number of failed steps.
    pub failed_count: u32,
}

/// Factory reset confirmation and summary.
pub struct FactoryReset;

impl FactoryReset {
    /// Whether the user typed the confirmation text exactly (`RESET`).
    pub fn validate_confirmation(confirmation: &str) -> (r: bool)
        ensures
            r == (confirmation@ == FACTORY_RESET_CONFIRMATION_TEXT@),
    {
        equals(confirmation, FACTORY_RESET_CONFIRMATION_TEXT)
    }

    /// The name of step `i` (counting from zero), in execution order.
    pub fn step_name(i: usize) -> (r: &'static str)
        requires
            i < FACTORY_RESET_STEP_COUNT,
        ensures
            r@ == step_name_text(i as int),
    {
        if i == 0 {
            "Stop all running apps"
        } else if i == 1 {
            "Delete app data directories"
        } else if i == 2 {
            "Delete installed app registry"
        } else if i == 3 {
            "Delete AI conversation history"
        } else if i == 4 {
            "Delete AI permission grants"
        } else if i == 5 {
            "Delete AI audit rows"
        } else if i == 6 {
            "Reset all settings"
        } else if i == 7 {
            "Delete session state"
        } else if i == 8 {
            "Delete metrics history"
        } else if i == 9 {
            "Delete crash logs"
        } else if i == 10 {
            "Rebuild default directories"
        } else {
            "Restart system"
        }
    }

    /// The result of a factory reset whose steps, run in order, had the
    /// given outcomes: one entry per step, numbered from 1, with its name,
    /// whether it succeeded and its error; and the counts.
    pub fn summarize(outcomes: &Vec<Result<(), String>>) -> (r: FactoryResetResult)
        requires
            outcomes@.len() == FACTORY_RESET_STEP_COUNT,
        ensures
            r.steps@.len() == FACTORY_RESET_STEP_COUNT,
            forall|i: int|
                0 <= i < r.steps@.len() ==> {
                    &&& (#[trigger] r.steps@[i]).step == i + 1
                    &&& r.steps@[i].name@ == step_name_text(i)
                    &&& r.steps@[i].success == outcomes@[i] is Ok
                    &&& r.steps@[i].error == match outcomes@[i] {
                        Ok(_) => None,
                        Err(e) => Some(e),
                    }
                },
            r.succeeded_count == count_ok(outcomes@),
            r.failed_count == FACTORY_RESET_STEP_COUNT - count_ok(outcomes@),
            r.succeeded_count + r.failed_count == FACTORY_RESET_STEP_COUNT,
            r.all_succeeded == (r.failed_count == 0),
    {
        let mut steps: Vec<FactoryResetStep> = Vec::new();
        let mut succeeded: u32 = 0;
        let mut i: usize = 0;
        while i < FACTORY_RESET_STEP_COUNT
            invariant
                outcomes@.len() == FACTORY_RESET_STEP_COUNT,
                i <= FACTORY_RESET_STEP_COUNT,
                steps@.len() == i,
                succeeded == count_ok(outcomes@.take(i as int)),
                forall|j: int|
                    0 <= j < i ==> {
                        &&& (#[trigger] steps@[j]).step == j + 1
                        &&& steps@[j].name@ == step_name_text(j)
                        &&& steps@[j].success == outcomes@[j] is Ok
                        &&& steps@[j].error == match outcomes@[j] {
                            Ok(_) => None,
                            Err(e) => Some(e),
                        }
                    },
            decreases FACTORY_RESET_STEP_COUNT - i,
        {
            proof {
                assert(outcomes@.take(i + 1).drop_last() =~= outcomes@.take(i as int));
                lemma_count_ok_bounded(outcomes@.take(i as int));
            }
            let name = String::from_str(Self::step_name(i));
            let step = FactoryResetStep {
                step: (i + 1) as u32,
                name,
                success: outcomes[i].is_ok(),
                error: match &outcomes[i] {
                    Ok(_) => None,
                    Err(e) => Some(e.clone()),
                },
            };
            if outcomes[i].is_ok() {
                succeeded = succeeded + 1;
            }
            steps.push(step);
            i = i + 1;
        }
        proof {
            assert(outcomes@.take(FACTORY_RESET_STEP_COUNT as int) =~= outcomes@);
            lemma_count_ok_bounded(outcomes@);
        }
        let failed: u32 = 12 - succeeded;
        FactoryResetResult {
            steps,
            all_succeeded: failed == 0,
            succeeded_count: succeeded,
            failed_count: failed,
        }
    }
}

} // verus!
