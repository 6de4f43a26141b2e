//! An accumulating alternative to `Result`: a `Trisult` carries a value together with the
//! warnings met on the way, or all the errors and warnings that made it fail.
use vstd::prelude::*;

mod acc;
mod context;
mod contextual;
mod diagnosis;
mod iter;
mod laws;
mod session;
mod text;
mod traits;
mod trisult;

pub use crate::acc::{
    Acc, AccState, AccumulatorKind, AccumulatorState, All, AllState, DefaultAcc, Most, MostAcc,
    appended, appended_naive, dropped, most_fold, most_passed_over, most_step, passed_over, pushed,
    pushed_naive, stores, takes,
};
pub use crate::context::{CapturedContext, ContextStack, ContextStackMut, NoLoc};
pub use crate::contextual::{
    Accumulated, Contextual, Contextuals, capped_add, extended, ignored_note, rendered_line,
    rendered_lines,
};
pub use crate::diagnosis::{
    ContextualDiagnosis, Diagnosed, Diagnoses, Diagnosis, Severity, all_warnings, as_diagnoses,
    mapped_by, unwrapped_warnings, warning_diagnoses,
};
pub use crate::iter::{ContextualIter, MapIter};
pub use crate::laws::{
    law_all_keeps_everything, law_append_accounts_for_all, law_append_is_successive_pushes,
    law_chain_keeps_earlier_warnings, law_chain_under_most_keeps_an_error,
    law_chain_under_most_keeps_first_warning, law_error_outranks_warning, law_extend_is_append,
    law_levels_follow_order, law_most_keeps_an_error, law_most_keeps_first_highest,
    law_naive_keeps_what_is_held, law_push_accounts_for_one, law_push_reports_storage,
    law_unwrap_undoes_wrap, law_wrapping_keeps_counts, well_formed,
};
pub use crate::traits::{MapDiagnosis, Prioritized, PriorityLevel, rank};
pub use crate::session::{
    Session, SessionStep, after_step, after_steps, emitted, fails, law_session_all_collects_everything,
    law_session_fails_iff_error, law_session_keeps_warnings_until_failure, unpacked,
};
pub use crate::text::{decimal, decimal_text, digit_char, joined_lines};
pub use crate::trisult::{Trisult, chained, error_mapped, warning_mapped};

verus! {

} // verus!
