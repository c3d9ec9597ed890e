//! Blocks until the host's one-minute load average crosses a configured
//! threshold. The heart of the crate is the continuation predicate of the
//! polling loop, together with the bounded schedule around it; load values
//! are carried as fixed-point thousandths so the comparison logic is exact.

use vstd::prelude::*;

mod config;
mod controller;
mod load;
mod parse;

pub use config::WaitConfig;
pub use config::default_threshold;
pub use config::default_threshold_milli;
pub use config::threshold_for_cpus;
pub use controller::SampleEvent;
pub use controller::ScriptReport;
pub use controller::WaitAction;
pub use controller::WaitEvent;
pub use controller::WaitState;
pub use controller::absorb_sample_failure;
pub use controller::accepts;
pub use controller::event_continues;
pub use controller::run_script;
pub use controller::wait_step;
pub use controller::lemma_budget_exhausted;
pub use controller::lemma_equal_sample_stops;
pub use controller::lemma_must_wait_forward;
pub use controller::lemma_must_wait_reverse;
pub use controller::must_wait;
pub use controller::must_wait_spec;
pub use load::LoadAvg;
pub use parse::all_digits;
pub use parse::digit_val;
pub use parse::digits_value;
pub use parse::is_digit;
pub use parse::is_valid_u64_numeral;
pub use parse::numeral_body;
pub use parse::parse_u64;

verus! {

} // verus!
