//! A minimal analytic query harness: it binds a versioned tabular dataset to a
//! logical table name inside a SQL execution context, runs a fixed sequence of
//! analytic SQL statements against it, and reports a formatted tabular result
//! plus wall-clock timing for each.
//!
//! The SQL planner and executor and the versioned-table storage reader are
//! external collaborators; this crate owns the harness logic around them:
//! the catalog of table-name bindings, the fixed query list, the fail-fast
//! run driver, the result formatter and the timing arithmetic.

mod context;
mod driver;
mod format;
mod queries;
mod timer;

pub use context::check_plain_name;
pub use context::is_plain_name;
pub use context::lemma_registration_uniqueness;
pub use context::register_outcome;
pub use context::registered_of;
pub use context::QueryContext;
pub use context::RegisterError;
pub use format::cells_view;
pub use format::flat_view;
pub use format::format_table;
pub use format::lemma_empty_table_is_header_line;
pub use format::row_line;
pub use format::spec_format_table;
pub use format::FormatError;
pub use format::RowBatch;
pub use driver::lemma_aborted_persists;
pub use driver::lemma_fatal_halt;
pub use driver::lemma_load_failure_halts;
pub use driver::lemma_replay_app;
pub use driver::lemma_replay_snoc;
pub use driver::replay;
pub use driver::spec_advance;
pub use driver::standard_run;
pub use driver::RunAction;
pub use driver::RunDriver;
pub use driver::RunState;
pub use queries::dataset_location;
pub use queries::dataset_version;
pub use queries::fixed_queries;
pub use queries::spec_queries;
pub use queries::table_name;
pub use queries::QuerySpec;
pub use timer::duration_between;
pub use timer::lemma_run_duration_covers_queries;
pub use timer::monotone;
pub use timer::pair_durations_sum;
pub use timer::spec_duration_between;
