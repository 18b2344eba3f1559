//! A crash-reporting facility: builds a structured report of a fault, encodes
//! it as a TOML document, names it with a time-ordered unique id, and decides
//! what is written where and what the operator is told.
pub mod handler;
pub mod ident;
pub mod metadata;
pub mod report;
pub mod text;

pub use handler::{
    failure_notice, join, outcome_text, output_dir, prepare_report, report_path, should_register,
    success_notice, PrepareError, ReportPlan,
};
pub use ident::{accept_id, id_text_of, IdGenerator};
pub use metadata::Metadata;
pub use report::{location_text, panic_message, Fault, HostFacts, Location, Payload, Report, Timestamp};
pub use text::decimal_text;
