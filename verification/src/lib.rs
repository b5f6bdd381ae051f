//! Administrative access to the illumos Fault Management Daemon.
//!
//! This crate holds what the administrative interface computes: it turns the
//! records and return codes that `libfmd_adm` hands back into owned values,
//! decodes flag words and statistic values, prepares the C string arguments of
//! each command, and renders values as text. The calls into the daemon itself
//! are made by the code around it.

pub mod error;
pub mod ids;
pub mod records;
pub mod replies;
pub mod requests;
pub mod stats;
pub mod text;

pub use error::{Error, NulByte};
pub use ids::Uuid;
pub use records::{
    CaseInfo, InvisibleResources, ModuleInfo, RawCaseInfo, RawModuleInfo, RawResourceInfo,
    RawSerdInfo, ResourceInfo, SerdInfo, TransportId,
};
pub use replies::{
    finish_cases, finish_command, finish_modules, finish_resource_count, finish_resources,
    finish_serd_engines, finish_stats, finish_transports,
};
pub use requests::{resource_acquit_arguments, uuid_c_string};
pub use stats::{RawStat, RawStatValue, Stat, StatValue};
pub use text::{c_string, optional_c_string};
pub mod laws;
