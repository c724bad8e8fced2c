//! Executable-side runtime for Cloud Native Buildpacks: phase dispatch,
//! context assembly, outcome translation and archive transfer helpers.
pub mod context;
pub mod document;
pub mod files;
pub mod mode;
pub mod outcome;
pub mod phase;
pub mod transfer;

pub use context::{
    assemble_build, assemble_detect, assemble_publish, assemble_test, start, BuildContext,
    BuildpackDescriptor, ContextSources, DetectContext, PublishContext, RuntimeError,
    TestContext,
};
pub use files::{annotation_pattern, has_annotation, join};
pub use mode::LifecycleMode;
pub use outcome::{
    after_persist, conclude_detect, conclude_plain, conclude_test, Conclusion, DetectOutcome,
    TestOutcome, TestResult, TestResults, TestStatus,
};
pub use phase::{decide_startup, parse_phase_args, phase_from_name, ApiVersion, Phase, PhaseArgs, PhaseSet, Startup};
pub use transfer::{compress_tar, entry_target, prepare_archive, sha256, EntryTarget, FetchedArchive, TransferError};
