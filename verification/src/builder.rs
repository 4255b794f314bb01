//! The fluent configuration builder and the immutable `Logger` it
//! produces: a minimum severity, a rotation threshold, and an ordered list
//! of targets. The logger decides which sinks receive a record and what
//! setup each target needs; the surrounding process carries the decisions
//! out.

use vstd::prelude::*;

use crate::format::{format_record, formatted, line_or_zero, Record};
use crate::level::{passes_spec, LogLevel};
use crate::target::{
    get_log_path, get_old_log_path, log_path_spec, old_log_path_spec, LogTarget, TargetView,
};

verus! {

/// The default rotation threshold: one mebibyte.
pub const DEFAULT_MAX_FILE_SIZE: u128 = 1048576;

/// An immutable, fully resolved logging configuration: records strictly
/// below `level` are dropped, an active log file strictly larger than
/// `max_file_size` bytes rotates at setup, and every passing record goes
/// to each of `targets` in registration order.
pub struct Logger {
    pub level: LogLevel,
    pub max_file_size: u128,
    pub targets: Vec<LogTarget>,
}

/// A mutable staging value that accumulates the configuration and is
/// consumed by [`LoggerBuilder::build`].
pub struct LoggerBuilder {
    pub level: LogLevel,
    pub max_file_size: u128,
    pub targets: Vec<LogTarget>,
}

/// One step of the setup a target asks for, in registration order: attach
/// standard output, or — for a directory target — ensure the directory
/// exists, run the rotation check on `log_path` against `old_path`, and
/// open `log_path` for append.
pub enum SetupStep {
    Console,
    FileSink { dir: String, log_path: String, old_path: String },
}

/// The step planned for a target names the console exactly for the console
/// target, and for a directory target carries that directory and the two
/// fixed file paths inside it.
pub open spec fn step_for_target(step: SetupStep, target: TargetView) -> bool {
    match (step, target) {
        (SetupStep::Console, TargetView::Console) => true,
        (SetupStep::FileSink { dir, log_path, old_path }, TargetView::Dir(p)) => {
            dir@ == p && log_path@ == log_path_spec(p) && old_path@ == old_log_path_spec(p)
        },
        _ => false,
    }
}

impl LoggerBuilder {
    /// A builder with the most permissive level, the default rotation
    /// threshold, and no targets.
    pub fn new() -> (r: Self)
        ensures
            r.level == LogLevel::Trace,
            r.max_file_size == DEFAULT_MAX_FILE_SIZE,
            r.targets@ == Seq::<LogTarget>::empty(),
    {
        let r = Self { level: LogLevel::Trace, max_file_size: DEFAULT_MAX_FILE_SIZE, targets: Vec::new() };
        proof {
            assert(r.targets@ =~= Seq::<LogTarget>::empty());
        }
        r
    }

    /// Set the minimum severity: records strictly below it are dropped.
    pub fn level(self, level: LogLevel) -> (r: Self)
        ensures
            r.level == level,
            r.max_file_size == self.max_file_size,
            r.targets == self.targets,
    {
        Self { level, ..self }
    }

    /// Set the rotation threshold in bytes. A threshold of 0 is valid but
    /// aggressive: any non-empty active file rotates at the next setup.
    pub fn max_file_size(self, max_file_size: u128) -> (r: Self)
        ensures
            r.level == self.level,
            r.max_file_size == max_file_size,
            r.targets == self.targets,
    {
        Self { max_file_size, ..self }
    }

    /// Append the given targets, preserving their order after the ones
    /// already registered.
    pub fn targets(self, targets: Vec<LogTarget>) -> (r: Self)
        ensures
            r.level == self.level,
            r.max_file_size == self.max_file_size,
            r.targets@ == self.targets@ + targets@,
    {
        let mut s = self;
        let mut ts = targets;
        s.targets.append(&mut ts);
        s
    }

    /// Consume the builder and produce the resolved `Logger` value.
    pub fn build(self) -> (r: Logger)
        ensures
            r.level == self.level,
            r.max_file_size == self.max_file_size,
            r.targets == self.targets,
    {
        Logger { level: self.level, max_file_size: self.max_file_size, targets: self.targets }
    }
}

impl Logger {
    /// The sinks a record at `record_level` is delivered to: every
    /// configured target exactly once, in registration order, when the
    /// severity is at or above the minimum level; no sink at all when it
    /// is below.
    pub fn sinks_for(&self, record_level: LogLevel) -> (r: Vec<LogTarget>)
        ensures
            passes_spec(record_level, self.level) ==> r@.len() == self.targets@.len() && (forall|
                i: int,
            |
                0 <= i < r@.len() ==> r@[i]@ == self.targets@[i]@),
            !passes_spec(record_level, self.level) ==> r@.len() == 0,
    {
        let mut out: Vec<LogTarget> = Vec::new();
        if !record_level.passes(self.level) {
            return out;
        }
        let mut i: usize = 0;
        while i < self.targets.len()
            invariant
                0 <= i <= self.targets@.len(),
                out@.len() == i,
                forall|j: int| 0 <= j < i ==> out@[j]@ == self.targets@[j]@,
            decreases self.targets@.len() - i,
        {
            let copied: LogTarget = match &self.targets[i] {
                LogTarget::Console => LogTarget::Console,
                LogTarget::Dir(p) => LogTarget::Dir(p.clone()),
            };
            out.push(copied);
            i = i + 1;
        }
        out
    }

    /// The setup steps for this configuration, one per target, in
    /// registration order.
    pub fn setup_plan(&self) -> (r: Vec<SetupStep>)
        ensures
            r@.len() == self.targets@.len(),
            forall|i: int| 0 <= i < r@.len() ==> step_for_target(r@[i], self.targets@[i]@),
    {
        let mut out: Vec<SetupStep> = Vec::new();
        let mut i: usize = 0;
        while i < self.targets.len()
            invariant
                0 <= i <= self.targets@.len(),
                out@.len() == i,
                forall|j: int| 0 <= j < i ==> step_for_target(out@[j], self.targets@[j]@),
            decreases self.targets@.len() - i,
        {
            let step: SetupStep = match &self.targets[i] {
                LogTarget::Console => SetupStep::Console,
                LogTarget::Dir(p) => SetupStep::FileSink {
                    dir: p.clone(),
                    log_path: get_log_path(p.as_str()),
                    old_path: get_old_log_path(p.as_str()),
                },
            };
            out.push(step);
            i = i + 1;
        }
        out
    }

    /// Render one record against the given timestamp text: the formatted
    /// line exactly when the record's severity passes the minimum level,
    /// nothing otherwise.
    pub fn render(&self, timestamp: &str, record: &Record) -> (r: Option<String>)
        ensures
            (r is Some) == passes_spec(record.level, self.level),
            r is Some ==> r->0@ == formatted(
                timestamp@,
                record.level,
                record.target@,
                line_or_zero(record.line),
                record.message@,
            ),
    {
        if record.level.passes(self.level) {
            Some(format_record(timestamp, record))
        } else {
            None
        }
    }
}

} // verus!
