//! Output targets and the fixed file layout inside a directory target.

use vstd::prelude::*;
use vstd::string::StringExecFns;

verus! {

/// Targets of the logs.
pub enum LogTarget {
    /// Log to console (standard output).
    Console,
    /// Log to the fixed file names inside the given directory.
    Dir(String),
}

/// The mathematical content of a `LogTarget`: the console, or the
/// directory path as a sequence of characters.
pub enum TargetView {
    Console,
    Dir(Seq<char>),
}

impl View for LogTarget {
    type V = TargetView;

    open spec fn view(&self) -> TargetView {
        match self {
            LogTarget::Console => TargetView::Console,
            LogTarget::Dir(p) => TargetView::Dir(p@),
        }
    }
}

/// The path of the active log file inside a directory target.
pub open spec fn log_path_spec(dir: Seq<char>) -> Seq<char> {
    dir + "/app.log"@
}

/// The path of the single rotated backup inside a directory target.
pub open spec fn old_log_path_spec(dir: Seq<char>) -> Seq<char> {
    dir + "/app.log.old"@
}

/// The active log file always lives at `<dir>/app.log`.
pub fn get_log_path(dir: &str) -> (r: String)
    ensures
        r@ == log_path_spec(dir@),
{
    let mut s = String::from_str(dir);
    s.append("/app.log");
    s
}

/// The backup always lives at `<dir>/app.log.old`; rotation overwrites it.
pub fn get_old_log_path(dir: &str) -> (r: String)
    ensures
        r@ == old_log_path_spec(dir@),
{
    let mut s = String::from_str(dir);
    s.append("/app.log.old");
    s
}

} // verus!
