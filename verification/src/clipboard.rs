//! Clipboard copy strategy: the synchronous `execCommand("copy")` path first (it keeps
//! the user-gesture context), the asynchronous clipboard API as fallback. The result is
//! true only when one of the two paths has put the text on the clipboard.

use vstd::prelude::*;

verus! {

/// Next step of a copy attempt.
#[derive(Clone, Copy, PartialEq, Eq, Debug)]
pub enum CopyAction {
    /// Stop and report this result.
    Report(bool),
    /// Try the `execCommand("copy")` path.
    ExecCommand,
    /// Write through the navigator clipboard (once) and wait for its outcome.
    Navigator,
}

/// The copy result after both paths: true exactly when the text is not empty and one
/// of the paths that was tried wrote it.
pub open spec fn copy_succeeded(
    text_empty: bool,
    exec_command_copied: Option<bool>,
    navigator_copied: Option<bool>,
) -> bool {
    !text_empty && (exec_command_copied == Some(true) || (exec_command_copied == Some(false)
        && navigator_copied == Some(true)))
}

/// Decides the next step of copying `text`, given the outcome of the `execCommand`
/// attempt and of the navigator write once they have been made. Empty text is never
/// copied; the navigator is asked only after `execCommand` failed, and the reported
/// result is true only on success.
pub fn copy_text(text: &str, exec_command_copied: Option<bool>, navigator_copied: Option<bool>) -> (a:
    CopyAction)
    ensures
        text@.len() == 0 ==> a == CopyAction::Report(false),
        text@.len() > 0 ==> a == match exec_command_copied {
            None => CopyAction::ExecCommand,
            Some(true) => CopyAction::Report(true),
            Some(false) => match navigator_copied {
                None => CopyAction::Navigator,
                Some(ok) => CopyAction::Report(ok),
            },
        },
        a matches CopyAction::Report(ok) ==> ok == copy_succeeded(
            text@.len() == 0,
            exec_command_copied,
            navigator_copied,
        ),
        a == CopyAction::Navigator ==> exec_command_copied == Some(false) && navigator_copied is None,
{
    if text.is_empty() {
        return CopyAction::Report(false);
    }
    match exec_command_copied {
        None => CopyAction::ExecCommand,
        Some(true) => CopyAction::Report(true),
        Some(false) => match navigator_copied {
            None => CopyAction::Navigator,
            Some(ok) => CopyAction::Report(ok),
        },
    }
}

} // verus!
