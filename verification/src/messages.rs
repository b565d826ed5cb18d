//! The texts that an orchestration hands to the host: directive lines,
//! diagnostic lines and failure reasons.
use vstd::prelude::*;
use vstd::string::*;
use crate::model::{BuildOutcome, FailureCategory, OutcomeView};
use crate::style::{banner_text, error_banner};

verus! {

/// The line that makes the host build system show `text` as a warning.
pub open spec fn warning_line(text: Seq<char>) -> Seq<char> {
    "cargo::warning="@ + text
}

/// The line that makes the host build system watch `path` for changes.
pub open spec fn watch_line(path: Seq<char>) -> Seq<char> {
    "cargo::rerun-if-changed="@ + path
}

/// The diagnostic lines for `texts`: none when diagnostics are suppressed,
/// else one warning line for each text, in order.
pub open spec fn warnings(silent: bool, texts: Seq<Seq<char>>) -> Seq<Seq<char>> {
    if silent {
        Seq::empty()
    } else {
        Seq::new(texts.len(), |i: int| warning_line(texts[i]))
    }
}

/// Builds the line that makes the host build system watch `path`.
pub fn watch_directive(path: &str) -> (line: String)
    ensures
        line@ == watch_line(path@),
{
    let mut line = String::from_str("cargo::rerun-if-changed=");
    line.append(path);
    line
}

/// Adds the warning line for `text` to `lines`, unless diagnostics are
/// suppressed.
pub fn push_warning(lines: &mut Vec<String>, text: &str, silent: bool)
    ensures
        final(lines).deep_view() == if silent {
            old(lines).deep_view()
        } else {
            old(lines).deep_view().push(warning_line(text@))
        },
{
    if !silent {
        let mut line = String::from_str("cargo::warning=");
        line.append(text);
        lines.push(line);
        assert(lines.deep_view() =~= old(lines).deep_view().push(warning_line(text@)));
    }
}

/// The reason given for a failure of `category`. `detail` is the rejected
/// subdirectory, the underlying error's text, or the build command's
/// captured output; the other categories' reasons do not depend on it.
pub open spec fn reason_text(category: FailureCategory, detail: Seq<char>) -> Seq<char> {
    match category {
        FailureCategory::PathInvalid => banner_text() + " Invalid separator provided, '"@ + detail
            + "'"@,
        FailureCategory::FilesystemError => detail,
        FailureCategory::ToolNotFound => banner_text()
            + " Node Package Manager not found! Ensure the system is configured with npm."@,
        FailureCategory::ToolUnreachable => banner_text() + " NPM unavailable"@,
        FailureCategory::ToolError => banner_text()
            + " Node Package Manager error! Check system logs."@,
        FailureCategory::InstallFailed => banner_text() + " NPM unavailable"@,
        FailureCategory::BuildFailed => banner_text() + " NPM build failed: "@ + detail,
    }
}

/// Builds the failure of `category` with its reason.
pub fn failure(category: FailureCategory, detail: &str) -> (outcome: BuildOutcome)
    ensures
        outcome@ == (OutcomeView::Failure { category, reason: reason_text(category, detail@) }),
{
    let reason = match category {
        FailureCategory::PathInvalid => {
            let mut reason = error_banner();
            reason.append(" Invalid separator provided, '");
            reason.append(detail);
            reason.append("'");
            reason
        },
        FailureCategory::FilesystemError => String::from_str(detail),
        FailureCategory::ToolNotFound => {
            let mut reason = error_banner();
            reason.append(
                " Node Package Manager not found! Ensure the system is configured with npm.",
            );
            reason
        },
        FailureCategory::ToolUnreachable => {
            let mut reason = error_banner();
            reason.append(" NPM unavailable");
            reason
        },
        FailureCategory::ToolError => {
            let mut reason = error_banner();
            reason.append(" Node Package Manager error! Check system logs.");
            reason
        },
        FailureCategory::InstallFailed => {
            let mut reason = error_banner();
            reason.append(" NPM unavailable");
            reason
        },
        FailureCategory::BuildFailed => {
            let mut reason = error_banner();
            reason.append(" NPM build failed: ");
            reason.append(detail);
            reason
        },
    };
    BuildOutcome::Failure { category, reason }
}

} // verus!
