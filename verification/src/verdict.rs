//! The three ways a run can end, the banner that announces each, and the
//! status the process leaves with.

use vstd::prelude::*;

verus! {

/// How a run ended.
#[derive(Clone, Copy, Debug, PartialEq, Eq, Structural)]
pub enum Verdict {
    /// A blocking check reported errors, or the run could not get that far.
    Invalid,
    /// No errors, but at least one warning.
    ValidWithWarnings,
    /// Neither errors nor warnings.
    Valid,
}

/// The status every run leaves with. It is the same for the three verdicts:
/// a caller tells them apart by the banner, not by the status.
pub open spec fn exit_status() -> int {
    1
}

/// The sentence that tells the verdict in the banner.
pub open spec fn headline_text(verdict: Verdict) -> Seq<char> {
    match verdict {
        Verdict::Invalid => "❌ File is invalid"@,
        Verdict::ValidWithWarnings => "⚠️  File is valid but has warnings"@,
        Verdict::Valid => "✅ File is valid"@,
    }
}

/// The banner that closes a run, line by line. The first line holds a line
/// break of its own, which leaves two blank lines above the frame.
pub open spec fn banner_text(verdict: Verdict) -> Seq<Seq<char>> {
    seq![
        "\n"@,
        "============ SUMMARY ============"@,
        headline_text(verdict),
        "================================="@,
    ]
}

impl Verdict {
    /// The status to exit with.
    pub fn exit_code(self) -> (code: i32)
        ensures
            code == exit_status(),
    {
        1
    }

    /// The sentence that tells this verdict.
    pub fn headline(self) -> (line: &'static str)
        ensures
            line@ == headline_text(self),
    {
        match self {
            Verdict::Invalid => "❌ File is invalid",
            Verdict::ValidWithWarnings => "⚠️  File is valid but has warnings",
            Verdict::Valid => "✅ File is valid",
        }
    }

    /// The banner that closes a run, one entry for each line to print.
    pub fn banner(self) -> (lines: Vec<String>)
        ensures
            lines.deep_view() == banner_text(self),
    {
        let mut lines: Vec<String> = Vec::new();
        lines.push("\n".to_owned());
        lines.push("============ SUMMARY ============".to_owned());
        lines.push(self.headline().to_owned());
        lines.push("=================================".to_owned());
        assert(lines.deep_view() =~= banner_text(self));
        lines
    }
}

} // verus!
