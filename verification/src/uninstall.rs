//! The uninstall helper's report: a checklist of manual cleanup steps. It
//! makes no network calls and changes no files.

use vstd::prelude::*;
use vstd::string::StringExecFns;

verus! {

/// The report's title and rule.
pub const UNINSTALL_HEADER: &'static str =
    "MOSS Uninstall Helper for moss-rust\n----------------------------------------\n";

/// The line that marks a dry run.
pub const DRY_RUN_LINE: &'static str = "[DRY-RUN MODE]\n";

/// The manual cleanup checklist.
pub const UNINSTALL_CHECKLIST: &'static str = r#"
MANUAL CLEANUP CHECKLIST

[ ] Revoke/rotate MOSS credentials in the MOSS console (API keys / agent capability tokens)
[ ] Remove the moss-sdk dependency:
      cargo remove moss-sdk
[ ] Remove `use moss_sdk::...;` imports from your .rs files
[ ] Remove config files: rm -f .moss.yml moss_config.json moss.config.js
[ ] Unset MOSS_* environment variables
[ ] CI/CD: remove MOSS_* secrets and setup steps from GitHub Actions / CI
[ ] Docker: remove MOSS_* ENV lines and the MOSS dependency from Dockerfiles
[ ] Docs: update README / setup guides that reference MOSS
"#;

/// The closing line of the report.
pub const UNINSTALL_FOOTER: &'static str =
    "\nChecklist printed. Complete the steps above manually.\n";

/// The command-line flag that asks for a dry run.
pub const DRY_RUN_FLAG: &'static str = "--dry-run";

/// Whether some argument after the program name is the dry-run flag.
pub open spec fn asks_dry_run(args: Seq<Seq<char>>) -> bool {
    exists|i: int| 1 <= i < args.len() && args[i] == DRY_RUN_FLAG@
}

/// The report: title, the dry-run line where asked, the checklist and the
/// closing line.
pub open spec fn uninstall_text(dry_run: bool) -> Seq<char> {
    UNINSTALL_HEADER@ + (if dry_run {
        DRY_RUN_LINE@
    } else {
        Seq::empty()
    }) + UNINSTALL_CHECKLIST@ + UNINSTALL_FOOTER@
}

/// Reads the command line (program name first) for the dry-run flag.
pub fn dry_run_requested(args: &Vec<String>) -> (r: bool)
    ensures
        r == asks_dry_run(args@.map_values(|a: String| a@)),
{
    let ghost views = args@.map_values(|a: String| a@);
    let flag = DRY_RUN_FLAG.to_string();
    let n = args.len();
    let mut i: usize = 1;
    while i < n
        invariant
            n == args@.len(),
            views == args@.map_values(|a: String| a@),
            flag@ == DRY_RUN_FLAG@,
            1 <= i,
            forall|j: int| 1 <= j < i && j < n ==> views[j] != DRY_RUN_FLAG@,
        decreases n - i,
    {
        if args[i] == flag {
            assert(views[i as int] == DRY_RUN_FLAG@);
            return true;
        }
        i = i + 1;
    }
    false
}

/// Writes the report.
pub fn uninstall_report(dry_run: bool) -> (r: String)
    ensures
        r@ == uninstall_text(dry_run),
{
    let mut out = UNINSTALL_HEADER.to_string();
    if dry_run {
        out.append(DRY_RUN_LINE);
    } else {
        assert(out@ =~= UNINSTALL_HEADER@ + Seq::<char>::empty());
    }
    out.append(UNINSTALL_CHECKLIST);
    out.append(UNINSTALL_FOOTER);
    out
}

} // verus!
