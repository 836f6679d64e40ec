//! Decides which report sections to produce and how the final report is
//! assembled from the rendered sections.

use vstd::prelude::*;

verus! {

/// The boolean flags accepted on the command line, one per report
/// section plus a flag that asks for everything at once.
#[derive(Clone, Copy, PartialEq, Eq, Structural, Debug)]
pub struct SectionFlags {
    pub system: bool,
    pub rust: bool,
    pub project: bool,
    pub all: bool,
}

/// The sections that will actually be printed.
#[derive(Clone, Copy, PartialEq, Eq, Structural, Debug)]
pub struct Selection {
    pub system: bool,
    pub rust: bool,
    pub project: bool,
}

/// Resolution rule: `all`, or no section flag at all, selects every
/// section; otherwise exactly the flags given are selected.
pub open spec fn spec_resolve(f: SectionFlags) -> Selection {
    if f.all || (!f.system && !f.rust && !f.project) {
        Selection { system: true, rust: true, project: true }
    } else {
        Selection { system: f.system, rust: f.rust, project: f.project }
    }
}

pub fn resolve_sections(f: SectionFlags) -> (r: Selection)
    ensures
        r == spec_resolve(f),
{
    if f.all || (!f.system && !f.rust && !f.project) {
        Selection { system: true, rust: true, project: true }
    } else {
        Selection { system: f.system, rust: f.rust, project: f.project }
    }
}

/// The full report: each selected section's text, each followed by one
/// blank line; unselected sections leave no trace.
pub open spec fn spec_compose(
    sel: Selection,
    system_text: Seq<char>,
    rust_text: Seq<char>,
    project_text: Seq<char>,
) -> Seq<char> {
    (if sel.system {
        system_text + "\n"@
    } else {
        Seq::<char>::empty()
    }) + (if sel.rust {
        rust_text + "\n"@
    } else {
        Seq::<char>::empty()
    }) + (if sel.project {
        project_text + "\n"@
    } else {
        Seq::<char>::empty()
    })
}

/// Assembles the final report from the rendered sections, in the fixed
/// order system, toolchain, project.
pub fn compose_report(
    sel: Selection,
    system_text: &str,
    rust_text: &str,
    project_text: &str,
) -> (r: String)
    ensures
        r@ == spec_compose(sel, system_text@, rust_text@, project_text@),
{
    let mut out = String::new();
    if sel.system {
        out.append(system_text);
        out.append("\n");
    }
    if sel.rust {
        out.append(rust_text);
        out.append("\n");
    }
    if sel.project {
        out.append(project_text);
        out.append("\n");
    }
    proof {
        assert(out@ =~= spec_compose(sel, system_text@, rust_text@, project_text@));
    }
    out
}

/// The defaulting law: an invocation with no section flag set produces
/// the same selection, and therefore the same report text, as one that
/// names all three sections explicitly.
pub proof fn lemma_all_defaulting(
    none_set: SectionFlags,
    all_set: SectionFlags,
    system_text: Seq<char>,
    rust_text: Seq<char>,
    project_text: Seq<char>,
)
    requires
        !none_set.system && !none_set.rust && !none_set.project && !none_set.all,
        all_set.system && all_set.rust && all_set.project,
    ensures
        spec_resolve(none_set) == spec_resolve(all_set),
        spec_compose(spec_resolve(none_set), system_text, rust_text, project_text)
            == spec_compose(spec_resolve(all_set), system_text, rust_text, project_text),
{
}

} // verus!
