//! Turns the report records into the text the tool prints. Each
//! section renderer's contract pins the output character for
//! character.

use vstd::prelude::*;
use crate::numfmt::dec_seq;
use crate::numfmt::u64_to_string;
use crate::project::DependencyInfo;
use crate::project::ProjectInfo;
use crate::system::CpuModel;
use crate::system::SystemInfo;
use crate::system::SystemSnapshot;
use crate::tokens::spec_trim;
use crate::tokens::trim_str;
use crate::toolchain::spec_channel_str;
use crate::toolchain::channel_str;
use crate::toolchain::CompilerInfo;
use crate::toolchain::ToolInfo;

verus! {

/// A decorative separator: a dash repeated `n` times.
pub open spec fn dashes(n: nat) -> Seq<char> {
    Seq::new(n, |i: int| '-')
}

fn dash_line(n: usize) -> (s: String)
    ensures
        s@ == dashes(n as nat),
{
    let mut s = String::new();
    let mut i: usize = 0;
    proof {
        assert(s@ =~= dashes(0));
    }
    while i < n
        invariant
            i <= n,
            s@ == dashes(i as nat),
        decreases n - i,
    {
        s.append("-");
        proof {
            reveal_strlit("-");
            assert(s@ =~= dashes((i + 1) as nat));
        }
        i = i + 1;
    }
    s
}

/// The system section's text: a header and the five fixed fields.
pub open spec fn spec_render_system(i: SystemInfo) -> Seq<char> {
    "System Information\n==================\n  OS: "@ + i.os@ + "\n  CPU: "@ + i.cpu@
        + "\n  CPU Cores: "@ + dec_seq(i.cpu_cores as int) + "\n  Memory: "@ + i.memory@
        + "\n  Shell: "@ + i.shell@ + "\n"@
}

/// Renders the system section.
pub fn render_system(info: &SystemInfo) -> (s: String)
    ensures
        s@ == spec_render_system(*info),
{
    let mut s = String::from_str("System Information\n==================\n  OS: ");
    s.append(info.os.as_str());
    s.append("\n  CPU: ");
    s.append(info.cpu.as_str());
    s.append("\n  CPU Cores: ");
    let cores = u64_to_string(info.cpu_cores as u64);
    s.append(cores.as_str());
    s.append("\n  Memory: ");
    s.append(info.memory.as_str());
    s.append("\n  Shell: ");
    s.append(info.shell.as_str());
    s.append("\n");
    proof {
        assert(s@ =~= spec_render_system(*info));
    }
    s
}

/// The line an optional string field contributes to the snapshot
/// text: nothing at all where the field was not collected.
pub open spec fn opt_line(label: Seq<char>, o: Option<String>) -> Seq<char> {
    match o {
        Some(v) => label + v@ + "\n"@,
        None => Seq::<char>::empty(),
    }
}

/// The line an optional byte figure contributes, in decimal.
pub open spec fn opt_u64_line(label: Seq<char>, o: Option<u64>) -> Seq<char> {
    match o {
        Some(v) => label + dec_seq(v as int) + "\n"@,
        None => Seq::<char>::empty(),
    }
}

fn push_opt_line(out: &mut String, label: &str, o: &Option<String>)
    ensures
        final(out)@ == old(out)@ + opt_line(label@, *o),
{
    match o {
        Some(v) => {
            out.append(label);
            out.append(v.as_str());
            out.append("\n");
            proof {
                assert(out@ =~= old(out)@ + opt_line(label@, *o));
            }
        },
        None => {
            proof {
                assert(out@ =~= old(out)@ + opt_line(label@, *o));
            }
        },
    }
}

fn push_opt_u64_line(out: &mut String, label: &str, o: &Option<u64>)
    ensures
        final(out)@ == old(out)@ + opt_u64_line(label@, *o),
{
    match o {
        Some(v) => {
            out.append(label);
            let figure = u64_to_string(*v);
            out.append(figure.as_str());
            out.append("\n");
            proof {
                assert(out@ =~= old(out)@ + opt_u64_line(label@, *o));
            }
        },
        None => {
            proof {
                assert(out@ =~= old(out)@ + opt_u64_line(label@, *o));
            }
        },
    }
}

/// One CPU's line in the snapshot text; the model is trimmed at this
/// boundary.
pub open spec fn cpu_line(c: CpuModel) -> Seq<char> {
    "    - "@ + c.name@ + " ("@ + spec_trim(c.model@) + ", "@ + c.vendor_id@ + ")\n"@
}

/// The CPU lines in order.
pub open spec fn cpu_lines(cs: Seq<CpuModel>) -> Seq<char>
    decreases cs.len(),
{
    if cs.len() == 0 {
        Seq::<char>::empty()
    } else {
        cpu_lines(cs.drop_last()) + cpu_line(cs.last())
    }
}

/// The block the optional CPU list contributes to the snapshot text.
pub open spec fn cpus_block(o: Option<Vec<CpuModel>>) -> Seq<char> {
    match o {
        Some(v) => "  CPUs:\n"@ + cpu_lines(v@),
        None => Seq::<char>::empty(),
    }
}

fn push_cpu_line(out: &mut String, c: &CpuModel)
    ensures
        final(out)@ == old(out)@ + cpu_line(*c),
{
    out.append("    - ");
    out.append(c.name.as_str());
    out.append(" (");
    let trimmed = trim_str(c.model.as_str());
    out.append(trimmed.as_str());
    out.append(", ");
    out.append(c.vendor_id.as_str());
    out.append(")\n");
    proof {
        assert(out@ =~= old(out)@ + cpu_line(*c));
    }
}

fn push_cpus_block(out: &mut String, o: &Option<Vec<CpuModel>>)
    ensures
        final(out)@ == old(out)@ + cpus_block(*o),
{
    match o {
        Some(v) => {
            out.append("  CPUs:\n");
            let n = v.len();
            let mut i: usize = 0;
            proof {
                assert(v@.take(0) =~= Seq::<CpuModel>::empty());
                assert(out@ =~= old(out)@ + "  CPUs:\n"@ + cpu_lines(v@.take(0)));
            }
            while i < n
                invariant
                    i <= n,
                    n == v@.len(),
                    out@ == old(out)@ + "  CPUs:\n"@ + cpu_lines(v@.take(i as int)),
                decreases n - i,
            {
                proof {
                    assert(v@.take(i as int + 1).drop_last() =~= v@.take(i as int));
                    assert(v@.take(i as int + 1).last() == v@[i as int]);
                }
                push_cpu_line(out, &v[i]);
                i = i + 1;
            }
            proof {
                assert(v@.take(n as int) =~= v@);
                assert(out@ =~= old(out)@ + cpus_block(*o));
            }
        },
        None => {
            proof {
                assert(out@ =~= old(out)@ + cpus_block(*o));
            }
        },
    }
}

/// The snapshot's text: a header, then one line per collected field,
/// absent fields leaving no trace.
pub open spec fn spec_render_snapshot(s: SystemSnapshot) -> Seq<char> {
    "System Snapshot\n===============\n"@ + opt_line("  OS Name: "@, s.os_name) + opt_line(
        "  OS Version: "@,
        s.os_version,
    ) + opt_line("  Kernel Version: "@, s.os_kernel_version) + opt_line(
        "  Distribution: "@,
        s.os_distribution_id,
    ) + opt_u64_line("  Memory Total (bytes): "@, s.mem_total_bytes) + opt_u64_line(
        "  Memory Used (bytes): "@,
        s.mem_used_bytes,
    ) + opt_u64_line("  Swap Total (bytes): "@, s.mem_swap_total_bytes) + opt_u64_line(
        "  Swap Used (bytes): "@,
        s.mem_swap_used_bytes,
    ) + opt_line("  CPU Arch: "@, s.cpu_arch) + cpus_block(s.cpus)
}

/// Renders the snapshot, field by collected field.
pub fn render_snapshot(snap: &SystemSnapshot) -> (s: String)
    ensures
        s@ == spec_render_snapshot(*snap),
{
    let mut s = String::from_str("System Snapshot\n===============\n");
    push_opt_line(&mut s, "  OS Name: ", &snap.os_name);
    push_opt_line(&mut s, "  OS Version: ", &snap.os_version);
    push_opt_line(&mut s, "  Kernel Version: ", &snap.os_kernel_version);
    push_opt_line(&mut s, "  Distribution: ", &snap.os_distribution_id);
    push_opt_u64_line(&mut s, "  Memory Total (bytes): ", &snap.mem_total_bytes);
    push_opt_u64_line(&mut s, "  Memory Used (bytes): ", &snap.mem_used_bytes);
    push_opt_u64_line(&mut s, "  Swap Total (bytes): ", &snap.mem_swap_total_bytes);
    push_opt_u64_line(&mut s, "  Swap Used (bytes): ", &snap.mem_swap_used_bytes);
    push_opt_line(&mut s, "  CPU Arch: ", &snap.cpu_arch);
    push_cpus_block(&mut s, &snap.cpus);
    proof {
        assert(s@ =~= spec_render_snapshot(*snap));
    }
    s
}

/// One auxiliary tool's block: its name, a separator as wide as the
/// name, and its version line.
pub open spec fn tool_block(t: ToolInfo) -> Seq<char> {
    "  "@ + t.name@ + "\n  "@ + dashes(t.name@.len()) + "\n    Version: "@ + t.version@ + "\n"@
}

/// The tool blocks in order.
pub open spec fn tool_blocks(ts: Seq<ToolInfo>) -> Seq<char>
    decreases ts.len(),
{
    if ts.len() == 0 {
        Seq::<char>::empty()
    } else {
        tool_blocks(ts.drop_last()) + tool_block(ts.last())
    }
}

fn push_tool_block(out: &mut String, t: &ToolInfo)
    ensures
        final(out)@ == old(out)@ + tool_block(*t),
{
    out.append("  ");
    out.append(t.name.as_str());
    out.append("\n  ");
    let sep = dash_line(t.name.as_str().unicode_len());
    out.append(sep.as_str());
    out.append("\n    Version: ");
    out.append(t.version.as_str());
    out.append("\n");
    proof {
        assert(out@ =~= old(out)@ + tool_block(*t));
    }
}

/// The toolchain section's text: a header, the compiler's block, and
/// one block per auxiliary tool.
pub open spec fn spec_render_toolchain(c: CompilerInfo, ts: Seq<ToolInfo>) -> Seq<char> {
    "Toolchain Information\n=====================\n  Rust Compiler\n  -------------\n    Version: "@
        + c.version@ + "\n    Host: "@ + c.host@ + "\n    Release: "@ + c.release@
        + "\n    Commit Hash: "@ + c.commit_hash@ + "\n    Commit Date: "@ + c.commit_date@
        + "\n    Channel: "@ + spec_channel_str(c.channel) + "\n"@ + tool_blocks(ts)
}

/// Renders the toolchain section.
pub fn render_toolchain(c: &CompilerInfo, tools: &Vec<ToolInfo>) -> (s: String)
    ensures
        s@ == spec_render_toolchain(*c, tools@),
{
    let mut s = String::from_str(
        "Toolchain Information\n=====================\n  Rust Compiler\n  -------------\n    Version: ",
    );
    s.append(c.version.as_str());
    s.append("\n    Host: ");
    s.append(c.host.as_str());
    s.append("\n    Release: ");
    s.append(c.release.as_str());
    s.append("\n    Commit Hash: ");
    s.append(c.commit_hash.as_str());
    s.append("\n    Commit Date: ");
    s.append(c.commit_date.as_str());
    s.append("\n    Channel: ");
    s.append(channel_str(c.channel));
    s.append("\n");
    let ghost head = s@;
    let n = tools.len();
    let mut i: usize = 0;
    proof {
        assert(tools@.take(0) =~= Seq::<ToolInfo>::empty());
    }
    while i < n
        invariant
            i <= n,
            n == tools@.len(),
            s@ == head + tool_blocks(tools@.take(i as int)),
        decreases n - i,
    {
        proof {
            assert(tools@.take(i as int + 1).drop_last() =~= tools@.take(i as int));
            assert(tools@.take(i as int + 1).last() == tools@[i as int]);
        }
        push_tool_block(&mut s, &tools[i]);
        i = i + 1;
    }
    proof {
        assert(tools@.take(n as int) =~= tools@);
        assert(s@ =~= spec_render_toolchain(*c, tools@));
    }
    s
}

/// One dependency's row: name, declared constraint, and the resolved
/// version in parentheses.
pub open spec fn dep_line(d: DependencyInfo) -> Seq<char> {
    "    - "@ + d.name@ + " "@ + d.specified_version@ + " ("@ + d.resolved_version@ + ")\n"@
}

/// The dependency rows in declaration order.
pub open spec fn dep_lines(ds: Seq<DependencyInfo>) -> Seq<char>
    decreases ds.len(),
{
    if ds.len() == 0 {
        Seq::<char>::empty()
    } else {
        dep_lines(ds.drop_last()) + dep_line(ds.last())
    }
}

/// The project section's text: a header, the package's name and
/// version, then either "Dependencies: None" or the dependency rows.
pub open spec fn spec_render_project(p: ProjectInfo) -> Seq<char> {
    "Project Information\n===================\n  Name: "@ + p.name@ + "\n  Version: "@ + p.version@
        + "\n"@ + (if p.dependencies@.len() == 0 {
        "  Dependencies: None\n"@
    } else {
        "  Dependencies:\n"@ + dep_lines(p.dependencies@)
    })
}

fn push_dep_line(out: &mut String, d: &DependencyInfo)
    ensures
        final(out)@ == old(out)@ + dep_line(*d),
{
    out.append("    - ");
    out.append(d.name.as_str());
    out.append(" ");
    out.append(d.specified_version.as_str());
    out.append(" (");
    out.append(d.resolved_version.as_str());
    out.append(")\n");
    proof {
        assert(out@ =~= old(out)@ + dep_line(*d));
    }
}

/// Renders the project section.
pub fn render_project(p: &ProjectInfo) -> (s: String)
    ensures
        s@ == spec_render_project(*p),
{
    let mut s = String::from_str("Project Information\n===================\n  Name: ");
    s.append(p.name.as_str());
    s.append("\n  Version: ");
    s.append(p.version.as_str());
    s.append("\n");
    if p.dependencies.len() == 0 {
        s.append("  Dependencies: None\n");
        proof {
            assert(s@ =~= spec_render_project(*p));
        }
        s
    } else {
        s.append("  Dependencies:\n");
        let ghost head = s@;
        let n = p.dependencies.len();
        let mut i: usize = 0;
        proof {
            assert(p.dependencies@.take(0) =~= Seq::<DependencyInfo>::empty());
        }
        while i < n
            invariant
                i <= n,
                n == p.dependencies@.len(),
                s@ == head + dep_lines(p.dependencies@.take(i as int)),
            decreases n - i,
        {
            proof {
                assert(p.dependencies@.take(i as int + 1).drop_last() =~= p.dependencies@.take(
                    i as int,
                ));
                assert(p.dependencies@.take(i as int + 1).last() == p.dependencies@[i as int]);
            }
            push_dep_line(&mut s, &p.dependencies[i]);
            i = i + 1;
        }
        proof {
            assert(p.dependencies@.take(n as int) =~= p.dependencies@);
            assert(s@ =~= spec_render_project(*p));
        }
        s
    }
}

} // verus!
