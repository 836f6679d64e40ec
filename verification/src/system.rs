//! The system report: a snapshot of the host's OS, memory and CPU
//! figures, taken through the sysinfo crate, and the fixed-field
//! record rendered at the text boundary.
//!
//! Every host query is machine-dependent, so nothing is promised of
//! what the queries return; everything that consumes their results —
//! field gating, trimming, sentinel defaulting, formatting — is
//! verified.

use vstd::prelude::*;
use crate::numfmt::mem_seq;
use crate::numfmt::format_memory;
use crate::tokens::spec_trim;
use crate::tokens::trim_str;

verus! {

/// The sysinfo crate's host introspection handle; opaque here. The
/// caller refreshes it once and hands it in by reference.
#[verifier::external_type_specification]
#[verifier::external_body]
pub struct ExSysinfoSystem(sysinfo::System);

/// Relies on sysinfo::System::name: the host OS display name, absent
/// where the platform cannot tell. Machine-dependent, so nothing is
/// promised of the value.
pub assume_specification[ sysinfo::System::name ]() -> (r: Option<String>);

/// Relies on sysinfo::System::os_version: the host OS version string,
/// absent where the platform cannot tell.
pub assume_specification[ sysinfo::System::os_version ]() -> (r: Option<String>);

/// Relies on sysinfo::System::kernel_version: the running kernel's
/// version string, absent where the platform cannot tell.
pub assume_specification[ sysinfo::System::kernel_version ]() -> (r: Option<String>);

/// Relies on sysinfo::System::distribution_id: the distribution
/// identifier, with the crate's own fallback where unknown.
pub assume_specification[ sysinfo::System::distribution_id ]() -> (r: String);

/// Relies on sysinfo::System::cpu_arch: the CPU architecture name,
/// absent where the platform cannot tell.
pub assume_specification[ sysinfo::System::cpu_arch ]() -> (r: Option<String>);

/// Relies on sysinfo::System::total_memory: the host's RAM size in
/// bytes, as last refreshed into the handle.
pub assume_specification[ sysinfo::System::total_memory ](s: &sysinfo::System) -> (r: u64);

/// Relies on sysinfo::System::used_memory: the RAM in use, in bytes.
pub assume_specification[ sysinfo::System::used_memory ](s: &sysinfo::System) -> (r: u64);

/// Relies on sysinfo::System::total_swap: the swap size in bytes.
pub assume_specification[ sysinfo::System::total_swap ](s: &sysinfo::System) -> (r: u64);

/// Relies on sysinfo::System::used_swap: the swap in use, in bytes.
pub assume_specification[ sysinfo::System::used_swap ](s: &sysinfo::System) -> (r: u64);

/// Relies on sysinfo::System::physical_core_count: the number of
/// physical cores, absent where the platform cannot tell.
pub assume_specification[ sysinfo::System::physical_core_count ](s: &sysinfo::System) -> (r:
    Option<usize>);

/// The sysinfo crate's per-CPU record; opaque here.
#[verifier::external_type_specification]
#[verifier::external_body]
pub struct ExSysinfoCpu(sysinfo::Cpu);

/// Relies on sysinfo::System::cpus: the logical CPU records, as last
/// refreshed into the handle. Machine-dependent, so nothing is
/// promised of them.
pub assume_specification[ sysinfo::System::cpus ](s: &sysinfo::System) -> (r: &[sysinfo::Cpu]);

/// Relies on sysinfo::Cpu::name: the CPU's name.
pub assume_specification[ sysinfo::Cpu::name ](c: &sysinfo::Cpu) -> (r: &str);

/// Relies on sysinfo::Cpu::brand: the CPU's brand string.
pub assume_specification[ sysinfo::Cpu::brand ](c: &sysinfo::Cpu) -> (r: &str);

/// Relies on sysinfo::Cpu::vendor_id: the CPU's vendor identifier.
pub assume_specification[ sysinfo::Cpu::vendor_id ](c: &sysinfo::Cpu) -> (r: &str);

/// One CPU record's identifying strings, exactly as the host reports
/// them.
pub struct CpuRecord {
    pub name: String,
    pub brand: String,
    pub vendor_id: String,
}

/// Copies each host CPU record out as plain strings, one record per
/// logical CPU, in the host's order.
fn cpu_records(sys: &sysinfo::System) -> Vec<CpuRecord> {
    let cpus = sys.cpus();
    let n = cpus.len();
    let mut out: Vec<CpuRecord> = Vec::new();
    let mut i: usize = 0;
    while i < n
        invariant
            n == cpus@.len(),
            i <= n,
        decreases n - i,
    {
        let c = vstd::slice::slice_index_get(cpus, i);
        out.push(
            CpuRecord {
                name: c.name().to_owned(),
                brand: c.brand().to_owned(),
                vendor_id: c.vendor_id().to_owned(),
            },
        );
        i = i + 1;
    }
    out
}

/// One CPU as the report models it: the record's name trimmed of
/// whitespace, its brand as the model, and its vendor identifier.
pub struct CpuModel {
    pub name: String,
    pub model: String,
    pub vendor_id: String,
}

/// Builds the CPU model list: nothing where the host exposes no CPU
/// records, else one model per record, in order, with the name
/// trimmed.
pub fn cpu_list(records: Vec<CpuRecord>) -> (r: Option<Vec<CpuModel>>)
    ensures
        r is None <==> records@.len() == 0,
        r matches Some(v) ==> {
            &&& v@.len() == records@.len()
            &&& forall|i: int|
                0 <= i < records@.len() ==> {
                    &&& (#[trigger] v@[i]).name@ == spec_trim(records@[i].name@)
                    &&& v@[i].model@ == records@[i].brand@
                    &&& v@[i].vendor_id@ == records@[i].vendor_id@
                }
        },
{
    let n = records.len();
    if n == 0 {
        return None;
    }
    let mut out: Vec<CpuModel> = Vec::new();
    let mut i: usize = 0;
    while i < n
        invariant
            i <= n,
            n == records@.len(),
            out@.len() == i,
            forall|k: int|
                0 <= k < i ==> {
                    &&& (#[trigger] out@[k]).name@ == spec_trim(records@[k].name@)
                    &&& out@[k].model@ == records@[k].brand@
                    &&& out@[k].vendor_id@ == records@[k].vendor_id@
                },
        decreases n - i,
    {
        let m = CpuModel {
            name: trim_str(records[i].name.as_str()),
            model: records[i].brand.clone(),
            vendor_id: records[i].vendor_id.clone(),
        };
        out.push(m);
        i = i + 1;
    }
    Some(out)
}

/// Which of the three field groups of the system snapshot to collect.
#[derive(Clone, Copy, PartialEq, Eq, Structural, Debug)]
pub struct SystemArgs {
    pub os: bool,
    pub mem: bool,
    pub cpu: bool,
}

/// A snapshot of the host: every field is present exactly when its
/// group was asked for and the host could tell; a group that was not
/// asked for is never queried.
pub struct SystemSnapshot {
    pub os_name: Option<String>,
    pub os_version: Option<String>,
    pub os_kernel_version: Option<String>,
    pub os_distribution_id: Option<String>,
    pub mem_total_bytes: Option<u64>,
    pub mem_used_bytes: Option<u64>,
    pub mem_swap_total_bytes: Option<u64>,
    pub mem_swap_used_bytes: Option<u64>,
    pub cpu_arch: Option<String>,
    pub cpu_cores: Option<usize>,
    pub cpus: Option<Vec<CpuModel>>,
}

impl SystemSnapshot {
    /// Takes the snapshot, querying only the field groups asked for.
    /// The values themselves are whatever the host reports; what is
    /// promised is which fields are collected at all.
    pub fn collect(args: SystemArgs, sys: &sysinfo::System) -> (r: SystemSnapshot)
        ensures
            !args.os ==> r.os_name is None && r.os_version is None && r.os_kernel_version is None
                && r.os_distribution_id is None,
            args.os ==> r.os_distribution_id is Some,
            !args.mem ==> r.mem_total_bytes is None && r.mem_used_bytes is None
                && r.mem_swap_total_bytes is None && r.mem_swap_used_bytes is None,
            args.mem ==> r.mem_total_bytes is Some && r.mem_used_bytes is Some
                && r.mem_swap_total_bytes is Some && r.mem_swap_used_bytes is Some,
            !args.cpu ==> r.cpu_arch is None && r.cpu_cores is None && r.cpus is None,
            args.cpu ==> (r.cpus matches Some(v) ==> v@.len() > 0),
    {
        SystemSnapshot {
            os_name: if args.os {
                sysinfo::System::name()
            } else {
                None
            },
            os_version: if args.os {
                sysinfo::System::os_version()
            } else {
                None
            },
            os_kernel_version: if args.os {
                sysinfo::System::kernel_version()
            } else {
                None
            },
            os_distribution_id: if args.os {
                Some(sysinfo::System::distribution_id())
            } else {
                None
            },
            mem_total_bytes: if args.mem {
                Some(sys.total_memory())
            } else {
                None
            },
            mem_used_bytes: if args.mem {
                Some(sys.used_memory())
            } else {
                None
            },
            mem_swap_total_bytes: if args.mem {
                Some(sys.total_swap())
            } else {
                None
            },
            mem_swap_used_bytes: if args.mem {
                Some(sys.used_swap())
            } else {
                None
            },
            cpu_arch: if args.cpu {
                sysinfo::System::cpu_arch()
            } else {
                None
            },
            cpu_cores: if args.cpu {
                sys.physical_core_count()
            } else {
                None
            },
            cpus: if args.cpu {
                cpu_list(cpu_records(sys))
            } else {
                None
            },
        }
    }
}

/// The string a snapshot field contributes, or a default where the
/// field is absent.
pub open spec fn opt_str(o: Option<String>, d: Seq<char>) -> Seq<char> {
    match o {
        Some(v) => v@,
        None => d,
    }
}

/// The figure a snapshot field contributes, or a default where the
/// field is absent.
pub open spec fn opt_u64(o: Option<u64>, d: u64) -> u64 {
    match o {
        Some(v) => v,
        None => d,
    }
}

fn opt_string(o: &Option<String>, d: &str) -> (r: String)
    ensures
        r@ == opt_str(*o, d@),
{
    match o {
        Some(v) => v.clone(),
        None => String::from_str(d),
    }
}

/// The fixed-field record rendered for the system section: every
/// absence already replaced by its sentinel.
pub struct SystemInfo {
    pub os: String,
    pub cpu: String,
    pub cpu_cores: usize,
    pub memory: String,
    pub shell: String,
}

/// The brand of the first CPU record, or "Unknown" where none was
/// collected.
pub open spec fn first_cpu_brand(cpus: Option<Vec<CpuModel>>) -> Seq<char> {
    match cpus {
        Some(v) => if v@.len() > 0 {
            v@[0].model@
        } else {
            "Unknown"@
        },
        None => "Unknown"@,
    }
}

impl SystemInfo {
    /// Crosses the text boundary: turns a snapshot, plus the shell
    /// environment value the caller read, into the sentinel-complete
    /// record the renderer prints. The OS field concatenates the
    /// name (or "Unknown") and the version (or nothing); missing
    /// memory figures count as zero bytes; a missing core count is
    /// zero.
    pub fn from_snapshot(snap: &SystemSnapshot, shell: &Option<String>) -> (r: SystemInfo)
        ensures
            r.os@ == opt_str(snap.os_name, "Unknown"@) + " "@ + opt_str(snap.os_version, ""@),
            r.cpu@ == first_cpu_brand(snap.cpus),
            r.cpu_cores == (match snap.cpu_cores {
                Some(c) => c,
                None => 0usize,
            }),
            r.memory@ == mem_seq(opt_u64(snap.mem_used_bytes, 0), opt_u64(snap.mem_total_bytes, 0)),
            r.shell@ == opt_str(*shell, "Unknown"@),
    {
        let mut os = opt_string(&snap.os_name, "Unknown");
        os.append(" ");
        let ver = opt_string(&snap.os_version, "");
        os.append(ver.as_str());
        let cpu = match &snap.cpus {
            Some(v) => if v.len() > 0 {
                v[0].model.clone()
            } else {
                String::from_str("Unknown")
            },
            None => String::from_str("Unknown"),
        };
        let cpu_cores = match snap.cpu_cores {
            Some(c) => c,
            None => 0,
        };
        let used = match snap.mem_used_bytes {
            Some(v) => v,
            None => 0,
        };
        let total = match snap.mem_total_bytes {
            Some(v) => v,
            None => 0,
        };
        SystemInfo {
            os,
            cpu,
            cpu_cores,
            memory: format_memory(used, total),
            shell: opt_string(shell, "Unknown"),
        }
    }
}

} // verus!
