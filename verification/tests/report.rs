use sysreport::numfmt::{format_memory, u64_to_string};
use sysreport::project::{
    DepConstraint, LockPackage, Manifest, ManifestDep, ProjectInfo, TableEntry,
    resolve_dependencies, resolved_version, specified_version,
};
use sysreport::render::{render_project, render_snapshot, render_system, render_toolchain};
use sysreport::selector::{SectionFlags, Selection, compose_report, resolve_sections};
use sysreport::system::{
    CpuModel, CpuRecord, SystemArgs, SystemInfo, SystemSnapshot, cpu_list,
};
use sysreport::tokens::{extract_version_number, str_eq, trim_str};
use sysreport::toolchain::{
    Channel, CompilerInfo, ToolInfo, ToolProbe, channel_of_release, channel_str, contains_str,
    strip_prefix_str,
};

fn flags(system: bool, rust: bool, project: bool, all: bool) -> SectionFlags {
    SectionFlags { system, rust, project, all }
}

#[test]
fn no_flags_selects_everything() {
    let sel = resolve_sections(flags(false, false, false, false));
    assert_eq!(sel, Selection { system: true, rust: true, project: true });
}

#[test]
fn zero_flags_same_output_as_all_three_explicit() {
    let none = resolve_sections(flags(false, false, false, false));
    let explicit = resolve_sections(flags(true, true, true, false));
    let via_all = resolve_sections(flags(false, false, false, true));
    assert_eq!(none, explicit);
    assert_eq!(none, via_all);
    let a = compose_report(none, "sys", "rust", "proj");
    let b = compose_report(explicit, "sys", "rust", "proj");
    let c = compose_report(via_all, "sys", "rust", "proj");
    assert_eq!(a, b);
    assert_eq!(a, c);
    assert_eq!(a, "sys\nrust\nproj\n");
}

#[test]
fn single_flag_selects_one_section() {
    let sel = resolve_sections(flags(false, true, false, false));
    assert_eq!(sel, Selection { system: false, rust: true, project: false });
    let out = compose_report(sel, "sys", "rust", "proj");
    assert_eq!(out, "rust\n");
}

#[test]
fn all_flag_overrides_explicit_subset() {
    let sel = resolve_sections(flags(true, false, false, true));
    assert_eq!(sel, Selection { system: true, rust: true, project: true });
}

#[test]
fn memory_formatting_realistic_scale() {
    let s = format_memory(1073741824, 2147483648);
    assert_eq!(s, "1.00 GB / 2.00 GB");
}

#[test]
fn memory_formatting_zero() {
    assert_eq!(format_memory(0, 0), "0.00 GB / 0.00 GB");
}

#[test]
fn memory_formatting_truncates_to_two_places() {
    // 1.5 GiB used of 7.75 GiB; both figures are exact hundredths.
    let used = 1073741824 + 536870912;
    let total = 7 * 1073741824 + 3 * 268435456;
    assert_eq!(format_memory(used, total), "1.50 GB / 7.75 GB");
    // 1 byte under 0.01 GiB truncates down to 0.00.
    assert_eq!(format_memory(10737418 - 1, 1073741824), "0.00 GB / 1.00 GB");
}

#[test]
fn decimal_rendering() {
    assert_eq!(u64_to_string(0), "0");
    assert_eq!(u64_to_string(7), "7");
    assert_eq!(u64_to_string(1234567890), "1234567890");
    assert_eq!(u64_to_string(u64::MAX), "18446744073709551615");
}

#[test]
fn tool_not_found_yields_sentinel() {
    let info = ToolInfo::collect("qvzk-unregistered-tool", &ToolProbe::NotFound);
    assert_eq!(info.name, "qvzk-unregistered-tool");
    assert_eq!(info.version, "qvzk-unregistered-tool not found.");
}

#[test]
fn tool_run_failure_yields_sentinel() {
    let info = ToolInfo::collect("Cargo", &ToolProbe::RunFailed);
    assert_eq!(info.version, "Failed to get Cargo version.");
}

#[test]
fn tool_output_yields_second_token() {
    let probe = ToolProbe::Output(String::from("cargo 1.75.0 (1d8b05cdd 2023-11-20)"));
    let info = ToolInfo::collect("Cargo", &probe);
    assert_eq!(info.version, "1.75.0");
}

#[test]
fn version_extraction_second_token() {
    assert_eq!(
        extract_version_number("cargo 1.75.0 (hash 2023-12-01)"),
        "1.75.0"
    );
}

#[test]
fn version_extraction_single_word_is_unknown() {
    assert_eq!(extract_version_number("singleword"), "Unknown");
}

#[test]
fn version_extraction_edges() {
    assert_eq!(extract_version_number(""), "Unknown");
    assert_eq!(extract_version_number("   "), "Unknown");
    assert_eq!(extract_version_number("  rustup   1.26.0  "), "1.26.0");
    assert_eq!(extract_version_number("a b c"), "b");
    assert_eq!(extract_version_number("tool\t2.4.1\nrest"), "2.4.1");
}

#[test]
fn project_round_trip_declared_and_resolved() {
    let manifest = Manifest {
        package_name: Some(String::from("demo")),
        package_version: Some(String::from("0.1.0")),
        dependencies: vec![ManifestDep {
            name: String::from("foo"),
            constraint: DepConstraint::Plain(String::from("1.0")),
        }],
    };
    let lock = vec![LockPackage {
        name: String::from("foo"),
        version: String::from("1.0.3"),
    }];
    let info = ProjectInfo::from_parts(&Some(manifest), &Some(lock));
    assert_eq!(info.name, "demo");
    assert_eq!(info.version, "0.1.0");
    assert_eq!(info.dependencies.len(), 1);
    assert_eq!(info.dependencies[0].name, "foo");
    assert_eq!(info.dependencies[0].specified_version, "1.0");
    assert_eq!(info.dependencies[0].resolved_version, "1.0.3");
}

#[test]
fn absent_manifest_yields_sentinel_report() {
    let info = ProjectInfo::from_parts(&None, &None);
    assert_eq!(info.name, "Unknown");
    assert_eq!(info.version, "Unknown");
    assert!(info.dependencies.is_empty());
    let text = render_project(&info);
    assert_eq!(
        text,
        "Project Information\n===================\n  Name: Unknown\n  Version: Unknown\n  Dependencies: None\n"
    );
}

#[test]
fn table_dependency_extracts_version_key() {
    let constraint = DepConstraint::Table(vec![
        TableEntry { key: String::from("features"), value: None },
        TableEntry { key: String::from("version"), value: Some(String::from("2.0")) },
        TableEntry { key: String::from("default-features"), value: None },
    ]);
    assert_eq!(specified_version(&constraint), "2.0");
}

#[test]
fn table_dependency_without_version_key_is_unknown() {
    let constraint = DepConstraint::Table(vec![TableEntry {
        key: String::from("features"),
        value: None,
    }]);
    assert_eq!(specified_version(&constraint), "Unknown");
    let empty = DepConstraint::Table(Vec::new());
    assert_eq!(specified_version(&empty), "Unknown");
}

#[test]
fn lockfile_lookup_last_record_wins() {
    let lock = vec![
        LockPackage { name: String::from("foo"), version: String::from("1.0.0") },
        LockPackage { name: String::from("bar"), version: String::from("2.0.0") },
        LockPackage { name: String::from("foo"), version: String::from("1.9.9") },
    ];
    assert_eq!(resolved_version(&lock, "foo"), "1.9.9");
    assert_eq!(resolved_version(&lock, "bar"), "2.0.0");
    assert_eq!(resolved_version(&lock, "baz"), "Unknown");
}

#[test]
fn dependencies_keep_declaration_order() {
    let deps = vec![
        ManifestDep {
            name: String::from("zebra"),
            constraint: DepConstraint::Plain(String::from("3")),
        },
        ManifestDep {
            name: String::from("alpha"),
            constraint: DepConstraint::Plain(String::from("1")),
        },
    ];
    let lock = Vec::new();
    let rows = resolve_dependencies(&deps, &lock);
    assert_eq!(rows.len(), 2);
    assert_eq!(rows[0].name, "zebra");
    assert_eq!(rows[0].resolved_version, "Unknown");
    assert_eq!(rows[1].name, "alpha");
}

#[test]
fn compiler_report_empty_lines_means_not_found() {
    let info = CompilerInfo::from_report_lines(&Vec::new());
    assert_eq!(info.version, "rustc not found.");
    assert_eq!(info.host, "Unknown");
    assert_eq!(info.release, "Unknown");
    assert_eq!(info.commit_hash, "Unknown");
    assert_eq!(info.commit_date, "Unknown");
    assert_eq!(info.channel, Channel::Unknown);
}

#[test]
fn compiler_report_reads_metadata_lines() {
    let lines = vec![
        String::from("rustc 1.75.0 (82e1608df 2023-12-21)"),
        String::from("binary: rustc"),
        String::from("commit-hash: 82e1608dfa6e0b5569232559e3d385fea5a93112"),
        String::from("commit-date: 2023-12-21"),
        String::from("host: x86_64-unknown-linux-gnu"),
        String::from("release: 1.75.0"),
        String::from("LLVM version: 17.0.6"),
    ];
    let info = CompilerInfo::from_report_lines(&lines);
    assert_eq!(info.version, "rustc 1.75.0 (82e1608df 2023-12-21)");
    assert_eq!(info.host, "x86_64-unknown-linux-gnu");
    assert_eq!(info.release, "1.75.0");
    assert_eq!(info.commit_hash, "82e1608dfa6e0b5569232559e3d385fea5a93112");
    assert_eq!(info.commit_date, "2023-12-21");
    assert_eq!(info.channel, Channel::Stable);
}

#[test]
fn compiler_report_missing_lines_degrade() {
    let lines = vec![String::from("rustc 1.80.0-nightly (abc 2024-05-01)")];
    let info = CompilerInfo::from_report_lines(&lines);
    assert_eq!(info.version, "rustc 1.80.0-nightly (abc 2024-05-01)");
    assert_eq!(info.host, "Unknown");
    assert_eq!(info.release, "Unknown");
    assert_eq!(info.channel, Channel::Unknown);
}

#[test]
fn channel_from_release_string() {
    assert_eq!(channel_of_release("1.80.0-nightly"), Channel::Nightly);
    assert_eq!(channel_of_release("1.79.0-beta.5"), Channel::Beta);
    assert_eq!(channel_of_release("1.75.0-dev"), Channel::Dev);
    assert_eq!(channel_of_release("1.75.0"), Channel::Stable);
    assert_eq!(channel_str(Channel::Nightly), "Nightly");
    assert_eq!(channel_str(Channel::Unknown), "Unknown");
}

#[test]
fn string_helpers() {
    assert!(str_eq("abc", "abc"));
    assert!(!str_eq("abc", "abd"));
    assert!(!str_eq("abc", "ab"));
    assert!(str_eq("", ""));
    assert_eq!(trim_str("  cpu0 \t"), "cpu0");
    assert_eq!(trim_str("   "), "");
    assert_eq!(trim_str("plain"), "plain");
    assert!(contains_str("1.80.0-nightly", "-nightly"));
    assert!(!contains_str("1.80.0", "-nightly"));
    assert!(contains_str("anything", ""));
    assert_eq!(
        strip_prefix_str("host: x86_64", "host: "),
        Some(String::from("x86_64"))
    );
    assert_eq!(strip_prefix_str("release: 1.75.0", "host: "), None);
}

#[test]
fn cpu_list_empty_is_none() {
    assert!(cpu_list(Vec::new()).is_none());
}

#[test]
fn cpu_list_trims_names() {
    let records = vec![CpuRecord {
        name: String::from(" cpu0 "),
        brand: String::from("Example Brand X100"),
        vendor_id: String::from("ExampleVendor"),
    }];
    let cpus = cpu_list(records).unwrap();
    assert_eq!(cpus.len(), 1);
    assert_eq!(cpus[0].name, "cpu0");
    assert_eq!(cpus[0].model, "Example Brand X100");
    assert_eq!(cpus[0].vendor_id, "ExampleVendor");
}

fn empty_snapshot() -> SystemSnapshot {
    SystemSnapshot {
        os_name: None,
        os_version: None,
        os_kernel_version: None,
        os_distribution_id: None,
        mem_total_bytes: None,
        mem_used_bytes: None,
        mem_swap_total_bytes: None,
        mem_swap_used_bytes: None,
        cpu_arch: None,
        cpu_cores: None,
        cpus: None,
    }
}

#[test]
fn system_info_sentinels_from_empty_snapshot() {
    let info = SystemInfo::from_snapshot(&empty_snapshot(), &None);
    assert_eq!(info.os, "Unknown ");
    assert_eq!(info.cpu, "Unknown");
    assert_eq!(info.cpu_cores, 0);
    assert_eq!(info.memory, "0.00 GB / 0.00 GB");
    assert_eq!(info.shell, "Unknown");
}

#[test]
fn system_info_from_filled_snapshot() {
    let mut snap = empty_snapshot();
    snap.os_name = Some(String::from("Linux"));
    snap.os_version = Some(String::from("6.1"));
    snap.mem_used_bytes = Some(1073741824);
    snap.mem_total_bytes = Some(2147483648);
    snap.cpu_cores = Some(8);
    snap.cpus = Some(vec![CpuModel {
        name: String::from("cpu0"),
        model: String::from("Example Brand X100"),
        vendor_id: String::from("ExampleVendor"),
    }]);
    let shell = Some(String::from("/bin/bash"));
    let info = SystemInfo::from_snapshot(&snap, &shell);
    assert_eq!(info.os, "Linux 6.1");
    assert_eq!(info.cpu, "Example Brand X100");
    assert_eq!(info.cpu_cores, 8);
    assert_eq!(info.memory, "1.00 GB / 2.00 GB");
    assert_eq!(info.shell, "/bin/bash");
}

#[test]
fn snapshot_collect_skips_unselected_groups() {
    let sys = sysinfo::System::new();
    let args = SystemArgs { os: false, mem: false, cpu: false };
    let snap = SystemSnapshot::collect(args, &sys);
    assert!(snap.os_name.is_none());
    assert!(snap.os_version.is_none());
    assert!(snap.os_kernel_version.is_none());
    assert!(snap.os_distribution_id.is_none());
    assert!(snap.mem_total_bytes.is_none());
    assert!(snap.mem_used_bytes.is_none());
    assert!(snap.mem_swap_total_bytes.is_none());
    assert!(snap.mem_swap_used_bytes.is_none());
    assert!(snap.cpu_arch.is_none());
    assert!(snap.cpu_cores.is_none());
    assert!(snap.cpus.is_none());
}

#[test]
fn snapshot_collect_selected_groups_are_present() {
    let mut sys = sysinfo::System::new_all();
    sys.refresh_all();
    let args = SystemArgs { os: true, mem: true, cpu: true };
    let snap = SystemSnapshot::collect(args, &sys);
    assert!(snap.os_distribution_id.is_some());
    assert!(snap.mem_total_bytes.is_some());
    assert!(snap.mem_used_bytes.is_some());
    assert!(snap.mem_swap_total_bytes.is_some());
    assert!(snap.mem_swap_used_bytes.is_some());
    if let Some(cpus) = &snap.cpus {
        assert!(!cpus.is_empty());
    }
}

#[test]
fn render_system_exact_text() {
    let info = SystemInfo {
        os: String::from("Linux 6.1"),
        cpu: String::from("Example Brand X100"),
        cpu_cores: 8,
        memory: String::from("1.00 GB / 2.00 GB"),
        shell: String::from("/bin/bash"),
    };
    let text = render_system(&info);
    assert_eq!(
        text,
        "System Information\n==================\n  OS: Linux 6.1\n  CPU: Example Brand X100\n  CPU Cores: 8\n  Memory: 1.00 GB / 2.00 GB\n  Shell: /bin/bash\n"
    );
}

#[test]
fn render_snapshot_skips_absent_fields() {
    let mut snap = empty_snapshot();
    snap.os_name = Some(String::from("Linux"));
    snap.mem_total_bytes = Some(2048);
    let text = render_snapshot(&snap);
    assert_eq!(
        text,
        "System Snapshot\n===============\n  OS Name: Linux\n  Memory Total (bytes): 2048\n"
    );
}

#[test]
fn render_snapshot_cpu_lines_trim_model() {
    let mut snap = empty_snapshot();
    snap.cpus = Some(vec![CpuModel {
        name: String::from("cpu0"),
        model: String::from(" Example Brand X100 "),
        vendor_id: String::from("ExampleVendor"),
    }]);
    let text = render_snapshot(&snap);
    assert_eq!(
        text,
        "System Snapshot\n===============\n  CPUs:\n    - cpu0 (Example Brand X100, ExampleVendor)\n"
    );
}

#[test]
fn render_toolchain_exact_text() {
    let compiler = CompilerInfo {
        version: String::from("rustc 1.75.0 (82e1608df 2023-12-21)"),
        host: String::from("x86_64-unknown-linux-gnu"),
        release: String::from("1.75.0"),
        commit_hash: String::from("82e1608df"),
        commit_date: String::from("2023-12-21"),
        channel: Channel::Stable,
    };
    let tools = vec![
        ToolInfo { name: String::from("Cargo"), version: String::from("1.75.0") },
        ToolInfo {
            name: String::from("Rustup"),
            version: String::from("Rustup not found."),
        },
    ];
    let text = render_toolchain(&compiler, &tools);
    assert_eq!(
        text,
        "Toolchain Information\n=====================\n  Rust Compiler\n  -------------\n    Version: rustc 1.75.0 (82e1608df 2023-12-21)\n    Host: x86_64-unknown-linux-gnu\n    Release: 1.75.0\n    Commit Hash: 82e1608df\n    Commit Date: 2023-12-21\n    Channel: Stable\n  Cargo\n  -----\n    Version: 1.75.0\n  Rustup\n  ------\n    Version: Rustup not found.\n"
    );
}

#[test]
fn render_project_lists_rows_in_order() {
    let manifest = Manifest {
        package_name: Some(String::from("demo")),
        package_version: Some(String::from("0.1.0")),
        dependencies: vec![
            ManifestDep {
                name: String::from("foo"),
                constraint: DepConstraint::Plain(String::from("1.0")),
            },
            ManifestDep {
                name: String::from("bar"),
                constraint: DepConstraint::Table(vec![TableEntry {
                    key: String::from("version"),
                    value: Some(String::from("2.0")),
                }]),
            },
        ],
    };
    let lock = vec![LockPackage {
        name: String::from("foo"),
        version: String::from("1.0.3"),
    }];
    let info = ProjectInfo::from_parts(&Some(manifest), &Some(lock));
    let text = render_project(&info);
    assert_eq!(
        text,
        "Project Information\n===================\n  Name: demo\n  Version: 0.1.0\n  Dependencies:\n    - foo 1.0 (1.0.3)\n    - bar 2.0 (Unknown)\n"
    );
}
