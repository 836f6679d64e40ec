//! The toolchain report: the installed compiler's version and
//! metadata, and the presence and version of auxiliary command-line
//! tools. All queries are injected as plain values, so every rule in
//! here is total and verified; absence degrades to sentinel strings.

use vstd::prelude::*;
use crate::tokens::{spec_version_token, extract_version_number};

verus! {

/// The stability tier of the compiler toolchain.
#[derive(Clone, Copy, PartialEq, Eq, Structural, Debug)]
pub enum Channel {
    Dev,
    Nightly,
    Beta,
    Stable,
    Unknown,
}

/// The display string of each channel.
pub open spec fn spec_channel_str(c: Channel) -> Seq<char> {
    match c {
        Channel::Dev => "Dev"@,
        Channel::Nightly => "Nightly"@,
        Channel::Beta => "Beta"@,
        Channel::Stable => "Stable"@,
        Channel::Unknown => "Unknown"@,
    }
}

pub fn channel_str(c: Channel) -> (r: &'static str)
    ensures
        r@ == spec_channel_str(c),
{
    match c {
        Channel::Dev => "Dev",
        Channel::Nightly => "Nightly",
        Channel::Beta => "Beta",
        Channel::Stable => "Stable",
        Channel::Unknown => "Unknown",
    }
}

/// Whether `p` stands at the head of `s`.
pub open spec fn has_prefix(s: Seq<char>, p: Seq<char>) -> bool {
    p.len() <= s.len() && s.subrange(0, p.len() as int) == p
}

/// Whether `p` occurs anywhere inside `s`.
pub open spec fn spec_contains(s: Seq<char>, p: Seq<char>) -> bool {
    exists|i: int|
        0 <= i && i + p.len() <= s.len() && #[trigger] s.subrange(i, i + p.len() as int) == p
}

fn match_at(s: &str, slen: usize, i: usize, p: &str, plen: usize) -> (r: bool)
    requires
        slen == s@.len(),
        plen == p@.len(),
        i + plen <= slen,
    ensures
        r == (s@.subrange(i as int, i + p@.len()) == p@),
{
    let mut j: usize = 0;
    while j < plen
        invariant
            j <= plen,
            slen == s@.len(),
            plen == p@.len(),
            i + plen <= slen,
            forall|k: int| 0 <= k < j ==> s@[i + k] == p@[k],
        decreases plen - j,
    {
        if s.get_char(i + j) != p.get_char(j) {
            proof {
                assert(s@.subrange(i as int, i + p@.len())[j as int] != p@[j as int]);
            }
            return false;
        }
        j = j + 1;
    }
    proof {
        assert(s@.subrange(i as int, i + p@.len()) =~= p@);
    }
    true
}

/// Whether `p` occurs anywhere inside `s`.
pub fn contains_str(s: &str, p: &str) -> (r: bool)
    ensures
        r == spec_contains(s@, p@),
{
    let slen = s.unicode_len();
    let plen = p.unicode_len();
    if plen > slen {
        return false;
    }
    if plen == 0 {
        proof {
            assert(s@.subrange(0, 0 + p@.len() as int) =~= p@);
        }
        return true;
    }
    let limit = slen - plen;
    let mut i: usize = 0;
    while i <= limit
        invariant
            slen == s@.len(),
            plen == p@.len(),
            0 < plen <= slen,
            limit == slen - plen,
            i <= limit + 1,
            forall|k: int|
                0 <= k < i ==> #[trigger] s@.subrange(k, k + p@.len()) != p@,
        decreases limit + 1 - i,
    {
        if match_at(s, slen, i, p, plen) {
            return true;
        }
        i = i + 1;
    }
    false
}

/// The text after `p` where `p` stands at the head of `s`.
pub open spec fn spec_strip_prefix(s: Seq<char>, p: Seq<char>) -> Option<Seq<char>> {
    if has_prefix(s, p) {
        Some(s.subrange(p.len() as int, s.len() as int))
    } else {
        None
    }
}

/// Removes `p` from the head of `s`, where it stands there.
pub fn strip_prefix_str(s: &str, p: &str) -> (r: Option<String>)
    ensures
        r is Some <==> has_prefix(s@, p@),
        r matches Some(v) ==> Some(v@) == spec_strip_prefix(s@, p@),
{
    let slen = s.unicode_len();
    let plen = p.unicode_len();
    if plen > slen {
        return None;
    }
    if match_at(s, slen, 0, p, plen) {
        Some(s.substring_char(plen, slen).to_owned())
    } else {
        None
    }
}

/// The remainder of the first line that opens with the given prefix.
pub open spec fn spec_field(lines: Seq<String>, p: Seq<char>) -> Option<Seq<char>>
    decreases lines.len(),
{
    if lines.len() == 0 {
        None
    } else if has_prefix(lines[0]@, p) {
        Some(lines[0]@.subrange(p.len() as int, lines[0]@.len() as int))
    } else {
        spec_field(lines.drop_first(), p)
    }
}

/// Finds the first line opening with the given prefix and returns the
/// rest of that line.
pub fn find_field(lines: &Vec<String>, p: &str) -> (r: Option<String>)
    ensures
        r is Some <==> spec_field(lines@, p@) is Some,
        r matches Some(v) ==> Some(v@) == spec_field(lines@, p@),
{
    let n = lines.len();
    let mut i: usize = 0;
    proof {
        assert(lines@.skip(0) =~= lines@);
    }
    while i < n
        invariant
            i <= n,
            n == lines@.len(),
            spec_field(lines@, p@) == spec_field(lines@.skip(i as int), p@),
        decreases n - i,
    {
        proof {
            assert(lines@.skip(i as int).len() > 0);
            assert(lines@.skip(i as int)[0] == lines@[i as int]);
            assert(lines@.skip(i as int).drop_first() =~= lines@.skip(i as int + 1));
        }
        let stripped = strip_prefix_str(lines[i].as_str(), p);
        if stripped.is_some() {
            return stripped;
        }
        i = i + 1;
    }
    proof {
        assert(lines@.skip(n as int) =~= Seq::<String>::empty());
    }
    None
}

/// The channel read off a release string: a "-nightly", "-beta" or
/// "-dev" marker anywhere in it decides; otherwise the release is
/// stable.
pub open spec fn spec_channel_of(release: Seq<char>) -> Channel {
    if spec_contains(release, "-nightly"@) {
        Channel::Nightly
    } else if spec_contains(release, "-beta"@) {
        Channel::Beta
    } else if spec_contains(release, "-dev"@) {
        Channel::Dev
    } else {
        Channel::Stable
    }
}

pub fn channel_of_release(release: &str) -> (r: Channel)
    ensures
        r == spec_channel_of(release@),
{
    if contains_str(release, "-nightly") {
        Channel::Nightly
    } else if contains_str(release, "-beta") {
        Channel::Beta
    } else if contains_str(release, "-dev") {
        Channel::Dev
    } else {
        Channel::Stable
    }
}

/// A metadata field of the compiler's verbose self-report, or the
/// "Unknown" sentinel where the report lacks the line.
pub open spec fn field_or_unknown(lines: Seq<String>, p: Seq<char>) -> Seq<char> {
    match spec_field(lines, p) {
        Some(v) => v,
        None => "Unknown"@,
    }
}

/// The installed compiler's version and metadata. Every field
/// degrades to a sentinel rather than an error.
pub struct CompilerInfo {
    pub version: String,
    pub host: String,
    pub release: String,
    pub commit_hash: String,
    pub commit_date: String,
    pub channel: Channel,
}

impl CompilerInfo {
    /// Builds the compiler report from the lines of the compiler's
    /// verbose version output ("rustc -vV"): the first line is the
    /// version, the "host:", "release:", "commit-hash:" and
    /// "commit-date:" lines fill the metadata, and the channel is
    /// read off the release string. An empty report means no
    /// compiler was found, and every field takes its sentinel.
    pub fn from_report_lines(lines: &Vec<String>) -> (r: CompilerInfo)
        ensures
            lines@.len() == 0 ==> {
                &&& r.version@ == "rustc not found."@
                &&& r.host@ == "Unknown"@
                &&& r.release@ == "Unknown"@
                &&& r.commit_hash@ == "Unknown"@
                &&& r.commit_date@ == "Unknown"@
                &&& r.channel == Channel::Unknown
            },
            lines@.len() > 0 ==> {
                &&& r.version@ == lines@[0]@
                &&& r.host@ == field_or_unknown(lines@, "host: "@)
                &&& r.release@ == field_or_unknown(lines@, "release: "@)
                &&& r.commit_hash@ == field_or_unknown(lines@, "commit-hash: "@)
                &&& r.commit_date@ == field_or_unknown(lines@, "commit-date: "@)
                &&& r.channel == (match spec_field(lines@, "release: "@) {
                    Some(rel) => spec_channel_of(rel),
                    None => Channel::Unknown,
                })
            },
    {
        if lines.len() == 0 {
            CompilerInfo {
                version: String::from_str("rustc not found."),
                host: String::from_str("Unknown"),
                release: String::from_str("Unknown"),
                commit_hash: String::from_str("Unknown"),
                commit_date: String::from_str("Unknown"),
                channel: Channel::Unknown,
            }
        } else {
            let release_field = find_field(lines, "release: ");
            let channel = match &release_field {
                Some(rel) => channel_of_release(rel.as_str()),
                None => Channel::Unknown,
            };
            CompilerInfo {
                version: lines[0].clone(),
                host: crate::tokens::or_unknown(find_field(lines, "host: ")),
                release: crate::tokens::or_unknown(release_field),
                commit_hash: crate::tokens::or_unknown(find_field(lines, "commit-hash: ")),
                commit_date: crate::tokens::or_unknown(find_field(lines, "commit-date: ")),
                channel,
            }
        }
    }
}

/// The outcome of probing for one auxiliary command-line tool; the
/// caller looks the executable up on the search path and, only where
/// it is present, runs it once with its version flag.
pub enum ToolProbe {
    /// The executable is not on the search path; nothing was run.
    NotFound,
    /// The executable exists but running it failed.
    RunFailed,
    /// The captured standard output of the tool's version report.
    Output(String),
}

/// Presence and self-reported version of one auxiliary tool.
pub struct ToolInfo {
    pub name: String,
    pub version: String,
}

impl ToolInfo {
    /// Builds the report record for one auxiliary tool from the
    /// probe's outcome: a missing executable and a failed run each
    /// yield their sentinel, and captured output yields its second
    /// whitespace-delimited token.
    pub fn collect(name: &str, probe: &ToolProbe) -> (r: ToolInfo)
        ensures
            r.name@ == name@,
            probe is NotFound ==> r.version@ == name@ + " not found."@,
            probe is RunFailed ==> r.version@ == "Failed to get "@ + name@ + " version."@,
            probe matches ToolProbe::Output(out) ==> r.version@ == spec_version_token(out@),
    {
        let version = match probe {
            ToolProbe::NotFound => {
                let mut v = name.to_owned();
                v.append(" not found.");
                v
            },
            ToolProbe::RunFailed => {
                let mut v = String::from_str("Failed to get ");
                v.append(name);
                v.append(" version.");
                v
            },
            ToolProbe::Output(out) => extract_version_number(out.as_str()),
        };
        ToolInfo { name: name.to_owned(), version }
    }
}

} // verus!
