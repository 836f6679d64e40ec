//! Character-level text helpers: whitespace scanning, token
//! extraction, trimming, and plain string comparison.

use vstd::prelude::*;

verus! {

/// ASCII whitespace, the delimiter this library splits on.
pub open spec fn is_ws(c: char) -> bool {
    c == ' ' || c == '\t' || c == '\n' || c == '\r'
}

/// The first position at or after `i` holding a non-whitespace
/// character, or the length if there is none.
pub open spec fn skip_ws(s: Seq<char>, i: int) -> int
    decreases s.len() - i,
{
    if i < 0 || i >= s.len() {
        s.len() as int
    } else if is_ws(s[i]) {
        skip_ws(s, i + 1)
    } else {
        i
    }
}

/// The first position at or after `i` holding a whitespace character,
/// or the length if there is none.
pub open spec fn skip_token(s: Seq<char>, i: int) -> int
    decreases s.len() - i,
{
    if i < 0 || i >= s.len() {
        s.len() as int
    } else if !is_ws(s[i]) {
        skip_token(s, i + 1)
    } else {
        i
    }
}

/// Position just after the last non-whitespace character before `j`,
/// or zero if there is none.
pub open spec fn rtrim_end(s: Seq<char>, j: int) -> int
    decreases j,
{
    if j <= 0 || j > s.len() {
        0
    } else if is_ws(s[j - 1]) {
        rtrim_end(s, j - 1)
    } else {
        j
    }
}

/// The string with leading and trailing ASCII whitespace removed.
pub open spec fn spec_trim(s: Seq<char>) -> Seq<char> {
    if skip_ws(s, 0) < rtrim_end(s, s.len() as int) {
        s.subrange(skip_ws(s, 0), rtrim_end(s, s.len() as int))
    } else {
        Seq::<char>::empty()
    }
}

/// The second whitespace-delimited token of the string, or "Unknown"
/// where the string holds fewer than two tokens.
pub open spec fn spec_version_token(s: Seq<char>) -> Seq<char> {
    let b = skip_token(s, skip_ws(s, 0));
    let c = skip_ws(s, b);
    if c < s.len() {
        s.subrange(c, skip_token(s, c))
    } else {
        "Unknown"@
    }
}

fn is_ws_char(c: char) -> (b: bool)
    ensures
        b == is_ws(c),
{
    c == ' ' || c == '\t' || c == '\n' || c == '\r'
}

fn scan_ws(s: &str, from: usize, len: usize) -> (r: usize)
    requires
        len == s@.len(),
        from <= len,
    ensures
        r == skip_ws(s@, from as int),
        from <= r <= len,
{
    let mut i = from;
    while i < len && is_ws_char(s.get_char(i))
        invariant
            from <= i <= len,
            len == s@.len(),
            skip_ws(s@, from as int) == skip_ws(s@, i as int),
        decreases len - i,
    {
        i = i + 1;
    }
    proof {
        assert(skip_ws(s@, i as int) == i as int);
    }
    i
}

fn scan_token(s: &str, from: usize, len: usize) -> (r: usize)
    requires
        len == s@.len(),
        from <= len,
    ensures
        r == skip_token(s@, from as int),
        from <= r <= len,
{
    let mut i = from;
    while i < len && !is_ws_char(s.get_char(i))
        invariant
            from <= i <= len,
            len == s@.len(),
            skip_token(s@, from as int) == skip_token(s@, i as int),
        decreases len - i,
    {
        i = i + 1;
    }
    proof {
        assert(skip_token(s@, i as int) == i as int);
    }
    i
}

/// Extracts the version figure from a tool's self-report, assumed to
/// follow the pattern "toolname X.Y.Z ...": the second
/// whitespace-delimited token, or "Unknown" where there is none.
pub fn extract_version_number(s: &str) -> (r: String)
    ensures
        r@ == spec_version_token(s@),
{
    let len = s.unicode_len();
    let a = scan_ws(s, 0, len);
    let b = scan_token(s, a, len);
    let c = scan_ws(s, b, len);
    if c < len {
        let d = scan_token(s, c, len);
        s.substring_char(c, d).to_owned()
    } else {
        String::from_str("Unknown")
    }
}

/// Removes leading and trailing ASCII whitespace.
pub fn trim_str(s: &str) -> (r: String)
    ensures
        r@ == spec_trim(s@),
{
    let len = s.unicode_len();
    let a = scan_ws(s, 0, len);
    let mut j = len;
    while j > 0 && is_ws_char(s.get_char(j - 1))
        invariant
            j <= len,
            len == s@.len(),
            rtrim_end(s@, len as int) == rtrim_end(s@, j as int),
        decreases j,
    {
        j = j - 1;
    }
    proof {
        assert(rtrim_end(s@, j as int) == j as int);
    }
    if a < j {
        s.substring_char(a, j).to_owned()
    } else {
        String::new()
    }
}

/// The value where one was found, or the "Unknown" sentinel.
pub fn or_unknown(o: Option<String>) -> (r: String)
    ensures
        o matches Some(v) ==> r@ == v@,
        o is None ==> r@ == "Unknown"@,
{
    match o {
        Some(v) => v,
        None => String::from_str("Unknown"),
    }
}

/// Character-for-character string equality.
pub fn str_eq(a: &str, b: &str) -> (r: bool)
    ensures
        r == (a@ == b@),
{
    let la = a.unicode_len();
    let lb = b.unicode_len();
    if la != lb {
        proof {
            assert(a@ != b@);
        }
        return false;
    }
    let mut i: usize = 0;
    while i < la
        invariant
            i <= la,
            la == a@.len(),
            la == b@.len(),
            forall|j: int| 0 <= j < i ==> a@[j] == b@[j],
        decreases la - i,
    {
        if a.get_char(i) != b.get_char(i) {
            proof {
                assert(a@ != b@);
            }
            return false;
        }
        i = i + 1;
    }
    proof {
        assert(a@ =~= b@);
    }
    true
}

} // verus!
