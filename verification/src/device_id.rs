//! The device id: the SHA-256 of the machine's hardware id, in lower-case
//! hex, and the reading of that id from the output of the system tools.
use vstd::prelude::*;
use vstd::string::StringSliceAdditionalSpecFns;

use crate::text::{
    ascii_lowercase, ascii_uppercase, chars_find, chars_of, contains, is_ws, lines, lines_of,
    occurs_at, slice_chars, split, split_str, str_ascii_lower, str_ascii_upper, str_contains,
    str_eq, string_from, trim, trim_str,
};

verus! {

// ---------------------------------------------------------------------------
// Hashing
// ---------------------------------------------------------------------------

/// The SHA-256 digest of `bytes`, as `sha2::Sha256` computes it.
pub uninterp spec fn sha256_digest(bytes: Seq<u8>) -> Seq<u8>;

/// Calls `sha2::Sha256::digest`. The contract names the result, a function of
/// the bytes alone, and states its documented length of 32 bytes.
#[verifier::external_body]
fn sha256(bytes: &[u8]) -> (r: Vec<u8>)
    ensures
        r@ == sha256_digest(bytes@),
        r@.len() == 32,
{
    <sha2::Sha256 as sha2::Digest>::digest(bytes).to_vec()
}

/// The lower-case hex digit of `d < 16`.
pub open spec fn hex_digit(d: u8) -> char {
    if d < 10 {
        ((d + 48) as u32) as char
    } else {
        ((d + 87) as u32) as char
    }
}

/// Two lower-case hex digits per byte (`{:x}` of a digest).
pub open spec fn lower_hex(bytes: Seq<u8>) -> Seq<char>
    decreases bytes.len(),
{
    if bytes.len() == 0 {
        Seq::empty()
    } else {
        lower_hex(bytes.drop_last()) + seq![
            hex_digit(bytes.last() / 16),
            hex_digit(bytes.last() % 16),
        ]
    }
}

/// A lower-case hex digit.
pub open spec fn is_lower_hex_digit(c: char) -> bool {
    ('0' <= c <= '9') || ('a' <= c <= 'f')
}

/// Hex text is twice as long as the bytes and made of hex digits.
pub proof fn lemma_lower_hex_shape(bytes: Seq<u8>)
    ensures
        lower_hex(bytes).len() == 2 * bytes.len(),
        forall|i: int| 0 <= i < lower_hex(bytes).len() ==> is_lower_hex_digit(#[trigger] lower_hex(bytes)[i]),
    decreases bytes.len(),
{
    if bytes.len() > 0 {
        lemma_lower_hex_shape(bytes.drop_last());
        let h = lower_hex(bytes);
        let prev = lower_hex(bytes.drop_last());
        assert forall|i: int| 0 <= i < h.len() implies is_lower_hex_digit(#[trigger] h[i]) by {
            if i < prev.len() {
                assert(h[i] == prev[i]);
            }
        }
    }
}

/// The hex digit of `d < 16`.
fn hex_char(d: u8) -> (c: char)
    requires
        d < 16,
    ensures
        c == hex_digit(d),
{
    if d < 10 {
        (d + 48) as char
    } else {
        (d + 87) as char
    }
}

/// The device hash of a machine id: the SHA-256 of its UTF-8 bytes in
/// lower-case hex (64 hex digits).
pub fn device_hash_of(machine_id: &str) -> (r: String)
    ensures
        r@ == lower_hex(sha256_digest(machine_id.spec_bytes())),
        r@.len() == 64,
        forall|i: int| 0 <= i < r@.len() ==> is_lower_hex_digit(#[trigger] r@[i]),
{
    let digest = sha256(machine_id.as_bytes());
    let mut r = String::new();
    let mut i: usize = 0;
    while i < digest.len()
        invariant
            i <= digest@.len(),
            r@ == lower_hex(digest@.take(i as int)),
        decreases digest@.len() - i,
    {
        let b = digest[i];
        crate::text::push_char(&mut r, hex_char(b / 16));
        crate::text::push_char(&mut r, hex_char(b % 16));
        assert(digest@.take(i + 1).drop_last() =~= digest@.take(i as int));
        i = i + 1;
    }
    assert(digest@.take(digest@.len() as int) =~= digest@);
    proof {
        lemma_lower_hex_shape(digest@);
    }
    r
}

// ---------------------------------------------------------------------------
// macOS: ioreg
// ---------------------------------------------------------------------------

/// `ls[i]` is the first line that names `IOPlatformUUID` and has a fourth
/// `"`-separated field.
pub open spec fn is_uuid_line(ls: Seq<Seq<char>>, i: int) -> bool {
    contains(ls[i], "IOPlatformUUID"@) && split(ls[i], '"').len() > 3
}

/// The hardware UUID in the output of `ioreg -d2 -c IOPlatformExpertDevice`:
/// the fourth `"`-separated field of the first line that has one and names
/// `IOPlatformUUID`.
pub fn uuid_from_ioreg(output: &str) -> (r: Result<String, String>)
    ensures
        match r {
            Ok(u) => exists|i: int|
                0 <= i < lines(output@).len() && is_uuid_line(lines(output@), i) && (forall|j: int|
                    0 <= j < i ==> !is_uuid_line(lines(output@), j)) && u@ == split(
                    lines(output@)[i],
                    '"',
                )[3],
            Err(m) => m@ == "Could not find hardware UUID"@ && forall|j: int|
                0 <= j < lines(output@).len() ==> !is_uuid_line(lines(output@), j),
        },
{
    let ls = lines_of(output);
    let ghost sl = lines(output@);
    let mut i: usize = 0;
    while i < ls.len()
        invariant
            sl == lines(output@),
            ls@.len() == sl.len(),
            forall|j: int| 0 <= j < ls@.len() ==> (#[trigger] ls@[j])@ == sl[j],
            i <= ls@.len(),
            forall|j: int| 0 <= j < i ==> !is_uuid_line(sl, j),
        decreases ls@.len() - i,
    {
        if str_contains(ls[i].as_str(), "IOPlatformUUID") {
            let parts = split_str(ls[i].as_str(), '"');
            if parts.len() > 3 {
                let u = parts[3].clone();
                assert(is_uuid_line(sl, i as int));
                return Ok(u);
            }
        }
        i = i + 1;
    }
    Err("Could not find hardware UUID".to_owned())
}

// ---------------------------------------------------------------------------
// Windows: wmic, PowerShell, registry
// ---------------------------------------------------------------------------

/// The characters trimmed around a Windows UUID: braces and quotes.
pub open spec fn is_uuid_wrapper(c: char) -> bool {
    c == '{' || c == '}' || c == '"' || c == '\''
}

/// `s` without the braces and quotes at its ends.
pub open spec fn strip_wrappers(s: Seq<char>) -> Seq<char>
    decreases s.len(),
{
    if s.len() > 0 && is_uuid_wrapper(s[0]) {
        strip_wrappers(s.drop_first())
    } else if s.len() > 0 && is_uuid_wrapper(s.last()) {
        strip_wrappers(s.drop_last())
    } else {
        s
    }
}

/// A UUID as Windows tools print it, normalised: trimmed of white space,
/// braces and quotes, upper-cased; blank values, the `UUID` header and
/// `To be filled` placeholders are not UUIDs.
pub open spec fn normalized_uuid(value: Seq<char>) -> Option<Seq<char>> {
    let t = strip_wrappers(trim(value));
    let lower = ascii_lowercase(t);
    if t.len() == 0 || lower == "uuid"@ || contains(lower, "to be filled"@) {
        None
    } else {
        Some(ascii_uppercase(t))
    }
}

/// `v[lo..hi]` without the braces and quotes at its ends.
fn strip_wrapper_chars(v: &Vec<char>, lo: usize, hi: usize) -> (r: (usize, usize))
    requires
        lo <= hi <= v@.len(),
    ensures
        lo <= r.0 <= r.1 <= hi,
        strip_wrappers(v@.subrange(lo as int, hi as int)) == v@.subrange(r.0 as int, r.1 as int),
    decreases hi - lo,
{
    if lo < hi && (v[lo] == '{' || v[lo] == '}' || v[lo] == '"' || v[lo] == '\'') {
        assert(v@.subrange(lo as int, hi as int).drop_first() =~= v@.subrange(lo + 1, hi as int));
        strip_wrapper_chars(v, lo + 1, hi)
    } else if lo < hi && (v[hi - 1] == '{' || v[hi - 1] == '}' || v[hi - 1] == '"' || v[hi - 1]
        == '\'') {
        assert(v@.subrange(lo as int, hi as int).drop_last() =~= v@.subrange(lo as int, hi - 1));
        strip_wrapper_chars(v, lo, hi - 1)
    } else {
        (lo, hi)
    }
}

/// Normalises a UUID as Windows tools print it.
pub fn normalize_uuid(value: &str) -> (r: Option<String>)
    ensures
        match (r, normalized_uuid(value@)) {
            (Some(a), Some(b)) => a@ == b,
            (None, None) => true,
            _ => false,
        },
{
    let t0 = trim_str(value);
    let v = chars_of(t0.as_str());
    let (lo, hi) = strip_wrapper_chars(&v, 0, v.len());
    assert(v@.subrange(0, v@.len() as int) =~= v@);
    let t = string_from(slice_chars(v.as_slice(), lo, hi).as_slice());
    if t.as_str().is_empty() {
        return None;
    }
    let lower = str_ascii_lower(t.as_str());
    if str_eq(lower.as_str(), "uuid") || str_contains(lower.as_str(), "to be filled") {
        return None;
    }
    Some(str_ascii_upper(t.as_str()))
}

/// The first UUID among the lines from `from` on.
pub open spec fn first_uuid_from(ls: Seq<Seq<char>>, from: int) -> Option<Seq<char>>
    decreases ls.len() - from,
{
    if from < 0 || from >= ls.len() {
        None
    } else {
        match normalized_uuid(ls[from]) {
            Some(u) => Some(u),
            None => first_uuid_from(ls, from + 1),
        }
    }
}

/// The first UUID among the lines of `output` from line `from` on.
fn first_uuid_in(output: &str, from: usize) -> (r: Option<String>)
    ensures
        match (r, first_uuid_from(lines(output@), from as int)) {
            (Some(a), Some(b)) => a@ == b,
            (None, None) => true,
            _ => false,
        },
{
    let ls = lines_of(output);
    let ghost sl = lines(output@);
    let mut i: usize = from;
    while i < ls.len()
        invariant
            sl == lines(output@),
            ls@.len() == sl.len(),
            forall|j: int| 0 <= j < ls@.len() ==> (#[trigger] ls@[j])@ == sl[j],
            from <= i,
            first_uuid_from(sl, from as int) == first_uuid_from(sl, i as int),
        decreases ls@.len() - i,
    {
        match normalize_uuid(ls[i].as_str()) {
            Some(u) => {
                return Some(u);
            },
            None => {},
        }
        i = i + 1;
    }
    None
}

/// `i` is the first position where `pat` occurs in `s`.
pub open spec fn is_first_occurrence(s: Seq<char>, pat: Seq<char>, i: int) -> bool {
    occurs_at(s, pat, i) && forall|k: int| 0 <= k < i ==> !#[trigger] occurs_at(s, pat, k)
}

/// The first position where `pat` occurs in `s`, or -1.
pub open spec fn first_occurrence(s: Seq<char>, pat: Seq<char>) -> int {
    if exists|i: int| is_first_occurrence(s, pat, i) {
        choose|i: int| is_first_occurrence(s, pat, i)
    } else {
        -1
    }
}

/// The text between the first and the second occurrence of `pat` in `s`
/// (the second field of `s.split(pat)`), if `pat` occurs.
pub open spec fn second_field(s: Seq<char>, pat: Seq<char>) -> Option<Seq<char>> {
    let i = first_occurrence(s, pat);
    if i >= 0 {
        let rest = s.subrange(i + pat.len(), s.len() as int);
        let j = first_occurrence(rest, pat);
        if j >= 0 {
            Some(rest.subrange(0, j))
        } else {
            Some(rest)
        }
    } else {
        None
    }
}

/// The first position `chars_find` returns is the first occurrence.
proof fn lemma_first_occurrence_at(s: Seq<char>, pat: Seq<char>, i: int)
    requires
        is_first_occurrence(s, pat, i),
    ensures
        first_occurrence(s, pat) == i,
{
    let k = choose|k: int| is_first_occurrence(s, pat, k);
    assert(is_first_occurrence(s, pat, k));
    if i < k {
        assert(!occurs_at(s, pat, i));
    }
    if k < i {
        assert(!occurs_at(s, pat, k));
    }
}

/// Without an occurrence, the first occurrence is -1.
proof fn lemma_no_occurrence(s: Seq<char>, pat: Seq<char>)
    requires
        !contains(s, pat),
    ensures
        first_occurrence(s, pat) == -1,
{
    if exists|i: int| is_first_occurrence(s, pat, i) {
        let k = choose|k: int| is_first_occurrence(s, pat, k);
        assert(occurs_at(s, pat, k));
    }
}

/// The second field of `s.split(pat)`.
fn second_field_of(s: &str, pat: &str) -> (r: Option<String>)
    ensures
        match (r, second_field(s@, pat@)) {
            (Some(a), Some(b)) => a@ == b,
            (None, None) => true,
            _ => false,
        },
{
    let v = chars_of(s);
    let p = chars_of(pat);
    match chars_find(v.as_slice(), p.as_slice()) {
        None => {
            proof {
                lemma_no_occurrence(s@, pat@);
            }
            None
        },
        Some(i) => {
            proof {
                lemma_first_occurrence_at(s@, pat@, i as int);
            }
            let n = v.len();
            let m = p.len();
            assert(i + m <= n);
            let rest = slice_chars(v.as_slice(), i + m, n);
            match chars_find(rest.as_slice(), p.as_slice()) {
                None => {
                    proof {
                        lemma_no_occurrence(rest@, pat@);
                    }
                    Some(string_from(rest.as_slice()))
                },
                Some(j) => {
                    proof {
                        lemma_first_occurrence_at(rest@, pat@, j as int);
                    }
                    Some(string_from(slice_chars(rest.as_slice(), 0, j).as_slice()))
                },
            }
        },
    }
}

/// The UUID of a `MachineGuid` line: its normalised field after `REG_SZ`.
pub open spec fn registry_uuid(line: Seq<char>) -> Option<Seq<char>> {
    if contains(line, "MachineGuid"@) {
        match second_field(line, "REG_SZ"@) {
            Some(f) => normalized_uuid(f),
            None => None,
        }
    } else {
        None
    }
}

/// The first `MachineGuid` UUID among the lines from `from` on.
pub open spec fn first_registry_uuid_from(ls: Seq<Seq<char>>, from: int) -> Option<Seq<char>>
    decreases ls.len() - from,
{
    if from < 0 || from >= ls.len() {
        None
    } else {
        match registry_uuid(ls[from]) {
            Some(u) => Some(u),
            None => first_registry_uuid_from(ls, from + 1),
        }
    }
}

/// The machine UUID Windows reports: from `wmic csproduct get UUID` (after
/// its header line), else from PowerShell's `Get-CimInstance`, else from the
/// registry's `MachineGuid`. Each output is `None` when its command failed.
pub open spec fn windows_uuid(
    wmic: Option<Seq<char>>,
    powershell: Option<Seq<char>>,
    registry: Option<Seq<char>>,
) -> Option<Seq<char>> {
    let from_wmic = match wmic {
        Some(o) => first_uuid_from(lines(o), 1),
        None => None,
    };
    let from_ps = match powershell {
        Some(o) => first_uuid_from(lines(o), 0),
        None => None,
    };
    let from_reg = match registry {
        Some(o) => first_registry_uuid_from(lines(o), 0),
        None => None,
    };
    if from_wmic.is_some() {
        from_wmic
    } else if from_ps.is_some() {
        from_ps
    } else {
        from_reg
    }
}

/// The first `MachineGuid` UUID in the output of `reg query`.
fn registry_uuid_in(output: &str) -> (r: Option<String>)
    ensures
        match (r, first_registry_uuid_from(lines(output@), 0)) {
            (Some(a), Some(b)) => a@ == b,
            (None, None) => true,
            _ => false,
        },
{
    let ls = lines_of(output);
    let ghost sl = lines(output@);
    let mut i: usize = 0;
    while i < ls.len()
        invariant
            sl == lines(output@),
            ls@.len() == sl.len(),
            forall|j: int| 0 <= j < ls@.len() ==> (#[trigger] ls@[j])@ == sl[j],
            first_registry_uuid_from(sl, 0) == first_registry_uuid_from(sl, i as int),
        decreases ls@.len() - i,
    {
        let line = ls[i].as_str();
        if str_contains(line, "MachineGuid") {
            match second_field_of(line, "REG_SZ") {
                Some(rest) => match normalize_uuid(rest.as_str()) {
                    Some(u) => {
                        return Some(u);
                    },
                    None => {},
                },
                None => {},
            }
        }
        i = i + 1;
    }
    None
}

/// The message when no Windows source gives a UUID.
pub const NO_WINDOWS_UUID: &'static str = "Could not determine machine UUID";

/// The machine UUID from the outputs of the Windows tools (see `windows_uuid`).
pub fn windows_uuid_from(
    wmic: Option<&str>,
    powershell: Option<&str>,
    registry: Option<&str>,
) -> (r: Result<String, String>)
    ensures
        match (
            r,
            windows_uuid(
                match wmic {
                    Some(o) => Some(o@),
                    None => None,
                },
                match powershell {
                    Some(o) => Some(o@),
                    None => None,
                },
                match registry {
                    Some(o) => Some(o@),
                    None => None,
                },
            ),
        ) {
            (Ok(a), Some(b)) => a@ == b,
            (Err(m), None) => m@ == NO_WINDOWS_UUID@,
            _ => false,
        },
{
    if let Some(o) = wmic {
        if let Some(u) = first_uuid_in(o, 1) {
            return Ok(u);
        }
    }
    if let Some(o) = powershell {
        if let Some(u) = first_uuid_in(o, 0) {
            return Ok(u);
        }
    }
    if let Some(o) = registry {
        if let Some(u) = registry_uuid_in(o) {
            return Ok(u);
        }
    }
    Err(NO_WINDOWS_UUID.to_owned())
}

// ---------------------------------------------------------------------------
// Linux: ip link
// ---------------------------------------------------------------------------

/// The white-space separated words of `s` (`str::split_whitespace`).
pub open spec fn words(s: Seq<char>) -> Seq<Seq<char>>
    decreases s.len(),
{
    if s.len() == 0 {
        Seq::empty()
    } else {
        let w = words(s.drop_last());
        let c = s.last();
        if is_ws(c) {
            w
        } else if s.len() >= 2 && !is_ws(s[s.len() - 2]) {
            w.update(w.len() - 1, w.last().push(c))
        } else {
            w.push(seq![c])
        }
    }
}

/// A sequence that ends in a word has a last word.
proof fn lemma_words_nonempty(s: Seq<char>)
    requires
        s.len() > 0,
        !is_ws(s.last()),
    ensures
        words(s).len() > 0,
    decreases s.len(),
{
    if s.len() >= 2 && !is_ws(s[s.len() - 2]) {
        assert(s.drop_last().last() == s[s.len() - 2]);
        lemma_words_nonempty(s.drop_last());
    }
}

/// The white-space separated words of `s`.
pub fn words_of(s: &str) -> (r: Vec<String>)
    ensures
        r@.len() == words(s@).len(),
        forall|i: int| 0 <= i < r@.len() ==> (#[trigger] r@[i])@ == words(s@)[i],
{
    let v = chars_of(s);
    let mut done: Vec<String> = Vec::new();
    let mut current: Vec<char> = Vec::new();
    let mut i: usize = 0;
    while i < v.len()
        invariant
            i <= v@.len(),
            v@ == s@,
            ({
                let w = words(v@.take(i as int));
                let in_word = i > 0 && !is_ws(v@[i - 1]);
                &&& in_word ==> (w.len() == done@.len() + 1 && current@ == w.last()
                    && current@.len() > 0)
                &&& !in_word ==> (w.len() == done@.len() && current@.len() == 0)
                &&& forall|j: int| 0 <= j < done@.len() ==> (#[trigger] done@[j])@ == w[j]
            }),
        decreases v@.len() - i,
    {
        let ghost prev = v@.take(i as int);
        let ghost next = v@.take(i + 1);
        assert(next.drop_last() =~= prev);
        assert(next.last() == v@[i as int]);
        if i > 0 {
            assert(next[next.len() - 2] == v@[i - 1]);
        }
        if crate::text::is_whitespace(v[i]) {
            if current.len() > 0 {
                let word = string_from(current.as_slice());
                done.push(word);
                current = Vec::new();
                assert(current@.len() == 0);
            }
            assert(words(next) == words(prev));
        } else {
            let starts = i == 0 || crate::text::is_whitespace(v[i - 1]);
            current.push(v[i]);
            if starts {
                assert(current@ =~= seq![v@[i as int]]);
            }
        }
        i = i + 1;
    }
    assert(v@.take(v@.len() as int) =~= v@);
    if current.len() > 0 {
        let word = string_from(current.as_slice());
        done.push(word);
    }
    done
}

/// The MAC address of a `link/ether` line: its second word, unless it is
/// all zeros.
pub open spec fn mac_of_line(line: Seq<char>) -> Option<Seq<char>> {
    if contains(line, "link/ether"@) && words(line).len() > 1 && words(line)[1]
        != "00:00:00:00:00:00"@ {
        Some(words(line)[1])
    } else {
        None
    }
}

/// The first MAC address in the output of `ip link show`.
pub fn mac_from_ip_link(output: &str) -> (r: Result<String, String>)
    ensures
        match r {
            Ok(m) => exists|i: int|
                0 <= i < lines(output@).len() && mac_of_line(lines(output@)[i]) == Some(m@) && (
                forall|j: int| 0 <= j < i ==> mac_of_line(lines(output@)[j]).is_none()),
            Err(e) => e@ == "Could not find a valid MAC address"@ && forall|j: int|
                0 <= j < lines(output@).len() ==> mac_of_line(lines(output@)[j]).is_none(),
        },
{
    let ls = lines_of(output);
    let ghost sl = lines(output@);
    let mut i: usize = 0;
    while i < ls.len()
        invariant
            sl == lines(output@),
            ls@.len() == sl.len(),
            forall|j: int| 0 <= j < ls@.len() ==> (#[trigger] ls@[j])@ == sl[j],
            i <= ls@.len(),
            forall|j: int| 0 <= j < i ==> mac_of_line(sl[j]).is_none(),
        decreases ls@.len() - i,
    {
        let line = ls[i].as_str();
        if str_contains(line, "link/ether") {
            let ws = words_of(line);
            if ws.len() > 1 && !str_eq(ws[1].as_str(), "00:00:00:00:00:00") {
                let m = ws[1].clone();
                assert(mac_of_line(sl[i as int]) == Some(m@));
                return Ok(m);
            }
        }
        i = i + 1;
    }
    Err("Could not find a valid MAC address".to_owned())
}

/// The Linux machine id: the contents of `/etc/machine-id`, else of
/// `/var/lib/dbus/machine-id` (each `None` when unreadable), trimmed; `None`
/// when neither file could be read.
pub fn linux_machine_id(etc_machine_id: Option<&str>, dbus_machine_id: Option<&str>) -> (r: Option<
    String,
>)
    ensures
        match etc_machine_id {
            Some(e) => r matches Some(m) && m@ == trim(e@),
            None => match dbus_machine_id {
                Some(d) => r matches Some(m) && m@ == trim(d@),
                None => r is None,
            },
        },
{
    match etc_machine_id {
        Some(e) => Some(trim_str(e)),
        None => match dbus_machine_id {
            Some(d) => Some(trim_str(d)),
            None => None,
        },
    }
}

} // verus!
