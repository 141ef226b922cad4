//! The ffmpeg and ffprobe invocations: binary names, where they are looked
//! for, their arguments, and the errors they end in.
use vstd::prelude::*;

use crate::text::{decimal, decimal_string, join, join_strings, push_str, str_eq};

verus! {

/// The ffmpeg binary names to try, bundled name last.
pub fn ffmpeg_candidates(windows: bool) -> (r: Vec<&'static str>)
    ensures
        r@.len() == 2,
        windows ==> r@[0]@ == "ffmpeg.exe"@ && r@[1]@ == "ffmpeg-x86_64-pc-windows-msvc.exe"@,
        !windows ==> r@[0]@ == "ffmpeg"@ && r@[1]@ == "ffmpeg-aarch64-apple-darwin"@,
{
    if windows {
        vec!["ffmpeg.exe", "ffmpeg-x86_64-pc-windows-msvc.exe"]
    } else {
        vec!["ffmpeg", "ffmpeg-aarch64-apple-darwin"]
    }
}

/// The ffprobe binary names to try, bundled name last.
pub fn ffprobe_candidates(windows: bool) -> (r: Vec<&'static str>)
    ensures
        r@.len() == 2,
        windows ==> r@[0]@ == "ffprobe.exe"@ && r@[1]@ == "ffprobe-x86_64-pc-windows-msvc.exe"@,
        !windows ==> r@[0]@ == "ffprobe"@ && r@[1]@ == "ffprobe-aarch64-apple-darwin"@,
{
    if windows {
        vec!["ffprobe.exe", "ffprobe-x86_64-pc-windows-msvc.exe"]
    } else {
        vec!["ffprobe", "ffprobe-aarch64-apple-darwin"]
    }
}

/// The views of some strings.
pub open spec fn views(v: Seq<String>) -> Seq<Seq<char>> {
    Seq::new(v.len(), |i: int| v[i]@)
}

/// The views of some string slices.
pub open spec fn str_views(v: Seq<&str>) -> Seq<Seq<char>> {
    Seq::new(v.len(), |i: int| v[i]@)
}

/// A sequence with `x` pushed holds what it held and `x`.
proof fn lemma_push_contains(s: Seq<Seq<char>>, x: Seq<char>, t: Seq<char>)
    ensures
        s.push(x).contains(t) <==> (s.contains(t) || t == x),
{
    let p = s.push(x);
    if p.contains(t) {
        let m = choose|m: int| 0 <= m < p.len() && p[m] == t;
        if m < s.len() {
            assert(s[m] == t);
        }
    }
    if s.contains(t) {
        let m = choose|m: int| 0 <= m < s.len() && s[m] == t;
        assert(p[m] == t);
    }
    if t == x {
        assert(p[s.len() as int] == t);
    }
}

/// The items without repeats, each where it first occurs.
pub open spec fn first_occurrences(s: Seq<Seq<char>>) -> Seq<Seq<char>>
    decreases s.len(),
{
    if s.len() == 0 {
        s
    } else {
        let rest = first_occurrences(s.drop_last());
        if s.drop_last().contains(s.last()) {
            rest
        } else {
            rest.push(s.last())
        }
    }
}

/// The search directories without repeats, in the order first seen.
pub fn dedup_dirs(dirs: &Vec<String>) -> (r: Vec<String>)
    ensures
        views(r@) == first_occurrences(views(dirs@)),
{
    let ghost vs = views(dirs@);
    let mut r: Vec<String> = Vec::new();
    let mut i: usize = 0;
    while i < dirs.len()
        invariant
            vs == views(dirs@),
            i <= dirs@.len(),
            views(r@) == first_occurrences(vs.take(i as int)),
            forall|t: Seq<char>| vs.take(i as int).contains(t) <==> views(r@).contains(t),
        decreases dirs@.len() - i,
    {
        let ghost prev = vs.take(i as int);
        let ghost x = dirs@[i as int]@;
        let ghost before = views(r@);
        assert(vs.take(i + 1) =~= prev.push(x));
        let mut seen = false;
        let mut k: usize = 0;
        while k < r.len()
            invariant
                k <= r@.len(),
                before == views(r@),
                x == dirs@[i as int]@,
                !seen ==> forall|m: int| 0 <= m < k ==> (#[trigger] r@[m])@ != x,
                seen ==> before.contains(x),
                i < dirs@.len(),
            decreases r@.len() - k,
        {
            if str_eq(r[k].as_str(), dirs[i].as_str()) {
                seen = true;
                assert(before[k as int] == x);
            }
            k = k + 1;
        }
        if !seen {
            assert(!before.contains(x)) by {
                if before.contains(x) {
                    let m = choose|m: int| 0 <= m < before.len() && before[m] == x;
                    assert(r@[m]@ == x);
                }
            }
            r.push(dirs[i].clone());
            assert(views(r@) =~= before.push(x));
        }
        proof {
            let next = vs.take(i + 1);
            assert(next.drop_last() =~= prev);
            assert(next.last() == x);
            assert(prev.contains(x) <==> before.contains(x));
            assert forall|t: Seq<char>| next.contains(t) <==> views(r@).contains(t) by {
                lemma_push_contains(prev, x, t);
                lemma_push_contains(before, x, t);
            }
        }
        i = i + 1;
    }
    assert(vs.take(dirs@.len() as int) =~= vs);
    r
}

/// Owned copies of some strings.
fn strings(parts: &Vec<&str>) -> (r: Vec<String>)
    ensures
        views(r@) == str_views(parts@),
{
    let mut r: Vec<String> = Vec::new();
    let mut i: usize = 0;
    while i < parts.len()
        invariant
            i <= parts@.len(),
            r@.len() == i,
            forall|k: int| 0 <= k < i ==> (#[trigger] r@[k])@ == parts@[k]@,
        decreases parts@.len() - i,
    {
        r.push(parts[i].to_owned());
        i = i + 1;
    }
    assert(views(r@) =~= str_views(parts@));
    r
}

/// The ffmpeg arguments that convert `input` to 16 kHz mono 16-bit WAV at
/// `output`, without video or subtitles.
pub fn to_wav_args(input: &str, output: &str) -> (r: Vec<String>)
    ensures
        views(r@) == seq![
            "-y"@,
            "-loglevel"@,
            "error"@,
            "-hide_banner"@,
            "-vn"@,
            "-sn"@,
            "-i"@,
            input@,
            "-ac"@,
            "1"@,
            "-ar"@,
            "16000"@,
            "-sample_fmt"@,
            "s16"@,
            output@,
        ],
{
    let parts = vec![
        "-y",
        "-loglevel",
        "error",
        "-hide_banner",
        "-vn",
        "-sn",
        "-i",
        input,
        "-ac",
        "1",
        "-ar",
        "16000",
        "-sample_fmt",
        "s16",
        output,
    ];
    let r = strings(&parts);
    assert(views(r@) =~= seq![
        "-y"@,
        "-loglevel"@,
        "error"@,
        "-hide_banner"@,
        "-vn"@,
        "-sn"@,
        "-i"@,
        input@,
        "-ac"@,
        "1"@,
        "-ar"@,
        "16000"@,
        "-sample_fmt"@,
        "s16"@,
        output@,
    ]);
    r
}

/// The ffmpeg arguments that cut `input` into WAV pieces of `seconds`
/// seconds named by `out_pattern`.
pub fn segment_args(input: &str, out_pattern: &str, seconds: u32) -> (r: Vec<String>)
    ensures
        views(r@) == seq![
            "-y"@,
            "-loglevel"@,
            "error"@,
            "-hide_banner"@,
            "-i"@,
            input@,
            "-f"@,
            "segment"@,
            "-segment_time"@,
            decimal(seconds as nat),
            "-reset_timestamps"@,
            "1"@,
            out_pattern@,
        ],
{
    let seg = decimal_string(seconds as u64);
    let parts = vec![
        "-y",
        "-loglevel",
        "error",
        "-hide_banner",
        "-i",
        input,
        "-f",
        "segment",
        "-segment_time",
        seg.as_str(),
        "-reset_timestamps",
        "1",
        out_pattern,
    ];
    let r = strings(&parts);
    assert(views(r@) =~= seq![
        "-y"@,
        "-loglevel"@,
        "error"@,
        "-hide_banner"@,
        "-i"@,
        input@,
        "-f"@,
        "segment"@,
        "-segment_time"@,
        decimal(seconds as nat),
        "-reset_timestamps"@,
        "1"@,
        out_pattern@,
    ]);
    r
}

/// The ffprobe arguments that describe `input` as JSON.
pub fn probe_args(input: &str) -> (r: Vec<String>)
    ensures
        views(r@) == seq![
            "-v"@,
            "quiet"@,
            "-print_format"@,
            "json"@,
            "-show_format"@,
            "-show_streams"@,
            input@,
        ],
{
    let parts = vec!["-v", "quiet", "-print_format", "json", "-show_format", "-show_streams", input];
    let r = strings(&parts);
    assert(views(r@) =~= seq![
        "-v"@,
        "quiet"@,
        "-print_format"@,
        "json"@,
        "-show_format"@,
        "-show_streams"@,
        input@,
    ]);
    r
}

/// The error when no binary was found: the label and every path tried.
pub fn binary_not_found_message(label: &str, tried: &Vec<String>) -> (r: String)
    ensures
        r@ == label@ + " binary not found. Searched: "@ + join(views(tried@), ", "@),
{
    let mut r = label.to_owned();
    push_str(&mut r, " binary not found. Searched: ");
    let j = join_strings(tried, ", ");
    push_str(&mut r, j.as_str());
    assert(views(tried@) =~= tried@.map_values(|p: String| p@));
    r
}

/// `{:?}` of an optional exit code.
pub open spec fn exit_code_text(code: Option<i32>) -> Seq<char> {
    match code {
        Some(c) => "Some("@ + (if c < 0 {
            "-"@ + decimal((-c) as nat)
        } else {
            decimal(c as nat)
        }) + ")"@,
        None => "None"@,
    }
}

/// The error when a tool exits unsuccessfully.
pub fn exit_status_message(label: &str, code: Option<i32>) -> (r: String)
    ensures
        r@ == label@ + " exited with status "@ + exit_code_text(code),
{
    let mut r = label.to_owned();
    push_str(&mut r, " exited with status ");
    match code {
        Some(c) => {
            push_str(&mut r, "Some(");
            if c < 0 {
                push_str(&mut r, "-");
                let magnitude: u64 = (0i64 - c as i64) as u64;
                let d = decimal_string(magnitude);
                push_str(&mut r, d.as_str());
            } else {
                let d = decimal_string(c as u64);
                push_str(&mut r, d.as_str());
            }
            push_str(&mut r, ")");
        },
        None => {
            push_str(&mut r, "None");
        },
    }
    r
}

} // verus!
