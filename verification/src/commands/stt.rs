//! Soniox: checking an API key, polling a transcription job, and reading its
//! transcript.
use vstd::prelude::*;

use crate::text::{chars_of, is_blank, join, push_chars, push_str, slice_chars, str_eq, trim, trim_str};

verus! {

/// The first `n` characters of `s` (all of it when shorter).
pub open spec fn prefix_chars(s: Seq<char>, n: nat) -> Seq<char> {
    if s.len() <= n {
        s
    } else {
        s.subrange(0, n as int)
    }
}

/// The first `n` characters of a response body, for an error message.
pub fn body_snippet(body: &str, n: usize) -> (r: String)
    ensures
        r@ == prefix_chars(body@, n as nat),
{
    let v = chars_of(body);
    let k = if v.len() <= n {
        v.len()
    } else {
        n
    };
    let t = slice_chars(v.as_slice(), 0, k);
    assert(v@.subrange(0, v@.len() as int) =~= v@);
    crate::text::string_from(t.as_slice())
}

/// The key to check: the camel-case argument when given, else the other;
/// a blank key is refused. The key is trimmed.
pub fn soniox_key_to_check(api_key: Option<String>, api_key_camel: Option<String>) -> (r: Result<
    String,
    String,
>)
    ensures
        ({
            let k = match api_key_camel {
                Some(c) => c@,
                None => match api_key {
                    Some(a) => a@,
                    None => Seq::empty(),
                },
            };
            &&& trim(k).len() == 0 ==> (r matches Err(m) && m@ == "API key cannot be empty"@)
            &&& trim(k).len() > 0 ==> (r matches Ok(t) && t@ == trim(k))
        }),
{
    let key = match api_key_camel {
        Some(c) => c,
        None => match api_key {
            Some(a) => a,
            None => String::new(),
        },
    };
    if is_blank(key.as_str()) {
        proof {
            crate::text::lemma_trim_empty(key@);
        }
        return Err("API key cannot be empty".to_owned());
    }
    Ok(trim_str(key.as_str()))
}

/// The verdict on a key from the status of Soniox's model list: success is a
/// valid key, 401 and 403 an invalid one; any other status is reported with
/// its text and the first 500 characters of the body.
pub fn soniox_key_verdict(status_code: u16, status_text: &str, body: &str) -> (r: Result<(), String>)
    ensures
        200 <= status_code <= 299 ==> r is Ok,
        (status_code == 401 || status_code == 403) ==> (r matches Err(m) && m@
            == "Invalid Soniox API key"@),
        !(200 <= status_code <= 299) && status_code != 401 && status_code != 403 ==> (r matches Err(
            m,
        ) && m@ == "HTTP "@ + status_text@ + ": "@ + prefix_chars(body@, 500)),
{
    if 200 <= status_code && status_code <= 299 {
        return Ok(());
    }
    if status_code == 401 || status_code == 403 {
        return Err("Invalid Soniox API key".to_owned());
    }
    let mut m = "HTTP ".to_owned();
    push_str(&mut m, status_text);
    push_str(&mut m, ": ");
    let s = body_snippet(body, 500);
    push_str(&mut m, s.as_str());
    Err(m)
}

/// How long a Soniox job may take, in nanoseconds (three minutes).
pub const SONIOX_TIMEOUT_NANOS: u128 = 180_000_000_000;

/// What to do after polling a Soniox job.
#[derive(Debug, Clone, PartialEq, Eq)]
pub enum PollStep {
    /// The transcript is ready.
    Done,
    /// The job failed with this error.
    Failed(String),
    /// The job took too long.
    TimedOut,
    /// Poll again in a second.
    Wait,
}

/// The step after a poll that reported `status` (and, for a failed job, its
/// error message), `elapsed_nanos` after the job was created.
pub fn soniox_poll_step(status: &str, error_message: Option<&str>, elapsed_nanos: u128) -> (r: PollStep)
    ensures
        status@ == "completed"@ ==> r == PollStep::Done,
        status@ == "error"@ ==> (r matches PollStep::Failed(m) && m@ == "Soniox job failed: "@
            + (match error_message {
            Some(e) => e@,
            None => "Job failed"@,
        })),
        status@ != "completed"@ && status@ != "error"@ ==> r == (if elapsed_nanos
            > SONIOX_TIMEOUT_NANOS {
            PollStep::TimedOut
        } else {
            PollStep::Wait
        }),
{
    proof {
        reveal_strlit("completed");
        reveal_strlit("error");
        assert("completed"@.len() != "error"@.len());
    }
    if str_eq(status, "completed") {
        return PollStep::Done;
    }
    if str_eq(status, "error") {
        let mut m = "Soniox job failed: ".to_owned();
        match error_message {
            Some(e) => push_str(&mut m, e),
            None => push_str(&mut m, "Job failed"),
        }
        return PollStep::Failed(m);
    }
    if elapsed_nanos > SONIOX_TIMEOUT_NANOS {
        PollStep::TimedOut
    } else {
        PollStep::Wait
    }
}

/// The texts of the tokens that have one.
pub open spec fn present_texts(tokens: Seq<Option<String>>) -> Seq<Seq<char>>
    decreases tokens.len(),
{
    if tokens.len() == 0 {
        Seq::empty()
    } else {
        let rest = present_texts(tokens.drop_last());
        match tokens.last() {
            Some(t) => rest.push(t@),
            None => rest,
        }
    }
}

/// The transcript of a finished job: its `text` when present, else the texts
/// of its tokens joined by spaces when that is not empty.
pub fn soniox_transcript_text(text: Option<String>, tokens: Option<Vec<Option<String>>>) -> (r: Result<
    String,
    String,
>)
    ensures
        text matches Some(t) ==> r == Ok::<String, String>(t),
        text.is_none() ==> match tokens {
            Some(ts) => {
                let joined = join(present_texts(ts@), " "@);
                &&& joined.len() > 0 ==> (r matches Ok(s) && s@ == joined)
                &&& joined.len() == 0 ==> (r matches Err(m) && m@
                    == "Soniox transcript format not recognized"@)
            },
            None => r matches Err(m) && m@ == "Soniox transcript format not recognized"@,
        },
{
    if let Some(t) = text {
        return Ok(t);
    }
    if let Some(ts) = tokens {
        let ghost texts = present_texts(ts@);
        let mut out = String::new();
        let mut first = true;
        let mut i: usize = 0;
        while i < ts.len()
            invariant
                i <= ts@.len(),
                out@ == join(present_texts(ts@.take(i as int)), " "@),
                first == (present_texts(ts@.take(i as int)).len() == 0),
            decreases ts@.len() - i,
        {
            assert(ts@.take(i + 1).drop_last() =~= ts@.take(i as int));
            match &ts[i] {
                Some(t) => {
                    if !first {
                        push_str(&mut out, " ");
                    } else {
                        first = false;
                    }
                    push_str(&mut out, t.as_str());
                    proof {
                        let prev = present_texts(ts@.take(i as int));
                        let next = present_texts(ts@.take(i + 1));
                        assert(next == prev.push(t@));
                        if prev.len() == 0 {
                            assert(next.len() == 1);
                            assert(join(prev, " "@) =~= Seq::<char>::empty());
                        } else {
                            assert(next.drop_last() =~= prev);
                        }
                    }
                },
                None => {},
            }
            i = i + 1;
        }
        assert(ts@.take(ts@.len() as int) =~= ts@);
        if out.as_str().is_empty() {
            return Err("Soniox transcript format not recognized".to_owned());
        }
        return Ok(out);
    }
    Err("Soniox transcript format not recognized".to_owned())
}

} // verus!
