//! Responses: the status line that the transport appends to a body, the
//! status check, and the latest sample of a heart-rate series.
use vstd::prelude::*;
use crate::fetch::{FitbitRequestError, STATUS_NONE};
use vstd::slice::{slice_subrange, slice_to_vec};
use vstd::string::*;

verus! {

/// The separator between the body and the status line.
pub const NEWLINE: u8 = 10;

/// The last sample of a series, `None` where the series is empty.
pub open spec fn latest_of(dataset: Seq<u32>) -> Option<u32> {
    if dataset.len() == 0 {
        None
    } else {
        Some(dataset.last())
    }
}

/// The latest reading of a heart-rate series: the value of its last sample,
/// `None` for an empty series.
pub fn latest_rate(dataset: &Vec<u32>) -> (r: Option<u32>)
    ensures
        r == latest_of(dataset@),
{
    let n = dataset.len();
    if n == 0 {
        None
    } else {
        Some(dataset[n - 1])
    }
}

/// Whether a status reports a failure.
pub open spec fn is_failure_status(status: u16) -> bool {
    status >= 400
}

/// `Ok` for a success status, else an error that carries the status.
pub fn check_status(status: u16) -> (r: Result<(), FitbitRequestError>)
    ensures
        r is Ok <==> !is_failure_status(status),
        r is Err ==> r->Err_0.status == status,
{
    if status >= 400 {
        Err(FitbitRequestError::new(status, String::from_str("request failed")))
    } else {
        Ok(())
    }
}

/// Whether every byte is an ASCII digit.
pub open spec fn all_digits(s: Seq<u8>) -> bool {
    forall|i: int| 0 <= i < s.len() ==> 48 <= #[trigger] s[i] <= 57
}

/// The number that a run of ASCII digits writes in decimal.
pub open spec fn decimal_value(s: Seq<u8>) -> nat
    decreases s.len(),
{
    if s.len() == 0 {
        0
    } else {
        decimal_value(s.drop_last()) * 10 + (s.last() - 48) as nat
    }
}

/// The digits of a status text: all of it, or what follows one leading `+`.
pub open spec fn unsigned_digits(s: Seq<u8>) -> Seq<u8> {
    if s.len() > 0 && s[0] == 43 {
        s.subrange(1, s.len() as int)
    } else {
        s
    }
}

/// The status that a status text writes: at least one digit after an optional
/// `+`, with a value that fits 16 bits.
pub open spec fn status_value(s: Seq<u8>) -> Option<u16> {
    let d = unsigned_digits(s);
    if d.len() > 0 && all_digits(d) && decimal_value(d) <= u16::MAX {
        Some(decimal_value(d) as u16)
    } else {
        None
    }
}

/// The index of the last newline, where there is one.
pub open spec fn last_newline(s: Seq<u8>) -> Option<int>
    decreases s.len(),
{
    if s.len() == 0 {
        None
    } else if s.last() == NEWLINE {
        Some(s.len() - 1)
    } else {
        last_newline(s.drop_last())
    }
}

/// The body (all before the last newline) and the status text (all after it).
pub open spec fn split_output(s: Seq<u8>) -> (Seq<u8>, Seq<u8>) {
    match last_newline(s) {
        Some(k) => (s.subrange(0, k), s.subrange(k + 1, s.len() as int)),
        None => (Seq::empty(), s),
    }
}

proof fn lemma_last_newline_bounds(s: Seq<u8>)
    ensures
        last_newline(s) is Some ==> 0 <= last_newline(s)->0 < s.len(),
    decreases s.len(),
{
    if s.len() > 0 && s.last() != NEWLINE {
        lemma_last_newline_bounds(s.drop_last());
    }
}

/// Splits what the transport wrote into the body and the status text after
/// the last newline.
pub fn split_status_line(out: &[u8]) -> (r: (Vec<u8>, Vec<u8>))
    ensures
        (r.0@, r.1@) == split_output(out@),
{
    let n = out.len();
    let mut i: usize = n;
    assert(out@.subrange(0, n as int) =~= out@);
    while i > 0
        invariant
            i <= n == out@.len(),
            last_newline(out@) == last_newline(out@.subrange(0, i as int)),
        decreases i,
    {
        assert(out@.subrange(0, i as int).drop_last() =~= out@.subrange(0, i - 1));
        if out[i - 1] == NEWLINE {
            proof {
                lemma_last_newline_bounds(out@);
            }
            let body = slice_to_vec(slice_subrange(out, 0, i - 1));
            let status = slice_to_vec(slice_subrange(out, i, n));
            return (body, status);
        }
        i = i - 1;
    }
    assert(out@.subrange(0, 0) =~= Seq::<u8>::empty());
    (Vec::new(), slice_to_vec(out))
}

/// Reads what the transport wrote: the status after the last newline and the
/// body before it; an error (with no status) where the status text is not a
/// 16-bit number.
pub fn read_output(out: &[u8]) -> (r: Result<(u16, Vec<u8>), FitbitRequestError>)
    ensures
        match status_value(split_output(out@).1) {
            Some(v) => r is Ok && r->Ok_0.0 == v && r->Ok_0.1@ == split_output(out@).0,
            None => r is Err && r->Err_0.status == STATUS_NONE,
        },
{
    let (body, status_text) = split_status_line(out);
    match parse_status(status_text.as_slice()) {
        Ok(status) => Ok((status, body)),
        Err(e) => Err(e),
    }
}

proof fn lemma_prefix_value(s: Seq<u8>, k: int)
    requires
        0 <= k <= s.len(),
        all_digits(s),
    ensures
        decimal_value(s.subrange(0, k)) <= decimal_value(s),
    decreases s.len(),
{
    if k < s.len() {
        lemma_prefix_value(s.drop_last(), k);
        assert(s.drop_last().subrange(0, k) =~= s.subrange(0, k));
    } else {
        assert(s.subrange(0, k) =~= s);
    }
}

/// The status that a status text writes, or an error where it writes none.
pub fn parse_status(text: &[u8]) -> (r: Result<u16, FitbitRequestError>)
    ensures
        match status_value(text@) {
            Some(v) => r == Ok::<u16, FitbitRequestError>(v),
            None => r is Err && r->Err_0.status == STATUS_NONE,
        },
{
    let n = text.len();
    let start: usize = if n > 0 && text[0] == 43 {
        1
    } else {
        0
    };
    let ghost d = unsigned_digits(text@);
    assert(d =~= text@.subrange(start as int, n as int));
    if start == n {
        return Err(FitbitRequestError::new(STATUS_NONE, String::from_str("invalid status")));
    }
    let mut value: u32 = 0;
    let mut i: usize = start;
    while i < n
        invariant
            start <= i <= n,
            n == text@.len(),
            d == unsigned_digits(text@),
            d =~= text@.subrange(start as int, n as int),
            all_digits(d.subrange(0, i - start)),
            value as nat == decimal_value(d.subrange(0, i - start)),
            value <= u16::MAX,
        decreases n - i,
    {
        let b = text[i];
        assert(d.subrange(0, i + 1 - start).drop_last() =~= d.subrange(0, i - start));
        if b < 48 || b > 57 {
            assert(d[i - start] == b);
            assert(!all_digits(d));
            return Err(FitbitRequestError::new(STATUS_NONE, String::from_str("invalid status")));
        }
        let next = value * 10 + (b - 48) as u32;
        if next > 65535 {
            proof {
                if all_digits(d) {
                    lemma_prefix_value(d, i + 1 - start);
                }
            }
            return Err(FitbitRequestError::new(STATUS_NONE, String::from_str("invalid status")));
        }
        value = next;
        i = i + 1;
    }
    assert(d.subrange(0, n - start) =~= d);
    Ok(value as u16)
}

} // verus!
