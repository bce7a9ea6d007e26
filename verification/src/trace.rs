use vstd::prelude::*;

use crate::events::{clone_opt_string, TraceContext};
use crate::identity::is_lower_hex_char;

verus! {

// ---------------------------------------------------------------------------
// Parsing W3C trace-parent strings.
// ---------------------------------------------------------------------------

/// Parsed trace correlation values: the 128-bit trace id, the 64-bit span
/// id, the flag byte, and the trace state carried alongside.
#[derive(Debug, PartialEq, Eq)]
pub struct SpanContextData {
    pub trace_id: u128,
    pub span_id: u64,
    pub trace_flags: u8,
    pub trace_state: Option<String>,
}

/// The numeric value of one lower-case hexadecimal digit.
pub open spec fn hex_char_val(c: char) -> int {
    if '0' <= c && c <= '9' {
        c as int - '0' as int
    } else {
        c as int - 'a' as int + 10
    }
}

/// The numeric value of a big-endian string of hexadecimal digits.
pub open spec fn hex_val(s: Seq<char>) -> int
    decreases s.len(),
{
    if s.len() == 0 {
        0
    } else {
        hex_val(s.drop_last()) * 16 + hex_char_val(s.last())
    }
}

/// Sixteen to the `k`-th power.
pub open spec fn pow16(k: nat) -> int
    decreases k,
{
    if k == 0 {
        1
    } else {
        16 * pow16((k - 1) as nat)
    }
}

proof fn lemma_pow16_pos(k: nat)
    ensures
        1 <= pow16(k),
    decreases k,
{
    if k > 0 {
        lemma_pow16_pos((k - 1) as nat);
    }
}

proof fn lemma_pow16_mono(a: nat, b: nat)
    requires
        a <= b,
    ensures
        pow16(a) <= pow16(b),
        1 <= pow16(a),
    decreases b,
{
    lemma_pow16_pos(a);
    if a < b {
        lemma_pow16_mono(a, (b - 1) as nat);
    }
}

proof fn lemma_hex_val_bound(s: Seq<char>)
    requires
        forall|i: int| 0 <= i < s.len() ==> is_lower_hex_char(#[trigger] s[i]),
    ensures
        0 <= hex_val(s) < pow16(s.len()),
    decreases s.len(),
{
    if s.len() > 0 {
        assert(forall|i: int|
            0 <= i < s.drop_last().len() ==> s.drop_last()[i] == s[i]);
        lemma_hex_val_bound(s.drop_last());
        assert(is_lower_hex_char(s.last()));
        assert(0 <= hex_char_val(s.last()) < 16);
    }
}

/// The position of the first `-`, or `-1` where there is none.
pub open spec fn first_dash(s: Seq<char>) -> int
    decreases s.len(),
{
    if s.len() == 0 {
        -1
    } else if s[0] == '-' {
        0
    } else {
        let r = first_dash(s.skip(1));
        if r < 0 {
            -1
        } else {
            r + 1
        }
    }
}

proof fn lemma_first_dash_at(s: Seq<char>, j: int)
    requires
        0 <= j < s.len(),
        s[j] == '-',
        forall|k: int| 0 <= k < j ==> s[k] != '-',
    ensures
        first_dash(s) == j,
    decreases j,
{
    if j > 0 {
        assert(s[0] != '-');
        assert(s.skip(1)[j - 1] == '-');
        assert(forall|k: int| 0 <= k < j - 1 ==> s.skip(1)[k] == s[k + 1]);
        lemma_first_dash_at(s.skip(1), j - 1);
    }
}

proof fn lemma_first_dash_none(s: Seq<char>)
    requires
        forall|k: int| 0 <= k < s.len() ==> s[k] != '-',
    ensures
        first_dash(s) == -1,
    decreases s.len(),
{
    if s.len() > 0 {
        assert(forall|k: int| 0 <= k < s.skip(1).len() ==> s.skip(1)[k] == s[k + 1]);
        lemma_first_dash_none(s.skip(1));
    }
}

/// The accepted trace-parent shape: some prefix free of dashes, then a
/// dash, 32 hex digits of trace id, a dash, 16 hex digits of span id, a
/// dash, and one or two hex digits of flags.
pub open spec fn traceparent_ok(s: Seq<char>) -> bool {
    let p1 = first_dash(s);
    &&& 0 <= p1
    &&& p1 + 52 <= s.len() <= p1 + 53
    &&& s[p1 + 33] == '-'
    &&& s[p1 + 50] == '-'
    &&& forall|i: int| p1 + 1 <= i < p1 + 33 ==> is_lower_hex_char(#[trigger] s[i])
    &&& forall|i: int| p1 + 34 <= i < p1 + 50 ==> is_lower_hex_char(#[trigger] s[i])
    &&& forall|i: int| p1 + 51 <= i < s.len() ==> is_lower_hex_char(#[trigger] s[i])
}

/// The trace id a valid trace-parent names.
pub open spec fn spec_tp_trace_id(s: Seq<char>) -> int {
    hex_val(s.subrange(first_dash(s) + 1, first_dash(s) + 33))
}

/// The span id a valid trace-parent names.
pub open spec fn spec_tp_span_id(s: Seq<char>) -> int {
    hex_val(s.subrange(first_dash(s) + 34, first_dash(s) + 50))
}

/// The flag byte a valid trace-parent names.
pub open spec fn spec_tp_flags(s: Seq<char>) -> int {
    hex_val(s.subrange(first_dash(s) + 51, s.len() as int))
}

fn hex_char_value(c: char) -> (v: u8)
    requires
        is_lower_hex_char(c),
    ensures
        v as int == hex_char_val(c),
        v < 16,
{
    let x = c as u32;
    if c <= '9' {
        (x - 48) as u8
    } else {
        (x - 87) as u8
    }
}

fn find_dash(s: &str) -> (r: Option<usize>)
    ensures
        match r {
            Some(j) => first_dash(s@) == j && j < s@.len(),
            None => first_dash(s@) == -1,
        },
{
    let n = s.unicode_len();
    let mut i: usize = 0;
    while i < n
        invariant
            i <= n,
            n == s@.len(),
            forall|k: int| 0 <= k < i ==> s@[k] != '-',
        decreases n - i,
    {
        if s.get_char(i) == '-' {
            proof {
                lemma_first_dash_at(s@, i as int);
            }
            return Some(i);
        }
        i += 1;
    }
    proof {
        lemma_first_dash_none(s@);
    }
    None
}

fn all_lower_hex(s: &str, from: usize, to: usize) -> (r: bool)
    requires
        from <= to <= s@.len(),
    ensures
        r == forall|i: int| from <= i < to ==> is_lower_hex_char(#[trigger] s@[i]),
{
    let mut i: usize = from;
    while i < to
        invariant
            from <= i <= to,
            to <= s@.len(),
            forall|k: int| from <= k < i ==> is_lower_hex_char(#[trigger] s@[k]),
        decreases to - i,
    {
        let c = s.get_char(i);
        if !(('0' <= c && c <= '9') || ('a' <= c && c <= 'f')) {
            proof {
                assert(!is_lower_hex_char(s@[i as int]));
            }
            return false;
        }
        i += 1;
    }
    true
}

#[verifier::loop_isolation(false)]
fn parse_hex_u128(s: &str, from: usize, to: usize) -> (v: u128)
    requires
        from <= to <= s@.len(),
        to - from <= 32,
        s@.len() <= usize::MAX,
        forall|i: int| from <= i < to ==> is_lower_hex_char(#[trigger] s@[i]),
    ensures
        v as int == hex_val(s@.subrange(from as int, to as int)),
{
    proof {
        assert(pow16(32) == 0x100000000000000000000000000000000) by {
            reveal_with_fuel(pow16, 33);
        }
    }
    let mut acc: u128 = 0;
    let mut i: usize = from;
    proof {
        assert(s@.subrange(from as int, from as int) =~= Seq::<char>::empty());
    }
    while i < to
        invariant
            from <= i <= to,
            acc as int == hex_val(s@.subrange(from as int, i as int)),
        decreases to - i,
    {
        let c = s.get_char(i);
        let d = hex_char_value(c);
        proof {
            let part = s@.subrange(from as int, i + 1 as int);
            assert(part.drop_last() =~= s@.subrange(from as int, i as int));
            assert(part.last() == s@[i as int]);
            assert(forall|k: int| 0 <= k < part.len() ==> part[k] == s@[from + k]);
            lemma_hex_val_bound(part);
            lemma_pow16_mono(part.len(), 32);
        }
        acc = acc * 16 + (d as u128);
        i += 1;
    }
    acc
}

/// Parses the trace-parent of a trace context into its numeric parts,
/// keeping the trace state alongside; any string outside the accepted
/// shape, including the older form whose trace id stands alone in the
/// field, is a parse error.
pub fn span_context_from_trace_context(tc: &TraceContext) -> (r: Result<SpanContextData, ()>)
    ensures
        match r {
            Ok(sc) => {
                &&& traceparent_ok(tc.trace_parent@)
                &&& sc.trace_id as int == spec_tp_trace_id(tc.trace_parent@)
                &&& sc.span_id as int == spec_tp_span_id(tc.trace_parent@)
                &&& sc.trace_flags as int == spec_tp_flags(tc.trace_parent@)
                &&& sc.trace_state == tc.trace_state
            },
            Err(()) => !traceparent_ok(tc.trace_parent@),
        },
{
    let s = tc.trace_parent.as_str();
    let n = s.unicode_len();
    let p1 = match find_dash(s) {
        Some(j) => j,
        None => {
            return Err(());
        },
    };
    let rest = n - p1;
    if !(52 <= rest && rest <= 53) {
        return Err(());
    }
    if s.get_char(p1 + 33) != '-' {
        return Err(());
    }
    if s.get_char(p1 + 50) != '-' {
        return Err(());
    }
    if !all_lower_hex(s, p1 + 1, p1 + 33) {
        return Err(());
    }
    if !all_lower_hex(s, p1 + 34, p1 + 50) {
        return Err(());
    }
    if !all_lower_hex(s, p1 + 51, n) {
        return Err(());
    }
    let trace_id = parse_hex_u128(s, p1 + 1, p1 + 33);
    let span_id_wide = parse_hex_u128(s, p1 + 34, p1 + 50);
    let flags_wide = parse_hex_u128(s, p1 + 51, n);
    proof {
        lemma_hex_val_bound(s@.subrange(p1 + 34 as int, p1 + 50 as int));
        lemma_hex_val_bound(s@.subrange(p1 + 51 as int, n as int));
        lemma_pow16_mono((n - (p1 + 51)) as nat, 2);
        assert(pow16(16) == 0x10000000000000000) by {
            reveal_with_fuel(pow16, 33);
        }
        assert(pow16(2) == 256) by {
            reveal_with_fuel(pow16, 33);
        }
    }
    let span_id = span_id_wide as u64;
    let trace_flags = flags_wide as u8;
    Ok(
        SpanContextData {
            trace_id: trace_id,
            span_id: span_id,
            trace_flags: trace_flags,
            trace_state: clone_opt_string(&tc.trace_state),
        },
    )
}

} // verus!

use crate::strutil::{append_hex_digit, dec_seq, push_dec_u64};

verus! {

// ---------------------------------------------------------------------------
// Printing trace-parent strings.
// ---------------------------------------------------------------------------

/// Exactly `w` hexadecimal digits of `n`, most significant first, with
/// leading zeros.
pub open spec fn hex_fixed_seq(n: int, w: nat) -> Seq<char>
    decreases w,
{
    if w == 0 {
        Seq::empty()
    } else {
        hex_fixed_seq(n / 16, (w - 1) as nat).push(crate::strutil::hex_digit(n % 16))
    }
}

fn push_hex_fixed(s: &mut String, v: u128, w: usize)
    ensures
        final(s)@ == old(s)@ + hex_fixed_seq(v as int, w as nat),
    decreases w,
{
    if w == 0 {
        proof {
            assert(s@ =~= old(s)@ + hex_fixed_seq(v as int, 0));
        }
    } else {
        push_hex_fixed(s, v / 16, w - 1);
        append_hex_digit(s, (v % 16) as u64);
        proof {
            assert(s@ =~= old(s)@ + hex_fixed_seq(v as int, w as nat));
        }
    }
}

/// The trace-parent line for the given correlation values: a `00` version
/// prefix, the trace id as 32 hex digits, the span id as 16 hex digits, and
/// the flag byte in decimal, joined by dashes.
pub open spec fn spec_trace_parent_string(trace_id: int, span_id: int, flags: int) -> Seq<char> {
    "00-"@ + hex_fixed_seq(trace_id, 32) + "-"@ + hex_fixed_seq(span_id, 16) + "-"@ + dec_seq(
        flags,
    )
}

/// Prints the trace-parent line for the given correlation values.
pub fn format_trace_parent(trace_id: u128, span_id: u64, flags: u8) -> (r: String)
    ensures
        r@ == spec_trace_parent_string(trace_id as int, span_id as int, flags as int),
{
    let mut s = String::from_str("00-");
    push_hex_fixed(&mut s, trace_id, 32);
    s.append("-");
    push_hex_fixed(&mut s, span_id as u128, 16);
    s.append("-");
    push_dec_u64(&mut s, flags as u64);
    proof {
        assert(s@ =~= spec_trace_parent_string(trace_id as int, span_id as int, flags as int));
    }
    s
}

/// Reading back a fixed-width hexadecimal print recovers the number, for
/// any number the width can hold.
pub proof fn lemma_hex_fixed_round_trip(n: int, w: nat)
    requires
        0 <= n < pow16(w),
    ensures
        hex_val(hex_fixed_seq(n, w)) == n,
    decreases w,
{
    if w == 0 {
    } else {
        let s = hex_fixed_seq(n, w);
        assert(s.drop_last() =~= hex_fixed_seq(n / 16, (w - 1) as nat));
        assert(n / 16 < pow16((w - 1) as nat)) by {
            assert(pow16(w) == 16 * pow16((w - 1) as nat));
        }
        lemma_hex_fixed_round_trip(n / 16, (w - 1) as nat);
        assert(hex_char_val(crate::strutil::hex_digit(n % 16)) == n % 16);
    }
}

} // verus!
