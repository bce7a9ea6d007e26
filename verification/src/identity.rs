use vstd::prelude::*;

use crate::strutil::{dec_seq, push_dec_u64};

verus! {

// ---------------------------------------------------------------------------
// Fresh execution ids.
// ---------------------------------------------------------------------------

/// Whether `c` is a lower-case hexadecimal digit.
pub open spec fn is_lower_hex_char(c: char) -> bool {
    ('0' <= c && c <= '9') || ('a' <= c && c <= 'f')
}

/// The shape of a hyphenated UUID: 36 characters, hyphens at positions 8,
/// 13, 18 and 23, lower-case hexadecimal digits everywhere else.
pub open spec fn uuid_shape(s: Seq<char>) -> bool {
    &&& s.len() == 36
    &&& forall|i: int| #![trigger s[i]]
        0 <= i < 36 ==> (if i == 8 || i == 13 || i == 18 || i == 23 {
            s[i] == '-'
        } else {
            is_lower_hex_char(s[i])
        })
}

/// Relies on uuid's `Uuid::new_v4` and its `Display` impl: the hyphenated
/// form is 36 characters of lower-case hex with hyphens at positions 8, 13,
/// 18 and 23.
#[verifier::external_body]
pub fn fresh_execution_id() -> (r: String)
    ensures
        uuid_shape(r@),
{
    uuid::Uuid::new_v4().to_string()
}

// ---------------------------------------------------------------------------
// Host identity.
// ---------------------------------------------------------------------------

/// Relies on gethostname's `gethostname` for the machine's node name; the
/// name falls back to `unknown` where it is not valid Unicode.
#[verifier::external_body]
pub fn hostname_string() -> (r: String) {
    gethostname::gethostname().into_string().unwrap_or(String::from("unknown"))
}

/// The worker name built from a host name, a process id and a fresh UUID,
/// separated by commas.
pub open spec fn worker_name_seq(host: Seq<char>, pid: int, id: Seq<char>) -> Seq<char> {
    host + ","@ + dec_seq(pid) + ","@ + id
}

/// Builds the worker name `{host},{pid},{uuid}` from its three parts.
pub fn worker_name_from_parts(host: String, pid: u32, id: &str) -> (r: String)
    ensures
        r@ == worker_name_seq(host@, pid as int, id@),
{
    let ghost host_view = host@;
    let mut s = host;
    s.append(",");
    push_dec_u64(&mut s, pid as u64);
    s.append(",");
    s.append(id);
    proof {
        assert(s@ =~= worker_name_seq(host_view, pid as int, id@));
    }
    s
}

/// The default worker identity for the given process id: the machine's host
/// name, the process id and a fresh UUID, separated by commas.
pub fn get_default_worker_name(pid: u32) -> (r: String)
    ensures
        exists|host: Seq<char>, id: Seq<char>|
            r@ == worker_name_seq(host, pid as int, id) && uuid_shape(id),
{
    let host = hostname_string();
    let ghost host_view = host@;
    let id = fresh_execution_id();
    let r = worker_name_from_parts(host, pid, id.as_str());
    proof {
        assert(r@ == worker_name_seq(host_view, pid as int, id@) && uuid_shape(id@));
    }
    r
}

} // verus!

verus! {

/// Whether `c` is a decimal digit.
pub open spec fn is_dec_digit_char(c: char) -> bool {
    '0' <= c && c <= '9'
}

/// The decimal form of a non-negative number is non-empty and consists of
/// digits alone.
pub proof fn lemma_dec_seq_digits(n: int)
    requires
        n >= 0,
    ensures
        dec_seq(n).len() > 0,
        forall|i: int| 0 <= i < dec_seq(n).len() ==> is_dec_digit_char(#[trigger] dec_seq(n)[i]),
    decreases n,
{
    if n >= 10 {
        lemma_dec_seq_digits(n / 10);
        assert(forall|i: int|
            0 <= i < dec_seq(n / 10).len() ==> dec_seq(n)[i] == dec_seq(n / 10)[i]);
        assert(dec_seq(n).last() == crate::strutil::dec_digit(n % 10));
    }
}

/// The shape of a well-formed worker name: a non-empty comma-free host
/// part, a comma, a non-empty run of decimal digits, a comma, and a
/// hyphenated UUID.
pub open spec fn worker_name_shape(s: Seq<char>) -> bool {
    exists|host: Seq<char>, digits: Seq<char>, id: Seq<char>|
        {
            &&& s == #[trigger] worker_name_seq_parts(host, digits, id)
            &&& host.len() > 0
            &&& (forall|i: int| 0 <= i < host.len() ==> host[i] != ',')
            &&& digits.len() > 0
            &&& (forall|i: int| 0 <= i < digits.len() ==> is_dec_digit_char(#[trigger] digits[i]))
            &&& uuid_shape(id)
        }
}

/// The three parts of a worker name joined by commas.
pub open spec fn worker_name_seq_parts(host: Seq<char>, digits: Seq<char>, id: Seq<char>) -> Seq<
    char,
> {
    host + ","@ + digits + ","@ + id
}

/// A worker name built from a non-empty, comma-free host name, any process
/// id and a hyphenated UUID has the worker-name shape.
pub proof fn lemma_worker_name_shape(host: Seq<char>, pid: int, id: Seq<char>)
    requires
        host.len() > 0,
        forall|i: int| 0 <= i < host.len() ==> host[i] != ',',
        pid >= 0,
        uuid_shape(id),
    ensures
        worker_name_shape(worker_name_seq(host, pid, id)),
{
    lemma_dec_seq_digits(pid);
    assert(worker_name_seq(host, pid, id) == worker_name_seq_parts(host, dec_seq(pid), id));
}

} // verus!
