use vstd::prelude::*;

use crate::record::{decoded, header_row, FilePermission};
use crate::triple::{parse_symbols, subject_row};

verus! {

/// Decoding is deterministic and reads only the nine permission bits: the
/// same mode integer, or two that differ only outside those bits, decode to
/// identical triples.
pub proof fn lemma_decode_deterministic(m: u32, n: u32)
    requires
        m & 0o777 == n & 0o777,
    ensures
        decoded(m) == decoded(n),
{
    assert(m & 0o400 == 0 <==> n & 0o400 == 0) by (bit_vector)
        requires
            m & 0o777 == n & 0o777,
    ;
    assert(m & 0o200 == 0 <==> n & 0o200 == 0) by (bit_vector)
        requires
            m & 0o777 == n & 0o777,
    ;
    assert(m & 0o100 == 0 <==> n & 0o100 == 0) by (bit_vector)
        requires
            m & 0o777 == n & 0o777,
    ;
    assert(m & 0o040 == 0 <==> n & 0o040 == 0) by (bit_vector)
        requires
            m & 0o777 == n & 0o777,
    ;
    assert(m & 0o020 == 0 <==> n & 0o020 == 0) by (bit_vector)
        requires
            m & 0o777 == n & 0o777,
    ;
    assert(m & 0o010 == 0 <==> n & 0o010 == 0) by (bit_vector)
        requires
            m & 0o777 == n & 0o777,
    ;
    assert(m & 0o004 == 0 <==> n & 0o004 == 0) by (bit_vector)
        requires
            m & 0o777 == n & 0o777,
    ;
    assert(m & 0o002 == 0 <==> n & 0o002 == 0) by (bit_vector)
        requires
            m & 0o777 == n & 0o777,
    ;
    assert(m & 0o001 == 0 <==> n & 0o001 == 0) by (bit_vector)
        requires
            m & 0o777 == n & 0o777,
    ;
}

/// Both ways of building triples keep the octal digit in sync with the
/// flags: it is 4 for read plus 2 for write plus 1 for execute, whether the
/// triple was decoded from a mode integer or parsed from symbolic tokens.
pub proof fn lemma_octal_digit_in_sync(m: u32, toks: Seq<Seq<char>>)
    ensures
        decoded(m).0.wf(),
        decoded(m).1.wf(),
        decoded(m).2.wf(),
        parse_symbols(toks).wf(),
        parse_symbols(toks).octal_num <= 7,
{
}

/// Symbol parsing ignores order and repetition: two token lists that hold
/// the same tokens give the same triple.
pub proof fn lemma_symbols_ignore_order(a: Seq<Seq<char>>, b: Seq<Seq<char>>)
    requires
        forall|t: Seq<char>| a.contains(t) <==> b.contains(t),
    ensures
        parse_symbols(a) == parse_symbols(b),
{
    assert(a.contains(seq!['r']) == b.contains(seq!['r']));
    assert(a.contains(seq!['w']) == b.contains(seq!['w']));
    assert(a.contains(seq!['e']) == b.contains(seq!['e']));
}

/// Where at least one subject is requested, the table view and the
/// unix-style view show exactly the requested subjects and no others.
pub proof fn lemma_only_requested_subjects(f: FilePermission, user: bool, group: bool, other: bool)
    requires
        user || group || other,
    ensures
        f.unix_spec(user, group, other) == seq![f.kind_char()] + (if user {
            f.user.raw_spec()
        } else {
            seq![]
        }) + (if group {
            f.group.raw_spec()
        } else {
            seq![]
        }) + (if other {
            f.other.raw_spec()
        } else {
            seq![]
        }) + seq![' ', ' ', ' '],
        f.table_spec(user, group, other) == seq![header_row(), f.summary_row()] + (if user {
            seq![subject_row("User"@, f.user)]
        } else {
            seq![]
        }) + (if group {
            seq![subject_row("Group"@, f.group)]
        } else {
            seq![]
        }) + (if other {
            seq![subject_row("Other"@, f.other)]
        } else {
            seq![]
        }),
{
}

} // verus!
