//! Derivation of per-connection pipe paths from an identifier.
//!
//! A connection keyed by identifier `id` uses the two paths
//! `<base>-read.<id>` and `<base>-write.<id>`, with `<id>` rendered in
//! decimal. The naming is from the sender's perspective: the sender
//! reads replies on the read path and writes requests on the write
//! path; the listener opens the same two paths with the I/O directions
//! swapped. Distinct identifiers never share a path, which is what
//! keeps concurrent connections off each other's data.

use vstd::prelude::*;
use vstd::string::StringExecFns;

verus! {

/// The decimal digit character of `d`, for `d < 10`.
pub open spec fn digit_char(d: nat) -> char {
    if d == 0 {
        '0'
    } else if d == 1 {
        '1'
    } else if d == 2 {
        '2'
    } else if d == 3 {
        '3'
    } else if d == 4 {
        '4'
    } else if d == 5 {
        '5'
    } else if d == 6 {
        '6'
    } else if d == 7 {
        '7'
    } else if d == 8 {
        '8'
    } else {
        '9'
    }
}

/// The decimal rendering of `n`, most significant digit first, with no
/// leading zeros (zero itself renders as the single digit `0`).
pub open spec fn dec_rep(n: nat) -> Seq<char>
    decreases n,
{
    if n < 10 {
        seq![digit_char(n)]
    } else {
        dec_rep(n / 10).push(digit_char(n % 10))
    }
}

/// The characters between the base and the identifier in a read path.
pub open spec fn read_marker() -> Seq<char> {
    seq!['-', 'r', 'e', 'a', 'd', '.']
}

/// The characters between the base and the identifier in a write path.
pub open spec fn write_marker() -> Seq<char> {
    seq!['-', 'w', 'r', 'i', 't', 'e', '.']
}

/// The path of the pipe that the sender of connection `id` reads from.
pub open spec fn spec_read_path(base: Seq<char>, id: nat) -> Seq<char> {
    base + read_marker() + dec_rep(id)
}

/// The path of the pipe that the sender of connection `id` writes to.
pub open spec fn spec_write_path(base: Seq<char>, id: nat) -> Seq<char> {
    base + write_marker() + dec_rep(id)
}

/// The one-character string of the decimal digit `d`.
fn digit_str(d: u32) -> (r: &'static str)
    requires
        d < 10,
    ensures
        r@ == seq![digit_char(d as nat)],
{
    let r: &'static str = if d == 0 {
        "0"
    } else if d == 1 {
        "1"
    } else if d == 2 {
        "2"
    } else if d == 3 {
        "3"
    } else if d == 4 {
        "4"
    } else if d == 5 {
        "5"
    } else if d == 6 {
        "6"
    } else if d == 7 {
        "7"
    } else if d == 8 {
        "8"
    } else {
        "9"
    };
    proof {
        reveal_strlit("0");
        reveal_strlit("1");
        reveal_strlit("2");
        reveal_strlit("3");
        reveal_strlit("4");
        reveal_strlit("5");
        reveal_strlit("6");
        reveal_strlit("7");
        reveal_strlit("8");
        reveal_strlit("9");
        assert(r@ =~= seq![digit_char(d as nat)]);
    }
    r
}

/// Renders an identifier in decimal, as it appears in pipe paths.
pub fn u32_to_decimal(n: u32) -> (s: String)
    ensures
        s@ == dec_rep(n as nat),
    decreases n,
{
    if n < 10 {
        digit_str(n).to_owned()
    } else {
        let mut s = u32_to_decimal(n / 10);
        s.append(digit_str(n % 10));
        proof {
            assert(s@ =~= dec_rep(n as nat));
        }
        s
    }
}

/// Builds the read path of connection `id` under `base`.
pub fn read_path(base: &str, id: u32) -> (s: String)
    ensures
        s@ == spec_read_path(base@, id as nat),
{
    let mut s = base.to_owned();
    s.append("-read.");
    let d = u32_to_decimal(id);
    s.append(d.as_str());
    proof {
        reveal_strlit("-read.");
        assert("-read."@ =~= read_marker());
        assert(s@ =~= spec_read_path(base@, id as nat));
    }
    s
}

/// Builds the write path of connection `id` under `base`.
pub fn write_path(base: &str, id: u32) -> (s: String)
    ensures
        s@ == spec_write_path(base@, id as nat),
{
    let mut s = base.to_owned();
    s.append("-write.");
    let d = u32_to_decimal(id);
    s.append(d.as_str());
    proof {
        reveal_strlit("-write.");
        assert("-write."@ =~= write_marker());
        assert(s@ =~= spec_write_path(base@, id as nat));
    }
    s
}

/// Distinct digits render as distinct characters.
proof fn lemma_digit_char_injective(a: nat, b: nat)
    requires
        a < 10,
        b < 10,
        digit_char(a) == digit_char(b),
    ensures
        a == b,
{
}

/// A decimal rendering holds at least one digit, and at least two for
/// numbers of two digits.
proof fn lemma_dec_rep_len(n: nat)
    ensures
        dec_rep(n).len() >= 1,
        n >= 10 ==> dec_rep(n).len() >= 2,
    decreases n,
{
    if n >= 10 {
        lemma_dec_rep_len(n / 10);
    }
}

/// Distinct numbers have distinct decimal renderings.
pub proof fn lemma_dec_rep_injective(a: nat, b: nat)
    requires
        dec_rep(a) == dec_rep(b),
    ensures
        a == b,
    decreases a,
{
    lemma_dec_rep_len(a);
    lemma_dec_rep_len(b);
    if a < 10 && b < 10 {
        assert(dec_rep(a)[0] == digit_char(a));
        assert(dec_rep(b)[0] == digit_char(b));
        assert(dec_rep(a)[0] == dec_rep(b)[0]);
        lemma_digit_char_injective(a, b);
    } else if a < 10 || b < 10 {
        assert(dec_rep(a).len() != dec_rep(b).len());
    } else {
        assert(dec_rep(a).last() == digit_char(a % 10));
        assert(dec_rep(b).last() == digit_char(b % 10));
        lemma_digit_char_injective(a % 10, b % 10);
        assert(dec_rep(a).drop_last() =~= dec_rep(a / 10));
        assert(dec_rep(b).drop_last() =~= dec_rep(b / 10));
        lemma_dec_rep_injective(a / 10, b / 10);
    }
}

/// Concurrent connections do not share pipes. Paths keyed by distinct
/// identifiers are distinct, and a read path never coincides with a
/// write path, whatever the identifiers: the four paths of two
/// connections with distinct identifiers are pairwise distinct.
pub proof fn lemma_paths_disjoint(base: Seq<char>, a: nat, b: nat)
    ensures
        a != b ==> spec_read_path(base, a) != spec_read_path(base, b),
        a != b ==> spec_write_path(base, a) != spec_write_path(base, b),
        spec_read_path(base, a) != spec_write_path(base, b),
{
    let k = base.len() as int;
    if spec_read_path(base, a) == spec_read_path(base, b) {
        assert(dec_rep(a) =~= spec_read_path(base, a).subrange(
            k + 6,
            spec_read_path(base, a).len() as int,
        ));
        assert(dec_rep(b) =~= spec_read_path(base, b).subrange(
            k + 6,
            spec_read_path(base, b).len() as int,
        ));
        lemma_dec_rep_injective(a, b);
    }
    if spec_write_path(base, a) == spec_write_path(base, b) {
        assert(dec_rep(a) =~= spec_write_path(base, a).subrange(
            k + 7,
            spec_write_path(base, a).len() as int,
        ));
        assert(dec_rep(b) =~= spec_write_path(base, b).subrange(
            k + 7,
            spec_write_path(base, b).len() as int,
        ));
        lemma_dec_rep_injective(a, b);
    }
    assert(spec_read_path(base, a)[k + 1] == 'r');
    assert(spec_write_path(base, b)[k + 1] == 'w');
}

} // verus!
