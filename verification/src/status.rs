//! Translating the reaped child's wait status into the exit code this tool
//! propagates, and tidying the platform's description of a fatal signal.
//!
//! The wait status is an OS-encoded integer; the platform's own decoders
//! are used to take it apart, each behind a trusted declaration whose
//! contract restates what the decoder's source computes. The signal
//! description comes from the platform as free-form text; only its shaping
//! is logic of this library — the lookup itself stays with the binary.

use vstd::prelude::*;

verus! {

/// The status is an ordinary exit: its low seven bits are zero.
pub open spec fn wait_exited(status: i32) -> bool {
    status & 0x7f == 0
}

/// The exit code an ordinary exit carries: the second byte of the status.
pub open spec fn wait_exit_code(status: i32) -> i32 {
    (status >> 8) & 0xff
}

/// The status says a signal terminated the child: the low seven bits hold
/// a signal number, not the zero of an exit and not the stop marker.
pub open spec fn wait_signaled(status: i32) -> bool {
    1 <= (status & 0x7f) <= 126
}

/// The terminating signal's number: the low seven bits of the status.
pub open spec fn wait_termsig(status: i32) -> i32 {
    status & 0x7f
}

/// Relies on libc::WIFEXITED (Linux): the status is an ordinary exit
/// exactly when `status & 0x7f == 0`.
#[verifier::external_body]
fn wifexited(status: i32) -> (r: bool)
    ensures
        r == wait_exited(status),
{
    libc::WIFEXITED(status)
}

/// Relies on libc::WEXITSTATUS (Linux): the exit code of an ordinary exit
/// is `(status >> 8) & 0xff`.
#[verifier::external_body]
fn wexitstatus(status: i32) -> (r: i32)
    ensures
        r == wait_exit_code(status),
{
    libc::WEXITSTATUS(status)
}

/// Relies on libc::WIFSIGNALED (Linux): `((status & 0x7f) + 1) as i8 >= 2`,
/// which holds exactly when the low seven bits are between 1 and 126.
#[verifier::external_body]
fn wifsignaled(status: i32) -> (r: bool)
    ensures
        r == wait_signaled(status),
{
    libc::WIFSIGNALED(status)
}

/// Relies on libc::WTERMSIG (Linux): the terminating signal's number is
/// `status & 0x7f`.
#[verifier::external_body]
fn wtermsig(status: i32) -> (r: i32)
    ensures
        r == wait_termsig(status),
{
    libc::WTERMSIG(status)
}

/// The exit code the tool reports for a child's wait status: the child's
/// own code when it exited, 128 plus the signal number when a signal killed
/// it, and a sentinel failure code for any other status shape.
pub open spec fn spec_exit_code(status: i32) -> int {
    if wait_exited(status) {
        wait_exit_code(status) as int
    } else if wait_signaled(status) {
        128 + wait_termsig(status)
    } else {
        -1
    }
}

/// Translates the wait status of the reaped child into the exit code this
/// tool propagates, exactly as [`spec_exit_code`] says.
pub fn exit_code_for_status(status: i32) -> (r: i32)
    ensures
        r == spec_exit_code(status),
{
    if wifexited(status) {
        wexitstatus(status)
    } else if wifsignaled(status) {
        let sig = wtermsig(status);
        proof {
            assert(0 <= status & 0x7f <= 127) by (bit_vector);
        }
        128 + sig
    } else {
        -1
    }
}

/// The pattern `pat` occurs in `s` starting at position `i`.
pub open spec fn has_sub_at(s: Seq<u8>, pat: Seq<u8>, i: int) -> bool {
    0 <= i && i + pat.len() <= s.len() && s.subrange(i, i + pat.len()) == pat
}

/// The pattern `pat` occurs somewhere in `s`.
pub open spec fn contains_sub(s: Seq<u8>, pat: Seq<u8>) -> bool {
    exists|i: int| has_sub_at(s, pat, i)
}

/// Position `i` is the first occurrence of `pat` in `s`.
pub open spec fn first_sub_at(s: Seq<u8>, pat: Seq<u8>, i: int) -> bool {
    has_sub_at(s, pat, i) && forall|j: int| 0 <= j < i ==> !has_sub_at(s, pat, j)
}

/// The position of the first occurrence of `pat` in `s` (meaningful only
/// when `s` contains `pat`).
pub open spec fn first_sub_index(s: Seq<u8>, pat: Seq<u8>) -> int {
    choose|i: int| first_sub_at(s, pat, i)
}

/// A first occurrence is unique.
proof fn lemma_first_sub_unique(s: Seq<u8>, pat: Seq<u8>, i1: int, i2: int)
    requires
        first_sub_at(s, pat, i1),
        first_sub_at(s, pat, i2),
    ensures
        i1 == i2,
{
}

/// Finds the first occurrence of `pat` in `hay`.
fn find_sub(hay: &Vec<u8>, pat: &Vec<u8>) -> (r: Option<usize>)
    requires
        pat@.len() >= 1,
    ensures
        r matches Some(i) ==> first_sub_at(hay@, pat@, i as int),
        r is None ==> !contains_sub(hay@, pat@),
{
    if pat.len() > hay.len() {
        proof {
            if contains_sub(hay@, pat@) {
                let i = choose|i: int| has_sub_at(hay@, pat@, i);
            }
        }
        return None;
    }
    let end = hay.len() - pat.len();
    let mut i: usize = 0;
    while i <= end
        invariant
            pat@.len() >= 1,
            pat@.len() <= hay@.len(),
            hay@.len() <= usize::MAX,
            end == hay@.len() - pat@.len(),
            i <= end + 1,
            forall|j: int| 0 <= j < i ==> !has_sub_at(hay@, pat@, j),
        decreases end + 1 - i,
    {
        let mut j: usize = 0;
        let mut ok = true;
        while ok && j < pat.len()
            invariant
                pat@.len() >= 1,
                i + pat@.len() <= hay@.len(),
                hay@.len() <= usize::MAX,
                j <= pat@.len(),
                ok ==> forall|k: int| 0 <= k < j ==> hay@[i + k] == pat@[k],
                !ok ==> !has_sub_at(hay@, pat@, i as int),
            decreases pat@.len() - j + (if ok {
                1int
            } else {
                0int
            }),
        {
            if hay[i + j] == pat[j] {
                j = j + 1;
            } else {
                proof {
                    if has_sub_at(hay@, pat@, i as int) {
                        assert(hay@.subrange(i as int, i + pat@.len())[j as int] == pat@[j as int]);
                    }
                }
                ok = false;
            }
        }
        if ok {
            proof {
                assert(hay@.subrange(i as int, i + pat@.len()) =~= pat@);
            }
            return Some(i);
        }
        i = i + 1;
    }
    proof {
        if contains_sub(hay@, pat@) {
            let w = choose|w: int| has_sub_at(hay@, pat@, w);
        }
    }
    None
}

/// The marker the platform puts into descriptions of signals it does not
/// know ("Unknown signal <n>"): those are kept verbatim.
pub open spec fn unknown_marker() -> Seq<u8> {
    seq![85u8, 110u8, 107u8, 110u8, 111u8, 119u8, 110u8]
}

/// The separator of descriptions shaped "<signal name>: <n>": everything
/// from it onward is stripped.
pub open spec fn name_separator() -> Seq<u8> {
    seq![58u8, 32u8]
}

/// The short form of a platform signal description: kept verbatim when it
/// carries the unknown-signal marker, otherwise cut before the first
/// colon-and-space separator (or kept whole when there is none).
pub open spec fn spec_desc_short(s: Seq<u8>) -> Seq<u8> {
    if contains_sub(s, unknown_marker()) {
        s
    } else if contains_sub(s, name_separator()) {
        s.take(first_sub_index(s, name_separator()))
    } else {
        s
    }
}

/// An element-wise copy of a byte vector.
fn copy_bytes(v: &Vec<u8>, upto: usize) -> (r: Vec<u8>)
    requires
        upto <= v@.len(),
    ensures
        r@ == v@.take(upto as int),
{
    let mut r: Vec<u8> = Vec::new();
    let mut i: usize = 0;
    while i < upto
        invariant
            i <= upto <= v@.len(),
            r@ == v@.take(i as int),
        decreases upto - i,
    {
        r.push(v[i]);
        proof {
            assert(r@ =~= v@.take(i + 1));
        }
        i = i + 1;
    }
    r
}

/// Shortens a signal description, exactly as [`spec_desc_short`] says: a
/// description carrying the unknown-signal marker is kept verbatim (it
/// already names the number), any other is cut before the first
/// colon-and-space, the platform's way of appending the number to a name.
pub fn signal_desc_short(desc: &Vec<u8>) -> (r: Vec<u8>)
    ensures
        r@ == spec_desc_short(desc@),
{
    let unknown: Vec<u8> = vec![85u8, 110u8, 107u8, 110u8, 111u8, 119u8, 110u8];
    let sep: Vec<u8> = vec![58u8, 32u8];
    proof {
        assert(unknown@ =~= unknown_marker());
        assert(sep@ =~= name_separator());
    }
    if let Some(_) = find_sub(desc, &unknown) {
        proof {
            assert(desc@.take(desc@.len() as int) =~= desc@);
        }
        copy_bytes(desc, desc.len())
    } else {
        match find_sub(desc, &sep) {
            Some(i) => {
                proof {
                    lemma_first_sub_unique(
                        desc@,
                        name_separator(),
                        i as int,
                        first_sub_index(desc@, name_separator()),
                    );
                }
                copy_bytes(desc, i)
            }
            None => {
                proof {
                    assert(desc@.take(desc@.len() as int) =~= desc@);
                }
                copy_bytes(desc, desc.len())
            }
        }
    }
}

} // verus!
