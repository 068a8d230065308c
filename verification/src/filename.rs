//! Filename hints and their sanitization.
//!
//! A filename hint travels out of band with an upload and is not trusted: it
//! may carry path separators or parent-directory segments. Before it names a
//! file under the target directory, only its final path component is kept,
//! and a component that is empty, `.`, or `..` is replaced by a default.

use vstd::prelude::*;

verus! {

/// A path separator byte: `/` or `\`.
pub open spec fn is_sep(b: u8) -> bool {
    b == 47 || b == 92
}

/// No byte of `s` is a path separator.
pub open spec fn sep_free(s: Seq<u8>) -> bool {
    forall|i: int| 0 <= i < s.len() ==> !is_sep(#[trigger] s[i])
}

/// The longest separator-free suffix of `s`: its final path component.
pub open spec fn final_component(s: Seq<u8>) -> Seq<u8>
    decreases s.len(),
{
    if s.len() == 0 {
        s
    } else if is_sep(s[s.len() - 1]) {
        Seq::empty()
    } else {
        final_component(s.take(s.len() - 1)).push(s[s.len() - 1])
    }
}

/// The single-byte name `.`, the current directory.
pub open spec fn is_dot(s: Seq<u8>) -> bool {
    s.len() == 1 && s[0] == 46
}

/// The two-byte name `..`, the parent directory.
pub open spec fn is_dot_dot(s: Seq<u8>) -> bool {
    s.len() == 2 && s[0] == 46 && s[1] == 46
}

/// A name that can be joined under a directory without escaping it:
/// non-empty, free of separators, and neither `.` nor `..`.
pub open spec fn safe_name(s: Seq<u8>) -> bool {
    s.len() > 0 && sep_free(s) && !is_dot(s) && !is_dot_dot(s)
}

/// What sanitization returns: the final component of the hint, or the
/// default where that component could not name a file of its own.
pub open spec fn sanitize_spec(hint: Seq<u8>, default: Seq<u8>) -> Seq<u8> {
    let c = final_component(hint);
    if c.len() == 0 || is_dot(c) || is_dot_dot(c) {
        default
    } else {
        c
    }
}

/// The bytes of `received_file`, the listener's default name.
pub open spec fn received_name() -> Seq<u8> {
    seq![114u8, 101, 99, 101, 105, 118, 101, 100, 95, 102, 105, 108, 101]
}

/// The bytes of `unknown_file`, the client's default hint.
pub open spec fn unknown_name() -> Seq<u8> {
    seq![117u8, 110, 107, 110, 111, 119, 110, 95, 102, 105, 108, 101]
}

/// The final component never holds a separator.
pub proof fn lemma_final_component_sep_free(s: Seq<u8>)
    ensures
        sep_free(final_component(s)),
    decreases s.len(),
{
    if s.len() == 0 {
    } else if is_sep(s[s.len() - 1]) {
    } else {
        let t = s.take(s.len() - 1);
        lemma_final_component_sep_free(t);
        let c = final_component(t);
        let r = c.push(s[s.len() - 1]);
        assert forall|i: int| 0 <= i < r.len() implies !is_sep(#[trigger] r[i]) by {
            if i < c.len() {
                assert(r[i] == c[i]);
            } else {
                assert(r[i] == s[s.len() - 1]);
            }
        }
    }
}

/// A separator-free sequence is its own final component.
pub proof fn lemma_final_component_of_sep_free(s: Seq<u8>)
    requires
        sep_free(s),
    ensures
        final_component(s) == s,
    decreases s.len(),
{
    if s.len() == 0 {
    } else {
        let t = s.take(s.len() - 1);
        assert(forall|i: int| 0 <= i < t.len() ==> t[i] == s[i]);
        lemma_final_component_of_sep_free(t);
        assert(t.push(s[s.len() - 1]) =~= s);
    }
}

/// Sanitizing with a safe default always yields a safe name: the written
/// file sits directly under the target directory, never outside it.
pub proof fn lemma_sanitize_safe(hint: Seq<u8>, default: Seq<u8>)
    requires
        safe_name(default),
    ensures
        safe_name(sanitize_spec(hint, default)),
{
    lemma_final_component_sep_free(hint);
}

/// Sanitization is stable: a name that one sanitization produced passes a
/// second sanitization unchanged, whatever default the second uses. In
/// particular, the hint a client derives from a local path arrives at the
/// listener's directory under exactly that name.
pub proof fn lemma_sanitize_stable(hint: Seq<u8>, first_default: Seq<u8>, second_default: Seq<u8>)
    requires
        safe_name(first_default),
    ensures
        sanitize_spec(sanitize_spec(hint, first_default), second_default) == sanitize_spec(
            hint,
            first_default,
        ),
{
    lemma_sanitize_safe(hint, first_default);
    lemma_final_component_of_sep_free(sanitize_spec(hint, first_default));
}

/// The listener's default name is itself a safe name.
pub proof fn lemma_received_name_safe()
    ensures
        safe_name(received_name()),
{
    assert forall|i: int| 0 <= i < received_name().len() implies !is_sep(
        #[trigger] received_name()[i],
    ) by {
    }
}

/// The client's default hint is itself a safe name.
pub proof fn lemma_unknown_name_safe()
    ensures
        safe_name(unknown_name()),
{
    assert forall|i: int| 0 <= i < unknown_name().len() implies !is_sep(
        #[trigger] unknown_name()[i],
    ) by {
    }
}

/// The final component of `s` is `s[i..]` where `i` is the first index after
/// the last separator.
proof fn lemma_final_component_at(s: Seq<u8>, i: int)
    requires
        0 <= i <= s.len(),
        forall|j: int| i <= j < s.len() ==> !is_sep(#[trigger] s[j]),
        i > 0 ==> is_sep(s[i - 1]),
    ensures
        final_component(s) == s.subrange(i, s.len() as int),
    decreases s.len(),
{
    if s.len() == 0 {
        assert(s.subrange(0, 0) =~= s);
    } else if i == s.len() {
        assert(s.subrange(i, s.len() as int) =~= Seq::<u8>::empty());
    } else {
        let t = s.take(s.len() - 1);
        assert(forall|j: int| i <= j < t.len() ==> t[j] == s[j]);
        lemma_final_component_at(t, i);
        assert(t.subrange(i, t.len() as int).push(s[s.len() - 1]) =~= s.subrange(
            i,
            s.len() as int,
        ));
    }
}

/// A copy of a byte vector.
pub fn clone_bytes(s: &Vec<u8>) -> (r: Vec<u8>)
    ensures
        r@ == s@,
{
    let mut r: Vec<u8> = Vec::new();
    let mut i: usize = 0;
    while i < s.len()
        invariant
            i <= s@.len(),
            r@ == s@.subrange(0, i as int),
        decreases s@.len() - i,
    {
        proof {
            assert(s@.subrange(0, i as int).push(s@[i as int]) =~= s@.subrange(0, i as int + 1));
        }
        r.push(s[i]);
        i = i + 1;
    }
    proof {
        assert(s@.subrange(0, s@.len() as int) =~= s@);
    }
    r
}

/// The final path component of `s`, as the bytes after the last separator.
pub fn final_component_bytes(s: &Vec<u8>) -> (r: Vec<u8>)
    ensures
        r@ == final_component(s@),
{
    let mut start: usize = s.len();
    while start > 0 && !(s[start - 1] == 47 || s[start - 1] == 92)
        invariant
            start <= s@.len(),
            forall|j: int| start <= j < s@.len() ==> !is_sep(#[trigger] s@[j]),
        decreases start,
    {
        start = start - 1;
    }
    proof {
        lemma_final_component_at(s@, start as int);
    }
    let mut r: Vec<u8> = Vec::new();
    let mut i: usize = start;
    while i < s.len()
        invariant
            start <= i <= s@.len(),
            r@ == s@.subrange(start as int, i as int),
        decreases s@.len() - i,
    {
        proof {
            assert(s@.subrange(start as int, i as int).push(s@[i as int]) =~= s@.subrange(
                start as int,
                i as int + 1,
            ));
        }
        r.push(s[i]);
        i = i + 1;
    }
    r
}

/// Whether `s` is a safe name.
pub fn check_safe_name(s: &Vec<u8>) -> (r: bool)
    ensures
        r == safe_name(s@),
{
    if s.len() == 0 {
        return false;
    }
    if s.len() == 1 && s[0] == 46 {
        return false;
    }
    if s.len() == 2 && s[0] == 46 && s[1] == 46 {
        return false;
    }
    let mut i: usize = 0;
    while i < s.len()
        invariant
            i <= s@.len(),
            forall|j: int| 0 <= j < i ==> !is_sep(#[trigger] s@[j]),
        decreases s@.len() - i,
    {
        if s[i] == 47 || s[i] == 92 {
            return false;
        }
        i = i + 1;
    }
    true
}

/// The hint a listener falls back to, the bytes of `received_file`.
pub fn received_default() -> (r: Vec<u8>)
    ensures
        r@ == received_name(),
        safe_name(r@),
{
    let mut r: Vec<u8> = Vec::new();
    r.push(114);
    r.push(101);
    r.push(99);
    r.push(101);
    r.push(105);
    r.push(118);
    r.push(101);
    r.push(100);
    r.push(95);
    r.push(102);
    r.push(105);
    r.push(108);
    r.push(101);
    proof {
        assert(r@ =~= received_name());
        lemma_received_name_safe();
    }
    r
}

/// The hint a client falls back to, the bytes of `unknown_file`.
pub fn unknown_default() -> (r: Vec<u8>)
    ensures
        r@ == unknown_name(),
        safe_name(r@),
{
    let mut r: Vec<u8> = Vec::new();
    r.push(117);
    r.push(110);
    r.push(107);
    r.push(110);
    r.push(111);
    r.push(119);
    r.push(110);
    r.push(95);
    r.push(102);
    r.push(105);
    r.push(108);
    r.push(101);
    proof {
        assert(r@ =~= unknown_name());
        lemma_unknown_name_safe();
    }
    r
}

/// The sanitized form of `hint`: its final path component, or `default`
/// where that component is empty, `.`, or `..`.
pub fn sanitize_file_name(hint: &Vec<u8>, default: &Vec<u8>) -> (r: Vec<u8>)
    ensures
        r@ == sanitize_spec(hint@, default@),
{
    let c = final_component_bytes(hint);
    let degenerate = c.len() == 0 || (c.len() == 1 && c[0] == 46) || (c.len() == 2 && c[0] == 46
        && c[1] == 46);
    if degenerate {
        clone_bytes(default)
    } else {
        c
    }
}

} // verus!
