//! DOS path normalisation and `chdir` target resolution, on the path's
//! bytes (UTF-8; only ASCII bytes are ever inspected or inserted).

use vstd::prelude::*;
use crate::syscall::SyscallError;

verus! {

pub open spec fn is_sep(b: u8) -> bool {
    b == 92u8 || b == 47u8
}

/// `b` with ASCII lower-case letters mapped to upper case.
pub open spec fn spec_upper(b: u8) -> u8 {
    if 97 <= b <= 122 {
        (b - 32) as u8
    } else {
        b
    }
}

/// The pieces between separators (`\` or `/`), as `str::split` yields them:
/// one more piece than there are separators.
pub open spec fn split_components(s: Seq<u8>) -> Seq<Seq<u8>>
    decreases s.len(),
{
    if s.len() == 0 {
        seq![Seq::<u8>::empty()]
    } else {
        let c = split_components(s.drop_last());
        if is_sep(s.last()) {
            c.push(Seq::<u8>::empty())
        } else {
            c.update(c.len() - 1, c.last().push(s.last()))
        }
    }
}

/// One resolution step: empty and `.` pieces are dropped, `..` removes the
/// last kept piece (if any), anything else is kept.
pub open spec fn resolve_step(stack: Seq<Seq<u8>>, p: Seq<u8>) -> Seq<Seq<u8>> {
    if p.len() == 0 || p == seq![46u8] {
        stack
    } else if p == seq![46u8, 46u8] {
        if stack.len() > 0 {
            stack.drop_last()
        } else {
            stack
        }
    } else {
        stack.push(p)
    }
}

/// Resolve a sequence of pieces from left to right.
pub open spec fn resolve_components(parts: Seq<Seq<u8>>) -> Seq<Seq<u8>>
    decreases parts.len(),
{
    if parts.len() == 0 {
        Seq::empty()
    } else {
        resolve_step(resolve_components(parts.drop_last()), parts.last())
    }
}

/// The pieces joined with `\`.
pub open spec fn join_backslash(parts: Seq<Seq<u8>>) -> Seq<u8>
    decreases parts.len(),
{
    if parts.len() == 0 {
        Seq::empty()
    } else if parts.len() == 1 {
        parts[0]
    } else {
        join_backslash(parts.drop_last()) + seq![92u8] + parts.last()
    }
}

/// Whether the path starts with a drive prefix `X:`.
pub open spec fn has_drive_prefix(path: Seq<u8>) -> bool {
    path.len() >= 2 && path[1] == 58u8
}

/// The normalised form of a DOS path: an optional upper-cased drive prefix
/// `X:` (kept only when its letter byte is not 0), then `\`, then the
/// resolved pieces of the rest of the path joined with `\`.
pub open spec fn spec_normalize_dos_path(path: Seq<u8>) -> Seq<u8> {
    let rest = if has_drive_prefix(path) {
        path.subrange(2, path.len() as int)
    } else {
        path
    };
    let body = seq![92u8] + join_backslash(resolve_components(split_components(rest)));
    if has_drive_prefix(path) && spec_upper(path[0]) != 0 {
        seq![spec_upper(path[0]), 58u8] + body
    } else {
        body
    }
}

proof fn lemma_split_nonempty(s: Seq<u8>)
    ensures
        split_components(s).len() >= 1,
    decreases s.len(),
{
    if s.len() > 0 {
        lemma_split_nonempty(s.drop_last());
    }
}

/// The views of a vector of byte vectors.
pub open spec fn views(v: Seq<Vec<u8>>) -> Seq<Seq<u8>> {
    Seq::new(v.len(), |i: int| v[i]@)
}

fn upper(b: u8) -> (r: u8)
    ensures
        r == spec_upper(b),
{
    if 97 <= b && b <= 122 {
        b - 32
    } else {
        b
    }
}

fn apply_step(parts: &mut Vec<Vec<u8>>, comp: Vec<u8>)
    ensures
        views(final(parts)@) == resolve_step(views(old(parts)@), comp@),
{
    let ghost old_views = views(parts@);
    let n = comp.len();
    if n == 0 || (n == 1 && comp[0] == 46) {
        assert(n == 1 ==> comp@ =~= seq![46u8]);
        return;
    }
    if n == 2 && comp[0] == 46 && comp[1] == 46 {
        assert(comp@ =~= seq![46u8, 46u8]);
        if parts.len() > 0 {
            parts.pop();
            assert(views(parts@) =~= old_views.drop_last());
        }
        return;
    }
    assert(comp@ != seq![46u8]) by {
        if n == 1 {
            assert(comp@[0] != 46u8);
        }
    }
    assert(comp@ != seq![46u8, 46u8]) by {
        if n == 2 {
            assert(comp@[0] != 46u8 || comp@[1] != 46u8);
        }
    }
    let ghost cv = comp@;
    parts.push(comp);
    assert(views(parts@) =~= old_views.push(cv));
}

fn join_into(result: &mut Vec<u8>, parts: &Vec<Vec<u8>>)
    ensures
        final(result)@ == old(result)@ + join_backslash(views(parts@)),
{
    let ghost head = result@;
    let mut k: usize = 0;
    while k < parts.len()
        invariant
            k <= parts@.len(),
            result@ == head + join_backslash(views(parts@).subrange(0, k as int)),
        decreases parts@.len() - k,
    {
        let ghost before = result@;
        let ghost pk = views(parts@).subrange(0, k as int);
        let ghost pk1 = views(parts@).subrange(0, k + 1);
        assert(pk1.drop_last() =~= pk);
        assert(pk1.last() == parts@[k as int]@);
        if k > 0 {
            result.push(92);
        }
        let part = &parts[k];
        let mut j: usize = 0;
        let ghost mid = result@;
        while j < part.len()
            invariant
                j <= part@.len(),
                result@ == mid + part@.subrange(0, j as int),
            decreases part@.len() - j,
        {
            result.push(part[j]);
            j = j + 1;
            assert(result@ =~= mid + part@.subrange(0, j as int));
        }
        assert(part@.subrange(0, part@.len() as int) =~= part@);
        if k == 0 {
            assert(pk1.len() == 1);
            assert(result@ =~= head + join_backslash(pk1));
        } else {
            assert(result@ =~= head + join_backslash(pk1));
        }
        k = k + 1;
    }
    assert(views(parts@).subrange(0, parts@.len() as int) =~= views(parts@));
}

/// Normalise a DOS path: upper-case the drive letter, turn `/` into `\`,
/// drop empty and `.` pieces, resolve `..`, and make the result absolute.
pub fn normalize_dos_path(path: &[u8]) -> (r: Vec<u8>)
    ensures
        r@ == spec_normalize_dos_path(path@),
{
    let has_drive = path.len() >= 2 && path[1] == 58;
    let mut prefix: u8 = 0;
    let start: usize = if has_drive {
        prefix = upper(path[0]);
        2
    } else {
        0
    };
    let ghost rest = if has_drive {
        path@.subrange(2, path@.len() as int)
    } else {
        path@
    };
    assert(has_drive == has_drive_prefix(path@));
    let mut parts: Vec<Vec<u8>> = Vec::new();
    let mut cur: Vec<u8> = Vec::new();
    let mut i: usize = start;
    proof {
        assert(rest.subrange(0, 0) =~= Seq::<u8>::empty());
        assert(views(parts@) =~= Seq::<Seq<u8>>::empty());
    }
    while i < path.len()
        invariant
            start <= i <= path@.len(),
            start == (if has_drive { 2int } else { 0int }),
            rest == path@.subrange(start as int, path@.len() as int),
            views(parts@) == resolve_components(
                split_components(rest.subrange(0, i - start)).drop_last(),
            ),
            cur@ == split_components(rest.subrange(0, i - start)).last(),
        decreases path@.len() - i,
    {
        let b = path[i];
        let ghost prev = rest.subrange(0, i - start);
        let ghost next = rest.subrange(0, i + 1 - start);
        proof {
            assert(next.drop_last() =~= prev);
            assert(next.last() == b);
            lemma_split_nonempty(prev);
        }
        if b == 92 || b == 47 {
            let comp = cur;
            cur = Vec::new();
            apply_step(&mut parts, comp);
            proof {
                let sp = split_components(prev);
                assert(split_components(next) == sp.push(Seq::<u8>::empty()));
                assert(split_components(next).drop_last() =~= sp);
                assert(sp =~= sp.drop_last().push(sp.last()));
                assert(resolve_components(sp) == resolve_step(
                    resolve_components(sp.drop_last()),
                    sp.last(),
                ));
                assert(cur@ =~= split_components(next).last());
            }
        } else {
            cur.push(b);
            proof {
                let sp = split_components(prev);
                assert(split_components(next) == sp.update(sp.len() - 1, sp.last().push(b)));
                assert(split_components(next).drop_last() =~= sp.drop_last());
            }
        }
        i = i + 1;
    }
    let ghost whole = split_components(rest);
    proof {
        assert(rest.subrange(0, path@.len() - start) =~= rest);
        lemma_split_nonempty(rest);
        assert(whole =~= whole.drop_last().push(whole.last()));
    }
    let last = cur;
    apply_step(&mut parts, last);
    assert(views(parts@) == resolve_components(whole));
    let mut result: Vec<u8> = Vec::new();
    if prefix != 0 {
        result.push(prefix);
        result.push(58);
    }
    result.push(92);
    join_into(&mut result, &parts);
    proof {
        let body = seq![92u8] + join_backslash(resolve_components(whole));
        if has_drive && prefix != 0 {
            assert(result@ =~= seq![prefix, 58u8] + body);
        } else {
            assert(result@ =~= body);
        }
    }
    result
}


/// A piece that survives resolution unchanged: not empty, not `.` or `..`,
/// and free of separators.
pub open spec fn clean_part(p: Seq<u8>) -> bool {
    &&& p.len() > 0
    &&& p != seq![46u8]
    &&& p != seq![46u8, 46u8]
    &&& forall|i: int| 0 <= i < p.len() ==> !is_sep(#[trigger] p[i])
}

/// The resolved pieces of the path after its drive prefix.
pub open spec fn normalized_parts(path: Seq<u8>) -> Seq<Seq<u8>> {
    let rest = if has_drive_prefix(path) {
        path.subrange(2, path.len() as int)
    } else {
        path
    };
    resolve_components(split_components(rest))
}

/// The inputs whose normal form is not a fixed point: without a drive
/// prefix in the result, a first piece that starts with `:` reads as a
/// drive prefix the second time, unless that piece is exactly `:` and
/// others follow.
pub open spec fn renormalizes_differently(path: Seq<u8>) -> bool {
    let r = normalized_parts(path);
    &&& !(has_drive_prefix(path) && spec_upper(path[0]) != 0)
    &&& r.len() > 0
    &&& r[0][0] == 58u8
    &&& (r[0].len() > 1 || r.len() == 1)
}

proof fn lemma_split_sep_free(s: Seq<u8>)
    ensures
        forall|k: int, i: int|
            0 <= k < split_components(s).len() && 0 <= i < split_components(s)[k].len()
                ==> !is_sep(#[trigger] split_components(s)[k][i]),
        split_components(s).len() >= 1,
    decreases s.len(),
{
    if s.len() > 0 {
        lemma_split_sep_free(s.drop_last());
        let c = split_components(s.drop_last());
        if !is_sep(s.last()) {
            assert forall|k: int, i: int|
                0 <= k < split_components(s).len() && 0 <= i < split_components(s)[k].len()
                    implies !is_sep(#[trigger] split_components(s)[k][i]) by {
                if k == c.len() - 1 && i == c.last().len() {
                } else if k == c.len() - 1 {
                    assert(split_components(s)[k][i] == c[k][i]);
                } else {
                    assert(split_components(s)[k] == c[k]);
                }
            }
        } else {
            assert forall|k: int, i: int|
                0 <= k < split_components(s).len() && 0 <= i < split_components(s)[k].len()
                    implies !is_sep(#[trigger] split_components(s)[k][i]) by {
                if k < c.len() {
                    assert(split_components(s)[k] == c[k]);
                }
            }
        }
    }
}

proof fn lemma_resolve_clean(parts: Seq<Seq<u8>>)
    requires
        forall|k: int, i: int|
            0 <= k < parts.len() && 0 <= i < parts[k].len() ==> !is_sep(#[trigger] parts[k][i]),
    ensures
        forall|k: int| 0 <= k < resolve_components(parts).len() ==> clean_part(
            #[trigger] resolve_components(parts)[k],
        ),
    decreases parts.len(),
{
    if parts.len() > 0 {
        let init = parts.drop_last();
        assert forall|k: int, i: int|
            0 <= k < init.len() && 0 <= i < init[k].len() implies !is_sep(#[trigger] init[k][i]) by {
            assert(init[k] == parts[k]);
        }
        lemma_resolve_clean(init);
        let p = parts.last();
        assert forall|i: int| 0 <= i < p.len() implies !is_sep(#[trigger] p[i]) by {
            assert(p[i] == parts[parts.len() - 1][i]);
        }
        let prev = resolve_components(init);
        let cur = resolve_components(parts);
        assert(cur == resolve_step(prev, p));
        assert forall|k: int| 0 <= k < cur.len() implies clean_part(#[trigger] cur[k]) by {
            if p.len() == 0 || p == seq![46u8] {
                assert(cur[k] == prev[k]);
            } else if p == seq![46u8, 46u8] {
                assert(cur[k] == prev[k]);
            } else if k < prev.len() {
                assert(cur[k] == prev[k]);
            } else {
                assert(cur[k] == p);
            }
        }
    }
}

proof fn lemma_split_append_sep(a: Seq<u8>, b: Seq<u8>)
    ensures
        split_components(a + seq![92u8] + b) == split_components(a) + split_components(b),
    decreases b.len(),
{
    lemma_split_sep_free(a);
    lemma_split_sep_free(b);
    if b.len() == 0 {
        assert((a + seq![92u8] + b).drop_last() =~= a);
        assert(split_components(a + seq![92u8] + b) =~= split_components(a) + split_components(b));
    } else {
        let b0 = b.drop_last();
        lemma_split_append_sep(a, b0);
        lemma_split_sep_free(b0);
        assert((a + seq![92u8] + b).drop_last() =~= a + seq![92u8] + b0);
        assert((a + seq![92u8] + b).last() == b.last());
        assert(split_components(a + seq![92u8] + b) =~= split_components(a) + split_components(b));
    }
}

proof fn lemma_split_single(p: Seq<u8>)
    requires
        forall|i: int| 0 <= i < p.len() ==> !is_sep(#[trigger] p[i]),
    ensures
        split_components(p) == seq![p],
    decreases p.len(),
{
    if p.len() > 0 {
        let q = p.drop_last();
        assert forall|i: int| 0 <= i < q.len() implies !is_sep(#[trigger] q[i]) by {
            assert(q[i] == p[i]);
        }
        lemma_split_single(q);
        assert(!is_sep(p[p.len() - 1]));
        assert(q.push(p.last()) =~= p);
        assert(split_components(p) =~= seq![p]);
    } else {
        assert(p =~= Seq::<u8>::empty());
        assert(split_components(p) =~= seq![p]);
    }
}

proof fn lemma_split_join(parts: Seq<Seq<u8>>)
    requires
        parts.len() >= 1,
        forall|k: int| 0 <= k < parts.len() ==> clean_part(#[trigger] parts[k]),
    ensures
        split_components(join_backslash(parts)) == parts,
    decreases parts.len(),
{
    if parts.len() == 1 {
        assert(clean_part(parts[0]));
        lemma_split_single(parts[0]);
        assert(split_components(join_backslash(parts)) =~= parts);
    } else {
        let init = parts.drop_last();
        assert forall|k: int| 0 <= k < init.len() implies clean_part(#[trigger] init[k]) by {
            assert(init[k] == parts[k]);
        }
        lemma_split_join(init);
        assert(clean_part(parts[parts.len() - 1]));
        lemma_split_single(parts.last());
        lemma_split_append_sep(join_backslash(init), parts.last());
        assert(split_components(join_backslash(parts)) =~= parts);
    }
}

proof fn lemma_resolve_after_empty(parts: Seq<Seq<u8>>)
    requires
        forall|k: int| 0 <= k < parts.len() ==> clean_part(#[trigger] parts[k]),
    ensures
        resolve_components(seq![Seq::<u8>::empty()] + parts) == parts,
    decreases parts.len(),
{
    let q = seq![Seq::<u8>::empty()] + parts;
    if parts.len() == 0 {
        assert(q.drop_last() =~= Seq::<Seq<u8>>::empty());
        assert(q.last() == Seq::<u8>::empty());
        assert(resolve_components(q.drop_last()) =~= Seq::<Seq<u8>>::empty());
        assert(resolve_components(q) =~= parts);
    } else {
        let init = parts.drop_last();
        assert forall|k: int| 0 <= k < init.len() implies clean_part(#[trigger] init[k]) by {
            assert(init[k] == parts[k]);
        }
        lemma_resolve_after_empty(init);
        assert(q.drop_last() =~= seq![Seq::<u8>::empty()] + init);
        assert(clean_part(parts[parts.len() - 1]));
        assert(q.last() == parts.last());
        assert(resolve_components(q) =~= init.push(parts.last()));
        assert(init.push(parts.last()) =~= parts);
    }
}

proof fn lemma_body_roundtrip(parts: Seq<Seq<u8>>)
    requires
        forall|k: int| 0 <= k < parts.len() ==> clean_part(#[trigger] parts[k]),
    ensures
        resolve_components(split_components(seq![92u8] + join_backslash(parts))) == parts,
{
    let e = Seq::<u8>::empty();
    assert(seq![92u8] + join_backslash(parts) =~= e + seq![92u8] + join_backslash(parts));
    lemma_split_append_sep(e, join_backslash(parts));
    assert(split_components(e) =~= seq![e]);
    if parts.len() == 0 {
        assert(split_components(join_backslash(parts)) =~= seq![e]);
        let q = seq![e, e];
        assert(split_components(seq![92u8] + join_backslash(parts)) =~= q);
        assert(q.drop_last() =~= seq![e]);
        assert(seq![e].drop_last() =~= Seq::<Seq<u8>>::empty());
        assert(seq![e].last() == e);
        assert(resolve_components(Seq::<Seq<u8>>::empty()) =~= Seq::<Seq<u8>>::empty());
        assert(resolve_components(seq![e]) =~= Seq::<Seq<u8>>::empty());
        assert(q.last() == e);
        assert(resolve_components(q) =~= parts);
    } else {
        lemma_split_join(parts);
        lemma_resolve_after_empty(parts);
    }
}

/// Normalising a normal form changes nothing, except on the inputs of
/// `renormalizes_differently`.
pub proof fn lemma_normalize_idempotent(path: Seq<u8>)
    requires
        !renormalizes_differently(path),
    ensures
        spec_normalize_dos_path(spec_normalize_dos_path(path)) == spec_normalize_dos_path(path),
{
    let rest = if has_drive_prefix(path) {
        path.subrange(2, path.len() as int)
    } else {
        path
    };
    let r = normalized_parts(path);
    lemma_split_sep_free(rest);
    lemma_resolve_clean(split_components(rest));
    let body = seq![92u8] + join_backslash(r);
    let o = spec_normalize_dos_path(path);
    lemma_body_roundtrip(r);
    if has_drive_prefix(path) && spec_upper(path[0]) != 0 {
        let u = spec_upper(path[0]);
        assert(o == seq![u, 58u8] + body);
        assert(has_drive_prefix(o));
        assert(spec_upper(o[0]) == u);
        assert(o.subrange(2, o.len() as int) =~= body);
        assert(spec_normalize_dos_path(o) =~= o);
    } else {
        assert(o == body);
        if has_drive_prefix(o) {
            // The first piece starts with `:`; it is exactly `:` and more follow.
            assert(r.len() > 0) by {
                if r.len() == 0 {
                    assert(join_backslash(r) =~= Seq::<u8>::empty());
                }
            }
            assert(join_backslash(r) == join_backslash(r.subrange(0, 1)) + (if r.len() > 1 {
                seq![92u8] + join_backslash(r.subrange(1, r.len() as int))
            } else {
                Seq::<u8>::empty()
            })) by {
                lemma_join_first(r);
            }
            assert(r.subrange(0, 1) =~= seq![r[0]]);
            assert(join_backslash(seq![r[0]]) == r[0]);
            assert(clean_part(r[0]));
            assert(o[1] == r[0][0]);
            assert(r[0].len() == 1 && r.len() > 1);
            let tail = r.subrange(1, r.len() as int);
            assert forall|k: int| 0 <= k < tail.len() implies clean_part(#[trigger] tail[k]) by {
                assert(tail[k] == r[k + 1]);
            }
            lemma_body_roundtrip(tail);
            assert(spec_upper(o[0]) == 92u8);
            assert(o.subrange(2, o.len() as int) =~= seq![92u8] + join_backslash(tail));
            assert(o =~= seq![92u8, 58u8] + (seq![92u8] + join_backslash(tail)));
            assert(spec_normalize_dos_path(o) =~= o);
        } else {
            assert(spec_normalize_dos_path(o) =~= o);
        }
    }
}

proof fn lemma_join_first(parts: Seq<Seq<u8>>)
    requires
        parts.len() >= 1,
    ensures
        join_backslash(parts) == join_backslash(parts.subrange(0, 1)) + (if parts.len() > 1 {
            seq![92u8] + join_backslash(parts.subrange(1, parts.len() as int))
        } else {
            Seq::<u8>::empty()
        }),
    decreases parts.len(),
{
    if parts.len() == 1 {
        assert(parts.subrange(0, 1) =~= parts);
        assert(join_backslash(parts) + Seq::<u8>::empty() =~= join_backslash(parts));
    } else if parts.len() == 2 {
        assert(parts.drop_last() =~= parts.subrange(0, 1));
        let t = parts.subrange(1, 2);
        assert(t =~= seq![parts[1]]);
        assert(join_backslash(t) == parts[1]);
        assert(join_backslash(parts) =~= join_backslash(parts.subrange(0, 1)) + (seq![92u8]
            + join_backslash(t)));
    } else {
        let init = parts.drop_last();
        lemma_join_first(init);
        assert(init.subrange(0, 1) =~= parts.subrange(0, 1));
        let t = parts.subrange(1, parts.len() as int);
        let ti = init.subrange(1, init.len() as int);
        assert(t.drop_last() =~= ti);
        assert(t.last() == parts.last());
        assert(t.len() > 1);
        assert(join_backslash(t) == join_backslash(ti) + seq![92u8] + parts.last());
        assert(join_backslash(parts) =~= join_backslash(parts.subrange(0, 1)) + (seq![92u8]
            + join_backslash(t)));
    }
}

/// Index of the first `b` in `s` (`s.len()` when there is none).
pub open spec fn find_first(s: Seq<u8>, b: u8) -> int
    decreases s.len(),
{
    if s.len() == 0 {
        0
    } else if s[0] == b {
        0
    } else {
        1 + find_first(s.drop_first(), b)
    }
}

proof fn lemma_find_first(s: Seq<u8>, b: u8)
    ensures
        0 <= find_first(s, b) <= s.len(),
        find_first(s, b) < s.len() ==> s[find_first(s, b)] == b,
        forall|j: int| 0 <= j < find_first(s, b) ==> s[j] != b,
    decreases s.len(),
{
    if s.len() > 0 && s[0] != b {
        lemma_find_first(s.drop_first(), b);
        assert forall|j: int| 0 <= j < find_first(s, b) implies s[j] != b by {
            if j > 0 {
                assert(s[j] == s.drop_first()[j - 1]);
            }
        }
    }
}

fn find_byte(s: &Vec<u8>, b: u8) -> (r: usize)
    ensures
        r == find_first(s@, b),
{
    proof {
        lemma_find_first(s@, b);
    }
    let mut i: usize = 0;
    while i < s.len()
        invariant
            i <= s@.len(),
            forall|j: int| 0 <= j < i ==> s@[j] != b,
            0 <= find_first(s@, b) <= s@.len(),
            find_first(s@, b) < s@.len() ==> s@[find_first(s@, b)] == b,
            forall|j: int| 0 <= j < find_first(s@, b) ==> s@[j] != b,
        decreases s@.len() - i,
    {
        if s[i] == b {
            return i;
        }
        i = i + 1;
    }
    i
}

/// The drive index of an upper-case drive letter: `A` is 0, ..., `Z` is 25.
pub open spec fn spec_drive_index(letter: u8) -> Option<u8> {
    if 65 <= letter <= 90 {
        Some((letter - 65) as u8)
    } else {
        None
    }
}

/// The drive index of an upper-case drive letter.
pub fn drive_index(letter: u8) -> (r: Option<u8>)
    ensures
        r == spec_drive_index(letter),
{
    if 65 <= letter && letter <= 90 {
        Some(letter - 65)
    } else {
        None
    }
}

/// Whether a `chdir` argument is absolute: it names a drive (holds `:`) or
/// starts with a separator.
pub open spec fn is_absolute_path(path: Seq<u8>) -> bool {
    find_first(path, 58u8) < path.len() || (path.len() > 0 && is_sep(path[0]))
}

/// The candidate new working directory `(drive index, path on that drive)`
/// for `chdir(path)` from the working directory `cwd_drive:cwd_path`.
pub open spec fn spec_chdir_target(path: Seq<u8>, cwd_drive: u8, cwd_path: Seq<u8>) -> Result<
    (u8, Seq<u8>),
    SyscallError,
> {
    let raw = if is_absolute_path(path) {
        path
    } else {
        cwd_path + seq![92u8] + path
    };
    let n = spec_normalize_dos_path(raw);
    let colon = find_first(n, 58u8);
    if colon < n.len() {
        if colon == 0 {
            Err(SyscallError::Inval)
        } else {
            match spec_drive_index(spec_upper(n[0])) {
                None => Err(SyscallError::NoEnt),
                Some(d) => Ok((d, n.subrange(colon + 1, n.len() as int))),
            }
        }
    } else {
        Ok((cwd_drive, n))
    }
}

/// Resolve the target of `chdir(path)` against the working directory
/// `cwd_drive:cwd_path`: relative paths are taken from the working
/// directory, the result is normalised, and a drive prefix selects the
/// drive. The caller then looks the directory up on that drive; a missing
/// directory is reported as `NoEnt`.
pub fn resolve_chdir_target(path: &[u8], cwd_drive: u8, cwd_path: &[u8]) -> (r: Result<
    (u8, Vec<u8>),
    SyscallError,
>)
    requires
        cwd_path@.len() + path@.len() + 1 <= usize::MAX,
    ensures
        match r {
            Ok((d, p)) => spec_chdir_target(path@, cwd_drive, cwd_path@) == Ok::<
                (u8, Seq<u8>),
                SyscallError,
            >((d, p@)),
            Err(e) => spec_chdir_target(path@, cwd_drive, cwd_path@) == Err::<
                (u8, Seq<u8>),
                SyscallError,
            >(e),
        },
{
    let mut pv: Vec<u8> = Vec::new();
    let mut i: usize = 0;
    while i < path.len()
        invariant
            i <= path@.len(),
            pv@ == path@.subrange(0, i as int),
        decreases path@.len() - i,
    {
        pv.push(path[i]);
        i = i + 1;
    }
    assert(pv@ =~= path@);
    let absolute = find_byte(&pv, 58) < pv.len() || (pv.len() > 0 && (pv[0] == 92 || pv[0] == 47));
    let mut raw: Vec<u8> = Vec::new();
    if !absolute {
        let mut j: usize = 0;
        while j < cwd_path.len()
            invariant
                j <= cwd_path@.len(),
                raw@ == cwd_path@.subrange(0, j as int),
            decreases cwd_path@.len() - j,
        {
            raw.push(cwd_path[j]);
            j = j + 1;
        }
        raw.push(92);
    }
    let ghost head = raw@;
    let mut k: usize = 0;
    while k < pv.len()
        invariant
            k <= pv@.len(),
            raw@ == head + pv@.subrange(0, k as int),
        decreases pv@.len() - k,
    {
        raw.push(pv[k]);
        k = k + 1;
    }
    proof {
        assert(pv@.subrange(0, pv@.len() as int) =~= pv@);
        if absolute {
            assert(raw@ =~= path@);
        } else {
            assert(cwd_path@.subrange(0, cwd_path@.len() as int) =~= cwd_path@);
            assert(raw@ =~= cwd_path@ + seq![92u8] + path@);
        }
    }
    let n = normalize_dos_path(raw.as_slice());
    let colon = find_byte(&n, 58);
    if colon < n.len() {
        if colon == 0 {
            return Err(SyscallError::Inval);
        }
        match drive_index(upper(n[0])) {
            None => Err(SyscallError::NoEnt),
            Some(d) => {
                let mut rest: Vec<u8> = Vec::new();
                let mut m = colon + 1;
                while m < n.len()
                    invariant
                        colon + 1 <= m <= n@.len(),
                        rest@ == n@.subrange(colon + 1, m as int),
                    decreases n@.len() - m,
                {
                    rest.push(n[m]);
                    m = m + 1;
                }
                Ok((d, rest))
            },
        }
    } else {
        Ok((cwd_drive, n))
    }
}

} // verus!
