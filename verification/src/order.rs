//! The listing order.
//!
//! Directories sort before files; within each group names compare
//! case-insensitively (ASCII case folding). Exact name, path, size and
//! modification time serve as further tie-breakers, which makes the order
//! total and antisymmetric, so a listing has exactly one sorted form
//! whatever order the OS enumerated the children in.

use vstd::prelude::*;
use vstd::relations::{antisymmetric, reflexive, strongly_connected, total_ordering, transitive};
use crate::entry::{EntryModel, FileEntry};

verus! {

/// The case-folded code point of `c`: ASCII capitals fold to lower case.
pub open spec fn fold_code(c: char) -> u32 {
    if 65 <= c as u32 && c as u32 <= 90 {
        (c as u32 + 32) as u32
    } else {
        c as u32
    }
}

/// The code points of `s`.
pub open spec fn codes(s: Seq<char>) -> Seq<u32> {
    s.map_values(|c: char| c as u32)
}

/// The case-folded code points of `s`.
pub open spec fn folded(s: Seq<char>) -> Seq<u32> {
    s.map_values(|c: char| fold_code(c))
}

/// Three-way lexicographic comparison of code sequences.
pub open spec fn lex_cmp(a: Seq<u32>, b: Seq<u32>) -> int
    decreases a.len(),
{
    if a.len() == 0 && b.len() == 0 {
        0
    } else if a.len() == 0 {
        -1
    } else if b.len() == 0 {
        1
    } else if a.first() < b.first() {
        -1
    } else if a.first() > b.first() {
        1
    } else {
        lex_cmp(a.drop_first(), b.drop_first())
    }
}

pub proof fn lemma_lex_cmp_antisym(a: Seq<u32>, b: Seq<u32>)
    ensures
        lex_cmp(a, b) == -lex_cmp(b, a),
    decreases a.len(),
{
    if a.len() > 0 && b.len() > 0 && a.first() == b.first() {
        lemma_lex_cmp_antisym(a.drop_first(), b.drop_first());
    }
}

pub proof fn lemma_lex_cmp_zero(a: Seq<u32>, b: Seq<u32>)
    ensures
        lex_cmp(a, b) == 0 <==> a == b,
    decreases a.len(),
{
    if a.len() == 0 && b.len() == 0 {
        assert(a =~= b);
    } else if a.len() > 0 && b.len() > 0 && a.first() == b.first() {
        lemma_lex_cmp_zero(a.drop_first(), b.drop_first());
        if lex_cmp(a, b) == 0 {
            assert forall|i: int| 0 <= i < a.len() implies a[i] == b[i] by {
                if i > 0 {
                    assert(a.drop_first()[i - 1] == b.drop_first()[i - 1]);
                }
            }
            assert(a =~= b);
        }
        if a == b {
            assert(a.drop_first() =~= b.drop_first());
        }
    }
}

pub proof fn lemma_lex_cmp_trans(a: Seq<u32>, b: Seq<u32>, c: Seq<u32>)
    ensures
        lex_cmp(a, b) <= 0 && lex_cmp(b, c) <= 0 ==> lex_cmp(a, c) <= 0,
    decreases a.len(),
{
    if lex_cmp(a, b) <= 0 && lex_cmp(b, c) <= 0 {
        if a.len() > 0 && b.len() > 0 && c.len() > 0 {
            if a.first() == c.first() {
                lemma_lex_cmp_trans(a.drop_first(), b.drop_first(), c.drop_first());
            }
        }
    }
}

/// Distinct characters have distinct code points, so a name is recovered
/// from its code sequence.
pub proof fn lemma_codes_injective(a: Seq<char>, b: Seq<char>)
    requires
        codes(a) == codes(b),
    ensures
        a == b,
{
    assert(codes(a).len() == a.len());
    assert(codes(b).len() == b.len());
    assert forall|i: int| 0 <= i < a.len() implies a[i] == b[i] by {
        assert(codes(a)[i] == a[i] as u32);
        assert(codes(b)[i] == b[i] as u32);
        assert(codes(a)[i] == codes(b)[i]);
        vstd::utf8::char_u32_cast(a[i], a[i] as u32);
        vstd::utf8::char_u32_cast(b[i], b[i] as u32);
    }
    assert(a =~= b);
}

/// Directories order before files.
pub open spec fn rank(e: EntryModel) -> int {
    if e.is_dir {
        0
    } else {
        1
    }
}

/// Three-way comparison of two integers.
pub open spec fn int_cmp(a: int, b: int) -> int {
    if a < b {
        -1
    } else if a > b {
        1
    } else {
        0
    }
}

/// Three-way comparison of listing entries: directories first, then
/// case-insensitive name, then exact name, path, size and modification
/// time as tie-breakers.
pub open spec fn entry_cmp(a: EntryModel, b: EntryModel) -> int {
    if int_cmp(rank(a), rank(b)) != 0 {
        int_cmp(rank(a), rank(b))
    } else if lex_cmp(folded(a.name), folded(b.name)) != 0 {
        lex_cmp(folded(a.name), folded(b.name))
    } else if lex_cmp(codes(a.name), codes(b.name)) != 0 {
        lex_cmp(codes(a.name), codes(b.name))
    } else if lex_cmp(codes(a.path), codes(b.path)) != 0 {
        lex_cmp(codes(a.path), codes(b.path))
    } else if int_cmp(a.size as int, b.size as int) != 0 {
        int_cmp(a.size as int, b.size as int)
    } else {
        int_cmp(a.modified as int, b.modified as int)
    }
}

/// The listing order itself.
pub open spec fn entry_le(a: EntryModel, b: EntryModel) -> bool {
    entry_cmp(a, b) <= 0
}

/// The listing order as a relation value, for the sorting lemmas.
pub open spec fn entry_order() -> spec_fn(EntryModel, EntryModel) -> bool {
    |a: EntryModel, b: EntryModel| entry_le(a, b)
}

pub proof fn lemma_entry_cmp_antisym(a: EntryModel, b: EntryModel)
    ensures
        entry_cmp(a, b) == -entry_cmp(b, a),
{
    lemma_lex_cmp_antisym(folded(a.name), folded(b.name));
    lemma_lex_cmp_antisym(codes(a.name), codes(b.name));
    lemma_lex_cmp_antisym(codes(a.path), codes(b.path));
}

pub proof fn lemma_entry_cmp_zero(a: EntryModel, b: EntryModel)
    requires
        entry_cmp(a, b) == 0,
    ensures
        a == b,
{
    lemma_lex_cmp_zero(folded(a.name), folded(b.name));
    lemma_lex_cmp_zero(codes(a.name), codes(b.name));
    lemma_lex_cmp_zero(codes(a.path), codes(b.path));
    lemma_codes_injective(a.name, b.name);
    lemma_codes_injective(a.path, b.path);
}

pub proof fn lemma_entry_cmp_refl(a: EntryModel)
    ensures
        entry_cmp(a, a) == 0,
{
    lemma_lex_cmp_zero(folded(a.name), folded(a.name));
    lemma_lex_cmp_zero(codes(a.name), codes(a.name));
    lemma_lex_cmp_zero(codes(a.path), codes(a.path));
}

/// One lexicographic tie-break level of the transitivity argument: the
/// level stays at or below zero across the three operands, and where it
/// ties, all three components are equal.
proof fn lemma_lex_level(xa: Seq<u32>, xb: Seq<u32>, xc: Seq<u32>)
    requires
        lex_cmp(xa, xb) <= 0,
        lex_cmp(xb, xc) <= 0,
    ensures
        lex_cmp(xa, xc) <= 0,
        lex_cmp(xa, xc) == 0 ==> xa == xb && xb == xc && xa == xc,
        lex_cmp(xa, xb) == 0 <==> xa == xb,
        lex_cmp(xb, xc) == 0 <==> xb == xc,
{
    lemma_lex_cmp_trans(xa, xb, xc);
    lemma_lex_cmp_zero(xa, xb);
    lemma_lex_cmp_zero(xb, xc);
    lemma_lex_cmp_zero(xa, xc);
    lemma_lex_cmp_antisym(xa, xb);
    lemma_lex_cmp_antisym(xb, xc);
    if lex_cmp(xa, xc) == 0 {
        assert(xa == xc);
        assert(lex_cmp(xc, xb) <= 0);
        assert(lex_cmp(xb, xc) == 0);
    }
}

pub proof fn lemma_entry_cmp_trans(a: EntryModel, b: EntryModel, c: EntryModel)
    requires
        entry_cmp(a, b) <= 0,
        entry_cmp(b, c) <= 0,
    ensures
        entry_cmp(a, c) <= 0,
{
    if rank(a) != rank(b) || rank(b) != rank(c) {
        assert(rank(a) <= rank(b));
        assert(rank(b) <= rank(c));
        assert(rank(a) < rank(c));
    } else {
        assert(lex_cmp(folded(a.name), folded(b.name)) <= 0);
        assert(lex_cmp(folded(b.name), folded(c.name)) <= 0);
        lemma_lex_level(folded(a.name), folded(b.name), folded(c.name));
        if lex_cmp(folded(a.name), folded(c.name)) != 0 {
            assert(entry_cmp(a, c) == lex_cmp(folded(a.name), folded(c.name)));
        } else {
            assert(lex_cmp(codes(a.name), codes(b.name)) <= 0);
            assert(lex_cmp(codes(b.name), codes(c.name)) <= 0);
            lemma_lex_level(codes(a.name), codes(b.name), codes(c.name));
            if lex_cmp(codes(a.name), codes(c.name)) != 0 {
                assert(entry_cmp(a, c) == lex_cmp(codes(a.name), codes(c.name)));
            } else {
                assert(lex_cmp(codes(a.path), codes(b.path)) <= 0);
                assert(lex_cmp(codes(b.path), codes(c.path)) <= 0);
                lemma_lex_level(codes(a.path), codes(b.path), codes(c.path));
                if lex_cmp(codes(a.path), codes(c.path)) != 0 {
                    assert(entry_cmp(a, c) == lex_cmp(codes(a.path), codes(c.path)));
                } else {
                    assert(a.size <= b.size <= c.size);
                    if a.size != c.size {
                        assert(entry_cmp(a, c) == -1);
                    } else {
                        assert(a.size == b.size && b.size == c.size);
                        assert(a.modified <= b.modified <= c.modified);
                    }
                }
            }
        }
    }
}

/// The listing order is a total order, so every multiset of entries has
/// exactly one sorted arrangement.
pub proof fn lemma_entry_order_total()
    ensures
        total_ordering(entry_order()),
{
    let r = entry_order();
    assert(reflexive(r)) by {
        assert forall|a: EntryModel| #[trigger] r(a, a) by {
            lemma_entry_cmp_refl(a);
        }
    }
    assert(antisymmetric(r)) by {
        assert forall|a: EntryModel, b: EntryModel| #[trigger] r(a, b) && #[trigger] r(b, a)
            implies a == b by {
            lemma_entry_cmp_antisym(a, b);
            lemma_entry_cmp_zero(a, b);
        }
    }
    assert(transitive(r)) by {
        assert forall|a: EntryModel, b: EntryModel, c: EntryModel|
            #[trigger] r(a, b) && #[trigger] r(b, c) implies r(a, c) by {
            lemma_entry_cmp_trans(a, b, c);
        }
    }
    assert(strongly_connected(r)) by {
        assert forall|a: EntryModel, b: EntryModel| #[trigger] r(a, b) || #[trigger] r(b, a) by {
            lemma_entry_cmp_antisym(a, b);
        }
    }
}

/// The case-folded code point, computed.
fn fold_code_exec(c: char) -> (u: u32)
    ensures
        u == fold_code(c),
{
    let u = c as u32;
    if 65 <= u && u <= 90 {
        u + 32
    } else {
        u
    }
}

/// The case-folded code points of `s`, computed.
fn folded_vec(s: &str) -> (v: Vec<u32>)
    ensures
        v@ == folded(s@),
{
    let n = s.unicode_len();
    let mut v: Vec<u32> = Vec::new();
    let mut i: usize = 0;
    while i < n
        invariant
            i <= n == s@.len(),
            v@.len() == i,
            forall|k: int| 0 <= k < i ==> v@[k] == fold_code(s@[k]),
        decreases n - i,
    {
        let u = fold_code_exec(s.get_char(i));
        v.push(u);
        i = i + 1;
    }
    proof {
        assert(v@ =~= folded(s@));
    }
    v
}

/// The code points of `s`, computed.
fn codes_vec(s: &str) -> (v: Vec<u32>)
    ensures
        v@ == codes(s@),
{
    let n = s.unicode_len();
    let mut v: Vec<u32> = Vec::new();
    let mut i: usize = 0;
    while i < n
        invariant
            i <= n == s@.len(),
            v@.len() == i,
            forall|k: int| 0 <= k < i ==> v@[k] == s@[k] as u32,
        decreases n - i,
    {
        let c = s.get_char(i);
        v.push(c as u32);
        i = i + 1;
    }
    proof {
        assert(v@ =~= codes(s@));
    }
    v
}

/// Lexicographic comparison, computed over code vectors.
fn lex_cmp_exec(a: &Vec<u32>, b: &Vec<u32>) -> (r: i8)
    ensures
        r as int == lex_cmp(a@, b@),
{
    let mut i: usize = 0;
    proof {
        assert(a@.skip(0) =~= a@);
        assert(b@.skip(0) =~= b@);
    }
    while i < a.len() && i < b.len()
        invariant
            i <= a@.len(),
            i <= b@.len(),
            lex_cmp(a@, b@) == lex_cmp(a@.skip(i as int), b@.skip(i as int)),
        decreases a@.len() - i,
    {
        let x = a[i];
        let y = b[i];
        proof {
            assert(a@.skip(i as int).first() == a@[i as int]);
            assert(b@.skip(i as int).first() == b@[i as int]);
        }
        if x < y {
            return -1;
        }
        if x > y {
            return 1;
        }
        proof {
            assert(a@.skip(i as int).drop_first() =~= a@.skip(i + 1));
            assert(b@.skip(i as int).drop_first() =~= b@.skip(i + 1));
        }
        i = i + 1;
    }
    proof {
        if i == a@.len() {
            assert(a@.skip(i as int) =~= Seq::<u32>::empty());
        }
        if i == b@.len() {
            assert(b@.skip(i as int) =~= Seq::<u32>::empty());
        }
    }
    if a.len() == b.len() {
        0
    } else if a.len() < b.len() {
        -1
    } else {
        1
    }
}

/// The listing order, computed: whether `a` sorts at or before `b`.
pub fn entry_le_exec(a: &FileEntry, b: &FileEntry) -> (r: bool)
    ensures
        r == entry_le(a@, b@),
{
    let ra: u8 = if a.is_dir { 0 } else { 1 };
    let rb: u8 = if b.is_dir { 0 } else { 1 };
    if ra != rb {
        return ra < rb;
    }
    let fa = folded_vec(a.name.as_str());
    let fb = folded_vec(b.name.as_str());
    let c1 = lex_cmp_exec(&fa, &fb);
    if c1 != 0 {
        return c1 < 0;
    }
    let na = codes_vec(a.name.as_str());
    let nb = codes_vec(b.name.as_str());
    let c2 = lex_cmp_exec(&na, &nb);
    if c2 != 0 {
        return c2 < 0;
    }
    let pa = codes_vec(a.path.as_str());
    let pb = codes_vec(b.path.as_str());
    let c3 = lex_cmp_exec(&pa, &pb);
    if c3 != 0 {
        return c3 < 0;
    }
    if a.size != b.size {
        return a.size < b.size;
    }
    a.modified <= b.modified
}

} // verus!
