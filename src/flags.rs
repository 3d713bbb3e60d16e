//! Packing a set of single-bit flags into one unsigned integer and back.

use vstd::prelude::*;

verus! {

/// A closed enumeration whose members each stand for one bit of a field.
pub trait FlagBit: Sized + Copy {
    /// The position of this member's bit.
    spec fn spec_index(self) -> u32;

    /// The width in bits of the field that carries these flags.
    spec fn spec_width() -> u32;

    /// The member whose bit is at position `i`, if there is one.
    spec fn spec_of_index(i: u32) -> Option<Self>;

    /// Each member has a bit of its own inside the field.
    proof fn lemma_index(self)
        ensures
            Self::spec_width() <= 32,
            self.spec_index() < Self::spec_width(),
            Self::spec_of_index(self.spec_index()) == Some(self),
    ;

    /// The field is at most 32 bits wide, and a member found at position `i`
    /// has its bit there.
    proof fn lemma_of_index(i: u32)
        ensures
            Self::spec_width() <= 32,
            Self::spec_of_index(i) is Some ==> Self::spec_of_index(i)->Some_0.spec_index() == i,
    ;

    fn index(&self) -> (r: u32)
        ensures
            r == self.spec_index(),
    ;

    fn of_index(i: u32) -> (r: Option<Self>)
        ensures
            r == Self::spec_of_index(i),
    ;

    fn width() -> (r: u32)
        ensures
            r == Self::spec_width(),
    ;
}

/// The single-bit value of a member.
pub open spec fn bit_of<F: FlagBit>(f: F) -> u32 {
    1u32 << f.spec_index()
}

/// The OR of the bits of every member of `s`; zero when `s` is empty.
pub open spec fn mask_of<F: FlagBit>(s: Seq<F>) -> u32
    decreases s.len(),
{
    if s.len() == 0 {
        0
    } else {
        mask_of(s.drop_last()) | bit_of(s.last())
    }
}

/// The members whose bits are set in `raw`, among the positions below `n`,
/// in increasing order of position.
pub open spec fn flags_below<F: FlagBit>(raw: u32, n: nat) -> Seq<F>
    decreases n,
{
    if n == 0 {
        Seq::empty()
    } else {
        let i = (n - 1) as u32;
        let prev = flags_below::<F>(raw, (n - 1) as nat);
        if raw & (1u32 << i) != 0 && F::spec_of_index(i) is Some {
            prev.push(F::spec_of_index(i)->Some_0)
        } else {
            prev
        }
    }
}

/// What decoding `raw` gives: the known members whose bits are set, unknown
/// bits dropped.
pub open spec fn flags_of<F: FlagBit>(raw: u32) -> Seq<F> {
    flags_below::<F>(raw, F::spec_width() as nat)
}

proof fn lemma_bits_disjoint(i: u32, j: u32)
    requires
        i < 32,
        j < 32,
    ensures
        ((1u32 << i) & (1u32 << j) != 0) <==> i == j,
        (1u32 << i) != 0,
{
    assert(((1u32 << i) & (1u32 << j) != 0) <==> i == j) by (bit_vector)
        requires
            i < 32,
            j < 32,
    ;
    assert((1u32 << i) != 0) by (bit_vector)
        requires
            i < 32,
    ;
}

proof fn lemma_or_and(x: u32, y: u32, z: u32)
    ensures
        ((x | y) & z != 0) <==> (x & z != 0 || y & z != 0),
{
    assert(((x | y) & z != 0) <==> (x & z != 0 || y & z != 0)) by (bit_vector);
}

/// A member's bit is set in `mask_of(s)` exactly when it belongs to `s`.
pub proof fn lemma_mask_has<F: FlagBit>(s: Seq<F>, f: F)
    ensures
        (mask_of(s) & bit_of(f) != 0) <==> s.contains(f),
    decreases s.len(),
{
    f.lemma_index();
    if s.len() == 0 {
        assert(0u32 & bit_of(f) == 0) by (bit_vector);
    } else {
        let g = s.last();
        g.lemma_index();
        lemma_mask_has(s.drop_last(), f);
        lemma_or_and(mask_of(s.drop_last()), bit_of(g), bit_of(f));
        lemma_bits_disjoint(g.spec_index(), f.spec_index());
        if g.spec_index() == f.spec_index() {
            assert(g == f);
        }
        assert(s =~= s.drop_last().push(g));
        assert(s.contains(f) <==> (s.drop_last().contains(f) || g == f));
    }
}

/// The members of `flags_below(raw, n)` are the known members at positions
/// below `n` whose bits are set in `raw`; none occurs twice.
pub proof fn lemma_flags_below<F: FlagBit>(raw: u32, n: nat, f: F)
    requires
        n <= 32,
    ensures
        flags_below::<F>(raw, n).contains(f) <==> (f.spec_index() < n && raw & bit_of(f) != 0),
        flags_below::<F>(raw, n).no_duplicates(),
        forall|k: int|
            0 <= k < flags_below::<F>(raw, n).len() ==> (#[trigger] flags_below::<F>(
                raw,
                n,
            )[k]).spec_index() < n,
    decreases n,
{
    f.lemma_index();
    if n > 0 {
        let i = (n - 1) as u32;
        let prev = flags_below::<F>(raw, (n - 1) as nat);
        lemma_flags_below::<F>(raw, (n - 1) as nat, f);
        F::lemma_of_index(i);
        if raw & (1u32 << i) != 0 && F::spec_of_index(i) is Some {
            let g = F::spec_of_index(i)->Some_0;
            lemma_flags_below::<F>(raw, (n - 1) as nat, g);
            let cur = prev.push(g);
            assert(cur.contains(f) <==> (prev.contains(f) || g == f)) by {
                if cur.contains(f) && !prev.contains(f) {
                    let k = choose|k: int| 0 <= k < cur.len() && cur[k] == f;
                    assert(k == prev.len());
                }
                if g == f {
                    assert(cur[prev.len() as int] == f);
                }
                if prev.contains(f) {
                    let k = choose|k: int| 0 <= k < prev.len() && prev[k] == f;
                    assert(cur[k] == f);
                }
            }
            if f.spec_index() == i {
                assert(F::spec_of_index(i) == Some(f));
            }
            assert forall|k: int| 0 <= k < cur.len() implies (#[trigger] cur[k]).spec_index()
                < n by {
                if k < prev.len() {
                    assert(cur[k] == prev[k]);
                }
            }
            assert(cur.no_duplicates()) by {
                assert forall|a: int, b: int|
                    0 <= a < cur.len() && 0 <= b < cur.len() && a != b implies cur[a] != cur[b] by {
                    if a < prev.len() && b < prev.len() {
                        assert(cur[a] == prev[a] && cur[b] == prev[b]);
                    } else if a < prev.len() {
                        assert(cur[a] == prev[a]);
                        assert(prev[a].spec_index() < n - 1);
                    } else {
                        assert(cur[b] == prev[b]);
                        assert(prev[b].spec_index() < n - 1);
                    }
                }
            }
        } else {
            if f.spec_index() == i {
                assert(F::spec_of_index(i) == Some(f));
            }
        }
    }
}

/// Decoding what encoding a set of flags gives yields that same set: each
/// member of `s` comes back once, and nothing else comes back.
pub proof fn lemma_flags_round_trip<F: FlagBit>(s: Seq<F>)
    ensures
        flags_of::<F>(mask_of(s)).to_set() == s.to_set(),
        flags_of::<F>(mask_of(s)).no_duplicates(),
{
    let d = flags_of::<F>(mask_of(s));
    assert forall|f: F| d.to_set().contains(f) <==> s.to_set().contains(f) by {
        f.lemma_index();
        lemma_flags_below::<F>(mask_of(s), F::spec_width() as nat, f);
        lemma_mask_has(s, f);
    }
    assert(d.to_set() =~= s.to_set());
    F::lemma_of_index(0);
    lemma_flags_below::<F>(mask_of(s), F::spec_width() as nat, arbitrary());
}

/// `mask_of(s)` has no bit at or above `w`.
pub proof fn lemma_mask_below<F: FlagBit>(s: Seq<F>, w: u32)
    requires
        w < 32,
        forall|k: int| 0 <= k < s.len() ==> (#[trigger] s[k]).spec_index() < w,
    ensures
        mask_of(s) < (1u32 << w),
    decreases s.len(),
{
    if s.len() == 0 {
        assert(0u32 < (1u32 << w)) by (bit_vector)
            requires
                w < 32,
        ;
    } else {
        let x = mask_of(s.drop_last());
        let i = s.last().spec_index();
        assert(s.last() == s[s.len() - 1]);
        assert forall|k: int| 0 <= k < s.drop_last().len() implies (
        #[trigger] s.drop_last()[k]).spec_index() < w by {
            assert(s.drop_last()[k] == s[k]);
        }
        lemma_mask_below(s.drop_last(), w);
        assert((x | (1u32 << i)) < (1u32 << w)) by (bit_vector)
            requires
                x < (1u32 << w),
                i < w,
                w < 32,
        ;
    }
}

/// For a field narrower than 32 bits, `mask_of(s)` fits in the field.
pub proof fn lemma_mask_fits<F: FlagBit>(s: Seq<F>)
    requires
        F::spec_width() < 32,
    ensures
        mask_of(s) < (1u32 << F::spec_width()),
{
    assert forall|k: int| 0 <= k < s.len() implies (#[trigger] s[k]).spec_index()
        < F::spec_width() by {
        s[k].lemma_index();
    }
    lemma_mask_below(s, F::spec_width());
}

/// The OR of the bits of the members of `flags`.
pub fn encode_flags<F: FlagBit>(flags: &Vec<F>) -> (r: u32)
    ensures
        r == mask_of(flags@),
{
    let mut acc: u32 = 0;
    let mut i: usize = 0;
    while i < flags.len()
        invariant
            i <= flags@.len(),
            acc == mask_of(flags@.subrange(0, i as int)),
        decreases flags@.len() - i,
    {
        let f = flags[i];
        proof {
            f.lemma_index();
        }
        let idx = f.index();
        acc = acc | (1u32 << idx);
        proof {
            let s = flags@.subrange(0, i as int + 1);
            assert(s.drop_last() =~= flags@.subrange(0, i as int));
            assert(s.last() == f);
        }
        i = i + 1;
    }
    assert(flags@.subrange(0, flags@.len() as int) =~= flags@);
    acc
}

/// The known members whose bits are set in `raw`, in increasing order of bit
/// position; bits with no member are dropped.
pub fn decode_flags<F: FlagBit>(raw: u32) -> (r: Vec<F>)
    ensures
        r@ == flags_of::<F>(raw),
{
    proof {
        F::lemma_of_index(0);
    }
    let width = F::width();
    let mut out: Vec<F> = Vec::new();
    let mut i: u32 = 0;
    while i < width
        invariant
            i <= width,
            width == F::spec_width(),
            width <= 32,
            out@ == flags_below::<F>(raw, i as nat),
        decreases width - i,
    {
        let bit: u32 = 1u32 << i;
        if raw & bit != 0 {
            match F::of_index(i) {
                Some(f) => {
                    out.push(f);
                },
                None => {},
            }
        }
        i = i + 1;
    }
    out
}

} // verus!
