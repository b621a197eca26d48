//! A fixed-size bitmap, used for instance to implement identifier pools.
use vstd::prelude::*;
use vstd::std_specs::bits::{u64_trailing_zeros, axiom_u64_trailing_zeros};

verus! {

/// The number of bits in a word of the bitmap.
pub const BITS_PER_WORD: usize = 64;

/// Bit `c` of the word `w`.
pub open spec fn bit_of(w: u64, c: u64) -> bool {
    (w >> c) & 1u64 == 1u64
}

/// Bit `j` of a sequence of words, counting from the least significant bit of
/// the first word.
pub open spec fn bit_at(words: Seq<u64>, j: int) -> bool {
    bit_of(words[j / 64], (j % 64) as u64)
}

/// The distance from `start` to `i` when walking forward from `start` and
/// wrapping around at `len`.
pub open spec fn cyclic_distance(i: int, start: int, len: int) -> int {
    if i >= start {
        i - start
    } else {
        i + len - start
    }
}

/// What taking the next bit equal to `target`, in cyclic order from `start`,
/// does: either no bit equals `target` and nothing changes, or the first such
/// bit in cyclic order is returned and flipped.
pub open spec fn next_taken(
    old: Seq<bool>,
    start: int,
    target: bool,
    r: Option<usize>,
    new: Seq<bool>,
) -> bool {
    match r {
        None => {
            &&& forall|j: int| 0 <= j < old.len() ==> old[j] != target
            &&& new == old
        },
        Some(i) => {
            &&& 0 <= i < old.len()
            &&& old[i as int] == target
            &&& forall|j: int|
                0 <= j < old.len() && old[j] == target ==> cyclic_distance(i as int, start, old.len() as int)
                    <= cyclic_distance(j, start, old.len() as int)
            &&& new == old.update(i as int, !target)
        },
    }
}

/// What taking the first bit equal to `target` does: either no bit equals
/// `target` and nothing changes, or the lowest such bit is returned and flipped.
pub open spec fn first_taken(old: Seq<bool>, target: bool, r: Option<usize>, new: Seq<bool>) -> bool {
    match r {
        None => {
            &&& forall|j: int| 0 <= j < old.len() ==> old[j] != target
            &&& new == old
        },
        Some(i) => {
            &&& 0 <= i < old.len()
            &&& old[i as int] == target
            &&& forall|j: int| 0 <= j < i ==> old[j] != target
            &&& new == old.update(i as int, !target)
        },
    }
}

proof fn lemma_bit_and(a: u64, b: u64, c: u64)
    requires
        c < 64,
    ensures
        bit_of(a & b, c) == (bit_of(a, c) && bit_of(b, c)),
{
    assert(((a & b) >> c) & 1u64 == 1u64 <==> ((a >> c) & 1u64 == 1u64 && (b >> c) & 1u64 == 1u64))
        by (bit_vector)
        requires
            c < 64,
    ;
}

proof fn lemma_bit_not(a: u64, c: u64)
    requires
        c < 64,
    ensures
        bit_of(!a, c) == !bit_of(a, c),
{
    assert(((!a) >> c) & 1u64 == 1u64 <==> !((a >> c) & 1u64 == 1u64)) by (bit_vector)
        requires
            c < 64,
    ;
}

proof fn lemma_bit_high_mask(s: u64, c: u64)
    requires
        s < 64,
        c < 64,
    ensures
        bit_of(u64::MAX << s, c) == (c >= s),
{
    assert(((u64::MAX << s) >> c) & 1u64 == 1u64 <==> c >= s) by (bit_vector)
        requires
            s < 64,
            c < 64,
    ;
}

proof fn lemma_bit_low_mask(s: u64, c: u64)
    requires
        0 < s < 64,
        c < 64,
    ensures
        bit_of(u64::MAX >> ((64 - s) as u64), c) == (c < s),
{
    assert(((u64::MAX >> ((64 - s) as u64)) >> c) & 1u64 == 1u64 <==> c < s) by (bit_vector)
        requires
            0 < s < 64,
            c < 64,
    ;
}

proof fn lemma_bit_max(c: u64)
    requires
        c < 64,
    ensures
        bit_of(u64::MAX, c),
        !bit_of(0u64, c),
{
    assert((u64::MAX >> c) & 1u64 == 1u64) by (bit_vector)
        requires
            c < 64,
    ;
    assert(!((0u64 >> c) & 1u64 == 1u64)) by (bit_vector);
}

proof fn lemma_bit_set(w: u64, b: u64, c: u64)
    requires
        b < 64,
        c < 64,
    ensures
        bit_of(w | (1u64 << b), c) == (c == b || bit_of(w, c)),
        bit_of(w & !(1u64 << b), c) == (c != b && bit_of(w, c)),
        bit_of(w ^ (1u64 << b), c) == (if c == b { !bit_of(w, c) } else { bit_of(w, c) }),
{
    assert(((w | (1u64 << b)) >> c) & 1u64 == 1u64 <==> (c == b || (w >> c) & 1u64 == 1u64))
        by (bit_vector)
        requires
            b < 64,
            c < 64,
    ;
    assert(((w & !(1u64 << b)) >> c) & 1u64 == 1u64 <==> (c != b && (w >> c) & 1u64 == 1u64))
        by (bit_vector)
        requires
            b < 64,
            c < 64,
    ;
    assert(((w ^ (1u64 << b)) >> c) & 1u64 == 1u64 <==> (if c == b {
        !((w >> c) & 1u64 == 1u64)
    } else {
        (w >> c) & 1u64 == 1u64
    })) by (bit_vector)
        requires
            b < 64,
            c < 64,
    ;
}

proof fn lemma_trailing_zeros(w: u64)
    requires
        w != 0,
    ensures
        u64_trailing_zeros(w) < 64,
        bit_of(w, u64_trailing_zeros(w) as u64),
        forall|c: u64| c < u64_trailing_zeros(w) ==> !bit_of(w, c),
{
    axiom_u64_trailing_zeros(w);
    assert forall|c: u64| c < u64_trailing_zeros(w) implies !bit_of(w, c) by {
        assert((w >> c) & 1u64 == 0u64);
    }
}

proof fn lemma_candidates(raw: u64, mask: u64, target: bool, c: u64)
    requires
        c < 64,
    ensures
        bit_of((if target { raw } else { !raw }) & mask, c) == ((bit_of(raw, c) == target) && bit_of(
            mask,
            c,
        )),
{
    lemma_bit_and(if target { raw } else { !raw }, mask, c);
    lemma_bit_not(raw, c);
}

proof fn lemma_split_index(word: int, c: int)
    requires
        word >= 0,
        0 <= c < 64,
    ensures
        (word * 64 + c) / 64 == word,
        (word * 64 + c) % 64 == c,
{
    vstd::arithmetic::div_mod::lemma_fundamental_div_mod_converse(word * 64 + c, 64, word, c);
}

/// Changing one word changes only the bits of that word.
proof fn lemma_word_update(old: Seq<u64>, index: int, new_word: u64, j: int)
    requires
        0 <= index < old.len(),
        0 <= j < old.len() * 64,
    ensures
        j / 64 != index ==> bit_at(old.update(index, new_word), j) == bit_at(old, j),
        j / 64 == index ==> bit_at(old.update(index, new_word), j) == bit_of(
            new_word,
            (j % 64) as u64,
        ),
{
}

/// A bitmap that contains `N` words of 64 bits.
#[derive(Debug, Clone, PartialEq, Eq, Hash)]
pub struct Bitmap<const N: usize> {
    data: Vec<u64>,
}

impl<const N: usize> Bitmap<N> {
    /// The bitmap holds `N` words and its bits can be counted in a `usize`.
    pub closed spec fn wf(&self) -> bool {
        &&& self.data.len() == N
        &&& N * 64 <= usize::MAX
    }

    /// The bits of the bitmap, bit `i` being bit `i % 64` of word `i / 64`.
    pub closed spec fn view(&self) -> Seq<bool> {
        Seq::new((N * 64) as nat, |j: int| bit_at(self.data@, j))
    }

    /// The bitmap has `N * 64` bits.
    pub proof fn lemma_view_len(&self)
        ensures
            self@.len() == N * 64,
    {
    }

    fn filled(word: u64) -> (r: Self)
        requires
            N * 64 <= usize::MAX,
        ensures
            r.wf(),
            r.data@ == Seq::new(N as nat, |i: int| word),
    {
        let mut data: Vec<u64> = Vec::new();
        let mut i: usize = 0;
        while i < N
            invariant
                i <= N,
                data@ == Seq::new(i as nat, |k: int| word),
            decreases N - i,
        {
            data.push(word);
            i = i + 1;
        }
        Bitmap { data }
    }

    /// Creates a new bitmap with all bits set to 0.
    pub fn zeroes() -> (r: Self)
        requires
            N * 64 <= usize::MAX,
        ensures
            r.wf(),
            r@ == Seq::new((N * 64) as nat, |i: int| false),
    {
        let r = Self::filled(0);
        assert forall|j: int| 0 <= j < N * 64 implies r@[j] == false by {
            lemma_bit_max((j % 64) as u64);
        }
        assert(r@ =~= Seq::new((N * 64) as nat, |i: int| false));
        r
    }

    /// Creates a new bitmap with all bits set to 1.
    pub fn ones() -> (r: Self)
        requires
            N * 64 <= usize::MAX,
        ensures
            r.wf(),
            r@ == Seq::new((N * 64) as nat, |i: int| true),
    {
        let r = Self::filled(u64::MAX);
        assert forall|j: int| 0 <= j < N * 64 implies r@[j] == true by {
            lemma_bit_max((j % 64) as u64);
        }
        assert(r@ =~= Seq::new((N * 64) as nat, |i: int| true));
        r
    }

    /// Returns the capacity of the bitmap, in bytes.
    pub fn capacity(&self) -> (r: usize)
        requires
            self.wf(),
        ensures
            r == N * 8,
            r * 8 == self@.len(),
    {
        N * 8
    }

    /// Returns the number of bits in the bitmap.
    pub fn count(&self) -> (r: usize)
        requires
            self.wf(),
        ensures
            r == N * 64,
            r == self@.len(),
    {
        N * BITS_PER_WORD
    }

    /// Sets the bit at the given index to 1. The index must be in bounds.
    pub fn set(&mut self, index: usize)
        requires
            old(self).wf(),
            index < old(self)@.len(),
        ensures
            final(self).wf(),
            final(self)@ == old(self)@.update(index as int, true),
    {
        let word = index / BITS_PER_WORD;
        let bit = index % BITS_PER_WORD;
        let old_word = self.data[word];
        let new_word = old_word | (1u64 << bit as u64);
        proof {
            assert forall|c: u64| c < 64 implies bit_of(new_word, c) == (c == bit as u64 || bit_of(
                old_word,
                c,
            )) by {
                lemma_bit_set(old_word, bit as u64, c);
            }
        }
        self.update_word(word, new_word, bit, Ghost(true));
    }

    /// Sets the bit at the given index to 0. The index must be in bounds.
    pub fn clear(&mut self, index: usize)
        requires
            old(self).wf(),
            index < old(self)@.len(),
        ensures
            final(self).wf(),
            final(self)@ == old(self)@.update(index as int, false),
    {
        let word = index / BITS_PER_WORD;
        let bit = index % BITS_PER_WORD;
        let old_word = self.data[word];
        let new_word = old_word & !(1u64 << bit as u64);
        proof {
            assert forall|c: u64| c < 64 implies bit_of(new_word, c) == (c != bit as u64 && bit_of(
                old_word,
                c,
            )) by {
                lemma_bit_set(old_word, bit as u64, c);
            }
        }
        self.update_word(word, new_word, bit, Ghost(false));
    }

    /// Toggles the bit at the given index. The index must be in bounds.
    pub fn toggle(&mut self, index: usize)
        requires
            old(self).wf(),
            index < old(self)@.len(),
        ensures
            final(self).wf(),
            final(self)@ == old(self)@.update(index as int, !old(self)@[index as int]),
    {
        let word = index / BITS_PER_WORD;
        let bit = index % BITS_PER_WORD;
        let old_word = self.data[word];
        let new_word = old_word ^ (1u64 << bit as u64);
        proof {
            assert forall|c: u64| c < 64 implies bit_of(new_word, c) == (if c == bit as u64 {
                !bit_of(old_word, c)
            } else {
                bit_of(old_word, c)
            }) by {
                lemma_bit_set(old_word, bit as u64, c);
            }
        }
        self.update_word(word, new_word, bit, Ghost(!bit_of(old_word, bit as u64)));
    }

    /// Returns the value of the bit at the given index. The index must be in
    /// bounds.
    pub fn get(&self, index: usize) -> (r: bool)
        requires
            self.wf(),
            index < self@.len(),
        ensures
            r == self@[index as int],
    {
        let word = index / BITS_PER_WORD;
        let bit = index % BITS_PER_WORD;
        let value = self.data[word] & (1u64 << bit as u64);
        proof {
            let w = self.data@[word as int];
            let b = bit as u64;
            assert(((w & (1u64 << b)) != 0u64) == ((w >> b) & 1u64 == 1u64)) by (bit_vector)
                requires
                    b < 64,
            ;
        }
        value != 0
    }

    /// Takes the first bit equal to `target`.
    fn take_first(&mut self, target: bool) -> (r: Option<usize>)
        requires
            old(self).wf(),
        ensures
            final(self).wf(),
            first_taken(old(self)@, target, r, final(self)@),
    {
        if N == 0 {
            return None;
        }
        let r = self.take_next(0, target);
        proof {
            if let Some(i) = r {
                assert forall|j: int| 0 <= j < i implies old(self)@[j] != target by {
                    if old(self)@[j] == target {
                        assert(cyclic_distance(i as int, 0, (N * 64) as int) <= cyclic_distance(
                            j,
                            0,
                            (N * 64) as int,
                        ));
                    }
                }
            }
        }
        r
    }

    /// Finds the first bit that is 0, sets it to 1 and returns its index. If all
    /// bits are 1, returns `None`.
    pub fn get_first_zero(&mut self) -> (r: Option<usize>)
        requires
            old(self).wf(),
        ensures
            final(self).wf(),
            first_taken(old(self)@, false, r, final(self)@),
    {
        self.take_first(false)
    }

    /// Finds the first bit that is 1, sets it to 0 and returns its index. If all
    /// bits are 0, returns `None`.
    pub fn get_first_one(&mut self) -> (r: Option<usize>)
        requires
            old(self).wf(),
        ensures
            final(self).wf(),
            first_taken(old(self)@, true, r, final(self)@),
    {
        self.take_first(true)
    }

    /// Finds the first bit that is 0 starting from `start` and wrapping around
    /// to the beginning of the bitmap, sets it to 1 and returns its index. If
    /// all bits are 1, returns `None`. This is how identifier pools find the
    /// next available identifier after a given one. `start` must be in bounds.
    pub fn get_next_zero(&mut self, start: usize) -> (r: Option<usize>)
        requires
            old(self).wf(),
            start < old(self)@.len(),
        ensures
            final(self).wf(),
            next_taken(old(self)@, start as int, false, r, final(self)@),
    {
        self.take_next(start, false)
    }

    /// Finds the first bit that is 1 starting from `start` and wrapping around
    /// to the beginning of the bitmap, sets it to 0 and returns its index. If
    /// all bits are 0, returns `None`. `start` must be in bounds.
    pub fn get_next_one(&mut self, start: usize) -> (r: Option<usize>)
        requires
            old(self).wf(),
            start < old(self)@.len(),
        ensures
            final(self).wf(),
            next_taken(old(self)@, start as int, true, r, final(self)@),
    {
        self.take_next(start, true)
    }

    /// Replaces word `word` by `new_word`, which differs from it in bit `bit`
    /// only, that bit becoming `value`.
    fn update_word(&mut self, word: usize, new_word: u64, bit: usize, Ghost(value): Ghost<bool>)
        requires
            old(self).wf(),
            word < N,
            bit < 64,
            bit_of(new_word, bit as u64) == value,
            forall|c: u64|
                c < 64 && c != bit ==> bit_of(new_word, c) == bit_of(
                    old(self).data@[word as int],
                    c,
                ),
        ensures
            final(self).wf(),
            final(self)@ == old(self)@.update(word * 64 + bit, value),
    {
        let ghost old_data = self.data@;
        let ghost index = word * 64 + bit;
        self.data.set(word, new_word);
        proof {
            lemma_split_index(word as int, bit as int);
            assert forall|j: int| 0 <= j < N * 64 implies #[trigger] self@[j] == old(self)@.update(
                index,
                value,
            )[j] by {
                lemma_word_update(old_data, word as int, new_word, j);
                if j / 64 == word as int {
                    assert(j == word * 64 + j % 64);
                }
            }
            assert(self@ =~= old(self)@.update(index, value));
        }
    }

    /// Bit `c` of word `index` is bit `index * 64 + c` of the bitmap.
    proof fn lemma_view_bit(&self, index: int, c: int)
        requires
            self.wf(),
            0 <= index < N,
            0 <= c < 64,
        ensures
            0 <= index * 64 + c < self@.len(),
            self@[index * 64 + c] == bit_of(self.data@[index], c as u64),
    {
        lemma_split_index(index, c);
    }

    /// Flips bit `bit` of word `word`, whose value is `target`.
    fn take_bit(&mut self, word: usize, bit: usize, Ghost(target): Ghost<bool>)
        requires
            old(self).wf(),
            word < N,
            bit < 64,
            bit_of(old(self).data@[word as int], bit as u64) == target,
        ensures
            final(self).wf(),
            final(self)@ == old(self)@.update(word * 64 + bit, !target),
    {
        let old_word = self.data[word];
        let new_word = if old_word & (1u64 << bit as u64) != 0 {
            old_word & !(1u64 << bit as u64)
        } else {
            old_word | (1u64 << bit as u64)
        };
        proof {
            let b = bit as u64;
            assert(((old_word & (1u64 << b)) != 0u64) == ((old_word >> b) & 1u64 == 1u64))
                by (bit_vector)
                requires
                    b < 64,
            ;
            assert forall|c: u64| c < 64 implies bit_of(new_word, c) == (if c == b {
                !target
            } else {
                bit_of(old_word, c)
            }) by {
                lemma_bit_set(old_word, b, c);
            }
        }
        self.update_word(word, new_word, bit, Ghost(!target));
    }

    /// Takes the next bit equal to `target` in cyclic order from `start`:
    /// flips it and returns its index, or returns `None` if no bit equals
    /// `target`.
    #[verifier::spinoff_prover]
    fn take_next(&mut self, start: usize, target: bool) -> (r: Option<usize>)
        requires
            old(self).wf(),
            start < old(self)@.len(),
        ensures
            final(self).wf(),
            next_taken(old(self)@, start as int, target, r, final(self)@),
    {
        let ghost old_view = self@;
        let ghost len = (N * 64) as int;
        let first = start / BITS_PER_WORD;
        let shift = start % BITS_PER_WORD;
        let mut index = first;
        let mut mask: u64 = u64::MAX << shift as u64;
        // From `start` up to the end of the bitmap.
        while index < N
            invariant
                self.wf(),
                self@ == old_view,
                old_view == old(self)@,
                len == N * 64,
                start < len,
                first == start / 64,
                shift == start % 64,
                first <= index <= N,
                index == first ==> mask == u64::MAX << shift as u64,
                index != first ==> mask == u64::MAX,
                forall|j: int| start <= j < index * 64 ==> old_view[j] != target,
            decreases N - index,
        {
            let raw = self.data[index];
            let candidates = (if target {
                raw
            } else {
                !raw
            }) & mask;
            proof {
                assert forall|c: int| 0 <= c < 64 implies (#[trigger] bit_of(candidates, c as u64) == (
                old_view[index * 64 + c] == target && (index != first || c >= shift))) by {
                    lemma_candidates(raw, mask, target, c as u64);
                    self.lemma_view_bit(index as int, c);
                    if index == first {
                        lemma_bit_high_mask(shift as u64, c as u64);
                    } else {
                        lemma_bit_max(c as u64);
                    }
                }
            }
            if candidates != 0 {
                let bit = candidates.trailing_zeros() as usize;
                let found = index * BITS_PER_WORD + bit;
                proof {
                    lemma_trailing_zeros(candidates);
                    assert(bit_of(candidates, bit as u64));
                    assert forall|j: int|
                        0 <= j < len && old_view[j] == target implies cyclic_distance(
                        found as int,
                        start as int,
                        len,
                    ) <= cyclic_distance(j, start as int, len) by {
                        if j >= start && j < found {
                            let c = j - index * 64;
                            assert(0 <= c < 64);
                            assert(!bit_of(candidates, c as u64));
                        }
                    }
                    self.lemma_view_bit(index as int, bit as int);
                }
                self.take_bit(index, bit, Ghost(target));
                return Some(found);
            }
            proof {
                assert forall|j: int| start <= j < (index + 1) * 64 implies old_view[j] != target by {
                    if j >= index * 64 {
                        let c = j - index * 64;
                        lemma_bit_max(c as u64);
                        assert(!bit_of(candidates, c as u64));
                    }
                }
            }
            mask = u64::MAX;
            index = index + 1;
        }
        // From the beginning of the bitmap up to the word holding `start`.
        index = 0;
        while index < first
            invariant
                self.wf(),
                self@ == old_view,
                old_view == old(self)@,
                len == N * 64,
                start < len,
                first == start / 64,
                shift == start % 64,
                0 <= index <= first,
                forall|j: int| start <= j < len ==> old_view[j] != target,
                forall|j: int| 0 <= j < index * 64 ==> old_view[j] != target,
            decreases first - index,
        {
            let raw = self.data[index];
            let candidates = if target {
                raw
            } else {
                !raw
            };
            proof {
                assert forall|c: int| 0 <= c < 64 implies (#[trigger] bit_of(candidates, c as u64) == (
                old_view[index * 64 + c] == target)) by {
                    lemma_bit_not(raw, c as u64);
                    self.lemma_view_bit(index as int, c);
                }
            }
            if candidates != 0 {
                let bit = candidates.trailing_zeros() as usize;
                let found = index * BITS_PER_WORD + bit;
                proof {
                    lemma_trailing_zeros(candidates);
                    assert(bit_of(candidates, bit as u64));
                    assert forall|j: int|
                        0 <= j < len && old_view[j] == target implies cyclic_distance(
                        found as int,
                        start as int,
                        len,
                    ) <= cyclic_distance(j, start as int, len) by {
                        if j < found && j >= index * 64 {
                            let c = j - index * 64;
                            assert(!bit_of(candidates, c as u64));
                        }
                    }
                    self.lemma_view_bit(index as int, bit as int);
                }
                self.take_bit(index, bit, Ghost(target));
                return Some(found);
            }
            proof {
                assert forall|j: int| 0 <= j < (index + 1) * 64 implies old_view[j] != target by {
                    if j >= index * 64 {
                        let c = j - index * 64;
                        lemma_bit_max(c as u64);
                        assert(!bit_of(candidates, c as u64));
                    }
                }
            }
            index = index + 1;
        }
        // The bits of the word holding `start` that lie before it.
        if shift != 0 {
            let low: u64 = u64::MAX >> (64 - shift) as u64;
            let raw = self.data[first];
            let candidates = (if target {
                raw
            } else {
                !raw
            }) & low;
            proof {
                assert forall|c: int| 0 <= c < 64 implies (#[trigger] bit_of(candidates, c as u64) == (
                old_view[first * 64 + c] == target && c < shift)) by {
                    lemma_candidates(raw, low, target, c as u64);
                    lemma_bit_low_mask(shift as u64, c as u64);
                    self.lemma_view_bit(first as int, c);
                }
            }
            if candidates != 0 {
                let bit = candidates.trailing_zeros() as usize;
                let found = first * BITS_PER_WORD + bit;
                proof {
                    lemma_trailing_zeros(candidates);
                    assert(bit_of(candidates, bit as u64));
                    assert forall|j: int|
                        0 <= j < len && old_view[j] == target implies cyclic_distance(
                        found as int,
                        start as int,
                        len,
                    ) <= cyclic_distance(j, start as int, len) by {
                        if j < found && j >= first * 64 {
                            let c = j - first * 64;
                            assert(!bit_of(candidates, c as u64));
                        }
                    }
                    self.lemma_view_bit(first as int, bit as int);
                }
                self.take_bit(first, bit, Ghost(target));
                return Some(found);
            }
            proof {
                assert forall|j: int| 0 <= j < start implies old_view[j] != target by {
                    if j >= first * 64 {
                        let c = j - first * 64;
                        lemma_bit_max(c as u64);
                        assert(!bit_of(candidates, c as u64));
                    }
                }
            }
        }
        None
    }
}

/// Setting or clearing a bit changes that bit alone, which then reads as the
/// value written.
pub proof fn lemma_write_changes_one_bit(bits: Seq<bool>, index: int, value: bool)
    requires
        0 <= index < bits.len(),
    ensures
        bits.update(index, value)[index] == value,
        forall|j: int| 0 <= j < bits.len() && j != index ==> bits.update(index, value)[j] == bits[j],
        bits.update(index, value).len() == bits.len(),
{
}

/// Toggling a bit twice leaves the bitmap unchanged.
pub proof fn lemma_toggle_twice(bits: Seq<bool>, index: int)
    requires
        0 <= index < bits.len(),
    ensures
        ({
            let once = bits.update(index, !bits[index]);
            once.update(index, !once[index])
        }) == bits,
{
    let once = bits.update(index, !bits[index]);
    assert(once.update(index, !once[index]) =~= bits);
}

/// Searching for a bit from the start of the bitmap, and searching for it in
/// cyclic order from index 0, are the same operation.
pub proof fn lemma_first_is_next_from_zero(
    old: Seq<bool>,
    target: bool,
    r: Option<usize>,
    new: Seq<bool>,
)
    ensures
        first_taken(old, target, r, new) <==> next_taken(old, 0, target, r, new),
{
    if let Some(i) = r {
        if first_taken(old, target, r, new) {
            assert forall|j: int| 0 <= j < old.len() && old[j] == target implies cyclic_distance(
                i as int,
                0,
                old.len() as int,
            ) <= cyclic_distance(j, 0, old.len() as int) by {}
        }
        if next_taken(old, 0, target, r, new) {
            assert forall|j: int| 0 <= j < i implies old[j] != target by {
                if old[j] == target {
                    assert(cyclic_distance(i as int, 0, old.len() as int) <= cyclic_distance(
                        j,
                        0,
                        old.len() as int,
                    ));
                }
            }
        }
    }
}

/// An index handed out by a search is flipped, so a second search for the
/// same value, from any start, never hands it out again: identifiers drawn
/// from a pool stay unique until they are released.
pub proof fn lemma_taken_not_taken_again(
    s0: Seq<bool>,
    target: bool,
    start1: int,
    r1: Option<usize>,
    s1: Seq<bool>,
    start2: int,
    r2: Option<usize>,
    s2: Seq<bool>,
)
    requires
        next_taken(s0, start1, target, r1, s1),
        next_taken(s1, start2, target, r2, s2),
        r1 is Some,
    ensures
        s1[r1->0 as int] == !target,
        r2 != r1,
{
}

/// Once every bit has been taken, a search finds nothing and leaves the
/// bitmap unchanged.
pub proof fn lemma_search_fails_when_exhausted(
    bits: Seq<bool>,
    target: bool,
    start: int,
    r: Option<usize>,
    new: Seq<bool>,
)
    requires
        forall|j: int| 0 <= j < bits.len() ==> bits[j] != target,
        next_taken(bits, start, target, r, new),
    ensures
        r is None,
        new == bits,
{
}


/// The number of bits of `bits` equal to `value`.
pub open spec fn count_of(bits: Seq<bool>, value: bool) -> nat
    decreases bits.len(),
{
    if bits.len() == 0 {
        0
    } else {
        count_of(bits.drop_last(), value) + if bits.last() == value {
            1nat
        } else {
            0nat
        }
    }
}

proof fn lemma_count_update(bits: Seq<bool>, i: int, x: bool, value: bool)
    requires
        0 <= i < bits.len(),
    ensures
        count_of(bits.update(i, x), value) + (if bits[i] == value {
            1int
        } else {
            0int
        }) == count_of(bits, value) + (if x == value {
            1int
        } else {
            0int
        }),
    decreases bits.len(),
{
    let u = bits.update(i, x);
    if i == bits.len() - 1 {
        assert(u.drop_last() =~= bits.drop_last());
    } else {
        assert(u.drop_last() =~= bits.drop_last().update(i, x));
        lemma_count_update(bits.drop_last(), i, x, value);
    }
}

/// Taking a bit moves it from the bits equal to the value searched to the
/// others: a pool that hands out an identifier has one free identifier less
/// and one used identifier more.
pub proof fn lemma_take_counts(
    before: Seq<bool>,
    start: int,
    target: bool,
    r: Option<usize>,
    after: Seq<bool>,
)
    requires
        next_taken(before, start, target, r, after),
        r is Some,
    ensures
        count_of(after, target) + 1 == count_of(before, target),
        count_of(after, !target) == count_of(before, !target) + 1,
{
    let i = r->0 as int;
    lemma_count_update(before, i, !target, target);
    lemma_count_update(before, i, !target, !target);
}

} // verus!
