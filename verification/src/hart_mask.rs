//! The set of harts that a supervisor names in an inter-processor interrupt
//! request.
//!
//! The mask is a bit vector in supervisor memory: hart `i` is named when bit
//! `i % W` of the `i / W`-th machine word is set, `W` being the number of
//! bits in a `usize`. The mask is read lazily, one word per query: the
//! caller reads the word at [`HartMask::word_address`] and asks
//! [`HartMask::has_bit`] about it.
use vstd::prelude::*;

verus! {

broadcast use vstd::layout::layout_of_primitives;

/// Bit `bit` of `word`, counted from the least significant bit.
pub open spec fn word_bit(word: usize, bit: usize) -> bool {
    (word >> bit) & 1usize == 1usize
}

/// Number of bits in a machine word.
pub open spec fn word_bits() -> usize {
    usize::BITS as usize
}

/// Number of bytes in a machine word.
pub open spec fn word_bytes() -> int {
    (word_bits() / 8) as int
}

/// A hart mask: where its bit vector starts, and the largest hart id that
/// may be asked about.
pub struct HartMask {
    bit_vector: usize,
    max_hart_id: usize,
}

impl HartMask {
    /// Address of the first word of the bit vector.
    pub closed spec fn bit_vector_addr(&self) -> usize {
        self.bit_vector
    }

    /// Largest hart id that may be asked about.
    pub closed spec fn max_hart(&self) -> usize {
        self.max_hart_id
    }

    /// The mask whose bit vector starts at `vaddr`, for harts up to
    /// `max_hart_id`.
    pub closed spec fn spec_from_addr(vaddr: usize, max_hart_id: usize) -> HartMask {
        HartMask { bit_vector: vaddr, max_hart_id }
    }

    /// Address of the word that holds the bit of `hart_id`.
    pub open spec fn spec_word_address(&self, hart_id: usize) -> int {
        self.bit_vector_addr() + (hart_id / word_bits()) * word_bytes()
    }

    /// Whether the mask names `hart_id`, `words` being its bit vector's
    /// words from the first.
    pub open spec fn names(&self, words: Seq<usize>, hart_id: usize) -> bool {
        &&& hart_id <= self.max_hart()
        &&& word_bit(words[(hart_id / word_bits()) as int], hart_id % word_bits())
    }

    /// Whether `hart_id` is in the mask, `mem` giving the word stored at
    /// each address.
    pub open spec fn contains(&self, mem: spec_fn(usize) -> usize, hart_id: usize) -> bool {
        &&& hart_id <= self.max_hart()
        &&& word_bit(mem(self.spec_word_address(hart_id) as usize), hart_id % word_bits())
    }

    /// A mask whose bit vector starts at `vaddr`, for harts up to
    /// `max_hart_id`. Every word of the bit vector up to that hart must
    /// be readable when the mask is queried.
    pub fn from_addr(vaddr: usize, max_hart_id: usize) -> (mask: HartMask)
        ensures
            mask == HartMask::spec_from_addr(vaddr, max_hart_id),
            mask.bit_vector_addr() == vaddr,
            mask.max_hart() == max_hart_id,
    {
        HartMask { bit_vector: vaddr, max_hart_id }
    }

    /// The largest hart id that may be asked about.
    pub fn max_hart_id(&self) -> (max: usize)
        ensures
            max == self.max_hart(),
    {
        self.max_hart_id
    }

    /// Address of the word that holds the bit of `hart_id`; `None` where
    /// that address lies beyond the address space.
    pub fn word_address(&self, hart_id: usize) -> (addr: Option<usize>)
        ensures
            self.spec_word_address(hart_id) <= usize::MAX ==> addr == Some(
                self.spec_word_address(hart_id) as usize,
            ),
            self.spec_word_address(hart_id) > usize::MAX ==> addr is None,
    {
        let (i, _j) = split_index_usize(hart_id);
        let bytes = core::mem::size_of::<usize>();
        assert(i * bytes == self.spec_word_address(hart_id) - self.bit_vector) by (nonlinear_arith)
            requires
                bytes == word_bytes(),
                i == hart_id / word_bits(),
                self.spec_word_address(hart_id) - self.bit_vector == (hart_id / word_bits()) * word_bytes(),
        ;
        assert(i * bytes <= usize::MAX) by (nonlinear_arith)
            requires
                bytes == word_bytes(),
                word_bytes() * 8 == word_bits(),
                i == hart_id / word_bits(),
                word_bits() > 0,
        ;
        let offset = i * bytes;
        if offset <= usize::MAX - self.bit_vector {
            Some(self.bit_vector + offset)
        } else {
            None
        }
    }

    /// Whether the bit of `hart_id` is set in `word`, the word read at
    /// `self.word_address(hart_id)`.
    pub fn has_bit(&self, hart_id: usize, word: usize) -> (set: bool)
        requires
            hart_id <= self.max_hart(),
        ensures
            set == word_bit(word, hart_id % word_bits()),
    {
        let (_i, j) = split_index_usize(hart_id);
        assert((word & (1usize << j) != 0) == ((word >> j) & 1usize == 1usize)) by (bit_vector)
            requires
                j < usize::BITS,
        ;
        word & (1usize << j) != 0
    }

    /// The harts up to `last_hart` that the mask names, in increasing
    /// order, `words` being its bit vector's words from the first.
    pub fn named_harts(&self, words: &Vec<usize>, last_hart: usize) -> (harts: Vec<usize>)
        requires
            last_hart <= self.max_hart(),
            last_hart / word_bits() < words.len(),
        ensures
            forall|k: int| 0 <= k < harts.len() ==> harts[k] <= last_hart && self.names(words@, #[trigger] harts[k]),
            forall|h: usize| h <= last_hart && self.names(words@, h) ==> harts@.contains(h),
            forall|a: int, b: int| 0 <= a < b < harts.len() ==> harts[a] < harts[b],
            forall|h: usize|
                h <= last_hart ==> (harts@.contains(h) <==> (words@[(h / word_bits()) as int] >> (h
                    % word_bits())) & 1usize == 1usize),
    {
        let mut harts: Vec<usize> = Vec::new();
        let mut i: usize = 0;
        loop
            invariant_except_break
                i <= last_hart,
                forall|k: int| 0 <= k < harts.len() ==> harts[k] < i && self.names(words@, #[trigger] harts[k]),
                forall|h: usize| #![trigger self.names(words@, h)] h < i && self.names(words@, h) ==> harts@.contains(h),
                forall|a: int, b: int| 0 <= a < b < harts.len() ==> harts[a] < harts[b],
            invariant
                last_hart <= self.max_hart(),
                last_hart / word_bits() < words.len(),
            ensures
                forall|k: int| 0 <= k < harts.len() ==> harts[k] <= last_hart && self.names(words@, #[trigger] harts[k]),
                forall|h: usize| h <= last_hart && self.names(words@, h) ==> harts@.contains(h),
                forall|a: int, b: int| 0 <= a < b < harts.len() ==> harts[a] < harts[b],
            decreases last_hart - i,
        {
            let (w, _j) = split_index_usize(i);
            assert(w <= last_hart / word_bits()) by (nonlinear_arith)
                requires
                    w == i / word_bits(),
                    i <= last_hart,
                    word_bits() > 0,
            ;
            let ghost before = harts@;
            let named = self.has_bit(i, words[w]);
            assert(named == self.names(words@, i));
            if named {
                harts.push(i);
            }
            assert forall|h: usize| h <= i && self.names(words@, h) implies harts@.contains(h) by {
                if h == i {
                    assert(harts@[harts.len() - 1] == i);
                } else {
                    assert(h < i);
                    assert(before.contains(h));
                    let k = choose|k: int| 0 <= k < before.len() && before[k] == h;
                    assert(harts@[k] == h);
                }
            }
            assert(forall|k: int| 0 <= k < harts.len() ==> harts[k] <= i && self.names(words@, #[trigger] harts[k]));
            if i == last_hart {
                break;
            }
            i = i + 1;
        }
        proof {
            named_harts_are_the_set_bits(*self, words@, last_hart, harts@);
        }
        harts
    }
}

/// Splits a bit index into the index of its word and the index of the bit
/// inside that word.
fn split_index_usize(index: usize) -> (split: (usize, usize))
    ensures
        split.0 == index / word_bits(),
        split.1 == index % word_bits(),
        split.1 < word_bits(),
        index == split.0 * word_bits() + split.1,
{
    let bits_in_usize = core::mem::size_of::<usize>() * 8;
    (index / bits_in_usize, index % bits_in_usize)
}

/// Distinct harts have distinct bits: either their words differ or their
/// positions inside the word do.
pub proof fn hart_bits_distinct(i: usize, j: usize)
    requires
        i != j,
    ensures
        i / word_bits() != j / word_bits() || i % word_bits() != j % word_bits(),
{
    let w = word_bits() as int;
    assert(w > 0);
    vstd::arithmetic::div_mod::lemma_fundamental_div_mod(i as int, w);
    vstd::arithmetic::div_mod::lemma_fundamental_div_mod(j as int, w);
}

/// The mask that `HartMask::from_addr(vaddr, max_hart_id)` builds starts its
/// bit vector at `vaddr` itself and names harts up to `max_hart_id`.
pub proof fn from_addr_keeps_its_arguments(vaddr: usize, max_hart_id: usize)
    ensures
        HartMask::spec_from_addr(vaddr, max_hart_id).bit_vector_addr() == vaddr,
        HartMask::spec_from_addr(vaddr, max_hart_id).max_hart() == max_hart_id,
        HartMask::spec_from_addr(vaddr, max_hart_id).spec_word_address(0) == vaddr,
{
}

/// What `named_harts` returns is exactly the harts up to `last_hart` whose
/// bit is set: hart `h` is listed when, and only when, bit `h % W` of word
/// `h / W` is 1, hart 0 included, each hart once, in increasing order.
pub proof fn named_harts_are_the_set_bits(
    mask: HartMask,
    words: Seq<usize>,
    last_hart: usize,
    harts: Seq<usize>,
)
    requires
        last_hart <= mask.max_hart(),
        last_hart / word_bits() < words.len(),
        forall|k: int| 0 <= k < harts.len() ==> harts[k] <= last_hart && mask.names(words, #[trigger] harts[k]),
        forall|h: usize| h <= last_hart && mask.names(words, h) ==> harts.contains(h),
        forall|a: int, b: int| 0 <= a < b < harts.len() ==> harts[a] < harts[b],
    ensures
        forall|h: usize|
            h <= last_hart ==> (harts.contains(h) <==> (words[(h / word_bits()) as int] >> (h
                % word_bits())) & 1usize == 1usize),
        forall|k: int| 0 <= k < harts.len() ==> harts[k] <= last_hart,
        forall|a: int, b: int| 0 <= a < b < harts.len() ==> harts[a] != harts[b],
{
    assert forall|h: usize| h <= last_hart implies (harts.contains(h) <==> (words[(h / word_bits()) as int] >> (h
        % word_bits())) & 1usize == 1usize) by {
        if harts.contains(h) {
            let k = choose|k: int| 0 <= k < harts.len() && harts[k] == h;
            assert(mask.names(words, harts[k]));
        }
    }
}

/// `word_bit(word, bit)` tests exactly bit `bit`: setting that bit makes it
/// true, clearing it makes it false, and flipping any other bit leaves it
/// as it was.
pub proof fn word_bit_tests_one_bit(word: usize, bit: usize, other: usize)
    requires
        bit < usize::BITS,
        other < usize::BITS,
        other != bit,
    ensures
        word_bit(word | (1usize << bit), bit),
        !word_bit(word & !(1usize << bit), bit),
        word_bit(word ^ (1usize << other), bit) == word_bit(word, bit),
{
    assert(((word | (1usize << bit)) >> bit) & 1usize == 1usize) by (bit_vector)
        requires
            bit < usize::BITS,
    ;
    assert(((word & !(1usize << bit)) >> bit) & 1usize != 1usize) by (bit_vector)
        requires
            bit < usize::BITS,
    ;
    assert((((word ^ (1usize << other)) >> bit) & 1usize == 1usize) == ((word >> bit) & 1usize
        == 1usize)) by (bit_vector)
        requires
            bit < usize::BITS,
            other < usize::BITS,
            other != bit,
    ;
}

/// The bit vector's words are consecutive machine words from its start:
/// hart 0's word is at the start, harts of one word share its address, and
/// the harts `W` further on have the next word.
pub proof fn word_addresses_are_consecutive(mask: HartMask, hart_id: usize, later: usize)
    requires
        later == hart_id + word_bits(),
    ensures
        mask.spec_word_address(0) == mask.bit_vector_addr(),
        mask.spec_word_address(later) == mask.spec_word_address(hart_id) + word_bits() / 8,
        mask.spec_word_address(hart_id) == mask.spec_word_address(
            (hart_id - hart_id % word_bits()) as usize,
        ),
{
    let w = word_bits() as int;
    let h = hart_id as int;
    let q = h / w;
    assert(w > 0);
    vstd::arithmetic::div_mod::lemma_div_plus_one(h, w);
    assert((later as int) / w == q + 1);
    assert(((q + 1) * word_bytes()) == q * word_bytes() + word_bytes()) by (nonlinear_arith);
    assert(word_bytes() == word_bits() / 8);
    vstd::arithmetic::div_mod::lemma_fundamental_div_mod(h, w);
    let aligned = (hart_id - hart_id % word_bits()) as usize;
    assert(aligned as int == w * q);
    vstd::arithmetic::div_mod::lemma_div_multiples_vanish(q, w);
    assert((aligned as int) / w == q);
}

} // verus!
