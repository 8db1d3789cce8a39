//! Functions dealing with random piece generation.
//!
//! This uses a fixed RNG for reproducible replays from a single seed.

use vstd::prelude::*;

use vstd::multiset::Multiset;
use vstd::seq_lib::group_to_multiset_ensures;

use crate::constants::PIECE_TYPE_COUNT;
use crate::primitives::PieceType;

verus! {

/// Low-level random context: four 32-bit words of generator state.
#[derive(Clone, Copy, Debug, PartialEq, Eq, Structural)]
pub struct LLRand {
    /// First word of the generator state.
    pub a: u32,
    /// Second word of the generator state.
    pub b: u32,
    /// Third word of the generator state.
    pub c: u32,
    /// Fourth word of the generator state; each output is the fresh `d`.
    pub d: u32,
}

/// Left rotation of a 32-bit word by `n` bits.
pub open spec fn rotl_spec(x: u32, n: u32) -> u32
    recommends
        0 < n < 32,
{
    (x << n) | (x >> ((32 - n) as u32))
}

/// One step of the generator: the fixed rotate/add/xor mix over the four
/// state words.  The output sequence of this exact function is a replay
/// contract and must be reproduced bit for bit.
pub open spec fn llrand_mix(s: LLRand) -> LLRand {
    let e = vstd::wrapping::u32_specs::wrapping_sub(s.a, rotl_spec(s.b, 27));
    let a2 = s.b ^ rotl_spec(s.c, 17);
    let b2 = vstd::wrapping::u32_specs::wrapping_add(s.c, s.d);
    let c2 = vstd::wrapping::u32_specs::wrapping_add(s.d, e);
    let d2 = vstd::wrapping::u32_specs::wrapping_add(a2, e);
    LLRand { a: a2, b: b2, c: c2, d: d2 }
}

/// The generator state `n` mix steps after `s`.
pub open spec fn llrand_iter(s: LLRand, n: nat) -> LLRand
    decreases n,
{
    if n == 0 {
        s
    } else {
        llrand_mix(llrand_iter(s, (n - 1) as nat))
    }
}

/// The generator state seeded but not yet warmed up.
pub open spec fn llrand_init(seed: u32) -> LLRand {
    LLRand { a: 0xF1EA5EED, b: seed, c: seed, d: seed }
}

/// The `i`-th raw 32-bit draw produced from state `s` (counting from 0).
pub open spec fn draw_at(s: LLRand, i: nat) -> u32 {
    llrand_iter(s, i + 1).d
}

/// Whether a raw draw is accepted by the modulo-bias rejection rule for the
/// given range width.
pub open spec fn accepts(x: u32, range: u32) -> bool
    recommends
        range > 0,
{
    x < u32::MAX - (u32::MAX % range)
}

/// All draws before the `n`-th out of state `s` are rejected.
pub open spec fn rejected_before(s: LLRand, n: nat, range: u32) -> bool {
    forall|i: nat| i < n ==> !accepts(#[trigger] draw_at(s, i), range)
}

/// Hard ceiling on the raw draws one `in_range` call may consume.  The
/// rejection rule discards at most a few billionths of the draw space, so no
/// feasible execution comes near this bound; it exists so that every loop in
/// the crate provably terminates.
pub const DRAW_CAP: u64 = 0xFFFF_FFFF_FFFF_FFFF;

/// The `in_range` call out of state `s0` consumed exactly `n + 1` draws: the
/// first `n` rejected, the last accepted and reduced into `[lo, hi)`.
pub open spec fn in_range_trace(s0: LLRand, n: nat, s1: LLRand, r: u32, lo: u32, hi: u32) -> bool {
    let range = (hi - lo) as u32;
    &&& rejected_before(s0, n, range)
    &&& accepts(draw_at(s0, n), range)
    &&& s1 == llrand_iter(s0, n + 1)
    &&& r == lo + draw_at(s0, n) as int % (hi - lo)
}

/// Relates the states before and after an `in_range` call and its result:
/// either the result is the first accepted draw reduced into `[lo, hi)` and
/// the state has advanced over exactly the consumed draws, or every draw up
/// to the cap was rejected and the call gave up on `lo` (a case no feasible
/// execution reaches).
pub open spec fn in_range_post(s0: LLRand, s1: LLRand, r: u32, lo: u32, hi: u32) -> bool {
    ||| exists|n: nat| in_range_trace(s0, n, s1, r, lo, hi)
    ||| {
        &&& rejected_before(s0, DRAW_CAP as nat, (hi - lo) as u32)
        &&& s1 == llrand_iter(s0, DRAW_CAP as nat)
        &&& r == lo
    }
}

/// The sequence `a` with the elements at `i` and `j` exchanged.
pub open spec fn swap_seq<T>(a: Seq<T>, i: int, j: int) -> Seq<T> {
    a.update(j, a[i]).update(i, a[j])
}

/// One Fisher-Yates step at index `lo`: out of state `smid` and contents
/// `bmid`, the index `j` in `[0, lo]` was drawn through `in_range`, and the
/// elements at `lo` and `j` were exchanged, ending in state `s2` with
/// contents `b`.
pub open spec fn fisher_yates_step<T>(
    smid: LLRand,
    bmid: Seq<T>,
    j: u32,
    s2: LLRand,
    b: Seq<T>,
    lo: int,
) -> bool {
    &&& in_range_post(smid, s2, j, 0, (lo + 1) as u32)
    &&& j <= lo
    &&& b == swap_seq(bmid, lo, j as int)
}

/// The Fisher-Yates steps for indices `hi` down to `lo` have been performed:
/// starting from generator state `s0` and contents `a0`, each index `i` in
/// turn drew `j` in `[0, i]` through `in_range` and exchanged the elements
/// at `i` and `j`, ending in state `s2` with contents `b`.
pub open spec fn fisher_yates_done<T>(
    s0: LLRand,
    a0: Seq<T>,
    hi: int,
    lo: int,
    s2: LLRand,
    b: Seq<T>,
) -> bool
    decreases hi - lo + 1,
{
    if lo > hi {
        &&& s2 == s0
        &&& b == a0
    } else {
        exists|smid: LLRand, bmid: Seq<T>, j: u32|
            {
                &&& fisher_yates_done(s0, a0, hi, lo + 1, smid, bmid)
                &&& #[trigger] fisher_yates_step(smid, bmid, j, s2, b, lo)
            }
    }
}

/// Left rotation of a 32-bit word by `n` bits.
fn rotl(x: u32, n: u32) -> (r: u32)
    requires
        0 < n < 32,
    ensures
        r == rotl_spec(x, n),
{
    (x << n) | (x >> (32 - n))
}

impl LLRand {
    /// Construct a new low-level randomizer.
    ///
    /// The state is seeded with a fixed first word, the seed in the three
    /// others, and warmed up by discarding 20 outputs.
    pub fn new(seed: u32) -> (r: LLRand)
        ensures
            r == llrand_iter(llrand_init(seed), 20),
    {
        let mut r = LLRand { a: 0xF1EA5EED, b: seed, c: seed, d: seed };
        let mut i: usize = 0;
        while i < 20
            invariant
                i <= 20,
                r == llrand_iter(llrand_init(seed), i as nat),
            decreases 20 - i,
        {
            r.next();
            i += 1;
        }
        r
    }

    /// Generate a random u32 from the randomizer.
    pub fn next(&mut self) -> (r: u32)
        ensures
            *final(self) == llrand_mix(*old(self)),
            r == final(self).d,
    {
        let e = self.a.wrapping_sub(rotl(self.b, 27));
        self.a = self.b ^ rotl(self.c, 17);
        self.b = self.c.wrapping_add(self.d);
        self.c = self.d.wrapping_add(e);
        self.d = self.a.wrapping_add(e);
        self.d
    }

    /// Generate an unbiased random number in `[lo, hi)`.
    ///
    /// Raw draws that fall into the incomplete final copy of the range at the
    /// top of the 32-bit space are rejected, removing modulo bias; the first
    /// accepted draw is reduced into the range.  Calling this with `lo >= hi`
    /// is a caller bug and is excluded by contract.
    pub fn in_range(&mut self, lo: u32, hi: u32) -> (r: u32)
        requires
            lo < hi,
        ensures
            lo <= r < hi,
            in_range_post(*old(self), *final(self), r, lo, hi),
    {
        let range = hi - lo;
        let rem = u32::MAX % range;
        let ghost s0 = *self;
        let mut x: u32 = 0;
        let mut accepted = false;
        let mut k: u64 = 0;
        loop
            invariant_except_break
                range == hi - lo,
                lo < hi,
                rem == u32::MAX % range,
                !accepted,
                k <= DRAW_CAP,
                *self == llrand_iter(s0, k as nat),
                rejected_before(s0, k as nat, range),
            ensures
                range == hi - lo,
                lo < hi,
                accepted ==> {
                    &&& k >= 1
                    &&& rejected_before(s0, (k - 1) as nat, range)
                    &&& accepts(draw_at(s0, (k - 1) as nat), range)
                    &&& *self == llrand_iter(s0, k as nat)
                    &&& x == draw_at(s0, (k - 1) as nat)
                },
                !accepted ==> {
                    &&& rejected_before(s0, DRAW_CAP as nat, range)
                    &&& *self == llrand_iter(s0, DRAW_CAP as nat)
                },
            decreases DRAW_CAP - k,
        {
            if k >= DRAW_CAP {
                break;
            }
            x = self.next();
            k += 1;
            if x < u32::MAX - rem {
                accepted = true;
                break;
            }
            proof {
                assert forall|i: nat| i < k as nat implies !accepts(
                    #[trigger] draw_at(s0, i),
                    range,
                ) by {
                    if i == k as nat - 1 {
                        assert(draw_at(s0, i) == x);
                    }
                }
            }
        }
        if accepted {
            let r = lo + x % range;
            proof {
                assert(in_range_trace(s0, (k - 1) as nat, *self, r, lo, hi));
            }
            r
        } else {
            lo
        }
    }

    /// Perform an unbiased in-place shuffle of the vector: a Fisher-Yates
    /// pass from the last index down to 1, swapping each element with a
    /// uniformly chosen element at or below it.  The result holds exactly
    /// the elements of the input, rearranged.
    pub fn shuffle<T: Copy>(&mut self, a: &mut Vec<T>)
        requires
            old(a)@.len() <= 0xFFFF_FFFF,
        ensures
            final(a)@.len() == old(a)@.len(),
            final(a)@.to_multiset() == old(a)@.to_multiset(),
            fisher_yates_done(
                *old(self),
                old(a)@,
                old(a)@.len() - 1,
                1,
                *final(self),
                final(a)@,
            ),
    {
        let len = a.len();
        let ghost s0 = *self;
        let ghost hi = len as int - 1;
        let mut i: usize = len;
        while i > 1
            invariant
                i <= len,
                len <= 0xFFFF_FFFF,
                s0 == *old(self),
                hi == old(a)@.len() - 1,
                len == old(a)@.len(),
                a@.len() == len,
                a@.to_multiset() == old(a)@.to_multiset(),
                fisher_yates_done(s0, old(a)@, hi, if i as int > 1 { i as int } else { 1 }, *self, a@),
            decreases i,
        {
            i -= 1;
            let ghost smid = *self;
            let ghost bmid = a@;
            let j = self.in_range(0, (i + 1) as u32) as usize;
            let ghost s = a@;
            let t = a[j];
            let ti = a[i];
            a.set(j, ti);
            a.set(i, t);
            proof {
                broadcast use group_to_multiset_ensures;
                broadcast use vstd::multiset::group_multiset_axioms;

                assert(a@ == s.update(j as int, s[i as int]).update(i as int, s[j as int]));
                assert(a@.to_multiset() =~= s.to_multiset());
                assert(a@ == swap_seq(bmid, i as int, j as int));
                assert(fisher_yates_step(smid, bmid, j as u32, *self, a@, i as int));
                assert(fisher_yates_done(s0, old(a)@, hi, i as int, *self, a@));
            }
        }
    }
}

/// The type of `Randomizer` to use when generating pieces.
#[derive(Clone, Copy, Debug, PartialEq, Eq, Structural)]
pub enum RandomizerType {
    /// Independent uniform draws.
    Simple,
    /// A shuffled bag of all seven piece types, dealt out in full.
    Bag7,
}

/// The seven piece types, each once, in declaration order.
pub open spec fn full_bag_seq() -> Seq<PieceType> {
    seq![
        PieceType::I,
        PieceType::J,
        PieceType::L,
        PieceType::O,
        PieceType::S,
        PieceType::T,
        PieceType::Z,
    ]
}

/// The multiset holding each of the seven piece types exactly once.
pub open spec fn full_bag() -> Multiset<PieceType> {
    full_bag_seq().to_multiset()
}

/// Whether a bag must be rejected as the very first bag of a game: the
/// first-bag rule excludes an S, Z or O piece at the front.
pub open spec fn bag_start_excluded(b: Seq<PieceType>) -> bool {
    ||| b[0] == PieceType::S
    ||| b[0] == PieceType::Z
    ||| b[0] == PieceType::O
}

/// `n` rejected first-bag shuffles have been performed: starting from
/// generator state `s0` and bag `a0`, each shuffle of the full bag (indices
/// `hi` down to 1) left a piece at the front that the first-bag rule
/// excludes, ending in state `s2` with bag `b`.
pub open spec fn bag_reshuffled(
    s0: LLRand,
    a0: Seq<PieceType>,
    n: nat,
    hi: int,
    s2: LLRand,
    b: Seq<PieceType>,
) -> bool
    decreases n,
{
    if n == 0 {
        &&& s2 == s0
        &&& b == a0
    } else {
        exists|s1: LLRand, b1: Seq<PieceType>|
            {
                &&& bag_reshuffled(s0, a0, (n - 1) as nat, hi, s1, b1)
                &&& #[trigger] fisher_yates_done(s1, b1, hi, 1, s2, b)
                &&& bag_start_excluded(b)
            }
    }
}

/// Relates a fresh bag randomizer's generator state `s2` and bag `b` to the
/// context `c0` it was built on: the bag was filled with the seven piece
/// types in declaration order and shuffled, reshuffled as long as the
/// first-bag rule rejected its front.  The second case records the
/// draw-cap fallback to the unshuffled bag, which no feasible execution
/// reaches.
pub open spec fn first_bag_post(c0: LLRand, s2: LLRand, b: Seq<PieceType>) -> bool {
    ||| exists|n: nat, smid: LLRand, bmid: Seq<PieceType>|
        {
            &&& #[trigger] bag_reshuffled(c0, full_bag_seq(), n, 6, smid, bmid)
            &&& fisher_yates_done(smid, bmid, 6, 1, s2, b)
            &&& !bag_start_excluded(b)
        }
    ||| exists|bmid: Seq<PieceType>|
        {
            &&& #[trigger] bag_reshuffled(c0, full_bag_seq(), DRAW_CAP as nat, 6, s2, bmid)
            &&& b == full_bag_seq()
        }
}

/// Piece-sequence generator built on the low-level randomizer.
#[derive(Clone, Debug)]
pub struct Randomizer {
    /// Low-level randomizer context.
    pub context: LLRand,
    /// The type of randomizer used.
    pub ty: RandomizerType,
    /// Buffer workspace storing the current bag of incoming pieces.
    pub buffer: Vec<PieceType>,
    /// Current read cursor into the buffer.
    pub buffer_index: usize,
}

impl Randomizer {
    /// Well-formedness: a bag randomizer always holds a full bag of seven
    /// pieces with its cursor inside it.
    pub open spec fn wf(self) -> bool {
        self.ty == RandomizerType::Bag7 ==> {
            &&& self.buffer@.len() == 7
            &&& self.buffer@.to_multiset() == full_bag()
            &&& self.buffer_index < 7
        }
    }

    /// Construct a new `Randomizer` of the specified type.
    ///
    /// A bag randomizer starts with a shuffled full bag; the very first bag
    /// is reshuffled until it does not begin with an S, Z or O piece.
    pub fn new(context: LLRand, ty: RandomizerType) -> (r: Randomizer)
        ensures
            r.wf(),
            r.ty == ty,
            r.buffer_index == 0,
            ty == RandomizerType::Simple ==> r.context == context,
            ty == RandomizerType::Bag7 ==> {
                &&& r.buffer@[0] != PieceType::S
                &&& r.buffer@[0] != PieceType::Z
                &&& r.buffer@[0] != PieceType::O
                &&& first_bag_post(context, r.context, r.buffer@)
            },
    {
        let mut r = Randomizer { context, ty, buffer: Vec::new(), buffer_index: 0 };
        match r.ty {
            RandomizerType::Simple => {},
            RandomizerType::Bag7 => {
                r.buffer.push(PieceType::I);
                r.buffer.push(PieceType::J);
                r.buffer.push(PieceType::L);
                r.buffer.push(PieceType::O);
                r.buffer.push(PieceType::S);
                r.buffer.push(PieceType::T);
                r.buffer.push(PieceType::Z);
                proof {
                    assert(r.buffer@ =~= full_bag_seq());
                }
                let mut tries: u64 = 0;
                loop
                    invariant_except_break
                        r.ty == ty,
                        r.buffer_index == 0,
                        r.buffer@.len() == 7,
                        r.buffer@.to_multiset() == full_bag(),
                        tries <= DRAW_CAP,
                        bag_reshuffled(context, full_bag_seq(), tries as nat, 6, r.context, r.buffer@),
                    ensures
                        r.ty == ty,
                        r.buffer_index == 0,
                        r.buffer@.len() == 7,
                        r.buffer@.to_multiset() == full_bag(),
                        r.buffer@[0] != PieceType::S,
                        r.buffer@[0] != PieceType::Z,
                        r.buffer@[0] != PieceType::O,
                        first_bag_post(context, r.context, r.buffer@),
                    decreases DRAW_CAP - tries,
                {
                    if tries >= DRAW_CAP {
                        // No feasible execution rejects this many shuffles;
                        // fall back to the unshuffled bag so that the loop
                        // provably terminates.
                        let ghost bmid = r.buffer@;
                        r.buffer.clear();
                        r.buffer.push(PieceType::I);
                        r.buffer.push(PieceType::J);
                        r.buffer.push(PieceType::L);
                        r.buffer.push(PieceType::O);
                        r.buffer.push(PieceType::S);
                        r.buffer.push(PieceType::T);
                        r.buffer.push(PieceType::Z);
                        proof {
                            assert(r.buffer@ =~= full_bag_seq());
                            assert(bag_reshuffled(
                                context,
                                full_bag_seq(),
                                DRAW_CAP as nat,
                                6,
                                r.context,
                                bmid,
                            ));
                            assert(first_bag_post(context, r.context, r.buffer@));
                        }
                        break;
                    }
                    tries += 1;
                    let ghost smid = r.context;
                    let ghost bprev = r.buffer@;
                    r.context.shuffle(&mut r.buffer);
                    match r.buffer[0] {
                        PieceType::S | PieceType::Z | PieceType::O => {
                            proof {
                                assert(bag_start_excluded(r.buffer@));
                                assert(bag_reshuffled(
                                    context,
                                    full_bag_seq(),
                                    (tries - 1) as nat,
                                    6,
                                    smid,
                                    bprev,
                                ));
                                assert(fisher_yates_done(smid, bprev, 6, 1, r.context, r.buffer@));
                                assert(bag_reshuffled(
                                    context,
                                    full_bag_seq(),
                                    tries as nat,
                                    6,
                                    r.context,
                                    r.buffer@,
                                ));
                            }
                        },
                        _ => {
                            proof {
                                assert(!bag_start_excluded(r.buffer@));
                                assert(bag_reshuffled(
                                    context,
                                    full_bag_seq(),
                                    (tries - 1) as nat,
                                    6,
                                    smid,
                                    bprev,
                                ));
                                assert(fisher_yates_done(smid, bprev, 6, 1, r.context, r.buffer@));
                                assert(first_bag_post(context, r.context, r.buffer@));
                            }
                            break;
                        },
                    }
                }
            },
        }
        r
    }

    /// Generate the next piece in the current `Randomizer`'s sequence.
    ///
    /// A simple randomizer converts one unbiased draw in `[0, 7)`; a bag
    /// randomizer deals the piece under its cursor and reshuffles a full bag
    /// whenever the old one has been dealt out.
    pub fn next(&mut self) -> (p: PieceType)
        requires
            old(self).wf(),
        ensures
            final(self).wf(),
            final(self).ty == old(self).ty,
            old(self).ty == RandomizerType::Simple ==> {
                &&& final(self).buffer == old(self).buffer
                &&& final(self).buffer_index == old(self).buffer_index
                &&& exists|x: u32|
                    {
                        &&& #[trigger] in_range_post(old(self).context, final(self).context, x, 0, 7)
                        &&& p == PieceType::from_index_spec(x as int)
                    }
            },
            old(self).ty == RandomizerType::Bag7 ==> {
                &&& p == old(self).buffer@[old(self).buffer_index as int]
                &&& old(self).buffer_index < 6 ==> {
                    &&& final(self).buffer == old(self).buffer
                    &&& final(self).buffer_index == old(self).buffer_index + 1
                    &&& final(self).context == old(self).context
                }
                &&& old(self).buffer_index == 6 ==> {
                    &&& final(self).buffer_index == 0
                    &&& fisher_yates_done(
                        old(self).context,
                        old(self).buffer@,
                        6,
                        1,
                        final(self).context,
                        final(self).buffer@,
                    )
                }
            },
    {
        match self.ty {
            RandomizerType::Simple => {
                let x = self.context.in_range(0, PIECE_TYPE_COUNT as u32);
                let p = PieceType::from_index(x);
                proof {
                    assert(in_range_post(old(self).context, self.context, x, 0, 7));
                }
                p
            },
            RandomizerType::Bag7 => {
                let p = self.buffer[self.buffer_index];
                self.buffer_index += 1;
                if self.buffer_index >= PIECE_TYPE_COUNT {
                    self.context.shuffle(&mut self.buffer);
                    self.buffer_index = 0;
                }
                p
            },
        }
    }
}

/// Sum of the ordinals of the piece types in a sequence.
pub open spec fn ord_sum(s: Seq<PieceType>) -> int
    decreases s.len(),
{
    if s.len() == 0 {
        0
    } else {
        ord_sum(s.drop_last()) + s.last().ordinal_spec()
    }
}

/// Sum of the ordinals of the piece types in a multiset.
pub open spec fn weighted_ord_sum(m: Multiset<PieceType>) -> int {
    m.count(PieceType::I) * 0int + m.count(PieceType::J) * 1int + m.count(PieceType::L) * 2int
        + m.count(PieceType::O) * 3int + m.count(PieceType::S) * 4int + m.count(PieceType::T)
        * 5int + m.count(PieceType::Z) * 6int
}

/// The ordinal sum of a sequence depends only on which pieces it holds, not
/// on their order.
pub proof fn lemma_ord_sum_weighted(s: Seq<PieceType>)
    ensures
        ord_sum(s) == weighted_ord_sum(s.to_multiset()),
    decreases s.len(),
{
    broadcast use group_to_multiset_ensures;
    broadcast use vstd::multiset::group_multiset_axioms;

    if s.len() == 0 {
        assert(s.to_multiset() =~= Multiset::<PieceType>::empty());
    } else {
        let s0 = s.drop_last();
        let p = s.last();
        lemma_ord_sum_weighted(s0);
        assert(s =~= s0.push(p));
        assert(s.to_multiset() =~= s0.to_multiset().insert(p));
    }
}

/// Any full bag of the seven piece types, in whatever order, has ordinal sum
/// 21: each of the ordinals 0 through 6 appears exactly once.
pub proof fn lemma_bag_ordinal_sum(s: Seq<PieceType>)
    requires
        s.to_multiset() == full_bag(),
    ensures
        ord_sum(s) == 21,
{
    broadcast use group_to_multiset_ensures;
    broadcast use vstd::multiset::group_multiset_axioms;

    lemma_ord_sum_weighted(s);
    assert(full_bag_seq().to_multiset() =~= Multiset::<PieceType>::empty().insert(
        PieceType::I,
    ).insert(PieceType::J).insert(PieceType::L).insert(PieceType::O).insert(PieceType::S).insert(
        PieceType::T,
    ).insert(PieceType::Z)) by {
        assert(full_bag_seq() =~= Seq::<PieceType>::empty().push(PieceType::I).push(
            PieceType::J,
        ).push(PieceType::L).push(PieceType::O).push(PieceType::S).push(PieceType::T).push(
            PieceType::Z,
        ));
        assert(Seq::<PieceType>::empty().to_multiset() =~= Multiset::<PieceType>::empty());
    }
}

} // verus!
