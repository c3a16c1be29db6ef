//! The piece queue: a seeded seven-bag randomiser with a one-slot hold.
//!
//! Pieces are dealt in bags. A bag holds every shape once, in an order that
//! the generator decides. The queue remembers, as ghost state, every piece it
//! has ever dealt; the pending pieces are always the end of that sequence.

use crate::generator::{generator_from, seeder_from, shuffle_bag};
use crate::shape::MinoType;
use rand_chacha::ChaCha20Rng;
use std::collections::VecDeque;
use std::hash::Hash;
use vstd::prelude::*;

verus! {

/// The seven shapes, in the order in which a bag is filled before it is
/// shuffled.
pub const MINO_ARRAY: [MinoType; 7] = [
    MinoType::MinoI,
    MinoType::MinoO,
    MinoType::MinoS,
    MinoType::MinoZ,
    MinoType::MinoJ,
    MinoType::MinoL,
    MinoType::MinoT,
];

/// A bag holds seven pieces, every shape exactly once.
pub open spec fn is_bag(pieces: Seq<MinoType>) -> bool {
    &&& pieces.len() == 7
    &&& forall|mino_type: MinoType| #[trigger] pieces.to_multiset().count(mino_type) == 1
}

/// The sequence is made of whole bags, one after the other.
pub open spec fn deals_whole_bags(dealt: Seq<MinoType>) -> bool {
    &&& dealt.len() % 7 == 0
    &&& forall|group: int|
        0 <= group && 7 * group + 7 <= dealt.len() ==> is_bag(
            #[trigger] dealt.subrange(7 * group, 7 * group + 7),
        )
}

/// How many bags must be added to `have` pieces to reach `want` pieces.
pub open spec fn bags_needed(have: int, want: int) -> int {
    if want <= have {
        0
    } else {
        (want - have + 6) / 7
    }
}

/// The unshuffled bag is a bag.
pub proof fn lemma_mino_array_is_bag()
    ensures
        is_bag(MINO_ARRAY@),
{
    broadcast use vstd::seq_lib::group_to_multiset_ensures;

    let pieces = MINO_ARRAY@;
    let built = Seq::<MinoType>::empty().push(MinoType::MinoI).push(MinoType::MinoO).push(
        MinoType::MinoS,
    ).push(MinoType::MinoZ).push(MinoType::MinoJ).push(MinoType::MinoL).push(MinoType::MinoT);
    assert(pieces =~= built);
    assert(Seq::<MinoType>::empty().to_multiset() =~= vstd::multiset::Multiset::empty());
    assert forall|mino_type: MinoType| #[trigger] pieces.to_multiset().count(mino_type) == 1 by {}
}

/// What a queue stands for in contracts.
pub struct MinoQueueView {
    /// The pieces still to come, next one first.
    pub pending: Seq<MinoType>,
    /// The held piece, if any.
    pub hold: Option<MinoType>,
    /// The piece in play.
    pub current: MinoType,
    /// Every piece that was ever put into the queue, in order.
    pub dealt: Seq<MinoType>,
}

impl MinoQueueView {
    /// How many of the dealt pieces were drawn already.
    pub open spec fn drawn(self) -> int {
        self.dealt.len() - self.pending.len()
    }

    /// The pieces were dealt in whole bags, and the pending pieces are the
    /// end of what was dealt.
    pub open spec fn wf(self) -> bool {
        &&& deals_whole_bags(self.dealt)
        &&& self.pending.len() <= self.dealt.len()
        &&& self.pending == self.dealt.skip(self.drawn())
    }

    /// `later` continues `self`: whatever was dealt stays dealt, in the same
    /// order, and `bags` whole bags were added.
    pub open spec fn continued_by(self, later: MinoQueueView, bags: int) -> bool {
        &&& later.dealt.len() == self.dealt.len() + 7 * bags
        &&& later.dealt.take(self.dealt.len() as int) == self.dealt
    }

    /// `later` is the queue after `want` pieces were made ready: just enough
    /// bags were added, and nothing was drawn.
    pub open spec fn refilled_to(self, later: MinoQueueView, want: int) -> bool {
        &&& later.wf()
        &&& self.continued_by(later, bags_needed(self.pending.len() as int, want))
        &&& later.drawn() == self.drawn()
        &&& later.pending.len() >= want
        &&& later.hold == self.hold
        &&& later.current == self.current
    }

    /// `later` is the queue after one draw: a bag was added if nothing was
    /// pending, and the piece that was next in line is the current piece.
    pub open spec fn advanced_to(self, later: MinoQueueView) -> bool {
        &&& later.wf()
        &&& self.continued_by(later, bags_needed(self.pending.len() as int, 1))
        &&& later.drawn() == self.drawn() + 1
        &&& later.current == later.dealt[self.drawn()]
        &&& later.hold == self.hold
    }

    /// `later` is the queue after a hold: the current piece went on hold, and
    /// the held piece came back or, with nothing held, a piece was drawn.
    pub open spec fn held_to(self, later: MinoQueueView) -> bool {
        &&& later.wf()
        &&& later.hold == Some(self.current)
        &&& match self.hold {
            Some(held) => {
                &&& later.current == held
                &&& later.pending == self.pending
                &&& later.dealt == self.dealt
            },
            None => {
                &&& self.continued_by(later, bags_needed(self.pending.len() as int, 1))
                &&& later.drawn() == self.drawn() + 1
                &&& later.current == later.dealt[self.drawn()]
            },
        }
    }
}

/// The piece queue with its hold slot.
pub struct MinoQueue {
    queue: VecDeque<MinoType>,
    hold: Option<MinoType>,
    current: MinoType,
    rng: ChaCha20Rng,
    dealt: Ghost<Seq<MinoType>>,
}

impl View for MinoQueue {
    type V = MinoQueueView;

    closed spec fn view(&self) -> MinoQueueView {
        MinoQueueView {
            pending: self.queue@,
            hold: self.hold,
            current: self.current,
            dealt: self.dealt@,
        }
    }
}

impl Clone for MinoQueue {
    /// A copy of the queue that stands for the same pieces.
    fn clone(&self) -> (copy: MinoQueue)
        ensures
            copy@ == self@,
    {
        MinoQueue {
            queue: self.queue.clone(),
            hold: self.hold,
            current: self.current,
            rng: self.rng.clone(),
            dealt: Ghost(self.dealt@),
        }
    }
}

impl Default for MinoQueue {
    /// An empty queue around a generator with a fixed seed. Its current
    /// piece is the square, and nothing was dealt yet.
    fn default() -> (queue: MinoQueue)
        ensures
            queue@.wf(),
            queue@.dealt.len() == 0,
            queue@.pending.len() == 0,
            queue@.hold is None,
            queue@.current == MinoType::MinoO,
    {
        let mut seeder = seeder_from(&"test");
        let queue = MinoQueue {
            queue: VecDeque::new(),
            hold: None,
            current: MinoType::MinoO,
            rng: generator_from(&mut seeder),
            dealt: Ghost(Seq::empty()),
        };
        assert(queue@.pending =~= queue@.dealt.skip(0));
        queue
    }
}

impl MinoQueue {
    /// Puts a bag at the end of the queue, whatever the order of its pieces.
    pub fn push_bag(&mut self, bag: [MinoType; 7])
        requires
            old(self)@.wf(),
            is_bag(bag@),
        ensures
            final(self)@.wf(),
            final(self)@.dealt == old(self)@.dealt + bag@,
            final(self)@.pending == old(self)@.pending + bag@,
            final(self)@.hold == old(self)@.hold,
            final(self)@.current == old(self)@.current,
    {
        let mut i: usize = 0;
        while i < 7
            invariant
                i <= 7,
                self.queue@ == old(self).queue@ + bag@.take(i as int),
                self.hold == old(self).hold,
                self.current == old(self).current,
                self.dealt == old(self).dealt,
            decreases 7 - i,
        {
            self.queue.push_back(bag[i]);
            i += 1;
            assert(self.queue@ =~= old(self).queue@ + bag@.take(i as int));
        }
        assert(bag@.take(7) =~= bag@);
        proof {
            lemma_bag_appended(old(self).dealt@, old(self).queue@, bag@);
            self.dealt@ = self.dealt@ + bag@;
        }
    }

    /// Adds shuffled bags until at least `required_item_num` pieces are
    /// pending.
    pub fn generate_if_needed(&mut self, required_item_num: usize)
        requires
            old(self)@.wf(),
        ensures
            old(self)@.refilled_to(final(self)@, required_item_num as int),
    {
        let ghost start = self@;
        let ghost mut bags: int = 0;
        assert(self@.dealt.take(start.dealt.len() as int) =~= start.dealt);
        while required_item_num > self.queue.len()
            invariant
                self@.wf(),
                start == old(self)@,
                start.wf(),
                0 <= bags,
                start.continued_by(self@, bags),
                self@.drawn() == start.drawn(),
                self@.hold == start.hold,
                self@.current == start.current,
                bags == bags_needed(start.pending.len() as int, self@.pending.len() as int),
                bags == 0 || self@.pending.len() < required_item_num + 7,
            decreases required_item_num + 7 - self@.pending.len(),
        {
            let ghost before = self@;
            let bag = shuffle_bag(MINO_ARRAY, &mut self.rng);
            proof {
                lemma_mino_array_is_bag();
            }
            self.push_bag(bag);
            proof {
                bags = bags + 1;
                assert(self@.dealt.take(start.dealt.len() as int) =~= before.dealt.take(
                    start.dealt.len() as int,
                ));
            }
        }
    }

    /// Makes a queue from a seed: the generator is seeded, a first bag is
    /// dealt, and its first piece becomes the current piece.
    pub fn new(rng_seed: &impl Hash) -> (queue: MinoQueue)
        ensures
            queue@.wf(),
            queue@.dealt.len() == 7,
            queue@.drawn() == 1,
            queue@.current == queue@.dealt[0],
            queue@.hold is None,
    {
        let mut seeder = seeder_from(rng_seed);
        let mut queue = MinoQueue {
            queue: VecDeque::new(),
            hold: None,
            current: MinoType::MinoO,
            rng: generator_from(&mut seeder),
            dealt: Ghost(Seq::empty()),
        };
        assert(queue@.pending =~= queue@.dealt.skip(0));
        queue.next();
        queue
    }

    /// Draws the next piece: it becomes the current piece. A bag is dealt
    /// first if nothing is pending.
    pub fn next(&mut self)
        requires
            old(self)@.wf(),
        ensures
            old(self)@.advanced_to(final(self)@),
    {
        self.generate_if_needed(1);
        let ghost filled = self@;
        self.current = self.queue.pop_front().unwrap();
        assert(self@.pending =~= self@.dealt.skip(self@.drawn()));
    }

    /// The next `num` pieces, without drawing them. Bags are dealt first until
    /// that many are pending.
    pub fn get_next_minos(&mut self, num: usize) -> (minos: Vec<MinoType>)
        requires
            old(self)@.wf(),
        ensures
            old(self)@.refilled_to(final(self)@, num as int),
            minos@ == final(self)@.pending.take(num as int),
    {
        self.generate_if_needed(num);
        let mut minos: Vec<MinoType> = Vec::new();
        let mut i: usize = 0;
        while i < num
            invariant
                i <= num,
                num <= self.queue@.len(),
                minos@ == self.queue@.take(i as int),
            decreases num - i,
        {
            minos.push(self.queue[i]);
            i += 1;
            assert(minos@ =~= self.queue@.take(i as int));
        }
        minos
    }

    /// Swaps the current piece with the held one. With nothing held, the
    /// current piece is put on hold and the next piece is drawn.
    pub fn hold(&mut self)
        requires
            old(self)@.wf(),
        ensures
            old(self)@.held_to(final(self)@),
    {
        match self.hold {
            Some(held) => {
                self.hold = Some(self.current);
                self.current = held;
            },
            None => {
                self.hold = Some(self.current);
                self.next();
            },
        }
    }

    /// The held piece, if any.
    pub fn get_hold(&self) -> (held: Option<MinoType>)
        ensures
            held == self@.hold,
    {
        self.hold
    }

    /// The piece in play.
    pub fn get_current(&self) -> (current: MinoType)
        ensures
            current == self@.current,
    {
        self.current
    }
}

/// Adding a bag to what was dealt keeps the sequence in whole bags, and the
/// pending pieces stay its end.
proof fn lemma_bag_appended(dealt: Seq<MinoType>, pending: Seq<MinoType>, bag: Seq<MinoType>)
    requires
        deals_whole_bags(dealt),
        pending.len() <= dealt.len(),
        pending == dealt.skip(dealt.len() - pending.len()),
        is_bag(bag),
    ensures
        deals_whole_bags(dealt + bag),
        pending + bag == (dealt + bag).skip(dealt.len() - pending.len()),
{
    let longer = dealt + bag;
    assert forall|group: int| 0 <= group && 7 * group + 7 <= longer.len() implies is_bag(
        #[trigger] longer.subrange(7 * group, 7 * group + 7),
    ) by {
        if 7 * group + 7 <= dealt.len() {
            assert(longer.subrange(7 * group, 7 * group + 7) =~= dealt.subrange(
                7 * group,
                7 * group + 7,
            ));
        } else {
            assert(7 * group == dealt.len());
            assert(longer.subrange(7 * group, 7 * group + 7) =~= bag);
        }
    }
    assert(pending + bag =~= longer.skip(dealt.len() - pending.len()));
}

/// Seven-bag fairness: cut into consecutive groups of seven, the pieces that a
/// queue has dealt hold every shape exactly once in each group. The pieces
/// are drawn in the order in which they were dealt.
pub proof fn lemma_seven_bag_fairness(queue: MinoQueueView, group: int, mino_type: MinoType)
    requires
        queue.wf(),
        0 <= group,
        7 * group + 7 <= queue.dealt.len(),
    ensures
        queue.dealt.subrange(7 * group, 7 * group + 7).len() == 7,
        queue.dealt.subrange(7 * group, 7 * group + 7).to_multiset().count(mino_type) == 1,
        queue.dealt.subrange(7 * group, 7 * group + 7).contains(mino_type),
{
    broadcast use vstd::seq_lib::group_to_multiset_ensures;

    let window = queue.dealt.subrange(7 * group, 7 * group + 7);
    assert(is_bag(window));
    assert(window.to_multiset().count(mino_type) == 1);
}

/// The first pieces drawn from a fresh queue come in whole bags: the first
/// piece in play followed by the next `7 * bags - 1` pieces of a preview,
/// cut into consecutive groups of seven, holds every shape exactly once in
/// each group.
pub proof fn lemma_fresh_queue_is_fair(
    fresh: MinoQueueView,
    previewed: MinoQueueView,
    bags: int,
    group: int,
    mino_type: MinoType,
)
    requires
        fresh.wf(),
        fresh.drawn() == 1,
        fresh.current == fresh.dealt[0],
        1 <= bags,
        fresh.refilled_to(previewed, 7 * bags - 1),
        0 <= group < bags,
    ensures
        ({
            let draws = seq![fresh.current] + previewed.pending.take(7 * bags - 1);
            &&& draws.len() == 7 * bags
            &&& draws == previewed.dealt.take(7 * bags)
            &&& draws.subrange(7 * group, 7 * group + 7).to_multiset().count(mino_type) == 1
        }),
{
    let draws = seq![fresh.current] + previewed.pending.take(7 * bags - 1);
    assert(previewed.dealt.take(fresh.dealt.len() as int)[0] == fresh.dealt[0]);
    assert(draws =~= previewed.dealt.take(7 * bags));
    assert(draws.subrange(7 * group, 7 * group + 7) =~= previewed.dealt.subrange(
        7 * group,
        7 * group + 7,
    ));
    lemma_seven_bag_fairness(previewed, group, mino_type);
}

} // verus!
