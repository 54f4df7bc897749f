//! An ordered deck of cards with draw, peek and shuffle operations.
//! Shuffling goes through the random number generator and is therefore
//! only known to permute the deck.

use rand::seq::SliceRandom;
use vstd::prelude::*;

verus! {

broadcast use vstd::seq_lib::group_to_multiset_ensures;

/// An ordered deck; index 0 is the top.
#[derive(Clone, Debug)]
pub struct Deck<T> {
    items: Vec<T>,
}

/// Relies on the slice shuffle of the rand crate: its partial Fisher-
/// Yates walk only swaps elements in place, so afterwards the vector
/// holds exactly the items it held before, in some order. Which order
/// comes back depends on the thread's generator, so nothing more is
/// promised.
#[verifier::external_body]
fn shuffle_in_place<T>(items: &mut Vec<T>)
    ensures
        final(items)@.to_multiset() == old(items)@.to_multiset(),
{
    items.as_mut_slice().shuffle(&mut rand::rng());
}

impl<T> View for Deck<T> {
    type V = Seq<T>;

    closed spec fn view(&self) -> Seq<T> {
        self.items@
    }
}

impl<T> Default for Deck<T> {
    /// An empty deck.
    fn default() -> (r: Self)
        ensures
            r@ == Seq::<T>::empty(),
    {
        Deck { items: Vec::new() }
    }
}

impl<T> Deck<T> {
    /// Creates a deck holding the given items in order.
    pub fn new(items: Vec<T>) -> (r: Self)
        ensures
            r@ == items@,
    {
        Deck { items }
    }

    /// Creates a deck holding the given items in an order drawn from the
    /// thread's random number generator.
    pub fn new_shuffled(items: Vec<T>) -> (r: Self)
        ensures
            r@.to_multiset() == items@.to_multiset(),
            r@.len() == items@.len(),
    {
        let mut items = items;
        shuffle_in_place(&mut items);
        proof {
            items@.to_multiset_ensures();
        }
        Deck { items }
    }

    /// Draws the top card, if any.
    pub fn draw_next(&mut self) -> (r: Option<T>)
        ensures
            old(self)@.len() == 0 ==> r is None && final(self)@ == old(self)@,
            old(self)@.len() > 0 ==> r == Some(old(self)@[0]) && final(self)@ == old(
                self,
            )@.drop_first(),
    {
        if self.items.len() == 0 {
            None
        } else {
            let item = self.items.remove(0);
            proof {
                assert(self.items@ =~= old(self)@.drop_first());
            }
            Some(item)
        }
    }

    /// Draws the first card, from the top, that the predicate accepts;
    /// rejected cards go to the bottom in the order they were seen. If a
    /// full cycle rejects everything, nothing is drawn and the deck is
    /// unchanged.
    #[verifier::loop_isolation(false)]
    pub fn draw_next_matches<P: Fn(&T) -> bool>(&mut self, pred: P) -> (r: Option<T>)
        requires
            forall|t: &T| #[trigger] pred.requires((t,)),
        ensures
            match r {
                Some(x) => exists|k: int|
                    0 <= k < old(self)@.len() && x == #[trigger] old(self)@[k] && call_ensures(
                        pred,
                        (&old(self)@[k],),
                        true,
                    ) && (forall|i: int|
                        0 <= i < k ==> call_ensures(pred, (&old(self)@[i],), false))
                        && final(self)@ == old(self)@.subrange(k + 1, old(self)@.len() as int)
                        + old(self)@.subrange(0, k),
                None => final(self)@ == old(self)@ && forall|i: int|
                    0 <= i < old(self)@.len() ==> call_ensures(pred, (&old(self)@[i],), false),
            },
    {
        let ghost s = old(self)@;
        let ghost el = s.len() as int;
        if self.items.len() == 0 {
            return None;
        }
        let ghost n = el - 1;
        let mut item = self.items.remove(0);
        proof {
            assert(self.items@ =~= s.subrange(1, el) + s.subrange(0, 0));
        }
        let mut count: usize = 0;
        loop
            invariant
                0 <= count <= n,
                item == s[count as int],
                self.items@ == s.subrange(count + 1, el) + s.subrange(0, count as int),
                forall|i: int| 0 <= i < count ==> call_ensures(pred, (&s[i],), false),
            decreases n + 1 - count,
        {
            if pred(&item) {
                return Some(item);
            }
            count = count + 1;
            self.items.push(item);
            proof {
                assert(self.items@ =~= s.subrange(count as int, el) + s.subrange(
                    0,
                    count as int,
                ));
            }
            if count > self.items.len() - 1 {
                proof {
                    assert(self.items@ =~= s);
                }
                return None;
            }
            proof {
                assert(self.items@[0] == s[count as int]);
            }
            item = self.items.remove(0);
            proof {
                assert(self.items@ =~= s.subrange(count + 1, el) + s.subrange(0, count as int));
            }
        }
    }

    /// Puts a card on the bottom of the deck.
    pub fn add_to_bottom(&mut self, item: T)
        ensures
            final(self)@ == old(self)@.push(item),
    {
        self.items.push(item);
    }

    /// Puts a card on the top of the deck.
    pub fn add_to_top(&mut self, item: T)
        ensures
            final(self)@ == old(self)@.insert(0, item),
    {
        self.items.insert(0, item);
    }

    /// The top card, if any, without drawing it.
    pub fn peek(&self) -> (r: Option<&T>)
        ensures
            self@.len() == 0 ==> r is None,
            self@.len() > 0 ==> r == Some(&self@[0]),
    {
        if self.items.len() == 0 {
            None
        } else {
            Some(&self.items[0])
        }
    }

    /// How many cards the deck holds.
    pub fn len(&self) -> (r: usize)
        ensures
            r == self@.len(),
    {
        self.items.len()
    }
}

} // verus!
