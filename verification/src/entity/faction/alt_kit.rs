//! Upgrade tokens and the paired starting converters used by the Kit
//! factions: two generic starting converters run as one card.

use crate::entity::converter::Arrow;
use crate::entity::faction::GenericStartingConverter;
use crate::entity::{upgrade_eq, Item, Upgrade};
use vstd::prelude::*;

verus! {

/// Which limited-supply upgrade token can upgrade a given converter.
#[derive(Clone, Copy, Debug, PartialEq, Eq, Hash, Structural)]
pub enum UpgradeToken {
    /// Colony upgrade token, of which 2 can be invented.
    Colony,
    /// Tier one upgrade token, of which 2 can be invented.
    TierOne,
    /// Tier two upgrade token, of which 1 can be invented.
    TierTwo,
}

/// A paired starting converter: the left and right sides run as one
/// card. Its input is the left side's input only; its output is the
/// concatenation of both sides' outputs, kept in a cache.
#[derive(Clone, Debug, PartialEq, Eq)]
pub struct KitConverter {
    pub l_conv: GenericStartingConverter,
    pub r_conv: GenericStartingConverter,
    pub output_cache: Vec<Item>,
}

/// Relates a starting converter to its state after `upgrade(opt)`: a
/// valid option installs that path's converter and exhausts the paths,
/// an invalid one changes nothing.
pub open spec fn gsc_upgraded(before: GenericStartingConverter, opt: int, after:
    GenericStartingConverter) -> bool {
    if 0 <= opt < before.upgrades@.len() {
        after.conv == before.upgrades@[opt].1 && after.upgrades@.len() == 0
    } else {
        after == before
    }
}

impl KitConverter {
    /// Upgrade option indices 0 and 1 address the left converter when it
    /// is upgradable; the numbering collapses onto the right converter
    /// otherwise, to avoid gaps.
    pub open spec fn spec_addresses_left(self, alt: usize) -> bool {
        alt < 2 && self.l_conv.spec_upgradable()
    }

    /// The option index seen by the addressed side.
    pub open spec fn spec_side_index(self, alt: usize) -> int {
        if self.spec_addresses_left(alt) {
            alt as int
        } else if self.l_conv.spec_upgradable() {
            alt - 2
        } else {
            alt as int
        }
    }

    /// Recomputes the output cache as the concatenation of both sides'
    /// outputs; called whenever either side's output changes.
    pub fn update_cache(&mut self)
        ensures
            final(self).l_conv == old(self).l_conv,
            final(self).r_conv == old(self).r_conv,
            final(self).output_cache@ == old(self).l_conv.conv.output@
                + old(self).r_conv.conv.output@,
    {
        let mut cache: Vec<Item> = Vec::new();
        let nl = self.l_conv.conv.output.len();
        for i in 0..nl
            invariant
                nl == self.l_conv.conv.output@.len(),
                *self == *old(self),
                cache@ == self.l_conv.conv.output@.subrange(0, i as int),
        {
            cache.push(self.l_conv.conv.output[i]);
            proof {
                assert(self.l_conv.conv.output@.subrange(0, i + 1) =~= self
                    .l_conv
                    .conv
                    .output@
                    .subrange(0, i as int)
                    .push(self.l_conv.conv.output@[i as int]));
            }
        }
        proof {
            assert(self.l_conv.conv.output@.subrange(0, nl as int) =~= self.l_conv.conv.output@);
        }
        let nr = self.r_conv.conv.output.len();
        for i in 0..nr
            invariant
                nr == self.r_conv.conv.output@.len(),
                *self == *old(self),
                cache@ == self.l_conv.conv.output@ + self.r_conv.conv.output@.subrange(
                    0,
                    i as int,
                ),
        {
            cache.push(self.r_conv.conv.output[i]);
            proof {
                assert(self.r_conv.conv.output@.subrange(0, i + 1) =~= self
                    .r_conv
                    .conv
                    .output@
                    .subrange(0, i as int)
                    .push(self.r_conv.conv.output@[i as int]));
                assert(self.l_conv.conv.output@ + self.r_conv.conv.output@.subrange(0, i + 1)
                    =~= (self.l_conv.conv.output@ + self.r_conv.conv.output@.subrange(
                    0,
                    i as int,
                )).push(self.r_conv.conv.output@[i as int]));
            }
        }
        proof {
            assert(self.r_conv.conv.output@.subrange(0, nr as int) =~= self.r_conv.conv.output@);
        }
        self.output_cache = cache;
    }

    /// The input of the pair is the left converter's input only.
    pub fn input(&self) -> (r: &Vec<Item>)
        ensures
            r@ == self.l_conv.conv.input@,
    {
        &self.l_conv.conv.input
    }

    /// The cached concatenated output of both sides.
    pub fn output(&self) -> (r: &Vec<Item>)
        ensures
            r@ == self.output_cache@,
    {
        &self.output_cache
    }

    /// Upgrades the addressed side in place and recomputes the output
    /// cache. The cost must already have been paid by the caller.
    pub fn upgrade(&mut self, opt: usize)
        ensures
            old(self).spec_addresses_left(opt) ==> final(self).r_conv == old(self).r_conv
                && gsc_upgraded(old(self).l_conv, opt as int, final(self).l_conv),
            !old(self).spec_addresses_left(opt) ==> final(self).l_conv == old(self).l_conv
                && gsc_upgraded(old(self).r_conv, old(self).spec_side_index(opt), final(self).r_conv),
            final(self).output_cache@ == final(self).l_conv.conv.output@
                + final(self).r_conv.conv.output@,
    {
        if opt < 2 && self.l_conv.upgradable() {
            self.l_conv.upgrade(opt);
        } else {
            let idx = if self.l_conv.upgradable() {
                opt - 2
            } else {
                opt
            };
            self.r_conv.upgrade(idx);
        }
        self.update_cache();
    }

    /// Whether either side can still be upgraded.
    pub fn upgradable(&self) -> (r: bool)
        ensures
            r == (self.l_conv.spec_upgradable() || self.r_conv.spec_upgradable()),
    {
        self.l_conv.upgradable() || self.r_conv.upgradable()
    }

    /// Four options when both sides are upgradable, two when exactly one
    /// is, and none otherwise.
    pub fn upgrade_opts(&self) -> (r: Option<usize>)
        ensures
            r == if self.l_conv.spec_upgradable() && self.r_conv.spec_upgradable() {
                Some(4usize)
            } else if self.l_conv.spec_upgradable() || self.r_conv.spec_upgradable() {
                Some(2usize)
            } else {
                None::<usize>
            },
    {
        if self.l_conv.upgradable() && self.r_conv.upgradable() {
            Some(4)
        } else if self.upgradable() {
            Some(2)
        } else {
            None
        }
    }

    /// The cost of the addressed side's option, delegated with the same
    /// index collapsing as `upgrade`.
    pub fn upgrade_cost(&self, alt: usize) -> (r: Option<Upgrade>)
        ensures
            ({
                let side = if self.spec_addresses_left(alt) {
                    self.l_conv
                } else {
                    self.r_conv
                };
                let idx = self.spec_side_index(alt);
                if 0 <= idx < side.upgrades@.len() {
                    r matches Some(u) && upgrade_eq(u, side.upgrades@[idx].0)
                } else {
                    r is None
                }
            }),
    {
        if alt < 2 && self.l_conv.upgradable() {
            self.l_conv.upgrade_cost(alt)
        } else {
            let idx = if self.l_conv.upgradable() {
                alt - 2
            } else {
                alt
            };
            self.r_conv.upgrade_cost(idx)
        }
    }

    /// Paired starting converters are upgraded by paying the path cost
    /// directly; no token is consumed.
    pub fn upgrade_token(&self) -> (r: Option<UpgradeToken>)
        ensures
            r is None,
    {
        None
    }

    /// Paired starting converters always run in the economy phase.
    pub fn color(&self) -> (r: Arrow)
        ensures
            r == Arrow::White,
    {
        Arrow::White
    }
}

} // verus!
