//! Properties of the default answers to combat decisions.

use vstd::prelude::*;
use crate::decisions::spec::{AttackerDeclaration, AttackerOption, BlockerDeclaration, BlockerOption};
use crate::decisions::specs::combat::{default_attacks, default_blocks};

verus! {

/// Declaration `d` is the option at index `i` attacking its first valid
/// target (and that option must attack, if `forced_only`).
pub open spec fn attack_from_option(
    opts: Seq<AttackerOption>,
    d: AttackerDeclaration,
    i: int,
    forced_only: bool,
) -> bool {
    &&& 0 <= i < opts.len()
    &&& opts[i].creature == d.creature
    &&& opts[i].valid_targets@.len() > 0
    &&& d.target == opts[i].valid_targets@[0]
    &&& (forced_only ==> opts[i].must_attack)
}

/// Declaration `d` comes from one of the options (see `attack_from_option`).
pub open spec fn attack_is_legal(opts: Seq<AttackerOption>, d: AttackerDeclaration, forced_only: bool) -> bool {
    exists|i: int| attack_from_option(opts, d, i, forced_only)
}

/// Every default attack is made by an offered creature at a target it may
/// attack; under the minimum strategy only creatures that must attack do.
pub proof fn law_default_attacks_are_legal(opts: Seq<AttackerOption>, forced_only: bool)
    ensures
        forall|k: int|
            0 <= k < default_attacks(opts, forced_only).len() ==> attack_is_legal(
                opts,
                #[trigger] default_attacks(opts, forced_only)[k],
                forced_only,
            ),
    decreases opts.len(),
{
    if opts.len() > 0 {
        let prev = opts.drop_last();
        law_default_attacks_are_legal(prev, forced_only);
        let rest = default_attacks(prev, forced_only);
        let all = default_attacks(opts, forced_only);
        assert forall|k: int| 0 <= k < all.len() implies attack_is_legal(opts, #[trigger] all[k], forced_only) by {
            if k < rest.len() {
                assert(all[k] == rest[k]);
                assert(attack_is_legal(prev, rest[k], forced_only));
                let i = choose|i: int| attack_from_option(prev, rest[k], i, forced_only);
                assert(opts[i] == prev[i]);
                assert(attack_from_option(opts, all[k], i, forced_only));
            } else {
                assert(attack_from_option(opts, all[k], opts.len() - 1, forced_only));
            }
        }
        assert(all == default_attacks(opts, forced_only));
    } else {
        assert(default_attacks(opts, forced_only).len() == 0);
    }
}

/// Declaration `d` is the option at index `i` blocked by its first valid blocker.
pub open spec fn block_from_option(opts: Seq<BlockerOption>, d: BlockerDeclaration, i: int) -> bool {
    &&& 0 <= i < opts.len()
    &&& opts[i].attacker == d.blocking
    &&& opts[i].valid_blockers@.len() > 0
    &&& d.blocker == opts[i].valid_blockers@[0]
}

/// Declaration `d` comes from one of the options (see `block_from_option`).
pub open spec fn block_is_legal(opts: Seq<BlockerOption>, d: BlockerDeclaration) -> bool {
    exists|i: int| block_from_option(opts, d, i)
}

/// Every default block pairs an offered attacker with a creature that may block it.
pub proof fn law_default_blocks_are_legal(opts: Seq<BlockerOption>)
    ensures
        forall|k: int|
            0 <= k < default_blocks(opts).len() ==> block_is_legal(opts, #[trigger] default_blocks(opts)[k]),
    decreases opts.len(),
{
    if opts.len() > 0 {
        let prev = opts.drop_last();
        law_default_blocks_are_legal(prev);
        let rest = default_blocks(prev);
        let all = default_blocks(opts);
        assert forall|k: int| 0 <= k < all.len() implies block_is_legal(opts, #[trigger] all[k]) by {
            if k < rest.len() {
                assert(all[k] == rest[k]);
                assert(block_is_legal(prev, rest[k]));
                let i = choose|i: int| block_from_option(prev, rest[k], i);
                assert(opts[i] == prev[i]);
                assert(block_from_option(opts, all[k], i));
            } else {
                assert(block_from_option(opts, all[k], opts.len() - 1));
            }
        }
        assert(all == default_blocks(opts));
    } else {
        assert(default_blocks(opts).len() == 0);
    }
}

/// Whether the option offers at least one blocker.
pub open spec fn can_be_blocked_option(o: BlockerOption) -> bool {
    o.valid_blockers@.len() > 0
}

/// The block of an option by its first valid blocker.
pub open spec fn first_blocker_block(o: BlockerOption) -> BlockerDeclaration {
    BlockerDeclaration { blocker: o.valid_blockers@[0], blocking: o.attacker }
}

/// The default blocks leave no attacker that can be blocked unblocked: they
/// are, in option order, one block for every option that offers a blocker
/// (by its first valid blocker) and nothing else, so there are as many of
/// them as there are such options.
pub proof fn law_default_blocks_block_every_blockable_attacker(opts: Seq<BlockerOption>)
    ensures
        default_blocks(opts) == opts.filter(|o: BlockerOption| can_be_blocked_option(o)).map_values(
            |o: BlockerOption| first_blocker_block(o),
        ),
        default_blocks(opts).len() == opts.filter(|o: BlockerOption| can_be_blocked_option(o)).len(),
    decreases opts.len(),
{
    let p = |o: BlockerOption| can_be_blocked_option(o);
    let f = |o: BlockerOption| first_blocker_block(o);
    reveal(Seq::filter);
    if opts.len() > 0 {
        law_default_blocks_block_every_blockable_attacker(opts.drop_last());
        let prev = opts.drop_last().filter(p);
        assert(opts.filter(p) == if p(opts.last()) { prev.push(opts.last()) } else { prev });
        if p(opts.last()) {
            assert(prev.push(opts.last()).map_values(f) =~= prev.map_values(f).push(f(opts.last())));
        }
    }
    assert(default_blocks(opts) =~= opts.filter(p).map_values(f));
}

} // verus!
