//! Combat decision specifications.
//!
//! These specs are for combat-related decisions: declaring attackers,
//! declaring blockers, and ordering attackers/blockers for damage assignment.

use vstd::prelude::*;
use crate::ids::{ObjectId, PlayerId, copy_objects};
use crate::combat_state::AttackTarget;
use crate::game::GameState;
use crate::decision::FallbackStrategy;
use crate::decisions::context::{
    AttackerOptionContext, AttackersContext, BlockerOptionContext, BlockersContext, DecisionContext, OrderContext,
};
use crate::decisions::spec::{
    AttackerDeclaration, AttackerOption, BlockerDeclaration, BlockerOption, DecisionPrimitive, DecisionSpec,
};
use crate::text::string_of;

verus! {

/// The name shown for an object: its name, or `Unknown` if there is no such object.
pub open spec fn shown_name(game: GameState, id: ObjectId) -> Seq<char> {
    match game.object_of(id) {
        Some(o) => o.name@,
        None => "Unknown"@,
    }
}

/// The name shown for an object.
pub fn name_of(game: &GameState, id: ObjectId) -> (t: String)
    ensures
        t@ == shown_name(*game, id),
{
    match game.object(id) {
        Some(o) => o.name.clone(),
        None => string_of("Unknown"),
    }
}

/// The objects with their shown names.
pub open spec fn named_items(game: GameState, ids: Seq<ObjectId>, items: Seq<(ObjectId, String)>) -> bool {
    &&& items.len() == ids.len()
    &&& forall|i: int| 0 <= i < ids.len() ==> (#[trigger] items[i]).0 == ids[i] && items[i].1@ == shown_name(game, ids[i])
}

/// Pairs each object with its shown name.
fn name_items(game: &GameState, ids: &Vec<ObjectId>) -> (items: Vec<(ObjectId, String)>)
    ensures
        named_items(*game, ids@, items@),
{
    let mut items: Vec<(ObjectId, String)> = Vec::new();
    let mut i: usize = 0;
    while i < ids.len()
        invariant
            i <= ids@.len(),
            named_items(*game, ids@.subrange(0, i as int), items@),
        decreases ids.len() - i,
    {
        let id = ids[i];
        items.push((id, name_of(game, id)));
        i = i + 1;
    }
    assert(ids@.subrange(0, ids@.len() as int) == ids@);
    items
}

/// A fresh vector with the same targets.
fn copy_targets(v: &Vec<AttackTarget>) -> (out: Vec<AttackTarget>)
    ensures
        out@ == v@,
{
    let mut out: Vec<AttackTarget> = Vec::new();
    let mut i: usize = 0;
    while i < v.len()
        invariant
            i <= v.len(),
            out@ == v@.subrange(0, i as int),
        decreases v.len() - i,
    {
        out.push(v[i]);
        i = i + 1;
    }
    assert(v@.subrange(0, v@.len() as int) == v@);
    out
}

// ============================================================================
// DeclareAttackersSpec - Declare which creatures attack
// ============================================================================

/// Declaring attackers among the given options.
#[derive(Debug, Clone)]
pub struct DeclareAttackersSpec {
    pub attacker_options: Vec<AttackerOption>,
}

/// Attacks by each option (only those that must attack, if `forced_only`)
/// that has a target, each at its first target, in order.
pub open spec fn default_attacks(opts: Seq<AttackerOption>, forced_only: bool) -> Seq<AttackerDeclaration>
    decreases opts.len(),
{
    if opts.len() == 0 {
        Seq::empty()
    } else {
        let rest = default_attacks(opts.drop_last(), forced_only);
        let o = opts.last();
        if o.valid_targets@.len() > 0 && (!forced_only || o.must_attack) {
            rest.push(AttackerDeclaration { creature: o.creature, target: o.valid_targets@[0] })
        } else {
            rest
        }
    }
}

impl DeclareAttackersSpec {
    /// Create a new DeclareAttackersSpec.
    pub fn new(attacker_options: Vec<AttackerOption>) -> (s: DeclareAttackersSpec)
        ensures
            s.attacker_options == attacker_options,
    {
        DeclareAttackersSpec { attacker_options }
    }

    /// The default attacks of the options.
    fn attacks(&self, forced_only: bool) -> (r: Vec<AttackerDeclaration>)
        ensures
            r@ == default_attacks(self.attacker_options@, forced_only),
    {
        let opts = &self.attacker_options;
        let mut r: Vec<AttackerDeclaration> = Vec::new();
        let mut i: usize = 0;
        while i < opts.len()
            invariant
                i <= opts@.len(),
                r@ == default_attacks(opts@.subrange(0, i as int), forced_only),
            decreases opts.len() - i,
        {
            assert(opts@.subrange(0, i + 1).drop_last() == opts@.subrange(0, i as int));
            let o = &opts[i];
            if o.valid_targets.len() > 0 && (!forced_only || o.must_attack) {
                r.push(AttackerDeclaration { creature: o.creature, target: o.valid_targets[0] });
            }
            i = i + 1;
        }
        assert(opts@.subrange(0, opts@.len() as int) == opts@);
        r
    }
}

impl DecisionSpec for DeclareAttackersSpec {
    type Response = Vec<AttackerDeclaration>;

    fn description(&self) -> (t: String)
        ensures
            t@ == "Declare attackers"@,
    {
        string_of("Declare attackers")
    }

    fn primitive(&self) -> (p: DecisionPrimitive)
        ensures
            p == DecisionPrimitive::DeclareAttackers,
    {
        DecisionPrimitive::DeclareAttackers
    }

    /// `Maximum` attacks with every creature that has a target, `Minimum`
    /// only with those that must attack, each at its first target; any other
    /// strategy declares no attack.
    fn default_response(&self, strategy: FallbackStrategy) -> (r: Vec<AttackerDeclaration>)
        ensures
            r@ == match strategy {
                FallbackStrategy::Maximum => default_attacks(self.attacker_options@, false),
                FallbackStrategy::Minimum => default_attacks(self.attacker_options@, true),
                _ => Seq::empty(),
            },
    {
        match strategy {
            FallbackStrategy::Maximum => self.attacks(false),
            FallbackStrategy::Minimum => self.attacks(true),
            _ => Vec::new(),
        }
    }

    fn build_context(&self, player: PlayerId, source: Option<ObjectId>, game: &GameState) -> (c: DecisionContext)
        ensures
            c matches DecisionContext::Attackers(a) && a.player == player && a.attacker_options@.len()
                == self.attacker_options@.len() && forall|i: int|
                0 <= i < self.attacker_options@.len() ==> {
                    let o = self.attacker_options@[i];
                    let x = #[trigger] a.attacker_options@[i];
                    &&& x.creature == o.creature
                    &&& x.creature_name@ == shown_name(*game, o.creature)
                    &&& x.valid_targets@ == o.valid_targets@
                    &&& x.must_attack == o.must_attack
                },
    {
        let opts = &self.attacker_options;
        let mut out: Vec<AttackerOptionContext> = Vec::new();
        let mut i: usize = 0;
        while i < opts.len()
            invariant
                i <= opts@.len(),
                out@.len() == i,
                forall|k: int|
                    0 <= k < i ==> {
                        let o = opts@[k];
                        let x = #[trigger] out@[k];
                        &&& x.creature == o.creature
                        &&& x.creature_name@ == shown_name(*game, o.creature)
                        &&& x.valid_targets@ == o.valid_targets@
                        &&& x.must_attack == o.must_attack
                    },
            decreases opts.len() - i,
        {
            let o = &opts[i];
            out.push(
                AttackerOptionContext {
                    creature: o.creature,
                    creature_name: name_of(game, o.creature),
                    valid_targets: copy_targets(&o.valid_targets),
                    must_attack: o.must_attack,
                },
            );
            i = i + 1;
        }
        DecisionContext::Attackers(AttackersContext::new(player, out))
    }
}

// ============================================================================
// DeclareBlockersSpec - Declare which creatures block
// ============================================================================

/// Declaring blockers against the given attackers.
#[derive(Debug, Clone)]
pub struct DeclareBlockersSpec {
    pub blocker_options: Vec<BlockerOption>,
}

/// For each attacker that can be blocked, a block by its first valid blocker, in order.
pub open spec fn default_blocks(opts: Seq<BlockerOption>) -> Seq<BlockerDeclaration>
    decreases opts.len(),
{
    if opts.len() == 0 {
        Seq::empty()
    } else {
        let rest = default_blocks(opts.drop_last());
        let o = opts.last();
        if o.valid_blockers@.len() > 0 {
            rest.push(BlockerDeclaration { blocker: o.valid_blockers@[0], blocking: o.attacker })
        } else {
            rest
        }
    }
}

impl DeclareBlockersSpec {
    /// Create a new DeclareBlockersSpec.
    pub fn new(blocker_options: Vec<BlockerOption>) -> (s: DeclareBlockersSpec)
        ensures
            s.blocker_options == blocker_options,
    {
        DeclareBlockersSpec { blocker_options }
    }
}

impl DecisionSpec for DeclareBlockersSpec {
    type Response = Vec<BlockerDeclaration>;

    fn description(&self) -> (t: String)
        ensures
            t@ == "Declare blockers"@,
    {
        string_of("Declare blockers")
    }

    fn primitive(&self) -> (p: DecisionPrimitive)
        ensures
            p == DecisionPrimitive::DeclareBlockers,
    {
        DecisionPrimitive::DeclareBlockers
    }

    /// `Maximum` blocks each attacker with its first valid blocker; any other
    /// strategy declares no block.
    fn default_response(&self, strategy: FallbackStrategy) -> (r: Vec<BlockerDeclaration>)
        ensures
            r@ == if strategy == FallbackStrategy::Maximum {
                default_blocks(self.blocker_options@)
            } else {
                Seq::empty()
            },
    {
        if strategy != FallbackStrategy::Maximum {
            return Vec::new();
        }
        let opts = &self.blocker_options;
        let mut r: Vec<BlockerDeclaration> = Vec::new();
        let mut i: usize = 0;
        while i < opts.len()
            invariant
                i <= opts@.len(),
                r@ == default_blocks(opts@.subrange(0, i as int)),
            decreases opts.len() - i,
        {
            assert(opts@.subrange(0, i + 1).drop_last() == opts@.subrange(0, i as int));
            let o = &opts[i];
            if o.valid_blockers.len() > 0 {
                r.push(BlockerDeclaration { blocker: o.valid_blockers[0], blocking: o.attacker });
            }
            i = i + 1;
        }
        assert(opts@.subrange(0, opts@.len() as int) == opts@);
        r
    }

    fn build_context(&self, player: PlayerId, source: Option<ObjectId>, game: &GameState) -> (c: DecisionContext)
        ensures
            c matches DecisionContext::Blockers(b) && b.player == player && b.blocker_options@.len()
                == self.blocker_options@.len() && forall|i: int|
                0 <= i < self.blocker_options@.len() ==> {
                    let o = self.blocker_options@[i];
                    let x = #[trigger] b.blocker_options@[i];
                    &&& x.attacker == o.attacker
                    &&& x.attacker_name@ == shown_name(*game, o.attacker)
                    &&& named_items(*game, o.valid_blockers@, x.valid_blockers@)
                    &&& x.min_blockers == o.min_blockers
                },
    {
        let opts = &self.blocker_options;
        let mut out: Vec<BlockerOptionContext> = Vec::new();
        let mut i: usize = 0;
        while i < opts.len()
            invariant
                i <= opts@.len(),
                out@.len() == i,
                forall|k: int|
                    0 <= k < i ==> {
                        let o = opts@[k];
                        let x = #[trigger] out@[k];
                        &&& x.attacker == o.attacker
                        &&& x.attacker_name@ == shown_name(*game, o.attacker)
                        &&& named_items(*game, o.valid_blockers@, x.valid_blockers@)
                        &&& x.min_blockers == o.min_blockers
                    },
            decreases opts.len() - i,
        {
            let o = &opts[i];
            out.push(
                BlockerOptionContext {
                    attacker: o.attacker,
                    attacker_name: name_of(game, o.attacker),
                    valid_blockers: name_items(game, &o.valid_blockers),
                    min_blockers: o.min_blockers,
                },
            );
            i = i + 1;
        }
        DecisionContext::Blockers(BlockersContext::new(player, out))
    }
}

// ============================================================================
// OrderBlockersSpec - Order blockers for damage assignment
// ============================================================================

/// Ordering an attacker's blockers for damage assignment.
#[derive(Debug, Clone)]
pub struct OrderBlockersSpec {
    pub attacker: ObjectId,
    pub blockers: Vec<ObjectId>,
}

impl OrderBlockersSpec {
    /// Create a new OrderBlockersSpec.
    pub fn new(attacker: ObjectId, blockers: Vec<ObjectId>) -> (s: OrderBlockersSpec)
        ensures
            s.attacker == attacker,
            s.blockers == blockers,
    {
        OrderBlockersSpec { attacker, blockers }
    }
}

impl DecisionSpec for OrderBlockersSpec {
    type Response = Vec<ObjectId>;

    fn description(&self) -> (t: String)
        ensures
            t@ == "Order blockers for damage assignment"@,
    {
        string_of("Order blockers for damage assignment")
    }

    fn primitive(&self) -> (p: DecisionPrimitive)
        ensures
            p == DecisionPrimitive::Order,
    {
        DecisionPrimitive::Order
    }

    /// The blockers in their given order, whatever the strategy.
    fn default_response(&self, strategy: FallbackStrategy) -> (r: Vec<ObjectId>)
        ensures
            r@ == self.blockers@,
    {
        copy_objects(&self.blockers)
    }

    fn build_context(&self, player: PlayerId, source: Option<ObjectId>, game: &GameState) -> (c: DecisionContext)
        ensures
            c matches DecisionContext::Order(o) && o.player == player && o.source == Some(self.attacker)
                && o.description@ == "Order blockers for damage assignment"@ && named_items(
                *game,
                self.blockers@,
                o.items@,
            ),
    {
        let items = name_items(game, &self.blockers);
        DecisionContext::Order(
            OrderContext::new(player, Some(self.attacker), "Order blockers for damage assignment", items),
        )
    }
}

// ============================================================================
// OrderAttackersSpec - Order attackers for damage assignment
// ============================================================================

/// Ordering the attackers a creature blocks, for damage assignment.
#[derive(Debug, Clone)]
pub struct OrderAttackersSpec {
    pub blocker: ObjectId,
    pub attackers: Vec<ObjectId>,
}

impl OrderAttackersSpec {
    /// Create a new OrderAttackersSpec.
    pub fn new(blocker: ObjectId, attackers: Vec<ObjectId>) -> (s: OrderAttackersSpec)
        ensures
            s.blocker == blocker,
            s.attackers == attackers,
    {
        OrderAttackersSpec { blocker, attackers }
    }
}

impl DecisionSpec for OrderAttackersSpec {
    type Response = Vec<ObjectId>;

    fn description(&self) -> (t: String)
        ensures
            t@ == "Order attackers for damage assignment"@,
    {
        string_of("Order attackers for damage assignment")
    }

    fn primitive(&self) -> (p: DecisionPrimitive)
        ensures
            p == DecisionPrimitive::Order,
    {
        DecisionPrimitive::Order
    }

    /// The attackers in their given order, whatever the strategy.
    fn default_response(&self, strategy: FallbackStrategy) -> (r: Vec<ObjectId>)
        ensures
            r@ == self.attackers@,
    {
        copy_objects(&self.attackers)
    }

    fn build_context(&self, player: PlayerId, source: Option<ObjectId>, game: &GameState) -> (c: DecisionContext)
        ensures
            c matches DecisionContext::Order(o) && o.player == player && o.source == Some(self.blocker)
                && o.description@ == "Order attackers for damage assignment"@ && named_items(
                *game,
                self.attackers@,
                o.items@,
            ),
    {
        let items = name_items(game, &self.attackers);
        DecisionContext::Order(
            OrderContext::new(player, Some(self.blocker), "Order attackers for damage assignment", items),
        )
    }
}

} // verus!
