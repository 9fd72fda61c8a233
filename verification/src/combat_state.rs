//! Combat state management.
//!
//! This module handles combat declaration and state tracking including:
//! - Attacker declarations
//! - Blocker declarations
//! - Damage assignment order
//! - Combat queries

use vstd::prelude::*;
use crate::ids::{ObjectId, PlayerId, contains_object, copy_objects};
use crate::types::{CardType, Zone};
use crate::statics::{StaticAbility, contains_static, copy_statics};
use crate::game::{
    GameState, GameObject, AttackPair, BlockPair, find_object, object_index_from,
    lemma_object_index_from, contains_attack_pair, contains_block_pair,
};

verus! {

/// The target of an attack.
#[derive(Debug, Clone, Copy, PartialEq, Eq, Structural)]
pub enum AttackTarget {
    /// Attacking a player.
    Player(PlayerId),
    /// Attacking a planeswalker.
    Planeswalker(ObjectId),
}

/// Information about an attacking creature.
#[derive(Debug, Clone, Copy, PartialEq, Eq, Structural)]
pub struct AttackerInfo {
    /// The attacking creature's ObjectId.
    pub creature: ObjectId,
    /// What the creature is attacking.
    pub target: AttackTarget,
}

/// An attacker together with an ordered list of blockers.
#[derive(Debug, Clone)]
pub struct BlockerEntry {
    pub attacker: ObjectId,
    pub blockers: Vec<ObjectId>,
}

/// Combat state tracking.
///
/// `blockers` and `damage_assignment_order` are maps from an attacker to an
/// ordered list of blockers, kept as lists of entries with distinct attackers.
#[derive(Debug, Clone)]
pub struct CombatState {
    /// All declared attackers with their targets.
    pub attackers: Vec<AttackerInfo>,
    /// Mapping from attacker to their blockers.
    pub blockers: Vec<BlockerEntry>,
    /// Damage assignment order: attacker -> ordered list of blockers.
    pub damage_assignment_order: Vec<BlockerEntry>,
}

/// Errors that can occur during combat.
#[derive(Debug, Clone, PartialEq, Eq)]
pub enum CombatError {
    /// The creature cannot attack (defender, summoning sickness without haste, etc.).
    CreatureCannotAttack(ObjectId),
    /// The creature cannot block the specified attacker (evasion, protection, etc.).
    CreatureCannotBlock { blocker: ObjectId, attacker: ObjectId },
    /// Not enough blockers were assigned to an attacker with menace.
    NotEnoughBlockers { attacker: ObjectId, required: usize, provided: usize },
    /// Too many blockers were assigned to an attacker with a max-blockers restriction.
    TooManyBlockers { attacker: ObjectId, maximum: usize, provided: usize },
    /// Too many creatures were declared as attackers this combat.
    TooManyAttackers { maximum: usize, provided: usize },
    /// Too many creatures were declared as blockers this combat.
    TooManyBlockingCreatures { maximum: usize, provided: usize },
    /// The attack target is invalid (player not in game, planeswalker doesn't exist, etc.).
    InvalidAttackTarget(AttackTarget),
    /// The creature is tapped and cannot attack or block.
    CreatureTapped(ObjectId),
    /// The creature is not in combat.
    NotInCombat(ObjectId),
    /// The creature is not on the battlefield.
    NotOnBattlefield(ObjectId),
    /// The creature is not a creature.
    NotACreature(ObjectId),
    /// The creature is not controlled by the specified player.
    NotControlledBy { creature: ObjectId, expected: PlayerId },
    /// The blocker order doesn't match the assigned blockers.
    InvalidBlockerOrder {
        attacker: ObjectId,
        expected_blockers: Vec<ObjectId>,
        provided_blockers: Vec<ObjectId>,
    },
    /// A creature was declared multiple times as an attacker.
    DuplicateAttacker(ObjectId),
    /// A creature was declared as blocking multiple attackers.
    DuplicateBlocker(ObjectId),
    /// The attacker doesn't exist.
    AttackerNotFound(ObjectId),
    /// A creature with "must attack if able" was not declared as an attacker.
    MustAttackNotDeclared(ObjectId),
    /// A creature that must block a specific attacker if able was not declared as doing so.
    MustBlockRequirementNotMet { blocker: ObjectId, attacker: ObjectId },
}

// ---------------------------------------------------------------------------
// The map view of entry lists
// ---------------------------------------------------------------------------

/// Index of the first entry for `a`, searching from position `i`.
pub open spec fn entry_index_from(es: Seq<BlockerEntry>, a: ObjectId, i: int) -> Option<int>
    decreases es.len() - i,
{
    if i < 0 || i >= es.len() {
        None
    } else if es[i].attacker == a {
        Some(i)
    } else {
        entry_index_from(es, a, i + 1)
    }
}

/// The blockers listed for attacker `a`, if `a` has an entry.
pub open spec fn lookup(es: Seq<BlockerEntry>, a: ObjectId) -> Option<Seq<ObjectId>> {
    match entry_index_from(es, a, 0) {
        Some(i) => Some(es[i].blockers@),
        None => None,
    }
}

/// No attacker has two entries.
pub open spec fn keys_unique(es: Seq<BlockerEntry>) -> bool {
    forall|i: int, j: int| 0 <= i < j < es.len() ==> es[i].attacker != es[j].attacker
}

/// `entry_index_from` finds an index holding the attacker, and none before it.
pub proof fn lemma_entry_index_from(es: Seq<BlockerEntry>, a: ObjectId, i: int)
    requires
        0 <= i,
    ensures
        entry_index_from(es, a, i) matches Some(k) ==> i <= k < es.len() && es[k].attacker == a
            && forall|j: int| i <= j < k ==> es[j].attacker != a,
        entry_index_from(es, a, i) is None ==> forall|j: int| i <= j < es.len() ==> es[j].attacker != a,
    decreases es.len() - i,
{
    if i < es.len() && es[i].attacker != a {
        lemma_entry_index_from(es, a, i + 1);
    }
}

/// An entry at index `k` with no earlier entry for its attacker is the one found.
pub proof fn lemma_entry_index_at(es: Seq<BlockerEntry>, a: ObjectId, k: int)
    requires
        0 <= k < es.len(),
        es[k].attacker == a,
        forall|j: int| 0 <= j < k ==> es[j].attacker != a,
    ensures
        entry_index_from(es, a, 0) == Some(k),
{
    lemma_entry_index_from(es, a, 0);
}

/// The object with the given id found from index `i` is unchanged when only
/// non-id fields of the objects change.
pub proof fn lemma_object_index_same_ids(a: Seq<GameObject>, b: Seq<GameObject>, id: ObjectId, i: int)
    requires
        a.len() == b.len(),
        forall|k: int| 0 <= k < a.len() ==> #[trigger] a[k].id == b[k].id,
    ensures
        object_index_from(a, id, i) == object_index_from(b, id, i),
    decreases a.len() - i,
{
    if 0 <= i < a.len() {
        lemma_object_index_same_ids(a, b, id, i + 1);
    }
}

impl CombatState {
    /// Both entry lists have distinct attackers.
    pub open spec fn wf(self) -> bool {
        keys_unique(self.blockers@) && keys_unique(self.damage_assignment_order@)
    }

    /// Whether `c` is among the declared attackers.
    pub open spec fn attacking(self, c: ObjectId) -> bool {
        exists|i: int| 0 <= i < self.attackers@.len() && (#[trigger] self.attackers@[i]).creature == c
    }

    /// The blockers assigned to attacker `a`, if it has an entry.
    pub open spec fn blockers_of(self, a: ObjectId) -> Option<Seq<ObjectId>> {
        lookup(self.blockers@, a)
    }

    /// The damage assignment order chosen for attacker `a`, if any.
    pub open spec fn order_of(self, a: ObjectId) -> Option<Seq<ObjectId>> {
        lookup(self.damage_assignment_order@, a)
    }

    /// Whether `c` is listed as a blocker of some attacker.
    pub open spec fn blocking(self, c: ObjectId) -> bool {
        exists|i: int| 0 <= i < self.blockers@.len() && (#[trigger] self.blockers@[i]).blockers@.contains(c)
    }

    /// Whether attacker `a` has at least one blocker.
    pub open spec fn blocked(self, a: ObjectId) -> bool {
        self.blockers_of(a) matches Some(bs) && bs.len() > 0
    }

    /// An empty combat: no attackers, no blockers, no orders.
    pub open spec fn empty(self) -> bool {
        self.attackers@.len() == 0 && self.blockers@.len() == 0 && self.damage_assignment_order@.len() == 0
    }
}

/// Index of the entry for `a`, if any.
pub fn find_entry(es: &Vec<BlockerEntry>, a: ObjectId) -> (r: Option<usize>)
    ensures
        r matches Some(i) ==> entry_index_from(es@, a, 0) == Some(i as int) && i < es@.len()
            && es@[i as int].attacker == a,
        r is None ==> entry_index_from(es@, a, 0) is None,
{
    let mut i: usize = 0;
    while i < es.len()
        invariant
            i <= es.len(),
            entry_index_from(es@, a, 0) == entry_index_from(es@, a, i as int),
        decreases es.len() - i,
    {
        if es[i].attacker == a {
            return Some(i);
        }
        i = i + 1;
    }
    None
}

/// Sets the list for attacker `a`, replacing an existing entry or adding one.
pub fn insert_entry(es: &mut Vec<BlockerEntry>, a: ObjectId, list: Vec<ObjectId>)
    ensures
        lookup(final(es)@, a) == Some(list@),
        forall|b: ObjectId| b != a ==> lookup(final(es)@, b) == lookup(old(es)@, b),
        keys_unique(old(es)@) ==> keys_unique(final(es)@),
        match entry_index_from(old(es)@, a, 0) {
            Some(i) => final(es)@ == old(es)@.update(i, BlockerEntry { attacker: a, blockers: list }),
            None => final(es)@ == old(es)@.push(BlockerEntry { attacker: a, blockers: list }),
        },
{
    let ghost old_es = es@;
    let ghost new_entry = BlockerEntry { attacker: a, blockers: list };
    proof {
        lemma_entry_index_from(old_es, a, 0);
    }
    match find_entry(es, a) {
        Some(i) => {
            es.set(i, BlockerEntry { attacker: a, blockers: list });
            proof {
                lemma_entry_index_at(es@, a, i as int);
                assert forall|b: ObjectId| b != a implies lookup(es@, b) == lookup(old_es, b) by {
                    lemma_entry_index_from(old_es, b, 0);
                    lemma_entry_index_from(es@, b, 0);
                    match entry_index_from(old_es, b, 0) {
                        Some(k) => {
                            lemma_entry_index_at(es@, b, k);
                        },
                        None => {
                            if let Some(k) = entry_index_from(es@, b, 0) {
                                assert(old_es[k].attacker == b);
                            }
                        },
                    }
                }
            }
        },
        None => {
            es.push(BlockerEntry { attacker: a, blockers: list });
            proof {
                lemma_entry_index_at(es@, a, old_es.len() as int);
                assert forall|b: ObjectId| b != a implies lookup(es@, b) == lookup(old_es, b) by {
                    lemma_entry_index_from(old_es, b, 0);
                    lemma_entry_index_from(es@, b, 0);
                    match entry_index_from(old_es, b, 0) {
                        Some(k) => {
                            lemma_entry_index_at(es@, b, k);
                        },
                        None => {
                            if let Some(k) = entry_index_from(es@, b, 0) {
                                if k < old_es.len() {
                                    assert(old_es[k].attacker == b);
                                }
                            }
                        },
                    }
                }
            }
        },
    }
}

// ---------------------------------------------------------------------------
// Creating and clearing combat
// ---------------------------------------------------------------------------

impl Default for CombatState {
    /// An empty combat.
    fn default() -> (c: CombatState)
        ensures
            c.empty(),
            c.wf(),
    {
        new_combat()
    }
}

/// Creates a new, empty combat state.
pub fn new_combat() -> (c: CombatState)
    ensures
        c.empty(),
        c.wf(),
{
    CombatState { attackers: Vec::new(), blockers: Vec::new(), damage_assignment_order: Vec::new() }
}

/// Clears all combat state at end of combat.
pub fn end_combat(combat: &mut CombatState)
    ensures
        final(combat).empty(),
        final(combat).wf(),
{
    combat.attackers.clear();
    combat.blockers.clear();
    combat.damage_assignment_order.clear();
}


// ---------------------------------------------------------------------------
// Combat queries
// ---------------------------------------------------------------------------

/// Whether some attacker in `infos` targets player `p`.
pub open spec fn targets_player(infos: Seq<AttackerInfo>, p: PlayerId) -> bool {
    exists|i: int| 0 <= i < infos.len() && (#[trigger] infos[i]).target == AttackTarget::Player(p)
}

/// The attackers in `infos` whose target is `t`, in order.
pub open spec fn attackers_with_target(infos: Seq<AttackerInfo>, t: AttackTarget) -> Seq<ObjectId>
    decreases infos.len(),
{
    if infos.len() == 0 {
        Seq::empty()
    } else {
        let rest = attackers_with_target(infos.drop_last(), t);
        if infos.last().target == t {
            rest.push(infos.last().creature)
        } else {
            rest
        }
    }
}

/// Index of the first attacker entry for creature `c`, from position `i`.
pub open spec fn attacker_index_from(infos: Seq<AttackerInfo>, c: ObjectId, i: int) -> Option<int>
    decreases infos.len() - i,
{
    if i < 0 || i >= infos.len() {
        None
    } else if infos[i].creature == c {
        Some(i)
    } else {
        attacker_index_from(infos, c, i + 1)
    }
}

/// Index of the first entry whose blockers include `b`, from position `i`.
pub open spec fn blocked_entry_from(es: Seq<BlockerEntry>, b: ObjectId, i: int) -> Option<int>
    decreases es.len() - i,
{
    if i < 0 || i >= es.len() {
        None
    } else if es[i].blockers@.contains(b) {
        Some(i)
    } else {
        blocked_entry_from(es, b, i + 1)
    }
}

proof fn lemma_attacker_index_from(infos: Seq<AttackerInfo>, c: ObjectId, i: int)
    requires
        0 <= i,
    ensures
        attacker_index_from(infos, c, i) matches Some(k) ==> i <= k < infos.len() && infos[k].creature == c,
        attacker_index_from(infos, c, i) is None ==> forall|j: int|
            i <= j < infos.len() ==> infos[j].creature != c,
    decreases infos.len() - i,
{
    if i < infos.len() && infos[i].creature != c {
        lemma_attacker_index_from(infos, c, i + 1);
    }
}

/// Returns true if the creature is attacking.
pub fn is_attacking(combat: &CombatState, creature: ObjectId) -> (b: bool)
    ensures
        b == combat.attacking(creature),
{
    let mut i: usize = 0;
    while i < combat.attackers.len()
        invariant
            i <= combat.attackers.len(),
            forall|j: int| 0 <= j < i ==> (#[trigger] combat.attackers@[j]).creature != creature,
        decreases combat.attackers.len() - i,
    {
        if combat.attackers[i].creature == creature {
            assert(combat.attackers@[i as int].creature == creature);
            return true;
        }
        i = i + 1;
    }
    false
}

/// Returns true if the creature is blocking.
pub fn is_blocking(combat: &CombatState, creature: ObjectId) -> (b: bool)
    ensures
        b == combat.blocking(creature),
{
    let mut i: usize = 0;
    while i < combat.blockers.len()
        invariant
            i <= combat.blockers.len(),
            forall|j: int| 0 <= j < i ==> !(#[trigger] combat.blockers@[j]).blockers@.contains(creature),
        decreases combat.blockers.len() - i,
    {
        if contains_object(&combat.blockers[i].blockers, creature) {
            assert(combat.blockers@[i as int].blockers@.contains(creature));
            return true;
        }
        i = i + 1;
    }
    false
}

/// Returns the blockers assigned to an attacker (none if it has no entry).
pub fn get_blockers(combat: &CombatState, attacker: ObjectId) -> (r: Vec<ObjectId>)
    ensures
        r@ == match combat.blockers_of(attacker) {
            Some(bs) => bs,
            None => Seq::empty(),
        },
{
    match find_entry(&combat.blockers, attacker) {
        Some(i) => copy_objects(&combat.blockers[i].blockers),
        None => Vec::new(),
    }
}

/// `blocked_entry_from` finds an entry listing the blocker, and none before it.
pub proof fn lemma_blocked_entry_from(es: Seq<BlockerEntry>, b: ObjectId, i: int)
    requires
        0 <= i,
    ensures
        blocked_entry_from(es, b, i) matches Some(k) ==> i <= k < es.len() && es[k].blockers@.contains(b),
        blocked_entry_from(es, b, i) is None ==> forall|j: int|
            i <= j < es.len() ==> !(#[trigger] es[j]).blockers@.contains(b),
    decreases es.len() - i,
{
    if i < es.len() && !es[i].blockers@.contains(b) {
        lemma_blocked_entry_from(es, b, i + 1);
    }
}

impl CombatState {
    /// The attacker of the first entry that lists `b` as a blocker, if any.
    pub open spec fn blocked_attacker(self, b: ObjectId) -> Option<ObjectId> {
        match blocked_entry_from(self.blockers@, b, 0) {
            Some(i) => Some(self.blockers@[i].attacker),
            None => None,
        }
    }
}

/// A creature is blocking exactly when it has a blocked attacker, and in a
/// well-formed combat the blockers of that attacker include it.
pub proof fn law_blocked_attacker_lists_the_blocker(combat: CombatState, blocker: ObjectId)
    ensures
        combat.blocked_attacker(blocker) is None <==> !combat.blocking(blocker),
        combat.wf() ==> (combat.blocked_attacker(blocker) matches Some(a) ==> combat.blockers_of(a) matches Some(s)
            && s.contains(blocker)),
{
    let es = combat.blockers@;
    lemma_blocked_entry_from(es, blocker, 0);
    if let Some(k) = blocked_entry_from(es, blocker, 0) {
        assert(combat.blocking(blocker)) by {
            assert(es[k].blockers@.contains(blocker));
        }
        let a = es[k].attacker;
        lemma_entry_index_from(es, a, 0);
        if combat.wf() {
            let e = entry_index_from(es, a, 0)->0;
            assert(e == k);
        }
    } else {
        if combat.blocking(blocker) {
            let j = choose|j: int| 0 <= j < es.len() && (#[trigger] es[j]).blockers@.contains(blocker);
            assert(!es[j].blockers@.contains(blocker));
        }
    }
}

/// Returns the attacker that a blocker is blocking, if any: the attacker of
/// the first entry that lists it. It is `None` exactly when the creature is
/// not blocking, and in a well-formed combat the returned attacker's
/// blockers include the creature.
pub fn get_blocked_attacker(combat: &CombatState, blocker: ObjectId) -> (r: Option<ObjectId>)
    ensures
        r == combat.blocked_attacker(blocker),
        r is None <==> !combat.blocking(blocker),
        combat.wf() ==> (r matches Some(a) ==> combat.blockers_of(a) matches Some(s) && s.contains(blocker)),
{
    proof {
        law_blocked_attacker_lists_the_blocker(*combat, blocker);
    }
    let mut i: usize = 0;
    while i < combat.blockers.len()
        invariant
            i <= combat.blockers.len(),
            blocked_entry_from(combat.blockers@, blocker, 0) == blocked_entry_from(
                combat.blockers@,
                blocker,
                i as int,
            ),
        decreases combat.blockers.len() - i,
    {
        if contains_object(&combat.blockers[i].blockers, blocker) {
            let a = combat.blockers[i].attacker;
            proof {
                law_blocked_attacker_lists_the_blocker(*combat, blocker);
            }
            return Some(a);
        }
        i = i + 1;
    }
    None
}

/// Returns true if the attacker is blocked (has at least one blocker assigned).
pub fn is_blocked(combat: &CombatState, attacker: ObjectId) -> (b: bool)
    ensures
        b == combat.blocked(attacker),
{
    match find_entry(&combat.blockers, attacker) {
        Some(i) => combat.blockers[i].blockers.len() > 0,
        None => false,
    }
}

/// Returns true if the attacker is unblocked (no blockers assigned and is attacking).
pub fn is_unblocked(combat: &CombatState, attacker: ObjectId) -> (b: bool)
    ensures
        b == (combat.attacking(attacker) && !combat.blocked(attacker)),
{
    is_attacking(combat, attacker) && !is_blocked(combat, attacker)
}

/// Returns the attack target for a creature, if it is attacking.
pub fn get_attack_target(combat: &CombatState, attacker: ObjectId) -> (r: Option<&AttackTarget>)
    ensures
        match r {
            Some(t) => attacker_index_from(combat.attackers@, attacker, 0) matches Some(i)
                && *t == combat.attackers@[i].target,
            None => attacker_index_from(combat.attackers@, attacker, 0) is None,
        },
{
    let mut i: usize = 0;
    while i < combat.attackers.len()
        invariant
            i <= combat.attackers.len(),
            attacker_index_from(combat.attackers@, attacker, 0) == attacker_index_from(
                combat.attackers@,
                attacker,
                i as int,
            ),
        decreases combat.attackers.len() - i,
    {
        if combat.attackers[i].creature == attacker {
            return Some(&combat.attackers[i].target);
        }
        i = i + 1;
    }
    None
}

/// The attackers whose target is `target`, in declaration order.
fn attackers_targeting(combat: &CombatState, target: AttackTarget) -> (r: Vec<ObjectId>)
    ensures
        r@ == attackers_with_target(combat.attackers@, target),
{
    let mut out: Vec<ObjectId> = Vec::new();
    let mut i: usize = 0;
    while i < combat.attackers.len()
        invariant
            i <= combat.attackers.len(),
            out@ == attackers_with_target(combat.attackers@.subrange(0, i as int), target),
        decreases combat.attackers.len() - i,
    {
        assert(combat.attackers@.subrange(0, i + 1).drop_last() == combat.attackers@.subrange(0, i as int));
        if combat.attackers[i].target == target {
            out.push(combat.attackers[i].creature);
        }
        i = i + 1;
    }
    assert(combat.attackers@.subrange(0, combat.attackers@.len() as int) == combat.attackers@);
    out
}

/// Returns all attackers targeting a specific player.
pub fn attackers_targeting_player(combat: &CombatState, player: PlayerId) -> (r: Vec<ObjectId>)
    ensures
        r@ == attackers_with_target(combat.attackers@, AttackTarget::Player(player)),
{
    attackers_targeting(combat, AttackTarget::Player(player))
}

/// Returns all attackers targeting a specific planeswalker.
pub fn attackers_targeting_planeswalker(combat: &CombatState, planeswalker: ObjectId) -> (r: Vec<ObjectId>)
    ensures
        r@ == attackers_with_target(combat.attackers@, AttackTarget::Planeswalker(planeswalker)),
{
    attackers_targeting(combat, AttackTarget::Planeswalker(planeswalker))
}

/// Returns the damage assignment order for an attacker, or the default blocker order.
pub fn get_damage_assignment_order(combat: &CombatState, attacker: ObjectId) -> (r: Vec<ObjectId>)
    ensures
        r@ == match combat.order_of(attacker) {
            Some(order) => order,
            None => match combat.blockers_of(attacker) {
                Some(bs) => bs,
                None => Seq::empty(),
            },
        },
{
    match find_entry(&combat.damage_assignment_order, attacker) {
        Some(i) => copy_objects(&combat.damage_assignment_order[i].blockers),
        None => get_blockers(combat, attacker),
    }
}

/// Checks if a player is being attacked (is a defending player).
pub fn is_defending_player(combat: &CombatState, player: PlayerId) -> (b: bool)
    ensures
        b == targets_player(combat.attackers@, player),
{
    let mut i: usize = 0;
    while i < combat.attackers.len()
        invariant
            i <= combat.attackers.len(),
            forall|j: int| 0 <= j < i ==> (#[trigger] combat.attackers@[j]).target != AttackTarget::Player(player),
        decreases combat.attackers.len() - i,
    {
        if combat.attackers[i].target == AttackTarget::Player(player) {
            assert(combat.attackers@[i as int].target == AttackTarget::Player(player));
            return true;
        }
        i = i + 1;
    }
    false
}

/// Strictly increasing by seat index.
pub open spec fn strictly_sorted(s: Seq<PlayerId>) -> bool {
    forall|i: int, j: int| 0 <= i < j < s.len() ==> s[i].0 < s[j].0
}

/// Inserts `p` into a strictly sorted list, unless it is already there.
fn insert_sorted_unique(v: &mut Vec<PlayerId>, p: PlayerId)
    requires
        strictly_sorted(old(v)@),
    ensures
        strictly_sorted(final(v)@),
        forall|q: PlayerId| final(v)@.contains(q) <==> (old(v)@.contains(q) || q == p),
{
    let ghost old_v = v@;
    let mut i: usize = 0;
    while i < v.len() && v[i].0 < p.0
        invariant
            v@ == old_v,
            i <= v.len(),
            forall|j: int| 0 <= j < i ==> v@[j].0 < p.0,
        decreases v.len() - i,
    {
        i = i + 1;
    }
    if i < v.len() && v[i].0 == p.0 {
        assert(v@[i as int] == p);
        return;
    }
    v.insert(i, p);
    proof {
        assert forall|q: PlayerId| v@.contains(q) <==> (old_v.contains(q) || q == p) by {
            if v@.contains(q) {
                let k = choose|k: int| 0 <= k < v@.len() && v@[k] == q;
                if k < i {
                    assert(old_v[k] == q);
                } else if k > i {
                    assert(old_v[k - 1] == q);
                }
            }
            if old_v.contains(q) {
                let k = choose|k: int| 0 <= k < old_v.len() && old_v[k] == q;
                if k < i {
                    assert(v@[k] == q);
                } else {
                    assert(v@[k + 1] == q);
                }
            }
            if q == p {
                assert(v@[i as int] == q);
            }
        }
        assert(forall|q: PlayerId| v@.contains(q) <==> (old(v)@.contains(q) || q == p));
    }
}

/// Returns all players being attacked (defending players), sorted by seat
/// and without repetition.
///
/// In a 2-player game, this is typically just the opponent.
/// In multiplayer, creatures can attack different players.
pub fn defending_players(combat: &CombatState) -> (r: Vec<PlayerId>)
    ensures
        strictly_sorted(r@),
        forall|p: PlayerId| r@.contains(p) <==> targets_player(combat.attackers@, p),
{
    let mut out: Vec<PlayerId> = Vec::new();
    let mut i: usize = 0;
    while i < combat.attackers.len()
        invariant
            i <= combat.attackers.len(),
            strictly_sorted(out@),
            forall|p: PlayerId| out@.contains(p) <==> targets_player(combat.attackers@.subrange(0, i as int), p),
        decreases combat.attackers.len() - i,
    {
        let ghost prefix = combat.attackers@.subrange(0, i as int);
        let ghost next = combat.attackers@.subrange(0, i + 1);
        match combat.attackers[i].target {
            AttackTarget::Player(p) => {
                insert_sorted_unique(&mut out, p);
            },
            AttackTarget::Planeswalker(_) => {},
        }
        proof {
            assert forall|q: PlayerId| targets_player(next, q) <==> (targets_player(prefix, q)
                || combat.attackers@[i as int].target == AttackTarget::Player(q)) by {
                if targets_player(next, q) {
                    let k = choose|k: int| 0 <= k < next.len() && (#[trigger] next[k]).target == AttackTarget::Player(q);
                    if k < i {
                        assert(prefix[k] == next[k]);
                    }
                }
                if targets_player(prefix, q) {
                    let k = choose|k: int| 0 <= k < prefix.len() && (#[trigger] prefix[k]).target == AttackTarget::Player(q);
                    assert(next[k] == prefix[k]);
                }
                if combat.attackers@[i as int].target == AttackTarget::Player(q) {
                    assert(next[i as int] == combat.attackers@[i as int]);
                }
            }
        }
        i = i + 1;
    }
    assert(combat.attackers@.subrange(0, combat.attackers@.len() as int) == combat.attackers@);
    out
}

/// Checks if a player is the attacking player (controls attacking creatures).
///
/// Note: In a typical 2-player game, the attacking player is the active player.
/// This function checks if any attacking creature is controlled by the given player.
pub fn is_attacking_player(combat: &CombatState, player: PlayerId, game: &GameState) -> (b: bool)
    ensures
        b == exists|i: int|
            0 <= i < combat.attackers@.len() && (game.object_of(
                (#[trigger] combat.attackers@[i]).creature,
            ) matches Some(o) && o.controller == player),
{
    let mut i: usize = 0;
    while i < combat.attackers.len()
        invariant
            i <= combat.attackers.len(),
            forall|j: int|
                0 <= j < i ==> !(game.object_of((#[trigger] combat.attackers@[j]).creature) matches Some(o)
                    && o.controller == player),
        decreases combat.attackers.len() - i,
    {
        match game.object(combat.attackers[i].creature) {
            Some(o) => {
                if o.controller == player {
                    assert(game.object_of(combat.attackers@[i as int].creature) matches Some(o) && o.controller == player);
                    return true;
                }
            },
            None => {},
        }
        i = i + 1;
    }
    false
}

/// Returns the attacking player (the player who controls the first attacker).
///
/// Returns None if there are no attackers.
pub fn get_attacking_player(combat: &CombatState, game: &GameState) -> (r: Option<PlayerId>)
    ensures
        r == (if combat.attackers@.len() == 0 {
            None
        } else {
            match game.object_of(combat.attackers@[0].creature) {
                Some(o) => Some(o.controller),
                None => None,
            }
        }),
{
    if combat.attackers.len() == 0 {
        return None;
    }
    match game.object(combat.attackers[0].creature) {
        Some(o) => Some(o.controller),
        None => None,
    }
}


// ---------------------------------------------------------------------------
// Static abilities on the battlefield
// ---------------------------------------------------------------------------

/// The static abilities of the objects with the given ids, in order.
pub open spec fn statics_of_ids(game: GameState, ids: Seq<ObjectId>) -> Seq<StaticAbility>
    decreases ids.len(),
{
    if ids.len() == 0 {
        Seq::empty()
    } else {
        statics_of_ids(game, ids.drop_last()) + match game.object_of(ids.last()) {
            Some(o) => o.static_abilities@,
            None => Seq::empty(),
        }
    }
}

/// The static abilities of everything on the battlefield.
pub open spec fn battlefield_statics(game: GameState) -> Seq<StaticAbility> {
    statics_of_ids(game, game.battlefield@)
}

/// The smaller of two optional limits (absent means unlimited).
pub open spec fn min_opt(a: Option<usize>, b: Option<usize>) -> Option<usize> {
    match a {
        None => b,
        Some(n) => match b {
            None => Some(n),
            Some(m) => Some(if n < m { n } else { m }),
        },
    }
}

/// The smallest attack limit among the abilities, if any imposes one.
pub open spec fn min_attack_limit(s: Seq<StaticAbility>) -> Option<usize>
    decreases s.len(),
{
    if s.len() == 0 {
        None
    } else {
        min_opt(min_attack_limit(s.drop_last()), s.last().attack_limit())
    }
}

/// The smallest block limit among the abilities, if any imposes one.
pub open spec fn min_block_limit(s: Seq<StaticAbility>) -> Option<usize>
    decreases s.len(),
{
    if s.len() == 0 {
        None
    } else {
        min_opt(min_block_limit(s.drop_last()), s.last().block_limit())
    }
}

/// Collects the static abilities of all permanents on the battlefield.
fn battlefield_static_abilities(game: &GameState) -> (r: Vec<StaticAbility>)
    ensures
        r@ == battlefield_statics(*game),
{
    let mut out: Vec<StaticAbility> = Vec::new();
    let mut i: usize = 0;
    while i < game.battlefield.len()
        invariant
            i <= game.battlefield.len(),
            out@ == statics_of_ids(*game, game.battlefield@.subrange(0, i as int)),
        decreases game.battlefield.len() - i,
    {
        let id = game.battlefield[i];
        assert(game.battlefield@.subrange(0, i + 1).drop_last() == game.battlefield@.subrange(0, i as int));
        match game.object(id) {
            Some(o) => {
                let mut copy = copy_statics(&o.static_abilities);
                out.append(&mut copy);
            },
            None => {},
        }
        i = i + 1;
    }
    assert(game.battlefield@.subrange(0, game.battlefield@.len() as int) == game.battlefield@);
    out
}

/// The number of creatures that may attack each combat, if limited.
fn max_creatures_can_attack_each_combat(game: &GameState) -> (r: Option<usize>)
    ensures
        r == min_attack_limit(battlefield_statics(*game)),
{
    let all = battlefield_static_abilities(game);
    let mut best: Option<usize> = None;
    let mut i: usize = 0;
    while i < all.len()
        invariant
            i <= all.len(),
            best == min_attack_limit(all@.subrange(0, i as int)),
        decreases all.len() - i,
    {
        assert(all@.subrange(0, i + 1).drop_last() == all@.subrange(0, i as int));
        match all[i].max_creatures_can_attack_each_combat() {
            Some(n) => {
                best = match best {
                    None => Some(n),
                    Some(m) => Some(if n < m { n } else { m }),
                };
            },
            None => {},
        }
        i = i + 1;
    }
    assert(all@.subrange(0, all@.len() as int) == all@);
    best
}

/// The number of creatures that may block each combat, if limited.
fn max_creatures_can_block_each_combat(game: &GameState) -> (r: Option<usize>)
    ensures
        r == min_block_limit(battlefield_statics(*game)),
{
    let all = battlefield_static_abilities(game);
    let mut best: Option<usize> = None;
    let mut i: usize = 0;
    while i < all.len()
        invariant
            i <= all.len(),
            best == min_block_limit(all@.subrange(0, i as int)),
        decreases all.len() - i,
    {
        assert(all@.subrange(0, i + 1).drop_last() == all@.subrange(0, i as int));
        match all[i].max_creatures_can_block_each_combat() {
            Some(n) => {
                best = match best {
                    None => Some(n),
                    Some(m) => Some(if n < m { n } else { m }),
                };
            },
            None => {},
        }
        i = i + 1;
    }
    assert(all@.subrange(0, all@.len() as int) == all@);
    best
}

// ---------------------------------------------------------------------------
// Declaring attackers
// ---------------------------------------------------------------------------

/// The player defending against an attack on `t`, if `t` is a valid target:
/// a player still in the game, or a planeswalker on the battlefield.
pub open spec fn defending_player_of(game: GameState, t: AttackTarget) -> Option<PlayerId> {
    match t {
        AttackTarget::Player(p) => match game.player_of(p) {
            Some(pl) => if pl.in_game { Some(p) } else { None },
            None => None,
        },
        AttackTarget::Planeswalker(pw) => match game.object_of(pw) {
            Some(o) => if o.zone == Zone::Battlefield && game.has_card_type(pw, CardType::Planeswalker) {
                Some(o.controller)
            } else {
                None
            },
            None => None,
        },
    }
}

/// Whether creature `c` (object `o`) may attack player `d`, by the rules and by effects.
pub open spec fn may_attack(game: GameState, o: GameObject, c: ObjectId, d: PlayerId) -> bool {
    &&& o.can_attack
    &&& !game.attack_restrictions@.contains(AttackPair { attacker: c, player: d })
    &&& !game.cant_effects.cant_attack@.contains(c)
}

/// The error for declaration `i`, if it is invalid (checks in rule order).
pub open spec fn attack_declaration_error(
    game: GameState,
    decls: Seq<(ObjectId, AttackTarget)>,
    i: int,
) -> Option<CombatError> {
    let c = decls[i].0;
    let t = decls[i].1;
    if exists|j: int| 0 <= j < i && (#[trigger] decls[j]).0 == c {
        Some(CombatError::DuplicateAttacker(c))
    } else {
        match game.object_of(c) {
            None => Some(CombatError::NotOnBattlefield(c)),
            Some(o) => if o.zone != Zone::Battlefield {
                Some(CombatError::NotOnBattlefield(c))
            } else if !game.has_card_type(c, CardType::Creature) {
                Some(CombatError::NotACreature(c))
            } else if o.controller != game.active_player {
                Some(CombatError::NotControlledBy { creature: c, expected: game.active_player })
            } else if game.tapped_spec(c) {
                Some(CombatError::CreatureTapped(c))
            } else {
                match defending_player_of(game, t) {
                    None => Some(CombatError::InvalidAttackTarget(t)),
                    Some(d) => if !may_attack(game, o, c, d) {
                        Some(CombatError::CreatureCannotAttack(c))
                    } else {
                        None
                    },
                }
            },
        }
    }
}

/// The first error among declarations `i..`, if any.
pub open spec fn first_attack_error_from(
    game: GameState,
    decls: Seq<(ObjectId, AttackTarget)>,
    i: int,
) -> Option<CombatError>
    decreases decls.len() - i,
{
    if i < 0 || i >= decls.len() {
        None
    } else {
        match attack_declaration_error(game, decls, i) {
            Some(e) => Some(e),
            None => first_attack_error_from(game, decls, i + 1),
        }
    }
}

/// Why a declaration of attackers is refused, if it is.
pub open spec fn attack_outcome(game: GameState, decls: Seq<(ObjectId, AttackTarget)>) -> Option<CombatError> {
    match first_attack_error_from(game, decls, 0) {
        Some(e) => Some(e),
        None => match min_attack_limit(battlefield_statics(game)) {
            Some(m) => if decls.len() > m {
                Some(CombatError::TooManyAttackers { maximum: m, provided: decls.len() as usize })
            } else {
                None
            },
            None => None,
        },
    }
}

/// The attacker records for a list of declarations.
pub open spec fn infos_of(decls: Seq<(ObjectId, AttackTarget)>) -> Seq<AttackerInfo> {
    decls.map_values(|d: (ObjectId, AttackTarget)| AttackerInfo { creature: d.0, target: d.1 })
}

/// Whether creature `c` is among the declarations.
pub open spec fn declares(decls: Seq<(ObjectId, AttackTarget)>, c: ObjectId) -> bool {
    exists|j: int| 0 <= j < decls.len() && (#[trigger] decls[j]).0 == c
}

/// Whether declaring `decls` taps object `k`: it is a declared attacker
/// without vigilance.
pub open spec fn tapped_by_attack(game: GameState, decls: Seq<(ObjectId, AttackTarget)>, k: int) -> bool {
    &&& exists|j: int| 0 <= j < decls.len() && object_index_from(game.objects@, (#[trigger] decls[j]).0, 0) == Some(k)
    &&& !game.objects@[k].static_abilities@.contains(StaticAbility::Vigilance)
}

/// The combat state `after` is `before` with the attackers `decls` added:
/// each declared creature attacks and starts out with no blockers.
pub open spec fn attackers_declared(
    before: CombatState,
    after: CombatState,
    decls: Seq<(ObjectId, AttackTarget)>,
) -> bool {
    &&& after.attackers@ == before.attackers@ + infos_of(decls)
    &&& forall|a: ObjectId| #[trigger] after.blockers_of(a) == if declares(decls, a) {
        Some(Seq::<ObjectId>::empty())
    } else {
        before.blockers_of(a)
    }
    &&& after.damage_assignment_order == before.damage_assignment_order
    &&& (before.wf() ==> after.wf())
}

/// The two games differ at most in their objects.
pub open spec fn same_except_objects(a: GameState, b: GameState) -> bool {
    &&& a.players == b.players
    &&& a.battlefield == b.battlefield
    &&& a.exile == b.exile
    &&& a.active_player == b.active_player
    &&& a.cant_effects == b.cant_effects
    &&& a.attack_restrictions == b.attack_restrictions
    &&& a.block_restrictions == b.block_restrictions
    &&& a.next_object_id == b.next_object_id
    &&& a.library_searches_this_turn == b.library_searches_this_turn
}

/// The error for declaration `i`, if it is invalid.
fn check_attack_declaration(
    game: &GameState,
    decls: &Vec<(ObjectId, AttackTarget)>,
    i: usize,
) -> (r: Option<CombatError>)
    requires
        i < decls@.len(),
    ensures
        r == attack_declaration_error(*game, decls@, i as int),
{
    let (creature_id, target) = decls[i];
    let mut j: usize = 0;
    while j < i
        invariant
            i < decls@.len(),
            j <= i,
            creature_id == decls@[i as int].0,
            forall|k: int| 0 <= k < j ==> (#[trigger] decls@[k]).0 != creature_id,
        decreases i - j,
    {
        if decls[j].0 == creature_id {
            assert(decls@[j as int].0 == creature_id);
            return Some(CombatError::DuplicateAttacker(creature_id));
        }
        j = j + 1;
    }
    let creature = match game.object(creature_id) {
        Some(o) => o,
        None => {
            return Some(CombatError::NotOnBattlefield(creature_id));
        },
    };
    if creature.zone != Zone::Battlefield {
        return Some(CombatError::NotOnBattlefield(creature_id));
    }
    if !game.object_has_card_type(creature_id, CardType::Creature) {
        return Some(CombatError::NotACreature(creature_id));
    }
    if creature.controller != game.active_player {
        return Some(CombatError::NotControlledBy { creature: creature_id, expected: game.active_player });
    }
    if game.is_tapped(creature_id) {
        return Some(CombatError::CreatureTapped(creature_id));
    }
    let defending_player = match target {
        AttackTarget::Player(player_id) => {
            match game.player(player_id) {
                Some(player) => {
                    if !player.is_in_game() {
                        return Some(CombatError::InvalidAttackTarget(target));
                    }
                },
                None => {
                    return Some(CombatError::InvalidAttackTarget(target));
                },
            }
            player_id
        },
        AttackTarget::Planeswalker(pw_id) => {
            match game.object(pw_id) {
                Some(pw) => {
                    if pw.zone != Zone::Battlefield || !game.object_has_card_type(pw_id, CardType::Planeswalker) {
                        return Some(CombatError::InvalidAttackTarget(target));
                    }
                    pw.controller
                },
                None => {
                    return Some(CombatError::InvalidAttackTarget(target));
                },
            }
        },
    };
    let rules_allow = creature.can_attack && !contains_attack_pair(
        &game.attack_restrictions,
        creature_id,
        defending_player,
    );
    if !rules_allow || !game.can_attack(creature_id) {
        return Some(CombatError::CreatureCannotAttack(creature_id));
    }
    None
}

/// Declares attackers for combat.
///
/// This function validates all attackers and taps those without vigilance.
/// The active player should be the attacker.
///
/// # Arguments
/// * `game` - Mutable reference to the game state (for tapping attackers)
/// * `combat` - The combat state to update
/// * `declarations` - List of (creature, target) pairs
///
/// # Returns
/// * `Ok(())` if all declarations are valid
/// * `Err(CombatError)` if any declaration is invalid
pub fn declare_attackers(
    game: &mut GameState,
    combat: &mut CombatState,
    declarations: Vec<(ObjectId, AttackTarget)>,
) -> (r: Result<(), CombatError>)
    ensures
        r == match attack_outcome(*old(game), declarations@) {
            Some(e) => Err(e),
            None => Ok(()),
        },
        r is Err ==> *final(game) == *old(game) && *final(combat) == *old(combat),
        r is Ok ==> {
            &&& attackers_declared(*old(combat), *final(combat), declarations@)
            &&& same_except_objects(*final(game), *old(game))
            &&& final(game).objects@.len() == old(game).objects@.len()
            &&& forall|k: int| 0 <= k < old(game).objects@.len() ==> #[trigger] final(game).objects@[k] == if tapped_by_attack(*old(game), declarations@, k) {
                GameObject { tapped: true, ..old(game).objects@[k] }
            } else {
                old(game).objects@[k]
            }
        },
{
    // First pass: validate all declarations
    let mut i: usize = 0;
    while i < declarations.len()
        invariant
            i <= declarations@.len(),
            first_attack_error_from(*game, declarations@, 0) == first_attack_error_from(
                *game,
                declarations@,
                i as int,
            ),
        decreases declarations.len() - i,
    {
        match check_attack_declaration(game, &declarations, i) {
            Some(e) => {
                return Err(e);
            },
            None => {},
        }
        i = i + 1;
    }
    match max_creatures_can_attack_each_combat(game) {
        Some(max_attackers) => {
            if declarations.len() > max_attackers {
                return Err(CombatError::TooManyAttackers { maximum: max_attackers, provided: declarations.len() });
            }
        },
        None => {},
    }

    // Second pass: apply declarations and tap attackers without vigilance
    let ghost old_game = *game;
    let ghost old_combat = *combat;
    let ghost decls = declarations@;
    let mut i: usize = 0;
    while i < declarations.len()
        invariant
            decls == declarations@,
            i <= declarations@.len(),
            combat.attackers@ == old_combat.attackers@ + infos_of(decls.subrange(0, i as int)),
            forall|a: ObjectId| #[trigger] combat.blockers_of(a) == if declares(decls.subrange(0, i as int), a) {
                Some(Seq::<ObjectId>::empty())
            } else {
                old_combat.blockers_of(a)
            },
            combat.damage_assignment_order == old_combat.damage_assignment_order,
            keys_unique(old_combat.blockers@) ==> keys_unique(combat.blockers@),
            same_except_objects(*game, old_game),
            game.objects@.len() == old_game.objects@.len(),
            forall|k: int| 0 <= k < old_game.objects@.len() ==> #[trigger] game.objects@[k] == if tapped_by_attack(old_game, decls.subrange(0, i as int), k) {
                GameObject { tapped: true, ..old_game.objects@[k] }
            } else {
                old_game.objects@[k]
            },
        decreases declarations.len() - i,
    {
        let ghost combat_start = *combat;
        assert(forall|a: ObjectId| #[trigger] combat_start.blockers_of(a) == if declares(decls.subrange(0, i as int), a) {
            Some(Seq::<ObjectId>::empty())
        } else {
            old_combat.blockers_of(a)
        });
        let (creature_id, target) = declarations[i];
        let ghost prefix = decls.subrange(0, i as int);
        let ghost next = decls.subrange(0, i + 1);
        assert(next == prefix.push(decls[i as int]));
        assert(infos_of(next) == infos_of(prefix).push(AttackerInfo { creature: creature_id, target }));
        combat.attackers.push(AttackerInfo { creature: creature_id, target });
        let ghost combat_before = *combat;
        insert_entry(&mut combat.blockers, creature_id, Vec::new());
        proof {
            assert forall|a: ObjectId| #[trigger] declares(next, a) == (declares(prefix, a) || a == creature_id) by {
                if declares(next, a) {
                    let j = choose|j: int| 0 <= j < next.len() && (#[trigger] next[j]).0 == a;
                    if j < i {
                        assert(prefix[j] == next[j]);
                    }
                }
                if declares(prefix, a) {
                    let j = choose|j: int| 0 <= j < prefix.len() && (#[trigger] prefix[j]).0 == a;
                    assert(next[j] == prefix[j]);
                }
                if a == creature_id {
                    assert(next[i as int].0 == a);
                }
            }
            assert forall|a: ObjectId| #[trigger] combat.blockers_of(a) == if declares(next, a) {
                Some(Seq::<ObjectId>::empty())
            } else {
                old_combat.blockers_of(a)
            } by {
                if a != creature_id {
                    assert(lookup(combat.blockers@, a) == lookup(combat_before.blockers@, a));
                    assert(combat_before.blockers == combat_start.blockers);
                    assert(combat_start.blockers_of(a) == if declares(prefix, a) {
                        Some(Seq::<ObjectId>::empty())
                    } else {
                        old_combat.blockers_of(a)
                    });
                }
            }
        }
        let ghost game_before = *game;
        proof {
            lemma_object_index_same_ids(game_before.objects@, old_game.objects@, creature_id, 0);
            lemma_object_index_from(old_game.objects@, creature_id, 0);
        }
        let has_vigilance = match game.object(creature_id) {
            Some(o) => contains_static(&o.static_abilities, &StaticAbility::Vigilance),
            None => true,
        };
        if !has_vigilance {
            game.tap(creature_id);
        }
        proof {
            assert forall|k: int| 0 <= k < old_game.objects@.len() implies #[trigger] game.objects@[k] == if tapped_by_attack(old_game, next, k) {
                GameObject { tapped: true, ..old_game.objects@[k] }
            } else {
                old_game.objects@[k]
            } by {
                let hit = object_index_from(old_game.objects@, creature_id, 0) == Some(k);
                if hit {
                    assert(next[i as int].0 == creature_id);
                }
                if tapped_by_attack(old_game, next, k) && !hit {
                    let j = choose|j: int| 0 <= j < next.len() && object_index_from(old_game.objects@, (#[trigger] next[j]).0, 0) == Some(k);
                    assert(j < i);
                    assert(prefix[j] == next[j]);
                }
                if tapped_by_attack(old_game, prefix, k) {
                    let j = choose|j: int| 0 <= j < prefix.len() && object_index_from(old_game.objects@, (#[trigger] prefix[j]).0, 0) == Some(k);
                    assert(next[j] == prefix[j]);
                }
            }
        }
        i = i + 1;
    }
    assert(decls.subrange(0, decls.len() as int) == decls);
    Ok(())
}


// ---------------------------------------------------------------------------
// Declaring blockers
// ---------------------------------------------------------------------------

/// `x` capped at `usize::MAX`.
pub open spec fn cap(x: nat) -> nat {
    if x <= usize::MAX { x } else { usize::MAX as nat }
}

/// Sum of the additional attackers the abilities let a creature block.
pub open spec fn extra_blocks_total(s: Seq<StaticAbility>) -> nat
    decreases s.len(),
{
    if s.len() == 0 {
        0
    } else {
        extra_blocks_total(s.drop_last()) + match s.last().extra_blocks() {
            Some(n) => n as nat,
            None => 0,
        }
    }
}

/// How many attackers a creature may block: one, plus what its abilities add
/// (saturating at `usize::MAX`).
pub open spec fn block_capacity(o: GameObject) -> nat {
    cap(1 + cap(extra_blocks_total(o.static_abilities@)))
}

/// How often blocker `b` occurs among the first `n` declarations.
pub open spec fn occurrences(decls: Seq<(ObjectId, ObjectId)>, b: ObjectId, n: int) -> nat
    decreases n,
{
    if n <= 0 {
        0
    } else {
        occurrences(decls, b, n - 1) + if decls[n - 1].0 == b { 1nat } else { 0nat }
    }
}

/// Whether the rules or effects forbid blocker `b` from blocking attacker `a`
/// in a declaration.
pub open spec fn block_forbidden(game: GameState, b: ObjectId, a: ObjectId) -> bool {
    ||| game.block_restrictions@.contains(BlockPair { blocker: b, attacker: a })
    ||| game.has_static(b, StaticAbility::CantBlock)
    ||| game.cant_effects.cant_block@.contains(b)
    ||| game.cant_effects.cant_be_blocked@.contains(a)
}

/// The error for block declaration `i`, if it is invalid (checks in rule order).
pub open spec fn block_declaration_error(
    game: GameState,
    combat: CombatState,
    decls: Seq<(ObjectId, ObjectId)>,
    i: int,
) -> Option<CombatError> {
    let b = decls[i].0;
    let a = decls[i].1;
    match game.object_of(b) {
        None => Some(CombatError::NotOnBattlefield(b)),
        Some(bo) => if occurrences(decls, b, i + 1) > block_capacity(bo) {
            Some(CombatError::DuplicateBlocker(b))
        } else if bo.zone != Zone::Battlefield {
            Some(CombatError::NotOnBattlefield(b))
        } else if !game.has_card_type(b, CardType::Creature) {
            Some(CombatError::NotACreature(b))
        } else if game.tapped_spec(b) {
            Some(CombatError::CreatureTapped(b))
        } else if !combat.attacking(a) {
            Some(CombatError::AttackerNotFound(a))
        } else {
            match game.object_of(a) {
                None => Some(CombatError::NotOnBattlefield(a)),
                Some(ao) => if block_forbidden(game, b, a) {
                    Some(CombatError::CreatureCannotBlock { blocker: b, attacker: a })
                } else {
                    None
                },
            }
        },
    }
}

/// The first error among block declarations `i..`, if any.
pub open spec fn first_block_error_from(
    game: GameState,
    combat: CombatState,
    decls: Seq<(ObjectId, ObjectId)>,
    i: int,
) -> Option<CombatError>
    decreases decls.len() - i,
{
    if i < 0 || i >= decls.len() {
        None
    } else {
        match block_declaration_error(game, combat, decls, i) {
            Some(e) => Some(e),
            None => first_block_error_from(game, combat, decls, i + 1),
        }
    }
}

/// The number of distinct blockers among the first `n` declarations.
pub open spec fn distinct_blockers(decls: Seq<(ObjectId, ObjectId)>, n: int) -> nat
    decreases n,
{
    if n <= 0 {
        0
    } else {
        distinct_blockers(decls, n - 1) + if exists|j: int| 0 <= j < n - 1 && (#[trigger] decls[j]).0 == decls[n
            - 1].0 {
            0nat
        } else {
            1nat
        }
    }
}

/// The attackers among the first `n` declarations, in order of first appearance.
pub open spec fn attacker_keys(decls: Seq<(ObjectId, ObjectId)>, n: int) -> Seq<ObjectId>
    decreases n,
{
    if n <= 0 {
        Seq::empty()
    } else {
        let ks = attacker_keys(decls, n - 1);
        if ks.contains(decls[n - 1].1) {
            ks
        } else {
            ks.push(decls[n - 1].1)
        }
    }
}

/// The blockers declared against attacker `a` among the first `n` declarations, in order.
pub open spec fn blockers_for(decls: Seq<(ObjectId, ObjectId)>, a: ObjectId, n: int) -> Seq<ObjectId>
    decreases n,
{
    if n <= 0 {
        Seq::empty()
    } else {
        let rest = blockers_for(decls, a, n - 1);
        if decls[n - 1].1 == a {
            rest.push(decls[n - 1].0)
        } else {
            rest
        }
    }
}

/// The blocker-count error for attacker `a` with blockers `list`, if any.
pub open spec fn group_error(game: GameState, a: ObjectId, list: Seq<ObjectId>) -> Option<CombatError> {
    match game.object_of(a) {
        None => None,
        Some(ao) => if list.len() > 0 && list.len() < ao.min_blockers {
            Some(CombatError::NotEnoughBlockers { attacker: a, required: ao.min_blockers, provided: list.len() as usize })
        } else {
            match ao.max_blockers {
                Some(m) => if list.len() > m {
                    Some(CombatError::TooManyBlockers { attacker: a, maximum: m, provided: list.len() as usize })
                } else {
                    None
                },
                None => None,
            }
        },
    }
}

/// The first blocker-count error among attackers `keys[k..]`.
pub open spec fn first_group_error_from(
    game: GameState,
    decls: Seq<(ObjectId, ObjectId)>,
    keys: Seq<ObjectId>,
    k: int,
) -> Option<CombatError>
    decreases keys.len() - k,
{
    if k < 0 || k >= keys.len() {
        None
    } else {
        match group_error(game, keys[k], blockers_for(decls, keys[k], decls.len() as int)) {
            Some(e) => Some(e),
            None => first_group_error_from(game, decls, keys, k + 1),
        }
    }
}

/// Whether the creature is able to meet a blocking requirement at all
/// (on the battlefield, a creature, untapped).
pub open spec fn blocker_available(game: GameState, b: ObjectId) -> bool {
    game.object_of(b) matches Some(bo) && bo.zone == Zone::Battlefield && game.has_card_type(b, CardType::Creature)
        && !game.tapped_spec(b)
}

/// Whether blocker `b` could legally block attacker `ra`.
pub open spec fn could_block(game: GameState, b: ObjectId, ra: ObjectId) -> bool {
    &&& !game.block_restrictions@.contains(BlockPair { blocker: b, attacker: ra })
    &&& !game.cant_effects.cant_block_attacker@.contains(BlockPair { blocker: b, attacker: ra })
    &&& !game.cant_effects.cant_block@.contains(b)
    &&& !game.cant_effects.cant_be_blocked@.contains(ra)
    &&& !game.has_static(b, StaticAbility::CantBlock)
}

/// Whether the declarations include blocker `b` blocking attacker `a`.
pub open spec fn declares_block(decls: Seq<(ObjectId, ObjectId)>, b: ObjectId, a: ObjectId) -> bool {
    exists|j: int| 0 <= j < decls.len() && #[trigger] decls[j] == (b, a)
}

/// Whether a "must block `ra`" requirement on `b` is broken by the declarations.
pub open spec fn requirement_broken(
    game: GameState,
    combat: CombatState,
    decls: Seq<(ObjectId, ObjectId)>,
    b: ObjectId,
    ra: ObjectId,
) -> bool {
    &&& combat.attacking(ra)
    &&& game.object_of(ra) is Some
    &&& could_block(game, b, ra)
    &&& !declares_block(decls, b, ra)
}

/// The first broken requirement of blocker `b` among `attackers[t..]`.
pub open spec fn first_broken_from(
    game: GameState,
    combat: CombatState,
    decls: Seq<(ObjectId, ObjectId)>,
    b: ObjectId,
    attackers: Seq<ObjectId>,
    t: int,
) -> Option<CombatError>
    decreases attackers.len() - t,
{
    if t < 0 || t >= attackers.len() {
        None
    } else if requirement_broken(game, combat, decls, b, attackers[t]) {
        Some(CombatError::MustBlockRequirementNotMet { blocker: b, attacker: attackers[t] })
    } else {
        first_broken_from(game, combat, decls, b, attackers, t + 1)
    }
}

/// The first broken "must block" requirement among requirements `e..`.
pub open spec fn first_requirement_error_from(
    game: GameState,
    combat: CombatState,
    decls: Seq<(ObjectId, ObjectId)>,
    e: int,
) -> Option<CombatError>
    decreases game.cant_effects.must_block_specific_attackers@.len() - e,
{
    let reqs = game.cant_effects.must_block_specific_attackers@;
    if e < 0 || e >= reqs.len() {
        None
    } else {
        let b = reqs[e].blocker;
        let here = if blocker_available(game, b) {
            first_broken_from(game, combat, decls, b, reqs[e].attackers@, 0)
        } else {
            None
        };
        match here {
            Some(err) => Some(err),
            None => first_requirement_error_from(game, combat, decls, e + 1),
        }
    }
}

/// Why a declaration of blockers is refused, if it is.
pub open spec fn block_outcome(
    game: GameState,
    combat: CombatState,
    decls: Seq<(ObjectId, ObjectId)>,
) -> Option<CombatError> {
    let n = decls.len() as int;
    match first_block_error_from(game, combat, decls, 0) {
        Some(e) => Some(e),
        None => {
            let limit_error = match min_block_limit(battlefield_statics(game)) {
                Some(m) => if distinct_blockers(decls, n) > m {
                    Some(CombatError::TooManyBlockingCreatures { maximum: m, provided: distinct_blockers(decls, n) as usize })
                } else {
                    None
                },
                None => None,
            };
            match limit_error {
                Some(e) => Some(e),
                None => match first_group_error_from(game, decls, attacker_keys(decls, n), 0) {
                    Some(e) => Some(e),
                    None => first_requirement_error_from(game, combat, decls, 0),
                },
            }
        },
    }
}

/// The combat state `after` is `before` with the blocks `decls` recorded: each
/// declared attacker gets the blockers declared against it, in order.
pub open spec fn blockers_declared(
    before: CombatState,
    after: CombatState,
    decls: Seq<(ObjectId, ObjectId)>,
) -> bool {
    &&& after.attackers == before.attackers
    &&& after.damage_assignment_order == before.damage_assignment_order
    &&& forall|a: ObjectId| #[trigger] after.blockers_of(a) == if declares_attacker(decls, a) {
        Some(blockers_for(decls, a, decls.len() as int))
    } else {
        before.blockers_of(a)
    }
    &&& (before.wf() ==> after.wf())
}

/// Whether attacker `a` occurs among the declarations.
pub open spec fn declares_attacker(decls: Seq<(ObjectId, ObjectId)>, a: ObjectId) -> bool {
    exists|j: int| 0 <= j < decls.len() && (#[trigger] decls[j]).1 == a
}

/// How many attackers the creature may block (saturating).
fn max_attackers_this_blocker_can_block(blocker: &GameObject) -> (r: usize)
    ensures
        r == block_capacity(*blocker),
{
    let s = &blocker.static_abilities;
    let mut extra: usize = 0;
    let mut i: usize = 0;
    while i < s.len()
        invariant
            i <= s.len(),
            extra == cap(extra_blocks_total(s@.subrange(0, i as int))),
        decreases s.len() - i,
    {
        assert(s@.subrange(0, i + 1).drop_last() == s@.subrange(0, i as int));
        match s[i].additional_blockable_attackers() {
            Some(n) => {
                extra = extra.saturating_add(n);
            },
            None => {},
        }
        i = i + 1;
    }
    assert(s@.subrange(0, s@.len() as int) == s@);
    1usize.saturating_add(extra)
}

/// The number of times `b` is declared among the first `n` declarations.
fn count_occurrences(decls: &Vec<(ObjectId, ObjectId)>, b: ObjectId, n: usize) -> (r: usize)
    requires
        n <= decls@.len(),
    ensures
        r == occurrences(decls@, b, n as int),
{
    let mut count: usize = 0;
    let mut j: usize = 0;
    while j < n
        invariant
            n <= decls@.len(),
            j <= n,
            count == occurrences(decls@, b, j as int),
            count <= j,
        decreases n - j,
    {
        if decls[j].0 == b {
            count = count + 1;
        }
        j = j + 1;
    }
    count
}

/// The error for block declaration `i`, if it is invalid.
fn check_block_declaration(
    game: &GameState,
    combat: &CombatState,
    decls: &Vec<(ObjectId, ObjectId)>,
    i: usize,
) -> (r: Option<CombatError>)
    requires
        i < decls@.len(),
    ensures
        r == block_declaration_error(*game, *combat, decls@, i as int),
{
    let (blocker_id, attacker_id) = decls[i];
    let blocker = match game.object(blocker_id) {
        Some(o) => o,
        None => {
            return Some(CombatError::NotOnBattlefield(blocker_id));
        },
    };
    let max_attackers = max_attackers_this_blocker_can_block(blocker);
    let n = decls.len();
    assert(i < n);
    let seen = count_occurrences(decls, blocker_id, i + 1);
    if seen > max_attackers {
        return Some(CombatError::DuplicateBlocker(blocker_id));
    }
    if blocker.zone != Zone::Battlefield {
        return Some(CombatError::NotOnBattlefield(blocker_id));
    }
    if !game.object_has_card_type(blocker_id, CardType::Creature) {
        return Some(CombatError::NotACreature(blocker_id));
    }
    if game.is_tapped(blocker_id) {
        return Some(CombatError::CreatureTapped(blocker_id));
    }
    if !is_attacking(combat, attacker_id) {
        return Some(CombatError::AttackerNotFound(attacker_id));
    }
    match game.object(attacker_id) {
        Some(_) => {},
        None => {
            return Some(CombatError::NotOnBattlefield(attacker_id));
        },
    }
    if contains_block_pair(&game.block_restrictions, blocker_id, attacker_id) {
        return Some(CombatError::CreatureCannotBlock { blocker: blocker_id, attacker: attacker_id });
    }
    if game.object_has_ability(blocker_id, &StaticAbility::cant_block()) || !game.can_block(blocker_id) {
        return Some(CombatError::CreatureCannotBlock { blocker: blocker_id, attacker: attacker_id });
    }
    if !game.can_be_blocked(attacker_id) {
        return Some(CombatError::CreatureCannotBlock { blocker: blocker_id, attacker: attacker_id });
    }
    None
}

/// The number of distinct blockers among the declarations.
fn count_distinct_blockers(decls: &Vec<(ObjectId, ObjectId)>) -> (r: usize)
    ensures
        r == distinct_blockers(decls@, decls@.len() as int),
{
    let mut count: usize = 0;
    let mut i: usize = 0;
    while i < decls.len()
        invariant
            i <= decls@.len(),
            count == distinct_blockers(decls@, i as int),
            count <= i,
        decreases decls.len() - i,
    {
        let b = decls[i].0;
        let mut seen = false;
        let mut j: usize = 0;
        while j < i
            invariant
                i < decls@.len(),
                j <= i,
                b == decls@[i as int].0,
                seen == exists|k: int| 0 <= k < j && (#[trigger] decls@[k]).0 == b,
            decreases i - j,
        {
            if decls[j].0 == b {
                seen = true;
            }
            j = j + 1;
        }
        if !seen {
            count = count + 1;
        }
        i = i + 1;
    }
    count
}

/// Groups the declared blockers by attacker, attackers in order of first
/// appearance and each attacker's blockers in declaration order.
fn group_by_attacker(decls: &Vec<(ObjectId, ObjectId)>) -> (groups: Vec<BlockerEntry>)
    ensures
        groups@.len() == attacker_keys(decls@, decls@.len() as int).len(),
        keys_unique(groups@),
        forall|k: int| 0 <= k < groups@.len() ==> (#[trigger] groups@[k]).attacker == attacker_keys(
            decls@,
            decls@.len() as int,
        )[k] && groups@[k].blockers@ == blockers_for(decls@, groups@[k].attacker, decls@.len() as int),
        forall|a: ObjectId| attacker_keys(decls@, decls@.len() as int).contains(a) <==> declares_attacker(decls@, a),
{
    let mut groups: Vec<BlockerEntry> = Vec::new();
    let mut i: usize = 0;
    while i < decls.len()
        invariant
            i <= decls@.len(),
            groups@.len() == attacker_keys(decls@, i as int).len(),
            keys_unique(groups@),
            forall|k: int| 0 <= k < groups@.len() ==> (#[trigger] groups@[k]).attacker == attacker_keys(decls@, i as int)[k]
                && groups@[k].blockers@ == blockers_for(decls@, groups@[k].attacker, i as int),
            forall|a: ObjectId| attacker_keys(decls@, i as int).contains(a) <==> exists|j: int|
                0 <= j < i && (#[trigger] decls@[j]).1 == a,
        decreases decls.len() - i,
    {
        let (b, a) = decls[i];
        let ghost keys = attacker_keys(decls@, i as int);
        let ghost old_groups = groups@;
        let ghost nkeys = attacker_keys(decls@, i + 1);
        assert(decls@[i as int] == (b, a));
        assert(nkeys == if keys.contains(a) { keys } else { keys.push(a) });
        assert(forall|x: ObjectId| #[trigger] blockers_for(decls@, x, i + 1) == if x == a {
            blockers_for(decls@, x, i as int).push(b)
        } else {
            blockers_for(decls@, x, i as int)
        });
        proof {
            lemma_entry_index_from(groups@, a, 0);
        }
        match find_entry(&groups, a) {
            Some(k) => {
                assert(keys[k as int] == a);
                assert(keys.contains(a));
                let mut list = copy_objects(&groups[k].blockers);
                list.push(b);
                groups.set(k, BlockerEntry { attacker: a, blockers: list });
                proof {
                    assert forall|q: int| 0 <= q < groups@.len() implies (#[trigger] groups@[q]).attacker == nkeys[q]
                        && groups@[q].blockers@ == blockers_for(decls@, groups@[q].attacker, i + 1) by {
                        if q != k {
                            assert(old_groups[q].attacker != a);
                            assert(groups@[q] == old_groups[q]);
                        }
                    }
                    assert(keys_unique(groups@)) by {
                        assert forall|p: int, q: int| 0 <= p < q < groups@.len() implies groups@[p].attacker
                            != groups@[q].attacker by {
                            assert(groups@[p].attacker == old_groups[p].attacker);
                            assert(groups@[q].attacker == old_groups[q].attacker);
                        }
                    }
                }
            },
            None => {
                assert(!keys.contains(a)) by {
                    if keys.contains(a) {
                        let k = choose|k: int| 0 <= k < keys.len() && keys[k] == a;
                        assert(old_groups[k].attacker == a);
                    }
                }
                let mut list: Vec<ObjectId> = Vec::new();
                list.push(b);
                assert(list@ == Seq::<ObjectId>::empty().push(b));
                assert(blockers_for(decls@, a, i as int) == Seq::<ObjectId>::empty()) by {
                    lemma_blockers_for_absent(decls@, a, i as int);
                }
                groups.push(BlockerEntry { attacker: a, blockers: list });
                proof {
                    assert forall|q: int| 0 <= q < groups@.len() implies (#[trigger] groups@[q]).attacker == nkeys[q]
                        && groups@[q].blockers@ == blockers_for(decls@, groups@[q].attacker, i + 1) by {
                        if q < old_groups.len() {
                            assert(groups@[q] == old_groups[q]);
                            assert(old_groups[q].attacker == keys[q]);
                            assert(keys[q] != a);
                        }
                    }
                    assert(keys_unique(groups@)) by {
                        assert forall|p: int, q: int| 0 <= p < q < groups@.len() implies groups@[p].attacker
                            != groups@[q].attacker by {
                            if q == old_groups.len() {
                                assert(groups@[p].attacker == keys[p]);
                            }
                        }
                    }
                }
            },
        }
        proof {
            assert forall|x: ObjectId| nkeys.contains(x) <==> exists|j: int|
                0 <= j < i + 1 && (#[trigger] decls@[j]).1 == x by {
                if nkeys.contains(x) && x != a {
                    let k = choose|k: int| 0 <= k < nkeys.len() && nkeys[k] == x;
                    assert(keys[k] == x);
                    assert(keys.contains(x));
                }
                if exists|j: int| 0 <= j < i + 1 && (#[trigger] decls@[j]).1 == x {
                    let j = choose|j: int| 0 <= j < i + 1 && (#[trigger] decls@[j]).1 == x;
                    if j < i {
                        assert(keys.contains(x));
                        let k = choose|k: int| 0 <= k < keys.len() && keys[k] == x;
                        if !keys.contains(a) {
                            assert(nkeys[k] == x);
                        }
                    } else if !keys.contains(a) {
                        assert(nkeys[keys.len() as int] == a);
                    }
                }
                if x == a {
                    assert(decls@[i as int].1 == a);
                    if !keys.contains(a) {
                        assert(nkeys[keys.len() as int] == a);
                    }
                }
            }
        }
        i = i + 1;
    }
    groups
}

/// No declaration among the first `n` blocks `a`, so no blockers are listed for it.
proof fn lemma_blockers_for_absent(decls: Seq<(ObjectId, ObjectId)>, a: ObjectId, n: int)
    requires
        n <= decls.len(),
        !attacker_keys(decls, n).contains(a),
    ensures
        blockers_for(decls, a, n) == Seq::<ObjectId>::empty(),
    decreases n,
{
    if n > 0 {
        let ks = attacker_keys(decls, n - 1);
        if ks.contains(a) {
            let k = choose|k: int| 0 <= k < ks.len() && ks[k] == a;
            if !ks.contains(decls[n - 1].1) {
                assert(ks.push(decls[n - 1].1)[k] == a);
            }
        }
        if decls[n - 1].1 == a {
            if !ks.contains(a) {
                assert(ks.push(decls[n - 1].1)[ks.len() as int] == a);
            }
        }
        lemma_blockers_for_absent(decls, a, n - 1);
    }
}

/// Whether requirement "`b` must block `ra`" is broken.
fn requirement_is_broken(
    game: &GameState,
    combat: &CombatState,
    decls: &Vec<(ObjectId, ObjectId)>,
    b: ObjectId,
    ra: ObjectId,
) -> (r: bool)
    ensures
        r == requirement_broken(*game, *combat, decls@, b, ra),
{
    if !is_attacking(combat, ra) {
        return false;
    }
    match game.object(ra) {
        Some(_) => {},
        None => {
            return false;
        },
    }
    let can_legally_block_required = !contains_block_pair(&game.block_restrictions, b, ra)
        && game.can_block_attacker(b, ra) && game.can_block(b) && game.can_be_blocked(ra)
        && !game.object_has_ability(b, &StaticAbility::cant_block());
    if !can_legally_block_required {
        return false;
    }
    let mut j: usize = 0;
    while j < decls.len()
        invariant
            j <= decls@.len(),
            forall|k: int| 0 <= k < j ==> #[trigger] decls@[k] != (b, ra),
        decreases decls.len() - j,
    {
        if decls[j].0 == b && decls[j].1 == ra {
            assert(decls@[j as int] == (b, ra));
            return false;
        }
        j = j + 1;
    }
    true
}

/// The first broken "must block" requirement, if any.
fn check_block_requirements(
    game: &GameState,
    combat: &CombatState,
    decls: &Vec<(ObjectId, ObjectId)>,
) -> (r: Option<CombatError>)
    ensures
        r == first_requirement_error_from(*game, *combat, decls@, 0),
{
    let reqs = &game.cant_effects.must_block_specific_attackers;
    let mut e: usize = 0;
    while e < reqs.len()
        invariant
            reqs == &game.cant_effects.must_block_specific_attackers,
            e <= reqs@.len(),
            first_requirement_error_from(*game, *combat, decls@, 0) == first_requirement_error_from(
                *game,
                *combat,
                decls@,
                e as int,
            ),
        decreases reqs.len() - e,
    {
        let blocker_id = reqs[e].blocker;
        let available = match game.object(blocker_id) {
            Some(blocker) => blocker.zone == Zone::Battlefield && game.object_has_card_type(
                blocker_id,
                CardType::Creature,
            ) && !game.is_tapped(blocker_id),
            None => false,
        };
        if available {
            let required = &reqs[e].attackers;
            let mut t: usize = 0;
            while t < required.len()
                invariant
                    reqs == &game.cant_effects.must_block_specific_attackers,
                    e < reqs@.len(),
                    available,
                    blocker_available(*game, blocker_id),
                    first_requirement_error_from(*game, *combat, decls@, 0) == first_requirement_error_from(
                        *game,
                        *combat,
                        decls@,
                        e as int,
                    ),
                    required == &reqs@[e as int].attackers,
                    blocker_id == reqs@[e as int].blocker,
                    t <= required@.len(),
                    first_broken_from(*game, *combat, decls@, blocker_id, required@, 0) == first_broken_from(
                        *game,
                        *combat,
                        decls@,
                        blocker_id,
                        required@,
                        t as int,
                    ),
                decreases required.len() - t,
            {
                let required_attacker = required[t];
                if requirement_is_broken(game, combat, decls, blocker_id, required_attacker) {
                    assert(first_broken_from(*game, *combat, decls@, blocker_id, required@, t as int) == Some(CombatError::MustBlockRequirementNotMet { blocker: blocker_id, attacker: required_attacker }));
                    assert(first_broken_from(*game, *combat, decls@, blocker_id, reqs@[e as int].attackers@, 0) == Some(CombatError::MustBlockRequirementNotMet { blocker: blocker_id, attacker: required_attacker }));
                    assert(first_requirement_error_from(*game, *combat, decls@, e as int) == Some(CombatError::MustBlockRequirementNotMet { blocker: blocker_id, attacker: required_attacker }));
                    return Some(CombatError::MustBlockRequirementNotMet { blocker: blocker_id, attacker: required_attacker });
                }
                t = t + 1;
            }
        }
        e = e + 1;
    }
    None
}

/// Declares blockers for combat.
///
/// This function validates all blockers and enforces blocking restrictions.
/// The defending player should declare blockers.
///
/// # Arguments
/// * `game` - Reference to the game state
/// * `combat` - The combat state to update
/// * `declarations` - List of (blocker, attacker) pairs
///
/// # Returns
/// * `Ok(())` if all declarations are valid
/// * `Err(CombatError)` if any declaration is invalid
pub fn declare_blockers(
    game: &GameState,
    combat: &mut CombatState,
    declarations: Vec<(ObjectId, ObjectId)>,
) -> (r: Result<(), CombatError>)
    ensures
        r == match block_outcome(*game, *old(combat), declarations@) {
            Some(e) => Err(e),
            None => Ok(()),
        },
        r is Err ==> *final(combat) == *old(combat),
        r is Ok ==> blockers_declared(*old(combat), *final(combat), declarations@),
{
    let ghost decls = declarations@;
    let ghost n = decls.len() as int;
    // First pass: validate all blockers
    let mut i: usize = 0;
    while i < declarations.len()
        invariant
            i <= declarations@.len(),
            first_block_error_from(*game, *combat, declarations@, 0) == first_block_error_from(
                *game,
                *combat,
                declarations@,
                i as int,
            ),
        decreases declarations.len() - i,
    {
        match check_block_declaration(game, combat, &declarations, i) {
            Some(e) => {
                return Err(e);
            },
            None => {},
        }
        i = i + 1;
    }
    let distinct = count_distinct_blockers(&declarations);
    match max_creatures_can_block_each_combat(game) {
        Some(max_blockers) => {
            if distinct > max_blockers {
                return Err(CombatError::TooManyBlockingCreatures { maximum: max_blockers, provided: distinct });
            }
        },
        None => {},
    }

    // Second pass: validate minimum/maximum blockers.
    let groups = group_by_attacker(&declarations);
    let ghost keys = attacker_keys(decls, n);
    let mut k: usize = 0;
    while k < groups.len()
        invariant
            decls == declarations@,
            n == decls.len(),
            keys == attacker_keys(decls, n),
            groups@.len() == keys.len(),
            forall|q: int| 0 <= q < groups@.len() ==> (#[trigger] groups@[q]).attacker == keys[q]
                && groups@[q].blockers@ == blockers_for(decls, groups@[q].attacker, n),
            k <= groups@.len(),
            *combat == *old(combat),
            first_block_error_from(*game, *old(combat), decls, 0) is None,
            match min_block_limit(battlefield_statics(*game)) {
                Some(m) => distinct_blockers(decls, n) <= m,
                None => true,
            },
            first_group_error_from(*game, decls, keys, 0) == first_group_error_from(*game, decls, keys, k as int),
        decreases groups.len() - k,
    {
        let attacker_id = groups[k].attacker;
        let count = groups[k].blockers.len();
        assert(groups@[k as int].blockers@.len() == count);
        match game.object(attacker_id) {
            Some(attacker) => {
                let min_blockers = attacker.min_blockers;
                if count > 0 && count < min_blockers {
                    return Err(CombatError::NotEnoughBlockers { attacker: attacker_id, required: min_blockers, provided: count });
                }
                match attacker.max_blockers {
                    Some(max_blockers) => {
                        if count > max_blockers {
                            return Err(CombatError::TooManyBlockers { attacker: attacker_id, maximum: max_blockers, provided: count });
                        }
                    },
                    None => {},
                }
            },
            None => {},
        }
        k = k + 1;
    }

    // Enforce "must block specific attacker if able" requirements.
    match check_block_requirements(game, combat, &declarations) {
        Some(e) => {
            return Err(e);
        },
        None => {},
    }

    // Third pass: apply declarations
    let ghost old_combat = *combat;
    let mut groups = groups;
    let ghost all_groups = groups@;
    let mut k: usize = 0;
    while groups.len() > 0
        invariant
            decls == declarations@,
            n == decls.len(),
            keys == attacker_keys(decls, n),
            all_groups.len() == keys.len(),
            keys_unique(all_groups),
            forall|q: int| 0 <= q < all_groups.len() ==> (#[trigger] all_groups[q]).attacker == keys[q]
                && all_groups[q].blockers@ == blockers_for(decls, all_groups[q].attacker, n),
            forall|x: ObjectId| keys.contains(x) <==> declares_attacker(decls, x),
            k <= all_groups.len(),
            all_groups.len() <= usize::MAX,
            groups@.len() == all_groups.len() - k,
            forall|q: int| 0 <= q < groups@.len() ==> #[trigger] groups@[q] == all_groups[q + k],
            combat.attackers == old_combat.attackers,
            combat.damage_assignment_order == old_combat.damage_assignment_order,
            keys_unique(old_combat.blockers@) ==> keys_unique(combat.blockers@),
            forall|x: ObjectId| #[trigger] combat.blockers_of(x) == if keys.subrange(0, k as int).contains(x) {
                Some(blockers_for(decls, x, n))
            } else {
                old_combat.blockers_of(x)
            },
        decreases all_groups.len() - k,
    {
        let ghost combat_start = *combat;
        assert(forall|x: ObjectId| #[trigger] combat_start.blockers_of(x) == if keys.subrange(0, k as int).contains(x) {
            Some(blockers_for(decls, x, n))
        } else {
            old_combat.blockers_of(x)
        });
        let entry = groups.remove(0);
        assert(entry == all_groups[k as int]);
        let ghost a = entry.attacker;
        assert(a == keys[k as int]);
        assert(entry.blockers@ == blockers_for(decls, a, n));
        insert_entry(&mut combat.blockers, entry.attacker, entry.blockers);
        proof {
            assert forall|q: int| 0 <= q < groups@.len() implies #[trigger] groups@[q] == all_groups[q + k + 1] by {
            }
            let ks = keys.subrange(0, k as int);
            let ks2 = keys.subrange(0, k + 1);
            assert forall|x: ObjectId| #[trigger] combat.blockers_of(x) == if ks2.contains(x) {
                Some(blockers_for(decls, x, n))
            } else {
                old_combat.blockers_of(x)
            } by {
                assert(combat_start.blockers_of(x) == if ks.contains(x) {
                    Some(blockers_for(decls, x, n))
                } else {
                    old_combat.blockers_of(x)
                });
                if x != a {
                    assert(lookup(combat.blockers@, x) == lookup(combat_start.blockers@, x));
                    if ks2.contains(x) {
                        let q = choose|q: int| 0 <= q < ks2.len() && ks2[q] == x;
                        assert(ks[q] == x);
                    }
                    if ks.contains(x) {
                        let q = choose|q: int| 0 <= q < ks.len() && ks[q] == x;
                        assert(ks2[q] == x);
                    }
                } else {
                    assert(ks2[k as int] == a);
                    assert(ks2.contains(a));
                    assert(lookup(combat.blockers@, a) == Some(blockers_for(decls, a, n)));
                }
            }
        }
        k = k + 1;
    }
    proof {
        assert(keys.subrange(0, keys.len() as int) == keys);
    }
    Ok(())
}


// ---------------------------------------------------------------------------
// Damage assignment order
// ---------------------------------------------------------------------------

/// How often `x` occurs in `s`.
pub open spec fn count_in(s: Seq<ObjectId>, x: ObjectId) -> nat
    decreases s.len(),
{
    if s.len() == 0 {
        0
    } else {
        count_in(s.drop_last(), x) + if s.last() == x { 1nat } else { 0nat }
    }
}

/// Whether `a` and `b` hold the same ids, each as often (one is a reordering of the other).
pub open spec fn same_elements(a: Seq<ObjectId>, b: Seq<ObjectId>) -> bool {
    forall|x: ObjectId| count_in(a, x) == count_in(b, x)
}

/// The combat state `after` is `before` with `order` recorded as the damage
/// assignment order of `attacker`, a reordering of its blockers.
pub open spec fn order_set(before: CombatState, after: CombatState, attacker: ObjectId, order: Seq<ObjectId>) -> bool {
    &&& before.attacking(attacker)
    &&& before.blockers_of(attacker) matches Some(bs) && same_elements(bs, order)
    &&& after.attackers == before.attackers
    &&& after.blockers == before.blockers
    &&& after.order_of(attacker) == Some(order)
    &&& forall|a: ObjectId| a != attacker ==> #[trigger] after.order_of(a) == before.order_of(a)
    &&& (before.wf() ==> after.wf())
}

/// How often `x` occurs in `v`.
fn count_object(v: &Vec<ObjectId>, x: ObjectId) -> (r: usize)
    ensures
        r == count_in(v@, x),
{
    let mut n: usize = 0;
    let mut i: usize = 0;
    while i < v.len()
        invariant
            i <= v.len(),
            n == count_in(v@.subrange(0, i as int), x),
            n <= i,
        decreases v.len() - i,
    {
        assert(v@.subrange(0, i + 1).drop_last() == v@.subrange(0, i as int));
        if v[i] == x {
            n = n + 1;
        }
        i = i + 1;
    }
    assert(v@.subrange(0, v@.len() as int) == v@);
    n
}

/// An id absent from a sequence occurs zero times in it.
proof fn lemma_count_in_absent(s: Seq<ObjectId>, x: ObjectId)
    requires
        !s.contains(x),
    ensures
        count_in(s, x) == 0,
    decreases s.len(),
{
    if s.len() > 0 {
        assert(!s.drop_last().contains(x)) by {
            if s.drop_last().contains(x) {
                let k = choose|k: int| 0 <= k < s.drop_last().len() && s.drop_last()[k] == x;
                assert(s[k] == x);
            }
        }
        lemma_count_in_absent(s.drop_last(), x);
    }
}

/// Whether `a` and `b` are reorderings of each other.
fn same_blockers(a: &Vec<ObjectId>, b: &Vec<ObjectId>) -> (r: bool)
    ensures
        r == same_elements(a@, b@),
{
    let mut i: usize = 0;
    while i < a.len()
        invariant
            i <= a.len(),
            forall|k: int| 0 <= k < i ==> count_in(a@, #[trigger] a@[k]) == count_in(b@, a@[k]),
        decreases a.len() - i,
    {
        if count_object(a, a[i]) != count_object(b, a[i]) {
            return false;
        }
        i = i + 1;
    }
    let mut j: usize = 0;
    while j < b.len()
        invariant
            j <= b.len(),
            forall|k: int| 0 <= k < a@.len() ==> count_in(a@, #[trigger] a@[k]) == count_in(b@, a@[k]),
            forall|k: int| 0 <= k < j ==> count_in(a@, #[trigger] b@[k]) == count_in(b@, b@[k]),
        decreases b.len() - j,
    {
        if count_object(a, b[j]) != count_object(b, b[j]) {
            return false;
        }
        j = j + 1;
    }
    proof {
        assert forall|x: ObjectId| count_in(a@, x) == count_in(b@, x) by {
            if a@.contains(x) {
                let k = choose|k: int| 0 <= k < a@.len() && a@[k] == x;
                assert(count_in(a@, a@[k]) == count_in(b@, a@[k]));
            } else if b@.contains(x) {
                let k = choose|k: int| 0 <= k < b@.len() && b@[k] == x;
                assert(count_in(a@, b@[k]) == count_in(b@, b@[k]));
            } else {
                lemma_count_in_absent(a@, x);
                lemma_count_in_absent(b@, x);
            }
        }
    }
    true
}

/// Sets the damage assignment order for an attacker's blockers.
///
/// When an attacker is blocked by multiple creatures, the attacking player
/// chooses the order in which to assign damage. The order must hold exactly
/// the assigned blockers.
///
/// # Returns
/// * `Ok(())` if the order is valid
/// * `Err(CombatError)` if the order is invalid
pub fn set_damage_assignment_order(
    combat: &mut CombatState,
    attacker: ObjectId,
    blocker_order: Vec<ObjectId>,
) -> (r: Result<(), CombatError>)
    ensures
        !old(combat).attacking(attacker) ==> r == Err::<(), CombatError>(CombatError::NotInCombat(attacker)),
        old(combat).attacking(attacker) && old(combat).blockers_of(attacker) is None ==> r == Err::<(), CombatError>(
            CombatError::AttackerNotFound(attacker),
        ),
        old(combat).attacking(attacker) ==> match old(combat).blockers_of(attacker) {
            Some(bs) => if same_elements(bs, blocker_order@) {
                r is Ok
            } else {
                r matches Err(CombatError::InvalidBlockerOrder { attacker: a, expected_blockers: e, provided_blockers: p })
                    && a == attacker && e@ == bs && p@ == blocker_order@
            },
            None => true,
        },
        r is Err ==> *final(combat) == *old(combat),
        r is Ok ==> order_set(*old(combat), *final(combat), attacker, blocker_order@),
{
    // Check that attacker is in combat
    if !is_attacking(combat, attacker) {
        return Err(CombatError::NotInCombat(attacker));
    }
    // Get the assigned blockers
    let idx = match find_entry(&combat.blockers, attacker) {
        Some(i) => i,
        None => {
            return Err(CombatError::AttackerNotFound(attacker));
        },
    };
    // Verify that blocker_order contains exactly the same blockers
    if !same_blockers(&combat.blockers[idx].blockers, &blocker_order) {
        let expected = copy_objects(&combat.blockers[idx].blockers);
        return Err(
            CombatError::InvalidBlockerOrder {
                attacker,
                expected_blockers: expected,
                provided_blockers: blocker_order,
            },
        );
    }
    // Set the damage assignment order
    insert_entry(&mut combat.damage_assignment_order, attacker, blocker_order);
    Ok(())
}

} // verus!
