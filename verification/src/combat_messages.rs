//! Human-readable messages for combat errors.

use vstd::prelude::*;
use crate::ids::{ObjectId, PlayerId};
use crate::combat_state::{AttackTarget, CombatError};
use crate::text::{decimal, push_decimal, push_str};

verus! {

/// `ObjectId(n)`.
pub open spec fn object_text(id: ObjectId) -> Seq<char> {
    "ObjectId("@ + decimal(id.0 as nat) + ")"@
}

/// `PlayerId(n)`.
pub open spec fn player_text(p: PlayerId) -> Seq<char> {
    "PlayerId("@ + decimal(p.0 as nat) + ")"@
}

/// `Player(PlayerId(n))` or `Planeswalker(ObjectId(n))`.
pub open spec fn target_text(t: AttackTarget) -> Seq<char> {
    match t {
        AttackTarget::Player(p) => "Player("@ + player_text(p) + ")"@,
        AttackTarget::Planeswalker(o) => "Planeswalker("@ + object_text(o) + ")"@,
    }
}

/// The ids joined by `, `.
pub open spec fn joined_objects(s: Seq<ObjectId>) -> Seq<char>
    decreases s.len(),
{
    if s.len() == 0 {
        Seq::empty()
    } else if s.len() == 1 {
        object_text(s[0])
    } else {
        joined_objects(s.drop_last()) + ", "@ + object_text(s.last())
    }
}

/// `[ObjectId(a), ObjectId(b), ...]`.
pub open spec fn objects_text(s: Seq<ObjectId>) -> Seq<char> {
    "["@ + joined_objects(s) + "]"@
}

/// The message of a combat error.
pub open spec fn error_text(e: CombatError) -> Seq<char> {
    match e {
        CombatError::CreatureCannotAttack(id) => "Creature "@ + object_text(id) + " cannot attack"@,
        CombatError::CreatureCannotBlock { blocker, attacker } => "Creature "@ + object_text(blocker)
            + " cannot block "@ + object_text(attacker),
        CombatError::NotEnoughBlockers { attacker, required, provided } => "Attacker "@ + object_text(attacker)
            + " requires "@ + decimal(required as nat) + " blockers but only "@ + decimal(provided as nat)
            + " provided"@,
        CombatError::TooManyBlockers { attacker, maximum, provided } => "Attacker "@ + object_text(attacker)
            + " allows at most "@ + decimal(maximum as nat) + " blockers but "@ + decimal(provided as nat)
            + " provided"@,
        CombatError::TooManyAttackers { maximum, provided } => "At most "@ + decimal(maximum as nat)
            + " creatures can attack this combat but "@ + decimal(provided as nat) + " were declared"@,
        CombatError::TooManyBlockingCreatures { maximum, provided } => "At most "@ + decimal(maximum as nat)
            + " creatures can block this combat but "@ + decimal(provided as nat) + " were declared"@,
        CombatError::InvalidAttackTarget(t) => "Invalid attack target: "@ + target_text(t),
        CombatError::CreatureTapped(id) => "Creature "@ + object_text(id) + " is tapped"@,
        CombatError::NotInCombat(id) => "Creature "@ + object_text(id) + " is not in combat"@,
        CombatError::NotOnBattlefield(id) => "Creature "@ + object_text(id) + " is not on the battlefield"@,
        CombatError::NotACreature(id) => "Object "@ + object_text(id) + " is not a creature"@,
        CombatError::NotControlledBy { creature, expected } => "Creature "@ + object_text(creature)
            + " is not controlled by player "@ + player_text(expected),
        CombatError::InvalidBlockerOrder { attacker, expected_blockers, provided_blockers } =>
            "Invalid blocker order for attacker "@ + object_text(attacker) + ": expected "@ + objects_text(
            expected_blockers@,
        ) + ", got "@ + objects_text(provided_blockers@),
        CombatError::DuplicateAttacker(id) => "Creature "@ + object_text(id)
            + " was declared as an attacker multiple times"@,
        CombatError::DuplicateBlocker(id) => "Creature "@ + object_text(id)
            + " was declared as blocking multiple attackers"@,
        CombatError::AttackerNotFound(id) => "Attacker "@ + object_text(id) + " not found"@,
        CombatError::MustAttackNotDeclared(id) => "Creature "@ + object_text(id)
            + " must attack this combat if able but was not declared"@,
        CombatError::MustBlockRequirementNotMet { blocker, attacker } => "Creature "@ + object_text(blocker)
            + " must block "@ + object_text(attacker) + " this combat if able but was not declared"@,
    }
}

/// Appends `ObjectId(n)`.
fn push_object(t: &mut String, id: ObjectId)
    ensures
        final(t)@ == old(t)@ + object_text(id),
{
    push_str(t, "ObjectId(");
    push_decimal(t, id.0);
    push_str(t, ")");
}

/// Appends `PlayerId(n)`.
fn push_player(t: &mut String, p: PlayerId)
    ensures
        final(t)@ == old(t)@ + player_text(p),
{
    push_str(t, "PlayerId(");
    push_decimal(t, p.0 as u64);
    push_str(t, ")");
}

/// Appends the text of an attack target.
fn push_target(t: &mut String, target: AttackTarget)
    ensures
        final(t)@ == old(t)@ + target_text(target),
{
    match target {
        AttackTarget::Player(p) => {
            push_str(t, "Player(");
            push_player(t, p);
            push_str(t, ")");
        },
        AttackTarget::Planeswalker(o) => {
            push_str(t, "Planeswalker(");
            push_object(t, o);
            push_str(t, ")");
        },
    }
}

/// Appends `[ObjectId(a), ...]`.
fn push_objects(t: &mut String, ids: &Vec<ObjectId>)
    ensures
        final(t)@ == old(t)@ + objects_text(ids@),
{
    push_str(t, "[");
    let ghost base = t@;
    let mut i: usize = 0;
    while i < ids.len()
        invariant
            i <= ids@.len(),
            t@ == base + joined_objects(ids@.subrange(0, i as int)),
        decreases ids.len() - i,
    {
        assert(ids@.subrange(0, i + 1).drop_last() == ids@.subrange(0, i as int));
        if i > 0 {
            push_str(t, ", ");
        }
        push_object(t, ids[i]);
        proof {
            if i == 0 {
                assert(joined_objects(ids@.subrange(0, 1)) == object_text(ids@[0]));
            }
        }
        i = i + 1;
    }
    assert(ids@.subrange(0, ids@.len() as int) == ids@);
    push_str(t, "]");
}

impl CombatError {
    /// A human-readable message for this error.
    pub fn display(&self) -> (t: String)
        ensures
            t@ == error_text(*self),
    {
        let mut t = String::new();
        match self {
            CombatError::CreatureCannotAttack(id) => {
                push_str(&mut t, "Creature ");
                push_object(&mut t, *id);
                push_str(&mut t, " cannot attack");
            },
            CombatError::CreatureCannotBlock { blocker, attacker } => {
                push_str(&mut t, "Creature ");
                push_object(&mut t, *blocker);
                push_str(&mut t, " cannot block ");
                push_object(&mut t, *attacker);
            },
            CombatError::NotEnoughBlockers { attacker, required, provided } => {
                push_str(&mut t, "Attacker ");
                push_object(&mut t, *attacker);
                push_str(&mut t, " requires ");
                push_decimal(&mut t, *required as u64);
                push_str(&mut t, " blockers but only ");
                push_decimal(&mut t, *provided as u64);
                push_str(&mut t, " provided");
            },
            CombatError::TooManyBlockers { attacker, maximum, provided } => {
                push_str(&mut t, "Attacker ");
                push_object(&mut t, *attacker);
                push_str(&mut t, " allows at most ");
                push_decimal(&mut t, *maximum as u64);
                push_str(&mut t, " blockers but ");
                push_decimal(&mut t, *provided as u64);
                push_str(&mut t, " provided");
            },
            CombatError::TooManyAttackers { maximum, provided } => {
                push_str(&mut t, "At most ");
                push_decimal(&mut t, *maximum as u64);
                push_str(&mut t, " creatures can attack this combat but ");
                push_decimal(&mut t, *provided as u64);
                push_str(&mut t, " were declared");
            },
            CombatError::TooManyBlockingCreatures { maximum, provided } => {
                push_str(&mut t, "At most ");
                push_decimal(&mut t, *maximum as u64);
                push_str(&mut t, " creatures can block this combat but ");
                push_decimal(&mut t, *provided as u64);
                push_str(&mut t, " were declared");
            },
            CombatError::InvalidAttackTarget(target) => {
                push_str(&mut t, "Invalid attack target: ");
                push_target(&mut t, *target);
            },
            CombatError::CreatureTapped(id) => {
                push_str(&mut t, "Creature ");
                push_object(&mut t, *id);
                push_str(&mut t, " is tapped");
            },
            CombatError::NotInCombat(id) => {
                push_str(&mut t, "Creature ");
                push_object(&mut t, *id);
                push_str(&mut t, " is not in combat");
            },
            CombatError::NotOnBattlefield(id) => {
                push_str(&mut t, "Creature ");
                push_object(&mut t, *id);
                push_str(&mut t, " is not on the battlefield");
            },
            CombatError::NotACreature(id) => {
                push_str(&mut t, "Object ");
                push_object(&mut t, *id);
                push_str(&mut t, " is not a creature");
            },
            CombatError::NotControlledBy { creature, expected } => {
                push_str(&mut t, "Creature ");
                push_object(&mut t, *creature);
                push_str(&mut t, " is not controlled by player ");
                push_player(&mut t, *expected);
            },
            CombatError::InvalidBlockerOrder { attacker, expected_blockers, provided_blockers } => {
                push_str(&mut t, "Invalid blocker order for attacker ");
                push_object(&mut t, *attacker);
                push_str(&mut t, ": expected ");
                push_objects(&mut t, expected_blockers);
                push_str(&mut t, ", got ");
                push_objects(&mut t, provided_blockers);
            },
            CombatError::DuplicateAttacker(id) => {
                push_str(&mut t, "Creature ");
                push_object(&mut t, *id);
                push_str(&mut t, " was declared as an attacker multiple times");
            },
            CombatError::DuplicateBlocker(id) => {
                push_str(&mut t, "Creature ");
                push_object(&mut t, *id);
                push_str(&mut t, " was declared as blocking multiple attackers");
            },
            CombatError::AttackerNotFound(id) => {
                push_str(&mut t, "Attacker ");
                push_object(&mut t, *id);
                push_str(&mut t, " not found");
            },
            CombatError::MustAttackNotDeclared(id) => {
                push_str(&mut t, "Creature ");
                push_object(&mut t, *id);
                push_str(&mut t, " must attack this combat if able but was not declared");
            },
            CombatError::MustBlockRequirementNotMet { blocker, attacker } => {
                push_str(&mut t, "Creature ");
                push_object(&mut t, *blocker);
                push_str(&mut t, " must block ");
                push_object(&mut t, *attacker);
                push_str(&mut t, " this combat if able but was not declared");
            },
        }
        t
    }
}

} // verus!
