//! Static abilities as far as the rules of this library read them.

use vstd::prelude::*;
use crate::types::{CardType, Subtype};
use crate::game::CounterType;
use crate::cards::ability::{AlternativeCastingMethod, CardFilter, GrantSpec, Grantable};

verus! {

/// A static ability of a permanent.
#[derive(Debug, Clone, PartialEq, Eq, Structural)]
pub enum StaticAbility {
    Flying,
    Reach,
    Vigilance,
    Trample,
    Haste,
    Defender,
    Menace,
    Indestructible,
    Hexproof,
    /// This creature can't block.
    CantBlock,
    /// No more than this many creatures can attack each combat.
    MaxCreaturesCanAttack(usize),
    /// No more than this many creatures can block each combat.
    MaxCreaturesCanBlock(usize),
    /// This creature can block this many additional creatures each combat.
    CanBlockAdditionalCreatures(usize),
    /// Creatures in the group get +power/+toughness.
    Anthem { power: i32, toughness: i32, affected: CreatureGroup },
    /// Creatures in the group have the keyword.
    GrantAbility { keyword: Keyword, affected: CreatureGroup },
    /// Protection from creatures of a subtype.
    ProtectionFromSubtype(Subtype),
    /// Protection from cards of a card type.
    ProtectionFromCardType(CardType),
    /// Creatures in the group enter with additional counters.
    EnterWithCounters { counter: CounterType, count: u32, affected: CreatureGroup },
    /// Each nonland card in your graveyard has escape: its mana cost plus
    /// exiling this many other cards from your graveyard.
    GrantEscapeToNonland { exile_count: u32 },
    /// This spell costs {1} less for each card type among cards in your graveyard.
    CostReductionPerCardTypeInGraveyard,
    /// This creature has the activated abilities of the other-named creatures you control.
    HasActivatedAbilitiesOfCreatures,
    /// This land enters tapped unless you control this many other lands.
    EntersTappedUnlessControlOtherLands(u32),
}

/// The creatures an ability applies to.
#[derive(Debug, Clone, Copy, PartialEq, Eq, Structural)]
pub enum CreatureGroup {
    CreaturesYouControl,
    OtherCreaturesYouControl,
    CommanderCreaturesYouControl,
}

/// A keyword that an ability can grant.
#[derive(Debug, Clone, Copy, PartialEq, Eq, Structural)]
pub enum Keyword {
    Flying,
    Trample,
    Vigilance,
    Indestructible,
    Hexproof,
    Haste,
}

/// What a protection ability protects from.
#[derive(Debug, Clone, Copy, PartialEq, Eq, Structural)]
pub enum ProtectionFrom {
    /// Permanents with the subtype.
    Subtype(Subtype),
    /// Cards (and spells) of the card type.
    CardType(CardType),
}

/// The kind of a static ability.
#[derive(Debug, Clone, Copy, PartialEq, Eq, Structural)]
pub enum StaticAbilityId {
    Keyword,
    CantBlock,
    AttackLimit,
    BlockLimit,
    ExtraBlocks,
    Anthem,
    GrantAbility,
    Protection,
    EnterWithCountersForFilter,
    Grants,
    CostReduction,
    CopyActivatedAbilities,
    EntersTapped,
}

impl StaticAbility {
    /// The attack limit this ability imposes, if any.
    pub open spec fn attack_limit(self) -> Option<usize> {
        match self {
            StaticAbility::MaxCreaturesCanAttack(n) => Some(n),
            _ => None,
        }
    }

    /// The block limit this ability imposes, if any.
    pub open spec fn block_limit(self) -> Option<usize> {
        match self {
            StaticAbility::MaxCreaturesCanBlock(n) => Some(n),
            _ => None,
        }
    }

    /// The additional attackers this ability lets its creature block, if any.
    pub open spec fn extra_blocks(self) -> Option<usize> {
        match self {
            StaticAbility::CanBlockAdditionalCreatures(n) => Some(n),
            _ => None,
        }
    }

    /// A copy of this ability.
    pub fn duplicate(&self) -> (r: StaticAbility)
        ensures
            r == *self,
    {
        match self {
            StaticAbility::Flying => StaticAbility::Flying,
            StaticAbility::Reach => StaticAbility::Reach,
            StaticAbility::Vigilance => StaticAbility::Vigilance,
            StaticAbility::Trample => StaticAbility::Trample,
            StaticAbility::Haste => StaticAbility::Haste,
            StaticAbility::Defender => StaticAbility::Defender,
            StaticAbility::Menace => StaticAbility::Menace,
            StaticAbility::Indestructible => StaticAbility::Indestructible,
            StaticAbility::Hexproof => StaticAbility::Hexproof,
            StaticAbility::CantBlock => StaticAbility::CantBlock,
            StaticAbility::MaxCreaturesCanAttack(n) => StaticAbility::MaxCreaturesCanAttack(*n),
            StaticAbility::MaxCreaturesCanBlock(n) => StaticAbility::MaxCreaturesCanBlock(*n),
            StaticAbility::CanBlockAdditionalCreatures(n) => StaticAbility::CanBlockAdditionalCreatures(*n),
            StaticAbility::Anthem { power, toughness, affected } => StaticAbility::Anthem {
                power: *power,
                toughness: *toughness,
                affected: *affected,
            },
            StaticAbility::GrantAbility { keyword, affected } => StaticAbility::GrantAbility {
                keyword: *keyword,
                affected: *affected,
            },
            StaticAbility::ProtectionFromSubtype(t) => StaticAbility::ProtectionFromSubtype(*t),
            StaticAbility::ProtectionFromCardType(t) => StaticAbility::ProtectionFromCardType(*t),
            StaticAbility::EnterWithCounters { counter, count, affected } => StaticAbility::EnterWithCounters {
                counter: *counter,
                count: *count,
                affected: *affected,
            },
            StaticAbility::GrantEscapeToNonland { exile_count } => StaticAbility::GrantEscapeToNonland {
                exile_count: *exile_count,
            },
            StaticAbility::CostReductionPerCardTypeInGraveyard => StaticAbility::CostReductionPerCardTypeInGraveyard,
            StaticAbility::HasActivatedAbilitiesOfCreatures => StaticAbility::HasActivatedAbilitiesOfCreatures,
            StaticAbility::EntersTappedUnlessControlOtherLands(n) => StaticAbility::EntersTappedUnlessControlOtherLands(
                *n,
            ),
        }
    }

    /// The kind of this ability.
    pub fn id(&self) -> (k: StaticAbilityId)
        ensures
            k == match *self {
                StaticAbility::CantBlock => StaticAbilityId::CantBlock,
                StaticAbility::MaxCreaturesCanAttack(_) => StaticAbilityId::AttackLimit,
                StaticAbility::MaxCreaturesCanBlock(_) => StaticAbilityId::BlockLimit,
                StaticAbility::CanBlockAdditionalCreatures(_) => StaticAbilityId::ExtraBlocks,
                StaticAbility::Anthem { .. } => StaticAbilityId::Anthem,
                StaticAbility::GrantAbility { .. } => StaticAbilityId::GrantAbility,
                StaticAbility::ProtectionFromSubtype(_) => StaticAbilityId::Protection,
                StaticAbility::ProtectionFromCardType(_) => StaticAbilityId::Protection,
                StaticAbility::EnterWithCounters { .. } => StaticAbilityId::EnterWithCountersForFilter,
                StaticAbility::GrantEscapeToNonland { .. } => StaticAbilityId::Grants,
                StaticAbility::CostReductionPerCardTypeInGraveyard => StaticAbilityId::CostReduction,
                StaticAbility::HasActivatedAbilitiesOfCreatures => StaticAbilityId::CopyActivatedAbilities,
                StaticAbility::EntersTappedUnlessControlOtherLands(_) => StaticAbilityId::EntersTapped,
                _ => StaticAbilityId::Keyword,
            },
    {
        match self {
            StaticAbility::CantBlock => StaticAbilityId::CantBlock,
            StaticAbility::MaxCreaturesCanAttack(_) => StaticAbilityId::AttackLimit,
            StaticAbility::MaxCreaturesCanBlock(_) => StaticAbilityId::BlockLimit,
            StaticAbility::CanBlockAdditionalCreatures(_) => StaticAbilityId::ExtraBlocks,
            StaticAbility::Anthem { .. } => StaticAbilityId::Anthem,
            StaticAbility::GrantAbility { .. } => StaticAbilityId::GrantAbility,
            StaticAbility::ProtectionFromSubtype(_) => StaticAbilityId::Protection,
            StaticAbility::ProtectionFromCardType(_) => StaticAbilityId::Protection,
            StaticAbility::EnterWithCounters { .. } => StaticAbilityId::EnterWithCountersForFilter,
            StaticAbility::GrantEscapeToNonland { .. } => StaticAbilityId::Grants,
            StaticAbility::CostReductionPerCardTypeInGraveyard => StaticAbilityId::CostReduction,
            StaticAbility::HasActivatedAbilitiesOfCreatures => StaticAbilityId::CopyActivatedAbilities,
            StaticAbility::EntersTappedUnlessControlOtherLands(_) => StaticAbilityId::EntersTapped,
            _ => StaticAbilityId::Keyword,
        }
    }

    /// What this ability grants to which cards, if it grants to cards.
    pub fn grant_spec(&self) -> (r: Option<GrantSpec>)
        ensures
            match *self {
                StaticAbility::GrantEscapeToNonland { exile_count } => r matches Some(g) && g.grantable
                    == Grantable::AlternativeCast(AlternativeCastingMethod::Escape { exile_count })
                    && g.filter.excluded_card_types@ == seq![CardType::Land] && g.filter.card_types@.len() == 0
                    && !g.filter.permanent && g.filter.max_mana_value is None,
                _ => r is None,
            },
    {
        match self {
            StaticAbility::GrantEscapeToNonland { exile_count } => {
                let mut filter = CardFilter::any();
                filter.excluded_card_types.push(CardType::Land);
                Some(
                    GrantSpec {
                        grantable: Grantable::AlternativeCast(
                            AlternativeCastingMethod::Escape { exile_count: *exile_count },
                        ),
                        filter,
                    },
                )
            },
            _ => None,
        }
    }

    /// What this ability gives protection from, if it is a protection ability.
    pub fn protection_from(&self) -> (r: Option<ProtectionFrom>)
        ensures
            r == match *self {
                StaticAbility::ProtectionFromSubtype(t) => Some(ProtectionFrom::Subtype(t)),
                StaticAbility::ProtectionFromCardType(t) => Some(ProtectionFrom::CardType(t)),
                _ => None,
            },
    {
        match self {
            StaticAbility::ProtectionFromSubtype(t) => Some(ProtectionFrom::Subtype(*t)),
            StaticAbility::ProtectionFromCardType(t) => Some(ProtectionFrom::CardType(*t)),
            _ => None,
        }
    }

    /// The "can't block" ability.
    pub fn cant_block() -> (s: StaticAbility)
        ensures
            s == StaticAbility::CantBlock,
    {
        StaticAbility::CantBlock
    }

    /// The indestructible ability.
    pub fn indestructible() -> (s: StaticAbility)
        ensures
            s == StaticAbility::Indestructible,
    {
        StaticAbility::Indestructible
    }

    /// The hexproof ability.
    pub fn hexproof() -> (s: StaticAbility)
        ensures
            s == StaticAbility::Hexproof,
    {
        StaticAbility::Hexproof
    }

    /// The limit on attacking creatures this ability imposes, if any.
    pub fn max_creatures_can_attack_each_combat(&self) -> (r: Option<usize>)
        ensures
            r == self.attack_limit(),
    {
        match self {
            StaticAbility::MaxCreaturesCanAttack(n) => Some(*n),
            _ => None,
        }
    }

    /// The limit on blocking creatures this ability imposes, if any.
    pub fn max_creatures_can_block_each_combat(&self) -> (r: Option<usize>)
        ensures
            r == self.block_limit(),
    {
        match self {
            StaticAbility::MaxCreaturesCanBlock(n) => Some(*n),
            _ => None,
        }
    }

    /// How many additional attackers this ability lets its creature block, if any.
    pub fn additional_blockable_attackers(&self) -> (r: Option<usize>)
        ensures
            r == self.extra_blocks(),
    {
        match self {
            StaticAbility::CanBlockAdditionalCreatures(n) => Some(*n),
            _ => None,
        }
    }
}

/// A copy of a list of abilities.
pub fn copy_statics(s: &Vec<StaticAbility>) -> (r: Vec<StaticAbility>)
    ensures
        r@ == s@,
{
    let mut out: Vec<StaticAbility> = Vec::new();
    let mut i: usize = 0;
    while i < s.len()
        invariant
            i <= s.len(),
            out@ == s@.subrange(0, i as int),
        decreases s.len() - i,
    {
        out.push(s[i].duplicate());
        i = i + 1;
    }
    assert(s@.subrange(0, s@.len() as int) == s@);
    out
}

/// Whether `s` holds an ability equal to `a`.
pub fn contains_static(s: &Vec<StaticAbility>, a: &StaticAbility) -> (found: bool)
    ensures
        found == s@.contains(*a),
{
    let mut i: usize = 0;
    while i < s.len()
        invariant
            i <= s.len(),
            forall|j: int| 0 <= j < i ==> s@[j] != *a,
        decreases s.len() - i,
    {
        if s[i] == *a {
            return true;
        }
        i = i + 1;
    }
    false
}

} // verus!
