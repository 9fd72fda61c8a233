//! Abilities and effects of card definitions, as data.

use vstd::prelude::*;
use crate::types::{CardType, Color, Subtype, Zone};
use crate::mana::ManaSymbol;
use crate::statics::{Keyword, StaticAbility};
use crate::game::CounterType;
use crate::cost::{PermanentFilter, TotalCost};
use crate::text::string_of;

verus! {

/// Which players an effect or trigger refers to.
#[derive(Debug, Clone, Copy, PartialEq, Eq, Structural)]
pub enum PlayerFilter {
    /// The controller.
    You,
    /// Each player.
    Any,
    /// An opponent.
    Opponent,
    /// The player being iterated over by an enclosing "for each player".
    IteratedPlayer,
}

/// A number an effect uses.
#[derive(Debug, Clone, Copy, PartialEq, Eq, Structural)]
pub enum Value {
    /// A fixed number.
    Fixed(u32),
    /// The number of times the spell was kicked.
    KickCount,
    /// The number of counters of a kind on the source.
    CountersOnSource(CounterType),
    /// The greatest mana value among permanents you control.
    GreatestManaValueAmongPermanentsYouControl,
}

/// Which cards an effect may find or choose.
#[derive(Debug, Clone, PartialEq)]
pub struct CardFilter {
    /// The card must have one of these types (any card if empty).
    pub card_types: Vec<CardType>,
    /// The card must have none of these types.
    pub excluded_card_types: Vec<CardType>,
    /// The card must be a permanent card.
    pub permanent: bool,
    /// The card's mana value must be at most this.
    pub max_mana_value: Option<u32>,
}

impl CardFilter {
    /// Any card.
    pub fn any() -> (f: CardFilter)
        ensures
            f.card_types@.len() == 0,
            f.excluded_card_types@.len() == 0,
            !f.permanent,
            f.max_mana_value is None,
    {
        CardFilter { card_types: Vec::new(), excluded_card_types: Vec::new(), permanent: false, max_mana_value: None }
    }

    /// A card with one of the given types.
    pub fn of_types(card_types: Vec<CardType>) -> (f: CardFilter)
        ensures
            f.card_types == card_types,
            f.excluded_card_types@.len() == 0,
            !f.permanent,
            f.max_mana_value is None,
    {
        CardFilter { card_types, excluded_card_types: Vec::new(), permanent: false, max_mana_value: None }
    }
}

/// Where a library search puts the card it finds (the library is shuffled either way).
#[derive(Debug, Clone, Copy, PartialEq, Eq, Structural)]
pub enum SearchDestination {
    Hand,
    Graveyard,
    /// On top of the library, after the shuffle.
    TopOfLibrary,
}

/// Exiling a card from hand that the source remembers (imprint).
#[derive(Debug, Clone, PartialEq)]
pub struct ImprintFromHandEffect {
    /// Which cards may be exiled.
    pub filter: CardFilter,
    /// Whether the player may decline.
    pub optional: bool,
}

impl ImprintFromHandEffect {
    /// "You may exile a nonartifact, nonland card from your hand."
    pub fn nonartifact_nonland() -> (e: ImprintFromHandEffect)
        ensures
            e.filter.card_types@.len() == 0,
            e.filter.excluded_card_types@ == seq![CardType::Artifact, CardType::Land],
            !e.filter.permanent,
            e.filter.max_mana_value is None,
            e.optional,
    {
        ImprintFromHandEffect {
            filter: CardFilter {
                card_types: Vec::new(),
                excluded_card_types: vec![CardType::Artifact, CardType::Land],
                permanent: false,
                max_mana_value: None,
            },
            optional: true,
        }
    }
}

/// One step of what a spell or ability does.
#[derive(Debug, Clone, PartialEq)]
pub enum Effect {
    /// Search your library for up to `max_count` cards matching `filter`,
    /// put them at `destination` (revealing them if `reveal`), then shuffle.
    SearchLibrary { filter: CardFilter, max_count: u32, destination: SearchDestination, reveal: bool },
    /// You lose this much life.
    LoseLife(u32),
    /// Draw this many cards.
    Draw(u32),
    /// Scry this many.
    Scry(Value),
    /// Mill this many cards.
    Mill(u32),
    /// The target permanent gains the keywords until end of turn.
    GrantToTargetUntilEndOfTurn(Vec<Keyword>),
    /// If the target is an artifact creature, it gets +power/+toughness until end of turn.
    PumpTargetIfArtifactCreature { power: i32, toughness: i32 },
    /// Put counters on the source.
    PutCountersOnSource { counter: CounterType, amount: Value },
    /// Put a counter on up to one target creature.
    PutCounterOnUpToOneTargetCreature(CounterType),
    /// Proliferate.
    Proliferate,
    /// Each player creates this many Treasure tokens.
    EachPlayerCreatesTreasures(Value),
    /// The source deals this much damage to each player.
    DamageEachPlayer(Value),
    /// Sacrifice the source.
    SacrificeSource,
    /// Add one mana of any color (of the available colors, if restricted).
    AddManaOfAnyColor { available_colors: Option<Vec<Color>> },
    /// Add one mana of any of the imprinted card's colors.
    AddManaOfImprintedColor,
    /// Add this much colorless mana.
    AddColorlessMana(Value),
    /// Exile a card from hand and remember it.
    ImprintFromHand(ImprintFromHandEffect),
    /// Return a card matching the filter from your graveyard to the battlefield.
    ReturnFromGraveyardToBattlefield(CardFilter),
    /// Gain control of target opponent during that player's next turn.
    ControlOpponentNextTurn,
    /// That player takes an extra turn after it.
    ExtraTurnForThatPlayer,
}

/// A cost paid by doing something rather than by mana.
#[derive(Debug, Clone, PartialEq)]
pub enum CostEffect {
    /// {T}.
    Tap,
    /// Pay this much life.
    PayLife(u32),
    /// Sacrifice the source.
    SacrificeSource,
    /// Sacrifice another permanent matching the filter.
    SacrificeAnother(PermanentFilter),
    /// Discard this many cards.
    Discard(u32),
    /// Remove this many counters from among creatures you control.
    RemoveCountersFromCreaturesYouControl(u32),
}

/// An event that triggers an ability.
#[derive(Debug, Clone, Copy, PartialEq, Eq, Structural)]
pub enum Trigger {
    /// This permanent enters the battlefield.
    ThisEntersBattlefield,
    /// This spell is cast.
    ThisIsCast,
    /// The beginning of an upkeep.
    BeginningOfUpkeep(PlayerFilter),
    /// The beginning of an end step.
    BeginningOfEndStep(PlayerFilter),
}

/// The text of a trigger condition.
pub open spec fn trigger_text(t: Trigger) -> Seq<char> {
    match t {
        Trigger::ThisEntersBattlefield => "When this permanent enters the battlefield"@,
        Trigger::ThisIsCast => "When you cast this spell"@,
        Trigger::BeginningOfUpkeep(PlayerFilter::You) => "At the beginning of your upkeep"@,
        Trigger::BeginningOfUpkeep(_) => "At the beginning of each upkeep"@,
        Trigger::BeginningOfEndStep(PlayerFilter::You) => "At the beginning of your end step"@,
        Trigger::BeginningOfEndStep(_) => "At the beginning of each end step"@,
    }
}

impl Trigger {
    /// The text of the trigger condition.
    pub fn display(&self) -> (t: String)
        ensures
            t@ == trigger_text(*self),
    {
        match self {
            Trigger::ThisEntersBattlefield => string_of("When this permanent enters the battlefield"),
            Trigger::ThisIsCast => string_of("When you cast this spell"),
            Trigger::BeginningOfUpkeep(PlayerFilter::You) => string_of("At the beginning of your upkeep"),
            Trigger::BeginningOfUpkeep(_) => string_of("At the beginning of each upkeep"),
            Trigger::BeginningOfEndStep(PlayerFilter::You) => string_of("At the beginning of your end step"),
            Trigger::BeginningOfEndStep(_) => string_of("At the beginning of each end step"),
        }
    }
}

/// A triggered ability.
#[derive(Debug, Clone, PartialEq)]
pub struct TriggeredAbility {
    pub trigger: Trigger,
    pub effects: Vec<Effect>,
}

/// An activated ability: costs, then effects.
#[derive(Debug, Clone, PartialEq)]
pub struct ActivatedAbility {
    /// The mana part of the cost.
    pub mana_cost: TotalCost,
    /// The other parts of the cost.
    pub cost_effects: Vec<CostEffect>,
    /// What it does.
    pub effects: Vec<Effect>,
    /// Whether it is a mana ability.
    pub mana_ability: bool,
}

/// Whether {T} is among the costs.
pub open spec fn taps(costs: Seq<CostEffect>) -> bool {
    costs.contains(CostEffect::Tap)
}

/// Whether {T} is among the costs.
fn has_tap(costs: &Vec<CostEffect>) -> (b: bool)
    ensures
        b == taps(costs@),
{
    let mut i: usize = 0;
    while i < costs.len()
        invariant
            i <= costs@.len(),
            forall|k: int| 0 <= k < i ==> costs@[k] != CostEffect::Tap,
        decreases costs.len() - i,
    {
        if let CostEffect::Tap = &costs[i] {
            proof {
                assert(costs@[i as int] == CostEffect::Tap);
            }
            return true;
        }
        i = i + 1;
    }
    false
}

/// The life paid by the first life payment among the costs, if any.
pub open spec fn first_life_payment(costs: Seq<CostEffect>, i: int) -> Option<u32>
    decreases costs.len() - i,
{
    if i < 0 || i >= costs.len() {
        None
    } else {
        match costs[i] {
            CostEffect::PayLife(n) => Some(n),
            _ => first_life_payment(costs, i + 1),
        }
    }
}

impl ActivatedAbility {
    /// The life paid as part of the cost, if any (the first life payment).
    pub fn life_cost_amount(&self) -> (r: Option<u32>)
        ensures
            r == first_life_payment(self.cost_effects@, 0),
    {
        let mut i: usize = 0;
        while i < self.cost_effects.len()
            invariant
                i <= self.cost_effects@.len(),
                first_life_payment(self.cost_effects@, 0) == first_life_payment(self.cost_effects@, i as int),
            decreases self.cost_effects.len() - i,
        {
            if let CostEffect::PayLife(n) = &self.cost_effects[i] {
                return Some(*n);
            }
            i = i + 1;
        }
        None
    }

    /// Whether this is a mana ability.
    pub fn is_mana_ability(&self) -> (b: bool)
        ensures
            b == self.mana_ability,
    {
        self.mana_ability
    }

    /// Whether {T} is part of the cost.
    pub fn has_tap_cost(&self) -> (b: bool)
        ensures
            b == taps(self.cost_effects@),
    {
        has_tap(&self.cost_effects)
    }
}

/// A mana ability: costs, then fixed mana or effects that add mana.
#[derive(Debug, Clone, PartialEq)]
pub struct ManaAbility {
    /// The mana part of the cost.
    pub mana_cost: TotalCost,
    /// The other parts of the cost.
    pub cost_effects: Vec<CostEffect>,
    /// The mana added, when it is fixed.
    pub mana: Vec<ManaSymbol>,
    /// The effects that add mana, when it is not fixed.
    pub effects: Option<Vec<Effect>>,
}

impl ManaAbility {
    /// Whether {T} is part of the cost.
    pub fn has_tap_cost(&self) -> (b: bool)
        ensures
            b == taps(self.cost_effects@),
    {
        has_tap(&self.cost_effects)
    }
}

/// The kinds of abilities.
#[derive(Debug, Clone, PartialEq)]
pub enum AbilityKind {
    Static(StaticAbility),
    Triggered(TriggeredAbility),
    Activated(ActivatedAbility),
    Mana(ManaAbility),
}

/// An ability of a card, the zones where it works, and its text.
#[derive(Debug, Clone, PartialEq)]
pub struct Ability {
    pub kind: AbilityKind,
    pub functional_zones: Vec<Zone>,
    pub text: Option<String>,
}

/// Whether the ability is a mana ability.
pub open spec fn is_mana(a: Ability) -> bool {
    match a.kind {
        AbilityKind::Mana(_) => true,
        AbilityKind::Activated(x) => x.mana_ability,
        _ => false,
    }
}

impl Ability {
    /// An ability that works in the given zones.
    pub fn new(kind: AbilityKind, functional_zones: Vec<Zone>, text: &str) -> (a: Ability)
        ensures
            a.kind == kind,
            a.functional_zones == functional_zones,
            a.text matches Some(t) && t@ == text@,
    {
        Ability { kind, functional_zones, text: Some(string_of(text)) }
    }

    /// An ability that works on the battlefield.
    pub fn on_battlefield(kind: AbilityKind, text: &str) -> (a: Ability)
        ensures
            a.kind == kind,
            a.functional_zones@ == seq![Zone::Battlefield],
            a.text matches Some(t) && t@ == text@,
    {
        Ability { kind, functional_zones: vec![Zone::Battlefield], text: Some(string_of(text)) }
    }

    /// Whether this is a mana ability.
    pub fn is_mana_ability(&self) -> (b: bool)
        ensures
            b == is_mana(*self),
    {
        match &self.kind {
            AbilityKind::Mana(_) => true,
            AbilityKind::Activated(x) => x.mana_ability,
            _ => false,
        }
    }
}

/// Something an ability can grant to cards.
#[derive(Debug, Clone, Copy, PartialEq, Eq, Structural)]
pub enum Grantable {
    /// A way to cast the card.
    AlternativeCast(AlternativeCastingMethod),
}

/// What is granted, and to which cards.
#[derive(Debug, Clone, PartialEq)]
pub struct GrantSpec {
    pub grantable: Grantable,
    pub filter: CardFilter,
}

/// An alternative way to cast a card.
#[derive(Debug, Clone, Copy, PartialEq, Eq, Structural)]
pub enum AlternativeCastingMethod {
    /// Escape: the mana cost plus exiling this many other cards from the graveyard.
    Escape { exile_count: u32 },
}

} // verus!
