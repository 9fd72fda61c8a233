//! Cost system for abilities and spells.
//!
//! Costs represent what must be paid to cast a spell or activate an ability.
//! A total cost is a conjunction of individual costs that must all be paid.
//!
//! The main types are:
//! - `TotalCost`: A complete cost (conjunction of Cost components)
//! - `Cost` (in the `costs` module): Individual cost components
//! - `PermanentFilter`: Filter for selecting permanents in sacrifice costs

use vstd::prelude::*;
use crate::ids::{ObjectId, PlayerId};
use crate::mana::ManaCost;
use crate::types::{CardType, Subtype};
use crate::game::GameState;
use crate::costs::{Cost, component_error, component_text};
use crate::text::{push_str, same_text, string_of};

verus! {

/// Filter for selecting permanents (used in sacrifice costs, etc.)
#[derive(Debug, Clone, PartialEq)]
pub struct PermanentFilter {
    /// Required card types (permanent must have at least one)
    pub card_types: Vec<CardType>,
    /// Required subtypes (permanent must have at least one, if non-empty)
    pub subtypes: Vec<Subtype>,
    /// If true, must be a permanent you control other than the source
    pub other: bool,
    /// If true, must be a token
    pub token: bool,
    /// If true, must be a nontoken
    pub nontoken: bool,
}

impl Default for PermanentFilter {
    /// The filter that requires nothing.
    fn default() -> (f: PermanentFilter)
        ensures
            f.card_types@.len() == 0,
            f.subtypes@.len() == 0,
            !f.other && !f.token && !f.nontoken,
    {
        PermanentFilter::any()
    }
}

impl PermanentFilter {
    /// A filter with the given card types and nothing else required.
    fn of_types(card_types: Vec<CardType>) -> (f: PermanentFilter)
        ensures
            f.card_types == card_types,
            f.subtypes@.len() == 0,
            !f.other && !f.token && !f.nontoken,
    {
        PermanentFilter { card_types, subtypes: Vec::new(), other: false, token: false, nontoken: false }
    }

    /// Create a filter for any permanent.
    pub fn any() -> (f: PermanentFilter)
        ensures
            f.card_types@.len() == 0,
            f.subtypes@.len() == 0,
            !f.other && !f.token && !f.nontoken,
    {
        PermanentFilter::of_types(Vec::new())
    }

    /// Create a filter for creatures.
    pub fn creature() -> (f: PermanentFilter)
        ensures
            f.card_types@ == seq![CardType::Creature],
            f.subtypes@.len() == 0,
            !f.other && !f.token && !f.nontoken,
    {
        PermanentFilter::of_types(vec![CardType::Creature])
    }

    /// Create a filter for artifacts.
    pub fn artifact() -> (f: PermanentFilter)
        ensures
            f.card_types@ == seq![CardType::Artifact],
            f.subtypes@.len() == 0,
            !f.other && !f.token && !f.nontoken,
    {
        PermanentFilter::of_types(vec![CardType::Artifact])
    }

    /// Create a filter for enchantments.
    pub fn enchantment() -> (f: PermanentFilter)
        ensures
            f.card_types@ == seq![CardType::Enchantment],
            f.subtypes@.len() == 0,
            !f.other && !f.token && !f.nontoken,
    {
        PermanentFilter::of_types(vec![CardType::Enchantment])
    }

    /// Create a filter for lands.
    pub fn land() -> (f: PermanentFilter)
        ensures
            f.card_types@ == seq![CardType::Land],
            f.subtypes@.len() == 0,
            !f.other && !f.token && !f.nontoken,
    {
        PermanentFilter::of_types(vec![CardType::Land])
    }

    /// Require the permanent to be "another" (not the source).
    pub fn other(self) -> (f: PermanentFilter)
        ensures
            f == (PermanentFilter { other: true, ..self }),
    {
        PermanentFilter { other: true, ..self }
    }

    /// Require the permanent to be a token.
    pub fn token(self) -> (f: PermanentFilter)
        ensures
            f == (PermanentFilter { token: true, ..self }),
    {
        PermanentFilter { token: true, ..self }
    }

    /// Require the permanent to be a nontoken.
    pub fn nontoken(self) -> (f: PermanentFilter)
        ensures
            f == (PermanentFilter { nontoken: true, ..self }),
    {
        PermanentFilter { nontoken: true, ..self }
    }

    /// Add a required card type.
    pub fn with_type(self, card_type: CardType) -> (f: PermanentFilter)
        ensures
            f.card_types@ == self.card_types@.push(card_type),
            f.subtypes == self.subtypes,
            f.other == self.other && f.token == self.token && f.nontoken == self.nontoken,
    {
        let mut f = self;
        f.card_types.push(card_type);
        f
    }

    /// Add a required subtype.
    pub fn with_subtype(self, subtype: Subtype) -> (f: PermanentFilter)
        ensures
            f.subtypes@ == self.subtypes@.push(subtype),
            f.card_types == self.card_types,
            f.other == self.other && f.token == self.token && f.nontoken == self.nontoken,
    {
        let mut f = self;
        f.subtypes.push(subtype);
        f
    }
}

/// A complete cost that must be paid (conjunction of individual costs).
#[derive(Debug, Clone, PartialEq)]
pub struct TotalCost {
    costs: Vec<Cost>,
}

impl Default for TotalCost {
    /// The cost with no components.
    fn default() -> (c: TotalCost)
        ensures
            c@.len() == 0,
    {
        TotalCost::free()
    }
}

impl View for TotalCost {
    type V = Seq<Cost>;

    /// The components, in order.
    closed spec fn view(&self) -> Seq<Cost> {
        self.costs@
    }
}

/// The component texts joined by `, `.
pub open spec fn join_texts(cs: Seq<Cost>) -> Seq<char>
    decreases cs.len(),
{
    if cs.len() == 0 {
        Seq::empty()
    } else if cs.len() == 1 {
        component_text(cs[0])
    } else {
        join_texts(cs.drop_last()) + ", "@ + component_text(cs.last())
    }
}

/// The text of a total cost: `Free` for no components.
pub open spec fn total_cost_text(cs: Seq<Cost>) -> Seq<char> {
    if cs.len() == 0 { "Free"@ } else { join_texts(cs) }
}

/// The first mana component among `cs[i..]`, if any.
pub open spec fn first_mana_from(cs: Seq<Cost>, i: int) -> Option<ManaCost>
    decreases cs.len() - i,
{
    if i < 0 || i >= cs.len() {
        None
    } else {
        match cs[i] {
            Cost::Mana(m) => Some(m),
            _ => first_mana_from(cs, i + 1),
        }
    }
}

impl TotalCost {
    /// Create an empty cost (free).
    pub fn free() -> (c: TotalCost)
        ensures
            c@.len() == 0,
    {
        TotalCost { costs: Vec::new() }
    }

    /// Create a cost from a single Cost component.
    pub fn from_cost(cost: Cost) -> (c: TotalCost)
        ensures
            c@ == seq![cost],
    {
        TotalCost { costs: vec![cost] }
    }

    /// Create a mana-only cost.
    pub fn mana(mana_cost: ManaCost) -> (c: TotalCost)
        ensures
            c@ == seq![Cost::Mana(mana_cost)],
    {
        TotalCost::from_cost(Cost::mana(mana_cost))
    }

    /// Create a cost from multiple Cost components.
    pub fn from_costs(costs: Vec<Cost>) -> (c: TotalCost)
        ensures
            c@ == costs@,
    {
        TotalCost { costs }
    }

    /// Get the individual cost components.
    pub fn costs(&self) -> (r: &[Cost])
        ensures
            r@ == self@,
    {
        self.costs.as_slice()
    }

    /// Get a human-readable display of this cost.
    pub fn display(&self) -> (t: String)
        ensures
            t@ == total_cost_text(self@),
    {
        if self.costs.len() == 0 {
            return string_of("Free");
        }
        let mut t = String::new();
        let mut i: usize = 0;
        while i < self.costs.len()
            invariant
                i <= self.costs@.len(),
                t@ == join_texts(self.costs@.subrange(0, i as int)),
            decreases self.costs.len() - i,
        {
            assert(self.costs@.subrange(0, i + 1).drop_last() == self.costs@.subrange(0, i as int));
            if i > 0 {
                push_str(&mut t, ", ");
            }
            let part = self.costs[i].display();
            push_str(&mut t, part.as_str());
            proof {
                if i == 0 {
                    assert(join_texts(self.costs@.subrange(0, 1)) == component_text(self.costs@[0]));
                }
            }
            i = i + 1;
        }
        assert(self.costs@.subrange(0, self.costs@.len() as int) == self.costs@);
        t
    }

    /// Check if this is a free cost (no components).
    pub fn is_free(&self) -> (b: bool)
        ensures
            b == (self@.len() == 0),
    {
        self.costs.len() == 0
    }

    /// Get the mana cost component, if any (the first one).
    pub fn mana_cost(&self) -> (r: Option<&ManaCost>)
        ensures
            match first_mana_from(self@, 0) {
                Some(m) => r matches Some(x) && *x == m,
                None => r is None,
            },
    {
        let mut i: usize = 0;
        while i < self.costs.len()
            invariant
                i <= self.costs@.len(),
                first_mana_from(self.costs@, 0) == first_mana_from(self.costs@, i as int),
            decreases self.costs.len() - i,
        {
            match self.costs[i].mana_cost_ref() {
                Some(m) => {
                    return Some(m);
                },
                None => {},
            }
            i = i + 1;
        }
        None
    }
}

// ============================================================================
// Optional Costs (Kicker, Buyback, Entwine, etc.)
// ============================================================================

/// An optional cost that can be paid when casting a spell.
///
/// Examples:
/// - Kicker {2}{R} (pay once for additional effect)
/// - Multikicker {1}{G} (pay any number of times)
/// - Buyback {3} (pay to return spell to hand)
/// - Entwine {2} (pay to get both modes of a modal spell)
#[derive(Debug, Clone, PartialEq)]
pub struct OptionalCost {
    /// Label shown to player (e.g., "Kicker", "Buyback", "Multikicker")
    pub label: String,
    /// The cost to pay for this optional cost
    pub cost: TotalCost,
    /// Can this be paid multiple times? (Multikicker, Replicate)
    pub repeatable: bool,
    /// If true, spell returns to hand instead of graveyard after resolution (Buyback)
    pub returns_to_hand: bool,
}

impl OptionalCost {
    /// An optional cost with a label, paid at most once.
    fn labeled(label: &str, cost: TotalCost) -> (c: OptionalCost)
        ensures
            c.label@ == label@,
            c.cost == cost,
            !c.repeatable,
            !c.returns_to_hand,
    {
        OptionalCost { label: string_of(label), cost, repeatable: false, returns_to_hand: false }
    }

    /// Create a simple kicker cost.
    pub fn kicker(cost: TotalCost) -> (c: OptionalCost)
        ensures
            c.label@ == "Kicker"@,
            c.cost == cost,
            !c.repeatable,
            !c.returns_to_hand,
    {
        OptionalCost::labeled("Kicker", cost)
    }

    /// Create a multikicker cost (can be paid any number of times).
    pub fn multikicker(cost: TotalCost) -> (c: OptionalCost)
        ensures
            c.label@ == "Multikicker"@,
            c.cost == cost,
            c.repeatable,
            !c.returns_to_hand,
    {
        OptionalCost::labeled("Multikicker", cost).repeatable()
    }

    /// Create a buyback cost (spell returns to hand).
    pub fn buyback(cost: TotalCost) -> (c: OptionalCost)
        ensures
            c.label@ == "Buyback"@,
            c.cost == cost,
            !c.repeatable,
            c.returns_to_hand,
    {
        OptionalCost::labeled("Buyback", cost).returns_to_hand()
    }

    /// Create an entwine cost (for modal spells, choose all modes).
    pub fn entwine(cost: TotalCost) -> (c: OptionalCost)
        ensures
            c.label@ == "Entwine"@,
            c.cost == cost,
            !c.repeatable,
            !c.returns_to_hand,
    {
        OptionalCost::labeled("Entwine", cost)
    }

    /// Create a custom optional cost with a specific label.
    pub fn custom(label: &str, cost: TotalCost) -> (c: OptionalCost)
        ensures
            c.label@ == label@,
            c.cost == cost,
            !c.repeatable,
            !c.returns_to_hand,
    {
        OptionalCost::labeled(label, cost)
    }

    /// Make this cost repeatable.
    pub fn repeatable(self) -> (c: OptionalCost)
        ensures
            c == (OptionalCost { repeatable: true, ..self }),
    {
        OptionalCost { repeatable: true, ..self }
    }

    /// Make this cost return the spell to hand.
    pub fn returns_to_hand(self) -> (c: OptionalCost)
        ensures
            c == (OptionalCost { returns_to_hand: true, ..self }),
    {
        OptionalCost { returns_to_hand: true, ..self }
    }
}

/// Tracks which optional costs were paid during casting.
#[derive(Debug, Clone, PartialEq, Eq)]
pub struct OptionalCostsPaid {
    /// For each optional cost: (label, times_paid)
    pub costs: Vec<(String, u32)>,
}

/// The index of the first entry labeled `label` among `cs[i..]`, if any.
pub open spec fn label_index_from(cs: Seq<(String, u32)>, label: Seq<char>, i: int) -> Option<int>
    decreases cs.len() - i,
{
    if i < 0 || i >= cs.len() {
        None
    } else if cs[i].0@ == label {
        Some(i)
    } else {
        label_index_from(cs, label, i + 1)
    }
}

impl Default for OptionalCostsPaid {
    /// No optional costs.
    fn default() -> (p: OptionalCostsPaid)
        ensures
            p.costs@.len() == 0,
    {
        OptionalCostsPaid { costs: Vec::new() }
    }
}

impl OptionalCostsPaid {
    /// Whether some entry labeled `label` was paid.
    pub open spec fn label_paid(self, label: Seq<char>) -> bool {
        exists|i: int| 0 <= i < self.costs@.len() && (#[trigger] self.costs@[i]).0@ == label && self.costs@[i].1 > 0
    }

    /// How often the first entry labeled `label` was paid (0 if none).
    pub open spec fn label_times(self, label: Seq<char>) -> u32 {
        match label_index_from(self.costs@, label, 0) {
            Some(i) => self.costs@[i].1,
            None => 0,
        }
    }

    /// How often entry `index` was paid (0 if out of range).
    pub open spec fn times(self, index: int) -> u32 {
        if 0 <= index < self.costs@.len() {
            self.costs@[index].1
        } else {
            0
        }
    }

    /// Create a new tracker with no costs paid.
    pub fn new(num_optional_costs: usize) -> (p: OptionalCostsPaid)
        ensures
            p.costs@.len() == num_optional_costs,
            forall|i: int| 0 <= i < num_optional_costs ==> (#[trigger] p.costs@[i]).0@.len() == 0 && p.costs@[i].1
                == 0,
    {
        let mut costs: Vec<(String, u32)> = Vec::new();
        let mut i: usize = 0;
        while i < num_optional_costs
            invariant
                i <= num_optional_costs,
                costs@.len() == i,
                forall|k: int| 0 <= k < i ==> (#[trigger] costs@[k]).0@.len() == 0 && costs@[k].1 == 0,
            decreases num_optional_costs - i,
        {
            costs.push((String::new(), 0));
            i = i + 1;
        }
        OptionalCostsPaid { costs }
    }

    /// Create a tracker from a list of optional costs.
    pub fn from_costs(costs: &[OptionalCost]) -> (p: OptionalCostsPaid)
        ensures
            p.costs@.len() == costs@.len(),
            forall|i: int| 0 <= i < costs@.len() ==> (#[trigger] p.costs@[i]).0@ == costs@[i].label@ && p.costs@[i].1
                == 0,
    {
        let mut out: Vec<(String, u32)> = Vec::new();
        let mut i: usize = 0;
        while i < costs.len()
            invariant
                i <= costs@.len(),
                out@.len() == i,
                forall|k: int| 0 <= k < i ==> (#[trigger] out@[k]).0@ == costs@[k].label@ && out@[k].1 == 0,
            decreases costs.len() - i,
        {
            out.push((costs[i].label.clone(), 0));
            i = i + 1;
        }
        OptionalCostsPaid { costs: out }
    }

    /// Check if any optional cost was paid.
    pub fn any_paid(&self) -> (b: bool)
        ensures
            b == exists|i: int| 0 <= i < self.costs@.len() && (#[trigger] self.costs@[i]).1 > 0,
    {
        let mut i: usize = 0;
        while i < self.costs.len()
            invariant
                i <= self.costs@.len(),
                forall|k: int| 0 <= k < i ==> (#[trigger] self.costs@[k]).1 == 0,
            decreases self.costs.len() - i,
        {
            if self.costs[i].1 > 0 {
                return true;
            }
            i = i + 1;
        }
        false
    }

    /// Check if the optional cost at the given index was paid at least once.
    pub fn was_paid(&self, index: usize) -> (b: bool)
        ensures
            b == (self.times(index as int) > 0),
    {
        index < self.costs.len() && self.costs[index].1 > 0
    }

    /// Check if the optional cost with the given label was paid.
    pub fn was_paid_label(&self, label: &str) -> (b: bool)
        ensures
            b == self.label_paid(label@),
    {
        let mut i: usize = 0;
        while i < self.costs.len()
            invariant
                i <= self.costs@.len(),
                forall|k: int| 0 <= k < i ==> !((#[trigger] self.costs@[k]).0@ == label@ && self.costs@[k].1 > 0),
            decreases self.costs.len() - i,
        {
            if self.costs[i].1 > 0 && same_text(&self.costs[i].0, label) {
                return true;
            }
            i = i + 1;
        }
        false
    }

    /// Get the number of times the optional cost at the given index was paid.
    pub fn times_paid(&self, index: usize) -> (n: u32)
        ensures
            n == self.times(index as int),
    {
        if index < self.costs.len() {
            self.costs[index].1
        } else {
            0
        }
    }

    /// The index of the first entry with the given label.
    fn label_index(&self, label: &str) -> (r: Option<usize>)
        ensures
            match r {
                Some(i) => label_index_from(self.costs@, label@, 0) == Some(i as int) && i < self.costs@.len(),
                None => label_index_from(self.costs@, label@, 0) is None,
            },
    {
        let mut i: usize = 0;
        while i < self.costs.len()
            invariant
                i <= self.costs@.len(),
                label_index_from(self.costs@, label@, 0) == label_index_from(self.costs@, label@, i as int),
            decreases self.costs.len() - i,
        {
            if same_text(&self.costs[i].0, label) {
                return Some(i);
            }
            i = i + 1;
        }
        None
    }

    /// Get the number of times the optional cost with the given label was paid.
    pub fn times_paid_label(&self, label: &str) -> (n: u32)
        ensures
            n == self.label_times(label@),
    {
        match self.label_index(label) {
            Some(i) => self.costs[i].1,
            None => 0,
        }
    }

    /// Record that an optional cost was paid once (an index out of range is ignored).
    pub fn pay(&mut self, index: usize)
        requires
            old(self).times(index as int) < u32::MAX,
        ensures
            (index as int) < old(self).costs@.len() ==> final(self).costs@ == old(self).costs@.update(
                index as int,
                (old(self).costs@[index as int].0, (old(self).costs@[index as int].1 + 1) as u32),
            ),
            (index as int) >= old(self).costs@.len() ==> *final(self) == *old(self),
            final(self).times(index as int) == if (index as int) < old(self).costs@.len() {
                old(self).times(index as int) + 1
            } else {
                0
            },
            forall|j: int| j != index ==> #[trigger] final(self).times(j) == old(self).times(j),
    {
        if index < self.costs.len() {
            self.costs[index].1 = self.costs[index].1 + 1;
        }
    }

    /// Record that an optional cost was paid N times (an index out of range is ignored).
    pub fn pay_times(&mut self, index: usize, times: u32)
        requires
            old(self).times(index as int) + times <= u32::MAX,
        ensures
            (index as int) < old(self).costs@.len() ==> final(self).costs@ == old(self).costs@.update(
                index as int,
                (old(self).costs@[index as int].0, (old(self).costs@[index as int].1 + times) as u32),
            ),
            (index as int) >= old(self).costs@.len() ==> *final(self) == *old(self),
            final(self).times(index as int) == if (index as int) < old(self).costs@.len() {
                old(self).times(index as int) + times
            } else {
                0
            },
            forall|j: int| j != index ==> #[trigger] final(self).times(j) == old(self).times(j),
    {
        if index < self.costs.len() {
            self.costs[index].1 = self.costs[index].1 + times;
        }
    }

    /// Record that the first optional cost with the given label was paid once
    /// (an unknown label is ignored).
    pub fn pay_label(&mut self, label: &str)
        requires
            old(self).label_times(label@) < u32::MAX,
        ensures
            match label_index_from(old(self).costs@, label@, 0) {
                Some(i) => final(self).costs@ == old(self).costs@.update(
                    i,
                    (old(self).costs@[i].0, (old(self).costs@[i].1 + 1) as u32),
                ),
                None => *final(self) == *old(self),
            },
    {
        match self.label_index(label) {
            Some(i) => {
                self.costs[i].1 = self.costs[i].1 + 1;
            },
            None => {},
        }
    }

    /// Check if the cost labeled "Kicker" (or "Multikicker") was paid.
    pub fn was_kicked(&self) -> (b: bool)
        ensures
            b == (self.label_paid("Kicker"@) || self.label_paid("Multikicker"@)),
    {
        self.was_paid_label("Kicker") || self.was_paid_label("Multikicker")
    }

    /// Get the total number of times the kicker was paid (for multikicker).
    pub fn kick_count(&self) -> (n: u32)
        requires
            self.label_times("Kicker"@) + self.label_times("Multikicker"@) <= u32::MAX,
        ensures
            n == self.label_times("Kicker"@) + self.label_times("Multikicker"@),
    {
        self.times_paid_label("Kicker") + self.times_paid_label("Multikicker")
    }

    /// Check if buyback was paid.
    pub fn was_bought_back(&self) -> (b: bool)
        ensures
            b == self.label_paid("Buyback"@),
    {
        self.was_paid_label("Buyback")
    }

    /// Check if entwine was paid.
    pub fn was_entwined(&self) -> (b: bool)
        ensures
            b == self.label_paid("Entwine"@),
    {
        self.was_paid_label("Entwine")
    }
}

// ============================================================================
// Cost Payment Validation
// ============================================================================

/// Error type for when a cost cannot be paid.
#[derive(Debug, Clone, PartialEq)]
pub enum CostPaymentError {
    /// The source object doesn't exist.
    SourceNotFound,
    /// The player doesn't exist.
    PlayerNotFound,
    /// Not enough mana to pay the mana cost.
    InsufficientMana,
    /// Can't tap - permanent is already tapped.
    AlreadyTapped,
    /// Can't tap - creature has summoning sickness (rule 302.6).
    SummoningSickness,
    /// Can't untap - permanent is already untapped.
    AlreadyUntapped,
    /// Not enough life to pay the life cost.
    InsufficientLife,
    /// Source not on battlefield (for sacrifice/exile self).
    SourceNotOnBattlefield,
    /// No valid permanent to sacrifice.
    NoValidSacrificeTarget,
    /// Not enough cards in hand to discard.
    InsufficientCardsInHand,
    /// Not enough counters on the source.
    InsufficientCounters,
    /// Not enough energy counters.
    InsufficientEnergy,
    /// Not enough cards in hand matching the filter for exile.
    InsufficientCardsToExile,
    /// Not enough cards in graveyard matching the filter.
    InsufficientCardsInGraveyard,
    /// No valid permanent to return to hand.
    NoValidReturnTarget,
    /// Not enough cards in hand to reveal.
    InsufficientCardsToReveal,
    /// Generic/other failure while validating or paying a cost.
    Other(String),
}

/// The first error among components `cs[i..]`, if any.
pub open spec fn first_component_error_from(
    game: GameState,
    source: ObjectId,
    payer: PlayerId,
    cs: Seq<Cost>,
    i: int,
) -> Option<CostPaymentError>
    decreases cs.len() - i,
{
    if i < 0 || i >= cs.len() {
        None
    } else {
        match component_error(game, source, payer, cs[i]) {
            Some(e) => Some(e),
            None => first_component_error_from(game, source, payer, cs, i + 1),
        }
    }
}

/// Check if a player can pay an activated ability's or spell's cost.
///
/// This checks all cost components against the current game state, in
/// order, and reports the first that cannot be paid.
/// The `source_id` is the permanent or spell whose cost is being paid.
pub fn can_pay_cost(game: &GameState, source_id: ObjectId, player: PlayerId, cost: &TotalCost) -> (r: Result<
    (),
    CostPaymentError,
>)
    ensures
        r == match first_component_error_from(*game, source_id, player, cost@, 0) {
            Some(e) => Err::<(), CostPaymentError>(e),
            None => Ok(()),
        },
{
    let components = cost.costs();
    let mut i: usize = 0;
    while i < components.len()
        invariant
            components@ == cost@,
            i <= components@.len(),
            first_component_error_from(*game, source_id, player, cost@, 0) == first_component_error_from(
                *game,
                source_id,
                player,
                cost@,
                i as int,
            ),
        decreases components.len() - i,
    {
        match components[i].can_pay_for(game, source_id, player) {
            Err(e) => {
                return Err(e);
            },
            Ok(()) => {},
        }
        i = i + 1;
    }
    Ok(())
}

/// A total cost is a conjunction: it can be paid exactly when every one of
/// its components can.
pub proof fn law_total_cost_is_conjunction(game: GameState, source: ObjectId, payer: PlayerId, cs: Seq<Cost>, i: int)
    requires
        0 <= i,
    ensures
        first_component_error_from(game, source, payer, cs, i) is None <==> forall|j: int|
            i <= j < cs.len() ==> (#[trigger] component_error(game, source, payer, cs[j])) is None,
    decreases cs.len() - i,
{
    if i < cs.len() {
        law_total_cost_is_conjunction(game, source, payer, cs, i + 1);
    }
}

} // verus!
