//! Decision context structs for the DecisionMaker trait methods.
//!
//! Each context struct contains all information needed by a DecisionMaker
//! to render and process a specific type of decision.

use vstd::prelude::*;
use crate::ids::{ObjectId, PlayerId};
use crate::types::{Color, Zone};
use crate::mana::ManaSymbol;
use crate::combat_state::AttackTarget;
use crate::game::{CounterType, Target};
use crate::decision::LegalAction;
use crate::decisions::specs::options::ModesSpec;
use crate::text::{decimal, push_decimal, push_str, string_of};

verus! {

// ============================================================================
// Boolean Context
// ============================================================================

/// Context for boolean (yes/no) decisions.
///
/// Used for: may effects, ward payment, miracle trigger, madness trigger,
/// assign damage as unblocked, etc.
#[derive(Debug, Clone)]
pub struct BooleanContext {
    /// The player making the decision.
    pub player: PlayerId,
    /// The source of the effect (optional).
    pub source: Option<ObjectId>,
    /// Description of what the player may do.
    pub description: String,
    /// Name of the source card (for display).
    pub source_name: Option<String>,
}

impl BooleanContext {
    /// Create a new BooleanContext.
    pub fn new(player: PlayerId, source: Option<ObjectId>, description: &str) -> (c: BooleanContext)
        ensures
            c.player == player,
            c.source == source,
            c.description@ == description@,
            c.source_name is None,
    {
        BooleanContext { player, source, description: string_of(description), source_name: None }
    }

    /// Set the source name for display.
    pub fn with_source_name(self, name: &str) -> (c: BooleanContext)
        ensures
            c.player == self.player,
            c.source == self.source,
            c.description == self.description,
            c.source_name matches Some(n) && n@ == name@,
    {
        BooleanContext { source_name: Some(string_of(name)), ..self }
    }
}

// ============================================================================
// Number Context
// ============================================================================

/// Context for number selection decisions.
///
/// Used for: X value, "choose a number", "up to N" effects, etc.
#[derive(Debug, Clone)]
pub struct NumberContext {
    /// The player making the decision.
    pub player: PlayerId,
    /// The source of the effect.
    pub source: Option<ObjectId>,
    /// Description of what the number represents.
    pub description: String,
    /// Minimum value (inclusive).
    pub min: u32,
    /// Maximum value (inclusive).
    pub max: u32,
    /// Whether this is an X value decision (affects response type).
    pub is_x_value: bool,
}

impl NumberContext {
    /// Create a new NumberContext.
    pub fn new(player: PlayerId, source: Option<ObjectId>, min: u32, max: u32, description: &str) -> (c:
        NumberContext)
        ensures
            c.player == player,
            c.source == source,
            c.min == min,
            c.max == max,
            c.description@ == description@,
            !c.is_x_value,
    {
        NumberContext { player, source, min, max, description: string_of(description), is_x_value: false }
    }

    /// Create a NumberContext for an X value decision.
    pub fn x_value(player: PlayerId, source: ObjectId, max: u32) -> (c: NumberContext)
        ensures
            c.player == player,
            c.source == Some(source),
            c.min == 0,
            c.max == max,
            c.description@ == "Choose value for X"@,
            c.is_x_value,
    {
        NumberContext {
            player,
            source: Some(source),
            min: 0,
            max,
            description: string_of("Choose value for X"),
            is_x_value: true,
        }
    }
}

// ============================================================================
// View Cards Context
// ============================================================================

/// Context for viewing cards in a private zone.
///
/// Used for effects like "Look at target player's hand."
#[derive(Debug, Clone)]
pub struct ViewCardsContext {
    /// The player who is viewing the cards.
    pub viewer: PlayerId,
    /// The player whose cards are being viewed.
    pub subject: PlayerId,
    /// The source of the effect (optional).
    pub source: Option<ObjectId>,
    /// The zone being viewed.
    pub zone: Zone,
    /// Description of why the cards are being viewed.
    pub description: String,
}

impl ViewCardsContext {
    /// Create a new ViewCardsContext.
    pub fn new(viewer: PlayerId, subject: PlayerId, source: Option<ObjectId>, zone: Zone, description: &str) -> (c:
        ViewCardsContext)
        ensures
            c.viewer == viewer,
            c.subject == subject,
            c.source == source,
            c.zone == zone,
            c.description@ == description@,
    {
        ViewCardsContext { viewer, subject, source, zone, description: string_of(description) }
    }

    /// Convenience for "look at target player's hand".
    pub fn look_at_hand(viewer: PlayerId, subject: PlayerId, source: Option<ObjectId>) -> (c: ViewCardsContext)
        ensures
            c.viewer == viewer,
            c.subject == subject,
            c.source == source,
            c.zone == Zone::Hand,
            c.description@ == "Look at target player's hand"@,
    {
        ViewCardsContext::new(viewer, subject, source, Zone::Hand, "Look at target player's hand")
    }
}

// ============================================================================
// Select Objects Context
// ============================================================================

/// An object that can be selected.
#[derive(Debug, Clone)]
pub struct SelectableObject {
    /// The object ID.
    pub id: ObjectId,
    /// Display name for this object.
    pub name: String,
    /// Whether this object is currently legal to select.
    pub legal: bool,
}

impl SelectableObject {
    /// Create a new legal selectable object.
    pub fn new(id: ObjectId, name: &str) -> (o: SelectableObject)
        ensures
            o.id == id,
            o.name@ == name@,
            o.legal,
    {
        SelectableObject { id, name: string_of(name), legal: true }
    }

    /// Create a selectable object with explicit legality.
    pub fn with_legality(id: ObjectId, name: &str, legal: bool) -> (o: SelectableObject)
        ensures
            o.id == id,
            o.name@ == name@,
            o.legal == legal,
    {
        SelectableObject { id, name: string_of(name), legal }
    }
}

/// Context for object selection decisions.
///
/// Used for: sacrifice, discard, search library, exile, choose legend, etc.
#[derive(Debug, Clone)]
pub struct SelectObjectsContext {
    /// The player making the decision.
    pub player: PlayerId,
    /// The source of the effect.
    pub source: Option<ObjectId>,
    /// Description of what kind of objects to select.
    pub description: String,
    /// Objects that can be selected.
    pub candidates: Vec<SelectableObject>,
    /// Minimum objects to select (0 for optional).
    pub min: usize,
    /// Maximum objects to select (None = unlimited).
    pub max: Option<usize>,
}

impl SelectObjectsContext {
    /// Create a new SelectObjectsContext.
    pub fn new(
        player: PlayerId,
        source: Option<ObjectId>,
        description: &str,
        candidates: Vec<SelectableObject>,
        min: usize,
        max: Option<usize>,
    ) -> (c: SelectObjectsContext)
        ensures
            c.player == player,
            c.source == source,
            c.description@ == description@,
            c.candidates == candidates,
            c.min == min,
            c.max == max,
    {
        SelectObjectsContext { player, source, description: string_of(description), candidates, min, max }
    }
}

// ============================================================================
// Select Options Context
// ============================================================================

/// An option that can be selected.
#[derive(Debug, Clone)]
pub struct SelectableOption {
    /// Index of this option.
    pub index: usize,
    /// Description of this option.
    pub description: String,
    /// Whether this option is currently legal to select.
    pub legal: bool,
}

impl SelectableOption {
    /// Create a new legal selectable option.
    pub fn new(index: usize, description: &str) -> (o: SelectableOption)
        ensures
            o.index == index,
            o.description@ == description@,
            o.legal,
    {
        SelectableOption { index, description: string_of(description), legal: true }
    }

    /// Create a selectable option with explicit legality.
    pub fn with_legality(index: usize, description: &str, legal: bool) -> (o: SelectableOption)
        ensures
            o.index == index,
            o.description@ == description@,
            o.legal == legal,
    {
        SelectableOption { index, description: string_of(description), legal }
    }
}

/// Context for option selection decisions.
///
/// Used for: modes, choices, priority actions, mana payment, replacement effects, etc.
#[derive(Debug, Clone)]
pub struct SelectOptionsContext {
    /// The player making the decision.
    pub player: PlayerId,
    /// The source of the effect.
    pub source: Option<ObjectId>,
    /// Description of the choice being made.
    pub description: String,
    /// Options to choose from.
    pub options: Vec<SelectableOption>,
    /// Minimum options to select.
    pub min: usize,
    /// Maximum options to select.
    pub max: usize,
}

impl SelectOptionsContext {
    /// Create a new SelectOptionsContext.
    pub fn new(
        player: PlayerId,
        source: Option<ObjectId>,
        description: &str,
        options: Vec<SelectableOption>,
        min: usize,
        max: usize,
    ) -> (c: SelectOptionsContext)
        ensures
            c.player == player,
            c.source == source,
            c.description@ == description@,
            c.options == options,
            c.min == min,
            c.max == max,
    {
        SelectOptionsContext { player, source, description: string_of(description), options, min, max }
    }

    /// Create a mana payment context.
    /// The description includes "mana" to trigger ManaPayment response type.
    pub fn mana_payment(player: PlayerId, source: ObjectId, spell_name: &str, options: Vec<SelectableOption>) -> (c:
        SelectOptionsContext)
        ensures
            c.player == player,
            c.source == Some(source),
            c.description@ == "Pay mana for "@ + spell_name@,
            c.options == options,
            c.min == 1,
            c.max == 1,
    {
        let mut description = string_of("Pay mana for ");
        push_str(&mut description, spell_name);
        SelectOptionsContext { player, source: Some(source), description, options, min: 1, max: 1 }
    }

    /// Create a mana pip payment context.
    /// The description includes "mana pip" to trigger ManaPipPayment response type.
    pub fn mana_pip_payment(
        player: PlayerId,
        source: ObjectId,
        spell_name: &str,
        pip_description: &str,
        remaining_pips: usize,
        options: Vec<SelectableOption>,
    ) -> (c: SelectOptionsContext)
        ensures
            c.player == player,
            c.source == Some(source),
            c.description@ == "Pay mana pip "@ + pip_description@ + " for "@ + spell_name@ + " ("@ + decimal(
                remaining_pips as nat,
            ) + " remaining)"@,
            c.options == options,
            c.min == 1,
            c.max == 1,
    {
        let mut description = string_of("Pay mana pip ");
        push_str(&mut description, pip_description);
        push_str(&mut description, " for ");
        push_str(&mut description, spell_name);
        push_str(&mut description, " (");
        push_decimal(&mut description, remaining_pips as u64);
        push_str(&mut description, " remaining)");
        SelectOptionsContext { player, source: Some(source), description, options, min: 1, max: 1 }
    }
}

// ============================================================================
// Modes Context
// ============================================================================

/// Context for modal spell mode selection (per MTG rule 601.2b).
///
/// Used during spell casting to select modes before targets are chosen.
#[derive(Debug, Clone)]
pub struct ModesContext {
    /// The player making the decision.
    pub player: PlayerId,
    /// The source spell on the stack.
    pub source: Option<ObjectId>,
    /// Name of the spell being cast.
    pub spell_name: String,
    /// The modes specification with options, min/max counts.
    pub spec: ModesSpec,
}

impl ModesContext {
    /// Create a new ModesContext.
    pub fn new(player: PlayerId, source: Option<ObjectId>, spell_name: &str, spec: ModesSpec) -> (c: ModesContext)
        ensures
            c.player == player,
            c.source == source,
            c.spell_name@ == spell_name@,
            c.spec == spec,
    {
        ModesContext { player, source, spell_name: string_of(spell_name), spec }
    }
}

// ============================================================================
// Hybrid Choice Context
// ============================================================================

/// An option for paying a hybrid/Phyrexian mana pip.
#[derive(Debug, Clone)]
pub struct HybridOption {
    /// The index of this option.
    pub index: usize,
    /// Display label for this option (e.g., "{W} (White mana)").
    pub label: String,
    /// The mana symbol this option represents.
    pub symbol: ManaSymbol,
}

/// Context for choosing how to pay a hybrid or Phyrexian pip.
#[derive(Debug, Clone)]
pub struct HybridChoiceContext {
    /// The player making the decision.
    pub player: PlayerId,
    /// The spell being paid for.
    pub source: Option<ObjectId>,
    /// Name of the spell.
    pub spell_name: String,
    /// Which pip is being paid (1-based).
    pub pip_number: usize,
    /// The ways to pay it.
    pub options: Vec<HybridOption>,
}

impl HybridChoiceContext {
    /// Create a new HybridChoiceContext.
    pub fn new(
        player: PlayerId,
        source: Option<ObjectId>,
        spell_name: &str,
        pip_number: usize,
        options: Vec<HybridOption>,
    ) -> (c: HybridChoiceContext)
        ensures
            c.player == player,
            c.source == source,
            c.spell_name@ == spell_name@,
            c.pip_number == pip_number,
            c.options == options,
    {
        HybridChoiceContext { player, source, spell_name: string_of(spell_name), pip_number, options }
    }
}

// ============================================================================
// Order Context
// ============================================================================

/// Context for putting items in an order.
#[derive(Debug, Clone)]
pub struct OrderContext {
    /// The player making the decision.
    pub player: PlayerId,
    /// The source of the effect.
    pub source: Option<ObjectId>,
    /// Description of what is being ordered.
    pub description: String,
    /// The items, with display names.
    pub items: Vec<(ObjectId, String)>,
}

impl OrderContext {
    /// Create a new OrderContext.
    pub fn new(player: PlayerId, source: Option<ObjectId>, description: &str, items: Vec<(ObjectId, String)>) -> (c:
        OrderContext)
        ensures
            c.player == player,
            c.source == source,
            c.description@ == description@,
            c.items == items,
    {
        OrderContext { player, source, description: string_of(description), items }
    }
}

// ============================================================================
// Attackers Context
// ============================================================================

/// One creature that may attack.
#[derive(Debug, Clone)]
pub struct AttackerOptionContext {
    /// The creature.
    pub creature: ObjectId,
    /// Its name.
    pub creature_name: String,
    /// What it may attack.
    pub valid_targets: Vec<AttackTarget>,
    /// Whether it must attack if able.
    pub must_attack: bool,
}

/// Context for declaring attackers.
#[derive(Debug, Clone)]
pub struct AttackersContext {
    /// The attacking player.
    pub player: PlayerId,
    /// The creatures that may attack.
    pub attacker_options: Vec<AttackerOptionContext>,
}

impl AttackersContext {
    /// Create a new AttackersContext.
    pub fn new(player: PlayerId, attacker_options: Vec<AttackerOptionContext>) -> (c: AttackersContext)
        ensures
            c.player == player,
            c.attacker_options == attacker_options,
    {
        AttackersContext { player, attacker_options }
    }
}

// ============================================================================
// Blockers Context
// ============================================================================

/// One attacker and the creatures that may block it.
#[derive(Debug, Clone)]
pub struct BlockerOptionContext {
    /// The attacker.
    pub attacker: ObjectId,
    /// Its name.
    pub attacker_name: String,
    /// The creatures that may block it, with names.
    pub valid_blockers: Vec<(ObjectId, String)>,
    /// Fewest blockers it may have if blocked.
    pub min_blockers: usize,
}

/// Context for declaring blockers.
#[derive(Debug, Clone)]
pub struct BlockersContext {
    /// The defending player.
    pub player: PlayerId,
    /// One entry per attacker.
    pub blocker_options: Vec<BlockerOptionContext>,
}

impl BlockersContext {
    /// Create a new BlockersContext.
    pub fn new(player: PlayerId, blocker_options: Vec<BlockerOptionContext>) -> (c: BlockersContext)
        ensures
            c.player == player,
            c.blocker_options == blocker_options,
    {
        BlockersContext { player, blocker_options }
    }
}

// ============================================================================
// Distribute Context
// ============================================================================

/// A target among which an amount is distributed.
#[derive(Debug, Clone)]
pub struct DistributeTarget {
    /// The target.
    pub target: Target,
    /// Its display name.
    pub name: String,
}

/// Context for distributing an amount (damage, counters) among targets.
#[derive(Debug, Clone)]
pub struct DistributeContext {
    /// The player making the decision.
    pub player: PlayerId,
    /// The source of the effect.
    pub source: Option<ObjectId>,
    /// What is being distributed.
    pub description: String,
    /// The total to distribute.
    pub total: u32,
    /// The targets.
    pub targets: Vec<DistributeTarget>,
    /// The least each target must get.
    pub min_per_target: u32,
}

impl DistributeContext {
    /// Create a new DistributeContext.
    pub fn new(
        player: PlayerId,
        source: Option<ObjectId>,
        description: &str,
        total: u32,
        targets: Vec<DistributeTarget>,
        min_per_target: u32,
    ) -> (c: DistributeContext)
        ensures
            c.player == player,
            c.source == source,
            c.description@ == description@,
            c.total == total,
            c.targets == targets,
            c.min_per_target == min_per_target,
    {
        DistributeContext { player, source, description: string_of(description), total, targets, min_per_target }
    }
}

// ============================================================================
// Colors Context
// ============================================================================

/// Context for choosing mana colors.
#[derive(Debug, Clone)]
pub struct ColorsContext {
    /// The player making the decision.
    pub player: PlayerId,
    /// The source of the mana.
    pub source: Option<ObjectId>,
    /// Description of the choice.
    pub description: String,
    /// How many colors (mana) to choose.
    pub count: u32,
    /// Whether all the mana must be of one color.
    pub same_color: bool,
    /// The colors allowed, if restricted.
    pub available_colors: Option<Vec<Color>>,
}

/// The description of a color choice.
pub open spec fn colors_description(count: u32, same_color: bool) -> Seq<char> {
    if same_color {
        "Choose a color for "@ + decimal(count as nat) + " mana"@
    } else {
        "Choose "@ + decimal(count as nat) + " mana color(s)"@
    }
}

/// The description of a color choice.
fn colors_description_text(count: u32, same_color: bool) -> (t: String)
    ensures
        t@ == colors_description(count, same_color),
{
    if same_color {
        let mut t = string_of("Choose a color for ");
        push_decimal(&mut t, count as u64);
        push_str(&mut t, " mana");
        t
    } else {
        let mut t = string_of("Choose ");
        push_decimal(&mut t, count as u64);
        push_str(&mut t, " mana color(s)");
        t
    }
}

impl ColorsContext {
    /// Choose among all five colors.
    pub fn any_color(player: PlayerId, source: Option<ObjectId>, count: u32, same_color: bool) -> (c: ColorsContext)
        ensures
            c.player == player,
            c.source == source,
            c.description@ == colors_description(count, same_color),
            c.count == count,
            c.same_color == same_color,
            c.available_colors is None,
    {
        ColorsContext {
            player,
            source,
            description: colors_description_text(count, same_color),
            count,
            same_color,
            available_colors: None,
        }
    }

    /// Choose among the given colors.
    pub fn restricted(
        player: PlayerId,
        source: Option<ObjectId>,
        count: u32,
        same_color: bool,
        available_colors: Vec<Color>,
    ) -> (c: ColorsContext)
        ensures
            c.player == player,
            c.source == source,
            c.description@ == colors_description(count, same_color),
            c.count == count,
            c.same_color == same_color,
            c.available_colors == Some(available_colors),
    {
        ColorsContext {
            player,
            source,
            description: colors_description_text(count, same_color),
            count,
            same_color,
            available_colors: Some(available_colors),
        }
    }
}

// ============================================================================
// Counters Context
// ============================================================================

/// Context for choosing counters to remove or move.
#[derive(Debug, Clone)]
pub struct CountersContext {
    /// The player making the decision.
    pub player: PlayerId,
    /// The source of the effect.
    pub source: Option<ObjectId>,
    /// The object holding the counters.
    pub target: ObjectId,
    /// Its display name.
    pub target_name: String,
    /// The most counters that may be chosen in all.
    pub max_total: u32,
    /// The counters on it, by kind and number.
    pub available_counters: Vec<(CounterType, u32)>,
}

impl CountersContext {
    /// Create a new CountersContext.
    pub fn new(
        player: PlayerId,
        source: Option<ObjectId>,
        target: ObjectId,
        target_name: &str,
        max_total: u32,
        available_counters: Vec<(CounterType, u32)>,
    ) -> (c: CountersContext)
        ensures
            c.player == player,
            c.source == source,
            c.target == target,
            c.target_name@ == target_name@,
            c.max_total == max_total,
            c.available_counters == available_counters,
    {
        CountersContext { player, source, target, target_name: string_of(target_name), max_total, available_counters }
    }
}

// ============================================================================
// Partition Context
// ============================================================================

/// Context for splitting cards into two groups (scry, surveil).
#[derive(Debug, Clone)]
pub struct PartitionContext {
    /// The player making the decision.
    pub player: PlayerId,
    /// The source of the effect.
    pub source: Option<ObjectId>,
    /// Description of the split.
    pub description: String,
    /// The cards, with names.
    pub cards: Vec<(ObjectId, String)>,
    /// Where the first group goes.
    pub primary_label: String,
    /// Where the second group goes.
    pub secondary_label: String,
}

impl PartitionContext {
    /// Create a new PartitionContext.
    pub fn new(
        player: PlayerId,
        source: Option<ObjectId>,
        description: &str,
        cards: Vec<(ObjectId, String)>,
        primary_label: &str,
        secondary_label: &str,
    ) -> (c: PartitionContext)
        ensures
            c.player == player,
            c.source == source,
            c.description@ == description@,
            c.cards == cards,
            c.primary_label@ == primary_label@,
            c.secondary_label@ == secondary_label@,
    {
        PartitionContext {
            player,
            source,
            description: string_of(description),
            cards,
            primary_label: string_of(primary_label),
            secondary_label: string_of(secondary_label),
        }
    }

    /// Scry: keep cards on top or put them on the bottom.
    pub fn scry(player: PlayerId, source: Option<ObjectId>, cards: Vec<(ObjectId, String)>) -> (c: PartitionContext)
        ensures
            c.player == player,
            c.source == source,
            c.description@ == "Scry "@ + decimal(cards@.len()),
            c.cards == cards,
            c.primary_label@ == "top of library"@,
            c.secondary_label@ == "bottom of library"@,
    {
        let mut description = string_of("Scry ");
        push_decimal(&mut description, cards.len() as u64);
        PartitionContext::new(player, source, description.as_str(), cards, "top of library", "bottom of library")
    }

    /// Surveil: keep cards on top or put them into the graveyard.
    pub fn surveil(player: PlayerId, source: Option<ObjectId>, cards: Vec<(ObjectId, String)>) -> (c: PartitionContext)
        ensures
            c.player == player,
            c.source == source,
            c.description@ == "Surveil "@ + decimal(cards@.len()),
            c.cards == cards,
            c.primary_label@ == "top of library"@,
            c.secondary_label@ == "graveyard"@,
    {
        let mut description = string_of("Surveil ");
        push_decimal(&mut description, cards.len() as u64);
        PartitionContext::new(player, source, description.as_str(), cards, "top of library", "graveyard")
    }
}

// ============================================================================
// Proliferate Context
// ============================================================================

/// Context for choosing what to proliferate.
#[derive(Debug, Clone)]
pub struct ProliferateContext {
    /// The player making the decision.
    pub player: PlayerId,
    /// The source of the effect.
    pub source: Option<ObjectId>,
    /// Permanents with counters, with names.
    pub eligible_permanents: Vec<(ObjectId, String)>,
    /// Players with counters, with names.
    pub eligible_players: Vec<(PlayerId, String)>,
}

impl ProliferateContext {
    /// Create a new ProliferateContext.
    pub fn new(
        player: PlayerId,
        source: Option<ObjectId>,
        eligible_permanents: Vec<(ObjectId, String)>,
        eligible_players: Vec<(PlayerId, String)>,
    ) -> (c: ProliferateContext)
        ensures
            c.player == player,
            c.source == source,
            c.eligible_permanents == eligible_permanents,
            c.eligible_players == eligible_players,
    {
        ProliferateContext { player, source, eligible_permanents, eligible_players }
    }
}

// ============================================================================
// Priority Context
// ============================================================================

/// Context for a player with priority.
#[derive(Debug, Clone)]
pub struct PriorityContext {
    /// The player with priority.
    pub player: PlayerId,
    /// What the player may do.
    pub legal_actions: Vec<LegalAction>,
    /// What the player may do with their commander.
    pub commander_actions: Vec<LegalAction>,
}

impl PriorityContext {
    /// Create a new PriorityContext.
    pub fn new(player: PlayerId, legal_actions: Vec<LegalAction>, commander_actions: Vec<LegalAction>) -> (c:
        PriorityContext)
        ensures
            c.player == player,
            c.legal_actions == legal_actions,
            c.commander_actions == commander_actions,
    {
        PriorityContext { player, legal_actions, commander_actions }
    }
}

// ============================================================================
// Targets Context
// ============================================================================

/// One targeting requirement of a spell or ability.
#[derive(Debug, Clone)]
pub struct TargetRequirementContext {
    /// What must be targeted.
    pub description: String,
    /// The legal targets.
    pub legal_targets: Vec<Target>,
    /// Fewest targets.
    pub min_targets: usize,
    /// Most targets, if limited.
    pub max_targets: Option<usize>,
}

impl TargetRequirementContext {
    /// A requirement for exactly one target.
    pub fn single(description: &str, legal_targets: Vec<Target>) -> (c: TargetRequirementContext)
        ensures
            c.description@ == description@,
            c.legal_targets == legal_targets,
            c.min_targets == 1,
            c.max_targets == Some(1usize),
    {
        TargetRequirementContext {
            description: string_of(description),
            legal_targets,
            min_targets: 1,
            max_targets: Some(1),
        }
    }
}

/// Context for choosing targets.
#[derive(Debug, Clone)]
pub struct TargetsContext {
    /// The player choosing.
    pub player: PlayerId,
    /// The spell or ability.
    pub source: ObjectId,
    /// What the targets are for.
    pub context: String,
    /// The requirements, in order.
    pub requirements: Vec<TargetRequirementContext>,
}

impl TargetsContext {
    /// Create a new TargetsContext.
    pub fn new(player: PlayerId, source: ObjectId, context: &str, requirements: Vec<TargetRequirementContext>) -> (c:
        TargetsContext)
        ensures
            c.player == player,
            c.source == source,
            c.context@ == context@,
            c.requirements == requirements,
    {
        TargetsContext { player, source, context: string_of(context), requirements }
    }
}

// ============================================================================
// DecisionContext Enum
// ============================================================================

/// The context of any decision.
#[derive(Debug, Clone)]
pub enum DecisionContext {
    Boolean(BooleanContext),
    Number(NumberContext),
    SelectObjects(SelectObjectsContext),
    SelectOptions(SelectOptionsContext),
    Modes(ModesContext),
    HybridChoice(HybridChoiceContext),
    Order(OrderContext),
    Attackers(AttackersContext),
    Blockers(BlockersContext),
    Distribute(DistributeContext),
    Colors(ColorsContext),
    Counters(CountersContext),
    Partition(PartitionContext),
    Proliferate(ProliferateContext),
    Priority(PriorityContext),
    Targets(TargetsContext),
}

impl DecisionContext {
    /// The boolean context held.
    pub fn into_boolean(self) -> (c: BooleanContext)
        requires
            self is Boolean,
        ensures
            self == DecisionContext::Boolean(c),
    {
        match self {
            DecisionContext::Boolean(ctx) => ctx,
            _ => {
                proof {
                    assert(false);
                }
                unreached()
            },
        }
    }

    /// The number context held.
    pub fn into_number(self) -> (c: NumberContext)
        requires
            self is Number,
        ensures
            self == DecisionContext::Number(c),
    {
        match self {
            DecisionContext::Number(ctx) => ctx,
            _ => {
                proof {
                    assert(false);
                }
                unreached()
            },
        }
    }

    /// The object selection context held.
    pub fn into_objects(self) -> (c: SelectObjectsContext)
        requires
            self is SelectObjects,
        ensures
            self == DecisionContext::SelectObjects(c),
    {
        match self {
            DecisionContext::SelectObjects(ctx) => ctx,
            _ => {
                proof {
                    assert(false);
                }
                unreached()
            },
        }
    }

    /// The option selection context held.
    pub fn into_options(self) -> (c: SelectOptionsContext)
        requires
            self is SelectOptions,
        ensures
            self == DecisionContext::SelectOptions(c),
    {
        match self {
            DecisionContext::SelectOptions(ctx) => ctx,
            _ => {
                proof {
                    assert(false);
                }
                unreached()
            },
        }
    }

    /// The order context held.
    pub fn into_order(self) -> (c: OrderContext)
        requires
            self is Order,
        ensures
            self == DecisionContext::Order(c),
    {
        match self {
            DecisionContext::Order(ctx) => ctx,
            _ => {
                proof {
                    assert(false);
                }
                unreached()
            },
        }
    }

    /// The attackers context held.
    pub fn into_attackers(self) -> (c: AttackersContext)
        requires
            self is Attackers,
        ensures
            self == DecisionContext::Attackers(c),
    {
        match self {
            DecisionContext::Attackers(ctx) => ctx,
            _ => {
                proof {
                    assert(false);
                }
                unreached()
            },
        }
    }

    /// The blockers context held.
    pub fn into_blockers(self) -> (c: BlockersContext)
        requires
            self is Blockers,
        ensures
            self == DecisionContext::Blockers(c),
    {
        match self {
            DecisionContext::Blockers(ctx) => ctx,
            _ => {
                proof {
                    assert(false);
                }
                unreached()
            },
        }
    }

    /// The distribute context held.
    pub fn into_distribute(self) -> (c: DistributeContext)
        requires
            self is Distribute,
        ensures
            self == DecisionContext::Distribute(c),
    {
        match self {
            DecisionContext::Distribute(ctx) => ctx,
            _ => {
                proof {
                    assert(false);
                }
                unreached()
            },
        }
    }

    /// The colors context held.
    pub fn into_colors(self) -> (c: ColorsContext)
        requires
            self is Colors,
        ensures
            self == DecisionContext::Colors(c),
    {
        match self {
            DecisionContext::Colors(ctx) => ctx,
            _ => {
                proof {
                    assert(false);
                }
                unreached()
            },
        }
    }

    /// The counters context held.
    pub fn into_counters(self) -> (c: CountersContext)
        requires
            self is Counters,
        ensures
            self == DecisionContext::Counters(c),
    {
        match self {
            DecisionContext::Counters(ctx) => ctx,
            _ => {
                proof {
                    assert(false);
                }
                unreached()
            },
        }
    }

    /// The partition context held.
    pub fn into_partition(self) -> (c: PartitionContext)
        requires
            self is Partition,
        ensures
            self == DecisionContext::Partition(c),
    {
        match self {
            DecisionContext::Partition(ctx) => ctx,
            _ => {
                proof {
                    assert(false);
                }
                unreached()
            },
        }
    }

    /// The proliferate context held.
    pub fn into_proliferate(self) -> (c: ProliferateContext)
        requires
            self is Proliferate,
        ensures
            self == DecisionContext::Proliferate(c),
    {
        match self {
            DecisionContext::Proliferate(ctx) => ctx,
            _ => {
                proof {
                    assert(false);
                }
                unreached()
            },
        }
    }

    /// The priority context held.
    pub fn into_priority(self) -> (c: PriorityContext)
        requires
            self is Priority,
        ensures
            self == DecisionContext::Priority(c),
    {
        match self {
            DecisionContext::Priority(ctx) => ctx,
            _ => {
                proof {
                    assert(false);
                }
                unreached()
            },
        }
    }

    /// The targets context held.
    pub fn into_targets(self) -> (c: TargetsContext)
        requires
            self is Targets,
        ensures
            self == DecisionContext::Targets(c),
    {
        match self {
            DecisionContext::Targets(ctx) => ctx,
            _ => {
                proof {
                    assert(false);
                }
                unreached()
            },
        }
    }
}

} // verus!
