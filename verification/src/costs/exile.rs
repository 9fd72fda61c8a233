//! Exile costs: exiling the source, or cards from the graveyard or hand.

use vstd::prelude::*;
use crate::ids::{ObjectId, PlayerId};
use crate::cost::CostPaymentError;
use crate::costs::{Cost, CostContext, CostPaymentResult};
use crate::game::{GameState, moved_to, moved_all};
use crate::types::{CardType, Color, ColorSet, Zone};
use crate::text::{decimal, push_decimal, push_str, string_of};

verus! {

/// An exile self cost.
///
/// The source permanent exiles itself as part of the cost.
#[derive(Debug, Clone, Copy, PartialEq, Eq, Structural)]
pub struct ExileSelfCost;

/// Why the source cannot exile itself, if it cannot: it must exist and be on
/// the battlefield.
pub open spec fn exile_self_error(game: GameState, source: ObjectId) -> Option<CostPaymentError> {
    match game.object_of(source) {
        None => Some(CostPaymentError::SourceNotFound),
        Some(o) => if o.zone != Zone::Battlefield {
            Some(CostPaymentError::SourceNotOnBattlefield)
        } else {
            None
        },
    }
}

impl Default for ExileSelfCost {
    fn default() -> (c: ExileSelfCost)
        ensures
            c == ExileSelfCost,
    {
        ExileSelfCost::new()
    }
}

impl ExileSelfCost {
    /// Create a new exile self cost.
    pub fn new() -> (c: ExileSelfCost)
        ensures
            c == ExileSelfCost,
    {
        ExileSelfCost
    }

    /// Checks that the source exists and is on the battlefield.
    pub fn can_pay(&self, game: &GameState, ctx: &CostContext) -> (r: Result<(), CostPaymentError>)
        ensures
            r == match exile_self_error(*game, ctx.source) {
                Some(e) => Err::<(), CostPaymentError>(e),
                None => Ok(()),
            },
    {
        let source = match game.object(ctx.source) {
            Some(o) => o,
            None => {
                return Err(CostPaymentError::SourceNotFound);
            },
        };
        if source.zone != Zone::Battlefield {
            return Err(CostPaymentError::SourceNotOnBattlefield);
        }
        Ok(())
    }

    /// Moves the source to exile, if it can be paid; otherwise changes nothing.
    pub fn pay(&self, game: &mut GameState, ctx: &mut CostContext) -> (r: Result<CostPaymentResult, CostPaymentError>)
        ensures
            *final(ctx) == *old(ctx),
            match exile_self_error(*old(game), old(ctx).source) {
                Some(e) => r == Err::<CostPaymentResult, CostPaymentError>(e) && *final(game) == *old(game),
                None => r == Ok::<CostPaymentResult, CostPaymentError>(CostPaymentResult::Paid) && moved_to(
                    *old(game),
                    *final(game),
                    old(ctx).source,
                    Zone::Exile,
                ),
            },
    {
        match self.can_pay(game, ctx) {
            Err(e) => {
                return Err(e);
            },
            Ok(()) => {},
        }
        game.move_object(ctx.source, Zone::Exile);
        Ok(CostPaymentResult::Paid)
    }

    /// This cost as a cost component.
    pub fn clone_box(&self) -> (c: Cost)
        ensures
            c == Cost::ExileSelf(*self),
    {
        Cost::ExileSelf(*self)
    }

    /// `Exile ~`.
    pub fn display(&self) -> (t: String)
        ensures
            t@ == "Exile ~"@,
    {
        string_of("Exile ~")
    }
}

/// An exile cards from graveyard cost.
///
/// The player must exile cards from their graveyard.
#[derive(Debug, Clone, Copy, PartialEq, Eq, Structural)]
pub struct ExileFromGraveyardCost {
    /// The number of cards to exile.
    pub count: u32,
    /// Optional card type restriction.
    pub card_type: Option<CardType>,
}

/// Whether graveyard card `id` may be exiled for a cost restricted to `card_type`.
pub open spec fn graveyard_card_valid(game: GameState, id: ObjectId, card_type: Option<CardType>) -> bool {
    match card_type {
        None => true,
        Some(ct) => game.has_card_type(id, ct),
    }
}

/// How many of `cards` may be exiled for a cost restricted to `card_type`.
pub open spec fn count_graveyard_valid(game: GameState, cards: Seq<ObjectId>, card_type: Option<CardType>) -> nat
    decreases cards.len(),
{
    if cards.len() == 0 {
        0
    } else {
        count_graveyard_valid(game, cards.drop_last(), card_type) + if graveyard_card_valid(
            game,
            cards.last(),
            card_type,
        ) {
            1nat
        } else {
            0nat
        }
    }
}

/// How many cards in `player`'s graveyard may be exiled (0 for an unknown player).
pub open spec fn valid_graveyard_count(game: GameState, player: PlayerId, card_type: Option<CardType>) -> nat {
    match game.player_of(player) {
        None => 0,
        Some(p) => count_graveyard_valid(game, p.graveyard@, card_type),
    }
}

/// Why the payer cannot exile the cards from the graveyard, if it cannot.
pub open spec fn graveyard_exile_error(game: GameState, payer: PlayerId, c: ExileFromGraveyardCost) -> Option<
    CostPaymentError,
> {
    if valid_graveyard_count(game, payer, c.card_type) < c.count {
        Some(CostPaymentError::InsufficientCardsInGraveyard)
    } else {
        None
    }
}

/// The name of the kind of card a graveyard cost asks for.
pub open spec fn card_kind_text(card_type: Option<CardType>) -> Seq<char> {
    match card_type {
        None => "card"@,
        Some(CardType::Creature) => "creature card"@,
        Some(CardType::Artifact) => "artifact card"@,
        Some(CardType::Enchantment) => "enchantment card"@,
        Some(CardType::Land) => "land card"@,
        Some(CardType::Planeswalker) => "planeswalker card"@,
        Some(CardType::Instant) => "instant card"@,
        Some(CardType::Sorcery) => "sorcery card"@,
        Some(CardType::Battle) => "battle card"@,
        Some(CardType::Kindred) => "kindred card"@,
    }
}

/// The text of a graveyard exile cost.
pub open spec fn graveyard_exile_text(c: ExileFromGraveyardCost) -> Seq<char> {
    if c.count == 1 {
        "Exile a "@ + card_kind_text(c.card_type) + " from your graveyard"@
    } else {
        "Exile "@ + decimal(c.count as nat) + " "@ + card_kind_text(c.card_type) + "s from your graveyard"@
    }
}

/// Appends the name of the kind of card.
fn push_card_kind(t: &mut String, card_type: Option<CardType>)
    ensures
        final(t)@ == old(t)@ + card_kind_text(card_type),
{
    match card_type {
        None => push_str(t, "card"),
        Some(CardType::Creature) => push_str(t, "creature card"),
        Some(CardType::Artifact) => push_str(t, "artifact card"),
        Some(CardType::Enchantment) => push_str(t, "enchantment card"),
        Some(CardType::Land) => push_str(t, "land card"),
        Some(CardType::Planeswalker) => push_str(t, "planeswalker card"),
        Some(CardType::Instant) => push_str(t, "instant card"),
        Some(CardType::Sorcery) => push_str(t, "sorcery card"),
        Some(CardType::Battle) => push_str(t, "battle card"),
        Some(CardType::Kindred) => push_str(t, "kindred card"),
    }
}

impl ExileFromGraveyardCost {
    /// Create a new exile from graveyard cost.
    pub fn new(count: u32, card_type: Option<CardType>) -> (c: ExileFromGraveyardCost)
        ensures
            c.count == count,
            c.card_type == card_type,
    {
        ExileFromGraveyardCost { count, card_type }
    }

    /// Create a cost to exile any cards from graveyard.
    pub fn any(count: u32) -> (c: ExileFromGraveyardCost)
        ensures
            c.count == count,
            c.card_type is None,
    {
        ExileFromGraveyardCost::new(count, None)
    }

    /// Get the number of valid cards in graveyard for this cost.
    pub fn count_valid_cards(&self, game: &GameState, player: PlayerId) -> (n: usize)
        ensures
            n == valid_graveyard_count(*game, player, self.card_type),
    {
        let p = match game.player(player) {
            Some(p) => p,
            None => {
                return 0;
            },
        };
        let cards = &p.graveyard;
        let mut n: usize = 0;
        let mut i: usize = 0;
        while i < cards.len()
            invariant
                i <= cards@.len(),
                n == count_graveyard_valid(*game, cards@.subrange(0, i as int), self.card_type),
                n <= i,
            decreases cards.len() - i,
        {
            assert(cards@.subrange(0, i + 1).drop_last() == cards@.subrange(0, i as int));
            let id = cards[i];
            let valid = match self.card_type {
                None => true,
                Some(ct) => game.object_has_card_type(id, ct),
            };
            if valid {
                n = n + 1;
            }
            i = i + 1;
        }
        assert(cards@.subrange(0, cards@.len() as int) == cards@);
        n
    }

    /// Checks that the payer's graveyard holds enough valid cards.
    pub fn can_pay(&self, game: &GameState, ctx: &CostContext) -> (r: Result<(), CostPaymentError>)
        ensures
            r == match graveyard_exile_error(*game, ctx.payer, *self) {
                Some(e) => Err::<(), CostPaymentError>(e),
                None => Ok(()),
            },
    {
        let valid_count = self.count_valid_cards(game, ctx.payer);
        if valid_count < self.count as usize {
            return Err(CostPaymentError::InsufficientCardsInGraveyard);
        }
        Ok(())
    }

    /// Checks the cost; the cards themselves are chosen afterwards, so a
    /// payable cost asks for that choice and changes nothing.
    pub fn pay(&self, game: &mut GameState, ctx: &mut CostContext) -> (r: Result<CostPaymentResult, CostPaymentError>)
        ensures
            *final(ctx) == *old(ctx),
            *final(game) == *old(game),
            match graveyard_exile_error(*old(game), old(ctx).payer, *self) {
                Some(e) => r == Err::<CostPaymentResult, CostPaymentError>(e),
                None => r matches Ok(CostPaymentResult::NeedsChoice(t)) && t@ == graveyard_exile_text(*self),
            },
    {
        match self.can_pay(game, ctx) {
            Err(e) => {
                return Err(e);
            },
            Ok(()) => {},
        }
        Ok(CostPaymentResult::NeedsChoice(self.display()))
    }

    /// This cost as a cost component.
    pub fn clone_box(&self) -> (c: Cost)
        ensures
            c == Cost::ExileFromGraveyard(*self),
    {
        Cost::ExileFromGraveyard(*self)
    }

    /// Text such as `Exile a creature card from your graveyard`.
    pub fn display(&self) -> (t: String)
        ensures
            t@ == graveyard_exile_text(*self),
    {
        if self.count == 1 {
            let mut t = string_of("Exile a ");
            push_card_kind(&mut t, self.card_type);
            push_str(&mut t, " from your graveyard");
            t
        } else {
            let mut t = string_of("Exile ");
            push_decimal(&mut t, self.count as u64);
            push_str(&mut t, " ");
            push_card_kind(&mut t, self.card_type);
            push_str(&mut t, "s from your graveyard");
            t
        }
    }
}

/// An exile cards from hand cost (e.g., Force of Will's "exile a blue card").
///
/// The player must exile cards from their hand matching the color filter.
#[derive(Debug, Clone, Copy, PartialEq, Eq, Structural)]
pub struct ExileFromHandCost {
    /// The number of cards to exile.
    pub count: u32,
    /// Optional color filter (card must have at least one of these colors).
    pub color_filter: Option<ColorSet>,
}

/// Whether the two sets share a color.
pub open spec fn shares_color(a: ColorSet, b: ColorSet) -> bool {
    exists|c: Color| a.has(c) && b.has(c)
}

/// Whether hand card `id` may be exiled: it is not the card being cast and
/// matches the color filter.
pub open spec fn hand_card_valid(game: GameState, id: ObjectId, source: ObjectId, filter: Option<ColorSet>) -> bool {
    &&& id != source
    &&& match filter {
        None => true,
        Some(req) => match game.object_of(id) {
            Some(o) => shares_color(o.colors, req),
            None => false,
        },
    }
}

/// How many of `cards` may be exiled.
pub open spec fn count_hand_valid(game: GameState, cards: Seq<ObjectId>, source: ObjectId, filter: Option<ColorSet>) -> nat
    decreases cards.len(),
{
    if cards.len() == 0 {
        0
    } else {
        count_hand_valid(game, cards.drop_last(), source, filter) + if hand_card_valid(
            game,
            cards.last(),
            source,
            filter,
        ) {
            1nat
        } else {
            0nat
        }
    }
}

/// How many cards in `player`'s hand may be exiled (0 for an unknown player).
pub open spec fn valid_hand_count(game: GameState, player: PlayerId, source: ObjectId, filter: Option<ColorSet>) -> nat {
    match game.player_of(player) {
        None => 0,
        Some(p) => count_hand_valid(game, p.hand@, source, filter),
    }
}

/// Why the payer cannot exile the cards from the hand, if it cannot.
pub open spec fn hand_exile_error(game: GameState, payer: PlayerId, source: ObjectId, c: ExileFromHandCost) -> Option<
    CostPaymentError,
> {
    if valid_hand_count(game, payer, source, c.color_filter) < c.count {
        Some(CostPaymentError::InsufficientCardsToExile)
    } else {
        None
    }
}

/// The names of the colors in the set, in the order white, blue, black, red, green.
pub open spec fn color_names(cs: ColorSet) -> Seq<Seq<char>> {
    let a = if cs.white { seq!["white"@] } else { Seq::empty() };
    let b = if cs.blue { a.push("blue"@) } else { a };
    let c = if cs.black { b.push("black"@) } else { b };
    let d = if cs.red { c.push("red"@) } else { c };
    if cs.green { d.push("green"@) } else { d }
}

/// The names joined by ` or `.
pub open spec fn join_or(names: Seq<Seq<char>>) -> Seq<char>
    decreases names.len(),
{
    if names.len() == 0 {
        Seq::empty()
    } else if names.len() == 1 {
        names[0]
    } else {
        join_or(names.drop_last()) + " or "@ + names.last()
    }
}

/// The color words of a hand exile cost, each followed by nothing but ` or `,
/// the whole followed by a space; empty without a filter or with no color.
pub open spec fn color_words(filter: Option<ColorSet>) -> Seq<char> {
    match filter {
        None => Seq::empty(),
        Some(cs) => if color_names(cs).len() == 0 {
            Seq::empty()
        } else {
            join_or(color_names(cs)) + " "@
        },
    }
}

/// The text of a hand exile cost.
pub open spec fn hand_exile_text(c: ExileFromHandCost) -> Seq<char> {
    if c.count == 1 {
        "Exile a "@ + color_words(c.color_filter) + "card from your hand"@
    } else {
        "Exile "@ + decimal(c.count as nat) + " "@ + color_words(c.color_filter) + "cards from your hand"@
    }
}

/// Appends a color name to a list joined by ` or `.
fn push_color_name(t: &mut String, names: Ghost<Seq<Seq<char>>>, any: bool, name: &str) -> (r: Ghost<
    Seq<Seq<char>>,
>)
    requires
        old(t)@ == join_or(names@),
        any == (names@.len() > 0),
    ensures
        r@ == names@.push(name@),
        final(t)@ == join_or(r@),
{
    if any {
        push_str(t, " or ");
    }
    push_str(t, name);
    proof {
        assert(names@.push(name@).drop_last() =~= names@);
    }
    Ghost(names@.push(name@))
}

/// Appends the color words of the filter.
fn push_color_words(t: &mut String, filter: Option<ColorSet>)
    ensures
        final(t)@ == old(t)@ + color_words(filter),
{
    match filter {
        None => {
            assert(old(t)@ + Seq::<char>::empty() == old(t)@);
        },
        Some(cs) => {
            let mut w = String::new();
            let mut names: Ghost<Seq<Seq<char>>> = Ghost(Seq::empty());
            let mut any = false;
            if cs.white {
                names = push_color_name(&mut w, names, any, "white");
                any = true;
            }
            if cs.blue {
                names = push_color_name(&mut w, names, any, "blue");
                any = true;
            }
            if cs.black {
                names = push_color_name(&mut w, names, any, "black");
                any = true;
            }
            if cs.red {
                names = push_color_name(&mut w, names, any, "red");
                any = true;
            }
            if cs.green {
                names = push_color_name(&mut w, names, any, "green");
                any = true;
            }
            assert(names@ == color_names(cs));
            if cs.white || cs.blue || cs.black || cs.red || cs.green {
                push_str(&mut w, " ");
                push_str(t, w.as_str());
            } else {
                assert(old(t)@ + Seq::<char>::empty() == old(t)@);
            }
        },
    }
}

impl ExileFromHandCost {
    /// This cost exiles cards from the hand.
    pub fn is_exile_from_hand(&self) -> (b: bool)
        ensures
            b,
    {
        true
    }

    /// How many cards it exiles from the hand, and the colors they may have.
    pub fn exile_from_hand_details(&self) -> (r: Option<(u32, Option<ColorSet>)>)
        ensures
            r == Some((self.count, self.color_filter)),
    {
        Some((self.count, self.color_filter))
    }

    /// The player chooses which cards to exile.
    pub fn needs_player_choice(&self) -> (b: bool)
        ensures
            b,
    {
        true
    }

    /// Create a new exile from hand cost.
    pub fn new(count: u32, color_filter: Option<ColorSet>) -> (c: ExileFromHandCost)
        ensures
            c.count == count,
            c.color_filter == color_filter,
    {
        ExileFromHandCost { count, color_filter }
    }

    /// Create a cost to exile any cards from hand.
    pub fn any(count: u32) -> (c: ExileFromHandCost)
        ensures
            c.count == count,
            c.color_filter is None,
    {
        ExileFromHandCost::new(count, None)
    }

    /// Create a cost to exile a card of a specific color.
    pub fn colored(count: u32, colors: ColorSet) -> (c: ExileFromHandCost)
        ensures
            c.count == count,
            c.color_filter == Some(colors),
    {
        ExileFromHandCost::new(count, Some(colors))
    }

    /// Get the number of valid cards in hand for this cost: cards other than
    /// `source` that match the color filter.
    pub fn count_valid_cards(&self, game: &GameState, player: PlayerId, source: ObjectId) -> (n: usize)
        ensures
            n == valid_hand_count(*game, player, source, self.color_filter),
    {
        let p = match game.player(player) {
            Some(p) => p,
            None => {
                return 0;
            },
        };
        let cards = &p.hand;
        let mut n: usize = 0;
        let mut i: usize = 0;
        while i < cards.len()
            invariant
                i <= cards@.len(),
                n == count_hand_valid(*game, cards@.subrange(0, i as int), source, self.color_filter),
                n <= i,
            decreases cards.len() - i,
        {
            assert(cards@.subrange(0, i + 1).drop_last() == cards@.subrange(0, i as int));
            let id = cards[i];
            let valid = if id == source {
                false
            } else {
                match self.color_filter {
                    None => true,
                    Some(required) => match game.object(id) {
                        Some(o) => {
                            let shared = o.colors.intersection(required);
                            let e = shared.is_empty();
                            proof {
                                if !e {
                                    let c = choose|c: Color| shared.has(c);
                                    assert(o.colors.has(c) && required.has(c));
                                }
                            }
                            !e
                        },
                        None => false,
                    },
                }
            };
            if valid {
                n = n + 1;
            }
            i = i + 1;
        }
        assert(cards@.subrange(0, cards@.len() as int) == cards@);
        n
    }

    /// Checks that the payer's hand holds enough valid cards.
    pub fn can_pay(&self, game: &GameState, ctx: &CostContext) -> (r: Result<(), CostPaymentError>)
        ensures
            r == match hand_exile_error(*game, ctx.payer, ctx.source, *self) {
                Some(e) => Err::<(), CostPaymentError>(e),
                None => Ok(()),
            },
    {
        let valid_count = self.count_valid_cards(game, ctx.payer, ctx.source);
        if valid_count < self.count as usize {
            return Err(CostPaymentError::InsufficientCardsToExile);
        }
        Ok(())
    }

    /// Checks the cost, then exiles the first `count` cards chosen ahead of
    /// time, one after another, and drops them from the chosen list. Without
    /// chosen cards it asks for the choice and changes nothing; with fewer
    /// chosen cards than needed it fails and changes nothing.
    pub fn pay(&self, game: &mut GameState, ctx: &mut CostContext) -> (r: Result<CostPaymentResult, CostPaymentError>)
        ensures
            ({
                let chosen = old(ctx).pre_chosen_cards@;
                let n = self.count as int;
                match hand_exile_error(*old(game), old(ctx).payer, old(ctx).source, *self) {
                    Some(e) => r == Err::<CostPaymentResult, CostPaymentError>(e) && *final(game) == *old(game)
                        && *final(ctx) == *old(ctx),
                    None => if chosen.len() == 0 {
                        &&& r matches Ok(CostPaymentResult::NeedsChoice(t)) && t@ == hand_exile_text(*self)
                        &&& *final(game) == *old(game)
                        &&& *final(ctx) == *old(ctx)
                    } else if chosen.len() < n {
                        &&& r == Err::<CostPaymentResult, CostPaymentError>(
                            CostPaymentError::InsufficientCardsToExile,
                        )
                        &&& *final(game) == *old(game)
                        &&& *final(ctx) == *old(ctx)
                    } else {
                        &&& r == Ok::<CostPaymentResult, CostPaymentError>(CostPaymentResult::Paid)
                        &&& moved_all(*old(game), *final(game), chosen.take(n), Zone::Exile)
                        &&& final(ctx).pre_chosen_cards@ == chosen.skip(n)
                        &&& final(ctx).source == old(ctx).source
                        &&& final(ctx).payer == old(ctx).payer
                    },
                }
            }),
    {
        match self.can_pay(game, ctx) {
            Err(e) => {
                return Err(e);
            },
            Ok(()) => {},
        }
        if ctx.pre_chosen_cards.len() == 0 {
            return Ok(CostPaymentResult::NeedsChoice(self.display()));
        }
        let n = self.count as usize;
        if ctx.pre_chosen_cards.len() < n {
            return Err(CostPaymentError::InsufficientCardsToExile);
        }
        let mut taken: Vec<ObjectId> = Vec::new();
        let mut rest: Vec<ObjectId> = Vec::new();
        let mut i: usize = 0;
        while i < ctx.pre_chosen_cards.len()
            invariant
                n <= ctx.pre_chosen_cards@.len(),
                i <= ctx.pre_chosen_cards@.len(),
                taken@ == ctx.pre_chosen_cards@.take(if i <= n { i as int } else { n as int }),
                rest@ == if i <= n {
                    Seq::<ObjectId>::empty()
                } else {
                    ctx.pre_chosen_cards@.subrange(n as int, i as int)
                },
            decreases ctx.pre_chosen_cards.len() - i,
        {
            if i < n {
                assert(ctx.pre_chosen_cards@.take(i + 1) == ctx.pre_chosen_cards@.take(i as int).push(
                    ctx.pre_chosen_cards@[i as int],
                ));
                taken.push(ctx.pre_chosen_cards[i]);
            } else {
                assert(ctx.pre_chosen_cards@.subrange(n as int, i + 1) == ctx.pre_chosen_cards@.subrange(
                    n as int,
                    i as int,
                ).push(ctx.pre_chosen_cards@[i as int]));
                rest.push(ctx.pre_chosen_cards[i]);
            }
            i = i + 1;
        }
        ctx.pre_chosen_cards = rest;
        game.move_objects(&taken, Zone::Exile);
        Ok(CostPaymentResult::Paid)
    }

    /// This cost as a cost component.
    pub fn clone_box(&self) -> (c: Cost)
        ensures
            c == Cost::ExileFromHand(*self),
    {
        Cost::ExileFromHand(*self)
    }

    /// Text such as `Exile a blue card from your hand`.
    pub fn display(&self) -> (t: String)
        ensures
            t@ == hand_exile_text(*self),
    {
        if self.count == 1 {
            let mut t = string_of("Exile a ");
            push_color_words(&mut t, self.color_filter);
            push_str(&mut t, "card from your hand");
            t
        } else {
            let mut t = string_of("Exile ");
            push_decimal(&mut t, self.count as u64);
            push_str(&mut t, " ");
            push_color_words(&mut t, self.color_filter);
            push_str(&mut t, "cards from your hand");
            t
        }
    }
}

/// A valid card among `cards` makes their count positive.
proof fn lemma_count_hand_valid_positive(
    game: GameState,
    cards: Seq<ObjectId>,
    source: ObjectId,
    filter: Option<ColorSet>,
    id: ObjectId,
)
    requires
        cards.contains(id),
        hand_card_valid(game, id, source, filter),
    ensures
        count_hand_valid(game, cards, source, filter) >= 1,
    decreases cards.len(),
{
    if cards.last() != id {
        let j = choose|j: int| 0 <= j < cards.len() && cards[j] == id;
        assert(cards.drop_last()[j] == id);
        lemma_count_hand_valid_positive(game, cards.drop_last(), source, filter, id);
    }
}

/// A color filter on exiling from the hand asks for a card of any one of
/// its colors: a hand card other than the source counts exactly when it
/// has a color in common with the filter (so a multicolored card counts
/// when one of its colors is asked for), and with such a card in the
/// payer's hand a cost of one card can be paid.
pub proof fn law_color_filter_asks_for_a_shared_color(
    game: GameState,
    payer: PlayerId,
    source: ObjectId,
    id: ObjectId,
    req: ColorSet,
)
    ensures
        hand_card_valid(game, id, source, Some(req)) <==> (id != source && game.object_of(id) is Some && exists|c: Color|
            game.object_of(id)->0.colors.has(c) && req.has(c)),
        (game.player_of(payer) is Some && game.player_of(payer)->0.hand@.contains(id) && id != source
            && game.object_of(id) is Some && (exists|c: Color| game.object_of(id)->0.colors.has(c) && req.has(c)))
            ==> hand_exile_error(game, payer, source, ExileFromHandCost { count: 1, color_filter: Some(req) }) is None,
{
    if game.player_of(payer) is Some && game.player_of(payer)->0.hand@.contains(id) && id != source
        && game.object_of(id) is Some && (exists|c: Color| game.object_of(id)->0.colors.has(c) && req.has(c)) {
        lemma_count_hand_valid_positive(game, game.player_of(payer)->0.hand@, source, Some(req), id);
    }
}

} // verus!
