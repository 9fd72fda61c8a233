//! Carrying out the effects of spells and abilities: library searches,
//! drawing, milling, losing life, and adding mana.

use vstd::prelude::*;
use crate::ids::{ObjectId, PlayerId, contains_object, contains_player};
use crate::types::{CardType, Color, ColorSet, Zone, contains_card_type};
use crate::card::permanent_types;
use crate::game::{GameState, Player, moved_all, moved_to, move_chain};
use crate::cards::ability::{CardFilter, Effect, SearchDestination};
use crate::decision::DecisionMaker;
use crate::decisions::helpers::ask_mana_color;

verus! {

/// Who is carrying out an effect, and for what source.
#[derive(Debug, Clone, Copy, PartialEq, Eq, Structural)]
pub struct ExecutionContext {
    /// The spell or ability.
    pub source: ObjectId,
    /// Its controller ("you").
    pub controller: PlayerId,
}

impl ExecutionContext {
    /// A context in which every choice takes its default: the first options allowed.
    pub fn new_default(source: ObjectId, controller: PlayerId) -> (c: ExecutionContext)
        ensures
            c.source == source,
            c.controller == controller,
    {
        ExecutionContext { source, controller }
    }
}

/// What an effect did.
#[derive(Debug, Clone, PartialEq, Eq)]
pub enum EffectResult {
    /// It acted on these objects.
    Objects(Vec<ObjectId>),
    /// It acted on this many things (0 when it found nothing).
    Count(u32),
    /// A rule or effect stopped it.
    Prevented,
    /// It happened.
    Resolved,
}

/// The outcome of carrying out an effect.
#[derive(Debug, Clone, PartialEq, Eq)]
pub struct EffectOutcome {
    pub result: EffectResult,
}

/// Why an effect could not be carried out.
#[derive(Debug, Clone, Copy, PartialEq, Eq, Structural)]
pub enum ExecutionError {
    /// This library does not carry out this kind of effect.
    Unsupported,
}

/// Whether object `id` is a card the filter accepts.
pub open spec fn filter_accepts(game: GameState, id: ObjectId, f: CardFilter) -> bool {
    match game.object_of(id) {
        None => false,
        Some(o) => {
            &&& (f.card_types@.len() == 0 || exists|i: int|
                0 <= i < f.card_types@.len() && o.card_types@.contains(#[trigger] f.card_types@[i]))
            &&& forall|i: int| 0 <= i < f.excluded_card_types@.len() ==> !o.card_types@.contains(
                #[trigger] f.excluded_card_types@[i],
            )
            &&& (f.permanent ==> permanent_types(o.card_types@))
            &&& (f.max_mana_value matches Some(m) ==> o.mana_value <= m)
        },
    }
}

/// Whether `types` holds one of `wanted`.
fn has_any_type(types: &Vec<CardType>, wanted: &Vec<CardType>) -> (b: bool)
    ensures
        b == exists|i: int| 0 <= i < wanted@.len() && types@.contains(#[trigger] wanted@[i]),
{
    let mut i: usize = 0;
    while i < wanted.len()
        invariant
            i <= wanted@.len(),
            forall|k: int| 0 <= k < i ==> !types@.contains(#[trigger] wanted@[k]),
        decreases wanted.len() - i,
    {
        if contains_card_type(types, wanted[i]) {
            return true;
        }
        i = i + 1;
    }
    false
}

/// Whether object `id` is a card the filter accepts.
pub fn card_matches(game: &GameState, id: ObjectId, f: &CardFilter) -> (b: bool)
    ensures
        b == filter_accepts(*game, id, *f),
{
    let o = match game.object(id) {
        Some(o) => o,
        None => {
            return false;
        },
    };
    if f.card_types.len() > 0 && !has_any_type(&o.card_types, &f.card_types) {
        return false;
    }
    if has_any_type(&o.card_types, &f.excluded_card_types) {
        return false;
    }
    if f.permanent {
        let t = &o.card_types;
        if !(contains_card_type(t, CardType::Artifact) || contains_card_type(t, CardType::Creature)
            || contains_card_type(t, CardType::Enchantment) || contains_card_type(t, CardType::Land)
            || contains_card_type(t, CardType::Planeswalker) || contains_card_type(t, CardType::Battle)) {
            return false;
        }
    }
    match f.max_mana_value {
        Some(m) => o.mana_value <= m,
        None => true,
    }
}

/// The cards of `cards` the filter accepts, in order.
pub open spec fn accepted(game: GameState, cards: Seq<ObjectId>, f: CardFilter) -> Seq<ObjectId>
    decreases cards.len(),
{
    if cards.len() == 0 {
        Seq::empty()
    } else {
        let rest = accepted(game, cards.drop_last(), f);
        if filter_accepts(game, cards.last(), f) {
            rest.push(cards.last())
        } else {
            rest
        }
    }
}

/// The first `n` of `s`, or all of `s` if it is shorter.
pub open spec fn first_n(s: Seq<ObjectId>, n: u32) -> Seq<ObjectId> {
    if n as int <= s.len() {
        s.take(n as int)
    } else {
        s
    }
}

/// `s` without the ids in `removed`, in order.
pub open spec fn without_all(s: Seq<ObjectId>, removed: Seq<ObjectId>) -> Seq<ObjectId>
    decreases s.len(),
{
    if s.len() == 0 {
        s
    } else {
        let rest = without_all(s.drop_last(), removed);
        if removed.contains(s.last()) {
            rest
        } else {
            rest.push(s.last())
        }
    }
}

/// The searches list after `p` searches: `p` is added unless already there.
pub open spec fn searched_by(searches: Seq<PlayerId>, p: PlayerId) -> Seq<PlayerId> {
    if searches.contains(p) {
        searches
    } else {
        searches.push(p)
    }
}

/// The zone a search destination puts cards into.
pub open spec fn destination_zone(d: SearchDestination) -> Zone {
    match d {
        SearchDestination::Hand => Zone::Hand,
        SearchDestination::Graveyard => Zone::Graveyard,
        SearchDestination::TopOfLibrary => Zone::Library,
    }
}

/// The first `n` cards of `cards` that the filter accepts, in order.
fn first_accepted(game: &GameState, cards: &Vec<ObjectId>, f: &CardFilter, n: u32) -> (r: Vec<ObjectId>)
    ensures
        r@ == first_n(accepted(*game, cards@, *f), n),
{
    let mut r: Vec<ObjectId> = Vec::new();
    let mut i: usize = 0;
    while i < cards.len() && r.len() < n as usize
        invariant
            i <= cards@.len(),
            r@.len() <= n,
            r@ == first_n(accepted(*game, cards@.subrange(0, i as int), *f), n),
            r@.len() < n ==> r@ == accepted(*game, cards@.subrange(0, i as int), *f),
        decreases cards.len() - i,
    {
        assert(cards@.subrange(0, i + 1).drop_last() == cards@.subrange(0, i as int));
        if card_matches(game, cards[i], f) {
            r.push(cards[i]);
        }
        i = i + 1;
    }
    proof {
        lemma_accepted_grows(*game, cards@, *f, i as int, n);
    }
    r
}

/// Once `n` cards are accepted among a prefix, the first `n` accepted cards
/// of the whole list are those.
proof fn lemma_accepted_grows(game: GameState, cards: Seq<ObjectId>, f: CardFilter, i: int, n: u32)
    requires
        0 <= i <= cards.len(),
        i < cards.len() ==> accepted(game, cards.subrange(0, i), f).len() >= n,
    ensures
        first_n(accepted(game, cards, f), n) == first_n(accepted(game, cards.subrange(0, i), f), n),
    decreases cards.len() - i,
{
    if i == cards.len() {
        assert(cards.subrange(0, i) == cards);
    } else {
        lemma_accepted_prefix(game, cards, f, i, cards.len() as int);
        assert(cards.subrange(0, cards.len() as int) == cards);
        let a = accepted(game, cards.subrange(0, i), f);
        let b = accepted(game, cards, f);
        assert(b.take(n as int) =~= a.take(n as int));
    }
}

/// The cards accepted among a prefix begin the cards accepted among a longer prefix.
proof fn lemma_accepted_prefix(game: GameState, cards: Seq<ObjectId>, f: CardFilter, i: int, j: int)
    requires
        0 <= i <= j <= cards.len(),
    ensures
        accepted(game, cards.subrange(0, i), f).len() <= accepted(game, cards.subrange(0, j), f).len(),
        forall|k: int|
            0 <= k < accepted(game, cards.subrange(0, i), f).len() ==> #[trigger] accepted(
                game,
                cards.subrange(0, i),
                f,
            )[k] == accepted(game, cards.subrange(0, j), f)[k],
    decreases j - i,
{
    if i < j {
        lemma_accepted_prefix(game, cards, f, i, j - 1);
        assert(cards.subrange(0, j).drop_last() == cards.subrange(0, j - 1));
    }
}

/// Moving objects leaves the record of library searches as it was.
proof fn lemma_moves_keep_searches(before: GameState, after: GameState, ids: Seq<ObjectId>, to: Zone)
    requires
        moved_all(before, after, ids, to),
    ensures
        after.library_searches_this_turn == before.library_searches_this_turn,
{
    let states = choose|states: Seq<GameState>|
        #[trigger] move_chain(states, ids, to) && states[0] == before && states.last() == after;
    lemma_chain_keeps_searches(states, ids, to, states.len() - 1);
}

/// Each state of a chain of moves has the searches of the first.
proof fn lemma_chain_keeps_searches(states: Seq<GameState>, ids: Seq<ObjectId>, to: Zone, j: int)
    requires
        move_chain(states, ids, to),
        0 <= j < states.len(),
    ensures
        states[j].library_searches_this_turn == states[0].library_searches_this_turn,
    decreases j,
{
    if j > 0 {
        lemma_chain_keeps_searches(states, ids, to, j - 1);
        assert(moved_to(states[j - 1], states[j], ids[j - 1], to));
    }
}

/// Whether `p` is among `searches`.
fn has_searched(searches: &Vec<PlayerId>, p: PlayerId) -> (b: bool)
    ensures
        b == searches@.contains(p),
{
    contains_player(searches, p)
}

/// `r` reports that the effect acted on `n` things.
pub open spec fn counted(r: Result<EffectOutcome, ExecutionError>, n: u32) -> bool {
    r == Ok::<EffectOutcome, ExecutionError>(EffectOutcome { result: EffectResult::Count(n) })
}

/// `after` is `before` with one more search by `p` recorded, and the cards
/// `chosen` moved to the destination.
pub open spec fn search_done(
    before: GameState,
    after: GameState,
    p: PlayerId,
    chosen: Seq<ObjectId>,
    destination: SearchDestination,
) -> bool {
    let marked = GameState { library_searches_this_turn: after.library_searches_this_turn, ..before };
    let i = p.0 as int;
    &&& after.library_searches_this_turn@ == searched_by(before.library_searches_this_turn@, p)
    &&& if destination == SearchDestination::TopOfLibrary {
        &&& after == (GameState { players: after.players, ..marked })
        &&& after.players@ == before.players@.update(i, after.players@[i])
        &&& after.players@[i] == (Player { library: after.players@[i].library, ..before.players@[i] })
        &&& after.players@[i].library@ == chosen + without_all(before.players@[i].library@, chosen)
    } else {
        moved_all(marked, after, chosen, destination_zone(destination))
    }
}

/// What carrying out effect `e` for player `p` does: `r` is what it returns
/// and `after` the game it leaves.
pub open spec fn carried_out(
    e: Effect,
    before: GameState,
    after: GameState,
    ctx: ExecutionContext,
    r: Result<EffectOutcome, ExecutionError>,
) -> bool {
    let p = ctx.controller;
    match e {
        Effect::SearchLibrary { filter, max_count, destination, reveal } => {
            if before.cant_effects.cant_search@.contains(p) {
                &&& r == Ok::<EffectOutcome, ExecutionError>(EffectOutcome { result: EffectResult::Prevented })
                &&& after == before
            } else {
                match before.player_of(p) {
                    None => counted(r, 0) && after == before,
                    Some(pl) => {
                        let chosen = first_n(accepted(before, pl.library@, filter), max_count);
                        &&& if chosen.len() == 0 {
                            counted(r, 0)
                        } else {
                            r matches Ok(o) && o.result matches EffectResult::Objects(v) && v@ == chosen
                        }
                        &&& search_done(before, after, p, chosen, destination)
                    },
                }
            }
        },
        Effect::Draw(n) => match before.player_of(p) {
            None => counted(r, 0) && after == before,
            Some(pl) => {
                let cards = first_n(pl.library@, n);
                counted(r, cards.len() as u32) && moved_all(before, after, cards, Zone::Hand)
            },
        },
        Effect::Mill(n) => match before.player_of(p) {
            None => counted(r, 0) && after == before,
            Some(pl) => {
                let cards = first_n(pl.library@, n);
                counted(r, cards.len() as u32) && moved_all(before, after, cards, Zone::Graveyard)
            },
        },
        Effect::LoseLife(n) => match before.player_of(p) {
            None => counted(r, 0) && after == before,
            Some(pl) => {
                let life = if pl.life - n >= i64::MIN { (pl.life - n) as i64 } else { i64::MIN };
                &&& counted(r, n)
                &&& after == (GameState { players: after.players, ..before })
                &&& after.players@ == before.players@.update(p.0 as int, Player { life, ..pl })
            },
        },
        Effect::AddManaOfAnyColor { available_colors } => mana_added(before, after, p, default_color(available_colors), r),
        Effect::AddManaOfImprintedColor => {
            let cards = match before.object_of(ctx.source) {
                Some(o) => o.imprinted@,
                None => Seq::empty(),
            };
            match (imprinted_mana(before, cards), before.player_of(p)) {
                (Some(c), Some(pl)) => {
                    &&& counted(r, 1)
                    &&& after == (GameState { players: after.players, ..before })
                    &&& after.players@ == before.players@.update(
                        p.0 as int,
                        Player { mana_pool: pl.mana_pool.with_one(c), ..pl },
                    )
                },
                _ => counted(r, 0) && after == before,
            }
        },
        _ => r == Err::<EffectOutcome, ExecutionError>(ExecutionError::Unsupported) && after == before,
    }
}

/// The color a mana ability that offers `available` colors adds when nobody
/// chooses: the first color offered, white when any color may be chosen,
/// and none when no color is offered.
pub open spec fn default_color(available: Option<Vec<Color>>) -> Option<Color> {
    match available {
        Some(v) => if v@.len() > 0 {
            Some(v@[0])
        } else {
            None
        },
        None => Some(Color::White),
    }
}

/// Whether `c` is among the colors a mana ability offers.
pub open spec fn offered(available: Option<Vec<Color>>, c: Color) -> bool {
    match available {
        Some(v) => v@.contains(c),
        None => true,
    }
}

/// One mana of `color` is added to the pool of player `p`, if there is a
/// color and the player is seated; otherwise nothing happens and the count is 0.
pub open spec fn mana_added(
    before: GameState,
    after: GameState,
    p: PlayerId,
    color: Option<Color>,
    r: Result<EffectOutcome, ExecutionError>,
) -> bool {
    match (color, before.player_of(p)) {
        (Some(c), Some(pl)) => {
            &&& counted(r, 1)
            &&& after == (GameState { players: after.players, ..before })
            &&& after.players@ == before.players@.update(
                p.0 as int,
                Player { mana_pool: pl.mana_pool.with_one(c), ..pl },
            )
        },
        _ => counted(r, 0) && after == before,
    }
}

/// The first color of `s` in the order white, blue, black, red, green.
pub open spec fn first_color(s: ColorSet) -> Option<Color> {
    if s.white {
        Some(Color::White)
    } else if s.blue {
        Some(Color::Blue)
    } else if s.black {
        Some(Color::Black)
    } else if s.red {
        Some(Color::Red)
    } else if s.green {
        Some(Color::Green)
    } else {
        None
    }
}

/// The first color of card `id`, if it is in exile.
pub open spec fn exiled_color(game: GameState, id: ObjectId) -> Option<Color> {
    match game.object_of(id) {
        Some(o) => if o.zone == Zone::Exile {
            first_color(o.colors)
        } else {
            None
        },
        None => None,
    }
}

/// The mana an imprint mana ability makes from the imprinted `cards`: the
/// first color of the first of them that is still in exile and has a color.
pub open spec fn imprinted_mana(game: GameState, cards: Seq<ObjectId>) -> Option<Color>
    decreases cards.len(),
{
    if cards.len() == 0 {
        None
    } else {
        match exiled_color(game, cards[0]) {
            Some(c) => Some(c),
            None => imprinted_mana(game, cards.drop_first()),
        }
    }
}

/// The first color of `s` in the order white, blue, black, red, green.
fn first_color_of(s: ColorSet) -> (r: Option<Color>)
    ensures
        r == first_color(s),
{
    if s.white {
        Some(Color::White)
    } else if s.blue {
        Some(Color::Blue)
    } else if s.black {
        Some(Color::Black)
    } else if s.red {
        Some(Color::Red)
    } else if s.green {
        Some(Color::Green)
    } else {
        None
    }
}

/// The mana an imprint mana ability makes from the imprinted `cards`.
fn imprinted_mana_of(game: &GameState, cards: &Vec<ObjectId>) -> (r: Option<Color>)
    ensures
        r == imprinted_mana(*game, cards@),
{
    let mut i: usize = 0;
    assert(cards@.subrange(0, cards@.len() as int) == cards@);
    while i < cards.len()
        invariant
            i <= cards@.len(),
            imprinted_mana(*game, cards@) == imprinted_mana(*game, cards@.subrange(i as int, cards@.len() as int)),
        decreases cards.len() - i,
    {
        let ghost rest = cards@.subrange(i as int, cards@.len() as int);
        assert(rest.drop_first() == cards@.subrange(i + 1, cards@.len() as int));
        assert(rest[0] == cards@[i as int]);
        let c = match game.object(cards[i]) {
            Some(o) => if o.zone == Zone::Exile {
                first_color_of(o.colors)
            } else {
                None
            },
            None => None,
        };
        if c.is_some() {
            return c;
        }
        i = i + 1;
    }
    None
}

impl Effect {
    /// Carries out this effect for the controller of `ctx`, taking the default
    /// choice wherever the effect lets the player choose.
    ///
    /// A library search is prevented when an effect says the player can't
    /// search libraries; otherwise it records the search, finds the first
    /// matching cards (up to the number allowed) in library order, and puts
    /// them into the hand or graveyard, or on top of the library. The library
    /// is not reordered otherwise: this library has no random source to
    /// shuffle with. Drawing and milling take cards from the top of the
    /// library; losing life lowers the life total (saturating). A mana
    /// ability adds one mana to the controller's pool: of the first color it
    /// offers (white when any color may be chosen), or of the first color of
    /// the first imprinted card still in exile. Other effects are not carried
    /// out here and leave the game unchanged.
    pub fn execute(&self, game: &mut GameState, ctx: &mut ExecutionContext) -> (r: Result<EffectOutcome, ExecutionError>)
        ensures
            *final(ctx) == *old(ctx),
            carried_out(*self, *old(game), *final(game), *old(ctx), r),
    {
        let p = ctx.controller;
        let i = p.0 as usize;
        match self {
            Effect::SearchLibrary { filter, max_count, destination, reveal } => {
                if contains_player(&game.cant_effects.cant_search, p) {
                    return Ok(EffectOutcome { result: EffectResult::Prevented });
                }
                if i >= game.players.len() {
                    return Ok(EffectOutcome { result: EffectResult::Count(0) });
                }
                let ghost before = *game;
                let chosen = first_accepted(game, &game.players[i].library, filter, *max_count);
                if !has_searched(&game.library_searches_this_turn, p) {
                    game.library_searches_this_turn.push(p);
                }
                let ghost marked = *game;
                match destination {
                    SearchDestination::TopOfLibrary => {
                        let mut library: Vec<ObjectId> = Vec::new();
                        let mut k: usize = 0;
                        while k < chosen.len()
                            invariant
                                k <= chosen@.len(),
                                library@ == chosen@.subrange(0, k as int),
                            decreases chosen.len() - k,
                        {
                            library.push(chosen[k]);
                            k = k + 1;
                        }
                        assert(chosen@.subrange(0, chosen@.len() as int) == chosen@);
                        let ghost base = library@;
                        let old_library = &game.players[i].library;
                        let mut m: usize = 0;
                        while m < old_library.len()
                            invariant
                                m <= old_library@.len(),
                                base == chosen@,
                                library@ == base + without_all(old_library@.subrange(0, m as int), chosen@),
                            decreases old_library.len() - m,
                        {
                            assert(old_library@.subrange(0, m + 1).drop_last() == old_library@.subrange(
                                0,
                                m as int,
                            ));
                            if !contains_object(&chosen, old_library[m]) {
                                library.push(old_library[m]);
                            }
                            m = m + 1;
                        }
                        assert(old_library@.subrange(0, old_library@.len() as int) == old_library@);
                        game.players[i].library = library;
                    },
                    SearchDestination::Hand => {
                        game.move_objects(&chosen, Zone::Hand);
                        proof {
                            lemma_moves_keep_searches(marked, *game, chosen@, Zone::Hand);
                        }
                    },
                    SearchDestination::Graveyard => {
                        game.move_objects(&chosen, Zone::Graveyard);
                        proof {
                            lemma_moves_keep_searches(marked, *game, chosen@, Zone::Graveyard);
                        }
                    },
                }
                if chosen.len() == 0 {
                    Ok(EffectOutcome { result: EffectResult::Count(0) })
                } else {
                    Ok(EffectOutcome { result: EffectResult::Objects(chosen) })
                }
            },
            Effect::Draw(n) => {
                if i >= game.players.len() {
                    return Ok(EffectOutcome { result: EffectResult::Count(0) });
                }
                let cards = top_cards(&game.players[i].library, *n);
                let count = cards.len() as u32;
                game.move_objects(&cards, Zone::Hand);
                Ok(EffectOutcome { result: EffectResult::Count(count) })
            },
            Effect::Mill(n) => {
                if i >= game.players.len() {
                    return Ok(EffectOutcome { result: EffectResult::Count(0) });
                }
                let cards = top_cards(&game.players[i].library, *n);
                let count = cards.len() as u32;
                game.move_objects(&cards, Zone::Graveyard);
                Ok(EffectOutcome { result: EffectResult::Count(count) })
            },
            Effect::LoseLife(n) => {
                if i >= game.players.len() {
                    return Ok(EffectOutcome { result: EffectResult::Count(0) });
                }
                let life = game.players[i].life;
                let amount = *n as i64;
                let new_life = if life >= i64::MIN + amount { life - amount } else { i64::MIN };
                game.players[i].life = new_life;
                Ok(EffectOutcome { result: EffectResult::Count(*n) })
            },
            Effect::AddManaOfAnyColor { available_colors } => {
                let choice = match available_colors {
                    Some(v) => if v.len() > 0 {
                        Some(v[0])
                    } else {
                        None
                    },
                    None => Some(Color::White),
                };
                match choice {
                    Some(c) => {
                        if i >= game.players.len() {
                            return Ok(EffectOutcome { result: EffectResult::Count(0) });
                        }
                        let mut pool = game.players[i].mana_pool;
                        pool.add_one(c);
                        game.players[i].mana_pool = pool;
                        Ok(EffectOutcome { result: EffectResult::Count(1) })
                    },
                    None => Ok(EffectOutcome { result: EffectResult::Count(0) }),
                }
            },
            Effect::AddManaOfImprintedColor => {
                let cards = game.get_imprinted_cards(ctx.source);
                match imprinted_mana_of(game, &cards) {
                    Some(c) => {
                        if i >= game.players.len() {
                            return Ok(EffectOutcome { result: EffectResult::Count(0) });
                        }
                        let mut pool = game.players[i].mana_pool;
                        pool.add_one(c);
                        game.players[i].mana_pool = pool;
                        Ok(EffectOutcome { result: EffectResult::Count(1) })
                    },
                    None => Ok(EffectOutcome { result: EffectResult::Count(0) }),
                }
            },
            _ => Err(ExecutionError::Unsupported),
        }
    }
}

/// The top `n` cards (all of them if there are fewer).
fn top_cards(library: &Vec<ObjectId>, n: u32) -> (r: Vec<ObjectId>)
    ensures
        r@ == first_n(library@, n),
        r@.len() <= n,
{
    let mut r: Vec<ObjectId> = Vec::new();
    let mut j: usize = 0;
    while j < library.len() && j < n as usize
        invariant
            j <= library@.len(),
            j <= n,
            r@ == library@.take(j as int),
        decreases library.len() - j,
    {
        r.push(library[j]);
        j = j + 1;
    }
    proof {
        if (n as int) > library@.len() {
            assert(library@.take(library@.len() as int) == library@);
        }
    }
    r
}

impl Effect {
    /// Carries out this effect as `execute` does, except that a mana ability
    /// that may add one of several colors asks `dm` which: the player's
    /// answer if it is one of the colors offered, else the first color
    /// offered (white when any color may be chosen).
    pub fn execute_with<D: DecisionMaker>(
        &self,
        game: &mut GameState,
        ctx: &mut ExecutionContext,
        dm: &mut D,
    ) -> (r: Result<EffectOutcome, ExecutionError>)
        ensures
            *final(ctx) == *old(ctx),
            match *self {
                Effect::AddManaOfAnyColor { available_colors } => match default_color(available_colors) {
                    None => counted(r, 0) && *final(game) == *old(game),
                    Some(_) => exists|c: Color|
                        #[trigger] offered(available_colors, c) && mana_added(
                            *old(game),
                            *final(game),
                            old(ctx).controller,
                            Some(c),
                            r,
                        ),
                },
                _ => carried_out(*self, *old(game), *final(game), *old(ctx), r),
            },
    {
        match self {
            Effect::AddManaOfAnyColor { available_colors } => {
                let default = match available_colors {
                    Some(v) => if v.len() > 0 {
                        v[0]
                    } else {
                        return Ok(EffectOutcome { result: EffectResult::Count(0) });
                    },
                    None => Color::White,
                };
                let offered_colors: Option<&[Color]> = match available_colors {
                    Some(v) => Some(v.as_slice()),
                    None => None,
                };
                let c = ask_mana_color(game, dm, ctx.controller, ctx.source, offered_colors, default);
                assert(offered(*available_colors, c));
                let i = ctx.controller.0 as usize;
                if i >= game.players.len() {
                    return Ok(EffectOutcome { result: EffectResult::Count(0) });
                }
                let mut pool = game.players[i].mana_pool;
                pool.add_one(c);
                game.players[i].mana_pool = pool;
                let r = Ok(EffectOutcome { result: EffectResult::Count(1) });
                assert(mana_added(*old(game), *game, ctx.controller, Some(c), r));
                r
            },
            _ => self.execute(game, ctx),
        }
    }
}

} // verus!
