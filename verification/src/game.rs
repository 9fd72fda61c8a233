//! The game state as the rules of this library read it.
//!
//! Objects carry the facts that the combat rules compute for them
//! (whether they can attack, how many blockers they need or allow), and the
//! game keeps the restrictions that effects impose, as plain values.

use vstd::prelude::*;
use crate::ids::{ObjectId, PlayerId, contains_object, copy_objects};
use crate::types::{CardType, Color, ColorSet, Zone, contains_card_type};
use crate::statics::{StaticAbility, contains_static};
use crate::card::{Card, PowerToughness};
use crate::cards::ability::Ability;
use crate::mana::{ManaPool, empty_pool};
use crate::types::copy_card_types;

verus! {

/// A game object: a card or token in some zone.
#[derive(Debug, Clone)]
pub struct GameObject {
    pub id: ObjectId,
    pub name: String,
    pub owner: PlayerId,
    pub controller: PlayerId,
    pub zone: Zone,
    pub card_types: Vec<CardType>,
    pub colors: ColorSet,
    /// The mana value of the card the object represents.
    pub mana_value: u32,
    pub tapped: bool,
    /// Printed power and toughness, if any.
    pub power_toughness: Option<PowerToughness>,
    /// The abilities of the card the object represents.
    pub abilities: Vec<Ability>,
    /// The object's own static abilities.
    pub base_static_abilities: Vec<StaticAbility>,
    /// The static abilities the object has: its own and those that other
    /// permanents grant it.
    pub static_abilities: Vec<StaticAbility>,
    /// Cards exiled with this object's imprint ability.
    pub imprinted: Vec<ObjectId>,
    /// Whether the combat rules let this creature attack at all
    /// (no defender, no summoning sickness unless it has haste, ...).
    pub can_attack: bool,
    /// Fewest creatures that may block this creature (2 for menace).
    pub min_blockers: usize,
    /// Most creatures that may block this creature, if limited.
    pub max_blockers: Option<usize>,
}

/// A player.
#[derive(Debug, Clone)]
pub struct Player {
    pub id: PlayerId,
    pub name: String,
    pub life: i64,
    pub energy_counters: u32,
    pub in_game: bool,
    /// Library, top card first.
    pub library: Vec<ObjectId>,
    pub hand: Vec<ObjectId>,
    pub graveyard: Vec<ObjectId>,
    pub mana_pool: ManaPool,
    /// This player's commanders.
    pub commanders: Vec<ObjectId>,
}

impl Player {
    /// Whether this player is still in the game.
    pub fn is_in_game(&self) -> (b: bool)
        ensures
            b == self.in_game,
    {
        self.in_game
    }
}

/// A pair of a blocker and an attacker.
#[derive(Debug, Clone, Copy, PartialEq, Eq, Structural)]
pub struct BlockPair {
    pub blocker: ObjectId,
    pub attacker: ObjectId,
}

/// A pair of an attacker and a player it may not attack.
#[derive(Debug, Clone, Copy, PartialEq, Eq, Structural)]
pub struct AttackPair {
    pub attacker: ObjectId,
    pub player: PlayerId,
}

/// A creature that must block the given attackers if able.
#[derive(Debug, Clone)]
pub struct MustBlockRequirement {
    pub blocker: ObjectId,
    pub attackers: Vec<ObjectId>,
}

/// Restrictions that effects put on objects and players.
#[derive(Debug, Clone)]
pub struct CantEffects {
    /// Creatures that can't attack.
    pub cant_attack: Vec<ObjectId>,
    /// Creatures that can't block.
    pub cant_block: Vec<ObjectId>,
    /// Creatures that can't be blocked.
    pub cant_be_blocked: Vec<ObjectId>,
    /// Blockers that can't block particular attackers.
    pub cant_block_attacker: Vec<BlockPair>,
    /// "Must block this attacker if able" requirements.
    pub must_block_specific_attackers: Vec<MustBlockRequirement>,
    /// Players who can't search libraries.
    pub cant_search: Vec<PlayerId>,
}

/// What a spell or ability can target.
#[derive(Debug, Clone, Copy, PartialEq, Eq, Structural)]
pub enum Target {
    /// A player.
    Player(PlayerId),
    /// An object.
    Object(ObjectId),
}

/// A kind of counter.
#[derive(Debug, Clone, Copy, PartialEq, Eq, Structural)]
pub enum CounterType {
    PlusOnePlusOne,
    MinusOneMinusOne,
    Loyalty,
    Charge,
    Vigilance,
    Descent,
}

/// The game state.
#[derive(Debug, Clone)]
pub struct GameState {
    /// Players by seat: `players[i]` has id `PlayerId(i)`.
    pub players: Vec<Player>,
    pub objects: Vec<GameObject>,
    pub battlefield: Vec<ObjectId>,
    pub exile: Vec<ObjectId>,
    pub active_player: PlayerId,
    pub cant_effects: CantEffects,
    /// Attackers the attack rules bar from attacking particular players.
    pub attack_restrictions: Vec<AttackPair>,
    /// Blocker/attacker pairs the blocking rules (evasion, protection) forbid.
    pub block_restrictions: Vec<BlockPair>,
    pub next_object_id: u64,
    /// Players who searched their library this turn.
    pub library_searches_this_turn: Vec<PlayerId>,
}

/// Index of the first object with id `id`, searching from position `i`.
pub open spec fn object_index_from(objs: Seq<GameObject>, id: ObjectId, i: int) -> Option<int>
    decreases objs.len() - i,
{
    if i < 0 || i >= objs.len() {
        None
    } else if objs[i].id == id {
        Some(i)
    } else {
        object_index_from(objs, id, i + 1)
    }
}

/// The first object with the given id, if any.
pub open spec fn find_object(objs: Seq<GameObject>, id: ObjectId) -> Option<GameObject> {
    match object_index_from(objs, id, 0) {
        Some(i) => Some(objs[i]),
        None => None,
    }
}

/// `object_index_from` finds an index holding the id, and none before it.
pub proof fn lemma_object_index_from(objs: Seq<GameObject>, id: ObjectId, i: int)
    requires
        0 <= i,
    ensures
        object_index_from(objs, id, i) matches Some(k) ==> i <= k < objs.len() && objs[k].id == id
            && forall|j: int| i <= j < k ==> objs[j].id != id,
        object_index_from(objs, id, i) is None ==> forall|j: int|
            i <= j < objs.len() ==> objs[j].id != id,
    decreases objs.len() - i,
{
    if i < objs.len() && objs[i].id != id {
        lemma_object_index_from(objs, id, i + 1);
    }
}

/// Whether the pair `(blocker, attacker)` occurs in `pairs`.
pub fn contains_block_pair(pairs: &Vec<BlockPair>, blocker: ObjectId, attacker: ObjectId) -> (found: bool)
    ensures
        found == pairs@.contains(BlockPair { blocker, attacker }),
{
    let target = BlockPair { blocker, attacker };
    let mut i: usize = 0;
    while i < pairs.len()
        invariant
            i <= pairs.len(),
            target == (BlockPair { blocker, attacker }),
            forall|j: int| 0 <= j < i ==> pairs@[j] != target,
        decreases pairs.len() - i,
    {
        if pairs[i] == target {
            assert(pairs@[i as int] == target);
            return true;
        }
        i = i + 1;
    }
    false
}

/// Whether the pair `(attacker, player)` occurs in `pairs`.
pub fn contains_attack_pair(pairs: &Vec<AttackPair>, attacker: ObjectId, player: PlayerId) -> (found: bool)
    ensures
        found == pairs@.contains(AttackPair { attacker, player }),
{
    let target = AttackPair { attacker, player };
    let mut i: usize = 0;
    while i < pairs.len()
        invariant
            i <= pairs.len(),
            target == (AttackPair { attacker, player }),
            forall|j: int| 0 <= j < i ==> pairs@[j] != target,
        decreases pairs.len() - i,
    {
        if pairs[i] == target {
            assert(pairs@[i as int] == target);
            return true;
        }
        i = i + 1;
    }
    false
}

impl GameState {
    /// The object with the given id, if any.
    pub open spec fn object_of(self, id: ObjectId) -> Option<GameObject> {
        find_object(self.objects@, id)
    }

    /// The player with the given id, if seated.
    pub open spec fn player_of(self, id: PlayerId) -> Option<Player> {
        if (id.0 as int) < self.players@.len() {
            Some(self.players@[id.0 as int])
        } else {
            None
        }
    }

    /// Whether the object exists and has the card type.
    pub open spec fn has_card_type(self, id: ObjectId, t: CardType) -> bool {
        self.object_of(id) matches Some(o) && o.card_types@.contains(t)
    }

    /// Whether the object exists and is tapped.
    pub open spec fn tapped_spec(self, id: ObjectId) -> bool {
        self.object_of(id) matches Some(o) && o.tapped
    }

    /// Whether the object exists and has the static ability.
    pub open spec fn has_static(self, id: ObjectId, a: StaticAbility) -> bool {
        self.object_of(id) matches Some(o) && o.static_abilities@.contains(a)
    }

    /// Index of the object with the given id, if any.
    pub fn object_index(&self, id: ObjectId) -> (r: Option<usize>)
        ensures
            r matches Some(i) ==> object_index_from(self.objects@, id, 0) == Some(i as int)
                && i < self.objects@.len() && self.objects@[i as int].id == id,
            r is None ==> object_index_from(self.objects@, id, 0) is None,
    {
        let mut i: usize = 0;
        while i < self.objects.len()
            invariant
                i <= self.objects.len(),
                object_index_from(self.objects@, id, 0) == object_index_from(self.objects@, id, i as int),
            decreases self.objects.len() - i,
        {
            if self.objects[i].id == id {
                return Some(i);
            }
            i = i + 1;
        }
        None
    }

    /// The object with the given id, if any.
    pub fn object(&self, id: ObjectId) -> (r: Option<&GameObject>)
        ensures
            match r {
                Some(o) => self.object_of(id) == Some(*o),
                None => self.object_of(id) is None,
            },
    {
        match self.object_index(id) {
            Some(i) => Some(&self.objects[i]),
            None => None,
        }
    }

    /// The player with the given id, if seated.
    pub fn player(&self, id: PlayerId) -> (r: Option<&Player>)
        ensures
            match r {
                Some(p) => self.player_of(id) == Some(*p),
                None => self.player_of(id) is None,
            },
    {
        let i = id.0 as usize;
        if i < self.players.len() {
            Some(&self.players[i])
        } else {
            None
        }
    }

    /// Whether the object exists and has the card type.
    pub fn object_has_card_type(&self, id: ObjectId, t: CardType) -> (b: bool)
        ensures
            b == self.has_card_type(id, t),
    {
        match self.object(id) {
            Some(o) => contains_card_type(&o.card_types, t),
            None => false,
        }
    }

    /// Whether the object exists and is tapped.
    pub fn is_tapped(&self, id: ObjectId) -> (b: bool)
        ensures
            b == self.tapped_spec(id),
    {
        match self.object(id) {
            Some(o) => o.tapped,
            None => false,
        }
    }

    /// Whether the object exists and has the static ability.
    pub fn object_has_ability(&self, id: ObjectId, a: &StaticAbility) -> (b: bool)
        ensures
            b == self.has_static(id, *a),
    {
        match self.object(id) {
            Some(o) => contains_static(&o.static_abilities, a),
            None => false,
        }
    }

    /// Whether no effect says this creature can't attack.
    pub fn can_attack(&self, id: ObjectId) -> (b: bool)
        ensures
            b == !self.cant_effects.cant_attack@.contains(id),
    {
        !contains_object(&self.cant_effects.cant_attack, id)
    }

    /// Whether no effect says this creature can't block.
    pub fn can_block(&self, id: ObjectId) -> (b: bool)
        ensures
            b == !self.cant_effects.cant_block@.contains(id),
    {
        !contains_object(&self.cant_effects.cant_block, id)
    }

    /// Whether no effect says this creature can't be blocked.
    pub fn can_be_blocked(&self, id: ObjectId) -> (b: bool)
        ensures
            b == !self.cant_effects.cant_be_blocked@.contains(id),
    {
        !contains_object(&self.cant_effects.cant_be_blocked, id)
    }

    /// Whether no effect says this blocker can't block this attacker.
    pub fn can_block_attacker(&self, blocker: ObjectId, attacker: ObjectId) -> (b: bool)
        ensures
            b == !self.cant_effects.cant_block_attacker@.contains(BlockPair { blocker, attacker }),
    {
        !contains_block_pair(&self.cant_effects.cant_block_attacker, blocker, attacker)
    }

    /// Taps the object, if it exists.
    pub fn tap(&mut self, id: ObjectId)
        ensures
            final(self).players == old(self).players,
            final(self).battlefield == old(self).battlefield,
            final(self).exile == old(self).exile,
            final(self).active_player == old(self).active_player,
            final(self).next_object_id == old(self).next_object_id,
            final(self).library_searches_this_turn == old(self).library_searches_this_turn,
            final(self).cant_effects == old(self).cant_effects,
            final(self).attack_restrictions == old(self).attack_restrictions,
            final(self).block_restrictions == old(self).block_restrictions,
            final(self).objects@.len() == old(self).objects@.len(),
            forall|i: int| 0 <= i < old(self).objects@.len() && Some(i) != object_index_from(old(self).objects@, id, 0)
                ==> #[trigger] final(self).objects@[i] == old(self).objects@[i],
            object_index_from(old(self).objects@, id, 0) matches Some(k) ==> final(self).objects@[k]
                == (GameObject { tapped: true, ..old(self).objects@[k] }),
    {
        proof {
            lemma_object_index_from(self.objects@, id, 0);
        }
        match self.object_index(id) {
            Some(i) => {
                self.objects[i].tapped = true;
            }
            None => {}
        }
    }
}

impl GameState {
    /// Records that `card` was exiled with the imprint ability of `source`
    /// (nothing happens if there is no such source object).
    pub fn imprint_card(&mut self, source: ObjectId, card: ObjectId)
        ensures
            match object_index_from(old(self).objects@, source, 0) {
                None => *final(self) == *old(self),
                Some(k) => {
                    let o = old(self).objects@[k];
                    &&& *final(self) == (GameState { objects: final(self).objects, ..*old(self) })
                    &&& final(self).objects@ == old(self).objects@.update(
                        k,
                        GameObject { imprinted: final(self).objects@[k].imprinted, ..o },
                    )
                    &&& final(self).objects@[k].imprinted@ == o.imprinted@.push(card)
                },
            },
    {
        if let Some(k) = self.object_index(source) {
            let ghost before = self.objects@;
            self.objects[k].imprinted.push(card);
            assert(self.objects@ == before.update(
                k as int,
                GameObject { imprinted: self.objects@[k as int].imprinted, ..before[k as int] },
            ));
        }
    }

    /// Whether `source` exists and has imprinted at least one card.
    pub fn has_imprinted_cards(&self, source: ObjectId) -> (b: bool)
        ensures
            b == (self.object_of(source) matches Some(o) && o.imprinted@.len() > 0),
    {
        match self.object(source) {
            Some(o) => o.imprinted.len() > 0,
            None => false,
        }
    }

    /// The cards `source` has imprinted, in the order they were imprinted
    /// (none if there is no such object).
    pub fn get_imprinted_cards(&self, source: ObjectId) -> (r: Vec<ObjectId>)
        ensures
            r@ == match self.object_of(source) {
                Some(o) => o.imprinted@,
                None => Seq::empty(),
            },
    {
        match self.object(source) {
            Some(o) => copy_objects(&o.imprinted),
            None => Vec::new(),
        }
    }
}

/// `s` with every occurrence of `id` removed.
pub open spec fn without(s: Seq<ObjectId>, id: ObjectId) -> Seq<ObjectId>
    decreases s.len(),
{
    if s.len() == 0 {
        s
    } else {
        let rest = without(s.drop_last(), id);
        if s.last() == id {
            rest
        } else {
            rest.push(s.last())
        }
    }
}

/// A zone list after `id` moves: removed if it is leaving this zone, added
/// at the end if it is entering it.
pub open spec fn relocated(s: Seq<ObjectId>, id: ObjectId, leaving: bool, entering: bool) -> Seq<ObjectId> {
    let t = if leaving { without(s, id) } else { s };
    if entering { t.push(id) } else { t }
}

/// Updates a zone list for a move of `id`.
pub fn relocate(v: &mut Vec<ObjectId>, id: ObjectId, leaving: bool, entering: bool)
    ensures
        final(v)@ == relocated(old(v)@, id, leaving, entering),
{
    if leaving {
        let mut out: Vec<ObjectId> = Vec::new();
        let mut i: usize = 0;
        while i < v.len()
            invariant
                i <= v.len(),
                out@ == without(v@.subrange(0, i as int), id),
            decreases v.len() - i,
        {
            assert(v@.subrange(0, i + 1).drop_last() == v@.subrange(0, i as int));
            if v[i] != id {
                out.push(v[i]);
            }
            i = i + 1;
        }
        assert(v@.subrange(0, v@.len() as int) == v@);
        *v = out;
    }
    if entering {
        v.push(id);
    }
}

/// The two players agree on everything but their zone lists.
pub open spec fn same_player_but_lists(a: Player, b: Player) -> bool {
    &&& a.id == b.id
    &&& a.name == b.name
    &&& a.life == b.life
    &&& a.energy_counters == b.energy_counters
    &&& a.in_game == b.in_game
    &&& a.mana_pool == b.mana_pool
    &&& a.commanders == b.commanders
}

impl GameState {
    /// Every object id is below the next id to be handed out.
    pub open spec fn ids_fresh(self) -> bool {
        forall|i: int| 0 <= i < self.objects@.len() ==> (#[trigger] self.objects@[i]).id.0 < self.next_object_id
    }

    /// Players are seated by index.
    pub open spec fn seated(self) -> bool {
        forall|i: int| 0 <= i < self.players@.len() ==> (#[trigger] self.players@[i]).id == PlayerId(i as u32)
    }

    /// A game with the named players, each at `starting_life`, with empty
    /// zones; the first player is active.
    pub fn new(player_names: Vec<String>, starting_life: i64) -> (g: GameState)
        requires
            player_names@.len() <= u32::MAX,
        ensures
            g.players@.len() == player_names@.len(),
            forall|i: int| 0 <= i < player_names@.len() ==> {
                let p = #[trigger] g.players@[i];
                &&& p.id == PlayerId(i as u32)
                &&& p.name@ == player_names@[i]@
                &&& p.life == starting_life
                &&& p.energy_counters == 0
                &&& p.in_game
                &&& p.library@.len() == 0
                &&& p.hand@.len() == 0
                &&& p.graveyard@.len() == 0
                &&& p.mana_pool == empty_pool()
                &&& p.commanders@.len() == 0
            },
            g.objects@.len() == 0,
            g.battlefield@.len() == 0,
            g.exile@.len() == 0,
            g.active_player == PlayerId(0),
            g.cant_effects.cant_attack@.len() == 0,
            g.cant_effects.cant_block@.len() == 0,
            g.cant_effects.cant_be_blocked@.len() == 0,
            g.cant_effects.cant_block_attacker@.len() == 0,
            g.cant_effects.must_block_specific_attackers@.len() == 0,
            g.cant_effects.cant_search@.len() == 0,
            g.attack_restrictions@.len() == 0,
            g.block_restrictions@.len() == 0,
            g.next_object_id == 1,
            g.library_searches_this_turn@.len() == 0,
            g.ids_fresh(),
            g.seated(),
    {
        let mut players: Vec<Player> = Vec::new();
        let mut i: usize = 0;
        while i < player_names.len()
            invariant
                i <= player_names@.len(),
                player_names@.len() <= u32::MAX,
                players@.len() == i,
                forall|k: int| 0 <= k < i ==> {
                    let p = #[trigger] players@[k];
                    &&& p.id == PlayerId(k as u32)
                    &&& p.name@ == player_names@[k]@
                    &&& p.life == starting_life
                    &&& p.energy_counters == 0
                    &&& p.in_game
                    &&& p.library@.len() == 0
                    &&& p.hand@.len() == 0
                    &&& p.graveyard@.len() == 0
                    &&& p.mana_pool == empty_pool()
                    &&& p.commanders@.len() == 0
                },
            decreases player_names@.len() - i,
        {
            players.push(Player {
                id: PlayerId(i as u32),
                name: player_names[i].clone(),
                life: starting_life,
                energy_counters: 0,
                in_game: true,
                library: Vec::new(),
                hand: Vec::new(),
                graveyard: Vec::new(),
                mana_pool: ManaPool::new(),
                commanders: Vec::new(),
            });
            i = i + 1;
        }
        GameState {
            players,
            objects: Vec::new(),
            battlefield: Vec::new(),
            exile: Vec::new(),
            active_player: PlayerId(0),
            cant_effects: CantEffects {
                cant_attack: Vec::new(),
                cant_block: Vec::new(),
                cant_be_blocked: Vec::new(),
                cant_block_attacker: Vec::new(),
                must_block_specific_attackers: Vec::new(),
                cant_search: Vec::new(),
            },
            attack_restrictions: Vec::new(),
            block_restrictions: Vec::new(),
            next_object_id: 1,
            library_searches_this_turn: Vec::new(),
        }
    }

    /// Hands out the next object id.
    pub fn new_object_id(&mut self) -> (id: ObjectId)
        requires
            old(self).next_object_id < u64::MAX,
        ensures
            id == ObjectId(old(self).next_object_id),
            *final(self) == (GameState { next_object_id: (old(self).next_object_id + 1) as u64, ..*old(self) }),
            old(self).ids_fresh() ==> final(self).ids_fresh(),
    {
        let id = ObjectId(self.next_object_id);
        self.next_object_id = self.next_object_id + 1;
        id
    }
}

/// `after` is `before` with object `id` moved to zone `to` (see
/// `GameState::move_object`); a missing object leaves the game unchanged.
pub open spec fn moved_to(before: GameState, after: GameState, id: ObjectId, to: Zone) -> bool {
    match object_index_from(before.objects@, id, 0) {
        None => after == before,
        Some(k) => {
            let o = before.objects@[k];
            &&& after.objects@ == before.objects@.update(
                k,
                GameObject { zone: to, imprinted: after.objects@[k].imprinted, ..o },
            )
            &&& after.objects@[k].imprinted@.len() == 0
            &&& after.battlefield@ == relocated(
                before.battlefield@,
                id,
                o.zone == Zone::Battlefield,
                to == Zone::Battlefield,
            )
            &&& after.exile@ == relocated(before.exile@, id, o.zone == Zone::Exile, to == Zone::Exile)
            &&& after.players@.len() == before.players@.len()
            &&& forall|j: int|
                0 <= j < before.players@.len() && j != o.owner.0 ==> #[trigger] after.players@[j]
                    == before.players@[j]
            &&& (o.owner.0 as int) < before.players@.len() ==> {
                let a = before.players@[o.owner.0 as int];
                let b = after.players@[o.owner.0 as int];
                &&& same_player_but_lists(a, b)
                &&& b.library@ == relocated(a.library@, id, o.zone == Zone::Library, to == Zone::Library)
                &&& b.hand@ == relocated(a.hand@, id, o.zone == Zone::Hand, to == Zone::Hand)
                &&& b.graveyard@ == relocated(
                    a.graveyard@,
                    id,
                    o.zone == Zone::Graveyard,
                    to == Zone::Graveyard,
                )
            }
            &&& after.next_object_id == before.next_object_id
            &&& after.library_searches_this_turn == before.library_searches_this_turn
            &&& after.active_player == before.active_player
            &&& after.cant_effects == before.cant_effects
            &&& after.attack_restrictions == before.attack_restrictions
            &&& after.block_restrictions == before.block_restrictions
        },
    }
}

impl GameState {
    /// Creates an object from a card, owned and controlled by `owner`, in
    /// `zone`, and returns its id. It enters untapped and, being new, may not
    /// attack yet.
    pub fn create_object_from_card(&mut self, card: &Card, owner: PlayerId, zone: Zone) -> (id: ObjectId)
        requires
            old(self).next_object_id < u64::MAX,
        ensures
            id == ObjectId(old(self).next_object_id),
            final(self).next_object_id == old(self).next_object_id + 1,
            final(self).library_searches_this_turn == old(self).library_searches_this_turn,
            final(self).objects@.len() == old(self).objects@.len() + 1,
            final(self).objects@.drop_last() == old(self).objects@,
            ({
                let o = final(self).objects@.last();
                &&& o.id == id
                &&& o.name@ == card.name@
                &&& o.owner == owner
                &&& o.controller == owner
                &&& o.zone == zone
                &&& o.card_types@ == card.card_types@
                &&& (forall|c: Color| o.colors.has(c) == card.has_color(c))
                &&& o.mana_value == (if card.value() <= u32::MAX { card.value() } else { u32::MAX as nat })
                &&& !o.tapped
                &&& o.power_toughness == card.power_toughness
                &&& o.abilities@.len() == 0
                &&& o.base_static_abilities@.len() == 0
                &&& o.static_abilities@.len() == 0
                &&& o.imprinted@.len() == 0
                &&& !o.can_attack
                &&& o.min_blockers == 1
                &&& o.max_blockers is None
            }),
            final(self).battlefield@ == relocated(old(self).battlefield@, id, false, zone == Zone::Battlefield),
            final(self).exile@ == relocated(old(self).exile@, id, false, zone == Zone::Exile),
            final(self).players@.len() == old(self).players@.len(),
            forall|j: int| 0 <= j < old(self).players@.len() && j != owner.0 ==> #[trigger] final(self).players@[j]
                == old(self).players@[j],
            (owner.0 as int) < old(self).players@.len() ==> {
                let a = old(self).players@[owner.0 as int];
                let b = final(self).players@[owner.0 as int];
                &&& same_player_but_lists(a, b)
                &&& b.library@ == relocated(a.library@, id, false, zone == Zone::Library)
                &&& b.hand@ == relocated(a.hand@, id, false, zone == Zone::Hand)
                &&& b.graveyard@ == relocated(a.graveyard@, id, false, zone == Zone::Graveyard)
            },
            final(self).active_player == old(self).active_player,
            final(self).cant_effects == old(self).cant_effects,
            final(self).attack_restrictions == old(self).attack_restrictions,
            final(self).block_restrictions == old(self).block_restrictions,
            old(self).ids_fresh() ==> final(self).ids_fresh() && final(self).object_of(id) == Some(
                final(self).objects@.last(),
            ),
    {
        let id = self.new_object_id();
        let ghost before = self.objects@;
        let obj = GameObject {
            id,
            name: card.name.clone(),
            owner,
            controller: owner,
            zone,
            card_types: copy_card_types(&card.card_types),
            colors: card.colors(),
            mana_value: card.mana_value(),
            tapped: false,
            power_toughness: card.power_toughness,
            abilities: Vec::new(),
            base_static_abilities: Vec::new(),
            static_abilities: Vec::new(),
            imprinted: Vec::new(),
            can_attack: false,
            min_blockers: 1,
            max_blockers: None,
        };
        self.objects.push(obj);
        relocate(&mut self.battlefield, id, false, zone == Zone::Battlefield);
        relocate(&mut self.exile, id, false, zone == Zone::Exile);
        let oi = owner.0 as usize;
        if oi < self.players.len() {
            relocate(&mut self.players[oi].library, id, false, zone == Zone::Library);
            relocate(&mut self.players[oi].hand, id, false, zone == Zone::Hand);
            relocate(&mut self.players[oi].graveyard, id, false, zone == Zone::Graveyard);
        }
        proof {
            assert(self.objects@.drop_last() == before);
            if forall|i: int| 0 <= i < before.len() ==> (#[trigger] before[i]).id.0 < id.0 {
                lemma_object_index_from(self.objects@, id, 0);
                if let Some(k) = object_index_from(self.objects@, id, 0) {
                    if k < before.len() {
                        assert(before[k].id == id);
                    }
                } else {
                    assert(self.objects@[before.len() as int].id == id);
                }
            }
        }
        id
    }

    /// Moves an object to another zone: its zone changes, it leaves the list
    /// of its old zone and is added at the end of the list of the new one
    /// (its owner's library, hand or graveyard, or the shared battlefield or
    /// exile), and it forgets the cards it had imprinted. Returns its id, or
    /// `None` if there is no such object.
    pub fn move_object(&mut self, id: ObjectId, to: Zone) -> (r: Option<ObjectId>)
        ensures
            moved_to(*old(self), *final(self), id, to),
            r == if object_index_from(old(self).objects@, id, 0) is Some { Some(id) } else { None::<ObjectId> },
    {
        let k = match self.object_index(id) {
            Some(k) => k,
            None => {
                return None;
            },
        };
        let from = self.objects[k].zone;
        let owner = self.objects[k].owner;
        let ghost before = self.objects@;
        self.objects[k].zone = to;
        self.objects[k].imprinted = Vec::new();
        assert(self.objects@ == before.update(
            k as int,
            GameObject { zone: to, imprinted: self.objects@[k as int].imprinted, ..before[k as int] },
        ));
        relocate(&mut self.battlefield, id, from == Zone::Battlefield, to == Zone::Battlefield);
        relocate(&mut self.exile, id, from == Zone::Exile, to == Zone::Exile);
        let oi = owner.0 as usize;
        if oi < self.players.len() {
            relocate(&mut self.players[oi].library, id, from == Zone::Library, to == Zone::Library);
            relocate(&mut self.players[oi].hand, id, from == Zone::Hand, to == Zone::Hand);
            relocate(&mut self.players[oi].graveyard, id, from == Zone::Graveyard, to == Zone::Graveyard);
        }
        Some(id)
    }
}

/// `states` is a run of single moves: `states[i + 1]` is `states[i]` with
/// `ids[i]` moved to `to`.
pub open spec fn move_chain(states: Seq<GameState>, ids: Seq<ObjectId>, to: Zone) -> bool {
    &&& states.len() == ids.len() + 1
    &&& forall|i: int| 0 <= i < ids.len() ==> moved_to(states[i], states[i + 1], #[trigger] ids[i], to)
}

/// `after` is `before` with the objects `ids` moved to `to`, one after another
/// in order.
pub open spec fn moved_all(before: GameState, after: GameState, ids: Seq<ObjectId>, to: Zone) -> bool {
    exists|states: Seq<GameState>|
        #[trigger] move_chain(states, ids, to) && states[0] == before && states.last() == after
}

impl GameState {
    /// Moves the objects `ids` to zone `to`, one after another in order.
    pub fn move_objects(&mut self, ids: &Vec<ObjectId>, to: Zone)
        ensures
            moved_all(*old(self), *final(self), ids@, to),
    {
        let ghost mut states: Seq<GameState> = seq![*self];
        let mut i: usize = 0;
        while i < ids.len()
            invariant
                i <= ids@.len(),
                move_chain(states, ids@.subrange(0, i as int), to),
                states[0] == *old(self),
                states.last() == *self,
            decreases ids.len() - i,
        {
            let ghost prev = *self;
            self.move_object(ids[i], to);
            proof {
                let old_states = states;
                states = states.push(*self);
                let sub = ids@.subrange(0, i + 1);
                assert forall|j: int| 0 <= j < sub.len() implies moved_to(states[j], states[j + 1], #[trigger] sub[j], to) by {
                    if j < i {
                        assert(ids@.subrange(0, i as int)[j] == sub[j]);
                        assert(states[j] == old_states[j]);
                        assert(states[j + 1] == old_states[j + 1]);
                    } else {
                        assert(states[j] == prev);
                    }
                }
            }
            i = i + 1;
        }
        assert(ids@.subrange(0, ids@.len() as int) == ids@);
    }
}

} // verus!
