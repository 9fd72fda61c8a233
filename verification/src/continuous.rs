//! Continuous effects of static abilities: commanders, abilities that
//! permanents grant to the creatures of a group, and anthems that raise
//! their power and toughness.

use vstd::prelude::*;
use crate::ids::{ObjectId, PlayerId, contains_object};
use crate::types::{CardType, Zone, contains_card_type};
use crate::statics::{CreatureGroup, Keyword, StaticAbility, copy_statics};
use crate::types::Color;
use crate::card::PtValue;
use crate::game::{GameObject, GameState, Player, relocated, same_player_but_lists};
use crate::cards::CardDefinition;
use crate::cards::ability::{Ability, AbilityKind};

verus! {

/// Whether `id` is among the commanders of some player.
pub open spec fn is_commander_of_some_player(game: GameState, id: ObjectId) -> bool {
    exists|i: int| 0 <= i < game.players@.len() && #[trigger] game.players@[i].commanders@.contains(id)
}

/// Whether an ability of `source` for the creatures of group `g` reaches
/// `target`: both are on the battlefield, `target` is a creature with the
/// same controller, and it belongs to the group.
pub open spec fn in_group(game: GameState, g: CreatureGroup, source: GameObject, target: GameObject) -> bool {
    &&& source.zone == Zone::Battlefield
    &&& target.zone == Zone::Battlefield
    &&& target.card_types@.contains(CardType::Creature)
    &&& target.controller == source.controller
    &&& match g {
        CreatureGroup::CreaturesYouControl => true,
        CreatureGroup::OtherCreaturesYouControl => target.id != source.id,
        CreatureGroup::CommanderCreaturesYouControl => is_commander_of_some_player(game, target.id),
    }
}

/// The static ability that grants keyword `k`.
pub open spec fn keyword_ability(k: Keyword) -> StaticAbility {
    match k {
        Keyword::Flying => StaticAbility::Flying,
        Keyword::Trample => StaticAbility::Trample,
        Keyword::Vigilance => StaticAbility::Vigilance,
        Keyword::Indestructible => StaticAbility::Indestructible,
        Keyword::Hexproof => StaticAbility::Hexproof,
        Keyword::Haste => StaticAbility::Haste,
    }
}

/// The abilities that the abilities `abs` of `source` grant `target`, in order.
pub open spec fn grants_from(game: GameState, abs: Seq<StaticAbility>, source: GameObject, target: GameObject) -> Seq<
    StaticAbility,
>
    decreases abs.len(),
{
    if abs.len() == 0 {
        Seq::empty()
    } else {
        let first = match abs[0] {
            StaticAbility::GrantAbility { keyword, affected } => if in_group(game, affected, source, target) {
                seq![keyword_ability(keyword)]
            } else {
                Seq::empty()
            },
            _ => Seq::empty(),
        };
        first + grants_from(game, abs.drop_first(), source, target)
    }
}

/// The abilities that the objects `objs` grant `target` through their own
/// static abilities, in order.
pub open spec fn granted(game: GameState, objs: Seq<GameObject>, target: GameObject) -> Seq<StaticAbility>
    decreases objs.len(),
{
    if objs.len() == 0 {
        Seq::empty()
    } else {
        grants_from(game, objs[0].base_static_abilities@, objs[0], target) + granted(game, objs.drop_first(), target)
    }
}

/// Every object has exactly its own static abilities followed by those the
/// objects of the game grant it.
pub open spec fn statics_current(game: GameState) -> bool {
    forall|k: int|
        0 <= k < game.objects@.len() ==> (#[trigger] game.objects@[k]).static_abilities@
            == game.objects@[k].base_static_abilities@ + granted(game, game.objects@, game.objects@[k])
}

/// The two objects agree on everything that decides grants and anthems.
pub open spec fn same_shape(a: GameObject, b: GameObject) -> bool {
    &&& a.id == b.id
    &&& a.zone == b.zone
    &&& a.controller == b.controller
    &&& a.card_types@ == b.card_types@
    &&& a.base_static_abilities@ == b.base_static_abilities@
}

/// `b` is `a` with other lists of static abilities on its objects.
pub open spec fn same_but_statics(a: GameState, b: GameState) -> bool {
    &&& b == (GameState { objects: b.objects, ..a })
    &&& b.objects@.len() == a.objects@.len()
    &&& forall|k: int|
        0 <= k < a.objects@.len() ==> #[trigger] b.objects@[k] == (GameObject {
            static_abilities: b.objects@[k].static_abilities,
            ..a.objects@[k]
        })
}

/// Grants depend only on the shape of the objects and on the players.
proof fn lemma_grants_from_frame(
    g1: GameState,
    g2: GameState,
    abs: Seq<StaticAbility>,
    s1: GameObject,
    s2: GameObject,
    t1: GameObject,
    t2: GameObject,
)
    requires
        g1.players == g2.players,
        same_shape(s1, s2),
        same_shape(t1, t2),
    ensures
        grants_from(g1, abs, s1, t1) == grants_from(g2, abs, s2, t2),
    decreases abs.len(),
{
    if abs.len() > 0 {
        lemma_grants_from_frame(g1, g2, abs.drop_first(), s1, s2, t1, t2);
    }
}

/// Grants depend only on the shape of the objects and on the players.
proof fn lemma_granted_frame(
    g1: GameState,
    g2: GameState,
    o1: Seq<GameObject>,
    o2: Seq<GameObject>,
    t1: GameObject,
    t2: GameObject,
)
    requires
        g1.players == g2.players,
        o1.len() == o2.len(),
        forall|j: int| 0 <= j < o1.len() ==> same_shape(#[trigger] o1[j], o2[j]),
        same_shape(t1, t2),
    ensures
        granted(g1, o1, t1) == granted(g2, o2, t2),
    decreases o1.len(),
{
    if o1.len() > 0 {
        lemma_grants_from_frame(g1, g2, o1[0].base_static_abilities@, o1[0], o2[0], t1, t2);
        assert forall|j: int| 0 <= j < o1.drop_first().len() implies same_shape(
            #[trigger] o1.drop_first()[j],
            o2.drop_first()[j],
        ) by {
            assert(same_shape(o1[j + 1], o2[j + 1]));
        }
        lemma_granted_frame(g1, g2, o1.drop_first(), o2.drop_first(), t1, t2);
    }
}

/// Changing only the lists of static abilities changes no grant.
pub proof fn lemma_granted_ignores_statics(a: GameState, b: GameState, k: int)
    requires
        same_but_statics(a, b),
        0 <= k < a.objects@.len(),
    ensures
        granted(a, a.objects@, a.objects@[k]) == granted(b, b.objects@, b.objects@[k]),
{
    assert forall|j: int| 0 <= j < a.objects@.len() implies same_shape(#[trigger] a.objects@[j], b.objects@[j]) by {
        assert(b.objects@[j] == GameObject { static_abilities: b.objects@[j].static_abilities, ..a.objects@[j] });
    }
    assert(b.objects@[k] == GameObject { static_abilities: b.objects@[k].static_abilities, ..a.objects@[k] });
    lemma_granted_frame(a, b, a.objects@, b.objects@, a.objects@[k], b.objects@[k]);
}

/// The static ability that grants keyword `k`.
pub fn keyword_static(k: Keyword) -> (s: StaticAbility)
    ensures
        s == keyword_ability(k),
{
    match k {
        Keyword::Flying => StaticAbility::Flying,
        Keyword::Trample => StaticAbility::Trample,
        Keyword::Vigilance => StaticAbility::Vigilance,
        Keyword::Indestructible => StaticAbility::Indestructible,
        Keyword::Hexproof => StaticAbility::Hexproof,
        Keyword::Haste => StaticAbility::Haste,
    }
}

impl GameState {
    /// Whether `id` is among the commanders of some player.
    pub fn is_commander(&self, id: ObjectId) -> (b: bool)
        ensures
            b == is_commander_of_some_player(*self, id),
    {
        let mut i: usize = 0;
        while i < self.players.len()
            invariant
                i <= self.players@.len(),
                forall|j: int| 0 <= j < i ==> !(#[trigger] self.players@[j]).commanders@.contains(id),
            decreases self.players.len() - i,
        {
            if contains_object(&self.players[i].commanders, id) {
                return true;
            }
            i = i + 1;
        }
        false
    }

    /// Makes `id` a commander of `player` (nothing happens if the player is
    /// not seated or already has it).
    pub fn set_as_commander(&mut self, id: ObjectId, player: PlayerId)
        ensures
            match old(self).player_of(player) {
                Some(p) if !p.commanders@.contains(id) => {
                    &&& *final(self) == (GameState { players: final(self).players, ..*old(self) })
                    &&& final(self).players@ == old(self).players@.update(
                        player.0 as int,
                        Player { commanders: final(self).players@[player.0 as int].commanders, ..p },
                    )
                    &&& final(self).players@[player.0 as int].commanders@ == p.commanders@.push(id)
                },
                _ => *final(self) == *old(self),
            },
    {
        let i = player.0 as usize;
        if i < self.players.len() && !contains_object(&self.players[i].commanders, id) {
            let ghost before = self.players@;
            self.players[i].commanders.push(id);
            assert(self.players@ == before.update(
                i as int,
                Player { commanders: self.players@[i as int].commanders, ..before[i as int] },
            ));
        }
    }
}

/// Whether an ability of `source` for group `g` reaches `target`.
fn reaches(game: &GameState, g: CreatureGroup, source: &GameObject, target: &GameObject) -> (b: bool)
    ensures
        b == in_group(*game, g, *source, *target),
{
    if source.zone != Zone::Battlefield || target.zone != Zone::Battlefield {
        return false;
    }
    if !contains_card_type(&target.card_types, CardType::Creature) || target.controller != source.controller {
        return false;
    }
    match g {
        CreatureGroup::CreaturesYouControl => true,
        CreatureGroup::OtherCreaturesYouControl => target.id != source.id,
        CreatureGroup::CommanderCreaturesYouControl => game.is_commander(target.id),
    }
}

/// The abilities the objects of the game grant `target`, in order.
fn grants_for(game: &GameState, target: &GameObject) -> (r: Vec<StaticAbility>)
    ensures
        r@ == granted(*game, game.objects@, *target),
{
    let objs = &game.objects;
    let mut r: Vec<StaticAbility> = Vec::new();
    let mut j: usize = 0;
    assert(objs@.subrange(0, objs@.len() as int) == objs@);
    while j < objs.len()
        invariant
            j <= objs@.len(),
            objs == &game.objects,
            r@ + granted(*game, objs@.subrange(j as int, objs@.len() as int), *target) == granted(
                *game,
                objs@,
                *target,
            ),
        decreases objs.len() - j,
    {
        let ghost rest = objs@.subrange(j as int, objs@.len() as int);
        assert(rest.drop_first() == objs@.subrange(j + 1, objs@.len() as int));
        let source = &objs[j];
        let abs = &source.base_static_abilities;
        let ghost r0 = r@;
        let mut m: usize = 0;
        assert(abs@.subrange(0, abs@.len() as int) == abs@);
        while m < abs.len()
            invariant
                m <= abs@.len(),
                r@ + grants_from(*game, abs@.subrange(m as int, abs@.len() as int), *source, *target) == r0
                    + grants_from(*game, abs@, *source, *target),
            decreases abs.len() - m,
        {
            let ghost arest = abs@.subrange(m as int, abs@.len() as int);
            assert(arest.drop_first() == abs@.subrange(m + 1, abs@.len() as int));
            let ghost before = r@;
            match &abs[m] {
                StaticAbility::GrantAbility { keyword, affected } => {
                    if reaches(game, *affected, source, target) {
                        r.push(keyword_static(*keyword));
                    }
                },
                _ => {},
            }
            assert(r@ + grants_from(*game, abs@.subrange(m + 1, abs@.len() as int), *source, *target) =~= before
                + grants_from(*game, arest, *source, *target));
            m = m + 1;
        }
        assert(r@ =~= r0 + grants_from(*game, abs@, *source, *target));
        assert(r@ + granted(*game, objs@.subrange(j + 1, objs@.len() as int), *target) =~= r0 + granted(
            *game,
            rest,
            *target,
        ));
        j = j + 1;
    }
    assert(r@ + granted(*game, objs@.subrange(j as int, objs@.len() as int), *target) =~= r@);
    r
}

impl GameState {
    /// Recomputes the static abilities of every object: its own, followed
    /// by those that permanents on the battlefield grant it ("creatures you
    /// control have ...").
    pub fn update_static_ability_effects(&mut self)
        ensures
            same_but_statics(*old(self), *final(self)),
            forall|k: int|
                0 <= k < old(self).objects@.len() ==> (#[trigger] final(self).objects@[k]).static_abilities@
                    == old(self).objects@[k].base_static_abilities@ + granted(
                    *old(self),
                    old(self).objects@,
                    old(self).objects@[k],
                ),
            statics_current(*final(self)),
    {
        let ghost g0 = *self;
        let n = self.objects.len();
        let mut lists: Vec<Vec<StaticAbility>> = Vec::new();
        let mut k: usize = 0;
        while k < n
            invariant
                *self == g0,
                n == self.objects@.len(),
                k <= n,
                lists@.len() == k,
                forall|i: int|
                    0 <= i < k ==> (#[trigger] lists@[i])@ == g0.objects@[i].base_static_abilities@ + granted(
                        g0,
                        g0.objects@,
                        g0.objects@[i],
                    ),
            decreases n - k,
        {
            let mut l = copy_statics(&self.objects[k].base_static_abilities);
            let mut extra = grants_for(self, &self.objects[k]);
            l.append(&mut extra);
            lists.push(l);
            k = k + 1;
        }
        while k > 0
            invariant
                k <= n,
                n == self.objects@.len(),
                lists@.len() == k,
                same_but_statics(g0, *self),
                forall|i: int|
                    0 <= i < k ==> (#[trigger] lists@[i])@ == g0.objects@[i].base_static_abilities@ + granted(
                        g0,
                        g0.objects@,
                        g0.objects@[i],
                    ),
                forall|i: int|
                    k <= i < n ==> (#[trigger] self.objects@[i]).static_abilities@
                        == g0.objects@[i].base_static_abilities@ + granted(g0, g0.objects@, g0.objects@[i]),
                forall|i: int| 0 <= i < k ==> #[trigger] self.objects@[i] == g0.objects@[i],
            decreases k,
        {
            k = k - 1;
            let l = lists.pop().unwrap();
            self.objects[k].static_abilities = l;
        }
        proof {
            assert forall|k: int| 0 <= k < self.objects@.len() implies (#[trigger] self.objects@[k]).static_abilities@
                == self.objects@[k].base_static_abilities@ + granted(
                *self,
                self.objects@,
                self.objects@[k],
            ) by {
                lemma_granted_ignores_statics(g0, *self, k);
            }
        }
    }
}

/// The static abilities among `abs`, in order.
pub open spec fn statics_of(abs: Seq<Ability>) -> Seq<StaticAbility>
    decreases abs.len(),
{
    if abs.len() == 0 {
        Seq::empty()
    } else {
        (match abs[0].kind {
            AbilityKind::Static(s) => seq![s],
            _ => Seq::empty(),
        }) + statics_of(abs.drop_first())
    }
}

/// The static abilities among `abs`, in order.
fn static_abilities_of(abs: &Vec<Ability>) -> (r: Vec<StaticAbility>)
    ensures
        r@ == statics_of(abs@),
{
    let mut r: Vec<StaticAbility> = Vec::new();
    let mut i: usize = 0;
    assert(abs@.subrange(0, abs@.len() as int) == abs@);
    while i < abs.len()
        invariant
            i <= abs@.len(),
            r@ + statics_of(abs@.subrange(i as int, abs@.len() as int)) == statics_of(abs@),
        decreases abs.len() - i,
    {
        let ghost rest = abs@.subrange(i as int, abs@.len() as int);
        assert(rest.drop_first() == abs@.subrange(i + 1, abs@.len() as int));
        let ghost before = r@;
        match &abs[i].kind {
            AbilityKind::Static(s) => {
                r.push(s.duplicate());
            },
            _ => {},
        }
        assert(r@ + statics_of(abs@.subrange(i + 1, abs@.len() as int)) =~= before + statics_of(rest));
        i = i + 1;
    }
    assert(r@ + statics_of(abs@.subrange(i as int, abs@.len() as int)) =~= r@);
    r
}

impl GameState {
    /// Creates an object from a card definition, owned and controlled by
    /// `owner`, in `zone`, with the definition's abilities, and brings the
    /// abilities that permanents grant up to date. Returns the new id.
    pub fn create_object_from_definition(&mut self, def: &CardDefinition, owner: PlayerId, zone: Zone) -> (id: ObjectId)
        requires
            old(self).next_object_id < u64::MAX,
        ensures
            id == ObjectId(old(self).next_object_id),
            final(self).next_object_id == old(self).next_object_id + 1,
            final(self).objects@.len() == old(self).objects@.len() + 1,
            forall|k: int|
                0 <= k < old(self).objects@.len() ==> #[trigger] final(self).objects@[k] == (GameObject {
                    static_abilities: final(self).objects@[k].static_abilities,
                    ..old(self).objects@[k]
                }),
            ({
                let o = final(self).objects@.last();
                let card = def.card;
                &&& o.id == id
                &&& o.name@ == card.name@
                &&& o.owner == owner
                &&& o.controller == owner
                &&& o.zone == zone
                &&& o.card_types@ == card.card_types@
                &&& (forall|c: Color| o.colors.has(c) == card.has_color(c))
                &&& o.mana_value == (if card.value() <= u32::MAX { card.value() } else { u32::MAX as nat })
                &&& !o.tapped
                &&& o.power_toughness == card.power_toughness
                &&& o.abilities@.len() == def.abilities@.len()
                &&& o.base_static_abilities@ == statics_of(def.abilities@)
                &&& o.imprinted@.len() == 0
                &&& !o.can_attack
                &&& o.min_blockers == 1
                &&& o.max_blockers is None
            }),
            statics_current(*final(self)),
            final(self).battlefield@ == relocated(old(self).battlefield@, id, false, zone == Zone::Battlefield),
            final(self).exile@ == relocated(old(self).exile@, id, false, zone == Zone::Exile),
            final(self).players@.len() == old(self).players@.len(),
            forall|j: int| 0 <= j < old(self).players@.len() && j != owner.0 ==> #[trigger] final(self).players@[j]
                == old(self).players@[j],
            (owner.0 as int) < old(self).players@.len() ==> {
                let a = old(self).players@[owner.0 as int];
                let b = final(self).players@[owner.0 as int];
                &&& same_player_but_lists(a, b)
                &&& b.library@ == relocated(a.library@, id, false, zone == Zone::Library)
                &&& b.hand@ == relocated(a.hand@, id, false, zone == Zone::Hand)
                &&& b.graveyard@ == relocated(a.graveyard@, id, false, zone == Zone::Graveyard)
            },
            final(self).active_player == old(self).active_player,
            final(self).library_searches_this_turn == old(self).library_searches_this_turn,
            final(self).cant_effects == old(self).cant_effects,
            final(self).attack_restrictions == old(self).attack_restrictions,
            final(self).block_restrictions == old(self).block_restrictions,
    {
        let id = self.create_object_from_card(&def.card, owner, zone);
        let k = self.objects.len() - 1;
        let statics = static_abilities_of(&def.abilities);
        let ghost before = self.objects@;
        self.objects[k].abilities = def.abilities.clone();
        self.objects[k].base_static_abilities = copy_statics(&statics);
        self.objects[k].static_abilities = statics;
        let ghost mid = *self;
        assert forall|j: int| 0 <= j < k implies #[trigger] mid.objects@[j] == before[j] by {}
        self.update_static_ability_effects();
        id
    }
}

/// The number a printed power or toughness stands for (`*` counts as 0).
pub open spec fn pt_base(v: PtValue) -> i32 {
    match v {
        PtValue::Fixed(n) => n,
        PtValue::Star => 0,
        PtValue::StarPlus(n) => n,
    }
}

impl GameObject {
    /// The object's printed power, if it has one.
    pub fn power(&self) -> (r: Option<i32>)
        ensures
            r == match self.power_toughness {
                Some(pt) => Some(pt_base(pt.power)),
                None => None::<i32>,
            },
    {
        match &self.power_toughness {
            Some(pt) => Some(pt.power.base_value()),
            None => None,
        }
    }

    /// The object's printed toughness, if it has one.
    pub fn toughness(&self) -> (r: Option<i32>)
        ensures
            r == match self.power_toughness {
                Some(pt) => Some(pt_base(pt.toughness)),
                None => None::<i32>,
            },
    {
        match &self.power_toughness {
            Some(pt) => Some(pt.toughness.base_value()),
            None => None,
        }
    }
}

/// `x`, held to the range of `i64`.
pub open spec fn clamp64(x: int) -> int {
    if x > i64::MAX {
        i64::MAX as int
    } else if x < i64::MIN {
        i64::MIN as int
    } else {
        x
    }
}

/// `x`, held to the range of `i32`.
pub open spec fn clamp32(x: int) -> i32 {
    if x > i32::MAX {
        i32::MAX
    } else if x < i32::MIN {
        i32::MIN
    } else {
        x as i32
    }
}

/// `acc` raised by the power (`toughness` false) or toughness bonuses that
/// the abilities `abs` of `source` give `target`, one after another, each
/// sum held to the range of `i64`.
pub open spec fn anthem_from(
    game: GameState,
    abs: Seq<StaticAbility>,
    source: GameObject,
    target: GameObject,
    toughness: bool,
    acc: int,
) -> int
    decreases abs.len(),
{
    if abs.len() == 0 {
        acc
    } else {
        let next = match abs[0] {
            StaticAbility::Anthem { power, toughness: t, affected } => if in_group(game, affected, source, target) {
                clamp64(acc + if toughness { t } else { power })
            } else {
                acc
            },
            _ => acc,
        };
        anthem_from(game, abs.drop_first(), source, target, toughness, next)
    }
}

/// `acc` raised by the bonuses that the own static abilities of the objects
/// `objs` give `target`, in order.
pub open spec fn anthems(game: GameState, objs: Seq<GameObject>, target: GameObject, toughness: bool, acc: int) -> int
    decreases objs.len(),
{
    if objs.len() == 0 {
        acc
    } else {
        anthems(
            game,
            objs.drop_first(),
            target,
            toughness,
            anthem_from(game, objs[0].base_static_abilities@, objs[0], target, toughness, acc),
        )
    }
}

/// The power (`toughness` false) or toughness of object `id` with the
/// bonuses of the anthems in play, if it has a printed one.
pub open spec fn calculated_pt(game: GameState, id: ObjectId, toughness: bool) -> Option<i32> {
    match game.object_of(id) {
        Some(o) => match o.power_toughness {
            Some(pt) => Some(
                clamp32(anthems(game, game.objects@, o, toughness, pt_base(if toughness { pt.toughness } else { pt.power }) as int)),
            ),
            None => None,
        },
        None => None,
    }
}

/// `acc + b`, held to the range of `i64`.
fn add_held(acc: i64, b: i32) -> (r: i64)
    ensures
        r == clamp64(acc + b),
{
    let b = b as i64;
    if b >= 0 {
        if acc > i64::MAX - b {
            i64::MAX
        } else {
            acc + b
        }
    } else if acc < i64::MIN - b {
        i64::MIN
    } else {
        acc + b
    }
}

/// `acc` raised by the bonuses the objects of the game give `target`.
fn anthem_total(game: &GameState, target: &GameObject, toughness: bool, acc: i64) -> (r: i64)
    ensures
        r == anthems(*game, game.objects@, *target, toughness, acc as int),
{
    let objs = &game.objects;
    let mut total = acc;
    let mut j: usize = 0;
    assert(objs@.subrange(0, objs@.len() as int) == objs@);
    while j < objs.len()
        invariant
            j <= objs@.len(),
            objs == &game.objects,
            anthems(*game, objs@.subrange(j as int, objs@.len() as int), *target, toughness, total as int) == anthems(
                *game,
                objs@,
                *target,
                toughness,
                acc as int,
            ),
        decreases objs.len() - j,
    {
        let ghost rest = objs@.subrange(j as int, objs@.len() as int);
        assert(rest.drop_first() == objs@.subrange(j + 1, objs@.len() as int));
        let source = &objs[j];
        let abs = &source.base_static_abilities;
        let ghost start = total as int;
        let mut m: usize = 0;
        assert(abs@.subrange(0, abs@.len() as int) == abs@);
        while m < abs.len()
            invariant
                m <= abs@.len(),
                anthem_from(*game, abs@.subrange(m as int, abs@.len() as int), *source, *target, toughness, total as int)
                    == anthem_from(*game, abs@, *source, *target, toughness, start),
            decreases abs.len() - m,
        {
            let ghost arest = abs@.subrange(m as int, abs@.len() as int);
            assert(arest.drop_first() == abs@.subrange(m + 1, abs@.len() as int));
            match &abs[m] {
                StaticAbility::Anthem { power, toughness: t, affected } => {
                    if reaches(game, *affected, source, target) {
                        total = add_held(total, if toughness { *t } else { *power });
                    }
                },
                _ => {},
            }
            m = m + 1;
        }
        assert(abs@.subrange(m as int, abs@.len() as int) =~= Seq::<StaticAbility>::empty());
        j = j + 1;
    }
    assert(objs@.subrange(j as int, objs@.len() as int) =~= Seq::<GameObject>::empty());
    total
}

/// `x`, held to the range of `i32`.
fn hold_i32(x: i64) -> (r: i32)
    ensures
        r == clamp32(x as int),
{
    if x > i32::MAX as i64 {
        i32::MAX
    } else if x < i32::MIN as i64 {
        i32::MIN
    } else {
        x as i32
    }
}

impl GameState {
    /// The power of object `id` with the bonuses that anthems in play give
    /// it (`None` if there is no such object or it has no power).
    pub fn calculated_power(&self, id: ObjectId) -> (r: Option<i32>)
        ensures
            r == calculated_pt(*self, id, false),
    {
        match self.object(id) {
            Some(o) => match &o.power_toughness {
                Some(pt) => Some(hold_i32(anthem_total(self, o, false, pt.power.base_value() as i64))),
                None => None,
            },
            None => None,
        }
    }

    /// The toughness of object `id` with the bonuses that anthems in play
    /// give it (`None` if there is no such object or it has no toughness).
    pub fn calculated_toughness(&self, id: ObjectId) -> (r: Option<i32>)
        ensures
            r == calculated_pt(*self, id, true),
    {
        match self.object(id) {
            Some(o) => match &o.power_toughness {
                Some(pt) => Some(hold_i32(anthem_total(self, o, true, pt.toughness.base_value() as i64))),
                None => None,
            },
            None => None,
        }
    }
}

} // verus!
