use maigus::card::CardBuilder;
use maigus::combat_state::{
    attackers_targeting_planeswalker, attackers_targeting_player, declare_attackers, declare_blockers,
    defending_players, end_combat, get_attack_target, get_attacking_player, get_blocked_attacker, get_blockers,
    get_damage_assignment_order, is_attacking, is_attacking_player, is_blocked, is_blocking, is_defending_player,
    is_unblocked, new_combat, set_damage_assignment_order, AttackTarget, CombatError,
};
use maigus::game::{GameState, MustBlockRequirement};
use maigus::ids::{CardId, ObjectId, PlayerId};
use maigus::statics::StaticAbility;
use maigus::types::{CardType, Zone};

fn setup() -> GameState {
    GameState::new(vec!["Alice".to_string(), "Bob".to_string()], 20)
}

fn creature(game: &mut GameState, owner: PlayerId, name: &str) -> ObjectId {
    let card = CardBuilder::new(CardId::from_raw(1), name).card_types(vec![CardType::Creature]).build();
    let id = game.create_object_from_card(&card, owner, Zone::Battlefield);
    let obj = game.objects.iter_mut().find(|o| o.id == id).unwrap();
    obj.can_attack = true;
    id
}

fn alice() -> PlayerId {
    PlayerId::from_index(0)
}

fn bob() -> PlayerId {
    PlayerId::from_index(1)
}

#[test]
fn attack_taps_and_records_attacker() {
    let mut game = setup();
    let bear = creature(&mut game, alice(), "Bear");
    let mut combat = new_combat();
    assert_eq!(declare_attackers(&mut game, &mut combat, vec![(bear, AttackTarget::Player(bob()))]), Ok(()));
    assert!(is_attacking(&combat, bear));
    assert!(game.is_tapped(bear));
    assert!(is_unblocked(&combat, bear));
    assert!(!is_blocked(&combat, bear));
    assert_eq!(get_attack_target(&combat, bear), Some(&AttackTarget::Player(bob())));
    assert_eq!(attackers_targeting_player(&combat, bob()), vec![bear]);
    assert!(attackers_targeting_planeswalker(&combat, ObjectId::from_raw(77)).is_empty());
    assert_eq!(defending_players(&combat), vec![bob()]);
    assert!(is_defending_player(&combat, bob()));
    assert!(!is_defending_player(&combat, alice()));
    assert!(is_attacking_player(&combat, alice(), &game));
    assert_eq!(get_attacking_player(&combat, &game), Some(alice()));
    end_combat(&mut combat);
    assert!(!is_attacking(&combat, bear));
    assert_eq!(get_attacking_player(&combat, &game), None);
}

#[test]
fn vigilance_keeps_attacker_untapped() {
    let mut game = setup();
    let knight = creature(&mut game, alice(), "Knight");
    game.objects.iter_mut().find(|o| o.id == knight).unwrap().static_abilities.push(StaticAbility::Vigilance);
    let mut combat = new_combat();
    assert_eq!(declare_attackers(&mut game, &mut combat, vec![(knight, AttackTarget::Player(bob()))]), Ok(()));
    assert!(!game.is_tapped(knight));
}

#[test]
fn invalid_attacks_are_refused_without_changes() {
    let mut game = setup();
    let bear = creature(&mut game, alice(), "Bear");
    let theirs = creature(&mut game, bob(), "Wolf");
    let mut combat = new_combat();
    assert_eq!(
        declare_attackers(&mut game, &mut combat, vec![(bear, AttackTarget::Player(bob())), (bear, AttackTarget::Player(bob()))]),
        Err(CombatError::DuplicateAttacker(bear))
    );
    assert!(!game.is_tapped(bear));
    assert!(!is_attacking(&combat, bear));
    assert_eq!(
        declare_attackers(&mut game, &mut combat, vec![(theirs, AttackTarget::Player(alice()))]),
        Err(CombatError::NotControlledBy { creature: theirs, expected: alice() })
    );
    assert_eq!(
        declare_attackers(&mut game, &mut combat, vec![(bear, AttackTarget::Player(PlayerId::from_index(7)))]),
        Err(CombatError::InvalidAttackTarget(AttackTarget::Player(PlayerId::from_index(7))))
    );
    assert_eq!(
        declare_attackers(&mut game, &mut combat, vec![(ObjectId::from_raw(99), AttackTarget::Player(bob()))]),
        Err(CombatError::NotOnBattlefield(ObjectId::from_raw(99)))
    );
    game.objects.iter_mut().find(|o| o.id == bear).unwrap().can_attack = false;
    assert_eq!(
        declare_attackers(&mut game, &mut combat, vec![(bear, AttackTarget::Player(bob()))]),
        Err(CombatError::CreatureCannotAttack(bear))
    );
    game.tap(bear);
    assert_eq!(
        declare_attackers(&mut game, &mut combat, vec![(bear, AttackTarget::Player(bob()))]),
        Err(CombatError::CreatureTapped(bear))
    );
}

#[test]
fn attack_limit_from_battlefield() {
    let mut game = setup();
    let a = creature(&mut game, alice(), "A");
    let b = creature(&mut game, alice(), "B");
    game.objects.iter_mut().find(|o| o.id == b).unwrap().static_abilities.push(StaticAbility::MaxCreaturesCanAttack(1));
    let mut combat = new_combat();
    assert_eq!(
        declare_attackers(&mut game, &mut combat, vec![(a, AttackTarget::Player(bob())), (b, AttackTarget::Player(bob()))]),
        Err(CombatError::TooManyAttackers { maximum: 1, provided: 2 })
    );
}

#[test]
fn blocks_are_recorded_and_ordered() {
    let mut game = setup();
    let bear = creature(&mut game, alice(), "Bear");
    let w1 = creature(&mut game, bob(), "Wall 1");
    let w2 = creature(&mut game, bob(), "Wall 2");
    let mut combat = new_combat();
    declare_attackers(&mut game, &mut combat, vec![(bear, AttackTarget::Player(bob()))]).unwrap();
    assert_eq!(declare_blockers(&game, &mut combat, vec![(w1, bear), (w2, bear)]), Ok(()));
    assert!(is_blocking(&combat, w1));
    assert!(is_blocked(&combat, bear));
    assert!(!is_unblocked(&combat, bear));
    assert_eq!(get_blockers(&combat, bear), vec![w1, w2]);
    assert_eq!(get_blocked_attacker(&combat, w2), Some(bear));
    assert!(get_blockers(&combat, bear).contains(&w2));
    assert_eq!(get_blocked_attacker(&combat, bear), None);
    assert!(!is_blocking(&combat, bear));
    assert_eq!(get_damage_assignment_order(&combat, bear), vec![w1, w2]);
    assert_eq!(set_damage_assignment_order(&mut combat, bear, vec![w2, w1]), Ok(()));
    assert_eq!(get_damage_assignment_order(&combat, bear), vec![w2, w1]);
    assert_eq!(
        set_damage_assignment_order(&mut combat, bear, vec![w2]),
        Err(CombatError::InvalidBlockerOrder { attacker: bear, expected_blockers: vec![w1, w2], provided_blockers: vec![w2] })
    );
    assert_eq!(set_damage_assignment_order(&mut combat, w1, vec![]), Err(CombatError::NotInCombat(w1)));
}

#[test]
fn menace_needs_two_blockers_and_blocks_need_attackers() {
    let mut game = setup();
    let brute = creature(&mut game, alice(), "Brute");
    game.objects.iter_mut().find(|o| o.id == brute).unwrap().min_blockers = 2;
    let wall = creature(&mut game, bob(), "Wall");
    let mut combat = new_combat();
    declare_attackers(&mut game, &mut combat, vec![(brute, AttackTarget::Player(bob()))]).unwrap();
    assert_eq!(
        declare_blockers(&game, &mut combat, vec![(wall, brute)]),
        Err(CombatError::NotEnoughBlockers { attacker: brute, required: 2, provided: 1 })
    );
    assert!(!is_blocking(&combat, wall));
    assert_eq!(
        declare_blockers(&game, &mut combat, vec![(wall, wall)]),
        Err(CombatError::AttackerNotFound(wall))
    );
    assert_eq!(
        declare_blockers(&game, &mut combat, vec![(wall, brute), (wall, brute)]),
        Err(CombatError::DuplicateBlocker(wall))
    );
}

#[test]
fn must_block_requirements_are_enforced() {
    let mut game = setup();
    let bear = creature(&mut game, alice(), "Bear");
    let wall = creature(&mut game, bob(), "Wall");
    game.cant_effects.must_block_specific_attackers.push(MustBlockRequirement { blocker: wall, attackers: vec![bear] });
    let mut combat = new_combat();
    declare_attackers(&mut game, &mut combat, vec![(bear, AttackTarget::Player(bob()))]).unwrap();
    assert_eq!(
        declare_blockers(&game, &mut combat, vec![]),
        Err(CombatError::MustBlockRequirementNotMet { blocker: wall, attacker: bear })
    );
    assert_eq!(declare_blockers(&game, &mut combat, vec![(wall, bear)]), Ok(()));
}

#[test]
fn combat_error_messages() {
    let id = ObjectId::from_raw(5);
    assert_eq!(CombatError::CreatureCannotAttack(id).display(), "Creature ObjectId(5) cannot attack");
    assert_eq!(
        CombatError::NotEnoughBlockers { attacker: id, required: 2, provided: 1 }.display(),
        "Attacker ObjectId(5) requires 2 blockers but only 1 provided"
    );
    assert_eq!(
        CombatError::InvalidAttackTarget(AttackTarget::Player(PlayerId::from_index(3))).display(),
        "Invalid attack target: Player(PlayerId(3))"
    );
    assert_eq!(
        CombatError::InvalidBlockerOrder {
            attacker: id,
            expected_blockers: vec![ObjectId::from_raw(1), ObjectId::from_raw(2)],
            provided_blockers: vec![],
        }
        .display(),
        "Invalid blocker order for attacker ObjectId(5): expected [ObjectId(1), ObjectId(2)], got []"
    );
    assert_eq!(
        CombatError::NotControlledBy { creature: id, expected: PlayerId::from_index(0) }.display(),
        "Creature ObjectId(5) is not controlled by player PlayerId(0)"
    );
}
