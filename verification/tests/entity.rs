use ardentia::entity::Action;
use ardentia::entity::Player;
use ardentia::entity::Rarity;
use ardentia::entity::Weapon;
use ardentia::entity::WeaponQuality;
use ardentia::entity::WeaponType;
use ardentia::monsters::jungle::goblin::Goblin;
use ardentia::monsters::jungle::ogre::Ogre;
use ardentia::monsters::jungle::slime::Slime;
use ardentia::monsters::Monster;

#[test]
fn new_player_has_starting_figures() {
    let player = Player::new("You");
    assert_eq!(player.name, "You");
    assert_eq!(player.max_health, 10);
    assert_eq!(player.health, 10);
    assert_eq!(player.attack, 1);
    assert_eq!(player.defence, 0);
    assert_eq!(player.speed, 1);
    assert!(player.weapon.is_none());
    assert_eq!(player.get_attack(), 1);
    assert!(!player.is_dead());
}

#[test]
fn default_player_is_blank() {
    let player = Player::default();
    assert_eq!(player.name, "");
    assert_eq!(player.max_health, 0);
    assert_eq!(player.health, 0);
    assert_eq!(player.attack, 0);
    assert!(player.weapon.is_none());
    assert!(player.is_dead());
}

#[test]
fn bare_handed_player_deals_one_damage_to_undefended_monster() {
    let player = Player::new("You");
    let mut slime = Slime::new(1);
    assert_eq!(slime.get_stats().defence, 0);
    assert_eq!(slime.get_stats().health, 5);
    player.attack(&mut slime);
    assert_eq!(slime.get_stats().health, 4);
}

#[test]
fn player_damage_floors_at_zero() {
    let player = Player::new("You");
    let mut ogre = Ogre::new(4);
    assert_eq!(ogre.get_stats().defence, 5);
    let before = ogre.get_stats().health;
    player.attack(&mut ogre);
    assert_eq!(ogre.get_stats().health, before);
}

#[test]
fn weapon_bonus_counts_in_the_blow() {
    let mut player = Player::new("You");
    player.equip(Weapon::with_quality(WeaponType::Sword, WeaponQuality::Plain));
    assert_eq!(player.get_attack(), 11);
    let mut ogre = Ogre::new(1);
    assert_eq!(ogre.get_stats().health, 18);
    assert_eq!(ogre.get_stats().defence, 2);
    player.attack(&mut ogre);
    assert_eq!(ogre.get_stats().health, 9);
}

#[test]
fn monster_with_attack_two_deals_floor_damage_to_defence_five() {
    let mut player = Player::new("You");
    player.defence = 5;
    let slime = Slime::new(2);
    assert_eq!(slime.get_stats().attack, 2);
    slime.attack(&mut player);
    assert_eq!(player.health, 9);
}

#[test]
fn monster_damage_floors_at_one_on_equal_attack_and_defence() {
    let mut player = Player::new("You");
    player.defence = 3;
    let goblin = Goblin::new(1);
    assert_eq!(goblin.get_stats().attack, 3);
    goblin.attack(&mut player);
    assert_eq!(player.health, 9);
}

#[test]
fn monster_damage_is_attack_less_defence() {
    let mut player = Player::new("You");
    player.defence = 2;
    let ogre = Ogre::new(4);
    assert_eq!(ogre.get_stats().attack, 11);
    ogre.attack(&mut player);
    assert_eq!(player.health, 1);
    assert!(!player.is_dead());
    ogre.attack(&mut player);
    assert_eq!(player.health, -8);
    assert!(player.is_dead());
}

#[test]
fn is_dead_follows_the_sign_of_health() {
    let mut player = Player::new("You");
    player.health = 1;
    assert!(!player.is_dead());
    player.health = 0;
    assert!(player.is_dead());
    player.health = -3;
    assert!(player.is_dead());
}

#[test]
fn is_alive_follows_the_sign_of_health() {
    let mut slime = Slime::new(1);
    assert!(slime.is_alive());
    slime.take_damage(4);
    assert_eq!(slime.get_stats().health, 1);
    assert!(slime.is_alive());
    slime.take_damage(1);
    assert_eq!(slime.get_stats().health, 0);
    assert!(!slime.is_alive());
    slime.take_damage(2);
    assert!(!slime.is_alive());
}

#[test]
fn take_damage_changes_health_only() {
    let mut goblin = Goblin::new(3);
    goblin.take_damage(5);
    let stats = goblin.get_stats();
    assert_eq!(stats.name, "Goblin");
    assert_eq!(stats.level, 3);
    assert_eq!(stats.health, 9);
    assert_eq!(stats.attack, 5);
    assert_eq!(stats.defence, 1);
    assert_eq!(stats.speed, 9);
}

#[test]
fn weapon_values_by_kind_and_condition() {
    let cases = [
        (WeaponType::Sword, WeaponQuality::Broken, 5, "Broken Sword"),
        (WeaponType::Sword, WeaponQuality::Rusty, 8, "Rusty Sword"),
        (WeaponType::Sword, WeaponQuality::Plain, 10, " Sword"),
        (WeaponType::Sword, WeaponQuality::Sharp, 12, "Sharp Sword"),
        (WeaponType::Dagger, WeaponQuality::Broken, 2, "Broken Sword"),
        (WeaponType::Dagger, WeaponQuality::Rusty, 3, "Rusty Sword"),
        (WeaponType::Dagger, WeaponQuality::Plain, 5, " Sword"),
        (WeaponType::Dagger, WeaponQuality::Sharp, 7, "Sharp Sword"),
        (WeaponType::Axe, WeaponQuality::Broken, 7, "Broken Sword"),
        (WeaponType::Axe, WeaponQuality::Rusty, 13, "Rusty Sword"),
        (WeaponType::Axe, WeaponQuality::Plain, 15, " Sword"),
        (WeaponType::Axe, WeaponQuality::Sharp, 17, "Sharp Sword"),
    ];
    for (kind, quality, value, name) in cases {
        let weapon = Weapon::with_quality(kind, quality);
        assert_eq!(weapon.attack_value, value);
        assert_eq!(weapon.name, name);
        assert_eq!(weapon.weapon_type, kind);
        assert_eq!(weapon.rarity, Rarity::Common);
    }
}

#[test]
fn quality_from_index_follows_the_list() {
    assert_eq!(WeaponQuality::from_index(0), WeaponQuality::Broken);
    assert_eq!(WeaponQuality::from_index(1), WeaponQuality::Rusty);
    assert_eq!(WeaponQuality::from_index(2), WeaponQuality::Plain);
    assert_eq!(WeaponQuality::from_index(3), WeaponQuality::Sharp);
}

#[test]
fn random_weapon_is_one_of_the_four_conditions() {
    let mut seen = [false; 4];
    for _ in 0..400 {
        let weapon = Weapon::new(WeaponType::Axe);
        assert_eq!(weapon.weapon_type, WeaponType::Axe);
        assert_eq!(weapon.rarity, Rarity::Common);
        let place = match (weapon.attack_value, weapon.name.as_str()) {
            (7, "Broken Sword") => 0,
            (13, "Rusty Sword") => 1,
            (15, " Sword") => 2,
            (17, "Sharp Sword") => 3,
            other => panic!("not a weapon of the four conditions: {:?}", other),
        };
        seen[place] = true;
    }
    assert_eq!(seen, [true; 4]);
}

#[test]
fn empty_weapon_is_worth_nothing() {
    let weapon = Weapon::empty();
    assert_eq!(weapon.name, "");
    assert_eq!(weapon.weapon_type, WeaponType::Sword);
    assert_eq!(weapon.attack_value, 0);
    assert_eq!(weapon.rarity, Rarity::Common);
}

#[test]
fn labels_of_weapons() {
    assert_eq!(WeaponType::Sword.label(), "Sword");
    assert_eq!(WeaponType::Dagger.label(), "Dagger");
    assert_eq!(WeaponType::Axe.label(), "Axe");
    assert_eq!(Rarity::Common.label(), "common");
    assert_eq!(Rarity::Rare.label(), "rare");
    assert_eq!(Rarity::Epic.label(), "epic");
    assert_eq!(Rarity::Legendary.label(), "legendary");
    assert_eq!(Rarity::Mythical.label(), "mythical");
    let weapon = Weapon::with_quality(WeaponType::Dagger, WeaponQuality::Rusty);
    assert_eq!(weapon.describe(), "A common Dagger");
}

#[test]
fn equip_replaces_the_weapon_in_hand() {
    let mut player = Player::new("You");
    player.equip(Weapon::with_quality(WeaponType::Axe, WeaponQuality::Sharp));
    assert_eq!(player.get_attack(), 18);
    player.equip(Weapon::with_quality(WeaponType::Dagger, WeaponQuality::Broken));
    assert_eq!(player.get_attack(), 3);
    assert_eq!(player.health, 10);
    assert_eq!(player.name, "You");
}

#[test]
fn attack_with_another_weapon() {
    let mut player = Player::new("You");
    player.equip(Weapon::with_quality(WeaponType::Axe, WeaponQuality::Sharp));
    let other = Weapon::with_quality(WeaponType::Sword, WeaponQuality::Rusty);
    assert_eq!(player.attack_with(&other), 9);
    assert_eq!(player.get_attack(), 18);
}

#[test]
fn player_card() {
    let mut player = Player::new("You");
    player.health = -3;
    player.attack = 120;
    assert_eq!(
        player.describe(),
        "===== You =====\nHealth: -3\nAttack: 120\nDefense: 0\nSpeed: 1\n"
    );
}

#[test]
fn typed_line_asks_for_an_action() {
    assert_eq!(Action::from_input("2"), Action::Run);
    assert_eq!(Action::from_input(" 2\n"), Action::Run);
    assert_eq!(Action::from_input("\t2 \r\n"), Action::Run);
    assert_eq!(Action::from_input("\u{3000}2\u{a0}"), Action::Run);
    assert_eq!(Action::from_input("1"), Action::Attack);
    assert_eq!(Action::from_input(""), Action::Attack);
    assert_eq!(Action::from_input("22"), Action::Attack);
    assert_eq!(Action::from_input("2 2"), Action::Attack);
    assert_eq!(Action::from_input("run"), Action::Attack);
    assert_eq!(Action::from_trimmed("2"), Action::Run);
    assert_eq!(Action::from_trimmed(" 2"), Action::Attack);
}
