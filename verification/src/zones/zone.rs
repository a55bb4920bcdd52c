//! The catalog of zones. A zone is a fixed description: its name, the
//! species that live only there, its boss, and the levels of its monsters.

use vstd::prelude::*;

verus! {

/// How hard a zone is.
#[derive(Debug, PartialEq, Eq, Clone, Copy, Structural)]
pub enum ZoneDifficulty {
    Normal,
}

impl Default for ZoneDifficulty {
    fn default() -> (difficulty: Self)
        ensures
            difficulty == ZoneDifficulty::Normal,
    {
        ZoneDifficulty::Normal
    }
}

impl ZoneDifficulty {
    /// The word that names the difficulty on screen.
    pub open spec fn label_text(self) -> Seq<char> {
        "Normal"@
    }

    /// The difficulty as text.
    pub fn label(&self) -> (text: String)
        ensures
            text@ == self.label_text(),
    {
        String::from_str("Normal")
    }

    /// The lowest and the highest level of a monster, both included.
    pub open spec fn level_range(self) -> (int, int) {
        (1, 4)
    }
}

/// The theme of a zone.
#[derive(Debug, PartialEq, Eq, Clone, Copy, Structural)]
pub enum ZoneType {
    Jungle,
}

impl Default for ZoneType {
    fn default() -> (zone_type: Self)
        ensures
            zone_type == ZoneType::Jungle,
    {
        ZoneType::Jungle
    }
}

impl ZoneType {
    /// The word that names the theme on screen.
    pub open spec fn label_text(self) -> Seq<char> {
        "Jungle"@
    }

    /// The theme as text.
    pub fn label(&self) -> (text: String)
        ensures
            text@ == self.label_text(),
    {
        String::from_str("Jungle")
    }
}

/// One entry of the catalog.
#[derive(Debug)]
pub struct Zone {
    pub zone_type: ZoneType,
    pub difficulty: ZoneDifficulty,
    pub name: String,
    pub description: String,
    pub recommended_level: i32,
    pub unique_monsters: Vec<String>,
    pub boss_name: String,
}

/// A zone as the contracts see it: texts as sequences of characters.
pub struct ZoneView {
    pub zone_type: ZoneType,
    pub difficulty: ZoneDifficulty,
    pub name: Seq<char>,
    pub description: Seq<char>,
    pub recommended_level: int,
    pub unique_monsters: Seq<Seq<char>>,
    pub boss_name: Seq<char>,
}

impl View for Zone {
    type V = ZoneView;

    open spec fn view(&self) -> ZoneView {
        ZoneView {
            zone_type: self.zone_type,
            difficulty: self.difficulty,
            name: self.name@,
            description: self.description@,
            recommended_level: self.recommended_level as int,
            unique_monsters: self.unique_monsters.deep_view(),
            boss_name: self.boss_name@,
        }
    }
}

/// The names of the three species that live in the jungle.
pub open spec fn jungle_species() -> Seq<Seq<char>> {
    seq!["Slime"@, "Goblin"@, "Ogre"@]
}

/// The catalog entry of a theme at a difficulty.
pub open spec fn catalog_entry(zone_type: ZoneType, difficulty: ZoneDifficulty) -> ZoneView {
    ZoneView {
        zone_type,
        difficulty,
        name: "Jungle"@,
        description: "Dangerous heart of the jungle"@,
        recommended_level: 1,
        unique_monsters: jungle_species(),
        boss_name: "Giant Spider"@,
    }
}

/// The zone that stands in before a run has begun: the jungle at normal
/// difficulty with empty texts and no species of its own.
pub open spec fn blank_zone() -> ZoneView {
    ZoneView {
        zone_type: ZoneType::Jungle,
        difficulty: ZoneDifficulty::Normal,
        name: Seq::empty(),
        description: Seq::empty(),
        recommended_level: 0,
        unique_monsters: Seq::empty(),
        boss_name: Seq::empty(),
    }
}

impl Default for Zone {
    fn default() -> (zone: Self)
        ensures
            zone@ == blank_zone(),
    {
        let zone = Zone {
            zone_type: ZoneType::Jungle,
            difficulty: ZoneDifficulty::Normal,
            name: String::new(),
            description: String::new(),
            recommended_level: 0,
            unique_monsters: Vec::new(),
            boss_name: String::new(),
        };
        assert(zone.unique_monsters.deep_view() =~= Seq::<Seq<char>>::empty());
        zone
    }
}

impl Clone for Zone {
    fn clone(&self) -> (copy: Self)
        ensures
            copy@ == self@,
    {
        let mut unique_monsters: Vec<String> = Vec::new();
        let mut i: usize = 0;
        while i < self.unique_monsters.len()
            invariant
                i <= self.unique_monsters.len(),
                unique_monsters.len() == i,
                forall|j: int| 0 <= j < i ==> unique_monsters[j]@ == self.unique_monsters[j]@,
            decreases self.unique_monsters.len() - i,
        {
            unique_monsters.push(self.unique_monsters[i].clone());
            i += 1;
        }
        assert(unique_monsters.deep_view() =~= self.unique_monsters.deep_view());
        Zone {
            zone_type: self.zone_type,
            difficulty: self.difficulty,
            name: self.name.clone(),
            description: self.description.clone(),
            recommended_level: self.recommended_level,
            unique_monsters,
            boss_name: self.boss_name.clone(),
        }
    }
}

impl Zone {
    /// The catalog entry of a theme at a difficulty.
    pub fn new(zone_type: ZoneType, difficulty: ZoneDifficulty) -> (zone: Self)
        ensures
            zone@ == catalog_entry(zone_type, difficulty),
    {
        let (name, description, recommended_level, unique_monsters, boss_name) = match zone_type {
            ZoneType::Jungle => Self::jungle_data(&difficulty),
        };
        Zone {
            zone_type,
            difficulty,
            name,
            description,
            recommended_level,
            unique_monsters,
            boss_name,
        }
    }

    /// The texts and species of the jungle: its name, its description, the
    /// level recommended to enter it, its own species, and its boss.
    pub fn jungle_data(difficulty: &ZoneDifficulty) -> (data: (
        String,
        String,
        i32,
        Vec<String>,
        String,
    ))
        ensures
            data.0@ == "Jungle"@,
            data.1@ == "Dangerous heart of the jungle"@,
            data.2 == 1,
            data.3.deep_view() == jungle_species(),
            data.4@ == "Giant Spider"@,
    {
        let species: Vec<String> = vec![
            String::from_str("Slime"),
            String::from_str("Goblin"),
            String::from_str("Ogre"),
        ];
        assert(species.deep_view() =~= jungle_species());
        match difficulty {
            ZoneDifficulty::Normal => (
                String::from_str("Jungle"),
                String::from_str("Dangerous heart of the jungle"),
                1,
                species,
                String::from_str("Giant Spider"),
            ),
        }
    }

    /// The lowest and the highest level of this zone's monsters, both
    /// included. The lowest is never above the highest.
    pub fn get_monster_level_range(&self) -> (range: (i32, i32))
        ensures
            (range.0 as int, range.1 as int) == self.difficulty.level_range(),
            range.0 <= range.1,
    {
        match self.difficulty {
            ZoneDifficulty::Normal => (1, 4),
        }
    }

    /// The zones that can be played: at present the jungle alone.
    pub fn get_available_zones() -> (zones: Vec<Self>)
        ensures
            zones.len() == 1,
            zones[0]@ == catalog_entry(ZoneType::Jungle, ZoneDifficulty::Normal),
    {
        vec![Self::new(ZoneType::Jungle, ZoneDifficulty::Normal)]
    }
}

} // verus!
