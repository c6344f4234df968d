use charsheet::advantages::BaseAdvantageType;
use charsheet::merits::Merit;
use charsheet::snapshot::CharacterSnapshot;
use charsheet::state::{
    updateBaseAdvantage, updateBaseAttribute, updateBaseBeats, updateBaseHealth,
    updateBaseSkill, updateBaseWillpower, BaseCharacter,
};
use charsheet::tracks::{Tracker, TrackerState};
use charsheet::traits::{
    AttributeStore, BaseAttribute, BaseAttributeType, BaseSkill, BaseSkillType, SheetError,
    SkillStore,
};

fn nothing() -> CharacterSnapshot {
    CharacterSnapshot {
        advantages: None,
        aspirations: None,
        attributes: None,
        beats: None,
        experience: None,
        merits: None,
        skills: None,
        specialties: None,
    }
}

fn edited() -> BaseCharacter {
    let mut character = BaseCharacter::new();
    assert_eq!(updateBaseAttribute(&mut character, &BaseAttributeType::Dexterity, 4), Ok(()));
    assert_eq!(updateBaseAttribute(&mut character, &BaseAttributeType::Resolve, 3), Ok(()));
    assert_eq!(updateBaseSkill(&mut character, &BaseSkillType::Athletics, 2), Ok(()));
    assert_eq!(updateBaseSkill(&mut character, &BaseSkillType::Occult, 5), Ok(()));
    assert_eq!(updateBaseAdvantage(&mut character, BaseAdvantageType::Size, 6), Ok(()));
    updateBaseHealth(&mut character, TrackerState::One, false, None);
    updateBaseHealth(&mut character, TrackerState::Three, false, None);
    updateBaseWillpower(&mut character, 1);
    updateBaseBeats(&mut character, 2, false);
    character.experience = 12;
    character.aspirations.push("Find the door".to_string());
    character.specialties.push("Climbing".to_string());
    character.merits.push(Merit { name: "Fleet of Foot".to_string(), value: 2 });
    character
}

#[test]
fn all_lists_every_trait_once_in_order() {
    let attributes = BaseAttributeType::all();
    assert_eq!(attributes.len(), 9);
    assert_eq!(attributes[0], BaseAttributeType::Composure);
    assert_eq!(attributes[6], BaseAttributeType::Stamina);
    assert_eq!(attributes[8], BaseAttributeType::Wits);
    let skills = BaseSkillType::all();
    assert_eq!(skills.len(), 24);
    assert_eq!(skills[0], BaseSkillType::Academics);
    assert_eq!(skills[2], BaseSkillType::Athletics);
    assert_eq!(skills[23], BaseSkillType::Weaponry);
    for i in 0..skills.len() {
        for j in 0..i {
            assert_ne!(skills[i], skills[j]);
        }
    }
    for i in 0..attributes.len() {
        for j in 0..i {
            assert_ne!(attributes[i], attributes[j]);
        }
    }
}

#[test]
fn entries_list_the_held_ranks_in_order() {
    let mut store = AttributeStore::empty();
    assert!(store.entries().is_empty());
    store.insert(BaseAttributeType::Wits, 4);
    store.insert(BaseAttributeType::Dexterity, 2);
    assert_eq!(
        store.entries(),
        vec![
            BaseAttribute { attributeType: BaseAttributeType::Dexterity, value: 2 },
            BaseAttribute { attributeType: BaseAttributeType::Wits, value: 4 },
        ]
    );
    let mut skills = SkillStore::empty();
    skills.insert(BaseSkillType::Weaponry, 1);
    skills.insert(BaseSkillType::Academics, 3);
    assert_eq!(
        skills.entries(),
        vec![
            BaseSkill { skillType: BaseSkillType::Academics, value: 3 },
            BaseSkill { skillType: BaseSkillType::Weaponry, value: 1 },
        ]
    );
    assert_eq!(BaseAttribute::newAllAttributes().entries().len(), 9);
    assert_eq!(BaseSkill::newAllSkills().entries().len(), 24);
}

#[test]
fn from_entries_lets_the_later_entry_count() {
    let entries = vec![
        BaseAttribute { attributeType: BaseAttributeType::Stamina, value: 2 },
        BaseAttribute { attributeType: BaseAttributeType::Presence, value: 1 },
        BaseAttribute { attributeType: BaseAttributeType::Stamina, value: 5 },
    ];
    let store = AttributeStore::fromEntries(&entries);
    assert_eq!(
        store.entries(),
        vec![
            BaseAttribute { attributeType: BaseAttributeType::Presence, value: 1 },
            BaseAttribute { attributeType: BaseAttributeType::Stamina, value: 5 },
        ]
    );
    let skills = SkillStore::fromEntries(&vec![
        BaseSkill { skillType: BaseSkillType::Stealth, value: 1 },
        BaseSkill { skillType: BaseSkillType::Stealth, value: 4 },
    ]);
    assert_eq!(
        skills.entries(),
        vec![BaseSkill { skillType: BaseSkillType::Stealth, value: 4 }]
    );
}

#[test]
fn snapshot_round_trip_keeps_every_part() {
    let character = edited();
    let expected = edited();
    let restored = BaseCharacter::fromSnapshot(character.intoSnapshot());
    assert_eq!(restored.attributes.entries(), expected.attributes.entries());
    assert_eq!(restored.skills.entries(), expected.skills.entries());
    assert_eq!(restored.advantages.defense, expected.advantages.defense);
    assert_eq!(restored.advantages.defense, 3);
    assert_eq!(restored.advantages.initiative, 5);
    assert_eq!(restored.advantages.size, 6);
    assert_eq!(restored.advantages.speed, 10);
    assert_eq!(restored.advantages.health.max, 7);
    assert_eq!(restored.advantages.willpower.max, 4);
    assert_eq!(
        restored.advantages.health.values,
        vec![TrackerState::One, TrackerState::Three]
    );
    assert_eq!(restored.advantages.willpower.values, vec![TrackerState::Two; 2]);
    assert_eq!(restored.beats.values, vec![TrackerState::Two; 3]);
    assert_eq!(restored.beats.max, 5);
    assert_eq!(restored.experience, 12);
    assert_eq!(restored.aspirations, vec!["Find the door".to_string()]);
    assert_eq!(restored.specialties, vec!["Climbing".to_string()]);
    assert_eq!(restored.merits.len(), 1);
    assert_eq!(restored.merits[0].name, "Fleet of Foot");
    assert_eq!(restored.merits[0].value, 2);
}

#[test]
fn snapshot_of_a_record_misses_no_part() {
    let snapshot = edited().intoSnapshot();
    assert!(snapshot.advantages.is_some());
    assert!(snapshot.aspirations.is_some());
    assert_eq!(snapshot.attributes.as_ref().map(|entries| entries.len()), Some(9));
    assert!(snapshot.beats.is_some());
    assert_eq!(snapshot.experience, Some(12));
    assert!(snapshot.merits.is_some());
    assert_eq!(snapshot.skills.as_ref().map(|entries| entries.len()), Some(24));
    assert!(snapshot.specialties.is_some());
}

#[test]
fn snapshot_without_any_part_gives_a_new_character() {
    let restored = BaseCharacter::fromSnapshot(nothing());
    let fresh = BaseCharacter::new();
    assert_eq!(restored.attributes.entries(), fresh.attributes.entries());
    assert_eq!(restored.attributes.entries().len(), 9);
    assert_eq!(restored.skills.entries().len(), 24);
    assert_eq!(restored.advantages.size, 5);
    assert_eq!(restored.advantages.defense, 1);
    assert_eq!(restored.advantages.health.max, 6);
    assert!(restored.advantages.health.values.is_empty());
    assert!(restored.beats.values.is_empty());
    assert_eq!(restored.beats.max, 5);
    assert_eq!(restored.experience, 0);
    assert!(restored.aspirations.is_empty());
    assert!(restored.merits.is_empty());
    assert!(restored.specialties.is_empty());
}

#[test]
fn snapshot_without_traits_is_refilled_with_every_trait() {
    let mut snapshot = nothing();
    let mut beats = Tracker::new(5);
    beats.add(TrackerState::Two);
    snapshot.beats = Some(beats);
    snapshot.experience = Some(3);
    let restored = BaseCharacter::fromSnapshot(snapshot);
    for attributeType in BaseAttributeType::all() {
        assert_eq!(
            restored.attributes.get(attributeType),
            Some(BaseAttribute { attributeType, value: 1 })
        );
    }
    for skillType in BaseSkillType::all() {
        assert_eq!(restored.skills.get(skillType), Some(BaseSkill { skillType, value: 0 }));
    }
    assert_eq!(restored.beats.values, vec![TrackerState::Two]);
    assert_eq!(restored.experience, 3);
}

#[test]
fn snapshot_with_some_traits_keeps_just_those() {
    let mut snapshot = nothing();
    snapshot.attributes =
        Some(vec![BaseAttribute { attributeType: BaseAttributeType::Strength, value: 3 }]);
    let restored = BaseCharacter::fromSnapshot(snapshot);
    assert_eq!(
        restored.attributes.entries(),
        vec![BaseAttribute { attributeType: BaseAttributeType::Strength, value: 3 }]
    );
    assert_eq!(restored.skills.entries().len(), 24);
}

#[test]
fn default_character_is_a_new_character() {
    let character = BaseCharacter::default();
    assert_eq!(character.attributes.entries(), BaseCharacter::new().attributes.entries());
    assert_eq!(character.advantages.speed, 7);
    assert_eq!(character.beats.max, 5);
}

#[test]
fn from_index_names_the_trait_at_a_place() {
    assert_eq!(BaseAttributeType::fromIndex(0), Ok(BaseAttributeType::Composure));
    assert_eq!(BaseAttributeType::fromIndex(5), Ok(BaseAttributeType::Resolve));
    assert_eq!(BaseAttributeType::fromIndex(8), Ok(BaseAttributeType::Wits));
    assert_eq!(BaseSkillType::fromIndex(0), Ok(BaseSkillType::Academics));
    assert_eq!(BaseSkillType::fromIndex(14), Ok(BaseSkillType::Occult));
    assert_eq!(BaseSkillType::fromIndex(23), Ok(BaseSkillType::Weaponry));
}

#[test]
fn from_index_past_the_last_trait_is_unknown() {
    assert_eq!(BaseAttributeType::fromIndex(9), Err(SheetError::UnknownTraitId));
    assert_eq!(BaseAttributeType::fromIndex(usize::MAX), Err(SheetError::UnknownTraitId));
    assert_eq!(BaseSkillType::fromIndex(24), Err(SheetError::UnknownTraitId));
    assert_eq!(BaseSkillType::fromIndex(usize::MAX), Err(SheetError::UnknownTraitId));
}
