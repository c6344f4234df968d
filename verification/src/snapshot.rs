//! Snapshots: a character record as it is kept between sittings, each part
//! of which may be missing from a record that an earlier version wrote.
use vstd::prelude::*;
use crate::advantages::BaseAdvantages;
use crate::merits::Merit;
use crate::state::{BaseCharacter, CharacterModel};
use crate::tracks::Tracker;
use crate::traits::{
    attribute_entries_ordered, attribute_ranks, skill_entries_ordered, skill_ranks,
    AttributeStore, BaseAttribute, BaseSkill, SkillStore,
};

verus! {

/// A character record with each part present or missing. Attributes and
/// skills are lists of entries.
#[derive(Clone, Debug)]
pub struct CharacterSnapshot {
    pub advantages: Option<BaseAdvantages>,
    pub aspirations: Option<Vec<String>>,
    pub attributes: Option<Vec<BaseAttribute>>,
    pub beats: Option<Tracker>,
    pub experience: Option<usize>,
    pub merits: Option<Vec<Merit>>,
    pub skills: Option<Vec<BaseSkill>>,
    pub specialties: Option<Vec<String>>,
}

impl CharacterSnapshot {
    /// The record that the snapshot stands for. A part that is missing is
    /// that of a new character: the traits all at their default rank, the
    /// trackers without a filled box, the lists empty.
    pub open spec fn restored(self) -> CharacterModel {
        let fresh = CharacterModel::fresh();
        CharacterModel {
            advantages: match self.advantages {
                Some(advantages) => advantages@,
                None => fresh.advantages,
            },
            aspirations: match self.aspirations {
                Some(aspirations) => aspirations@,
                None => fresh.aspirations,
            },
            attributes: match self.attributes {
                Some(entries) => attribute_ranks(entries@),
                None => fresh.attributes,
            },
            beats: match self.beats {
                Some(beats) => beats@,
                None => fresh.beats,
            },
            experience: match self.experience {
                Some(experience) => experience as nat,
                None => fresh.experience,
            },
            merits: match self.merits {
                Some(merits) => merits@,
                None => fresh.merits,
            },
            skills: match self.skills {
                Some(entries) => skill_ranks(entries@),
                None => fresh.skills,
            },
            specialties: match self.specialties {
                Some(specialties) => specialties@,
                None => fresh.specialties,
            },
        }
    }

    /// The snapshot is the one that is taken of `character`: no part is
    /// missing, each part is that of the record, and the traits that have a
    /// rank are listed in the order of declaration.
    pub open spec fn taken_of(self, character: CharacterModel) -> bool {
        &&& self.advantages matches Some(advantages) && advantages@ == character.advantages
        &&& self.aspirations matches Some(aspirations) && aspirations@ == character.aspirations
        &&& self.attributes matches Some(entries) && attribute_ranks(entries@)
            == character.attributes && attribute_entries_ordered(entries@)
        &&& self.beats matches Some(beats) && beats@ == character.beats
        &&& self.experience matches Some(experience) && experience == character.experience
        &&& self.merits matches Some(merits) && merits@ == character.merits
        &&& self.skills matches Some(entries) && skill_ranks(entries@) == character.skills
            && skill_entries_ordered(entries@)
        &&& self.specialties matches Some(specialties) && specialties@ == character.specialties
    }
}

impl BaseCharacter {
    /// Takes the record apart into a snapshot with no part missing.
    pub fn intoSnapshot(self) -> (snapshot: CharacterSnapshot)
        ensures
            snapshot.taken_of(self@),
    {
        let attributes = self.attributes.entries();
        let skills = self.skills.entries();
        CharacterSnapshot {
            advantages: Some(self.advantages),
            aspirations: Some(self.aspirations),
            attributes: Some(attributes),
            beats: Some(self.beats),
            experience: Some(self.experience),
            merits: Some(self.merits),
            skills: Some(skills),
            specialties: Some(self.specialties),
        }
    }

    /// Builds the record that a snapshot stands for, filling each missing
    /// part from a new character.
    pub fn fromSnapshot(snapshot: CharacterSnapshot) -> (character: BaseCharacter)
        ensures
            character@ == snapshot.restored(),
    {
        let fresh = BaseCharacter::new();
        BaseCharacter {
            advantages: match snapshot.advantages {
                Some(advantages) => advantages,
                None => fresh.advantages,
            },
            aspirations: match snapshot.aspirations {
                Some(aspirations) => aspirations,
                None => fresh.aspirations,
            },
            attributes: match snapshot.attributes {
                Some(entries) => AttributeStore::fromEntries(&entries),
                None => fresh.attributes,
            },
            beats: match snapshot.beats {
                Some(beats) => beats,
                None => fresh.beats,
            },
            experience: match snapshot.experience {
                Some(experience) => experience,
                None => fresh.experience,
            },
            merits: match snapshot.merits {
                Some(merits) => merits,
                None => fresh.merits,
            },
            skills: match snapshot.skills {
                Some(entries) => SkillStore::fromEntries(&entries),
                None => fresh.skills,
            },
            specialties: match snapshot.specialties {
                Some(specialties) => specialties,
                None => fresh.specialties,
            },
        }
    }
}

/// A snapshot taken of a record stands for that record: every trait rank,
/// every advantage, every tracker and every list comes back as it was.
pub proof fn law_snapshot_round_trip(character: CharacterModel, snapshot: CharacterSnapshot)
    requires
        snapshot.taken_of(character),
    ensures
        snapshot.restored() == character,
{
}

/// A snapshot with every part missing stands for a new character.
pub proof fn law_empty_snapshot_is_fresh(snapshot: CharacterSnapshot)
    requires
        snapshot.advantages is None,
        snapshot.aspirations is None,
        snapshot.attributes is None,
        snapshot.beats is None,
        snapshot.experience is None,
        snapshot.merits is None,
        snapshot.skills is None,
        snapshot.specialties is None,
    ensures
        snapshot.restored() == CharacterModel::fresh(),
{
}

} // verus!
