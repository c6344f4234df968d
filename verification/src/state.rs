//! The character record and the edits that keep its advantages in step with
//! its traits.
use vstd::prelude::*;
use crate::advantages::{
    clamped_size, clampSize, defense_from, deriveDefense, deriveHealthMax, deriveInitiative,
    deriveSpeed, deriveWillpowerMax, health_max_from, initiative_from, speed_from,
    willpower_max_from, AdvantagesModel, BaseAdvantageType, BaseAdvantages, SIZE_DEFAULT,
    SIZE_MAX, SIZE_MIN,
};
use crate::merits::Merit;
use crate::tracks::{
    fill_level, run_of, with_box, without_last, without_last_n, Tracker, TrackerModel,
    TrackerState,
};
use crate::traits::{
    AttributeStore, BaseAttribute, BaseAttributeType, BaseSkill, BaseSkillType, SheetError,
    SkillStore, ATTRIBUTE_DEFAULT, SKILL_DEFAULT,
};

verus! {

/// Everything that is recorded of one character.
#[derive(Clone, Debug)]
pub struct BaseCharacter {
    pub advantages: BaseAdvantages,
    pub aspirations: Vec<String>,
    pub attributes: AttributeStore,
    pub beats: Tracker,
    pub experience: usize,
    pub merits: Vec<Merit>,
    pub skills: SkillStore,
    pub specialties: Vec<String>,
}

/// The number of beat boxes on a sheet.
pub const BEATS_MAX: u64 = 5;

/// What a character record is, mathematically.
pub ghost struct CharacterModel {
    pub advantages: AdvantagesModel,
    pub aspirations: Seq<String>,
    pub attributes: Map<BaseAttributeType, u32>,
    pub beats: TrackerModel,
    pub experience: nat,
    pub merits: Seq<Merit>,
    pub skills: Map<BaseSkillType, u32>,
    pub specialties: Seq<String>,
}

impl View for BaseCharacter {
    type V = CharacterModel;

    open spec fn view(&self) -> CharacterModel {
        CharacterModel {
            advantages: self.advantages@,
            aspirations: self.aspirations@,
            attributes: self.attributes@,
            beats: self.beats@,
            experience: self.experience as nat,
            merits: self.merits@,
            skills: self.skills@,
            specialties: self.specialties@,
        }
    }
}

impl CharacterModel {
    /// The rank of an attribute.
    pub open spec fn attribute(self, attributeType: BaseAttributeType) -> int {
        self.attributes[attributeType] as int
    }

    /// The rank of a skill.
    pub open spec fn skill(self, skillType: BaseSkillType) -> int {
        self.skills[skillType] as int
    }

    /// Defense as the traits give it.
    pub open spec fn derived_defense(self) -> int {
        defense_from(
            self.attribute(BaseAttributeType::Dexterity),
            self.attribute(BaseAttributeType::Wits),
            self.skill(BaseSkillType::Athletics),
        )
    }

    /// Initiative as the traits give it.
    pub open spec fn derived_initiative(self) -> int {
        initiative_from(
            self.attribute(BaseAttributeType::Dexterity),
            self.attribute(BaseAttributeType::Composure),
        )
    }

    /// Speed as the size and the traits give it.
    pub open spec fn derived_speed(self) -> int {
        speed_from(
            self.advantages.size,
            self.attribute(BaseAttributeType::Dexterity),
            self.attribute(BaseAttributeType::Strength),
        )
    }

    /// The number of health boxes as the size and the traits give it.
    pub open spec fn derived_health_max(self) -> int {
        health_max_from(self.advantages.size, self.attribute(BaseAttributeType::Stamina))
    }

    /// The number of willpower boxes as the traits give it.
    pub open spec fn derived_willpower_max(self) -> int {
        willpower_max_from(
            self.attribute(BaseAttributeType::Resolve),
            self.attribute(BaseAttributeType::Composure),
        )
    }

    /// The record with another defense.
    pub open spec fn with_defense(self, defense: int) -> CharacterModel {
        CharacterModel { advantages: AdvantagesModel { defense, ..self.advantages }, ..self }
    }

    /// The record with another initiative.
    pub open spec fn with_initiative(self, initiative: int) -> CharacterModel {
        CharacterModel { advantages: AdvantagesModel { initiative, ..self.advantages }, ..self }
    }

    /// The record with another speed.
    pub open spec fn with_speed(self, speed: int) -> CharacterModel {
        CharacterModel { advantages: AdvantagesModel { speed, ..self.advantages }, ..self }
    }

    /// The record with another number of health boxes.
    pub open spec fn with_health_max(self, max: int) -> CharacterModel {
        CharacterModel {
            advantages: AdvantagesModel {
                health: TrackerModel { max, ..self.advantages.health },
                ..self.advantages
            },
            ..self
        }
    }

    /// The record with another number of willpower boxes.
    pub open spec fn with_willpower_max(self, max: int) -> CharacterModel {
        CharacterModel {
            advantages: AdvantagesModel {
                willpower: TrackerModel { max, ..self.advantages.willpower },
                ..self.advantages
            },
            ..self
        }
    }

    /// The record with another size.
    pub open spec fn with_size(self, size: int) -> CharacterModel {
        CharacterModel { advantages: AdvantagesModel { size, ..self.advantages }, ..self }
    }

    /// Whether every trait has a rank that an edit of `attributeType` writes or
    /// reads.
    pub open spec fn knows_attribute_edit(self, attributeType: BaseAttributeType) -> bool {
        &&& self.attributes.contains_key(attributeType)
        &&& match attributeType {
            BaseAttributeType::Composure => {
                &&& self.attributes.contains_key(BaseAttributeType::Dexterity)
                &&& self.attributes.contains_key(BaseAttributeType::Resolve)
            },
            BaseAttributeType::Dexterity => {
                &&& self.attributes.contains_key(BaseAttributeType::Wits)
                &&& self.attributes.contains_key(BaseAttributeType::Composure)
                &&& self.attributes.contains_key(BaseAttributeType::Strength)
                &&& self.skills.contains_key(BaseSkillType::Athletics)
            },
            BaseAttributeType::Resolve => self.attributes.contains_key(
                BaseAttributeType::Composure,
            ),
            BaseAttributeType::Strength => self.attributes.contains_key(
                BaseAttributeType::Dexterity,
            ),
            BaseAttributeType::Wits => {
                &&& self.attributes.contains_key(BaseAttributeType::Dexterity)
                &&& self.skills.contains_key(BaseSkillType::Athletics)
            },
            _ => true,
        }
    }

    /// The record after an attribute got a new rank: the rank is written, and
    /// each advantage that rests on that attribute is derived anew.
    pub open spec fn after_attribute(
        self,
        attributeType: BaseAttributeType,
        value: u32,
    ) -> CharacterModel {
        let written = CharacterModel {
            attributes: self.attributes.insert(attributeType, value),
            ..self
        };
        match attributeType {
            BaseAttributeType::Composure => written.with_initiative(
                written.derived_initiative(),
            ).with_willpower_max(written.derived_willpower_max()),
            BaseAttributeType::Dexterity => written.with_defense(
                written.derived_defense(),
            ).with_initiative(written.derived_initiative()).with_speed(written.derived_speed()),
            BaseAttributeType::Resolve => written.with_willpower_max(
                written.derived_willpower_max(),
            ),
            BaseAttributeType::Stamina => written.with_health_max(written.derived_health_max()),
            BaseAttributeType::Strength => written.with_speed(written.derived_speed()),
            BaseAttributeType::Wits => written.with_defense(written.derived_defense()),
            _ => written,
        }
    }
}

impl CharacterModel {
    /// Whether the one skill has a rank that an edit of `skillType` writes,
    /// and every trait that it reads.
    pub open spec fn knows_skill_edit(self, skillType: BaseSkillType) -> bool {
        &&& self.skills.contains_key(skillType)
        &&& skillType == BaseSkillType::Athletics ==> {
            &&& self.attributes.contains_key(BaseAttributeType::Dexterity)
            &&& self.attributes.contains_key(BaseAttributeType::Wits)
        }
    }

    /// The record after a skill got a new rank: the rank is written, and
    /// defense is derived anew where the skill is athletics.
    pub open spec fn after_skill(self, skillType: BaseSkillType, value: u32) -> CharacterModel {
        let written = CharacterModel { skills: self.skills.insert(skillType, value), ..self };
        if skillType == BaseSkillType::Athletics {
            written.with_defense(written.derived_defense())
        } else {
            written
        }
    }

    /// Whether every trait has a rank that an edit of `advantage` reads.
    pub open spec fn knows_advantage_edit(self, advantage: BaseAdvantageType) -> bool {
        advantage == BaseAdvantageType::Size ==> self.attributes.contains_key(
            BaseAttributeType::Stamina,
        )
    }

    /// The record after an advantage was set by hand. Defense, initiative and
    /// speed take the value as it is; health and willpower take it as their
    /// number of boxes; size takes the nearest size there is, and the number
    /// of health boxes follows it.
    pub open spec fn after_advantage(
        self,
        advantage: BaseAdvantageType,
        value: u64,
    ) -> CharacterModel {
        match advantage {
            BaseAdvantageType::Defense => self.with_defense(value as int),
            BaseAdvantageType::Health => self.with_health_max(value as int),
            BaseAdvantageType::Initiative => self.with_initiative(value as int),
            BaseAdvantageType::Size => {
                let sized = self.with_size(clamped_size(value as int));
                sized.with_health_max(sized.derived_health_max())
            },
            BaseAdvantageType::Speed => self.with_speed(value as int),
            BaseAdvantageType::Willpower => self.with_willpower_max(value as int),
        }
    }

    /// The record with other health boxes filled.
    pub open spec fn with_health_values(self, values: Seq<TrackerState>) -> CharacterModel {
        CharacterModel {
            advantages: AdvantagesModel {
                health: TrackerModel { values, ..self.advantages.health },
                ..self.advantages
            },
            ..self
        }
    }

    /// The record with other willpower boxes filled.
    pub open spec fn with_willpower_values(self, values: Seq<TrackerState>) -> CharacterModel {
        CharacterModel {
            advantages: AdvantagesModel {
                willpower: TrackerModel { values, ..self.advantages.willpower },
                ..self.advantages
            },
            ..self
        }
    }

    /// The record with other beats filled.
    pub open spec fn with_beats_values(self, values: Seq<TrackerState>) -> CharacterModel {
        CharacterModel { beats: TrackerModel { values, ..self.beats }, ..self }
    }

    /// The record after damage was marked or healed: with `remove` the last
    /// box of that damage is emptied; else the box at `index` takes the
    /// damage, or, without an index, one more box is filled with it.
    pub open spec fn after_health(
        self,
        damageType: TrackerState,
        remove: bool,
        index: Option<usize>,
    ) -> CharacterModel {
        let values = self.advantages.health.values;
        self.with_health_values(
            if remove {
                without_last(values, damageType)
            } else {
                match index {
                    Some(i) => with_box(values, damageType, i as int, false),
                    None => values.push(damageType),
                }
            },
        )
    }
}

impl CharacterModel {
    /// Every attribute and every skill has a rank.
    pub open spec fn complete(self) -> bool {
        &&& forall|t: BaseAttributeType| self.attributes.contains_key(t)
        &&& forall|t: BaseSkillType| self.skills.contains_key(t)
    }

    /// The size is one that a character can have.
    pub open spec fn sized(self) -> bool {
        SIZE_MIN <= self.advantages.size <= SIZE_MAX
    }

    /// The record of a new character: every trait at its default rank, the
    /// default size, the advantages derived from these, no box filled and
    /// every list empty.
    pub open spec fn fresh() -> CharacterModel {
        let unfilled = TrackerModel { max: 0, values: Seq::empty() };
        let blank = CharacterModel {
            advantages: AdvantagesModel {
                defense: 0,
                health: unfilled,
                initiative: 0,
                size: SIZE_DEFAULT as int,
                speed: 0,
                willpower: unfilled,
            },
            aspirations: Seq::empty(),
            attributes: Map::new(
                |t: BaseAttributeType| true,
                |t: BaseAttributeType| ATTRIBUTE_DEFAULT,
            ),
            beats: TrackerModel { max: BEATS_MAX as int, values: Seq::empty() },
            experience: 0,
            merits: Seq::empty(),
            skills: Map::new(|t: BaseSkillType| true, |t: BaseSkillType| SKILL_DEFAULT),
            specialties: Seq::empty(),
        };
        blank.with_defense(blank.derived_defense()).with_initiative(
            blank.derived_initiative(),
        ).with_speed(blank.derived_speed()).with_health_max(
            blank.derived_health_max(),
        ).with_willpower_max(blank.derived_willpower_max())
    }

    /// Each derived advantage is what the size and the traits give.
    pub open spec fn in_step(self) -> bool {
        &&& self.advantages.defense == self.derived_defense()
        &&& self.advantages.initiative == self.derived_initiative()
        &&& self.advantages.speed == self.derived_speed()
        &&& self.advantages.health.max == self.derived_health_max()
        &&& self.advantages.willpower.max == self.derived_willpower_max()
    }
}

impl BaseCharacter {
    /// A new character: every trait at its default rank, the default size,
    /// the advantages derived from these, no box filled and every list empty.
    pub fn new() -> (character: BaseCharacter)
        ensures
            character@ == CharacterModel::fresh(),
            character@.complete(),
            character@.sized(),
            character@.in_step(),
    {
        let attributes = BaseAttribute::newAllAttributes();
        let skills = BaseSkill::newAllSkills();
        let composure = attributes.rank(BaseAttributeType::Composure);
        let dexterity = attributes.rank(BaseAttributeType::Dexterity);
        let resolve = attributes.rank(BaseAttributeType::Resolve);
        let stamina = attributes.rank(BaseAttributeType::Stamina);
        let strength = attributes.rank(BaseAttributeType::Strength);
        let wits = attributes.rank(BaseAttributeType::Wits);
        let athletics = skills.rank(BaseSkillType::Athletics);
        let advantages = BaseAdvantages {
            defense: deriveDefense(dexterity, wits, athletics),
            health: Tracker::new(deriveHealthMax(SIZE_DEFAULT, stamina)),
            initiative: deriveInitiative(dexterity, composure),
            size: SIZE_DEFAULT,
            speed: deriveSpeed(SIZE_DEFAULT, dexterity, strength),
            willpower: Tracker::new(deriveWillpowerMax(resolve, composure)),
        };
        let character = BaseCharacter {
            advantages,
            aspirations: Vec::new(),
            attributes,
            beats: Tracker::new(BEATS_MAX),
            experience: 0,
            merits: Vec::new(),
            skills,
            specialties: Vec::new(),
        };
        assert(character@.attributes =~= CharacterModel::fresh().attributes);
        assert(character@.skills =~= CharacterModel::fresh().skills);
        character
    }

    /// Whether every trait has a rank that an edit of `attributeType` writes or
    /// reads.
    pub fn knowsAttributeEdit(&self, attributeType: BaseAttributeType) -> (known: bool)
        ensures
            known == self@.knows_attribute_edit(attributeType),
    {
        self.attributes.contains(attributeType) && match attributeType {
            BaseAttributeType::Composure => self.attributes.contains(BaseAttributeType::Dexterity)
                && self.attributes.contains(BaseAttributeType::Resolve),
            BaseAttributeType::Dexterity => self.attributes.contains(BaseAttributeType::Wits)
                && self.attributes.contains(BaseAttributeType::Composure)
                && self.attributes.contains(BaseAttributeType::Strength)
                && self.skills.contains(BaseSkillType::Athletics),
            BaseAttributeType::Resolve => self.attributes.contains(BaseAttributeType::Composure),
            BaseAttributeType::Strength => self.attributes.contains(BaseAttributeType::Dexterity),
            BaseAttributeType::Wits => self.attributes.contains(BaseAttributeType::Dexterity)
                && self.skills.contains(BaseSkillType::Athletics),
            _ => true,
        }
    }
}

impl Default for BaseCharacter {
    /// A new character.
    fn default() -> (character: BaseCharacter)
        ensures
            character@ == CharacterModel::fresh(),
    {
        BaseCharacter::new()
    }
}

/// Gives an attribute a new rank and derives anew each advantage that rests
/// on it. Where a trait that the edit writes or reads has no rank, the edit is
/// turned down and the record stays as it is.
pub fn updateBaseAttribute(
    character: &mut BaseCharacter,
    attributeType: &BaseAttributeType,
    value: u32,
) -> (done: Result<(), SheetError>)
    ensures
        old(character)@.knows_attribute_edit(*attributeType) ==> done == Ok::<(), SheetError>(())
            && final(character)@ == old(character)@.after_attribute(*attributeType, value),
        !old(character)@.knows_attribute_edit(*attributeType) ==> done == Err::<(), SheetError>(
            SheetError::UnknownTraitId,
        ) && *final(character) == *old(character),
{
    if !character.knowsAttributeEdit(*attributeType) {
        return Err(SheetError::UnknownTraitId);
    }
    character.attributes.insert(*attributeType, value);
    match attributeType {
        BaseAttributeType::Composure => {
            let dexterity = character.attributes.rank(BaseAttributeType::Dexterity);
            let resolve = character.attributes.rank(BaseAttributeType::Resolve);
            character.advantages.initiative = deriveInitiative(dexterity, value);
            character.advantages.willpower.updateMax(deriveWillpowerMax(resolve, value));
        },
        BaseAttributeType::Dexterity => {
            let wits = character.attributes.rank(BaseAttributeType::Wits);
            let composure = character.attributes.rank(BaseAttributeType::Composure);
            let strength = character.attributes.rank(BaseAttributeType::Strength);
            let athletics = character.skills.rank(BaseSkillType::Athletics);
            character.advantages.defense = deriveDefense(value, wits, athletics);
            character.advantages.initiative = deriveInitiative(value, composure);
            character.advantages.speed = deriveSpeed(character.advantages.size, value, strength);
        },
        BaseAttributeType::Resolve => {
            let composure = character.attributes.rank(BaseAttributeType::Composure);
            character.advantages.willpower.updateMax(deriveWillpowerMax(value, composure));
        },
        BaseAttributeType::Stamina => {
            let size = character.advantages.size;
            character.advantages.health.updateMax(deriveHealthMax(size, value));
        },
        BaseAttributeType::Strength => {
            let dexterity = character.attributes.rank(BaseAttributeType::Dexterity);
            character.advantages.speed = deriveSpeed(character.advantages.size, dexterity, value);
        },
        BaseAttributeType::Wits => {
            let dexterity = character.attributes.rank(BaseAttributeType::Dexterity);
            let athletics = character.skills.rank(BaseSkillType::Athletics);
            character.advantages.defense = deriveDefense(dexterity, value, athletics);
        },
        _ => {},
    }
    Ok(())
}

/// Gives a skill a new rank, and derives defense anew where the skill is
/// athletics. Where a trait that the edit writes or reads has no rank, the
/// edit is turned down and the record stays as it is.
pub fn updateBaseSkill(
    character: &mut BaseCharacter,
    skillType: &BaseSkillType,
    value: u32,
) -> (done: Result<(), SheetError>)
    ensures
        old(character)@.knows_skill_edit(*skillType) ==> done == Ok::<(), SheetError>(())
            && final(character)@ == old(character)@.after_skill(*skillType, value),
        !old(character)@.knows_skill_edit(*skillType) ==> done == Err::<(), SheetError>(
            SheetError::UnknownTraitId,
        ) && *final(character) == *old(character),
{
    if !character.skills.contains(*skillType) {
        return Err(SheetError::UnknownTraitId);
    }
    match skillType {
        BaseSkillType::Athletics => {
            if !character.attributes.contains(BaseAttributeType::Dexterity)
                || !character.attributes.contains(BaseAttributeType::Wits) {
                return Err(SheetError::UnknownTraitId);
            }
            let dexterity = character.attributes.rank(BaseAttributeType::Dexterity);
            let wits = character.attributes.rank(BaseAttributeType::Wits);
            character.skills.insert(*skillType, value);
            character.advantages.defense = deriveDefense(dexterity, wits, value);
        },
        _ => {
            character.skills.insert(*skillType, value);
        },
    }
    Ok(())
}

/// Sets an advantage by hand. Size is brought into the range that a character
/// can have, and the number of health boxes follows it; for that the edit
/// reads stamina, and where stamina has no rank it is turned down and the
/// record stays as it is.
pub fn updateBaseAdvantage(
    character: &mut BaseCharacter,
    advantage: BaseAdvantageType,
    value: u64,
) -> (done: Result<(), SheetError>)
    ensures
        old(character)@.knows_advantage_edit(advantage) ==> done == Ok::<(), SheetError>(())
            && final(character)@ == old(character)@.after_advantage(advantage, value),
        !old(character)@.knows_advantage_edit(advantage) ==> done == Err::<(), SheetError>(
            SheetError::UnknownTraitId,
        ) && *final(character) == *old(character),
        done is Ok && advantage == BaseAdvantageType::Size ==> {
            &&& final(character)@.advantages.size == clamped_size(value as int)
            &&& final(character)@.advantages.health.max == old(character)@.attribute(
                BaseAttributeType::Stamina,
            ) + clamped_size(value as int)
            &&& final(character)@.sized()
        },
        advantage != BaseAdvantageType::Size ==> final(character)@.advantages.size == old(
            character
        )@.advantages.size,
{
    match advantage {
        BaseAdvantageType::Defense => {
            character.advantages.defense = value;
        },
        BaseAdvantageType::Health => {
            character.advantages.health.updateMax(value);
        },
        BaseAdvantageType::Initiative => {
            character.advantages.initiative = value;
        },
        BaseAdvantageType::Size => {
            if !character.attributes.contains(BaseAttributeType::Stamina) {
                return Err(SheetError::UnknownTraitId);
            }
            let stamina = character.attributes.rank(BaseAttributeType::Stamina);
            let size = clampSize(value);
            character.advantages.size = size;
            character.advantages.health.updateMax(deriveHealthMax(size, stamina));
        },
        BaseAdvantageType::Speed => {
            character.advantages.speed = value;
        },
        BaseAdvantageType::Willpower => {
            character.advantages.willpower.updateMax(value);
        },
    }
    Ok(())
}

/// Marks or heals damage: with `remove` the last box of that damage is
/// emptied; else the box at `index` takes the damage, or, without an index,
/// one more box is filled with it.
pub fn updateBaseHealth(
    character: &mut BaseCharacter,
    damageType: TrackerState,
    remove: bool,
    index: Option<usize>,
)
    ensures
        final(character)@ == old(character)@.after_health(damageType, remove, index),
{
    if remove {
        character.advantages.health.remove(damageType);
    } else {
        match index {
            Some(i) => {
                character.advantages.health.update(damageType, i, false);
            },
            None => {
                character.advantages.health.add(damageType);
            },
        }
    }
}

/// Sets how far a tracker is filled by a click on box `index`.
///
/// With `overrideValues` the boxes are dropped and `index` boxes are filled
/// with `state`. Otherwise a click at or past the end fills up to and
/// including box `index`; a click below the end empties one box of `state`
/// for each position from `index` to the end, last one first, and fills one
/// again when that was more than one position.
pub fn updateTrackerState_SingleState(
    tracker: &mut Tracker,
    index: usize,
    state: TrackerState,
    overrideValues: bool,
)
    ensures
        final(tracker)@ == (TrackerModel {
            values: fill_level(old(tracker)@.values, index as nat, state, overrideValues),
            ..old(tracker)@
        }),
        overrideValues ==> final(tracker)@.values == run_of(state, index as nat),
{
    let len = tracker.values.len();
    if overrideValues {
        tracker.values.truncate(0);
        let mut filled: usize = 0;
        while filled < index
            invariant
                filled <= index,
                tracker.max == old(tracker).max,
                tracker.values@ == Seq::new(filled as nat, |i: int| state),
            decreases index - filled,
        {
            tracker.add(state);
            filled += 1;
            assert(tracker.values@ =~= Seq::new(filled as nat, |i: int| state));
        }
    } else if index >= len {
        let ghost before = tracker.values@;
        while tracker.values.len() <= index
            invariant
                len <= tracker.values.len() <= index + 1,
                tracker.max == old(tracker).max,
                tracker.values@ == before + Seq::new(
                    (tracker.values.len() - len) as nat,
                    |i: int| state,
                ),
            decreases index + 1 - tracker.values.len(),
        {
            tracker.add(state);
            assert(tracker.values@ =~= before + Seq::new(
                (tracker.values.len() - len) as nat,
                |i: int| state,
            ));
        }
    } else {
        let ghost before = tracker.values@;
        let mut position: usize = index;
        while position < len
            invariant
                index <= position <= len,
                tracker.max == old(tracker).max,
                tracker.values@ == without_last_n(before, state, (position - index) as nat),
            decreases len - position,
        {
            tracker.remove(state);
            position += 1;
        }
        if len - index > 1 {
            tracker.add(state);
        }
    }
}

/// Sets how many beats are filled by a click on box `index`.
pub fn updateBaseBeats(character: &mut BaseCharacter, index: usize, overrideValues: bool)
    ensures
        final(character)@ == old(character)@.with_beats_values(
            fill_level(
                old(character)@.beats.values,
                index as nat,
                TrackerState::Two,
                overrideValues,
            ),
        ),
{
    updateTrackerState_SingleState(&mut character.beats, index, TrackerState::Two, overrideValues);
}

/// Sets how much willpower is spent by a click on box `index`.
pub fn updateBaseWillpower(character: &mut BaseCharacter, index: usize)
    ensures
        final(character)@ == old(character)@.with_willpower_values(
            fill_level(
                old(character)@.advantages.willpower.values,
                index as nat,
                TrackerState::Two,
                false,
            ),
        ),
{
    updateTrackerState_SingleState(
        &mut character.advantages.willpower,
        index,
        TrackerState::Two,
        false,
    );
}

/// Dexterity and wits, edited one after the other in either order, leave
/// defense at the lower of the two new ranks plus athletics.
pub proof fn law_defense_after_dexterity_and_wits(c: CharacterModel, dexterity: u32, wits: u32)
    requires
        c.knows_attribute_edit(BaseAttributeType::Dexterity),
        c.knows_attribute_edit(BaseAttributeType::Wits),
    ensures
        c.after_attribute(BaseAttributeType::Dexterity, dexterity).knows_attribute_edit(
            BaseAttributeType::Wits,
        ),
        c.after_attribute(BaseAttributeType::Wits, wits).knows_attribute_edit(
            BaseAttributeType::Dexterity,
        ),
        c.after_attribute(BaseAttributeType::Dexterity, dexterity).after_attribute(
            BaseAttributeType::Wits,
            wits,
        ).advantages.defense == defense_from(
            dexterity as int,
            wits as int,
            c.skill(BaseSkillType::Athletics),
        ),
        c.after_attribute(BaseAttributeType::Wits, wits).after_attribute(
            BaseAttributeType::Dexterity,
            dexterity,
        ).advantages.defense == defense_from(
            dexterity as int,
            wits as int,
            c.skill(BaseSkillType::Athletics),
        ),
{
}

/// An edit of an attribute keeps in step a record that was in step, and
/// keeps its size and the traits that had a rank.
pub proof fn law_attribute_edit_keeps_in_step(
    c: CharacterModel,
    attributeType: BaseAttributeType,
    value: u32,
)
    requires
        c.in_step(),
    ensures
        c.after_attribute(attributeType, value).in_step(),
        c.after_attribute(attributeType, value).advantages.size == c.advantages.size,
        c.complete() ==> c.after_attribute(attributeType, value).complete(),
{
}

/// An edit of a skill keeps in step a record that was in step, and keeps its
/// size and the traits that had a rank.
pub proof fn law_skill_edit_keeps_in_step(c: CharacterModel, skillType: BaseSkillType, value: u32)
    requires
        c.in_step(),
    ensures
        c.after_skill(skillType, value).in_step(),
        c.after_skill(skillType, value).advantages.size == c.advantages.size,
        c.complete() ==> c.after_skill(skillType, value).complete(),
{
}

/// A record that is complete turns down no edit.
pub proof fn law_complete_knows_every_edit(c: CharacterModel)
    requires
        c.complete(),
    ensures
        forall|t: BaseAttributeType| c.knows_attribute_edit(t),
        forall|t: BaseSkillType| c.knows_skill_edit(t),
        forall|a: BaseAdvantageType| c.knows_advantage_edit(a),
{
}

} // verus!
