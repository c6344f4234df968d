//! Ranked traits: attributes and skills, and the stores that map each to its
//! rank.
use vstd::prelude::*;

verus! {

/// Why an edit was turned down.
#[derive(Clone, Copy, Debug, PartialEq, Eq, Structural)]
pub enum SheetError {
    /// A trait that the edit reads or writes has no rank in its store.
    UnknownTraitId,
}

/// The nine attributes.
#[derive(Clone, Copy, Debug, PartialEq, Eq, Structural, Hash)]
pub enum BaseAttributeType {
    Composure,
    Dexterity,
    Intelligence,
    Manipulation,
    Presence,
    Resolve,
    Stamina,
    Strength,
    Wits,
}

/// The rank that a new character has in every attribute.
pub const ATTRIBUTE_DEFAULT: u32 = 1;

/// One attribute with its rank.
#[derive(Clone, Copy, Debug, PartialEq, Eq, Structural)]
pub struct BaseAttribute {
    pub attributeType: BaseAttributeType,
    pub value: u32,
}

/// The rank of each attribute. A store that holds a rank for every attribute
/// is complete; one read from an incomplete record may lack some.
#[derive(Clone, Copy, Debug)]
pub struct AttributeStore {
    slots: [Option<u32>; 9],
}

/// The ranks that a list of entries gives: each entry gives its attribute its
/// rank, and of two entries for one attribute the later one counts.
pub open spec fn attribute_ranks(entries: Seq<BaseAttribute>) -> Map<BaseAttributeType, u32>
    decreases entries.len(),
{
    if entries.len() == 0 {
        Map::empty()
    } else {
        attribute_ranks(entries.drop_last()).insert(
            entries.last().attributeType,
            entries.last().value,
        )
    }
}

/// The entries stand in the order of declaration of their attributes, none
/// twice.
pub open spec fn attribute_entries_ordered(entries: Seq<BaseAttribute>) -> bool {
    forall|i: int, j: int|
        0 <= i < j < entries.len() ==> entries[i].attributeType.slot()
            < entries[j].attributeType.slot()
}

impl BaseAttributeType {
    /// Every attribute, in the order of declaration.
    pub fn all() -> (list: [BaseAttributeType; 9])
        ensures
            forall|i: int| 0 <= i < 9 ==> (#[trigger] list@[i]).slot() == i,
    {
        [
            BaseAttributeType::Composure,
            BaseAttributeType::Dexterity,
            BaseAttributeType::Intelligence,
            BaseAttributeType::Manipulation,
            BaseAttributeType::Presence,
            BaseAttributeType::Resolve,
            BaseAttributeType::Stamina,
            BaseAttributeType::Strength,
            BaseAttributeType::Wits,
        ]
    }

    /// The attribute at a place in the order of declaration. A place past the
    /// last attribute names none.
    pub fn fromIndex(index: usize) -> (found: Result<BaseAttributeType, SheetError>)
        ensures
            index < 9 ==> (found matches Ok(t) && t.slot() == index),
            index >= 9 ==> found == Err::<BaseAttributeType, SheetError>(SheetError::UnknownTraitId),
    {
        if index < 9 {
            let order = Self::all();
            Ok(order[index])
        } else {
            Err(SheetError::UnknownTraitId)
        }
    }

    /// The place of this attribute in a store, in the order of declaration.
    pub open spec fn slot(self) -> int {
        match self {
            BaseAttributeType::Composure => 0,
            BaseAttributeType::Dexterity => 1,
            BaseAttributeType::Intelligence => 2,
            BaseAttributeType::Manipulation => 3,
            BaseAttributeType::Presence => 4,
            BaseAttributeType::Resolve => 5,
            BaseAttributeType::Stamina => 6,
            BaseAttributeType::Strength => 7,
            BaseAttributeType::Wits => 8,
        }
    }

    fn index(self) -> (i: usize)
        ensures
            i == self.slot(),
            i < 9,
    {
        match self {
            BaseAttributeType::Composure => 0,
            BaseAttributeType::Dexterity => 1,
            BaseAttributeType::Intelligence => 2,
            BaseAttributeType::Manipulation => 3,
            BaseAttributeType::Presence => 4,
            BaseAttributeType::Resolve => 5,
            BaseAttributeType::Stamina => 6,
            BaseAttributeType::Strength => 7,
            BaseAttributeType::Wits => 8,
        }
    }
}

impl BaseAttribute {
    /// A complete store with every attribute at the default rank.
    pub fn newAllAttributes() -> (store: AttributeStore)
        ensures
            store.complete(),
            forall|t: BaseAttributeType| store@[t] == ATTRIBUTE_DEFAULT,
    {
        AttributeStore { slots: [Some(ATTRIBUTE_DEFAULT); 9] }
    }
}

impl View for AttributeStore {
    type V = Map<BaseAttributeType, u32>;

    closed spec fn view(&self) -> Map<BaseAttributeType, u32> {
        Map::new(
            |t: BaseAttributeType| self.slots@[t.slot()] is Some,
            |t: BaseAttributeType| self.slots@[t.slot()]->0,
        )
    }
}

impl AttributeStore {
    /// Every attribute has a rank.
    pub open spec fn complete(&self) -> bool {
        forall|t: BaseAttributeType| self@.contains_key(t)
    }

    /// A store without any rank.
    pub fn empty() -> (store: AttributeStore)
        ensures
            store@ == Map::<BaseAttributeType, u32>::empty(),
    {
        let store = AttributeStore { slots: [None; 9] };
        assert(store@ =~= Map::<BaseAttributeType, u32>::empty());
        store
    }

    /// The attribute with its rank, if the store holds one for it.
    pub fn get(&self, attributeType: BaseAttributeType) -> (found: Option<BaseAttribute>)
        ensures
            found == if self@.contains_key(attributeType) {
                Some(BaseAttribute { attributeType, value: self@[attributeType] })
            } else {
                None
            },
    {
        match self.slots[attributeType.index()] {
            Some(value) => Some(BaseAttribute { attributeType, value }),
            None => None,
        }
    }

    /// Whether the store holds a rank for the attribute.
    pub fn contains(&self, attributeType: BaseAttributeType) -> (held: bool)
        ensures
            held == self@.contains_key(attributeType),
    {
        self.slots[attributeType.index()].is_some()
    }

    /// The ranks that the store holds, as a list in the order of declaration.
    pub fn entries(&self) -> (list: Vec<BaseAttribute>)
        ensures
            attribute_ranks(list@) == self@,
            attribute_entries_ordered(list@),
    {
        let order = BaseAttributeType::all();
        let mut list: Vec<BaseAttribute> = Vec::new();
        let mut i: usize = 0;
        while i < 9
            invariant
                i <= 9,
                forall|k: int| 0 <= k < 9 ==> (#[trigger] order@[k]).slot() == k,
                attribute_entries_ordered(list@),
                forall|k: int|
                    0 <= k < list.len() ==> (#[trigger] list@[k]).attributeType.slot() < i,
                attribute_ranks(list@) == Map::new(
                    |t: BaseAttributeType| t.slot() < i && self.slots@[t.slot()] is Some,
                    |t: BaseAttributeType| self.slots@[t.slot()]->0,
                ),
            decreases 9 - i,
        {
            let attributeType = order[i];
            let ghost before = list@;
            match self.slots[i] {
                Some(value) => {
                    list.push(BaseAttribute { attributeType, value });
                    assert(list@.drop_last() =~= before);
                },
                None => {},
            }
            i += 1;
            assert(attribute_ranks(list@) =~= Map::new(
                |t: BaseAttributeType| t.slot() < i && self.slots@[t.slot()] is Some,
                |t: BaseAttributeType| self.slots@[t.slot()]->0,
            ));
        }
        assert(attribute_ranks(list@) =~= self@);
        list
    }

    /// The store that a list of entries gives: each entry gives its attribute its
    /// rank, and of two entries for one attribute the later one counts.
    pub fn fromEntries(entries: &Vec<BaseAttribute>) -> (store: AttributeStore)
        ensures
            store@ == attribute_ranks(entries@),
    {
        let mut store = AttributeStore::empty();
        let mut i: usize = 0;
        while i < entries.len()
            invariant
                i <= entries.len(),
                store@ == attribute_ranks(entries@.subrange(0, i as int)),
            decreases entries.len() - i,
        {
            store.insert(entries[i].attributeType, entries[i].value);
            assert(entries@.subrange(0, i + 1).drop_last() =~= entries@.subrange(0, i as int));
            i += 1;
        }
        assert(entries@.subrange(0, i as int) =~= entries@);
        store
    }

    /// The rank of an attribute that has one.
    pub(crate) fn rank(&self, attributeType: BaseAttributeType) -> (value: u32)
        requires
            self@.contains_key(attributeType),
        ensures
            value == self@[attributeType],
    {
        match self.slots[attributeType.index()] {
            Some(value) => value,
            None => 0,
        }
    }

    /// Gives the attribute a rank, whether or not it had one.
    pub fn insert(&mut self, attributeType: BaseAttributeType, value: u32)
        ensures
            final(self)@ == old(self)@.insert(attributeType, value),
    {
        let i = attributeType.index();
        self.slots[i] = Some(value);
        assert(self@ =~= old(self)@.insert(attributeType, value));
    }

    /// Changes the rank of an attribute that has one. Where it has none the
    /// store stays as it is and the edit is turned down.
    pub fn set(&mut self, attributeType: BaseAttributeType, value: u32) -> (done: Result<
        (),
        SheetError,
    >)
        ensures
            old(self)@.contains_key(attributeType) ==> done == Ok::<(), SheetError>(())
                && final(self)@ == old(self)@.insert(attributeType, value),
            !old(self)@.contains_key(attributeType) ==> done == Err::<(), SheetError>(
                SheetError::UnknownTraitId,
            ) && *final(self) == *old(self),
    {
        if self.contains(attributeType) {
            self.insert(attributeType, value);
            Ok(())
        } else {
            Err(SheetError::UnknownTraitId)
        }
    }
}

/// The twenty-four skills.
#[derive(Clone, Copy, Debug, PartialEq, Eq, Structural, Hash)]
pub enum BaseSkillType {
    Academics,
    AnimalKen,
    Athletics,
    Brawl,
    Computer,
    Crafts,
    Drive,
    Empathy,
    Expression,
    Firearms,
    Intimidation,
    Investigation,
    Larceny,
    Medicine,
    Occult,
    Persuasion,
    Politics,
    Science,
    Socialize,
    Stealth,
    Streetwise,
    Subterfuge,
    Survival,
    Weaponry,
}

/// The rank that a new character has in every skill.
pub const SKILL_DEFAULT: u32 = 0;

/// One skill with its rank.
#[derive(Clone, Copy, Debug, PartialEq, Eq, Structural)]
pub struct BaseSkill {
    pub skillType: BaseSkillType,
    pub value: u32,
}

/// The rank of each skill. A store that holds a rank for every skill is
/// complete; one read from an incomplete record may lack some.
#[derive(Clone, Copy, Debug)]
pub struct SkillStore {
    slots: [Option<u32>; 24],
}

/// The ranks that a list of entries gives: each entry gives its skill its
/// rank, and of two entries for one skill the later one counts.
pub open spec fn skill_ranks(entries: Seq<BaseSkill>) -> Map<BaseSkillType, u32>
    decreases entries.len(),
{
    if entries.len() == 0 {
        Map::empty()
    } else {
        skill_ranks(entries.drop_last()).insert(
            entries.last().skillType,
            entries.last().value,
        )
    }
}

/// The entries stand in the order of declaration of their skills, none
/// twice.
pub open spec fn skill_entries_ordered(entries: Seq<BaseSkill>) -> bool {
    forall|i: int, j: int|
        0 <= i < j < entries.len() ==> entries[i].skillType.slot() < entries[j].skillType.slot()
}

impl BaseSkillType {
    /// Every skill, in the order of declaration.
    pub fn all() -> (list: [BaseSkillType; 24])
        ensures
            forall|i: int| 0 <= i < 24 ==> (#[trigger] list@[i]).slot() == i,
    {
        [
            BaseSkillType::Academics,
            BaseSkillType::AnimalKen,
            BaseSkillType::Athletics,
            BaseSkillType::Brawl,
            BaseSkillType::Computer,
            BaseSkillType::Crafts,
            BaseSkillType::Drive,
            BaseSkillType::Empathy,
            BaseSkillType::Expression,
            BaseSkillType::Firearms,
            BaseSkillType::Intimidation,
            BaseSkillType::Investigation,
            BaseSkillType::Larceny,
            BaseSkillType::Medicine,
            BaseSkillType::Occult,
            BaseSkillType::Persuasion,
            BaseSkillType::Politics,
            BaseSkillType::Science,
            BaseSkillType::Socialize,
            BaseSkillType::Stealth,
            BaseSkillType::Streetwise,
            BaseSkillType::Subterfuge,
            BaseSkillType::Survival,
            BaseSkillType::Weaponry,
        ]
    }

    /// The skill at a place in the order of declaration. A place past the
    /// last skill names none.
    pub fn fromIndex(index: usize) -> (found: Result<BaseSkillType, SheetError>)
        ensures
            index < 24 ==> (found matches Ok(t) && t.slot() == index),
            index >= 24 ==> found == Err::<BaseSkillType, SheetError>(SheetError::UnknownTraitId),
    {
        if index < 24 {
            let order = Self::all();
            Ok(order[index])
        } else {
            Err(SheetError::UnknownTraitId)
        }
    }

    /// The place of this skill in a store, in the order of declaration.
    pub open spec fn slot(self) -> int {
        match self {
            BaseSkillType::Academics => 0,
            BaseSkillType::AnimalKen => 1,
            BaseSkillType::Athletics => 2,
            BaseSkillType::Brawl => 3,
            BaseSkillType::Computer => 4,
            BaseSkillType::Crafts => 5,
            BaseSkillType::Drive => 6,
            BaseSkillType::Empathy => 7,
            BaseSkillType::Expression => 8,
            BaseSkillType::Firearms => 9,
            BaseSkillType::Intimidation => 10,
            BaseSkillType::Investigation => 11,
            BaseSkillType::Larceny => 12,
            BaseSkillType::Medicine => 13,
            BaseSkillType::Occult => 14,
            BaseSkillType::Persuasion => 15,
            BaseSkillType::Politics => 16,
            BaseSkillType::Science => 17,
            BaseSkillType::Socialize => 18,
            BaseSkillType::Stealth => 19,
            BaseSkillType::Streetwise => 20,
            BaseSkillType::Subterfuge => 21,
            BaseSkillType::Survival => 22,
            BaseSkillType::Weaponry => 23,
        }
    }

    fn index(self) -> (i: usize)
        ensures
            i == self.slot(),
            i < 24,
    {
        match self {
            BaseSkillType::Academics => 0,
            BaseSkillType::AnimalKen => 1,
            BaseSkillType::Athletics => 2,
            BaseSkillType::Brawl => 3,
            BaseSkillType::Computer => 4,
            BaseSkillType::Crafts => 5,
            BaseSkillType::Drive => 6,
            BaseSkillType::Empathy => 7,
            BaseSkillType::Expression => 8,
            BaseSkillType::Firearms => 9,
            BaseSkillType::Intimidation => 10,
            BaseSkillType::Investigation => 11,
            BaseSkillType::Larceny => 12,
            BaseSkillType::Medicine => 13,
            BaseSkillType::Occult => 14,
            BaseSkillType::Persuasion => 15,
            BaseSkillType::Politics => 16,
            BaseSkillType::Science => 17,
            BaseSkillType::Socialize => 18,
            BaseSkillType::Stealth => 19,
            BaseSkillType::Streetwise => 20,
            BaseSkillType::Subterfuge => 21,
            BaseSkillType::Survival => 22,
            BaseSkillType::Weaponry => 23,
        }
    }
}

impl BaseSkill {
    /// A complete store with every skill at the default rank.
    pub fn newAllSkills() -> (store: SkillStore)
        ensures
            store.complete(),
            forall|t: BaseSkillType| store@[t] == SKILL_DEFAULT,
    {
        SkillStore { slots: [Some(SKILL_DEFAULT); 24] }
    }
}

impl View for SkillStore {
    type V = Map<BaseSkillType, u32>;

    closed spec fn view(&self) -> Map<BaseSkillType, u32> {
        Map::new(
            |t: BaseSkillType| self.slots@[t.slot()] is Some,
            |t: BaseSkillType| self.slots@[t.slot()]->0,
        )
    }
}

impl SkillStore {
    /// Every skill has a rank.
    pub open spec fn complete(&self) -> bool {
        forall|t: BaseSkillType| self@.contains_key(t)
    }

    /// A store without any rank.
    pub fn empty() -> (store: SkillStore)
        ensures
            store@ == Map::<BaseSkillType, u32>::empty(),
    {
        let store = SkillStore { slots: [None; 24] };
        assert(store@ =~= Map::<BaseSkillType, u32>::empty());
        store
    }

    /// The skill with its rank, if the store holds one for it.
    pub fn get(&self, skillType: BaseSkillType) -> (found: Option<BaseSkill>)
        ensures
            found == if self@.contains_key(skillType) {
                Some(BaseSkill { skillType, value: self@[skillType] })
            } else {
                None
            },
    {
        match self.slots[skillType.index()] {
            Some(value) => Some(BaseSkill { skillType, value }),
            None => None,
        }
    }

    /// Whether the store holds a rank for the skill.
    pub fn contains(&self, skillType: BaseSkillType) -> (held: bool)
        ensures
            held == self@.contains_key(skillType),
    {
        self.slots[skillType.index()].is_some()
    }

    /// The ranks that the store holds, as a list in the order of declaration.
    pub fn entries(&self) -> (list: Vec<BaseSkill>)
        ensures
            skill_ranks(list@) == self@,
            skill_entries_ordered(list@),
    {
        let order = BaseSkillType::all();
        let mut list: Vec<BaseSkill> = Vec::new();
        let mut i: usize = 0;
        while i < 24
            invariant
                i <= 24,
                forall|k: int| 0 <= k < 24 ==> (#[trigger] order@[k]).slot() == k,
                skill_entries_ordered(list@),
                forall|k: int|
                    0 <= k < list.len() ==> (#[trigger] list@[k]).skillType.slot() < i,
                skill_ranks(list@) == Map::new(
                    |t: BaseSkillType| t.slot() < i && self.slots@[t.slot()] is Some,
                    |t: BaseSkillType| self.slots@[t.slot()]->0,
                ),
            decreases 24 - i,
        {
            let skillType = order[i];
            let ghost before = list@;
            match self.slots[i] {
                Some(value) => {
                    list.push(BaseSkill { skillType, value });
                    assert(list@.drop_last() =~= before);
                },
                None => {},
            }
            i += 1;
            assert(skill_ranks(list@) =~= Map::new(
                |t: BaseSkillType| t.slot() < i && self.slots@[t.slot()] is Some,
                |t: BaseSkillType| self.slots@[t.slot()]->0,
            ));
        }
        assert(skill_ranks(list@) =~= self@);
        list
    }

    /// The store that a list of entries gives: each entry gives its skill its
    /// rank, and of two entries for one skill the later one counts.
    pub fn fromEntries(entries: &Vec<BaseSkill>) -> (store: SkillStore)
        ensures
            store@ == skill_ranks(entries@),
    {
        let mut store = SkillStore::empty();
        let mut i: usize = 0;
        while i < entries.len()
            invariant
                i <= entries.len(),
                store@ == skill_ranks(entries@.subrange(0, i as int)),
            decreases entries.len() - i,
        {
            store.insert(entries[i].skillType, entries[i].value);
            assert(entries@.subrange(0, i + 1).drop_last() =~= entries@.subrange(0, i as int));
            i += 1;
        }
        assert(entries@.subrange(0, i as int) =~= entries@);
        store
    }

    /// The rank of a skill that has one.
    pub(crate) fn rank(&self, skillType: BaseSkillType) -> (value: u32)
        requires
            self@.contains_key(skillType),
        ensures
            value == self@[skillType],
    {
        match self.slots[skillType.index()] {
            Some(value) => value,
            None => 0,
        }
    }

    /// Gives the skill a rank, whether or not it had one.
    pub fn insert(&mut self, skillType: BaseSkillType, value: u32)
        ensures
            final(self)@ == old(self)@.insert(skillType, value),
    {
        let i = skillType.index();
        self.slots[i] = Some(value);
        assert(self@ =~= old(self)@.insert(skillType, value));
    }

    /// Changes the rank of a skill that has one. Where it has none the store
    /// stays as it is and the edit is turned down.
    pub fn set(&mut self, skillType: BaseSkillType, value: u32) -> (done: Result<(), SheetError>)
        ensures
            old(self)@.contains_key(skillType) ==> done == Ok::<(), SheetError>(())
                && final(self)@ == old(self)@.insert(skillType, value),
            !old(self)@.contains_key(skillType) ==> done == Err::<(), SheetError>(
                SheetError::UnknownTraitId,
            ) && *final(self) == *old(self),
    {
        if self.contains(skillType) {
            self.insert(skillType, value);
            Ok(())
        } else {
            Err(SheetError::UnknownTraitId)
        }
    }
}

} // verus!
