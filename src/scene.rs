use vstd::prelude::*;

verus! {

/// A token that finishing a scene can hand the player.
#[derive(Clone, Copy, Debug, PartialEq, Eq, Structural)]
pub enum MissionType {
    Water,
    Explore,
    Oil,
    Iron,
}

/// The people of the cast.
#[derive(Clone, Copy, Debug, PartialEq, Eq, Structural)]
pub enum CharactersType {
    Joe,
    Jule,
    Carle,
    Fredrick,
    Diedrick,
    Cat,
    Liv,
    Main,
}

/// The mission that a tag of the scene source names, if any.
pub open spec fn mission_of_tag(tag: Seq<char>) -> Option<MissionType> {
    if tag == "Water"@ {
        Some(MissionType::Water)
    } else if tag == "Explore"@ {
        Some(MissionType::Explore)
    } else if tag == "Oil"@ {
        Some(MissionType::Oil)
    } else if tag == "Iron"@ {
        Some(MissionType::Iron)
    } else {
        None
    }
}

/// The character that a tag of the scene source names, if any.
pub open spec fn character_of_tag(tag: Seq<char>) -> Option<CharactersType> {
    if tag == "Joe"@ {
        Some(CharactersType::Joe)
    } else if tag == "Jule"@ {
        Some(CharactersType::Jule)
    } else if tag == "Carle"@ {
        Some(CharactersType::Carle)
    } else if tag == "Fredrick"@ {
        Some(CharactersType::Fredrick)
    } else if tag == "Diedrick"@ {
        Some(CharactersType::Diedrick)
    } else if tag == "Cat"@ {
        Some(CharactersType::Cat)
    } else if tag == "Liv"@ {
        Some(CharactersType::Liv)
    } else if tag == "Main"@ {
        Some(CharactersType::Main)
    } else {
        None
    }
}

/// Character-by-character equality of two strings.
fn same_text(a: &str, b: &str) -> (r: bool)
    ensures
        r == (a@ == b@),
{
    let n = a.unicode_len();
    if n != b.unicode_len() {
        return false;
    }
    let mut i: usize = 0;
    while i < n
        invariant
            n == a@.len(),
            n == b@.len(),
            i <= n,
            a@.subrange(0, i as int) == b@.subrange(0, i as int),
        decreases n - i,
    {
        if a.get_char(i) != b.get_char(i) {
            assert(a@[i as int] != b@[i as int]);
            return false;
        }
        assert(a@.subrange(0, i + 1) == a@.subrange(0, i as int).push(a@[i as int]));
        assert(b@.subrange(0, i + 1) == b@.subrange(0, i as int).push(b@[i as int]));
        i = i + 1;
    }
    assert(a@ == a@.subrange(0, n as int));
    assert(b@ == b@.subrange(0, n as int));
    true
}

impl MissionType {
    /// Reads a mission from its tag in the scene source.
    pub fn from_tag(tag: &str) -> (r: Option<MissionType>)
        ensures
            r == mission_of_tag(tag@),
    {
        if same_text(tag, "Water") {
            Some(MissionType::Water)
        } else if same_text(tag, "Explore") {
            Some(MissionType::Explore)
        } else if same_text(tag, "Oil") {
            Some(MissionType::Oil)
        } else if same_text(tag, "Iron") {
            Some(MissionType::Iron)
        } else {
            None
        }
    }
}

impl CharactersType {
    /// Reads a character from its tag in the scene source.
    pub fn from_tag(tag: &str) -> (r: Option<CharactersType>)
        ensures
            r == character_of_tag(tag@),
    {
        if same_text(tag, "Joe") {
            Some(CharactersType::Joe)
        } else if same_text(tag, "Jule") {
            Some(CharactersType::Jule)
        } else if same_text(tag, "Carle") {
            Some(CharactersType::Carle)
        } else if same_text(tag, "Fredrick") {
            Some(CharactersType::Fredrick)
        } else if same_text(tag, "Diedrick") {
            Some(CharactersType::Diedrick)
        } else if same_text(tag, "Cat") {
            Some(CharactersType::Cat)
        } else if same_text(tag, "Liv") {
            Some(CharactersType::Liv)
        } else if same_text(tag, "Main") {
            Some(CharactersType::Main)
        } else {
            None
        }
    }
}

/// A scene: lines of dialogue read in order, and what finishing them brings.
#[derive(Clone, Debug, PartialEq, Eq)]
pub struct DatingScene {
    pub id: String,
    pub person: Option<CharactersType>,
    pub text: Vec<String>,
    pub outcome: Option<Vec<(String, i64)>>,
    pub choice: Option<((String, String), (String, String))>,
    pub mission: Option<MissionType>,
}

/// A scene as the source writes it, its tags not yet read.
#[derive(Clone, Debug, PartialEq, Eq)]
pub struct SceneRecord {
    pub id: String,
    pub person: Option<String>,
    pub text: Vec<String>,
    pub outcome: Option<Vec<(String, i64)>>,
    pub choice: Option<((String, String), (String, String))>,
    pub mission: Option<String>,
}

/// Why a scene source was refused.
#[derive(Clone, Debug, PartialEq, Eq)]
pub enum CatalogError {
    /// The `person` tag of the scene names no character.
    UnknownCharacter { scene: String, tag: String },
    /// The `mission` tag of the scene names no mission.
    UnknownMission { scene: String, tag: String },
    /// The scene has no line of text.
    EmptyText { scene: String },
    /// A second scene carries the same id.
    DuplicateId { scene: String },
    /// A branch of the scene's choice leads to no scene of the catalog.
    UnknownTarget { scene: String, target: String },
    /// A character is sent to a scene that the catalog does not hold.
    UnknownScene { scene: String },
}

impl DatingScene {
    /// The flag changes that finishing the scene applies, in order.
    pub open spec fn deltas(self) -> Seq<(String, i64)> {
        match self.outcome {
            Some(v) => v@,
            None => Seq::empty(),
        }
    }

    /// The line at `i`, as characters.
    pub open spec fn line(self, i: int) -> Seq<char> {
        self.text@[i]@
    }
}

/// The tag of `person`, if present, names a character.
pub open spec fn person_tag_ok(rec: SceneRecord) -> bool {
    match rec.person {
        Some(t) => character_of_tag(t@) is Some,
        None => true,
    }
}

/// The tag of `mission`, if present, names a mission.
pub open spec fn mission_tag_ok(rec: SceneRecord) -> bool {
    match rec.mission {
        Some(t) => mission_of_tag(t@) is Some,
        None => true,
    }
}

/// The tags of the record both name something.
pub open spec fn record_ok(rec: SceneRecord) -> bool {
    person_tag_ok(rec) && mission_tag_ok(rec)
}

/// The scene that a record stands for once its tags are read.
pub open spec fn scene_of_record(rec: SceneRecord) -> DatingScene {
    DatingScene {
        id: rec.id,
        person: match rec.person {
            Some(t) => character_of_tag(t@),
            None => None,
        },
        text: rec.text,
        outcome: rec.outcome,
        choice: rec.choice,
        mission: match rec.mission {
            Some(t) => mission_of_tag(t@),
            None => None,
        },
    }
}

/// What a record that fails `record_ok` is refused with: the person tag is
/// read first.
pub open spec fn record_error(rec: SceneRecord) -> CatalogError {
    if !person_tag_ok(rec) {
        CatalogError::UnknownCharacter { scene: rec.id, tag: rec.person.unwrap() }
    } else {
        CatalogError::UnknownMission { scene: rec.id, tag: rec.mission.unwrap() }
    }
}

impl SceneRecord {
    /// Reads the tags of a record, keeping everything else as it is.
    pub fn into_scene(self) -> (r: Result<DatingScene, CatalogError>)
        ensures
            r is Ok <==> record_ok(self),
            r matches Ok(s) ==> s == scene_of_record(self),
            r matches Err(e) ==> e == record_error(self),
    {
        let person = match self.person {
            Some(t) => match CharactersType::from_tag(t.as_str()) {
                Some(c) => Some(c),
                None => {
                    return Err(CatalogError::UnknownCharacter { scene: self.id, tag: t });
                },
            },
            None => None,
        };
        let mission = match self.mission {
            Some(t) => match MissionType::from_tag(t.as_str()) {
                Some(m) => Some(m),
                None => {
                    return Err(CatalogError::UnknownMission { scene: self.id, tag: t });
                },
            },
            None => None,
        };
        Ok(
            DatingScene {
                id: self.id,
                person,
                text: self.text,
                outcome: self.outcome,
                choice: self.choice,
                mission,
            },
        )
    }
}

} // verus!
