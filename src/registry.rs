use vstd::prelude::*;

use crate::scene::CharactersType;

verus! {

/// Where some entry is for `kind`, a first one is.
pub proof fn lemma_first_of_kind(s: Seq<CharactersStatus>, kind: CharactersType, j: int)
    requires
        0 <= j < s.len(),
        s[j].character == kind,
    ensures
        exists|i: int| is_first_of_kind(s, kind, i),
    decreases j,
{
    if exists|k: int| 0 <= k < j && (#[trigger] s[k]).character == kind {
        let k = choose|k: int| 0 <= k < j && (#[trigger] s[k]).character == kind;
        lemma_first_of_kind(s, kind, k);
    } else {
        assert(is_first_of_kind(s, kind, j));
    }
}

/// The favor every character starts with.
pub const STARTING_FAVOR: u32 = 20;

/// Where one character stands: the scene they will play next, how much
/// they like the player, and whether they are still around.
#[derive(Clone, Debug, PartialEq, Eq)]
pub struct CharactersStatus {
    pub character: CharactersType,
    pub current_scene: String,
    pub favor: u32,
    pub alive: bool,
}

/// `i` is the first entry of `s` for `kind`.
pub open spec fn is_first_of_kind(s: Seq<CharactersStatus>, kind: CharactersType, i: int) -> bool {
    &&& 0 <= i < s.len()
    &&& s[i].character == kind
    &&& forall|k: int| 0 <= k < i ==> (#[trigger] s[k]).character != kind
}

/// Some entry of `s` is for `kind`.
pub open spec fn has_kind(s: Seq<CharactersStatus>, kind: CharactersType) -> bool {
    exists|i: int| 0 <= i < s.len() && (#[trigger] s[i]).character == kind
}

/// `i` is the first entry for `kind`, and that character is alive: the one
/// entry that a change for `kind` reaches.
pub open spec fn live_slot(s: Seq<CharactersStatus>, kind: CharactersType, i: int) -> bool {
    is_first_of_kind(s, kind, i) && s[i].alive
}

/// Favor after a change by `delta`: never below zero, and held at the
/// largest value a `u32` can take.
pub open spec fn adjusted_favor(favor: u32, delta: i64) -> u32 {
    let v = favor + delta;
    if v < 0 {
        0
    } else if v > u32::MAX {
        u32::MAX
    } else {
        v as u32
    }
}

/// The entry that a roster line starts as.
pub open spec fn starting_status(line: (CharactersType, String)) -> CharactersStatus {
    CharactersStatus { character: line.0, current_scene: line.1, favor: STARTING_FAVOR, alive: true }
}

/// The characters of the game, in roster order.
pub struct CharacterRegistry {
    characters: Vec<CharactersStatus>,
}

impl CharacterRegistry {
    /// The entries, in roster order.
    pub closed spec fn characters(self) -> Seq<CharactersStatus> {
        self.characters@
    }

    /// Seeds every character of the roster with its first scene, the
    /// starting favor, and alive.
    pub fn new(roster: Vec<(CharactersType, String)>) -> (r: CharacterRegistry)
        ensures
            r.characters() == roster@.map_values(|l: (CharactersType, String)| starting_status(l)),
    {
        let ghost lines = roster@;
        let mut characters: Vec<CharactersStatus> = Vec::new();
        for line in it: roster
            invariant
                it.seq() == lines,
                it.index() <= lines.len(),
                characters@ == lines.take(it.index() as int).map_values(
                    |l: (CharactersType, String)| starting_status(l),
                ),
        {
            let ghost i = it.index() as int;
            let (character, current_scene) = line;
            characters.push(
                CharactersStatus { character, current_scene, favor: STARTING_FAVOR, alive: true },
            );
            assert(lines.take(i + 1) == lines.take(i).push(lines[i]));
        }
        assert(lines.take(lines.len() as int) == lines);
        CharacterRegistry { characters }
    }

    /// How many characters there are.
    pub fn len(&self) -> (r: usize)
        ensures
            r == self.characters().len(),
    {
        self.characters.len()
    }

    /// The entry at position `i`.
    pub fn status(&self, i: usize) -> (r: &CharactersStatus)
        requires
            i < self.characters().len(),
        ensures
            *r == self.characters()[i as int],
    {
        &self.characters[i]
    }

    /// The position of the first entry for `kind`.
    pub fn find(&self, kind: CharactersType) -> (r: Option<usize>)
        ensures
            r is Some <==> has_kind(self.characters(), kind),
            r matches Some(i) ==> is_first_of_kind(self.characters(), kind, i as int),
    {
        let n = self.characters.len();
        let mut i: usize = 0;
        while i < n
            invariant
                n == self.characters().len(),
                i <= n,
                forall|k: int| 0 <= k < i ==> (#[trigger] self.characters()[k]).character != kind,
            decreases n - i,
        {
            if self.characters[i].character == kind {
                return Some(i);
            }
            i = i + 1;
        }
        None
    }

    /// The first entry for `kind`.
    pub fn get(&self, kind: CharactersType) -> (r: Option<&CharactersStatus>)
        ensures
            r is Some <==> has_kind(self.characters(), kind),
            r matches Some(c) ==> exists|i: int|
                is_first_of_kind(self.characters(), kind, i) && self.characters()[i] == *c,
    {
        match self.find(kind) {
            Some(i) => Some(&self.characters[i]),
            None => None,
        }
    }

    /// Sends `kind` on to the scene `scene`; no change where the character is
    /// missing or dead.
    pub fn advance_dialogue(&mut self, kind: CharactersType, scene: String)
        ensures
            forall|i: int| #[trigger]
                live_slot(old(self).characters(), kind, i) ==> final(self).characters()
                    == old(self).characters().update(
                    i,
                    CharactersStatus { current_scene: scene, ..old(self).characters()[i] },
                ),
            (forall|i: int| !#[trigger] live_slot(old(self).characters(), kind, i))
                ==> final(self).characters() == old(self).characters(),
    {
        let ghost before = self.characters();
        match self.find(kind) {
            Some(i) => {
                if self.characters[i].alive {
                    assert(live_slot(before, kind, i as int));
                    self.characters[i].current_scene = scene;
                }
            },
            None => {},
        }
    }

    /// Changes the favor of `kind` by `delta`, never below zero; no change
    /// where the character is missing or dead.
    pub fn adjust_favor(&mut self, kind: CharactersType, delta: i64)
        ensures
            forall|i: int| #[trigger]
                live_slot(old(self).characters(), kind, i) ==> final(self).characters()
                    == old(self).characters().update(
                    i,
                    CharactersStatus {
                        favor: adjusted_favor(old(self).characters()[i].favor, delta),
                        ..old(self).characters()[i]
                    },
                ),
            (forall|i: int| !#[trigger] live_slot(old(self).characters(), kind, i))
                ==> final(self).characters() == old(self).characters(),
    {
        let ghost before = self.characters();
        match self.find(kind) {
            Some(i) => {
                if self.characters[i].alive {
                    assert(live_slot(before, kind, i as int));
                    let v: i128 = self.characters[i].favor as i128 + delta as i128;
                    let f: u32 = if v < 0 {
                        0
                    } else if v > u32::MAX as i128 {
                        u32::MAX
                    } else {
                        v as u32
                    };
                    self.characters[i].favor = f;
                }
            },
            None => {},
        }
    }

    /// Marks `kind` dead for good; no change where the character is missing.
    pub fn mark_dead(&mut self, kind: CharactersType)
        ensures
            forall|i: int| #[trigger]
                is_first_of_kind(old(self).characters(), kind, i) ==> final(self).characters()
                    == old(self).characters().update(
                    i,
                    CharactersStatus { alive: false, ..old(self).characters()[i] },
                ),
            !has_kind(old(self).characters(), kind) ==> final(self).characters()
                == old(self).characters(),
    {
        match self.find(kind) {
            Some(i) => {
                self.characters[i].alive = false;
            },
            None => {},
        }
    }
}

} // verus!
