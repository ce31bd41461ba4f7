use vstd::prelude::*;

use crate::catalog::{choice_known, has_scene, SceneCatalog};
use crate::ledger::{apply_deltas, names_after, Ledger};
use crate::registry::{
    adjusted_favor, has_kind, is_first_of_kind, lemma_first_of_kind, live_slot, starting_status,
    CharacterRegistry, CharactersStatus,
};
use crate::scene::{CatalogError, CharactersType, DatingScene, MissionType};

verus! {

/// Where the player is: picking someone to talk to, reading a scene, or
/// picking a branch at the end of one.
#[derive(Clone, Copy, Debug, PartialEq, Eq, Structural)]
pub enum DatingState {
    Chilling,
    Talking,
    Choosing,
}

/// The scene being played, by its position in the catalog, the line shown,
/// and the branch highlighted once the scene offers its choice.
#[derive(Clone, Copy, Debug, PartialEq, Eq, Structural)]
pub struct DialogueSession {
    pub scene: usize,
    pub line: usize,
    pub option: usize,
}

/// The keys pressed during one tick, already mapped to what they mean.
#[derive(Clone, Copy, Debug, PartialEq, Eq, Structural)]
pub struct Input {
    pub confirm: bool,
    pub cancel: bool,
    pub move_left: bool,
    pub move_right: bool,
}

/// Everything of a play that moves: the state, the selection cursor, the
/// session, the characters and the ledger.
pub struct PlayModel {
    pub state: DatingState,
    pub cursor: usize,
    pub session: Option<DialogueSession>,
    pub characters: Seq<CharactersStatus>,
    pub flags: Map<Seq<char>, i64>,
    pub names: Seq<Seq<char>>,
    pub missions: Seq<MissionType>,
}

/// The move a tick asks for: right minus left.
pub open spec fn move_delta(input: Input) -> int {
    (if input.move_right {
        1int
    } else {
        0
    }) - (if input.move_left {
        1int
    } else {
        0
    })
}

/// `c + delta`, held to the positions of a roster of `n` characters.
pub open spec fn clamped_cursor(c: int, delta: int, n: int) -> usize {
    let v = c + delta;
    if v < 0 || n == 0 {
        0
    } else if v >= n {
        (n - 1) as usize
    } else {
        v as usize
    }
}

impl PlayModel {
    /// The scene of the session.
    pub open spec fn scene(self, cat: SceneCatalog) -> DatingScene {
        cat.scenes()[self.session.unwrap().scene as int]
    }

    /// The line shown while talking.
    pub open spec fn current_line(self, cat: SceneCatalog) -> Option<Seq<char>> {
        if self.state == DatingState::Talking {
            Some(self.scene(cat).line(self.session.unwrap().line as int))
        } else {
            None
        }
    }

    /// The state fits the catalog: every character points at a scene, the
    /// cursor is on the roster, and a session exists exactly outside
    /// Chilling, on a line of its scene.
    pub open spec fn wf(self, cat: SceneCatalog) -> bool {
        &&& forall|i: int|
            0 <= i < self.characters.len() ==> has_scene(
                cat.scenes(),
                (#[trigger] self.characters[i]).current_scene@,
            )
        &&& (self.cursor < self.characters.len() || (self.characters.len() == 0 && self.cursor
            == 0))
        &&& (self.state == DatingState::Chilling <==> self.session is None)
        &&& self.session matches Some(s) ==> {
            &&& s.scene < cat.scenes().len()
            &&& s.line < cat.scenes()[s.scene as int].text@.len()
            &&& s.option < 2
        }
        &&& self.state == DatingState::Choosing ==> self.scene(cat).choice is Some
    }

    /// A session at the first line of the scene with the id `id`.
    pub open spec fn opened(self, cat: SceneCatalog, id: Seq<char>) -> PlayModel {
        PlayModel {
            state: DatingState::Talking,
            session: Some(DialogueSession { scene: cat.index()[id], line: 0, option: 0 }),
            ..self
        }
    }

    /// Confirming on character `i` in Chilling: a living character's scene
    /// opens; otherwise nothing happens.
    pub open spec fn selected(self, cat: SceneCatalog, i: int) -> PlayModel {
        if self.state == DatingState::Chilling && 0 <= i < self.characters.len()
            && self.characters[i].alive {
            self.opened(cat, self.characters[i].current_scene@)
        } else {
            self
        }
    }

    /// The end of a scene: its mission is collected, its flag changes are
    /// applied, and play goes on to its choice, or back to Chilling.
    pub open spec fn finished(self, cat: SceneCatalog) -> PlayModel {
        let scene = self.scene(cat);
        let s = self.session.unwrap();
        PlayModel {
            state: if scene.choice is Some {
                DatingState::Choosing
            } else {
                DatingState::Chilling
            },
            session: if scene.choice is Some {
                Some(DialogueSession { option: 0, ..s })
            } else {
                None
            },
            flags: apply_deltas(self.flags, scene.deltas()),
            names: names_after(self.names, scene.deltas()),
            missions: match scene.mission {
                Some(m) => self.missions.push(m),
                None => self.missions,
            },
            ..self
        }
    }

    /// Choosing branch `option`: its target opens at the first line.
    pub open spec fn picked(self, cat: SceneCatalog, option: int) -> PlayModel {
        if self.state == DatingState::Choosing && 0 <= option < 2 {
            let (a, b) = self.scene(cat).choice.unwrap();
            self.opened(
                cat,
                if option == 0 {
                    a.1@
                } else {
                    b.1@
                },
            )
        } else {
            self
        }
    }

    /// Confirm: select the highlighted character, show the next line or
    /// finish the scene, or take the highlighted branch.
    pub open spec fn confirmed(self, cat: SceneCatalog) -> PlayModel {
        match self.state {
            DatingState::Chilling => self.selected(cat, self.cursor as int),
            DatingState::Talking => {
                let s = self.session.unwrap();
                if s.line + 1 < self.scene(cat).text@.len() {
                    PlayModel { session: Some(DialogueSession { line: (s.line + 1) as usize, ..s }), ..self }
                } else {
                    self.finished(cat)
                }
            },
            DatingState::Choosing => self.picked(cat, self.session.unwrap().option as int),
        }
    }

    /// Cancel while talking: the session is dropped, with none of its
    /// effects, and play is back in Chilling. Cancel means nothing in the
    /// other states.
    pub open spec fn cancelled(self) -> PlayModel {
        if self.state == DatingState::Talking {
            PlayModel { state: DatingState::Chilling, session: None, ..self }
        } else {
            self
        }
    }

    /// A move by `delta`: along the roster in Chilling, between the two
    /// branches in Choosing.
    pub open spec fn moved(self, delta: int) -> PlayModel {
        match self.state {
            DatingState::Chilling => PlayModel {
                cursor: clamped_cursor(self.cursor as int, delta, self.characters.len() as int),
                ..self
            },
            DatingState::Talking => self,
            DatingState::Choosing => if delta == 0 {
                self
            } else {
                let s = self.session.unwrap();
                PlayModel {
                    session: Some(
                        DialogueSession {
                            option: if delta < 0 {
                                0
                            } else {
                                1
                            },
                            ..s
                        },
                    ),
                    ..self
                }
            },
        }
    }

    /// One tick, where a left and a right cancel out. Each state reads only
    /// its own inputs: in Chilling the move is made, and a confirm selects
    /// the character highlighted before it; in Talking cancel comes before
    /// confirm; in Choosing a confirm takes the highlighted branch, else the
    /// move picks one.
    pub open spec fn stepped(self, cat: SceneCatalog, input: Input) -> PlayModel {
        let delta = move_delta(input);
        match self.state {
            DatingState::Chilling => if input.confirm {
                self.moved(delta).selected(cat, self.cursor as int)
            } else {
                self.moved(delta)
            },
            DatingState::Talking => if input.cancel {
                self.cancelled()
            } else if input.confirm {
                self.confirmed(cat)
            } else {
                self
            },
            DatingState::Choosing => if input.confirm {
                self.confirmed(cat)
            } else {
                self.moved(delta)
            },
        }
    }
}

/// One play of the dating sim: the catalog, the characters, the ledger, and
/// where the player stands.
pub struct DatingContext {
    catalog: SceneCatalog,
    registry: CharacterRegistry,
    ledger: Ledger,
    state: DatingState,
    cursor: usize,
    session: Option<DialogueSession>,
}

impl DatingContext {
    /// The catalog the play runs on.
    pub closed spec fn catalog_view(self) -> SceneCatalog {
        self.catalog
    }

    /// The moving part of the play.
    pub closed spec fn model(self) -> PlayModel {
        PlayModel {
            state: self.state,
            cursor: self.cursor,
            session: self.session,
            characters: self.registry.characters(),
            flags: self.ledger.flags(),
            names: self.ledger.names(),
            missions: self.ledger.missions(),
        }
    }

    /// The ledger keeps each flag name once.
    pub closed spec fn ledger_ok(self) -> bool {
        self.ledger.wf()
    }

    /// The catalog is checked, the ledger keeps its names, and the play fits
    /// the catalog.
    pub open spec fn wf(self) -> bool {
        &&& self.catalog_view().wf()
        &&& self.ledger_ok()
        &&& self.model().wf(self.catalog_view())
    }

    /// Starts a play in Chilling, with the cursor on the first character,
    /// every character of `roster` seeded by `CharacterRegistry::new`, and an
    /// empty ledger. A roster line that names a scene the catalog does not
    /// hold is refused with the first such scene.
    pub fn new(catalog: SceneCatalog, roster: Vec<(CharactersType, String)>) -> (r: Result<
        DatingContext,
        CatalogError,
    >)
        requires
            catalog.wf(),
        ensures
            r is Ok <==> forall|i: int|
                0 <= i < roster@.len() ==> has_scene(catalog.scenes(), (#[trigger] roster@[i]).1@),
            r matches Ok(c) ==> {
                &&& c.wf()
                &&& c.catalog_view() == catalog
                &&& c.model() == PlayModel {
                    state: DatingState::Chilling,
                    cursor: 0,
                    session: None,
                    characters: roster@.map_values(|l: (CharactersType, String)| starting_status(l)),
                    flags: Map::empty(),
                    names: Seq::empty(),
                    missions: Seq::empty(),
                }
            },
            r matches Err(e) ==> exists|i: int|
                0 <= i < roster@.len() && !has_scene(catalog.scenes(), (#[trigger] roster@[i]).1@)
                    && e == (CatalogError::UnknownScene { scene: roster@[i].1 }) && (forall|k: int|
                    0 <= k < i ==> has_scene(catalog.scenes(), (#[trigger] roster@[k]).1@)),
    {
        let n = roster.len();
        let mut i: usize = 0;
        while i < n
            invariant
                n == roster@.len(),
                i <= n,
                catalog.wf(),
                forall|k: int| 0 <= k < i ==> has_scene(catalog.scenes(), (#[trigger] roster@[k]).1@),
            decreases n - i,
        {
            if catalog.position(roster[i].1.as_str()).is_none() {
                return Err(CatalogError::UnknownScene { scene: roster[i].1.clone() });
            }
            i = i + 1;
        }
        let ghost lines = roster@;
        let registry = CharacterRegistry::new(roster);
        let ctx = DatingContext {
            catalog,
            registry,
            ledger: Ledger::new(),
            state: DatingState::Chilling,
            cursor: 0,
            session: None,
        };
        assert forall|i: int| 0 <= i < ctx.model().characters.len() implies has_scene(
            catalog.scenes(),
            (#[trigger] ctx.model().characters[i]).current_scene@,
        ) by {
            assert(ctx.model().characters[i] == starting_status(lines[i]));
        }
        Ok(ctx)
    }

    /// The catalog the play runs on.
    pub fn catalog(&self) -> (r: &SceneCatalog)
        ensures
            *r == self.catalog_view(),
    {
        &self.catalog
    }

    /// The characters.
    pub fn registry(&self) -> (r: &CharacterRegistry)
        ensures
            r.characters() == self.model().characters,
    {
        &self.registry
    }

    /// The flags and missions gathered so far.
    pub fn ledger(&self) -> (r: &Ledger)
        ensures
            r.flags() == self.model().flags,
            r.names() == self.model().names,
            r.missions() == self.model().missions,
    {
        &self.ledger
    }

    /// The current state.
    pub fn state(&self) -> (r: DatingState)
        ensures
            r == self.model().state,
    {
        self.state
    }

    /// The position of the highlighted character.
    pub fn cursor(&self) -> (r: usize)
        ensures
            r == self.model().cursor,
    {
        self.cursor
    }

    /// The session, outside Chilling.
    pub fn session(&self) -> (r: Option<DialogueSession>)
        ensures
            r == self.model().session,
    {
        self.session
    }

    /// Confirming on character `i` in Chilling: the character's scene opens
    /// at its first line if they are alive; otherwise nothing changes.
    pub fn select(&mut self, i: usize)
        requires
            old(self).wf(),
        ensures
            final(self).wf(),
            final(self).catalog_view() == old(self).catalog_view(),
            final(self).model() == old(self).model().selected(old(self).catalog_view(), i as int),
    {
        if self.state == DatingState::Chilling && i < self.registry.len() && self.registry.status(
            i,
        ).alive {
            let ghost chars = self.registry.characters();
            assert(has_scene(self.catalog.scenes(), chars[i as int].current_scene@));
            match self.catalog.position(self.registry.status(i).current_scene.as_str()) {
                Some(p) => {
                    self.state = DatingState::Talking;
                    self.session = Some(DialogueSession { scene: p, line: 0, option: 0 });
                },
                None => {},
            }
        }
    }

    /// The end of the scene of `s`: see `PlayModel::finished`.
    fn finish(&mut self, s: DialogueSession)
        requires
            old(self).wf(),
            old(self).model().state == DatingState::Talking,
            old(self).model().session == Some(s),
        ensures
            final(self).wf(),
            final(self).catalog_view() == old(self).catalog_view(),
            final(self).model() == old(self).model().finished(old(self).catalog_view()),
    {
        let scene = self.catalog.scene(s.scene);
        match scene.mission {
            Some(m) => {
                self.ledger.collect_mission(m);
            },
            None => {},
        }
        match &scene.outcome {
            Some(ds) => {
                self.ledger.apply_outcome(ds);
            },
            None => {
                assert(scene.deltas() == Seq::<(String, i64)>::empty());
            },
        }
        if scene.choice.is_some() {
            self.state = DatingState::Choosing;
            self.session = Some(DialogueSession { option: 0, ..s });
        } else {
            self.state = DatingState::Chilling;
            self.session = None;
        }
    }

    /// Taking branch `option` in Choosing: its target scene opens at the
    /// first line. Anything else changes nothing.
    pub fn pick(&mut self, option: usize)
        requires
            old(self).wf(),
        ensures
            final(self).wf(),
            final(self).catalog_view() == old(self).catalog_view(),
            final(self).model() == old(self).model().picked(old(self).catalog_view(), option as int),
    {
        if self.state == DatingState::Choosing && option < 2 {
            match self.session {
                Some(s) => {
                    let scene = self.catalog.scene(s.scene);
                    assert(choice_known(self.catalog.scenes(), s.scene as int));
                    match &scene.choice {
                        Some((a, b)) => {
                            let target = if option == 0 {
                                &a.1
                            } else {
                                &b.1
                            };
                            match self.catalog.position(target.as_str()) {
                                Some(p) => {
                                    self.state = DatingState::Talking;
                                    self.session = Some(DialogueSession { scene: p, line: 0, option: 0 });
                                },
                                None => {},
                            }
                        },
                        None => {},
                    }
                },
                None => {},
            }
        }
    }

    /// Confirm: see `PlayModel::confirmed`.
    pub fn confirm(&mut self)
        requires
            old(self).wf(),
        ensures
            final(self).wf(),
            final(self).catalog_view() == old(self).catalog_view(),
            final(self).model() == old(self).model().confirmed(old(self).catalog_view()),
    {
        match self.state {
            DatingState::Chilling => {
                let c = self.cursor;
                self.select(c);
            },
            DatingState::Talking => {
                match self.session {
                    Some(s) => {
                        let len = self.catalog.scene(s.scene).text.len();
                        assert(s.line < len);
                        if s.line < len - 1 {
                            self.session = Some(DialogueSession { line: s.line + 1, ..s });
                        } else {
                            self.finish(s);
                        }
                    },
                    None => {},
                }
            },
            DatingState::Choosing => {
                match self.session {
                    Some(s) => {
                        self.pick(s.option);
                    },
                    None => {},
                }
            },
        }
    }

    /// Cancel: see `PlayModel::cancelled`.
    pub fn cancel(&mut self)
        requires
            old(self).wf(),
        ensures
            final(self).wf(),
            final(self).catalog_view() == old(self).catalog_view(),
            final(self).model() == old(self).model().cancelled(),
    {
        if self.state == DatingState::Talking {
            self.state = DatingState::Chilling;
            self.session = None;
        }
    }

    /// A move by `delta`: see `PlayModel::moved`.
    pub fn move_cursor(&mut self, delta: i64)
        requires
            old(self).wf(),
        ensures
            final(self).wf(),
            final(self).catalog_view() == old(self).catalog_view(),
            final(self).model() == old(self).model().moved(delta as int),
    {
        match self.state {
            DatingState::Chilling => {
                let n = self.registry.len();
                let v: i128 = self.cursor as i128 + delta as i128;
                self.cursor = if v < 0 || n == 0 {
                    0
                } else if v >= n as i128 {
                    n - 1
                } else {
                    v as usize
                };
            },
            DatingState::Talking => {},
            DatingState::Choosing => {
                if delta != 0 {
                    match self.session {
                        Some(s) => {
                            let option: usize = if delta < 0 {
                                0
                            } else {
                                1
                            };
                            self.session = Some(DialogueSession { option, ..s });
                        },
                        None => {},
                    }
                }
            },
        }
    }

    /// One tick of input: see `PlayModel::stepped`.
    pub fn tick(&mut self, input: Input)
        requires
            old(self).wf(),
        ensures
            final(self).wf(),
            final(self).catalog_view() == old(self).catalog_view(),
            final(self).model() == old(self).model().stepped(old(self).catalog_view(), input),
    {
        let right: i64 = if input.move_right {
            1
        } else {
            0
        };
        let left: i64 = if input.move_left {
            1
        } else {
            0
        };
        match self.state {
            DatingState::Chilling => {
                let highlighted = self.cursor;
                self.move_cursor(right - left);
                if input.confirm {
                    self.select(highlighted);
                }
            },
            DatingState::Talking => {
                if input.cancel {
                    self.cancel();
                } else if input.confirm {
                    self.confirm();
                }
            },
            DatingState::Choosing => {
                if input.confirm {
                    self.confirm();
                } else {
                    self.move_cursor(right - left);
                }
            },
        }
    }

    /// The line shown while talking.
    pub fn current_line(&self) -> (r: Option<&String>)
        requires
            self.wf(),
        ensures
            match r {
                Some(l) => self.model().current_line(self.catalog_view()) == Some(l@),
                None => self.model().current_line(self.catalog_view()) is None,
            },
    {
        if self.state == DatingState::Talking {
            match self.session {
                Some(s) => {
                    let scene = self.catalog.scene(s.scene);
                    Some(&scene.text[s.line])
                },
                None => None,
            }
        } else {
            None
        }
    }

    /// The two branch labels while choosing.
    pub fn choice_labels(&self) -> (r: Option<(&String, &String)>)
        requires
            self.wf(),
        ensures
            r is Some <==> self.model().state == DatingState::Choosing,
            r matches Some((a, b)) ==> {
                let (x, y) = self.model().scene(self.catalog_view()).choice.unwrap();
                *a == x.0 && *b == y.0
            },
    {
        if self.state == DatingState::Choosing {
            match self.session {
                Some(s) => {
                    match &self.catalog.scene(s.scene).choice {
                        Some((x, y)) => Some((&x.0, &y.0)),
                        None => None,
                    }
                },
                None => None,
            }
        } else {
            None
        }
    }

    /// The highlighted character while chilling.
    pub fn highlighted(&self) -> (r: Option<&CharactersStatus>)
        requires
            self.wf(),
        ensures
            r is Some <==> self.model().state == DatingState::Chilling
                && self.model().characters.len() > 0,
            r matches Some(c) ==> *c == self.model().characters[self.model().cursor as int],
    {
        if self.state == DatingState::Chilling && self.cursor < self.registry.len() {
            Some(self.registry.status(self.cursor))
        } else {
            None
        }
    }

    /// Sends `kind` on to the scene `scene`, where the catalog holds it;
    /// returns whether it does. The change reaches only a living character.
    pub fn advance_dialogue(&mut self, kind: CharactersType, scene: String) -> (r: bool)
        requires
            old(self).wf(),
        ensures
            final(self).wf(),
            final(self).catalog_view() == old(self).catalog_view(),
            r == has_scene(old(self).catalog_view().scenes(), scene@),
            final(self).model() == (PlayModel {
                characters: final(self).model().characters,
                ..old(self).model()
            }),
            !r ==> final(self).model() == old(self).model(),
            forall|i: int| #[trigger]
                live_slot(old(self).model().characters, kind, i) && r ==> final(self).model().characters
                    == old(self).model().characters.update(
                    i,
                    CharactersStatus { current_scene: scene, ..old(self).model().characters[i] },
                ),
            (forall|i: int| !#[trigger] live_slot(old(self).model().characters, kind, i))
                ==> final(self).model() == old(self).model(),
    {
        if self.catalog.position(scene.as_str()).is_none() {
            return false;
        }
        let ghost sc = scene@;
        self.registry.advance_dialogue(kind, scene);
        proof {
            let before = old(self).model().characters;
            let after = self.model().characters;
            assert forall|i: int| 0 <= i < after.len() implies has_scene(
                self.catalog.scenes(),
                (#[trigger] after[i]).current_scene@,
            ) by {
                assert(before[i] == after[i] || after[i].current_scene@ == sc);
            }
        }
        true
    }

    /// Changes the favor of `kind` by `delta`, never below zero; only a
    /// living character is reached.
    pub fn adjust_favor(&mut self, kind: CharactersType, delta: i64)
        requires
            old(self).wf(),
        ensures
            final(self).wf(),
            final(self).catalog_view() == old(self).catalog_view(),
            final(self).model() == (PlayModel {
                characters: final(self).model().characters,
                ..old(self).model()
            }),
            forall|i: int| #[trigger]
                live_slot(old(self).model().characters, kind, i) ==> final(self).model().characters
                    == old(self).model().characters.update(
                    i,
                    CharactersStatus {
                        favor: adjusted_favor(old(self).model().characters[i].favor, delta),
                        ..old(self).model().characters[i]
                    },
                ),
            (forall|i: int| !#[trigger] live_slot(old(self).model().characters, kind, i))
                ==> final(self).model() == old(self).model(),
    {
        self.registry.adjust_favor(kind, delta);
        proof {
            let before = old(self).model().characters;
            let after = self.model().characters;
            assert forall|i: int| 0 <= i < after.len() implies has_scene(
                self.catalog.scenes(),
                (#[trigger] after[i]).current_scene@,
            ) by {
                assert(before[i].current_scene == after[i].current_scene);
            }
        }
    }

    /// Marks `kind` dead for good: from then on the character cannot be
    /// selected, sent on, or changed in favor.
    pub fn mark_dead(&mut self, kind: CharactersType)
        requires
            old(self).wf(),
        ensures
            final(self).wf(),
            final(self).catalog_view() == old(self).catalog_view(),
            final(self).model() == (PlayModel {
                characters: final(self).model().characters,
                ..old(self).model()
            }),
            forall|i: int| #[trigger]
                is_first_of_kind(old(self).model().characters, kind, i) ==> final(self).model().characters
                    == old(self).model().characters.update(
                    i,
                    CharactersStatus { alive: false, ..old(self).model().characters[i] },
                ),
            !has_kind(old(self).model().characters, kind) ==> final(self).model() == old(self).model(),
    {
        self.registry.mark_dead(kind);
        proof {
            let before = old(self).model().characters;
            let after = self.model().characters;
            if has_kind(before, kind) {
                let j = choose|j: int| 0 <= j < before.len() && (#[trigger] before[j]).character == kind;
                lemma_first_of_kind(before, kind, j);
            }
            assert forall|i: int| 0 <= i < after.len() implies has_scene(
                self.catalog.scenes(),
                (#[trigger] after[i]).current_scene@,
            ) by {
                assert(before[i].current_scene == after[i].current_scene);
            }
        }
    }
}

} // verus!
