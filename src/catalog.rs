use vstd::hash_map::StringHashMap;
use vstd::prelude::*;

use crate::scene::{record_error, record_ok, scene_of_record, CatalogError, DatingScene, SceneRecord};

verus! {

/// The id of the scene at `i`.
pub open spec fn id_at(s: Seq<DatingScene>, i: int) -> Seq<char> {
    s[i].id@
}

/// Some scene of `s` carries the id `id`.
pub open spec fn has_scene(s: Seq<DatingScene>, id: Seq<char>) -> bool {
    exists|j: int| 0 <= j < s.len() && #[trigger] id_at(s, j) == id
}

/// Every scene has at least one line.
pub open spec fn texts_nonempty(s: Seq<DatingScene>) -> bool {
    forall|i: int| 0 <= i < s.len() ==> (#[trigger] s[i]).text@.len() > 0
}

/// Every scene's line count fits a `usize`, as that of a vector in memory does.
pub open spec fn lines_fit(s: Seq<DatingScene>) -> bool {
    forall|i: int| 0 <= i < s.len() ==> (#[trigger] s[i]).text@.len() <= usize::MAX
}

/// No two scenes among the first `n` share an id.
pub open spec fn ids_unique_upto(s: Seq<DatingScene>, n: int) -> bool {
    forall|i: int, j: int| 0 <= i < j < n ==> #[trigger] id_at(s, i) != #[trigger] id_at(s, j)
}

/// No two scenes share an id.
pub open spec fn ids_unique(s: Seq<DatingScene>) -> bool {
    ids_unique_upto(s, s.len() as int)
}

/// Both branches of the choice of the scene at `i`, if it has one, lead to
/// scenes of `s`.
pub open spec fn choice_known(s: Seq<DatingScene>, i: int) -> bool {
    match s[i].choice {
        Some((a, b)) => has_scene(s, a.1@) && has_scene(s, b.1@),
        None => true,
    }
}

/// Every choice leads to scenes of `s`.
pub open spec fn choices_known(s: Seq<DatingScene>) -> bool {
    forall|i: int| 0 <= i < s.len() ==> #[trigger] choice_known(s, i)
}

/// What a catalog must be: lines in every scene, ids unique, no branch
/// that leads nowhere.
pub open spec fn valid_catalog(s: Seq<DatingScene>) -> bool {
    texts_nonempty(s) && ids_unique(s) && choices_known(s)
}

/// The first branch target of the choice at `i` that leads nowhere.
pub open spec fn unknown_target(s: Seq<DatingScene>, i: int) -> String {
    let (a, b) = s[i].choice.unwrap();
    if !has_scene(s, a.1@) {
        a.1
    } else {
        b.1
    }
}

/// `i` is the first scene without a line.
pub open spec fn first_empty(s: Seq<DatingScene>, i: int) -> bool {
    &&& 0 <= i < s.len()
    &&& s[i].text@.len() == 0
    &&& forall|k: int| 0 <= k < i ==> (#[trigger] s[k]).text@.len() > 0
}

/// `i` is the first scene whose id an earlier scene carries.
pub open spec fn first_duplicate(s: Seq<DatingScene>, i: int) -> bool {
    0 <= i < s.len() && ids_unique_upto(s, i) && !ids_unique_upto(s, i + 1)
}

/// `i` is the first scene with a branch that leads nowhere.
pub open spec fn first_bad_choice(s: Seq<DatingScene>, i: int) -> bool {
    &&& 0 <= i < s.len()
    &&& !choice_known(s, i)
    &&& forall|k: int| 0 <= k < i ==> #[trigger] choice_known(s, k)
}

/// `e` is how the catalog check refuses `s`: the first scene without a line,
/// else the first scene whose id an earlier one carries, else the first
/// scene with a branch that leads nowhere.
pub open spec fn catalog_refusal(s: Seq<DatingScene>, e: CatalogError) -> bool {
    match e {
        CatalogError::EmptyText { scene } => exists|i: int| #[trigger]
            first_empty(s, i) && scene == s[i].id,
        CatalogError::DuplicateId { scene } => texts_nonempty(s) && exists|i: int| #[trigger]
            first_duplicate(s, i) && scene == s[i].id,
        CatalogError::UnknownTarget { scene, target } => {
            &&& texts_nonempty(s)
            &&& ids_unique(s)
            &&& exists|i: int| #[trigger]
                first_bad_choice(s, i) && scene == s[i].id && target == unknown_target(s, i)
        },
        _ => false,
    }
}

/// The scenes of the game, checked, with an index from id to position.
pub struct SceneCatalog {
    scenes: Vec<DatingScene>,
    index: StringHashMap<usize>,
}

impl SceneCatalog {
    /// The scenes, in the order of the source.
    pub closed spec fn scenes(self) -> Seq<DatingScene> {
        self.scenes@
    }

    /// The position of each id.
    pub closed spec fn index(self) -> Map<Seq<char>, usize> {
        self.index@
    }

    /// The catalog is valid and its index finds each scene by its id.
    pub open spec fn wf(self) -> bool {
        &&& valid_catalog(self.scenes())
        &&& lines_fit(self.scenes())
        &&& forall|k: Seq<char>| #[trigger]
            self.index().contains_key(k) <==> has_scene(self.scenes(), k)
        &&& forall|k: Seq<char>| #[trigger]
            self.index().contains_key(k) ==> {
                &&& self.index()[k] < self.scenes().len()
                &&& id_at(self.scenes(), self.index()[k] as int) == k
            }
    }

    /// Checks the scenes and indexes them by id.
    pub fn new(scenes: Vec<DatingScene>) -> (r: Result<SceneCatalog, CatalogError>)
        ensures
            r is Ok <==> valid_catalog(scenes@),
            r matches Ok(c) ==> c.wf() && c.scenes() == scenes@,
            r matches Err(e) ==> catalog_refusal(scenes@, e),
    {
        let n = scenes.len();
        let mut i: usize = 0;
        while i < n
            invariant
                n == scenes@.len(),
                i <= n,
                forall|k: int| 0 <= k < i ==> (#[trigger] scenes@[k]).text@.len() > 0,
                forall|k: int| 0 <= k < i ==> (#[trigger] scenes@[k]).text@.len() <= usize::MAX,
            decreases n - i,
        {
            if scenes[i].text.len() == 0 {
                assert(first_empty(scenes@, i as int));
                return Err(CatalogError::EmptyText { scene: scenes[i].id.clone() });
            }
            i = i + 1;
        }
        let mut index = StringHashMap::<usize>::new();
        let mut i: usize = 0;
        while i < n
            invariant
                n == scenes@.len(),
                i <= n,
                texts_nonempty(scenes@),
                lines_fit(scenes@),
                ids_unique_upto(scenes@, i as int),
                forall|k: Seq<char>| #[trigger]
                    index@.contains_key(k) <==> exists|j: int|
                        0 <= j < i && #[trigger] id_at(scenes@, j) == k,
                forall|k: Seq<char>| #[trigger]
                    index@.contains_key(k) ==> {
                        &&& index@[k] < i
                        &&& id_at(scenes@, index@[k] as int) == k
                    },
            decreases n - i,
        {
            if index.contains_key(scenes[i].id.as_str()) {
                let ghost k = scenes@[i as int].id@;
                let ghost j = choose|j: int| 0 <= j < i && #[trigger] id_at(scenes@, j) == k;
                assert(id_at(scenes@, j) == id_at(scenes@, i as int));
                assert(first_duplicate(scenes@, i as int));
                return Err(CatalogError::DuplicateId { scene: scenes[i].id.clone() });
            }
            proof {
                assert forall|a: int, b: int| 0 <= a < b < i + 1 implies #[trigger] id_at(scenes@, a)
                    != #[trigger] id_at(scenes@, b) by {
                    if b == i {
                        if id_at(scenes@, a) == id_at(scenes@, b) {
                            assert(index@.contains_key(id_at(scenes@, a)));
                        }
                    }
                }
            }
            index.insert(scenes[i].id.clone(), i);
            proof {
                assert forall|k: Seq<char>| #[trigger]
                    index@.contains_key(k) implies exists|j: int|
                        0 <= j < i + 1 && #[trigger] id_at(scenes@, j) == k by {
                    if k == id_at(scenes@, i as int) {
                        assert(id_at(scenes@, i as int) == k);
                    }
                }
            }
            i = i + 1;
        }
        assert forall|k: Seq<char>| #[trigger] index@.contains_key(k) <==> has_scene(scenes@, k) by {
            if has_scene(scenes@, k) {
                let j = choose|j: int| 0 <= j < n && #[trigger] id_at(scenes@, j) == k;
                assert(0 <= j < n && id_at(scenes@, j) == k);
            }
        }
        let mut i: usize = 0;
        while i < n
            invariant
                n == scenes@.len(),
                i <= n,
                texts_nonempty(scenes@),
                lines_fit(scenes@),
                ids_unique(scenes@),
                forall|k: Seq<char>| #[trigger] index@.contains_key(k) <==> has_scene(scenes@, k),
                forall|k: int| 0 <= k < i ==> #[trigger] choice_known(scenes@, k),
            decreases n - i,
        {
            match &scenes[i].choice {
                Some((a, b)) => {
                    if !index.contains_key(a.1.as_str()) {
                        assert(!choice_known(scenes@, i as int));
                        assert(unknown_target(scenes@, i as int) == a.1);
                        assert(first_bad_choice(scenes@, i as int));
                        return Err(
                            CatalogError::UnknownTarget { scene: scenes[i].id.clone(), target: a.1.clone() },
                        );
                    }
                    if !index.contains_key(b.1.as_str()) {
                        assert(!choice_known(scenes@, i as int));
                        assert(unknown_target(scenes@, i as int) == b.1);
                        assert(first_bad_choice(scenes@, i as int));
                        return Err(
                            CatalogError::UnknownTarget { scene: scenes[i].id.clone(), target: b.1.clone() },
                        );
                    }
                },
                None => {},
            }
            assert(choice_known(scenes@, i as int));
            i = i + 1;
        }
        Ok(SceneCatalog { scenes, index })
    }

    /// How many scenes the catalog holds.
    pub fn len(&self) -> (r: usize)
        ensures
            r == self.scenes().len(),
    {
        self.scenes.len()
    }

    /// The scene at position `i`.
    pub fn scene(&self, i: usize) -> (r: &DatingScene)
        requires
            i < self.scenes().len(),
        ensures
            *r == self.scenes()[i as int],
    {
        &self.scenes[i]
    }

    /// The position of the scene with the id `id`, found through the index.
    pub fn position(&self, id: &str) -> (r: Option<usize>)
        requires
            self.wf(),
        ensures
            r is Some <==> has_scene(self.scenes(), id@),
            r matches Some(i) ==> {
                &&& i < self.scenes().len()
                &&& id_at(self.scenes(), i as int) == id@
                &&& i == self.index()[id@]
            },
    {
        let r = self.index.get(id);
        assert(self.index@.contains_key(id@) <==> self.index().contains_key(id@));
        match r {
            Some(i) => Some(*i),
            None => None,
        }
    }

    /// The scene with the id `id`, if the catalog holds one.
    pub fn get(&self, id: &str) -> (r: Option<&DatingScene>)
        requires
            self.wf(),
        ensures
            r is Some <==> has_scene(self.scenes(), id@),
            r matches Some(s) ==> s.id@ == id@ && exists|i: int|
                0 <= i < self.scenes().len() && self.scenes()[i] == *s,
    {
        match self.position(id) {
            Some(i) => Some(&self.scenes[i]),
            None => None,
        }
    }
}

/// The scenes that the records stand for, in order.
pub open spec fn scenes_of_records(recs: Seq<SceneRecord>) -> Seq<DatingScene> {
    recs.map_values(|r: SceneRecord| scene_of_record(r))
}

/// Every record's tags name something.
pub open spec fn records_ok(recs: Seq<SceneRecord>) -> bool {
    forall|i: int| 0 <= i < recs.len() ==> record_ok(#[trigger] recs[i])
}

/// `e` is how loading refuses `recs`: the first record with a tag that names
/// nothing, else the catalog check on the scenes.
pub open spec fn load_refusal(recs: Seq<SceneRecord>, e: CatalogError) -> bool {
    ||| exists|i: int|
        0 <= i < recs.len() && !record_ok(#[trigger] recs[i]) && e == record_error(recs[i]) && (
        forall|k: int| 0 <= k < i ==> record_ok(#[trigger] recs[k]))
    ||| records_ok(recs) && catalog_refusal(scenes_of_records(recs), e)
}

/// Reads the tags of every record, then checks and indexes the scenes.
pub fn load_scenes(records: Vec<SceneRecord>) -> (r: Result<SceneCatalog, CatalogError>)
    ensures
        r is Ok <==> records_ok(records@) && valid_catalog(scenes_of_records(records@)),
        r matches Ok(c) ==> c.wf() && c.scenes() == scenes_of_records(records@),
        r matches Err(e) ==> load_refusal(records@, e),
{
    let ghost recs = records@;
    let mut scenes: Vec<DatingScene> = Vec::new();
    for rec in it: records
        invariant
            it.seq() == recs,
            it.index() <= recs.len(),
            scenes@ == scenes_of_records(recs.take(it.index() as int)),
            forall|k: int| 0 <= k < it.index() ==> record_ok(#[trigger] recs[k]),
    {
        let ghost i = it.index() as int;
        match rec.into_scene() {
            Ok(s) => {
                scenes.push(s);
                assert(recs.take(i + 1) == recs.take(i).push(recs[i]));
            },
            Err(e) => {
                return Err(e);
            },
        }
    }
    assert(recs.take(recs.len() as int) == recs);
    SceneCatalog::new(scenes)
}

} // verus!
