//! What holds of every play, proved over the model that the transitions of
//! `DatingContext` follow.
use vstd::prelude::*;

use crate::catalog::{has_scene, id_at, SceneCatalog};
use crate::ledger::{
    apply_delta, apply_deltas, delta_sum, flag_value, lemma_deltas_sum, names_after, sums_fit,
};
use crate::machine::{clamped_cursor, move_delta, DatingState, DialogueSession, Input, PlayModel};
use crate::scene::MissionType;

verus! {

/// The model after `n` confirms in a row.
pub open spec fn confirmed_times(m: PlayModel, cat: SceneCatalog, n: nat) -> PlayModel
    decreases n,
{
    if n == 0 {
        m
    } else {
        confirmed_times(m.confirmed(cat), cat, (n - 1) as nat)
    }
}

/// The model after the ticks of `ins` that come while play is in Talking:
/// the first tick that leaves Talking ends the session, and the ticks after
/// it belong to no session.
pub open spec fn talked(m: PlayModel, cat: SceneCatalog, ins: Seq<Input>) -> PlayModel
    decreases ins.len(),
{
    if ins.len() == 0 || m.state != DatingState::Talking {
        m
    } else {
        talked(m.stepped(cat, ins[0]), cat, ins.drop_first())
    }
}

/// How many tokens of `x` the sequence holds.
pub open spec fn count_of(s: Seq<MissionType>, x: MissionType) -> nat {
    s.filter(|y: MissionType| y == x).len()
}

/// Opening the scene with the id `id` starts the session at line 0 of that
/// scene, and the line shown is its first.
pub proof fn lemma_open_at_first_line(m: PlayModel, cat: SceneCatalog, id: Seq<char>)
    requires
        cat.wf(),
        has_scene(cat.scenes(), id),
    ensures
        m.opened(cat, id).state == DatingState::Talking,
        m.opened(cat, id).session.unwrap().line == 0,
        m.opened(cat, id).scene(cat).id@ == id,
        m.opened(cat, id).current_line(cat) == Some(m.opened(cat, id).scene(cat).line(0)),
{
    assert(cat.index().contains_key(id));
    assert(id_at(cat.scenes(), cat.index()[id] as int) == id);
}

/// Selecting a living character opens that character's scene at its first
/// line, and shows that line.
pub proof fn lemma_select_starts_at_first_line(m: PlayModel, cat: SceneCatalog, i: int)
    requires
        cat.wf(),
        m.wf(cat),
        m.state == DatingState::Chilling,
        0 <= i < m.characters.len(),
        m.characters[i].alive,
    ensures
        m.selected(cat, i).state == DatingState::Talking,
        m.selected(cat, i).session.unwrap().line == 0,
        m.selected(cat, i).scene(cat).id@ == m.characters[i].current_scene@,
        m.selected(cat, i).current_line(cat) == Some(m.selected(cat, i).scene(cat).line(0)),
{
    lemma_open_at_first_line(m, cat, m.characters[i].current_scene@);
}

/// Before the last line, `k` confirms move the session `k` lines on and
/// change nothing else.
pub proof fn lemma_confirms_move_lines(m: PlayModel, cat: SceneCatalog, k: nat)
    requires
        cat.wf(),
        m.wf(cat),
        m.state == DatingState::Talking,
        m.session.unwrap().line + k < m.scene(cat).text@.len(),
    ensures
        confirmed_times(m, cat, k) == (PlayModel {
            session: Some(
                DialogueSession {
                    line: (m.session.unwrap().line + k) as usize,
                    ..m.session.unwrap()
                },
            ),
            ..m
        }),
    decreases k,
{
    let s = m.session.unwrap();
    assert(m.scene(cat).text@.len() <= usize::MAX);
    if k > 0 {
        let m1 = m.confirmed(cat);
        assert(m1 == (PlayModel {
            session: Some(DialogueSession { line: (s.line + 1) as usize, ..s }),
            ..m
        }));
        assert(m1.wf(cat));
        lemma_confirms_move_lines(m1, cat, (k - 1) as nat);
        assert(confirmed_times(m, cat, k) == confirmed_times(m1, cat, (k - 1) as nat));
    } else {
        assert(m.session == Some(DialogueSession { line: m.session.unwrap().line, ..m.session.unwrap() }));
    }
}

/// From the start of a session on a scene of `L` lines, `L - 1` confirms
/// reach its last line with nothing applied yet, and one more finishes the
/// scene: its effects are applied once, and play leaves the scene, so no
/// further confirm applies them again.
pub proof fn lemma_scene_completes_once(m: PlayModel, cat: SceneCatalog)
    requires
        cat.wf(),
        m.wf(cat),
        m.state == DatingState::Talking,
        m.session.unwrap().line == 0,
    ensures
        ({
            let len = m.scene(cat).text@.len();
            let last = confirmed_times(m, cat, (len - 1) as nat);
            let done = confirmed_times(m, cat, len);
            &&& last.state == DatingState::Talking
            &&& last.session.unwrap().line == len - 1
            &&& last.current_line(cat) == Some(m.scene(cat).line(len - 1))
            &&& last.flags == m.flags
            &&& last.missions == m.missions
            &&& last.characters == m.characters
            &&& done == last.finished(cat)
            &&& done.flags == apply_deltas(m.flags, m.scene(cat).deltas())
            &&& done.names == names_after(m.names, m.scene(cat).deltas())
            &&& done.missions == match m.scene(cat).mission {
                Some(x) => m.missions.push(x),
                None => m.missions,
            }
            &&& done.state != DatingState::Talking
        }),
{
    let len = m.scene(cat).text@.len();
    lemma_confirms_move_lines(m, cat, (len - 1) as nat);
    let last = confirmed_times(m, cat, (len - 1) as nat);
    lemma_confirmed_times_last(m, cat, (len - 1) as nat);
    assert(last.scene(cat) == m.scene(cat));
}

/// One confirm more is the confirm of the model reached before.
pub proof fn lemma_confirmed_times_last(m: PlayModel, cat: SceneCatalog, n: nat)
    ensures
        confirmed_times(m, cat, n + 1) == confirmed_times(m, cat, n).confirmed(cat),
    decreases n,
{
    let m1 = m.confirmed(cat);
    assert(confirmed_times(m, cat, n + 1) == confirmed_times(m1, cat, n));
    if n > 0 {
        lemma_confirmed_times_last(m1, cat, (n - 1) as nat);
        assert(confirmed_times(m, cat, n) == confirmed_times(m1, cat, (n - 1) as nat));
    } else {
        assert(confirmed_times(m1, cat, 0) == m1);
        assert(confirmed_times(m, cat, 0) == m);
    }
}

/// Whatever ticks come during a session, the ledger ends either as it was
/// (the session is still going, or was cancelled) or with the effects of the
/// scene applied exactly once, and then play has left the scene.
pub proof fn lemma_session_effects_once(m: PlayModel, cat: SceneCatalog, ins: Seq<Input>)
    requires
        cat.wf(),
        m.wf(cat),
        m.state == DatingState::Talking,
    ensures
        ({
            let r = talked(m, cat, ins);
            let s = m.scene(cat);
            &&& r.characters == m.characters
            &&& {
                ||| {
                    &&& r.flags == m.flags
                    &&& r.names == m.names
                    &&& r.missions == m.missions
                    &&& r.state == DatingState::Talking ==> r.scene(cat) == s
                }
                ||| {
                    &&& r.flags == apply_deltas(m.flags, s.deltas())
                    &&& r.names == names_after(m.names, s.deltas())
                    &&& r.missions == match s.mission {
                        Some(x) => m.missions.push(x),
                        None => m.missions,
                    }
                    &&& r.state != DatingState::Talking
                }
            }
        }),
    decreases ins.len(),
{
    if ins.len() > 0 {
        let n = m.stepped(cat, ins[0]);
        assert(talked(m, cat, ins) == talked(n, cat, ins.drop_first()));
        if n.state == DatingState::Talking {
            assert(n.wf(cat));
            assert(n.scene(cat) == m.scene(cat));
            lemma_session_effects_once(n, cat, ins.drop_first());
        }
    }
}

/// Finishing a scene that hands out a mission adds exactly one token of
/// that mission to the ledger.
pub proof fn lemma_mission_collected_once(m: PlayModel, cat: SceneCatalog, x: MissionType)
    requires
        cat.wf(),
        m.wf(cat),
        m.state == DatingState::Talking,
        m.session.unwrap().line + 1 == m.scene(cat).text@.len(),
        m.scene(cat).mission == Some(x),
    ensures
        m.confirmed(cat).missions == m.missions.push(x),
        count_of(m.confirmed(cat).missions, x) == count_of(m.missions, x) + 1,
{
    let s = m.missions.push(x);
    reveal(Seq::filter);
    assert(s.drop_last() == m.missions);
}

/// Finishing a scene leaves each flag at its old value plus the sum of the
/// scene's changes to it, where no step of that sum leaves an `i64`.
pub proof fn lemma_completion_sums_outcome(m: PlayModel, cat: SceneCatalog, x: Seq<char>)
    requires
        cat.wf(),
        m.wf(cat),
        m.state == DatingState::Talking,
        m.session.unwrap().line + 1 == m.scene(cat).text@.len(),
        sums_fit(m.flags, m.scene(cat).deltas(), x),
    ensures
        flag_value(m.confirmed(cat).flags, x) == flag_value(m.flags, x) + delta_sum(
            m.scene(cat).deltas(),
            x,
        ),
{
    lemma_deltas_sum(m.flags, m.scene(cat).deltas(), x);
}

/// A scene whose outcome adds 5 and then 3 to `trust` leaves `trust` 8
/// higher once finished, where that stays inside an `i64`.
pub proof fn lemma_outcome_adds_up(m: PlayModel, cat: SceneCatalog)
    requires
        cat.wf(),
        m.wf(cat),
        m.state == DatingState::Talking,
        m.session.unwrap().line + 1 == m.scene(cat).text@.len(),
        m.scene(cat).deltas().len() == 2,
        m.scene(cat).deltas()[0].0@ == "trust"@,
        m.scene(cat).deltas()[0].1 == 5,
        m.scene(cat).deltas()[1].0@ == "trust"@,
        m.scene(cat).deltas()[1].1 == 3,
        flag_value(m.flags, "trust"@) + 8 <= i64::MAX,
    ensures
        flag_value(m.confirmed(cat).flags, "trust"@) == flag_value(m.flags, "trust"@) + 8,
{
    let d = m.scene(cat).deltas();
    let d1 = d.drop_last();
    let f0 = m.flags;
    assert(d1.len() == 1 && d1.last() == d[0] && d.last() == d[1]);
    assert(d1.drop_last().len() == 0);
    assert(apply_deltas(f0, d1.drop_last()) == f0);
    let f1 = apply_deltas(f0, d1);
    assert(f1 == apply_delta(f0, "trust"@, 5));
    assert(flag_value(f1, "trust"@) == flag_value(f0, "trust"@) + 5);
    let f2 = apply_deltas(f0, d);
    assert(f2 == apply_delta(f1, "trust"@, 3));
    assert(m.confirmed(cat).flags == f2);
}

/// Selecting a living character and cancelling after any number of
/// confirms that stop short of the scene's end leaves the play exactly as
/// it was before the selection.
pub proof fn lemma_cancel_leaves_no_trace(m: PlayModel, cat: SceneCatalog, i: int, k: nat)
    requires
        cat.wf(),
        m.wf(cat),
        m.state == DatingState::Chilling,
        0 <= i < m.characters.len(),
        m.characters[i].alive,
        k < m.selected(cat, i).scene(cat).text@.len(),
    ensures
        confirmed_times(m.selected(cat, i), cat, k).cancelled() == m,
{
    let s = m.selected(cat, i);
    let id = m.characters[i].current_scene@;
    assert(has_scene(cat.scenes(), id));
    assert(cat.index().contains_key(id));
    let p = cat.index()[id];
    assert(p < cat.scenes().len());
    assert(cat.scenes()[p as int].text@.len() > 0);
    assert(s.wf(cat));
    lemma_confirms_move_lines(s, cat, k);
}

/// In Chilling a tick's cancel means nothing and its move always lands: the
/// cursor ends at the clamped new position, and a confirm opens, at its first
/// line, the scene of the living character highlighted before the move.
pub proof fn lemma_chilling_tick(m: PlayModel, cat: SceneCatalog, input: Input)
    requires
        cat.wf(),
        m.wf(cat),
        m.state == DatingState::Chilling,
    ensures
        m.stepped(cat, input).cursor == clamped_cursor(
            m.cursor as int,
            move_delta(input),
            m.characters.len() as int,
        ),
        input.confirm && m.cursor < m.characters.len() && m.characters[m.cursor as int].alive ==> {
            let n = m.stepped(cat, input);
            &&& n.state == DatingState::Talking
            &&& n.session.unwrap().line == 0
            &&& n.scene(cat).id@ == m.characters[m.cursor as int].current_scene@
            &&& n.current_line(cat) == Some(n.scene(cat).line(0))
        },
        !(input.confirm && m.cursor < m.characters.len() && m.characters[m.cursor as int].alive)
            ==> m.stepped(cat, input).state == DatingState::Chilling,
        m.stepped(cat, input).flags == m.flags,
        m.stepped(cat, input).missions == m.missions,
        m.stepped(cat, input).characters == m.characters,
{
    if input.confirm && m.cursor < m.characters.len() && m.characters[m.cursor as int].alive {
        let moved = m.moved(move_delta(input));
        lemma_open_at_first_line(moved, cat, m.characters[m.cursor as int].current_scene@);
    }
}

/// A dead character cannot be selected: confirming on them leaves the play
/// in Chilling, unchanged but for a move pressed in the same tick.
pub proof fn lemma_dead_not_selected(m: PlayModel, cat: SceneCatalog, i: int, input: Input)
    requires
        m.state == DatingState::Chilling,
        0 <= i < m.characters.len(),
        !m.characters[i].alive,
    ensures
        m.selected(cat, i) == m,
        m.cursor == i && input.confirm ==> m.stepped(cat, input).state == DatingState::Chilling,
        m.cursor == i && input.confirm && !input.move_left && !input.move_right ==> m.stepped(
            cat,
            input,
        ) == m,
        m.selected(cat, i).state == DatingState::Chilling,
{
}

} // verus!
