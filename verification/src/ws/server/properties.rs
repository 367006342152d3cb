//! What holds of the server's rooms and messages in every state it keeps.

use vstd::prelude::*;

use crate::ws::game::message::ask_question::AskQuestion;
use crate::ws::game::message::{GameEffect, GameMessageResult};
use crate::ws::game::Game;
use crate::ws::game::message::choose_answerer::ChooseAnswerer as GameChooseAnswerer;
use crate::ws::game::message::GameMessageResponse;
use crate::ws::server::command::disconnect::rooms_of_member;
use crate::ws::server::message::game_message::choose_answerer::ChooseAnswerer;
use crate::ws::server::message::game_message::validate_answer::ValidateAnswer;
use crate::ws::server::message::server_message::ResponseStatus;
use crate::ws::server::{
    delivers, lists_name, notices_of, timers_of, GameServer, Outgoing, Payload, Room, ServerReply, TimerAction,
};

verus! {

/// A room message never reaches the member it skips, nor anyone who is not
/// a connected member of the room.
pub proof fn lemma_room_message_audience(s: GameServer, room: Seq<char>, skip: usize)
    ensures
        !s.room_audience(room, skip).contains(skip),
        forall|m: usize| #[trigger]
            s.room_audience(room, skip).contains(m) <==> (s.members_of(room).contains(m) && m != skip
                && s.sessions@.contains_key(m)),
{
}

/// A session that is not connected hears nothing: no room message and no
/// message addressed to it reaches it.
pub proof fn lemma_gone_hears_nothing(s: GameServer, id: usize)
    requires
        !s.sessions@.contains_key(id),
    ensures
        forall|room: Seq<char>, skip: usize| !#[trigger] s.room_audience(room, skip).contains(id),
        s.direct_audience(id) == Set::<usize>::empty(),
{
}

/// In every state the server keeps, a session is a member of a room
/// exactly when it is connected and joined that room.
pub proof fn lemma_member_iff_joined(s: GameServer, k: usize, room: Seq<char>)
    requires
        s.wf(),
    ensures
        s.members_of(room).contains(k) <==> (s.sessions@.contains_key(k) && lists_name(
            s.sessions@[k].rooms@,
            room,
        )),
{
    if s.members_of(room).contains(k) {
        let i = s.room_index(room)->0;
        crate::ws::server::message::join::lemma_room_index(s, i, room);
        assert(s.rooms@[i].1.members@.contains(k));
    }
    if s.sessions@.contains_key(k) && lists_name(s.sessions@[k].rooms@, room) {
        let j = choose|j: int| 0 <= j < s.sessions@[k].rooms@.len() && #[trigger] s.sessions@[k].rooms@[j]@ == room;
        assert(s.members_of(s.sessions@[k].rooms@[j]@).contains(k));
    }
}

/// Every game of the server gives the answerer five seconds: an accepted
/// question starts the answer timer of its game for five seconds.
pub proof fn lemma_answer_time_is_five_seconds(
    s: GameServer,
    game_id: usize,
    post: Game,
    msg: AskQuestion,
    r: (GameMessageResult, Seq<GameEffect>),
)
    requires
        s.wf(),
        s.games@.contains_key(game_id),
        Game::ask_question_spec(s.games@[game_id], post, msg, r),
        r.0 is Ok,
    ensures
        timers_of(game_id, r.1) == seq![TimerAction::Start { game_id, secs: 5 }],
{
    let g = s.games@[game_id];
    if msg.host_id == g.host.id {
        if let crate::ws::game::state::GameState::AskQuestion(st) = g.state {
            assert(r.1.drop_last() =~= Seq::<GameEffect>::empty());
            assert(timers_of(game_id, r.1.drop_last()) =~= Seq::<TimerAction>::empty());
        }
    }
}

} // verus!

verus! {

/// Who is a connected member of the room `room` of `s`.
pub open spec fn connected_member(s: GameServer, room: Seq<char>, m: usize) -> bool {
    s.members_of(room).contains(m) && s.sessions@.contains_key(m)
}

/// A message sent to the whole room, skipping nobody, reaches exactly its
/// connected members.
proof fn lemma_whole_room(s: GameServer, room: Seq<char>, out: Outgoing, status: ResponseStatus, payload: Payload)
    requires
        s.wf(),
        delivers(out, s.room_audience(room, 0), status, payload),
    ensures
        forall|m: usize| #[trigger] out.receivers@.contains(m) <==> connected_member(s, room, m),
{
    assert forall|m: usize| #[trigger] out.receivers@.contains(m) <==> connected_member(s, room, m) by {
        if s.sessions@.contains_key(m) {
            assert(1 <= m);
        }
        assert(out.receivers@.contains(m) <==> out.receivers@.to_set().contains(m));
    }
}

/// An accepted choice of the next answerer reaches every connected member
/// of the room, the chosen player and the chooser among them, and no one
/// else.
pub proof fn lemma_choice_reaches_the_whole_room(
    s: GameServer,
    msg: ChooseAnswerer,
    r: GameMessageResult,
    reply: ServerReply,
)
    requires
        s.wf(),
        s.answers_choose(msg, r, reply),
        r is Ok,
    ensures
        reply.outgoing@.len() == 1,
        reply.outgoing@[0].status == ResponseStatus::Success,
        forall|m: usize| #[trigger] reply.outgoing@[0].receivers@.contains(m) <==> connected_member(s, msg.room@, m),
        r matches Ok(GameMessageResponse::AnswererChosen(a)) ==> (connected_member(s, msg.room@, a)
            ==> reply.outgoing@[0].receivers@.contains(a)),
{
    if let Ok(GameMessageResponse::AnswererChosen(a)) = r {
        lemma_whole_room(s, msg.room@, reply.outgoing@[0], ResponseStatus::Success, reply.outgoing@[0].payload);
    }
}

/// An accepted verdict reaches every connected member of the room, the
/// judged answerer among them, and no one else.
pub proof fn lemma_verdict_reaches_the_whole_room(
    s: GameServer,
    msg: ValidateAnswer,
    r: (GameMessageResult, Seq<GameEffect>),
    reply: ServerReply,
)
    requires
        s.wf(),
        s.answers_validate(msg, r, reply),
        r.0 is Ok,
    ensures
        reply.outgoing@[0].status == ResponseStatus::Success,
        forall|m: usize| #[trigger] reply.outgoing@[0].receivers@.contains(m) <==> connected_member(s, msg.room@, m),
        r.0 matches Ok(GameMessageResponse::AnswerValidated(a, _)) ==> (connected_member(s, msg.room@, a)
            ==> reply.outgoing@[0].receivers@.contains(a)),
{
    if let Ok(GameMessageResponse::AnswerValidated(a, v)) = r.0 {
        lemma_whole_room(s, msg.room@, reply.outgoing@[0], ResponseStatus::Success, reply.outgoing@[0].payload);
    }
}

/// The notices of a run of effects are those of its parts, in order.
pub proof fn lemma_notices_of_concat(a: Seq<GameEffect>, b: Seq<GameEffect>)
    ensures
        notices_of(a + b) == notices_of(a) + notices_of(b),
    decreases b.len(),
{
    if b.len() == 0 {
        assert(a + b =~= a);
        assert(notices_of(a) + notices_of(b) =~= notices_of(a));
    } else {
        lemma_notices_of_concat(a, b.drop_last());
        assert((a + b).drop_last() =~= a + b.drop_last());
        assert((a + b).last() == b.last());
        assert(notices_of(a) + notices_of(b) =~= notices_of(a) + notices_of(b.drop_last()) + match b.last() {
            GameEffect::PlayerLost(p) => seq![Payload::PlayerLost(p)],
            GameEffect::AnswerTimedOut(t) => seq![Payload::AnswerTimedOut(t)],
            _ => seq![],
        });
    }
}

/// Each effect gives its own notice: a lost player and a timeout, whatever
/// the state it led to, are each told to the room as one message; timer
/// work is told to no one.
pub proof fn lemma_notice_of_each_effect(e: GameEffect)
    ensures
        e matches GameEffect::PlayerLost(p) ==> notices_of(seq![e]) == seq![Payload::PlayerLost(p)],
        e matches GameEffect::AnswerTimedOut(t) ==> notices_of(seq![e]) == seq![Payload::AnswerTimedOut(t)],
        e is StartAnswerTimer || e is CancelAnswerTimer ==> notices_of(seq![e]) == Seq::<Payload>::empty(),
{
    assert(seq![e].drop_last() =~= Seq::<GameEffect>::empty());
    assert(seq![e].last() == e);
    assert(notices_of(Seq::<GameEffect>::empty()) == Seq::<Payload>::empty());
    match e {
        GameEffect::PlayerLost(p) => {
            assert(Seq::<Payload>::empty() + seq![Payload::PlayerLost(p)] =~= seq![Payload::PlayerLost(p)]);
        },
        GameEffect::AnswerTimedOut(t) => {
            assert(Seq::<Payload>::empty() + seq![Payload::AnswerTimedOut(t)] =~= seq![Payload::AnswerTimedOut(t)]);
        },
        _ => {
            assert(Seq::<Payload>::empty() + Seq::<Payload>::empty() =~= Seq::<Payload>::empty());
        },
    }
}

/// Every notice a game asks for (a lost player, a timeout) reaches every
/// connected member of the game's room, and no one else, with success.
pub proof fn lemma_notices_reach_the_whole_room(
    s: GameServer,
    game_id: usize,
    effects: Seq<GameEffect>,
    outs: Seq<Outgoing>,
    timers: Seq<TimerAction>,
    j: int,
)
    requires
        s.wf(),
        s.games@.contains_key(game_id),
        s.carries_out(game_id, effects, outs, timers),
        0 <= j < outs.len(),
    ensures
        outs.len() == notices_of(effects).len(),
        outs[j].status == ResponseStatus::Success,
        outs[j].payload == notices_of(effects)[j],
        forall|m: usize| #[trigger] outs[j].receivers@.contains(m) <==> connected_member(
            s,
            s.games@[game_id].room@,
            m,
        ),
{
    let room = s.games@[game_id].room@;
    assert(delivers(outs[j], s.room_audience(room, 0), ResponseStatus::Success, notices_of(effects)[j]));
    lemma_whole_room(s, room, outs[j], ResponseStatus::Success, notices_of(effects)[j]);
}

/// When the answer timer fires on a game that waits for an answer, the
/// room hears it: the last message of the reply tells every connected
/// member of the game's room, and no one else, that the time ran out, with
/// the state the game moved to: `ChooseAnswerer` when a previous answerer
/// chooses, `AskQuestion` in the first round.
pub proof fn lemma_timeout_is_announced(
    s: GameServer,
    game_id: usize,
    pre: Game,
    effects: Seq<GameEffect>,
    outs: Seq<Outgoing>,
    timers: Seq<TimerAction>,
)
    requires
        s.wf(),
        s.games@.contains_key(game_id),
        pre.state is Answer,
        Game::timeout_spec(pre, s.games@[game_id], effects),
        s.carries_out(game_id, effects, outs, timers),
    ensures
        outs.len() >= 1,
        outs.last().status == ResponseStatus::Success,
        outs.last().payload matches Payload::AnswerTimedOut(t) && t.game_id == game_id
            && t.new_state@ == (if pre.state->Answer_0.previous_answerer_id is Some {
            "ChooseAnswerer"@
        } else {
            "AskQuestion"@
        }),
        forall|m: usize| #[trigger] outs.last().receivers@.contains(m) <==> connected_member(
            s,
            s.games@[game_id].room@,
            m,
        ),
{
    let room = s.games@[game_id].room@;
    let last = effects.last();
    assert(effects.len() >= 1);
    let n = notices_of(effects);
    assert(last is AnswerTimedOut);
    assert(n == notices_of(effects.drop_last()) + seq![Payload::AnswerTimedOut(last->AnswerTimedOut_0)]);
    assert(n.last() == Payload::AnswerTimedOut(last->AnswerTimedOut_0));
    let k = outs.len() - 1;
    assert(delivers(outs[k], s.room_audience(room, 0), ResponseStatus::Success, n[k]));
    lemma_whole_room(s, room, outs[k], ResponseStatus::Success, n[k]);
}

/// `idx` gives, in rising order, the positions in `rooms` of the rooms that
/// a disconnection of `id` is told to: each of them had `id` among its
/// members, and every room that had it is among them.
pub open spec fn left_at(rooms: Seq<(String, Room)>, id: usize, idx: Seq<int>) -> bool {
    &&& idx.len() == rooms_of_member(rooms, id).len()
    &&& forall|j: int| 0 <= j < idx.len() ==> 0 <= #[trigger] idx[j] < rooms.len()
        && rooms[idx[j]].1.members@.contains(id) && rooms[idx[j]].0 == rooms_of_member(rooms, id)[j]
    &&& forall|j: int, k: int| 0 <= j < k < idx.len() ==> #[trigger] idx[j] < #[trigger] idx[k]
    &&& forall|i: int| 0 <= i < rooms.len() && #[trigger] rooms[i].1.members@.contains(id) ==> idx.contains(i)
}

/// The rooms a disconnecting session is said to have left, as positions
/// in the server's rooms: each listed room had the session among its
/// members, the positions rise, and every room that had it is listed.
proof fn lemma_rooms_of_member_positions(rooms: Seq<(String, Room)>, id: usize) -> (idx: Seq<int>)
    ensures
        idx.len() == rooms_of_member(rooms, id).len(),
        forall|j: int| 0 <= j < idx.len() ==> 0 <= #[trigger] idx[j] < rooms.len()
            && rooms[idx[j]].1.members@.contains(id) && rooms[idx[j]].0 == rooms_of_member(rooms, id)[j],
        forall|j: int, k: int| 0 <= j < k < idx.len() ==> #[trigger] idx[j] < #[trigger] idx[k],
        forall|i: int| 0 <= i < rooms.len() && #[trigger] rooms[i].1.members@.contains(id) ==> idx.contains(i),
    decreases rooms.len(),
{
    if rooms.len() == 0 {
        seq![]
    } else {
        let prev = rooms.drop_last();
        let p = lemma_rooms_of_member_positions(prev, id);
        let last = rooms.len() - 1;
        assert forall|i: int| 0 <= i < prev.len() implies #[trigger] prev[i] == rooms[i] by {}
        if rooms.last().1.members@.contains(id) {
            let idx = p.push(last);
            assert forall|i: int| 0 <= i < rooms.len() && #[trigger] rooms[i].1.members@.contains(id) implies idx.contains(i) by {
                if i < last {
                    assert(prev[i] == rooms[i]);
                    assert(p.contains(i));
                    let j = choose|j: int| 0 <= j < p.len() && p[j] == i;
                    assert(idx[j] == i);
                } else {
                    assert(idx[p.len() as int] == i);
                }
            }
            assert forall|j: int| 0 <= j < idx.len() implies 0 <= #[trigger] idx[j] < rooms.len()
                && rooms[idx[j]].1.members@.contains(id) && rooms[idx[j]].0 == rooms_of_member(rooms, id)[j] by {
                if j < p.len() {
                    assert(prev[p[j]] == rooms[p[j]]);
                }
            }
            idx
        } else {
            assert forall|i: int| 0 <= i < rooms.len() && #[trigger] rooms[i].1.members@.contains(id) implies p.contains(i) by {
                assert(i < last);
                assert(prev[i] == rooms[i]);
            }
            assert forall|j: int| 0 <= j < p.len() implies 0 <= #[trigger] p[j] < rooms.len()
                && rooms[p[j]].1.members@.contains(id) && rooms[p[j]].0 == rooms_of_member(rooms, id)[j] by {
                assert(prev[p[j]] == rooms[p[j]]);
            }
            p
        }
    }
}

/// The rooms told about a disconnection are exactly those that had the
/// session among their members, in the server's order: each room told had
/// the session, and each room that had it is told, once.
pub proof fn lemma_disconnect_tells_exactly_its_rooms(rooms: Seq<(String, Room)>, id: usize)
    ensures
        exists|idx: Seq<int>| #[trigger] left_at(rooms, id, idx),
{
    let idx = lemma_rooms_of_member_positions(rooms, id);
    assert(left_at(rooms, id, idx));
}

} // verus!
