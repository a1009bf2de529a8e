//! What handing out processes does to a queue, when the database answers the
//! statements of `GetProcessFlow` as their SQL says: the queue's rows and its
//! stored position decide the next process, and the flow advances the position
//! to it.
use vstd::prelude::*;
use crate::runner::models::Process;
use crate::runner::service::{get_process_transition, GetProcessAction, GetProcessEvent, GetProcessPhase};
use crate::runner::sql::{lock_info_sql, next_process_sql, read_position_sql, store_position_sql};

verus! {

/// Which row `Select * ... WHERE position > after order by position LIMIT 1`
/// selects: among the rows after `after`, one with the least position (the
/// last listed of them, if positions repeat); `None` when no row is after it.
pub open spec fn first_after(rows: Seq<Process>, after: i64) -> Option<int>
    decreases rows.len(),
{
    if rows.len() == 0 {
        None
    } else {
        let best = first_after(rows.drop_last(), after);
        let last = rows.len() - 1;
        if rows[last].position > after && (best is None || rows[last].position <= rows[best->Some_0].position) {
            Some(last)
        } else {
            best
        }
    }
}

/// The next process of a queue with these rows and this stored position, and
/// the stored position after handing it out.
pub open spec fn hand_out(rows: Seq<Process>, stored: i64) -> (Option<Process>, i64) {
    match first_after(rows, stored) {
        Some(i) => (Some(rows[i]), rows[i].position),
        None => (None, stored),
    }
}

/// The row selected is after `after` and no row after `after` comes before it;
/// no row is selected exactly when none is after `after`.
pub proof fn lemma_first_after(rows: Seq<Process>, after: i64)
    ensures
        first_after(rows, after) matches Some(i) ==> 0 <= i < rows.len() && rows[i].position > after
            && forall|j: int| 0 <= j < rows.len() && (#[trigger] rows[j]).position > after ==> rows[i].position <= rows[j].position,
        first_after(rows, after) is None <==> forall|j: int| 0 <= j < rows.len() ==> (#[trigger] rows[j]).position <= after,
    decreases rows.len(),
{
    if rows.len() > 0 {
        let prefix = rows.drop_last();
        lemma_first_after(prefix, after);
        assert forall|j: int| 0 <= j < prefix.len() implies #[trigger] prefix[j] == rows[j] by {}
        if let Some(i) = first_after(rows, after) {
            assert forall|j: int| 0 <= j < rows.len() && (#[trigger] rows[j]).position > after
                implies rows[i].position <= rows[j].position by {
                if j < prefix.len() {
                    assert(prefix[j] == rows[j]);
                }
                if i < prefix.len() {
                    assert(prefix[i] == rows[i]);
                }
            }
        }
        if first_after(rows, after) is None {
            assert forall|j: int| 0 <= j < rows.len() implies (#[trigger] rows[j]).position <= after by {
                if j < prefix.len() {
                    assert(prefix[j] == rows[j]);
                }
            }
        }
    }
}

/// What the database answers to an action of `GetProcessFlow` when the queue
/// exists, nothing fails, its rows are `rows` and its stored position is
/// `stored`.
pub open spec fn db_answer<E>(rows: Seq<Process>, stored: i64, action: GetProcessAction<E>) -> GetProcessEvent<E> {
    match action {
        GetProcessAction::CheckQueue => GetProcessEvent::QueueChecked(Ok(true)),
        GetProcessAction::Begin => GetProcessEvent::Begun(Ok(())),
        GetProcessAction::Lock(_) => GetProcessEvent::Locked(Ok(())),
        GetProcessAction::ReadPosition(_) => GetProcessEvent::PositionRead(Ok(stored)),
        GetProcessAction::FetchNext(_, after) => GetProcessEvent::NextFetched(Ok(
            match first_after(rows, after) {
                Some(i) => Some(rows[i]),
                None => None,
            },
        )),
        GetProcessAction::StorePosition(_, _) => GetProcessEvent::PositionStored(Ok(())),
        _ => GetProcessEvent::Closed(Ok(())),
    }
}

/// Handing out serves the next process: when the database answers every action
/// of `GetProcessFlow` as its SQL says, the flow fetches the first process after
/// the stored position, stores that process's position, commits and returns
/// it; with no process after the stored position it stores nothing and returns
/// none.  `phases[k]` and `actions[k]` are the flow's phase and action after `k`
/// answers.  Along the way the flow locks the queue's bookkeeping, reads the
/// stored position from it, fetches from the queue's process table and stores
/// the new position in the bookkeeping.
pub proof fn lemma_flow_hands_out_next<E>(
    queue: Seq<char>,
    rows: Seq<Process>,
    stored: i64,
    phases: Seq<GetProcessPhase<E>>,
    actions: Seq<GetProcessAction<E>>,
)
    requires
        phases.len() == actions.len(),
        phases.len() == if hand_out(rows, stored).0 is Some { 8int } else { 7int },
        phases[0] is CheckingQueue,
        actions[0] is CheckQueue,
        forall|k: int| 0 <= k < phases.len() - 1 ==> get_process_transition(
            queue,
            #[trigger] phases[k],
            db_answer(rows, stored, actions[k]),
            phases[k + 1],
            actions[k + 1],
        ),
    ensures
        actions[2] matches GetProcessAction::Lock(sql) && sql@ == lock_info_sql(queue),
        actions[3] matches GetProcessAction::ReadPosition(sql) && sql@ == read_position_sql(queue),
        actions[4] matches GetProcessAction::FetchNext(sql, after) && sql@ == next_process_sql(queue) && after == stored,
        hand_out(rows, stored).0 matches Some(p) ==> (actions[5] matches GetProcessAction::StorePosition(sql, position)
            && sql@ == store_position_sql(queue) && position == p.position == hand_out(rows, stored).1),
        hand_out(rows, stored).0 is None ==> forall|k: int| 0 <= k < actions.len() ==> !(#[trigger] actions[k] is StorePosition),
        actions.last() == GetProcessAction::<E>::Finish(Ok(hand_out(rows, stored).0)),
{
    let n = phases.len();
    assert(get_process_transition(queue, phases[0], db_answer(rows, stored, actions[0]), phases[1], actions[1]));
    assert(actions[1] is Begin && phases[1] is Beginning);
    assert(get_process_transition(queue, phases[1], db_answer(rows, stored, actions[1]), phases[2], actions[2]));
    assert(actions[2] is Lock && phases[2] is Locking);
    assert(get_process_transition(queue, phases[2], db_answer(rows, stored, actions[2]), phases[3], actions[3]));
    assert(actions[3] is ReadPosition && phases[3] is ReadingPosition);
    assert(get_process_transition(queue, phases[3], db_answer(rows, stored, actions[3]), phases[4], actions[4]));
    assert(phases[4] is FetchingNext);
    assert(actions[4] matches GetProcessAction::FetchNext(_, after) && after == stored);
    assert(get_process_transition(queue, phases[4], db_answer(rows, stored, actions[4]), phases[5], actions[5]));
    match first_after(rows, stored) {
        Some(i) => {
            assert(phases[5] == GetProcessPhase::<E>::StoringPosition(rows[i]));
            assert(get_process_transition(queue, phases[5], db_answer(rows, stored, actions[5]), phases[6], actions[6]));
            assert(phases[6] == GetProcessPhase::<E>::Committing(Some(rows[i])));
            assert(get_process_transition(queue, phases[6], db_answer(rows, stored, actions[6]), phases[7], actions[7]));
            assert(actions[7] == GetProcessAction::<E>::Finish(Ok(Some(rows[i]))));
            assert(actions.last() == actions[7]);
        },
        None => {
            assert(phases[5] == GetProcessPhase::<E>::Committing(None));
            assert(get_process_transition(queue, phases[5], db_answer(rows, stored, actions[5]), phases[6], actions[6]));
            assert(actions.last() == actions[6]);
            assert forall|k: int| 0 <= k < actions.len() implies !(#[trigger] actions[k] is StorePosition) by {
                assert(k <= 6);
            }
        },
    }
}

/// A process added to a queue whose processes were all handed out, with a
/// position above the stored one (as the position sequence gives it), is the
/// next one handed out; right after, the queue has nothing more to hand out.
pub proof fn lemma_added_process_is_handed_out_next(rows: Seq<Process>, stored: i64, added: Process)
    requires
        forall|j: int| 0 <= j < rows.len() ==> (#[trigger] rows[j]).position <= stored,
        added.position > stored,
    ensures
        hand_out(rows.push(added), stored) == (Some(added), added.position),
        hand_out(rows.push(added), added.position).0 is None,
{
    let all = rows.push(added);
    lemma_first_after(rows, stored);
    assert(all.drop_last() =~= rows);
    lemma_first_after(all, added.position);
    assert forall|j: int| 0 <= j < all.len() implies (#[trigger] all[j]).position <= added.position by {
        if j < rows.len() {
            assert(all[j] == rows[j]);
        }
    }
}

/// The processes that `count` hand-outs in a row give, from stored position
/// `stored`, on a queue whose rows stay `rows`.
pub open spec fn hand_outs(rows: Seq<Process>, stored: i64, count: nat) -> Seq<Process>
    decreases count,
{
    if count == 0 {
        Seq::empty()
    } else {
        match hand_out(rows, stored) {
            (Some(p), next) => seq![p] + hand_outs(rows, next, (count - 1) as nat),
            (None, _) => Seq::empty(),
        }
    }
}

/// Processes leave a queue in order of position, each at most once: hand-outs
/// in a row give processes of strictly increasing positions, all after the
/// stored position they started from.
pub proof fn lemma_hand_outs_in_position_order(rows: Seq<Process>, stored: i64, count: nat)
    ensures
        forall|i: int| 0 <= i < hand_outs(rows, stored, count).len()
            ==> (#[trigger] hand_outs(rows, stored, count)[i]).position > stored,
        forall|i: int, j: int| 0 <= i < j < hand_outs(rows, stored, count).len()
            ==> (#[trigger] hand_outs(rows, stored, count)[i]).position < (#[trigger] hand_outs(rows, stored, count)[j]).position,
    decreases count,
{
    lemma_first_after(rows, stored);
    if count > 0 {
        if let (Some(p), next) = hand_out(rows, stored) {
            lemma_hand_outs_in_position_order(rows, next, (count - 1) as nat);
            let rest = hand_outs(rows, next, (count - 1) as nat);
            let all = hand_outs(rows, stored, count);
            assert(all == seq![p] + rest);
            assert forall|i: int| 0 <= i < all.len() implies (#[trigger] all[i]).position > stored by {
                if i > 0 {
                    assert(all[i] == rest[i - 1]);
                }
            }
            assert forall|i: int, j: int| 0 <= i < j < all.len() implies (#[trigger] all[i]).position < (#[trigger] all[j]).position by {
                assert(all[j] == rest[j - 1]);
                if i > 0 {
                    assert(all[i] == rest[i - 1]);
                }
            }
        }
    }
}

} // verus!
