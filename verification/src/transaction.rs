//! Transactions over a database that the caller drives: each machine tells the
//! caller what to do next (begin, run a statement, commit, roll back, return)
//! and learns what came of it.
use vstd::prelude::*;
use crate::statements::{split_on, split_statements};

verus! {

/// All outcomes succeeded.
pub open spec fn all_ok<E>(outcomes: Seq<Result<(), E>>) -> bool {
    forall|j: int| 0 <= j < outcomes.len() ==> (#[trigger] outcomes[j]) is Ok
}

/// What a script transaction asks of the database next.
pub enum BatchAction<E> {
    /// Open a transaction.
    Begin,
    /// Run the statement of this index inside the transaction.
    Execute(usize),
    /// Undo the transaction.
    Rollback,
    /// Make the transaction durable.
    Commit,
    /// Hand this result to the caller; nothing is left to do.
    Finish(Result<(), E>),
}

/// Where a script transaction stands: what it waits to hear about.
pub enum BatchPhase<E> {
    Beginning,
    /// The statement of this index runs.
    Executing(usize),
    /// A statement failed with this error; the rollback runs.
    RollingBack(E),
    Committing,
    Finished,
}

/// The next phase and action of a script of `count` statements, given what came
/// of the action that `phase` waits for.
pub open spec fn batch_next<E>(count: nat, phase: BatchPhase<E>, outcome: Result<(), E>) -> (
    BatchPhase<E>,
    BatchAction<E>,
) {
    match phase {
        BatchPhase::Beginning => match outcome {
            Ok(_) => if count == 0 {
                (BatchPhase::Committing, BatchAction::Commit)
            } else {
                (BatchPhase::Executing(0), BatchAction::Execute(0))
            },
            Err(e) => (BatchPhase::Finished, BatchAction::Finish(Err(e))),
        },
        BatchPhase::Executing(i) => match outcome {
            Ok(_) => if i + 1 >= count {
                (BatchPhase::Committing, BatchAction::Commit)
            } else {
                (BatchPhase::Executing((i + 1) as usize), BatchAction::Execute((i + 1) as usize))
            },
            Err(e) => (BatchPhase::RollingBack(e), BatchAction::Rollback),
        },
        BatchPhase::RollingBack(e) => match outcome {
            Ok(_) => (BatchPhase::Finished, BatchAction::Finish(Err(e))),
            Err(r) => (BatchPhase::Finished, BatchAction::Finish(Err(r))),
        },
        BatchPhase::Committing => (BatchPhase::Finished, BatchAction::Finish(outcome)),
        BatchPhase::Finished => (BatchPhase::Finished, BatchAction::Finish(outcome)),
    }
}

/// The phase reached and the actions asked for, after `Begin`, when the
/// database answers `outcomes` one by one; answers after the end are ignored.
pub open spec fn batch_run<E>(count: nat, outcomes: Seq<Result<(), E>>) -> (
    BatchPhase<E>,
    Seq<BatchAction<E>>,
)
    decreases outcomes.len(),
{
    if outcomes.len() == 0 {
        (BatchPhase::Beginning, Seq::empty())
    } else {
        let (phase, actions) = batch_run(count, outcomes.drop_last());
        if phase is Finished {
            (phase, actions)
        } else {
            let (next, action) = batch_next(count, phase, outcomes.last());
            (next, actions.push(action))
        }
    }
}

/// The facts about the action a script run asks for at step `k` (the answer
/// to its `k`-th outcome).
pub open spec fn batch_action_fact<E>(count: nat, outcomes: Seq<Result<(), E>>, k: int, action: BatchAction<E>) -> bool {
    match action {
        BatchAction::Begin => false,
        BatchAction::Execute(i) => i == k && i < count && all_ok(outcomes.take(k + 1)),
        BatchAction::Commit => k == count && all_ok(outcomes.take(k + 1)),
        BatchAction::Rollback => 1 <= k <= count && all_ok(outcomes.take(k)) && outcomes[k] is Err,
        BatchAction::Finish(r) => r is Ok ==> (k == count + 1 && all_ok(outcomes.take(k + 1))),
    }
}

proof fn lemma_take_ok<E>(outcomes: Seq<Result<(), E>>, n: int)
    requires
        0 <= n <= outcomes.len(),
        all_ok(outcomes.drop_last()) || n < outcomes.len(),
        n < outcomes.len() ==> all_ok(outcomes.take(n)),
        n == outcomes.len() ==> all_ok(outcomes.drop_last()) && outcomes.last() is Ok,
    ensures
        all_ok(outcomes.take(n)),
{
    if n == outcomes.len() {
        assert forall|j: int| 0 <= j < outcomes.take(n).len() implies (#[trigger] outcomes.take(n)[j]) is Ok by {
            if j < outcomes.len() - 1 {
                assert(outcomes.take(n)[j] == outcomes.drop_last()[j]);
            }
        }
    }
}

/// The shape of every script run: where it stands after the outcomes seen, and
/// what each action it asked for implies about those outcomes.
pub proof fn lemma_batch_run_shape<E>(count: nat, outcomes: Seq<Result<(), E>>)
    requires
        count <= usize::MAX,
    ensures
        ({
            let (phase, actions) = batch_run(count, outcomes);
            &&& actions.len() <= outcomes.len()
            &&& !(phase is Finished) ==> actions.len() == outcomes.len()
            &&& match phase {
                BatchPhase::Beginning => outcomes.len() == 0,
                BatchPhase::Executing(i) => i < count && outcomes.len() == i + 1 && all_ok(outcomes),
                BatchPhase::Committing => outcomes.len() == count + 1 && all_ok(outcomes),
                BatchPhase::RollingBack(e) => 2 <= outcomes.len() <= count + 1
                    && all_ok(outcomes.drop_last()) && outcomes.last() == Err::<(), E>(e),
                BatchPhase::Finished => actions.len() >= 1 && actions.last() is Finish,
            }
            &&& forall|k: int| 0 <= k < actions.len()
                ==> batch_action_fact(count, outcomes, k, #[trigger] actions[k])
            &&& forall|k: int| 0 <= k < actions.len() - 1 ==> !((#[trigger] actions[k]) is Finish)
        }),
    decreases outcomes.len(),
{
    if outcomes.len() > 0 {
        let prefix = outcomes.drop_last();
        lemma_batch_run_shape(count, prefix);
        let (phase, actions) = batch_run(count, prefix);
        assert forall|k: int| 0 <= k < actions.len() implies batch_action_fact(count, outcomes, k, #[trigger] actions[k]) by {
            assert(batch_action_fact(count, prefix, k, actions[k]));
            assert(outcomes.take(k + 1) =~= prefix.take(k + 1));
            assert(outcomes.take(k) =~= prefix.take(k));
            if k < prefix.len() {
                assert(outcomes[k] == prefix[k]);
            }
        }
        if !(phase is Finished) {
            let (next, action) = batch_next(count, phase, outcomes.last());
            let k = actions.len() as int;
            assert(k == outcomes.len() - 1);
            assert(outcomes.take(k) =~= prefix);
            assert(outcomes.take(k + 1) =~= outcomes);
            let all = actions.push(action);
            assert(all[k] == action);
            match phase {
                BatchPhase::Beginning => {
                    if outcomes.last() is Ok {
                        assert(all_ok(outcomes));
                    }
                },
                BatchPhase::Executing(i) => {
                    if outcomes.last() is Ok {
                        lemma_take_ok(outcomes, outcomes.len() as int);
                    }
                },
                BatchPhase::RollingBack(e) => {},
                BatchPhase::Committing => {
                    if outcomes.last() is Ok {
                        lemma_take_ok(outcomes, outcomes.len() as int);
                    }
                },
                BatchPhase::Finished => {},
            }
            assert(batch_action_fact(count, outcomes, k, all[k]));
            assert forall|j: int| 0 <= j < all.len() implies batch_action_fact(count, outcomes, j, #[trigger] all[j]) by {
                if j < k {
                    assert(all[j] == actions[j]);
                }
            }
            assert forall|j: int| 0 <= j < all.len() - 1 implies !((#[trigger] all[j]) is Finish) by {
                assert(all[j] == actions[j]);
            }
        }
    }
}

/// A script transaction commits only once every one of its statements ran, in
/// order, and succeeded; it reports success only when the commit succeeded too;
/// a failed statement is followed by a rollback and by nothing else.
pub proof fn lemma_batch_commits_only_complete_scripts<E>(count: nat, outcomes: Seq<Result<(), E>>)
    requires
        count <= usize::MAX,
    ensures
        ({
            let actions = batch_run(count, outcomes).1;
            &&& forall|k: int| 0 <= k < actions.len() && (#[trigger] actions[k]) is Commit
                ==> k == count && all_ok(outcomes.take(k + 1))
            &&& forall|k: int| 0 <= k < actions.len() && (#[trigger] actions[k]) is Execute
                ==> actions[k]->Execute_0 == k && all_ok(outcomes.take(k + 1))
            &&& forall|k: int| 0 <= k < actions.len() && (#[trigger] actions[k]) == BatchAction::<E>::Finish(Ok(()))
                ==> k == count + 1 && all_ok(outcomes.take(k + 1))
            &&& forall|k: int| 0 <= k < actions.len() && (#[trigger] actions[k]) is Rollback
                ==> outcomes[k] is Err && (k + 1 < actions.len() ==> actions[k + 1] is Finish)
        }),
{
    lemma_batch_run_shape(count, outcomes);
    let (phase, actions) = batch_run(count, outcomes);
    assert forall|k: int| 0 <= k < actions.len() && (#[trigger] actions[k]) is Rollback
        implies outcomes[k] is Err && (k + 1 < actions.len() ==> actions[k + 1] is Finish) by {
        assert(batch_action_fact(count, outcomes, k, actions[k]));
        if k + 1 < actions.len() {
            lemma_batch_rollback_then_finish(count, outcomes, k);
        }
    }
    assert forall|k: int| 0 <= k < actions.len() && (#[trigger] actions[k]) is Commit
        implies k == count && all_ok(outcomes.take(k + 1)) by {
        assert(batch_action_fact(count, outcomes, k, actions[k]));
    }
    assert forall|k: int| 0 <= k < actions.len() && (#[trigger] actions[k]) is Execute
        implies actions[k]->Execute_0 == k && all_ok(outcomes.take(k + 1)) by {
        assert(batch_action_fact(count, outcomes, k, actions[k]));
    }
    assert forall|k: int| 0 <= k < actions.len() && (#[trigger] actions[k]) == BatchAction::<E>::Finish(Ok(()))
        implies k == count + 1 && all_ok(outcomes.take(k + 1)) by {
        assert(batch_action_fact(count, outcomes, k, actions[k]));
    }
}

proof fn lemma_batch_rollback_then_finish<E>(count: nat, outcomes: Seq<Result<(), E>>, k: int)
    requires
        count <= usize::MAX,
        0 <= k,
        k + 1 < batch_run(count, outcomes).1.len(),
        batch_run(count, outcomes).1[k] is Rollback,
    ensures
        batch_run(count, outcomes).1[k + 1] is Finish,
    decreases outcomes.len(),
{
    let prefix = outcomes.drop_last();
    lemma_batch_run_shape(count, outcomes);
    lemma_batch_run_shape(count, prefix);
    let (phase, actions) = batch_run(count, prefix);
    if k + 1 < actions.len() {
        lemma_batch_rollback_then_finish(count, prefix, k);
    } else {
        // the rollback was the last action of the prefix, so the prefix waits for it
        assert(actions[k] is Rollback);
        assert(!(phase is Finished));
        assert(phase is RollingBack);
    }
}

proof fn lemma_batch_all_ok_prefix<E>(count: nat, outcomes: Seq<Result<(), E>>)
    requires
        count <= usize::MAX,
        all_ok(outcomes),
        outcomes.len() <= count + 1,
    ensures
        batch_run(count, outcomes).1.len() == outcomes.len(),
        outcomes.len() == 0 ==> batch_run(count, outcomes).0 is Beginning,
        1 <= outcomes.len() <= count ==> batch_run(count, outcomes).0
            == BatchPhase::<E>::Executing((outcomes.len() - 1) as usize),
        outcomes.len() == count + 1 ==> batch_run(count, outcomes).0 is Committing,
    decreases outcomes.len(),
{
    if outcomes.len() > 0 {
        let prefix = outcomes.drop_last();
        assert(all_ok(prefix)) by {
            assert forall|j: int| 0 <= j < prefix.len() implies (#[trigger] prefix[j]) is Ok by {
                assert(prefix[j] == outcomes[j]);
            }
        }
        assert(outcomes[outcomes.len() - 1] is Ok);
        lemma_batch_all_ok_prefix(count, prefix);
    }
}

/// A script whose every step succeeds (the begin, each statement, the commit)
/// ends in success, having run each statement once, in order.
pub proof fn lemma_batch_succeeds_when_all_succeed<E>(count: nat, outcomes: Seq<Result<(), E>>)
    requires
        count <= usize::MAX,
        all_ok(outcomes),
        outcomes.len() == count + 2,
    ensures
        batch_run(count, outcomes).0 is Finished,
        batch_run(count, outcomes).1.len() == count + 2,
        batch_run(count, outcomes).1.last() == BatchAction::<E>::Finish(Ok(())),
        batch_run(count, outcomes).1[count as int] is Commit,
        forall|i: int| 0 <= i < count ==> #[trigger] batch_run(count, outcomes).1[i]
            == BatchAction::<E>::Execute(i as usize),
{
    let prefix = outcomes.drop_last();
    assert(all_ok(prefix)) by {
        assert forall|j: int| 0 <= j < prefix.len() implies (#[trigger] prefix[j]) is Ok by {
            assert(prefix[j] == outcomes[j]);
        }
    }
    lemma_batch_all_ok_prefix(count, prefix);
    assert(outcomes[outcomes.len() - 1] is Ok);
    let last = outcomes.last();
    assert(last->Ok_0 == ());
    assert(last == Ok::<(), E>(()));
    lemma_batch_run_shape(count, outcomes);
    let actions = batch_run(count, outcomes).1;
    assert forall|i: int| 0 <= i < count implies #[trigger] actions[i] == BatchAction::<E>::Execute(i as usize) by {
        let sub = outcomes.take(i + 1);
        assert(all_ok(sub)) by {
            assert forall|j: int| 0 <= j < sub.len() implies (#[trigger] sub[j]) is Ok by {
                assert(sub[j] == outcomes[j]);
            }
        }
        lemma_batch_all_ok_prefix(count, sub);
        lemma_batch_prefix_actions(count, outcomes, i + 1);
        if i == 0 {
            assert(batch_run(count, sub).1 == batch_run(count, sub.drop_last()).1.push(
                batch_next(count, BatchPhase::<E>::Beginning, sub.last()).1));
            assert(sub.drop_last() =~= Seq::<Result<(), E>>::empty());
        } else {
            lemma_batch_all_ok_prefix(count, sub.drop_last());
            assert(sub.drop_last() =~= outcomes.take(i));
        }
    }
    lemma_batch_prefix_actions(count, outcomes, count as int + 1);
    let sub = outcomes.take(count as int + 1);
    assert(sub =~= prefix);
}

/// The actions asked for while the first `n` outcomes were answered do not
/// change when more outcomes follow.
proof fn lemma_batch_prefix_actions<E>(count: nat, outcomes: Seq<Result<(), E>>, n: int)
    requires
        0 <= n <= outcomes.len(),
        batch_run(count, outcomes.take(n)).1.len() == n,
    ensures
        forall|k: int| 0 <= k < n ==> #[trigger] batch_run(count, outcomes).1[k]
            == batch_run(count, outcomes.take(n)).1[k],
        batch_run(count, outcomes).1.len() >= n,
    decreases outcomes.len() - n,
{
    if n < outcomes.len() {
        let longer = outcomes.take(n + 1);
        assert(longer.drop_last() =~= outcomes.take(n));
        let (phase, actions) = batch_run(count, outcomes.take(n));
        if phase is Finished {
            // a finished run asks for nothing more; its actions end with n items already
            assert(batch_run(count, longer).1 == actions);
            lemma_batch_prefix_actions_finished(count, outcomes, n);
        } else {
            assert(batch_run(count, longer).1.len() == n + 1);
            lemma_batch_prefix_actions(count, outcomes, n + 1);
            assert forall|k: int| 0 <= k < n implies #[trigger] batch_run(count, outcomes).1[k]
                == batch_run(count, outcomes.take(n)).1[k] by {
                assert(batch_run(count, longer).1[k] == actions[k]);
            }
        }
    } else {
        assert(outcomes.take(n) =~= outcomes);
    }
}

proof fn lemma_batch_prefix_actions_finished<E>(count: nat, outcomes: Seq<Result<(), E>>, n: int)
    requires
        0 <= n <= outcomes.len(),
        batch_run(count, outcomes.take(n)).0 is Finished,
    ensures
        batch_run(count, outcomes) == batch_run(count, outcomes.take(n)),
    decreases outcomes.len() - n,
{
    if n < outcomes.len() {
        let longer = outcomes.take(n + 1);
        assert(longer.drop_last() =~= outcomes.take(n));
        lemma_batch_prefix_actions_finished(count, outcomes, n + 1);
    } else {
        assert(outcomes.take(n) =~= outcomes);
    }
}

/// A script run in one transaction: the statements of the script and where the
/// run stands.
pub struct BatchTransaction<E> {
    pub statements: Vec<String>,
    pub phase: BatchPhase<E>,
}

impl<E> BatchTransaction<E> {
    /// Splits `sql` at every `;` into statements and asks for a transaction.
    pub fn start(sql: &str) -> (r: (Self, BatchAction<E>))
        ensures
            r.0.statements@.map_values(|p: String| p@) == split_on(sql@, ';'),
            r.0.phase is Beginning,
            r.1 is Begin,
    {
        let statements = split_statements(sql);
        (BatchTransaction { statements, phase: BatchPhase::Beginning }, BatchAction::Begin)
    }

    /// Learns what came of the last action and says what to do next.
    pub fn step(self, outcome: Result<(), E>) -> (r: (Self, BatchAction<E>))
        requires
            !(self.phase is Finished),
            self.phase matches BatchPhase::Executing(i) ==> i < self.statements.len(),
        ensures
            r.0.statements == self.statements,
            (r.0.phase, r.1) == batch_next(self.statements.len() as nat, self.phase, outcome),
            r.0.phase matches BatchPhase::Executing(i) ==> i < self.statements.len(),
    {
        let count = self.statements.len();
        let statements = self.statements;
        let (phase, action) = match self.phase {
            BatchPhase::Beginning => match outcome {
                Ok(_) => if count == 0 {
                    (BatchPhase::Committing, BatchAction::Commit)
                } else {
                    (BatchPhase::Executing(0), BatchAction::Execute(0))
                },
                Err(e) => (BatchPhase::Finished, BatchAction::Finish(Err(e))),
            },
            BatchPhase::Executing(i) => match outcome {
                Ok(_) => if i + 1 >= count {
                    (BatchPhase::Committing, BatchAction::Commit)
                } else {
                    (BatchPhase::Executing(i + 1), BatchAction::Execute(i + 1))
                },
                Err(e) => (BatchPhase::RollingBack(e), BatchAction::Rollback),
            },
            BatchPhase::RollingBack(e) => match outcome {
                Ok(_) => (BatchPhase::Finished, BatchAction::Finish(Err(e))),
                Err(r) => (BatchPhase::Finished, BatchAction::Finish(Err(r))),
            },
            BatchPhase::Committing => (BatchPhase::Finished, BatchAction::Finish(outcome)),
            BatchPhase::Finished => (BatchPhase::Finished, BatchAction::Finish(outcome)),
        };
        (BatchTransaction { statements, phase }, action)
    }
}

} // verus!

verus! {

/// What a transaction around a caller's body asks of the database next.
pub enum ScopedAction<R, E> {
    Begin,
    /// Run the body inside the open transaction.
    RunBody,
    Commit,
    Rollback,
    /// Hand this result to the caller; nothing is left to do.
    Finish(Result<R, E>),
}

/// What came of the last action of a transaction around a body.
pub enum ScopedEvent<R, E> {
    Begun(Result<(), E>),
    BodyReturned(Result<R, E>),
    /// The commit or the rollback returned.
    Closed(Result<(), E>),
}

/// Where a transaction around a body stands.
pub enum ScopedPhase<R, E> {
    Beginning,
    Running,
    /// The body returned this value; the commit runs.
    Committing(R),
    /// The body failed with this error; the rollback runs.
    RollingBack(E),
    Finished,
}

/// Whether `event` answers the action that `phase` waits for.
pub open spec fn scoped_expects<R, E>(phase: ScopedPhase<R, E>, event: ScopedEvent<R, E>) -> bool {
    match phase {
        ScopedPhase::Beginning => event is Begun,
        ScopedPhase::Running => event is BodyReturned,
        ScopedPhase::Committing(_) => event is Closed,
        ScopedPhase::RollingBack(_) => event is Closed,
        ScopedPhase::Finished => false,
    }
}

/// The next phase and action of a transaction around a body.
pub open spec fn scoped_next<R, E>(phase: ScopedPhase<R, E>, event: ScopedEvent<R, E>) -> (
    ScopedPhase<R, E>,
    ScopedAction<R, E>,
) {
    match (phase, event) {
        (ScopedPhase::Beginning, ScopedEvent::Begun(Ok(_))) => (ScopedPhase::Running, ScopedAction::RunBody),
        (ScopedPhase::Beginning, ScopedEvent::Begun(Err(e))) => (ScopedPhase::Finished, ScopedAction::Finish(Err(e))),
        (ScopedPhase::Running, ScopedEvent::BodyReturned(Ok(r))) => (ScopedPhase::Committing(r), ScopedAction::Commit),
        (ScopedPhase::Running, ScopedEvent::BodyReturned(Err(e))) => (ScopedPhase::RollingBack(e), ScopedAction::Rollback),
        (ScopedPhase::Committing(r), ScopedEvent::Closed(Ok(_))) => (ScopedPhase::Finished, ScopedAction::Finish(Ok(r))),
        (ScopedPhase::Committing(_), ScopedEvent::Closed(Err(c))) => (ScopedPhase::Finished, ScopedAction::Finish(Err(c))),
        (ScopedPhase::RollingBack(e), ScopedEvent::Closed(Ok(_))) => (ScopedPhase::Finished, ScopedAction::Finish(Err(e))),
        (ScopedPhase::RollingBack(_), ScopedEvent::Closed(Err(c))) => (ScopedPhase::Finished, ScopedAction::Finish(Err(c))),
        (phase, _) => (phase, ScopedAction::Rollback),
    }
}

/// What a transaction around a body returns: the failure to begin, else the
/// failure to commit or roll back, else what the body returned.
pub open spec fn scoped_answer<R, E>(begun: Result<(), E>, body: Result<R, E>, closed: Result<(), E>) -> Result<R, E> {
    match begun {
        Err(e) => Err(e),
        Ok(_) => match closed {
            Err(c) => Err(c),
            Ok(_) => body,
        },
    }
}

/// A transaction around a body commits exactly when the body succeeded, rolls
/// back exactly when it failed, and returns what `scoped_answer` says; when it
/// cannot begin, the body never runs.
pub proof fn lemma_scoped_run<R, E>(begun: Result<(), E>, body: Result<R, E>, closed: Result<(), E>)
    ensures
        ({
            let (p1, a1) = scoped_next(ScopedPhase::<R, E>::Beginning, ScopedEvent::Begun(begun));
            &&& begun is Err ==> a1 == ScopedAction::<R, E>::Finish(Err(begun->Err_0))
            &&& begun is Ok ==> {
                let (p2, a2) = scoped_next(p1, ScopedEvent::BodyReturned(body));
                let (p3, a3) = scoped_next(p2, ScopedEvent::Closed(closed));
                &&& a1 is RunBody
                &&& (a2 is Commit <==> body is Ok)
                &&& (a2 is Rollback <==> body is Err)
                &&& a3 == ScopedAction::<R, E>::Finish(scoped_answer(begun, body, closed))
                &&& p3 is Finished
            }
        }),
{
}

/// A transaction that wraps a caller's body.
pub struct ScopedTransaction<R, E> {
    pub phase: ScopedPhase<R, E>,
}

impl<R, E> ScopedTransaction<R, E> {
    /// Asks for a transaction.
    pub fn start() -> (r: (Self, ScopedAction<R, E>))
        ensures
            r.0.phase is Beginning,
            r.1 is Begin,
    {
        (ScopedTransaction { phase: ScopedPhase::Beginning }, ScopedAction::Begin)
    }

    /// Learns what came of the last action and says what to do next.
    pub fn step(self, event: ScopedEvent<R, E>) -> (r: (Self, ScopedAction<R, E>))
        requires
            scoped_expects(self.phase, event),
        ensures
            (r.0.phase, r.1) == scoped_next(self.phase, event),
    {
        let (phase, action) = match (self.phase, event) {
            (ScopedPhase::Beginning, ScopedEvent::Begun(Ok(_))) => (ScopedPhase::Running, ScopedAction::RunBody),
            (ScopedPhase::Beginning, ScopedEvent::Begun(Err(e))) => (ScopedPhase::Finished, ScopedAction::Finish(Err(e))),
            (ScopedPhase::Running, ScopedEvent::BodyReturned(Ok(r))) => (ScopedPhase::Committing(r), ScopedAction::Commit),
            (ScopedPhase::Running, ScopedEvent::BodyReturned(Err(e))) => (ScopedPhase::RollingBack(e), ScopedAction::Rollback),
            (ScopedPhase::Committing(r), ScopedEvent::Closed(Ok(_))) => (ScopedPhase::Finished, ScopedAction::Finish(Ok(r))),
            (ScopedPhase::Committing(_), ScopedEvent::Closed(Err(c))) => (ScopedPhase::Finished, ScopedAction::Finish(Err(c))),
            (ScopedPhase::RollingBack(e), ScopedEvent::Closed(Ok(_))) => (ScopedPhase::Finished, ScopedAction::Finish(Err(e))),
            (ScopedPhase::RollingBack(_), ScopedEvent::Closed(Err(c))) => (ScopedPhase::Finished, ScopedAction::Finish(Err(c))),
            (phase, _) => (phase, ScopedAction::Rollback),
        };
        (ScopedTransaction { phase }, action)
    }
}

} // verus!
