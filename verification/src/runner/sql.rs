//! The SQL texts that the process service sends for a queue.  Each queue owns a
//! table `queues.<name>_queue` of processes and a table `queues.<name>_info`
//! whose row `position` holds the position of the last process handed out.
use vstd::prelude::*;

verus! {

/// `queues.<queue>_info`
pub open spec fn info_table(queue: Seq<char>) -> Seq<char> {
    "queues."@ + queue + "_info"@
}

/// `queues.<queue>_queue`
pub open spec fn queue_table(queue: Seq<char>) -> Seq<char> {
    "queues."@ + queue + "_queue"@
}

pub open spec fn lock_info_sql(queue: Seq<char>) -> Seq<char> {
    "LOCK TABLE "@ + info_table(queue)
}

pub open spec fn read_position_sql(queue: Seq<char>) -> Seq<char> {
    "select value from "@ + info_table(queue) + " where key = 'position'"@
}

pub open spec fn next_process_sql(queue: Seq<char>) -> Seq<char> {
    "Select * from "@ + queue_table(queue) + " WHERE position > $1 order by position LIMIT 1"@
}

pub open spec fn store_position_sql(queue: Seq<char>) -> Seq<char> {
    "UPDATE "@ + info_table(queue) + " SET value= $1 WHERE key = 'position'"@
}

pub open spec fn insert_process_sql(queue: Seq<char>) -> Seq<char> {
    "INSERT INTO "@ + queue_table(queue) + "(id, context) VALUES ($1, $2);"@
}

/// The name of the table that holds a queue's bookkeeping.
pub fn info_table_name(queue: &str) -> (r: String)
    ensures
        r@ == info_table(queue@),
{
    let mut s = String::from_str("queues.");
    s.append(queue);
    s.append("_info");
    s
}

/// The name of the table that holds a queue's processes.
pub fn queue_table_name(queue: &str) -> (r: String)
    ensures
        r@ == queue_table(queue@),
{
    let mut s = String::from_str("queues.");
    s.append(queue);
    s.append("_queue");
    s
}

/// Locks a queue's bookkeeping table for the rest of the transaction.
pub fn lock_info_statement(queue: &str) -> (r: String)
    ensures
        r@ == lock_info_sql(queue@),
{
    let table = info_table_name(queue);
    let mut s = String::from_str("LOCK TABLE ");
    s.append(table.as_str());
    s
}

/// Reads the position of the last process handed out.
pub fn read_position_statement(queue: &str) -> (r: String)
    ensures
        r@ == read_position_sql(queue@),
{
    let table = info_table_name(queue);
    let mut s = String::from_str("select value from ");
    s.append(table.as_str());
    s.append(" where key = 'position'");
    s
}

/// Selects the first process after a position (bound as `$1`).
pub fn next_process_statement(queue: &str) -> (r: String)
    ensures
        r@ == next_process_sql(queue@),
{
    let table = queue_table_name(queue);
    let mut s = String::from_str("Select * from ");
    s.append(table.as_str());
    s.append(" WHERE position > $1 order by position LIMIT 1");
    s
}

/// Stores a new position (bound as `$1`).
pub fn store_position_statement(queue: &str) -> (r: String)
    ensures
        r@ == store_position_sql(queue@),
{
    let table = info_table_name(queue);
    let mut s = String::from_str("UPDATE ");
    s.append(table.as_str());
    s.append(" SET value= $1 WHERE key = 'position'");
    s
}

/// Inserts a process (id bound as `$1`, context as `$2`).
pub fn insert_process_statement(queue: &str) -> (r: String)
    ensures
        r@ == insert_process_sql(queue@),
{
    let table = queue_table_name(queue);
    let mut s = String::from_str("INSERT INTO ");
    s.append(table.as_str());
    s.append("(id, context) VALUES ($1, $2);");
    s
}

proof fn lemma_cancel_affixes(p: Seq<char>, a: Seq<char>, b: Seq<char>, q: Seq<char>)
    requires
        p + a + q == p + b + q,
    ensures
        a == b,
{
    let l = p + a + q;
    let r = p + b + q;
    assert(l.len() == p.len() + a.len() + q.len());
    assert(r.len() == p.len() + b.len() + q.len());
    assert(a.len() == b.len());
    assert forall|i: int| 0 <= i < a.len() implies a[i] == b[i] by {
        assert(l[p.len() + i] == a[i]);
        assert(r[p.len() + i] == b[i]);
    }
    assert(a =~= b);
}

/// Different queues never share a table: the table names of two queues agree
/// only when the queue names do.
pub proof fn lemma_tables_are_per_queue(a: Seq<char>, b: Seq<char>)
    ensures
        info_table(a) == info_table(b) <==> a == b,
        queue_table(a) == queue_table(b) <==> a == b,
{
    if info_table(a) == info_table(b) {
        lemma_cancel_affixes("queues."@, a, b, "_info"@);
    }
    if queue_table(a) == queue_table(b) {
        lemma_cancel_affixes("queues."@, a, b, "_queue"@);
    }
}

/// The statements a queue's requests send, spelled out for every queue name:
/// the lock, the position read and the position store all address the queue's
/// bookkeeping table `queues.<name>_info`; the fetch and the insert address its
/// process table `queues.<name>_queue`.
pub proof fn lemma_statement_texts(q: Seq<char>)
    ensures
        lock_info_sql(q) == "LOCK TABLE queues."@ + q + "_info"@,
        read_position_sql(q) == "select value from queues."@ + q + "_info where key = 'position'"@,
        next_process_sql(q) == "Select * from queues."@ + q + "_queue WHERE position > $1 order by position LIMIT 1"@,
        store_position_sql(q) == "UPDATE queues."@ + q + "_info SET value= $1 WHERE key = 'position'"@,
        insert_process_sql(q) == "INSERT INTO queues."@ + q + "_queue(id, context) VALUES ($1, $2);"@,
{
    reveal_strlit("queues.");
    reveal_strlit("_info");
    reveal_strlit("_queue");
    reveal_strlit("LOCK TABLE ");
    reveal_strlit("LOCK TABLE queues.");
    reveal_strlit("select value from ");
    reveal_strlit("select value from queues.");
    reveal_strlit(" where key = 'position'");
    reveal_strlit("_info where key = 'position'");
    reveal_strlit("Select * from ");
    reveal_strlit("Select * from queues.");
    reveal_strlit(" WHERE position > $1 order by position LIMIT 1");
    reveal_strlit("_queue WHERE position > $1 order by position LIMIT 1");
    reveal_strlit("UPDATE ");
    reveal_strlit("UPDATE queues.");
    reveal_strlit(" SET value= $1 WHERE key = 'position'");
    reveal_strlit("_info SET value= $1 WHERE key = 'position'");
    reveal_strlit("INSERT INTO ");
    reveal_strlit("INSERT INTO queues.");
    reveal_strlit("(id, context) VALUES ($1, $2);");
    reveal_strlit("_queue(id, context) VALUES ($1, $2);");
    assert(lock_info_sql(q) =~= "LOCK TABLE queues."@ + q + "_info"@);
    assert(read_position_sql(q) =~= "select value from queues."@ + q + "_info where key = 'position'"@);
    assert(next_process_sql(q) =~= "Select * from queues."@ + q + "_queue WHERE position > $1 order by position LIMIT 1"@);
    assert(store_position_sql(q) =~= "UPDATE queues."@ + q + "_info SET value= $1 WHERE key = 'position'"@);
    assert(insert_process_sql(q) =~= "INSERT INTO queues."@ + q + "_queue(id, context) VALUES ($1, $2);"@);
}

} // verus!
