//! The SQL scripts that create and drop a queue's tables, and the parameters
//! they are rendered from.  Each script is its statements joined with `;`.
use vstd::prelude::*;
use crate::statements::{join_with, split_on};
use crate::runner::sql::{
    info_table, insert_process_sql, lock_info_sql, next_process_sql, queue_table, read_position_sql,
    store_position_sql,
};

verus! {

/// The statements that create queue `name`: its process table, its
/// bookkeeping table with the position before the first process, and its entry
/// in the list of queues.
pub open spec fn create_queue_statements(name: Seq<char>) -> Seq<Seq<char>> {
    seq![
        "CREATE TABLE queues."@ + name + "_queue (id uuid PRIMARY KEY, context jsonb NOT NULL, position bigserial NOT NULL)"@,
        "CREATE TABLE queues."@ + name + "_info (key text PRIMARY KEY, value jsonb NOT NULL)"@,
        "INSERT INTO queues."@ + name + "_info (key, value) VALUES ('position', '0')"@,
        "INSERT INTO public.queues (name) VALUES ('"@ + name + "')"@,
    ]
}

/// The statements that drop queue `name`: its two tables and its entry in the
/// list of queues.
pub open spec fn delete_queue_statements(name: Seq<char>) -> Seq<Seq<char>> {
    seq![
        "DROP TABLE queues."@ + name + "_queue"@,
        "DROP TABLE queues."@ + name + "_info"@,
        "DELETE FROM public.queues WHERE name = '"@ + name + "'"@,
    ]
}

/// The parameters of the script that creates a queue.
pub struct CreateQueueTemplate<'a> {
    pub queue_name: &'a str,
}

impl<'a> CreateQueueTemplate<'a> {
    pub fn new(queue_name: &'a str) -> (r: Self)
        ensures
            r.queue_name@ == queue_name@,
    {
        CreateQueueTemplate { queue_name }
    }

    /// The script that creates the queue: its statements joined with `;`.
    pub fn render(&self) -> (r: String)
        ensures
            r@ == join_with(create_queue_statements(self.queue_name@), ';'),
    {
        let name = self.queue_name;
        let mut sql = String::from_str("CREATE TABLE queues.");
        sql.append(name);
        sql.append("_queue (id uuid PRIMARY KEY, context jsonb NOT NULL, position bigserial NOT NULL)");
        let ghost first = sql@;
        sql.append(";CREATE TABLE queues.");
        sql.append(name);
        sql.append("_info (key text PRIMARY KEY, value jsonb NOT NULL)");
        let ghost second = sql@;
        sql.append(";INSERT INTO queues.");
        sql.append(name);
        sql.append("_info (key, value) VALUES ('position', '0')");
        let ghost third = sql@;
        sql.append(";INSERT INTO public.queues (name) VALUES ('");
        sql.append(name);
        sql.append("')");
        proof {
            let st = create_queue_statements(name@);
            reveal_strlit(";CREATE TABLE queues.");
            reveal_strlit("CREATE TABLE queues.");
            reveal_strlit(";INSERT INTO queues.");
            reveal_strlit("INSERT INTO queues.");
            reveal_strlit(";INSERT INTO public.queues (name) VALUES ('");
            reveal_strlit("INSERT INTO public.queues (name) VALUES ('");
            assert(st.drop_last().drop_last().drop_last() =~= seq![st[0]]);
            assert(st.drop_last().drop_last().drop_last().drop_last() =~= Seq::<Seq<char>>::empty());
            assert(first =~= join_with(st.drop_last().drop_last().drop_last(), ';'));
            assert(";CREATE TABLE queues."@ =~= seq![';'] + "CREATE TABLE queues."@);
            assert(second =~= join_with(st.drop_last().drop_last(), ';'));
            assert(";INSERT INTO queues."@ =~= seq![';'] + "INSERT INTO queues."@);
            assert(third =~= join_with(st.drop_last(), ';'));
            assert(";INSERT INTO public.queues (name) VALUES ('"@ =~= seq![';'] + "INSERT INTO public.queues (name) VALUES ('"@);
            assert(sql@ =~= join_with(st, ';'));
        }
        sql
    }
}

/// The parameters of the script that drops a queue.
pub struct DeleteQueueTemplate<'a> {
    pub queue_name: &'a str,
}

impl<'a> DeleteQueueTemplate<'a> {
    pub fn new(queue_name: &'a str) -> (r: Self)
        ensures
            r.queue_name@ == queue_name@,
    {
        DeleteQueueTemplate { queue_name }
    }

    /// The script that drops the queue: its statements joined with `;`.
    pub fn render(&self) -> (r: String)
        ensures
            r@ == join_with(delete_queue_statements(self.queue_name@), ';'),
    {
        let name = self.queue_name;
        let mut sql = String::from_str("DROP TABLE queues.");
        sql.append(name);
        sql.append("_queue");
        let ghost first = sql@;
        sql.append(";DROP TABLE queues.");
        sql.append(name);
        sql.append("_info");
        let ghost second = sql@;
        sql.append(";DELETE FROM public.queues WHERE name = '");
        sql.append(name);
        sql.append("'");
        proof {
            let st = delete_queue_statements(name@);
            reveal_strlit(";DROP TABLE queues.");
            reveal_strlit("DROP TABLE queues.");
            reveal_strlit(";DELETE FROM public.queues WHERE name = '");
            reveal_strlit("DELETE FROM public.queues WHERE name = '");
            assert(st.drop_last().drop_last() =~= seq![st[0]]);
            assert(st.drop_last().drop_last().drop_last() =~= Seq::<Seq<char>>::empty());
            assert(first =~= join_with(st.drop_last().drop_last(), ';'));
            assert(";DROP TABLE queues."@ =~= seq![';'] + "DROP TABLE queues."@);
            assert(second =~= join_with(st.drop_last(), ';'));
            assert(";DELETE FROM public.queues WHERE name = '"@ =~= seq![';'] + "DELETE FROM public.queues WHERE name = '"@);
            assert(sql@ =~= join_with(st, ';'));
        }
        sql
    }
}

/// The requests of a queue address the tables its create script makes, for
/// every queue name: the script creates `queue_table(name)` and
/// `info_table(name)`, seeds the position in `info_table(name)`, and the drop
/// script drops those two tables; processes are inserted into and fetched from
/// `queue_table(name)`, and the lock, the position read and the position store
/// address `info_table(name)`.  The create script lists the queue by its name
/// in `public.queues`, and the drop script removes that entry.
pub proof fn lemma_requests_use_the_tables_the_scripts_make(name: Seq<char>)
    ensures
        create_queue_statements(name)[0] == "CREATE TABLE "@ + queue_table(name)
            + " (id uuid PRIMARY KEY, context jsonb NOT NULL, position bigserial NOT NULL)"@,
        create_queue_statements(name)[1] == "CREATE TABLE "@ + info_table(name)
            + " (key text PRIMARY KEY, value jsonb NOT NULL)"@,
        create_queue_statements(name)[2] == "INSERT INTO "@ + info_table(name)
            + " (key, value) VALUES ('position', '0')"@,
        delete_queue_statements(name)[0] == "DROP TABLE "@ + queue_table(name),
        delete_queue_statements(name)[1] == "DROP TABLE "@ + info_table(name),
        create_queue_statements(name)[3] == "INSERT INTO public.queues (name) VALUES ('"@ + name + "')"@,
        delete_queue_statements(name)[2] == "DELETE FROM public.queues WHERE name = '"@ + name + "'"@,
        insert_process_sql(name) == "INSERT INTO "@ + queue_table(name) + "(id, context) VALUES ($1, $2);"@,
        next_process_sql(name) == "Select * from "@ + queue_table(name)
            + " WHERE position > $1 order by position LIMIT 1"@,
        lock_info_sql(name) == "LOCK TABLE "@ + info_table(name),
        read_position_sql(name) == "select value from "@ + info_table(name) + " where key = 'position'"@,
        store_position_sql(name) == "UPDATE "@ + info_table(name) + " SET value= $1 WHERE key = 'position'"@,
{
    crate::runner::sql::lemma_statement_texts(name);
    reveal_strlit("CREATE TABLE queues.");
    reveal_strlit("CREATE TABLE ");
    reveal_strlit("INSERT INTO queues.");
    reveal_strlit("INSERT INTO ");
    reveal_strlit("DROP TABLE queues.");
    reveal_strlit("DROP TABLE ");
    reveal_strlit("queues.");
    reveal_strlit("_queue");
    reveal_strlit("_info");
    reveal_strlit("Select * from ");
    reveal_strlit("Select * from queues.");
    reveal_strlit(" WHERE position > $1 order by position LIMIT 1");
    reveal_strlit("_queue WHERE position > $1 order by position LIMIT 1");
    reveal_strlit("LOCK TABLE ");
    reveal_strlit("LOCK TABLE queues.");
    reveal_strlit("select value from ");
    reveal_strlit("select value from queues.");
    reveal_strlit(" where key = 'position'");
    reveal_strlit("_info where key = 'position'");
    reveal_strlit("UPDATE ");
    reveal_strlit("UPDATE queues.");
    reveal_strlit(" SET value= $1 WHERE key = 'position'");
    reveal_strlit("_info SET value= $1 WHERE key = 'position'");
    reveal_strlit("(id, context) VALUES ($1, $2);");
    reveal_strlit("_queue(id, context) VALUES ($1, $2);");
    reveal_strlit("_queue (id uuid PRIMARY KEY, context jsonb NOT NULL, position bigserial NOT NULL)");
    reveal_strlit(" (id uuid PRIMARY KEY, context jsonb NOT NULL, position bigserial NOT NULL)");
    reveal_strlit("_info (key text PRIMARY KEY, value jsonb NOT NULL)");
    reveal_strlit(" (key text PRIMARY KEY, value jsonb NOT NULL)");
    reveal_strlit("_info (key, value) VALUES ('position', '0')");
    reveal_strlit(" (key, value) VALUES ('position', '0')");
    let c = create_queue_statements(name);
    let d = delete_queue_statements(name);
    assert(c[0] =~= "CREATE TABLE "@ + queue_table(name)
        + " (id uuid PRIMARY KEY, context jsonb NOT NULL, position bigserial NOT NULL)"@);
    assert(c[1] =~= "CREATE TABLE "@ + info_table(name) + " (key text PRIMARY KEY, value jsonb NOT NULL)"@);
    assert(c[2] =~= "INSERT INTO "@ + info_table(name) + " (key, value) VALUES ('position', '0')"@);
    assert(d[0] =~= "DROP TABLE "@ + queue_table(name));
    assert(d[1] =~= "DROP TABLE "@ + info_table(name));
    assert(insert_process_sql(name) =~= "INSERT INTO "@ + queue_table(name) + "(id, context) VALUES ($1, $2);"@);
    assert(next_process_sql(name) =~= "Select * from "@ + queue_table(name)
        + " WHERE position > $1 order by position LIMIT 1"@);
    assert(lock_info_sql(name) =~= "LOCK TABLE "@ + info_table(name));
    assert(read_position_sql(name) =~= "select value from "@ + info_table(name) + " where key = 'position'"@);
    assert(store_position_sql(name) =~= "UPDATE "@ + info_table(name) + " SET value= $1 WHERE key = 'position'"@);
}

proof fn lemma_concat_lacks(a: Seq<char>, b: Seq<char>, c: char)
    requires
        !a.contains(c),
        !b.contains(c),
    ensures
        !(a + b).contains(c),
{
    if (a + b).contains(c) {
        let i = choose|i: int| 0 <= i < (a + b).len() && (a + b)[i] == c;
        if i < a.len() {
            assert(a[i] == c);
        } else {
            assert(b[i - a.len()] == c);
        }
    }
}

proof fn lemma_wrapped_lacks(prefix: Seq<char>, name: Seq<char>, suffix: Seq<char>, c: char)
    requires
        !prefix.contains(c),
        !name.contains(c),
        !suffix.contains(c),
    ensures
        !(prefix + name + suffix).contains(c),
{
    lemma_concat_lacks(prefix, name, c);
    lemma_concat_lacks(prefix + name, suffix, c);
}

/// A queue name that holds no `;` cannot add or cut a statement: the scripts
/// that create and drop the queue split at `;` into exactly their statements.
/// Every valid name qualifies (see `lemma_word_names_hold_no_sql_punctuation`).
pub proof fn lemma_queue_scripts_split_into_their_statements(name: Seq<char>)
    requires
        !name.contains(';'),
    ensures
        split_on(join_with(create_queue_statements(name), ';'), ';') == create_queue_statements(name),
        split_on(join_with(delete_queue_statements(name), ';'), ';') == delete_queue_statements(name),
{
    reveal_strlit("CREATE TABLE queues.");
    reveal_strlit("_queue (id uuid PRIMARY KEY, context jsonb NOT NULL, position bigserial NOT NULL)");
    reveal_strlit("_info (key text PRIMARY KEY, value jsonb NOT NULL)");
    reveal_strlit("INSERT INTO queues.");
    reveal_strlit("_info (key, value) VALUES ('position', '0')");
    reveal_strlit("INSERT INTO public.queues (name) VALUES ('");
    reveal_strlit("')");
    reveal_strlit("DROP TABLE queues.");
    reveal_strlit("_queue");
    reveal_strlit("_info");
    reveal_strlit("DELETE FROM public.queues WHERE name = '");
    reveal_strlit("'");
    let create = create_queue_statements(name);
    lemma_wrapped_lacks("CREATE TABLE queues."@, name,
        "_queue (id uuid PRIMARY KEY, context jsonb NOT NULL, position bigserial NOT NULL)"@, ';');
    lemma_wrapped_lacks("CREATE TABLE queues."@, name, "_info (key text PRIMARY KEY, value jsonb NOT NULL)"@, ';');
    lemma_wrapped_lacks("INSERT INTO queues."@, name, "_info (key, value) VALUES ('position', '0')"@, ';');
    lemma_wrapped_lacks("INSERT INTO public.queues (name) VALUES ('"@, name, "')"@, ';');
    assert forall|i: int| 0 <= i < create.len() implies !(#[trigger] create[i]).contains(';') by {}
    crate::statements::lemma_split_of_join(create, ';');
    let delete = delete_queue_statements(name);
    lemma_wrapped_lacks("DROP TABLE queues."@, name, "_queue"@, ';');
    lemma_wrapped_lacks("DROP TABLE queues."@, name, "_info"@, ';');
    lemma_wrapped_lacks("DELETE FROM public.queues WHERE name = '"@, name, "'"@, ';');
    assert forall|i: int| 0 <= i < delete.len() implies !(#[trigger] delete[i]).contains(';') by {}
    crate::statements::lemma_split_of_join(delete, ';');
}

} // verus!
