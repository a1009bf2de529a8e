use vstd::prelude::*;
use vstd::std_specs::iter::IteratorSpec;

verus! {

broadcast use {vstd::string::axiom_spec_iter, vstd::string::next_postcondition};

/// What `char::is_alphanumeric` answers for a character (Unicode's Alphabetic
/// property or a numeric general category).
pub uninterp spec fn is_alphanumeric_char(c: char) -> bool;

/// An ASCII letter or digit.
pub open spec fn ascii_alphanumeric(c: char) -> bool {
    ('a' <= c && c <= 'z') || ('A' <= c && c <= 'Z') || ('0' <= c && c <= '9')
}

/// Calls `char::is_alphanumeric`.  Claimed: its answer, a function of the
/// character alone, is named `is_alphanumeric_char`; for an ASCII character it
/// is true exactly for the letters `a`-`z`, `A`-`Z` and the digits `0`-`9`, as
/// std documents.  Beyond ASCII it follows Unicode's tables, which are not stated.
#[verifier::external_body]
fn char_is_alphanumeric(c: char) -> (r: bool)
    ensures
        r == is_alphanumeric_char(c),
        (c as u32) < 128 ==> (r <==> ascii_alphanumeric(c)),
{
    c.is_alphanumeric()
}

/// A character that may stand in a queue name.
pub open spec fn queue_name_char(c: char) -> bool {
    is_alphanumeric_char(c) || c == '_'
}

/// A queue name that may be spliced into SQL: every character is alphanumeric
/// or an underscore (the empty name included).
pub open spec fn valid_queue_name(name: Seq<char>) -> bool {
    forall|i: int| 0 <= i < name.len() ==> queue_name_char(#[trigger] name[i])
}

/// A queue name is valid exactly when each of its characters, ASCII or not, is
/// one that `char::is_alphanumeric` accepts or an underscore.
pub proof fn lemma_valid_names_are_alphanumeric(name: Seq<char>)
    ensures
        valid_queue_name(name) <==> forall|i: int| 0 <= i < name.len()
            ==> is_alphanumeric_char(#[trigger] name[i]) || name[i] == '_',
{
}

/// The ASCII characters of `name` are letters, digits and underscores only.
pub open spec fn ascii_word(name: Seq<char>) -> bool {
    forall|i: int| 0 <= i < name.len() && (name[i] as u32) < 128
        ==> ascii_alphanumeric(#[trigger] name[i]) || name[i] == '_'
}

/// Every character of `name` is ASCII.
pub open spec fn all_ascii(name: Seq<char>) -> bool {
    forall|i: int| 0 <= i < name.len() ==> (#[trigger] name[i] as u32) < 128
}

/// A name whose ASCII characters are letters, digits and underscores holds no
/// quote, semicolon, space, dot, dash or parenthesis, so it cannot end an SQL
/// identifier it is spliced into.
pub proof fn lemma_word_names_hold_no_sql_punctuation(name: Seq<char>)
    requires
        ascii_word(name),
    ensures
        !name.contains(';') && !name.contains('\'') && !name.contains('"') && !name.contains(' ')
            && !name.contains('.') && !name.contains('-') && !name.contains('(') && !name.contains(')'),
{
    assert forall|i: int| 0 <= i < name.len() implies name[i] != ';' && name[i] != '\'' && name[i] != '"'
        && name[i] != ' ' && name[i] != '.' && name[i] != '-' && name[i] != '(' && name[i] != ')' by {
        if (name[i] as u32) < 128 {
            assert(ascii_alphanumeric(name[i]) || name[i] == '_');
        }
    }
}

/// A queue as listed by the runner.
pub struct Queue {
    pub name: String,
}

/// A request that names a queue.
pub struct QueueRequest {
    pub queue: String,
}

impl QueueRequest {
    pub fn new(queue: String) -> (r: Self)
        ensures
            r.queue@ == queue@,
    {
        QueueRequest { queue }
    }

    /// Whether the named queue may be created: only alphanumeric characters and
    /// underscores.
    pub fn is_valid(&self) -> (r: bool)
        ensures
            r == valid_queue_name(self.queue@),
            r <==> forall|i: int| 0 <= i < self.queue@.len()
                ==> is_alphanumeric_char(#[trigger] self.queue@[i]) || self.queue@[i] == '_',
            r ==> ascii_word(self.queue@),
            all_ascii(self.queue@) ==> (r <==> ascii_word(self.queue@)),
    {
        let name = self.queue.as_str();
        let mut it = name.chars();
        let ghost all = name@;
        let ghost mut seen: int = 0;
        proof {
            broadcast use vstd::string::axiom_spec_iter;
            assert(all.subrange(0, all.len() as int) =~= all);
        }
        loop
            invariant
                all == self.queue@,
                0 <= seen <= all.len(),
                it.obeys_prophetic_iter_laws(),
                it.remaining() == all.subrange(seen, all.len() as int),
                forall|i: int| 0 <= i < seen ==> queue_name_char(#[trigger] all[i]),
                forall|i: int| 0 <= i < seen && (all[i] as u32) < 128
                    ==> ascii_alphanumeric(#[trigger] all[i]) || all[i] == '_',
            decreases all.len() - seen,
        {
            let ghost before = it;
            match it.next() {
                Some(c) => {
                    assert(before.remaining().len() > 0);
                    assert(c == all[seen]);
                    if !char_is_alphanumeric(c) && c != '_' {
                        assert(!queue_name_char(all[seen]));
                        assert((all[seen] as u32) < 128 ==> !(ascii_alphanumeric(all[seen]) || all[seen] == '_'));
                        return false;
                    }
                    proof { seen = seen + 1; }
                },
                None => {
                    assert(before.remaining().len() == 0);
                    return true;
                },
            }
        }
    }
}

/// A process waiting in a queue: its id, its JSON context (as text) and its
/// position in the queue, which grows with every process added.
pub struct Process {
    pub id: u128,
    pub context: String,
    pub position: i64,
}

/// A request to add a process, given by its JSON context (as text), to a queue.
pub struct AddProcessToQueueRequest {
    pub queue: String,
    pub process: String,
}

impl AddProcessToQueueRequest {
    pub fn new(queue: String, process: String) -> (r: Self)
        ensures
            r.queue@ == queue@,
            r.process@ == process@,
    {
        AddProcessToQueueRequest { queue, process }
    }
}

} // verus!
