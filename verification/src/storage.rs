//! The storage actor: the one owner of a backend client for plain key-value
//! work.  It takes `Get`/`Put` commands from its queue and executes them one
//! at a time, in submission order, answering every command with exactly one
//! reply — a failed backend call becomes a failure reply, never a crash or a
//! skipped reply.

use vstd::prelude::*;
use crate::actor::CommandQueue;
use crate::backend::{Backend, StorageError};

verus! {

/// One unit of work for the storage actor: a lookup, or a write (`Put`,
/// carrying the method the wire calls `set`).  In the running system each
/// command carries a one-shot reply channel; here the replies come back as a
/// sequence, one per command, in the same order.
pub enum Command {
    Get { key: String },
    Put { key: String, value: String },
}

/// The actor's reply to one command: the looked-up value for a `Get`, the
/// acknowledgement for a `Put`.
pub enum Reply {
    Value(Result<String, StorageError>),
    Done(Result<(), StorageError>),
}

/// What one command does to the stored entries: a `Get` reads, a `Put`
/// overwrites — last write wins.
pub open spec fn entries_step(m: Map<Seq<char>, Seq<char>>, cmd: Command) -> Map<
    Seq<char>,
    Seq<char>,
> {
    match cmd {
        Command::Get { .. } => m,
        Command::Put { key, value } => m.insert(key@, value@),
    }
}

/// The stored entries after a sequence of commands, executed in order.
pub open spec fn entries_after(m: Map<Seq<char>, Seq<char>>, cmds: Seq<Command>) -> Map<
    Seq<char>,
    Seq<char>,
>
    decreases cmds.len(),
{
    if cmds.len() == 0 {
        m
    } else {
        entries_step(entries_after(m, cmds.drop_last()), cmds.last())
    }
}

/// The reply a command is owed when it executes against entries `m`: a `Get`
/// yields the stored value, or `NotFound` when the key is absent; a `Put` is
/// acknowledged.
pub open spec fn reply_matches(m: Map<Seq<char>, Seq<char>>, cmd: Command, r: Reply) -> bool {
    match cmd {
        Command::Get { key } => match r {
            Reply::Value(res) => if m.contains_key(key@) {
                res matches Ok(v) && v@ == m[key@]
            } else {
                res == Err::<String, StorageError>(StorageError::NotFound)
            },
            Reply::Done(_) => false,
        },
        Command::Put { .. } => r == Reply::Done(Ok::<(), StorageError>(())),
    }
}

/// Round trip: whatever reply the protocol owes a `Get` of `k` executed
/// right after a `Put` of `(k, v)` — no intervening write on `k` — it
/// carries exactly `v`.
pub proof fn lemma_set_then_get(m: Map<Seq<char>, Seq<char>>, k: String, v: String, r: Reply)
    requires
        reply_matches(
            entries_step(m, (Command::Put { key: k, value: v })),
            (Command::Get { key: k }),
            r,
        ),
    ensures
        r matches Reply::Value(res) && res matches Ok(val) && val@ == v@,
{
}

/// The storage actor: owns its backend client exclusively and translates
/// commands to backend calls.
pub struct KVService {
    pub db: Backend,
}

impl KVService {
    /// An actor over the given backend client.
    pub fn new(db: Backend) -> (r: KVService)
        ensures
            r.db.entries() == db.entries(),
            r.db.windows() == db.windows(),
    {
        KVService { db }
    }

    /// Look `key` up in the backend.
    pub fn get(&mut self, key: String) -> (r: Result<String, StorageError>)
        ensures
            old(self).db.entries().contains_key(key@) ==> (r matches Ok(v) && v@ == old(
                self,
            ).db.entries()[key@]),
            !old(self).db.entries().contains_key(key@) ==> r == Err::<String, StorageError>(
                StorageError::NotFound,
            ),
            final(self).db.entries() == old(self).db.entries(),
            final(self).db.windows() == old(self).db.windows(),
    {
        self.db.get(key.as_str())
    }

    /// Store `value` under `key`, overwriting any existing value.
    pub fn set(&mut self, key: String, value: String) -> (r: Result<(), StorageError>)
        ensures
            r == Ok::<(), StorageError>(()),
            final(self).db.entries() == old(self).db.entries().insert(key@, value@),
            final(self).db.windows() == old(self).db.windows(),
    {
        self.db.set(key, value);
        Ok(())
    }

    /// Execute one command and produce its reply.
    pub fn step(&mut self, cmd: Command) -> (r: Reply)
        ensures
            reply_matches(old(self).db.entries(), cmd, r),
            final(self).db.entries() == entries_step(old(self).db.entries(), cmd),
            final(self).db.windows() == old(self).db.windows(),
    {
        match cmd {
            Command::Get { key } => Reply::Value(self.get(key)),
            Command::Put { key, value } => Reply::Done(self.set(key, value)),
        }
    }

    /// The actor's loop: drain the queue, executing commands strictly in the
    /// order they were enqueued — never reordered, never two at once — and
    /// answer each with exactly one reply.  In the running system this loop
    /// sits on a task of its own and each reply goes out on the command's
    /// one-shot channel; here the replies come back in queue order.
    pub fn run(&mut self, queue: &mut CommandQueue<Command>) -> (replies: Vec<Reply>)
        ensures
            final(queue)@.len() == 0,
            replies@.len() == old(queue)@.len(),
            final(self).db.entries() == entries_after(old(self).db.entries(), old(queue)@),
            final(self).db.windows() == old(self).db.windows(),
            forall|i: int|
                0 <= i < old(queue)@.len() ==> reply_matches(
                    entries_after(old(self).db.entries(), old(queue)@.take(i)),
                    old(queue)@[i],
                    #[trigger] replies@[i],
                ),
    {
        let ghost cmds0 = queue@;
        let ghost entries0 = self.db.entries();
        let mut replies: Vec<Reply> = Vec::new();
        proof {
            assert(cmds0.take(0) =~= Seq::<Command>::empty());
        }
        while queue.len() > 0
            invariant
                replies@.len() <= cmds0.len(),
                queue@ == cmds0.skip(replies@.len() as int),
                self.db.entries() == entries_after(entries0, cmds0.take(replies@.len() as int)),
                self.db.windows() == old(self).db.windows(),
                entries0 == old(self).db.entries(),
                forall|i: int|
                    0 <= i < replies@.len() ==> reply_matches(
                        entries_after(entries0, cmds0.take(i)),
                        cmds0[i],
                        #[trigger] replies@[i],
                    ),
            decreases queue@.len(),
        {
            let ghost n = replies@.len() as int;
            if let Some(cmd) = queue.recv() {
                proof {
                    assert(cmds0.skip(n).drop_first() =~= cmds0.skip(n + 1));
                    assert(cmds0.skip(n)[0] == cmds0[n]);
                }
                let r = self.step(cmd);
                replies.push(r);
                proof {
                    assert(cmds0.take(n + 1).drop_last() =~= cmds0.take(n));
                    assert(cmds0.take(n + 1).last() == cmds0[n]);
                }
            }
        }
        proof {
            assert(cmds0.take(cmds0.len() as int) =~= cmds0);
        }
        replies
    }
}

} // verus!
