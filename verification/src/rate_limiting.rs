//! The rate-limiting actor: decides, per client identity, whether the request
//! budget for the current fixed window is exhausted.
//!
//! The counter lives in the backend, not in the process: the actor derives a
//! backend key from the identity, has the backend atomically increment the
//! counter there (saturating) while giving the key an expiry only if it has
//! none, and compares the post-increment count against the configured limit.
//! A request is over budget iff the count strictly exceeds the limit.  When
//! the real backend cannot be reached the limiter fails closed: the request
//! is reported as over budget rather than admitted unchecked.

use vstd::prelude::*;
use vstd::string::StringExecFns;
use crate::actor::CommandQueue;
use crate::backend::{Backend, StorageError, Window, window_step, window_deadline};

verus! {

/// A command to the rate limiter: has this client identity reached its limit?
pub enum Command {
    LimitReached { ip: String },
}

/// The rate limiter.  `time` is the window duration in seconds and `limit`
/// the number of requests allowed per window; both are fixed at construction
/// and apply uniformly to every client.  `db` is the backend holding the
/// counters.
pub struct Service {
    pub time: u64,
    pub limit: u32,
    pub db: Backend,
}

/// The backend key that holds the counter of client identity `ip`: a fixed
/// prefix in front of the identity, derived deterministically.
pub fn limit_key(ip: &str) -> (r: String)
    ensures
        r@ == "req_"@ + ip@,
{
    let mut k = String::from_str("req_");
    k.append(ip);
    k
}

/// Fail-closed decision over a reply from the real backend: a count that came
/// back is over budget iff it strictly exceeds the limit; a reply that could
/// not be obtained denies the request, since admitting unlimited traffic
/// while the limiter is blind would be worse.
pub fn limit_decision(reply: &Result<u32, StorageError>, limit: u32) -> (r: bool)
    ensures
        reply matches Ok(c) ==> r == (c > limit),
        reply is Err ==> r,
{
    match reply {
        Ok(c) => *c > limit,
        Err(_) => true,
    }
}

impl Service {
    /// A limiter over `db` allowing `limit` requests per window of `time`
    /// seconds.
    pub fn new(time: u64, limit: u32, db: Backend) -> (r: Service)
        ensures
            r.time == time,
            r.limit == limit,
            r.db.windows() == db.windows(),
            r.db.entries() == db.entries(),
    {
        Service { time, limit, db }
    }

    /// One budget check for `ip` at time `now` (seconds): counts this request
    /// against `ip`'s window and reports whether the budget is now exceeded.
    pub fn limit_reached(&mut self, ip: &str, now: u64) -> (r: bool)
        ensures
            final(self).db.windows() == old(self).db.windows().insert(
                "req_"@ + ip@,
                window_step(old(self).db.windows().get("req_"@ + ip@), now, old(self).time),
            ),
            r == (window_step(old(self).db.windows().get("req_"@ + ip@), now, old(self).time).count
                > old(self).limit),
            final(self).db.entries() == old(self).db.entries(),
            final(self).time == old(self).time,
            final(self).limit == old(self).limit,
    {
        let key = limit_key(ip);
        let count = self.db.incr_with_expire(key.as_str(), self.time, now);
        count > self.limit
    }

    /// The actor's loop: drain the queue, answering each budget check in the
    /// order it was enqueued, one answer per command.  In the running system
    /// this loop sits on a task of its own, reads the clock as each command
    /// arrives, and answers on the command's one-shot channel; here the whole
    /// batch is checked at time `now` and the answers come back in queue
    /// order.
    pub fn run(&mut self, queue: &mut CommandQueue<Command>, now: u64) -> (replies: Vec<bool>)
        ensures
            final(queue)@.len() == 0,
            replies@.len() == old(queue)@.len(),
            final(self).db.windows() == counters_after(
                old(self).db.windows(),
                old(queue)@,
                now,
                old(self).time,
            ),
            final(self).db.entries() == old(self).db.entries(),
            final(self).time == old(self).time,
            final(self).limit == old(self).limit,
            forall|i: int|
                0 <= i < old(queue)@.len() ==> #[trigger] replies@[i] == limit_reply(
                    counters_after(old(self).db.windows(), old(queue)@.take(i), now, old(self).time),
                    old(queue)@[i],
                    now,
                    old(self).time,
                    old(self).limit,
                ),
    {
        let ghost cmds0 = queue@;
        let ghost windows0 = self.db.windows();
        let mut replies: Vec<bool> = Vec::new();
        proof {
            assert(cmds0.take(0) =~= Seq::<Command>::empty());
        }
        while queue.len() > 0
            invariant
                replies@.len() <= cmds0.len(),
                queue@ == cmds0.skip(replies@.len() as int),
                self.db.windows() == counters_after(
                    windows0,
                    cmds0.take(replies@.len() as int),
                    now,
                    old(self).time,
                ),
                self.db.entries() == old(self).db.entries(),
                self.time == old(self).time,
                self.limit == old(self).limit,
                windows0 == old(self).db.windows(),
                forall|i: int|
                    0 <= i < replies@.len() ==> #[trigger] replies@[i] == limit_reply(
                        counters_after(windows0, cmds0.take(i), now, old(self).time),
                        cmds0[i],
                        now,
                        old(self).time,
                        old(self).limit,
                    ),
            decreases queue@.len(),
        {
            let ghost n = replies@.len() as int;
            if let Some(cmd) = queue.recv() {
                proof {
                    assert(cmds0.skip(n).drop_first() =~= cmds0.skip(n + 1));
                    assert(cmds0.skip(n)[0] == cmds0[n]);
                }
                let r = match cmd {
                    Command::LimitReached { ip } => self.limit_reached(ip.as_str(), now),
                };
                replies.push(r);
                proof {
                    assert(cmds0.take(n + 1).drop_last() =~= cmds0.take(n));
                    assert(cmds0.take(n + 1).last() == cmds0[n]);
                }
            }
        }
        proof {
            assert(cmds0.take(cmds0.len() as int) =~= cmds0);
        }
        replies
    }
}

/// What one budget check does to the counters: the command's identity gets
/// its window stepped, every other entry stays.
pub open spec fn counters_step(
    m: Map<Seq<char>, Window>,
    cmd: Command,
    now: u64,
    window_secs: u64,
) -> Map<Seq<char>, Window> {
    match cmd {
        Command::LimitReached { ip } => m.insert(
            "req_"@ + ip@,
            window_step(m.get("req_"@ + ip@), now, window_secs),
        ),
    }
}

/// The counters after a sequence of budget checks, executed in order at time
/// `now`.
pub open spec fn counters_after(
    m: Map<Seq<char>, Window>,
    cmds: Seq<Command>,
    now: u64,
    window_secs: u64,
) -> Map<Seq<char>, Window>
    decreases cmds.len(),
{
    if cmds.len() == 0 {
        m
    } else {
        counters_step(counters_after(m, cmds.drop_last(), now, window_secs), cmds.last(), now, window_secs)
    }
}

/// The answer a budget check is owed against counters `m`: over budget iff
/// the post-increment count strictly exceeds the limit.
pub open spec fn limit_reply(
    m: Map<Seq<char>, Window>,
    cmd: Command,
    now: u64,
    window_secs: u64,
    limit: u32,
) -> bool {
    match cmd {
        Command::LimitReached { ip } => window_step(m.get("req_"@ + ip@), now, window_secs).count
            > limit,
    }
}

/// The counter entry left by a run of requests at the given times, starting
/// from `prev`, each counted by one increment-with-conditional-expire.
pub open spec fn windows_after(prev: Option<Window>, times: Seq<u64>, window_secs: u64) -> Option<
    Window,
>
    decreases times.len(),
{
    if times.len() == 0 {
        prev
    } else {
        Some(
            window_step(
                windows_after(prev, times.drop_last(), window_secs),
                times.last(),
                window_secs,
            ),
        )
    }
}

/// In one window the counter counts exactly: starting from no entry, a run of
/// `n` requests that all fall before the deadline opened by the first request
/// leaves a count of exactly `n`, under the deadline the first request set.
pub proof fn lemma_window_counts(times: Seq<u64>, window_secs: u64)
    requires
        1 <= times.len() <= u32::MAX,
        forall|i: int|
            0 < i < times.len() ==> #[trigger] times[i] < window_deadline(times[0], window_secs),
    ensures
        windows_after(None, times, window_secs) == Some(
            Window {
                count: times.len() as u32,
                deadline: window_deadline(times[0], window_secs),
            },
        ),
    decreases times.len(),
{
    if times.len() == 1 {
        assert(times.drop_last().len() == 0);
    } else {
        assert(forall|i: int|
            0 < i < times.drop_last().len() ==> #[trigger] times.drop_last()[i] < window_deadline(
                times.drop_last()[0],
                window_secs,
            ));
        lemma_window_counts(times.drop_last(), window_secs);
        assert(times.last() == times[times.len() - 1]);
        assert(times[times.len() - 1] < window_deadline(times[0], window_secs));
    }
}

/// The budget boundary: with a limit of `L` below the counter's ceiling, a
/// client that sends `L + 1` requests inside one window is not over budget
/// after the `L`-th request, and is over budget after the `(L + 1)`-th.
pub proof fn lemma_limit_boundary(times: Seq<u64>, window_secs: u64, limit: u32)
    requires
        limit < u32::MAX,
        times.len() == limit + 1,
        forall|i: int|
            0 < i < times.len() ==> #[trigger] times[i] < window_deadline(times[0], window_secs),
    ensures
        limit > 0 ==> (windows_after(None, times.take(limit as int), window_secs) matches Some(w)
            && !(w.count > limit)),
        windows_after(None, times, window_secs) matches Some(w) && w.count > limit,
{
    lemma_window_counts(times, window_secs);
    if limit > 0 {
        assert(forall|i: int|
            0 < i < times.take(limit as int).len() ==> #[trigger] times.take(limit as int)[i]
                < window_deadline(times.take(limit as int)[0], window_secs));
        lemma_window_counts(times.take(limit as int), window_secs);
    }
}

/// A batch of budget checks all from one identity drives that identity's
/// counter exactly as one window: starting with no entry under `ip`'s key,
/// the batch leaves one count per check there, under the deadline the first
/// check set, and moves nothing else.
pub proof fn lemma_one_identity_batch(
    m: Map<Seq<char>, Window>,
    cmds: Seq<Command>,
    ip: Seq<char>,
    now: u64,
    window_secs: u64,
)
    requires
        forall|i: int|
            0 <= i < cmds.len() ==> ((#[trigger] cmds[i]) matches Command::LimitReached { ip: p }
                && p@ == ip),
        1 <= cmds.len() <= u32::MAX,
        !m.contains_key("req_"@ + ip),
        window_secs >= 1,
        now < u64::MAX,
    ensures
        counters_after(m, cmds, now, window_secs) == m.insert(
            "req_"@ + ip,
            Window { count: cmds.len() as u32, deadline: window_deadline(now, window_secs) },
        ),
    decreases cmds.len(),
{
    let key = "req_"@ + ip;
    if cmds.len() == 1 {
        assert(cmds.drop_last().len() == 0);
        assert(counters_after(m, cmds.drop_last(), now, window_secs) == m);
        assert(cmds.last() == cmds[0]);
        assert(cmds[0] matches Command::LimitReached { ip: p } && p@ == ip);
        assert(m.get(key) is None);
        assert(counters_after(m, cmds, now, window_secs) =~= m.insert(
            key,
            Window { count: 1, deadline: window_deadline(now, window_secs) },
        ));
    } else {
        assert(forall|i: int|
            0 <= i < cmds.drop_last().len() ==> ((#[trigger] cmds.drop_last()[i]) matches
                Command::LimitReached { ip: p } && p@ == ip));
        lemma_one_identity_batch(m, cmds.drop_last(), ip, now, window_secs);
        let m1 = counters_after(m, cmds.drop_last(), now, window_secs);
        assert(cmds.last() == cmds[cmds.len() - 1]);
        assert(cmds[cmds.len() - 1] matches Command::LimitReached { ip: p } && p@ == ip);
        assert(m1.get(key) == Some(
            Window {
                count: (cmds.len() - 1) as u32,
                deadline: window_deadline(now, window_secs),
            },
        ));
        assert(now < window_deadline(now, window_secs));
        assert(counters_after(m, cmds, now, window_secs) =~= m.insert(
            key,
            Window { count: cmds.len() as u32, deadline: window_deadline(now, window_secs) },
        ));
    }
}

/// The budget boundary in the terms of the actor's own loop: in a batch of
/// checks all from one fresh identity, the answer to the `i`-th check (first
/// check: `i == 0`) is over-budget exactly when `i + 1` exceeds the limit —
/// the first `limit` checks pass, every later one is rejected.
pub proof fn lemma_batch_boundary(
    m: Map<Seq<char>, Window>,
    cmds: Seq<Command>,
    ip: Seq<char>,
    now: u64,
    window_secs: u64,
    limit: u32,
)
    requires
        forall|i: int|
            0 <= i < cmds.len() ==> ((#[trigger] cmds[i]) matches Command::LimitReached { ip: p }
                && p@ == ip),
        cmds.len() <= u32::MAX,
        !m.contains_key("req_"@ + ip),
        window_secs >= 1,
        now < u64::MAX,
    ensures
        forall|i: int|
            0 <= i < cmds.len() ==> limit_reply(
                counters_after(m, cmds.take(i), now, window_secs),
                cmds[i],
                now,
                window_secs,
                limit,
            ) == (i + 1 > limit),
{
    let key = "req_"@ + ip;
    assert forall|i: int| 0 <= i < cmds.len() implies limit_reply(
        counters_after(m, cmds.take(i), now, window_secs),
        cmds[i],
        now,
        window_secs,
        limit,
    ) == (i + 1 > limit) by {
        if i == 0 {
            assert(cmds.take(0).len() == 0);
            assert(counters_after(m, cmds.take(0), now, window_secs) == m);
        } else {
            assert(forall|j: int|
                0 <= j < cmds.take(i).len() ==> ((#[trigger] cmds.take(i)[j]) matches
                    Command::LimitReached { ip: p } && p@ == ip));
            lemma_one_identity_batch(m, cmds.take(i), ip, now, window_secs);
            assert(now < window_deadline(now, window_secs));
        }
    }
}

/// Fixed-window reset: once the deadline set at the window's first request
/// has passed, the next request finds a fresh window — a count of one and a
/// new deadline — whatever count had accumulated before; with any limit of
/// at least one, that request is within budget again.
pub proof fn lemma_window_reset(prev: Window, now: u64, window_secs: u64, limit: u32)
    requires
        now >= prev.deadline,
    ensures
        window_step(Some(prev), now, window_secs) == (Window {
            count: 1,
            deadline: window_deadline(now, window_secs),
        }),
        limit >= 1 ==> !(window_step(Some(prev), now, window_secs).count > limit),
{
}

/// Conditional expire: a request inside the window keeps the deadline the
/// first request set; it never pushes the boundary forward.
pub proof fn lemma_deadline_fixed(prev: Window, now: u64, window_secs: u64)
    requires
        now < prev.deadline,
    ensures
        window_step(Some(prev), now, window_secs).deadline == prev.deadline,
{
}

/// Saturation: within a window the counter never shrinks, and once it has
/// reached its ceiling it stays there — an overflow can never make a client
/// look fresh again while the window lasts.
pub proof fn lemma_counter_saturates(prev: Window, now: u64, window_secs: u64, limit: u32)
    requires
        now < prev.deadline,
    ensures
        window_step(Some(prev), now, window_secs).count >= prev.count,
        prev.count == u32::MAX ==> window_step(Some(prev), now, window_secs).count == u32::MAX,
        prev.count == u32::MAX && limit < u32::MAX ==> window_step(
            Some(prev),
            now,
            window_secs,
        ).count > limit,
{
}

} // verus!
