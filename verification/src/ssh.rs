//! The pool of SSH sessions: one per user, port and host, dropped after a
//! time without use, retried with growing delays when connecting fails.
//! The sessions themselves are handed in by the caller, which opens and
//! closes them.

use vstd::prelude::*;
use crate::cache::{distinct_keys, has_key, insert_key, key_index, lookup, remove_key};
use crate::text;
use vstd::arithmetic::power2::pow2;

verus! {

/// The key of the session for a user, port and host.
pub open spec fn session_key(host: Seq<char>, port: u16, username: Seq<char>) -> Seq<char> {
    username + seq![':'] + text::decimal(port as nat) + seq!['@'] + host
}

/// The sessions still in use at time `now`: those used no more than `idle`
/// seconds ago (a use in the future counts as just now).
pub open spec fn fresh<S>(slots: Seq<(Seq<char>, (S, u64))>, now: u64, idle: u64) -> Seq<(Seq<char>, (S, u64))>
    decreases slots.len(),
{
    if slots.len() == 0 {
        slots
    } else {
        let prev = fresh(slots.drop_last(), now, idle);
        if is_idle(slots.last().1.1, now, idle) {
            prev
        } else {
            prev.push(slots.last())
        }
    }
}

/// The sessions idle at time `now`, in order.
pub open spec fn idle_sessions<S>(slots: Seq<(Seq<char>, (S, u64))>, now: u64, idle: u64) -> Seq<S>
    decreases slots.len(),
{
    if slots.len() == 0 {
        Seq::empty()
    } else {
        let prev = idle_sessions(slots.drop_last(), now, idle);
        if is_idle(slots.last().1.1, now, idle) {
            prev.push(slots.last().1.0)
        } else {
            prev
        }
    }
}

/// Whether a session last used at `last` is idle at `now`.
pub open spec fn is_idle(last: u64, now: u64, idle: u64) -> bool {
    now > last && now - last > idle
}

/// The pause before connection attempt `attempt` (from 0), in milliseconds:
/// none before the first, then 500 ms doubled at each attempt.
pub open spec fn retry_delay(attempt: nat) -> nat {
    if attempt == 0 {
        0
    } else {
        500 * vstd::arithmetic::power2::pow2(attempt)
    }
}

/// Open sessions by key, with the time (seconds) each was last used.
pub struct SshConnectionManager<S> {
    sessions: Vec<(String, (S, u64))>,
    connection_timeout: u64,
    idle_timeout: u64,
    max_retries: u32,
}

impl<S> SshConnectionManager<S> {
    /// The sessions by key, each with its last use.
    pub closed spec fn slots(&self) -> Seq<(Seq<char>, (S, u64))> {
        self.sessions@.map_values(|e: (String, (S, u64))| (e.0@, e.1))
    }

    /// Seconds allowed to connect.
    pub closed spec fn connect_secs(&self) -> u64 {
        self.connection_timeout
    }

    /// Seconds without use after which a session is dropped.
    pub closed spec fn idle_secs(&self) -> u64 {
        self.idle_timeout
    }

    /// Connection attempts before giving up.
    pub closed spec fn retries(&self) -> u32 {
        self.max_retries
    }

    /// One session per key.
    pub open spec fn wf(&self) -> bool {
        distinct_keys(self.slots())
    }

    /// No sessions; 30 seconds to connect, 10 minutes of idleness, three
    /// attempts.
    pub fn new() -> (r: Self)
        ensures
            r.wf(),
            r.slots().len() == 0,
            r.connect_secs() == 30,
            r.idle_secs() == 600,
            r.retries() == 3,
    {
        let r = SshConnectionManager { sessions: Vec::new(), connection_timeout: 30, idle_timeout: 600, max_retries: 3 };
        assert(r.slots() =~= Seq::<(Seq<char>, (S, u64))>::empty());
        r
    }

    /// The manager with other timeouts (seconds).
    pub fn with_timeouts(self, connection_timeout: u64, idle_timeout: u64) -> (r: Self)
        ensures
            r.slots() == self.slots(),
            r.connect_secs() == connection_timeout,
            r.idle_secs() == idle_timeout,
            r.retries() == self.retries(),
    {
        SshConnectionManager { connection_timeout, idle_timeout, ..self }
    }

    /// The manager with another number of attempts.
    pub fn with_max_retries(self, max_retries: u32) -> (r: Self)
        ensures
            r.slots() == self.slots(),
            r.connect_secs() == self.connect_secs(),
            r.idle_secs() == self.idle_secs(),
            r.retries() == max_retries,
    {
        SshConnectionManager { max_retries, ..self }
    }

    /// Seconds allowed to connect.
    pub fn connection_timeout(&self) -> (r: u64)
        ensures
            r == self.connect_secs(),
    {
        self.connection_timeout
    }

    /// Connection attempts before giving up.
    pub fn max_retries(&self) -> (r: u32)
        ensures
            r == self.retries(),
    {
        self.max_retries
    }

    fn position(&self, key: &str) -> (r: Option<usize>)
        requires
            self.wf(),
        ensures
            match r {
                Some(i) => i < self.slots().len() && self.slots()[i as int].0 == key@ && has_key(self.slots(), key@)
                    && key_index(self.slots(), key@) == i,
                None => !has_key(self.slots(), key@),
            },
    {
        let mut i: usize = 0;
        while i < self.sessions.len()
            invariant
                self.wf(),
                i <= self.sessions@.len(),
                forall|j: int| 0 <= j < i ==> self.slots()[j].0 != key@,
            decreases self.sessions@.len() - i,
        {
            if text::str_eq(self.sessions[i].0.as_str(), key) {
                proof {
                    assert(self.slots()[i as int].0 == key@);
                    crate::cache::lemma_key_index(self.slots(), key@, i as int);
                }
                return Some(i);
            }
            i = i + 1;
        }
        None
    }

    /// The session under a key, if one is open.
    pub fn get_session(&self, key: &str) -> (r: Option<&S>)
        requires
            self.wf(),
        ensures
            match lookup(self.slots(), key@) {
                Some(v) => r matches Some(s) && *s == v.0,
                None => r is None,
            },
    {
        match self.position(key) {
            Some(i) => {
                proof {
                    crate::cache::lemma_key_index(self.slots(), key@, i as int);
                }
                Some(&self.sessions[i].1.0)
            },
            None => None,
        }
    }
    /// Records that the session under a key was used at `now`.
    pub fn touch(&mut self, key: &str, now: u64)
        requires
            old(self).wf(),
        ensures
            final(self).wf(),
            final(self).slots() == match lookup(old(self).slots(), key@) {
                Some(v) => insert_key(old(self).slots(), key@, (v.0, now)),
                None => old(self).slots(),
            },
            final(self).connect_secs() == old(self).connect_secs(),
            final(self).idle_secs() == old(self).idle_secs(),
            final(self).retries() == old(self).retries(),
    {
        match self.position(key) {
            Some(i) => {
                proof {
                    crate::cache::lemma_key_index(self.slots(), key@, i as int);
                    crate::cache::lemma_insert_key(self.slots(), key@, (self.slots()[i as int].1.0, now));
                }
                let ghost old_slots = self.slots();
                let (k, (session, _)) = self.sessions.remove(i);
                self.sessions.insert(i, (k, (session, now)));
                assert(self.slots() =~= old_slots.update(i as int, (key@, (old_slots[i as int].1.0, now))));
            },
            None => {},
        }
    }

    /// Keeps a new session under a key (replacing one kept there), used at
    /// `now`.
    pub fn insert_session(&mut self, key: String, session: S, now: u64)
        requires
            old(self).wf(),
        ensures
            final(self).wf(),
            final(self).slots() == insert_key(old(self).slots(), key@, (session, now)),
            final(self).connect_secs() == old(self).connect_secs(),
            final(self).idle_secs() == old(self).idle_secs(),
            final(self).retries() == old(self).retries(),
    {
        let ghost k = key@;
        let ghost old_slots = self.slots();
        proof {
            crate::cache::lemma_insert_key(old_slots, k, (session, now));
        }
        match self.position(key.as_str()) {
            Some(i) => {
                let _ = self.sessions.remove(i);
                self.sessions.insert(i, (key, (session, now)));
                assert(self.slots() =~= old_slots.update(i as int, (k, (session, now))));
            },
            None => {
                self.sessions.push((key, (session, now)));
                assert(self.slots() =~= old_slots.push((k, (session, now))));
            },
        }
    }

    /// Decides between reusing the session kept under a key and connecting
    /// anew, once idle sessions were dropped: a kept session that is still
    /// valid (`valid`, as the caller found it) is reused and marked as used
    /// at `now`; otherwise a new connection is to be made (up to
    /// `retries()` attempts, see `retry_delay_ms`) and kept with
    /// `insert_session`. True when the kept session is reused.
    pub fn reuse_or_connect(&mut self, key: &str, valid: bool, now: u64) -> (r: bool)
        requires
            old(self).wf(),
        ensures
            final(self).wf(),
            r == (lookup(old(self).slots(), key@) is Some && valid),
            r ==> final(self).slots() == insert_key(
                old(self).slots(),
                key@,
                (lookup(old(self).slots(), key@).unwrap().0, now),
            ),
            !r ==> final(self).slots() == old(self).slots(),
            final(self).connect_secs() == old(self).connect_secs(),
            final(self).idle_secs() == old(self).idle_secs(),
            final(self).retries() == old(self).retries(),
    {
        match self.position(key) {
            Some(_) => {
                if valid {
                    self.touch(key, now);
                    true
                } else {
                    false
                }
            },
            None => false,
        }
    }

    /// Drops the sessions idle at `now` and hands them out, in order, to be
    /// closed.
    pub fn cleanup_idle_sessions(&mut self, now: u64) -> (r: Vec<S>)
        requires
            old(self).wf(),
        ensures
            final(self).wf(),
            final(self).slots() == fresh(old(self).slots(), now, old(self).idle_secs()),
            r@ == idle_sessions(old(self).slots(), now, old(self).idle_secs()),
            final(self).connect_secs() == old(self).connect_secs(),
            final(self).idle_secs() == old(self).idle_secs(),
            final(self).retries() == old(self).retries(),
    {
        let ghost s0 = self.slots();
        let idle = self.idle_timeout;
        let mut all: Vec<(String, (S, u64))> = Vec::new();
        std::mem::swap(&mut self.sessions, &mut all);
        let mut kept: Vec<(String, (S, u64))> = Vec::new();
        let mut dropped: Vec<S> = Vec::new();
        let ghost mut done: int = 0;
        assert(s0.subrange(0, 0) =~= Seq::<(Seq<char>, (S, u64))>::empty());
        assert(kept@.map_values(|e: (String, (S, u64))| (e.0@, e.1)) =~= Seq::<(Seq<char>, (S, u64))>::empty());
        assert(all@.map_values(|e: (String, (S, u64))| (e.0@, e.1)) =~= s0.subrange(0, s0.len() as int));
        while all.len() > 0
            invariant
                idle == old(self).idle_secs(),
                0 <= done <= s0.len(),
                all@.map_values(|e: (String, (S, u64))| (e.0@, e.1)) == s0.subrange(done, s0.len() as int),
                kept@.map_values(|e: (String, (S, u64))| (e.0@, e.1)) == fresh(s0.subrange(0, done), now, idle),
                dropped@ == idle_sessions(s0.subrange(0, done), now, idle),
                self.connection_timeout == old(self).connect_secs(),
                self.idle_timeout == old(self).idle_secs(),
                self.max_retries == old(self).retries(),
            decreases all@.len(),
        {
            let ghost before_all = all@.map_values(|e: (String, (S, u64))| (e.0@, e.1));
            let ghost before_kept = kept@.map_values(|e: (String, (S, u64))| (e.0@, e.1));
            assert(before_all.len() > 0);
            assert(before_all[0] == s0[done]);
            let ghost old_all = all@;
            let e = all.remove(0);
            let ghost x = (e.0@, e.1);
            assert(x == before_all[0]);
            assert(all@ =~= old_all.subrange(1, old_all.len() as int));
            let ghost after_all = all@.map_values(|e: (String, (S, u64))| (e.0@, e.1));
            assert forall|i: int| 0 <= i < all@.len() implies #[trigger] after_all[i] == s0.subrange(
                done + 1,
                s0.len() as int,
            )[i] by {
                assert(all@[i] == old_all[i + 1]);
                assert(before_all[i + 1] == s0.subrange(done, s0.len() as int)[i + 1]);
            }
            assert(after_all =~= s0.subrange(done + 1, s0.len() as int));
            assert(s0.subrange(0, done + 1).drop_last() =~= s0.subrange(0, done));
            assert(s0.subrange(0, done + 1).last() == x);
            let (k, (session, last)) = e;
            if now > last && now - last > idle {
                dropped.push(session);
            } else {
                kept.push((k, (session, last)));
                assert(kept@.map_values(|e: (String, (S, u64))| (e.0@, e.1)) =~= before_kept.push(x));
            }
            proof {
                done = done + 1;
            }
        }
        assert(s0.subrange(0, done) =~= s0);
        proof {
            lemma_fresh_distinct(s0, now, idle);
        }
        self.sessions = kept;
        dropped
    }

    /// Closes the session for a user, port and host: it is handed out to be
    /// closed, if it was open.
    pub fn disconnect(&mut self, host: &str, port: u16, username: &str) -> (r: Option<S>)
        requires
            old(self).wf(),
        ensures
            final(self).wf(),
            ({
                let k = session_key(host@, port, username@);
                &&& final(self).slots() == remove_key(old(self).slots(), k)
                &&& match lookup(old(self).slots(), k) {
                    Some(v) => r matches Some(s) && s == v.0,
                    None => r is None,
                }
            }),
            final(self).connect_secs() == old(self).connect_secs(),
            final(self).idle_secs() == old(self).idle_secs(),
            final(self).retries() == old(self).retries(),
    {
        let key = make_session_key(host, port, username);
        let ghost old_slots = self.slots();
        proof {
            crate::cache::lemma_remove_key(old_slots, key@);
        }
        match self.position(key.as_str()) {
            Some(i) => {
                proof {
                    crate::cache::lemma_key_index(old_slots, key@, i as int);
                }
                let (_, (session, _)) = self.sessions.remove(i);
                assert(self.slots() =~= old_slots.remove(i as int));
                Some(session)
            },
            None => None,
        }
    }

    /// Closes every session: all are handed out, in order, to be closed.
    pub fn disconnect_all(&mut self) -> (r: Vec<S>)
        requires
            old(self).wf(),
        ensures
            final(self).wf(),
            final(self).slots().len() == 0,
            r@ == old(self).slots().map_values(|e: (Seq<char>, (S, u64))| e.1.0),
            final(self).connect_secs() == old(self).connect_secs(),
            final(self).idle_secs() == old(self).idle_secs(),
            final(self).retries() == old(self).retries(),
    {
        let ghost s0 = self.slots();
        let mut all: Vec<(String, (S, u64))> = Vec::new();
        std::mem::swap(&mut self.sessions, &mut all);
        let mut out: Vec<S> = Vec::new();
        let ghost mut done: int = 0;
        assert(all@.map_values(|e: (String, (S, u64))| (e.0@, e.1)) =~= s0.subrange(0, s0.len() as int));
        while all.len() > 0
            invariant
                0 <= done <= s0.len(),
                all@.map_values(|e: (String, (S, u64))| (e.0@, e.1)) == s0.subrange(done, s0.len() as int),
                out@ == s0.subrange(0, done).map_values(|e: (Seq<char>, (S, u64))| e.1.0),
                self.sessions@.len() == 0,
                self.connection_timeout == old(self).connect_secs(),
                self.idle_timeout == old(self).idle_secs(),
                self.max_retries == old(self).retries(),
            decreases all@.len(),
        {
            let ghost before_all = all@.map_values(|e: (String, (S, u64))| (e.0@, e.1));
            assert(before_all.len() > 0);
            assert(before_all[0] == s0[done]);
            let ghost old_all = all@;
            let e = all.remove(0);
            let ghost x = (e.0@, e.1);
            assert(x == before_all[0]);
            assert(all@ =~= old_all.subrange(1, old_all.len() as int));
            let ghost after_all = all@.map_values(|e: (String, (S, u64))| (e.0@, e.1));
            assert forall|i: int| 0 <= i < all@.len() implies #[trigger] after_all[i] == s0.subrange(
                done + 1,
                s0.len() as int,
            )[i] by {
                assert(all@[i] == old_all[i + 1]);
                assert(before_all[i + 1] == s0.subrange(done, s0.len() as int)[i + 1]);
            }
            assert(after_all =~= s0.subrange(done + 1, s0.len() as int));
            let (_, (session, _)) = e;
            out.push(session);
            assert(out@ =~= s0.subrange(0, done + 1).map_values(|e: (Seq<char>, (S, u64))| e.1.0));
            proof {
                done = done + 1;
            }
        }
        assert(s0.subrange(0, done) =~= s0);
        assert(self.slots() =~= Seq::<(Seq<char>, (S, u64))>::empty());
        out
    }
}

/// The error when no connection attempt succeeded: the last attempt's error,
/// or a general one where no attempt was made.
pub fn connection_failure(last_error: Option<String>) -> (r: String)
    ensures
        match last_error {
            Some(e) => r == e,
            None => r@ == "Failed to create SSH session"@,
        },
{
    match last_error {
        Some(e) => e,
        None => String::from_str("Failed to create SSH session"),
    }
}

/// The key of the session for a user, port and host.
pub fn make_session_key(host: &str, port: u16, username: &str) -> (r: String)
    ensures
        r@ == session_key(host@, port, username@),
{
    let mut k = String::from_str(username);
    text::push_char(&mut k, ':');
    k.append(text::decimal_string(port as u64).as_str());
    text::push_char(&mut k, '@');
    k.append(host);
    k
}

/// The pause before a connection attempt, in milliseconds.
pub fn retry_delay_ms(attempt: u32) -> (r: u64)
    requires
        attempt <= 55,
    ensures
        r == retry_delay(attempt as nat),
{
    if attempt == 0 {
        0
    } else {
        proof {
            vstd::arithmetic::power2::lemma2_to64();
            vstd::arithmetic::power2::lemma2_to64_rest();
            if attempt < 55 {
                vstd::arithmetic::power2::lemma_pow2_strictly_increases(attempt as nat, 55);
            }
            assert(pow2(attempt as nat) <= pow2(55));
            vstd::bits::lemma_u64_shl_is_mul(1u64, attempt as u64);
        }
        let p: u64 = 1u64 << (attempt as u64);
        500 * p
    }
}

/// Dropping idle sessions keeps one session per key.
proof fn lemma_fresh_distinct<S>(s: Seq<(Seq<char>, (S, u64))>, now: u64, idle: u64)
    requires
        distinct_keys(s),
    ensures
        distinct_keys(fresh(s, now, idle)),
        forall|i: int|
            0 <= i < fresh(s, now, idle).len() ==> exists|j: int| 0 <= j < s.len() && #[trigger] fresh(s, now, idle)[i] == s[j],
    decreases s.len(),
{
    if s.len() > 0 {
        let d = s.drop_last();
        assert(distinct_keys(d)) by {
            assert forall|i: int, j: int| 0 <= i < d.len() && 0 <= j < d.len() && i != j implies #[trigger] d[i].0
                != #[trigger] d[j].0 by {
                assert(d[i] == s[i] && d[j] == s[j]);
            }
        }
        lemma_fresh_distinct(d, now, idle);
        let f = fresh(d, now, idle);
        if !is_idle(s.last().1.1, now, idle) {
            let g = f.push(s.last());
            assert forall|i: int| 0 <= i < g.len() implies exists|j: int| 0 <= j < s.len() && #[trigger] g[i] == s[j] by {
                if i < f.len() {
                    let j = choose|j: int| 0 <= j < d.len() && f[i] == d[j];
                    assert(g[i] == s[j]);
                } else {
                    assert(g[i] == s[s.len() - 1]);
                }
            }
            assert forall|i: int, j: int| 0 <= i < g.len() && 0 <= j < g.len() && i != j implies #[trigger] g[i].0
                != #[trigger] g[j].0 by {
                if i < f.len() && j < f.len() {
                } else if i < f.len() {
                    let a = choose|a: int| 0 <= a < d.len() && f[i] == d[a];
                    assert(s[a] == d[a]);
                    assert(s[a].0 != s[s.len() - 1].0);
                } else if j < f.len() {
                    let a = choose|a: int| 0 <= a < d.len() && f[j] == d[a];
                    assert(s[a] == d[a]);
                    assert(s[a].0 != s[s.len() - 1].0);
                }
            }
        } else {
            assert forall|i: int| 0 <= i < f.len() implies exists|j: int| 0 <= j < s.len() && #[trigger] f[i] == s[j] by {
                let j = choose|j: int| 0 <= j < d.len() && f[i] == d[j];
                assert(f[i] == s[j]);
            }
        }
    }
}

} // verus!
