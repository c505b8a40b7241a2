//! Dispatch bookkeeping shared across guilds: the per-command invocation
//! counter and the per-scope rate-limit buckets.
//!
//! Both values are process-wide. Their operations here are the pure
//! updates; the surrounding runtime is responsible for guarding each
//! value with one lock (or another atomic access discipline) so that
//! concurrently dispatched commands from different guilds apply their
//! updates one at a time.

use std::collections::HashMap;
use vstd::prelude::*;
use crate::protocol::saturating_next;

verus! {

/// The commands the dispatcher routes.
#[derive(Clone, Copy, Debug, PartialEq, Eq, Structural)]
pub enum CommandKind {
    Ping,
    Join,
    Play,
    Skip,
    Pause,
    Resume,
    Stop,
    ClearQueue,
    Leave,
    NowPlaying,
}

/// Monotonically increasing invocation counts, one per command.
///
/// The pre-dispatch hook records every invocation before the command
/// runs; a count sticks at the top of its range rather than wrapping.
pub struct CommandCounter {
    ping: u64,
    join: u64,
    play: u64,
    skip: u64,
    pause: u64,
    resume: u64,
    stop: u64,
    clear_queue: u64,
    leave: u64,
    now_playing: u64,
}

impl CommandCounter {
    /// The count recorded so far for one command.
    pub closed spec fn count_of(self, kind: CommandKind) -> u64 {
        match kind {
            CommandKind::Ping => self.ping,
            CommandKind::Join => self.join,
            CommandKind::Play => self.play,
            CommandKind::Skip => self.skip,
            CommandKind::Pause => self.pause,
            CommandKind::Resume => self.resume,
            CommandKind::Stop => self.stop,
            CommandKind::ClearQueue => self.clear_queue,
            CommandKind::Leave => self.leave,
            CommandKind::NowPlaying => self.now_playing,
        }
    }

    /// All counts start at zero.
    pub fn new() -> (c: CommandCounter)
        ensures
            forall|k: CommandKind| c.count_of(k) == 0,
    {
        CommandCounter {
            ping: 0,
            join: 0,
            play: 0,
            skip: 0,
            pause: 0,
            resume: 0,
            stop: 0,
            clear_queue: 0,
            leave: 0,
            now_playing: 0,
        }
    }

    /// Records one invocation of `kind`; no other command's count moves.
    pub fn record(&mut self, kind: CommandKind)
        ensures
            final(self).count_of(kind) == saturating_next(old(self).count_of(kind)),
            forall|k: CommandKind| k != kind ==> final(self).count_of(k) == old(self).count_of(k),
    {
        match kind {
            CommandKind::Ping => self.ping = next_count(self.ping),
            CommandKind::Join => self.join = next_count(self.join),
            CommandKind::Play => self.play = next_count(self.play),
            CommandKind::Skip => self.skip = next_count(self.skip),
            CommandKind::Pause => self.pause = next_count(self.pause),
            CommandKind::Resume => self.resume = next_count(self.resume),
            CommandKind::Stop => self.stop = next_count(self.stop),
            CommandKind::ClearQueue => self.clear_queue = next_count(self.clear_queue),
            CommandKind::Leave => self.leave = next_count(self.leave),
            CommandKind::NowPlaying => self.now_playing = next_count(self.now_playing),
        }
    }

    /// Reads one command's count.
    pub fn count(&self, kind: CommandKind) -> (n: u64)
        ensures
            n == self.count_of(kind),
    {
        match kind {
            CommandKind::Ping => self.ping,
            CommandKind::Join => self.join,
            CommandKind::Play => self.play,
            CommandKind::Skip => self.skip,
            CommandKind::Pause => self.pause,
            CommandKind::Resume => self.resume,
            CommandKind::Stop => self.stop,
            CommandKind::ClearQueue => self.clear_queue,
            CommandKind::Leave => self.leave,
            CommandKind::NowPlaying => self.now_playing,
        }
    }
}

fn next_count(x: u64) -> (r: u64)
    ensures
        r == saturating_next(x),
{
    if x == u64::MAX {
        x
    } else {
        x + 1
    }
}

/// One scope's rate-limit bookkeeping: how many invocations the current
/// window has seen, when it opened, and whether its first violation has
/// already been announced.
#[derive(Clone, Copy, Debug, PartialEq, Eq, Structural)]
pub struct RateLimitBucket {
    pub window_start: u64,
    pub count: u64,
    pub notified: bool,
}

/// What the dispatcher does with a rate-limited invocation.
#[derive(Clone, Copy, Debug, PartialEq, Eq, Structural)]
pub enum RateDecision {
    /// Within the allowance: dispatch the command.
    Proceed,
    /// The window's first violation: tell the member to retry after this
    /// many clock units.
    Notify { retry_after: u64 },
    /// A repeated violation in the same window: drop it silently.
    Dropped,
}

/// Whether `now` still falls in the bucket's window. A clock reading
/// before the window's start is treated as a fresh window.
pub open spec fn in_window(b: RateLimitBucket, now: u64, window: u64) -> bool {
    now >= b.window_start && now - b.window_start < window
}

/// One invocation against one scope's bucket: the bucket after it, and
/// the decision. An expired or missing bucket restarts at `now`; the
/// count then grows by one, and the first count beyond the limit is
/// announced with the window's remaining time while later ones in the
/// same window are dropped without a word.
pub open spec fn bucket_step(
    b: Option<RateLimitBucket>,
    now: u64,
    limit: u64,
    window: u64,
) -> (RateLimitBucket, RateDecision) {
    let base = match b {
        Some(x) => if in_window(x, now, window) {
            x
        } else {
            RateLimitBucket { window_start: now, count: 0, notified: false }
        },
        None => RateLimitBucket { window_start: now, count: 0, notified: false },
    };
    let grown = saturating_next(base.count);
    if grown <= limit {
        (RateLimitBucket { count: grown, ..base }, RateDecision::Proceed)
    } else if !base.notified {
        (
            RateLimitBucket { count: grown, notified: true, ..base },
            RateDecision::Notify { retry_after: (base.window_start + window - now) as u64 },
        )
    } else {
        (RateLimitBucket { count: grown, ..base }, RateDecision::Dropped)
    }
}

/// Process-wide rate limiting: at most `limit` invocations per scope in
/// any window of `window` clock units.
///
/// The clock is whatever monotonic reading the runtime passes as `now`;
/// scopes are opaque identifiers (a channel, typically).
pub struct RateLimiter {
    limit: u64,
    window: u64,
    buckets: HashMap<u64, RateLimitBucket>,
}

impl RateLimiter {
    /// The configured allowance per window.
    pub closed spec fn spec_limit(self) -> u64 {
        self.limit
    }

    /// The configured window length.
    pub closed spec fn spec_window(self) -> u64 {
        self.window
    }

    /// The bucket a scope currently has, if any.
    pub closed spec fn bucket_of(self, scope: u64) -> Option<RateLimitBucket> {
        if self.buckets@.contains_key(scope) {
            Some(self.buckets@[scope])
        } else {
            None
        }
    }

    /// A limiter with no scope on record yet.
    pub fn new(limit: u64, window: u64) -> (r: RateLimiter)
        ensures
            r.spec_limit() == limit,
            r.spec_window() == window,
            forall|s: u64| r.bucket_of(s) is None,
    {
        RateLimiter { limit, window, buckets: HashMap::new() }
    }

    /// Applies one invocation of `scope` at clock reading `now` and says
    /// what to do with it; no other scope's bucket moves.
    pub fn check(&mut self, scope: u64, now: u64) -> (d: RateDecision)
        ensures
            final(self).spec_limit() == old(self).spec_limit(),
            final(self).spec_window() == old(self).spec_window(),
            ({
                let (b2, decision) = bucket_step(
                    old(self).bucket_of(scope),
                    now,
                    old(self).spec_limit(),
                    old(self).spec_window(),
                );
                &&& d == decision
                &&& final(self).bucket_of(scope) == Some(b2)
            }),
            forall|s: u64| s != scope ==> final(self).bucket_of(s) == old(self).bucket_of(s),
    {
        let base = match self.buckets.get(&scope) {
            Some(b) => {
                let b = *b;
                if now >= b.window_start && now - b.window_start < self.window {
                    b
                } else {
                    RateLimitBucket { window_start: now, count: 0, notified: false }
                }
            },
            None => RateLimitBucket { window_start: now, count: 0, notified: false },
        };
        let grown = next_count(base.count);
        if grown <= self.limit {
            self.buckets.insert(scope, RateLimitBucket { count: grown, ..base });
            RateDecision::Proceed
        } else if !base.notified {
            let retry_after = self.window - (now - base.window_start);
            self.buckets.insert(
                scope,
                RateLimitBucket { count: grown, notified: true, ..base },
            );
            RateDecision::Notify { retry_after }
        } else {
            self.buckets.insert(scope, RateLimitBucket { count: grown, ..base });
            RateDecision::Dropped
        }
    }
}

} // verus!
