//! Session timer: a two-state machine (`Active` work period, `Inactive`
//! break period) advanced once per new-window event as a function of elapsed
//! wall-clock seconds and of the lock-file flag.
//!
//! Precedence rule: the external lock-file flag always wins. While the flag
//! reports the sentinel file present, the state is held `Active` (entering
//! `Active` resets the period start); with the flag absent, the elapsed-time
//! rules apply: `Active` ends once `work_duration` has elapsed, `Inactive`
//! ends once `break_duration` has elapsed, and every transition resets the
//! period start. At most one transition happens per check. A host that runs
//! no lock-file monitor passes `false` for the flag and gets the pure timer.

use vstd::prelude::*;

use crate::matcher::is_blacklisted;
use crate::matcher::spec_is_blacklisted;

verus! {

/// The session-gated window filter's persistent state: the hook owns one
/// instance and mutates it only on the host's event-loop thread.
pub struct PomodoroBlackList {
    /// True during a work period, false during a break.
    pub active: bool,
    /// Timestamp, in whole seconds of the host's clock, of the last state
    /// transition.
    pub period_start: u64,
    /// Configured length of a work period, in seconds.
    pub work_duration: u64,
    /// Configured length of a break period, in seconds.
    pub break_duration: u64,
    /// Window classes and titles to terminate during a work period;
    /// immutable after construction.
    pub kill_list: Vec<String>,
}

impl PomodoroBlackList {
    /// Seconds elapsed since the last transition; a clock reading earlier
    /// than the recorded period start counts as zero elapsed time rather
    /// than an underflow.
    pub open spec fn spec_elapsed(self, now: u64) -> int {
        if now >= self.period_start {
            now - self.period_start
        } else {
            0
        }
    }

    /// Length of the period the state machine is currently in.
    pub open spec fn current_duration(self) -> u64 {
        if self.active {
            self.work_duration
        } else {
            self.break_duration
        }
    }

    /// Whether one check at time `now`, with the lock-file flag reading
    /// `flag`, fires a transition. The flag wins: present, it forces
    /// `Inactive` into `Active` and holds `Active`; absent, a period ends
    /// exactly when its configured duration has elapsed.
    pub open spec fn spec_transitions(self, now: u64, flag: bool) -> bool {
        if flag {
            !self.active
        } else {
            self.spec_elapsed(now) >= self.current_duration()
        }
    }

    /// The `active` field after one check.
    pub open spec fn spec_next_active(self, now: u64, flag: bool) -> bool {
        if self.spec_transitions(now, flag) {
            !self.active
        } else {
            self.active
        }
    }

    /// The `period_start` field after one check: every transition resets it
    /// to the time of the check.
    pub open spec fn spec_next_period_start(self, now: u64, flag: bool) -> u64 {
        if self.spec_transitions(now, flag) {
            now
        } else {
            self.period_start
        }
    }

    /// Builds the hook state. The session starts `Inactive` unless the
    /// sentinel file is already present at construction time.
    pub fn new(
        kill_list: Vec<String>,
        work_duration: u64,
        break_duration: u64,
        lock_present: bool,
        now: u64,
    ) -> (s: Self)
        ensures
            s.active == lock_present,
            s.period_start == now,
            s.work_duration == work_duration,
            s.break_duration == break_duration,
            s.kill_list == kill_list,
    {
        PomodoroBlackList {
            active: lock_present,
            period_start: now,
            work_duration,
            break_duration,
            kill_list,
        }
    }

    /// Replaces the configured durations; the host calls this when it
    /// reloads its configuration on a period boundary.
    pub fn set_durations(&mut self, work_duration: u64, break_duration: u64)
        ensures
            final(self).work_duration == work_duration,
            final(self).break_duration == break_duration,
            final(self).active == old(self).active,
            final(self).period_start == old(self).period_start,
            final(self).kill_list == old(self).kill_list,
    {
        self.work_duration = work_duration;
        self.break_duration = break_duration;
    }

    /// One new-window check: advances the state machine by at most one
    /// transition and decides whether the window described by `class` and
    /// `title` is to be terminated — exactly when the period is `Active`
    /// after the check and the window is on the kill list.
    pub fn new_client(
        &mut self,
        now: u64,
        lock_file_exists: bool,
        class: &String,
        title: &String,
    ) -> (kill: bool)
        ensures
            final(self).active == old(self).spec_next_active(now, lock_file_exists),
            final(self).period_start == old(self).spec_next_period_start(
                now,
                lock_file_exists,
            ),
            final(self).work_duration == old(self).work_duration,
            final(self).break_duration == old(self).break_duration,
            final(self).kill_list == old(self).kill_list,
            kill == (final(self).active && spec_is_blacklisted(
                class@,
                title@,
                old(self).kill_list@,
            )),
    {
        let elapsed = self.elapsed_seconds(now);
        let duration = if self.active {
            self.work_duration
        } else {
            self.break_duration
        };
        if lock_file_exists {
            if !self.active {
                self.active = true;
                self.period_start = now;
            }
        } else {
            if elapsed >= duration {
                self.active = !self.active;
                self.period_start = now;
            }
        }
        self.active && is_blacklisted(class, title, &self.kill_list)
    }

    /// Seconds elapsed since the last transition, clamped at zero.
    pub fn elapsed_seconds(&self, now: u64) -> (e: u64)
        ensures
            e == self.spec_elapsed(now),
    {
        if now >= self.period_start {
            now - self.period_start
        } else {
            0
        }
    }

    /// Seconds the current period still has to run, clamped at zero once
    /// the period has run out (a negative remainder is not an error).
    pub fn seconds_left(&self, now: u64) -> (left: u64)
        ensures
            left == if self.spec_elapsed(now) >= self.current_duration() {
                0int
            } else {
                self.current_duration() - self.spec_elapsed(now)
            },
    {
        let elapsed = self.elapsed_seconds(now);
        let duration = if self.active {
            self.work_duration
        } else {
            self.break_duration
        };
        if elapsed >= duration {
            0
        } else {
            duration - elapsed
        }
    }
}

/// A work period runs its full configured length and no longer: with the
/// lock-file flag absent, a check at elapsed time `e` keeps an `Active`
/// timer `Active` exactly while `e < work_duration`, and the first check at
/// `e >= work_duration` moves it to `Inactive`.
pub proof fn lemma_active_until_work_elapses(s: PomodoroBlackList, now: u64)
    requires
        s.active,
    ensures
        s.spec_elapsed(now) < s.work_duration ==> s.spec_next_active(now, false)
            && s.spec_next_period_start(now, false) == s.period_start,
        s.spec_elapsed(now) >= s.work_duration ==> !s.spec_next_active(now, false)
            && s.spec_next_period_start(now, false) == now,
{
}

/// Symmetrically, a break period runs its full configured length and no
/// longer: with the flag absent, an `Inactive` timer stays `Inactive`
/// exactly while `e < break_duration`, and the first check at
/// `e >= break_duration` moves it to `Active`.
pub proof fn lemma_inactive_until_break_elapses(s: PomodoroBlackList, now: u64)
    requires
        !s.active,
    ensures
        s.spec_elapsed(now) < s.break_duration ==> !s.spec_next_active(now, false)
            && s.spec_next_period_start(now, false) == s.period_start,
        s.spec_elapsed(now) >= s.break_duration ==> s.spec_next_active(now, false)
            && s.spec_next_period_start(now, false) == now,
{
}

/// The external signal wins: a flag reading "present" while the timer is
/// `Inactive` forces the very next check to `Active` and resets the period
/// start to the time of that check, whatever time has elapsed.
pub proof fn lemma_flag_forces_active(s: PomodoroBlackList, now: u64)
    requires
        !s.active,
    ensures
        s.spec_next_active(now, true),
        s.spec_next_period_start(now, true) == now,
{
}

} // verus!
