//! Package installation: the command that populates the staging root, and
//! the bounded exponential-backoff retry loop around it. The loop itself is a
//! state machine: the caller runs the command, hands the outcome back, and is
//! told to stop, to sleep and try again, or to give up — so the decision
//! logic is independent of the clock and of the command.

use vstd::prelude::*;
use vstd::string::*;
use crate::command::{Cmd, CmdView, host_cmd, cmd_new};

verus! {

/// The command installing `pkgs` into the staging root.
pub open spec fn spec_install_cmd(pkgs: Seq<Seq<char>>) -> CmdView {
    host_cmd("pacstrap"@, seq!["/mnt"@] + pkgs)
}

/// One planned package installation: the command, and whether its failures
/// are retried and then escalated through the fatal policy (`retry`), or
/// tolerated after a single attempt under the soft policy.
pub struct InstallPlan {
    pub cmd: Cmd,
    pub retry: bool,
}

/// Plan the installation of `pkgs` into the staging root. When
/// `attempt_retries` holds, the command is to be retried under
/// [`RetryState::new`] and a final failure is fatal; otherwise it runs once
/// and a failure is only logged.
pub fn install(pkgs: Vec<String>, attempt_retries: bool) -> (p: InstallPlan)
    ensures
        p.cmd@ == spec_install_cmd(pkgs.deep_view()),
        p.retry == attempt_retries,
{
    let ghost pk = pkgs.deep_view();
    let mut args: Vec<String> = Vec::new();
    args.push(String::from_str("/mnt"));
    let mut rest = pkgs;
    args.append(&mut rest);
    proof {
        assert(args.deep_view() =~~= seq!["/mnt"@] + pk);
    }
    InstallPlan { cmd: cmd_new(false, "pacstrap", args), retry: attempt_retries }
}

/// What the retry loop does after one attempt.
#[derive(Debug, Clone, Copy, PartialEq, Eq, Structural)]
pub enum RetryStep {
    /// The attempt succeeded: stop and report success.
    Done,
    /// The attempt failed and attempts remain: sleep this many seconds and
    /// try again.
    Sleep(u64),
    /// The attempt failed and no attempts remain: stop and report the
    /// failure.
    GiveUp,
}

/// Doubling that stops at the largest representable delay.
pub open spec fn spec_double(d: nat) -> nat {
    if 2 * d <= u64::MAX {
        2 * d
    } else {
        u64::MAX as nat
    }
}

/// The retry loop's state: how many attempts are left, and the delay slept
/// before the next one.
pub struct RetryState {
    pub attempts_left: u32,
    pub delay_secs: u64,
}

impl RetryState {
    /// A retry loop with the given bounds.
    pub fn with(attempts: u32, delay_secs: u64) -> (s: Self)
        ensures
            s.attempts_left == attempts,
            s.delay_secs == delay_secs,
    {
        Self { attempts_left: attempts, delay_secs }
    }

    /// The package installer's retry policy: up to 3 total attempts, with
    /// delays doubling from 1 second.
    pub fn new() -> (s: Self)
        ensures
            s.attempts_left == 3,
            s.delay_secs == 1,
    {
        Self::with(3, 1)
    }

    /// Feed the outcome of one attempt. Success stops the loop at once; a
    /// failure either asks the caller to sleep the current delay (doubling it
    /// for the next round) or, on the last attempt, gives up.
    pub fn on_outcome(&mut self, succeeded: bool) -> (d: RetryStep)
        ensures
            succeeded ==> d == RetryStep::Done && *final(self) == *old(self),
            !succeeded && old(self).attempts_left > 1 ==> {
                &&& d == RetryStep::Sleep(old(self).delay_secs)
                &&& final(self).attempts_left == old(self).attempts_left - 1
                &&& final(self).delay_secs == spec_double(old(self).delay_secs as nat)
            },
            !succeeded && old(self).attempts_left <= 1 ==> d == RetryStep::GiveUp && *final(self)
                == *old(self),
    {
        if succeeded {
            RetryStep::Done
        } else if self.attempts_left > 1 {
            let d = self.delay_secs;
            self.attempts_left = self.attempts_left - 1;
            self.delay_secs = if self.delay_secs <= u64::MAX / 2 {
                self.delay_secs * 2
            } else {
                u64::MAX
            };
            RetryStep::Sleep(d)
        } else {
            RetryStep::GiveUp
        }
    }
}

/// The trace of a retry run against a fixed sequence of attempt outcomes.
#[verifier::ext_equal]
pub ghost struct RetryTrace {
    pub attempts: nat,
    pub delays: Seq<u64>,
    pub succeeded: bool,
}

/// The trace of running up to `attempts_left` attempts whose outcomes are
/// `outcomes[0]`, `outcomes[1]`, ...: the first success stops the run, each
/// failure but the last sleeps the current delay and doubles it, and the
/// last allowed failure gives up.
pub open spec fn spec_retry_trace(outcomes: Seq<bool>, attempts_left: nat, delay: u64) -> RetryTrace
    decreases outcomes.len(),
{
    if outcomes.len() == 0 || attempts_left == 0 {
        RetryTrace { attempts: 0, delays: Seq::<u64>::empty(), succeeded: false }
    } else if outcomes[0] {
        RetryTrace { attempts: 1, delays: Seq::<u64>::empty(), succeeded: true }
    } else if attempts_left == 1 {
        RetryTrace { attempts: 1, delays: Seq::<u64>::empty(), succeeded: false }
    } else {
        let rest = spec_retry_trace(
            outcomes.drop_first(),
            (attempts_left - 1) as nat,
            spec_double(delay as nat) as u64,
        );
        RetryTrace {
            attempts: 1 + rest.attempts,
            delays: seq![delay] + rest.delays,
            succeeded: rest.succeeded,
        }
    }
}

/// What a finished retry run reports.
pub struct RetryRun {
    pub attempts: usize,
    pub delays: Vec<u64>,
    pub succeeded: bool,
}

/// Drive a whole retry run against a fixed sequence of attempt outcomes —
/// the retry loop with the command and the clock injected, as used by the
/// tests; the unverified shell drives [`RetryState`] against the real
/// command instead. `outcomes[k]` is whether attempt `k + 1` would succeed;
/// when the outcomes run short the run simply stops, unsuccessful.
#[verifier::loop_isolation(false)]
pub fn run_retry(outcomes: &Vec<bool>, attempts: u32, first_delay: u64) -> (r: RetryRun)
    ensures
        ({
            let t = spec_retry_trace(outcomes@, attempts as nat, first_delay);
            &&& r.attempts == t.attempts
            &&& r.delays@ == t.delays
            &&& r.succeeded == t.succeeded
        }),
{
    let mut st = RetryState::with(attempts, first_delay);
    let mut delays: Vec<u64> = Vec::new();
    let mut i: usize = 0;
    let ghost full = spec_retry_trace(outcomes@, attempts as nat, first_delay);
    proof {
        assert(outcomes@.skip(0) =~= outcomes@);
        assert(full.delays =~= delays@ + full.delays);
    }
    loop
        invariant
            i <= outcomes@.len(),
            i == delays@.len(),
            ({
                let rest = spec_retry_trace(
                    outcomes@.skip(i as int),
                    st.attempts_left as nat,
                    st.delay_secs,
                );
                &&& full.attempts == i + rest.attempts
                &&& full.delays == delays@ + rest.delays
                &&& full.succeeded == rest.succeeded
            }),
        decreases outcomes@.len() - i,
    {
        let ghost rest = spec_retry_trace(
            outcomes@.skip(i as int),
            st.attempts_left as nat,
            st.delay_secs,
        );
        if i >= outcomes.len() || st.attempts_left == 0 {
            proof {
                assert(rest.attempts == 0);
                assert(full.delays =~= delays@);
            }
            return RetryRun { attempts: i, delays, succeeded: false };
        }
        let ok = outcomes[i];
        proof {
            assert(outcomes@.skip(i as int)[0] == outcomes@[i as int]);
        }
        match st.on_outcome(ok) {
            RetryStep::Done => {
                proof {
                    assert(rest.attempts == 1 && rest.succeeded);
                    assert(full.delays =~= delays@);
                }
                return RetryRun { attempts: i + 1, delays, succeeded: true };
            },
            RetryStep::GiveUp => {
                proof {
                    assert(rest.attempts == 1 && !rest.succeeded);
                    assert(full.delays =~= delays@);
                }
                return RetryRun { attempts: i + 1, delays, succeeded: false };
            },
            RetryStep::Sleep(d) => {
                delays.push(d);
                proof {
                    assert(outcomes@.skip(i + 1int) =~= outcomes@.skip(i as int).drop_first());
                    assert(full.delays =~= delays@ + spec_retry_trace(
                        outcomes@.skip(i + 1int),
                        st.attempts_left as nat,
                        st.delay_secs,
                    ).delays);
                }
                i += 1;
            },
        }
    }
}

/// Law: a retry run never makes more attempts than the bound allows.
pub proof fn lemma_retry_bounded(outcomes: Seq<bool>, attempts: nat, delay: u64)
    ensures
        spec_retry_trace(outcomes, attempts, delay).attempts <= attempts,
    decreases outcomes.len(),
{
    if outcomes.len() > 0 && attempts > 1 && !outcomes[0] {
        lemma_retry_bounded(
            outcomes.drop_first(),
            (attempts - 1) as nat,
            spec_double(delay as nat) as u64,
        );
    }
}

/// Law: against a command that always fails, the retry run makes exactly as
/// many attempts as the bound allows and does not succeed — the failure is
/// escalated (to the fatal policy) instead of a success being returned.
pub proof fn lemma_retry_exhausts_attempts(outcomes: Seq<bool>, attempts: nat, delay: u64)
    requires
        attempts >= 1,
        outcomes.len() >= attempts,
        forall|k: int| 0 <= k < outcomes.len() ==> !outcomes[k],
    ensures
        spec_retry_trace(outcomes, attempts, delay).attempts == attempts,
        !spec_retry_trace(outcomes, attempts, delay).succeeded,
    decreases attempts,
{
    if attempts > 1 {
        lemma_retry_exhausts_attempts(
            outcomes.drop_first(),
            (attempts - 1) as nat,
            spec_double(delay as nat) as u64,
        );
    }
}

/// Law: the first success ends the run at once — against a command that
/// fails `k` times and then succeeds, the run makes exactly `k + 1` attempts
/// and succeeds, sleeping after each failure.
pub proof fn lemma_retry_first_success(outcomes: Seq<bool>, attempts: nat, delay: u64, k: int)
    requires
        0 <= k < attempts,
        k < outcomes.len(),
        forall|j: int| 0 <= j < k ==> !outcomes[j],
        outcomes[k],
    ensures
        spec_retry_trace(outcomes, attempts, delay).attempts == k + 1,
        spec_retry_trace(outcomes, attempts, delay).succeeded,
        spec_retry_trace(outcomes, attempts, delay).delays.len() == k,
    decreases k,
{
    if k > 0 {
        lemma_retry_first_success(
            outcomes.drop_first(),
            (attempts - 1) as nat,
            spec_double(delay as nat) as u64,
            k - 1,
        );
    }
}

} // verus!
