//! The refresh loop's state machine.
//!
//! One control thread owns the daemon state and blocks on whichever wake
//! event arrives first — the expiration timer or the file watcher.  The
//! decisions of that loop stand here as verified functions from state and
//! event to next state and action; the surrounding process performs the
//! login, writes the token file, and arms the real timer as decided.

use crate::client::{decode_failure_detail, exp_claim_of, AuthenticationToken};
use crate::error::Error;
use vstd::prelude::*;

verus! {

/// The kind of a filesystem event observed on the token file.
///
/// Only `Remove` triggers a refresh; every other kind is observed and
/// deliberately discarded.
#[derive(Clone, Copy, Debug, PartialEq, Eq, Structural)]
pub enum FsEventKind {
    /// An unclassified change notification.
    Any,
    /// The file was read or its metadata accessed.
    Access,
    /// A file was created at the watched path.
    Create,
    /// The file's contents or metadata changed.
    Modify,
    /// The file was removed.
    Remove,
    /// A backend-specific event of no interest here.
    Other,
}

/// An ephemeral wake signal, consumed exactly once by the refresh loop.
#[derive(Clone, Copy, Debug, PartialEq, Eq, Structural)]
pub enum WakeEvent {
    /// The expiration timer elapsed.
    ExpirationFired,
    /// The file watcher reported an event of the given kind on the token
    /// path.
    FileEvent(FsEventKind),
}

/// What the loop does with a wake event.
#[derive(Clone, Copy, Debug, PartialEq, Eq, Structural)]
pub enum Action {
    /// Perform one refresh cycle.
    Refresh,
    /// Discard the event and keep waiting.
    Ignore,
}

/// The one-shot countdown keyed to the current token's expiry.
#[derive(Clone, Copy, Debug, PartialEq, Eq, Structural)]
pub enum TimerSetting {
    /// A wake fires after this many seconds.
    Armed {
        /// Seconds until the wake fires.
        duration_secs: u64,
    },
    /// No wake will fire; the next refresh is left to an external signal.
    Never,
}

/// The live lifecycle state of the singleton daemon.
#[derive(Debug)]
pub enum DaemonState {
    /// No token has been obtained yet.
    Uninitialized,
    /// The token considered current (not necessarily unexpired at the
    /// instant of observation; consumers re-check).
    Active(AuthenticationToken),
}

/// What one successful refresh cycle hands back to the surrounding process:
/// the exact string to write to the token file, and the timer setting to
/// arm.
#[derive(Debug)]
pub struct RefreshOutcome {
    /// The exact token string to persist; the file's contents must equal it
    /// byte for byte.
    pub contents: String,
    /// The timer setting computed from the token's expiry.
    pub timer: TimerSetting,
}

/// The timer setting for a token expiring at `exp`, as seen at `now` (both
/// in seconds since the Unix epoch): a countdown of the remaining seconds,
/// or never when the expiry is already past or the distance is not
/// representable.
pub open spec fn timer_for(exp: int, now: int) -> TimerSetting {
    if now < exp && exp - now <= i64::MAX {
        TimerSetting::Armed { duration_secs: (exp - now) as u64 }
    } else {
        TimerSetting::Never
    }
}

/// Whether a wake event triggers a refresh cycle: expiration always does; a
/// file event does exactly when it reports a removal.
pub open spec fn triggers_refresh(w: WakeEvent) -> bool {
    match w {
        WakeEvent::ExpirationFired => true,
        WakeEvent::FileEvent(k) => k is Remove,
    }
}

/// Relies on std::time::SystemTime::now to read the wall clock, handed back
/// as an offset from the Unix epoch: whole seconds, and whether the clock
/// lies before the epoch.  The body only branches on the outside result —
/// `duration_since(UNIX_EPOCH)` reports a clock before the epoch as its
/// `Err` arm — so it is total: no clock setting makes it panic.  Nothing
/// can be promised of a clock reading.
#[verifier::external_body]
fn clock_epoch_offset() -> (r: (bool, u64)) {
    match std::time::SystemTime::now().duration_since(std::time::UNIX_EPOCH) {
        Ok(since) => (false, since.as_secs()),
        Err(before) => (true, before.duration().as_secs()),
    }
}

/// The wall clock as signed seconds since the Unix epoch: negative when the
/// clock lies before it, saturated at the ends of `i64`'s range.
fn now_unix_secs() -> i64 {
    let (before_epoch, secs) = clock_epoch_offset();
    if before_epoch {
        if secs <= i64::MAX as u64 {
            -(secs as i64)
        } else {
            i64::MIN
        }
    } else {
        if secs <= i64::MAX as u64 {
            secs as i64
        } else {
            i64::MAX
        }
    }
}

/// The central state machine: exclusively owned by the one control thread
/// that runs the loop, never shared or aliased.
pub struct RefreshLoop {
    /// The daemon's lifecycle state.
    pub state: DaemonState,
    /// The countdown currently armed, as last decided.
    pub timer: TimerSetting,
}

impl RefreshLoop {
    /// An active token always carries a decodable expiration claim: a
    /// refresh only succeeds after its claim was decoded.
    pub open spec fn wf(self) -> bool {
        self.state matches DaemonState::Active(t) ==> exp_claim_of(t.token@) is Some
    }

    /// `self` with only the timer replaced, as an arming at `now` for a
    /// token expiring at `exp` leaves it.
    pub open spec fn rearmed(self, exp: int, now: int) -> RefreshLoop {
        RefreshLoop { timer: timer_for(exp, now), ..self }
    }

    /// The loop after a successful refresh that obtained `t`, whose claim
    /// decoded to `exp`, as seen at `now`: the new token is active and the
    /// timer is re-armed; nothing of the previous state survives.
    pub open spec fn refreshed_with(self, t: AuthenticationToken, exp: int, now: int) -> RefreshLoop {
        RefreshLoop { state: DaemonState::Active(t), timer: timer_for(exp, now) }
    }

    /// A fresh loop: no token yet, no timer armed.
    pub fn new() -> (r: RefreshLoop)
        ensures
            r.state is Uninitialized,
            r.timer is Never,
            r.wf(),
    {
        RefreshLoop { state: DaemonState::Uninitialized, timer: TimerSetting::Never }
    }

    /// A read-only view of the currently active token, if any.
    pub fn current(&self) -> (r: Option<&AuthenticationToken>)
        ensures
            match self.state {
                DaemonState::Active(t) => r matches Option::Some(c) && *c == t,
                DaemonState::Uninitialized => r is None,
            },
    {
        match &self.state {
            DaemonState::Active(t) => Option::Some(t),
            DaemonState::Uninitialized => Option::None,
        }
    }

    /// Whether the token file was removed, or some other event happened.
    pub fn is_remove(&self, kind: FsEventKind) -> (r: bool)
        ensures
            r == (kind is Remove),
    {
        match kind {
            FsEventKind::Remove => true,
            _ => false,
        }
    }

    /// Decides what a delivered file event means: a removal asks for a
    /// refresh, anything else is discarded; a failed delivery is fatal.
    pub fn handle_token_file_event(&self, event: Result<FsEventKind, Error>) -> (r: Result<
        Action,
        Error,
    >)
        ensures
            match event {
                Result::Ok(k) => r == Result::<Action, Error>::Ok(
                    if k is Remove {
                        Action::Refresh
                    } else {
                        Action::Ignore
                    },
                ),
                Result::Err(e) => r == Result::<Action, Error>::Err(e),
            },
    {
        match event {
            Result::Ok(kind) => {
                if self.is_remove(kind) {
                    Result::Ok(Action::Refresh)
                } else {
                    Result::Ok(Action::Ignore)
                }
            },
            Result::Err(e) => Result::Err(e),
        }
    }

    /// Decides what one wake means, whichever source it came from: both
    /// triggers lead to the identical refresh decision, and one wake yields
    /// exactly one action.  A failed delivery is fatal.
    pub fn dispatch(&self, wake: Result<WakeEvent, Error>) -> (r: Result<Action, Error>)
        ensures
            match wake {
                Result::Ok(w) => r == Result::<Action, Error>::Ok(
                    if triggers_refresh(w) {
                        Action::Refresh
                    } else {
                        Action::Ignore
                    },
                ),
                Result::Err(e) => r == Result::<Action, Error>::Err(e),
            },
    {
        match wake {
            Result::Ok(WakeEvent::ExpirationFired) => Result::Ok(Action::Refresh),
            Result::Ok(WakeEvent::FileEvent(kind)) => self.handle_token_file_event(
                Result::Ok(kind),
            ),
            Result::Err(e) => Result::Err(e),
        }
    }

    /// Arms the one-shot expiration countdown for a token expiring at `exp`,
    /// as seen at `now`.  An expiry at or before `now`, or one whose
    /// distance is unrepresentable, arms nothing: the timer becomes
    /// permanently non-firing and the next refresh is left to an external
    /// signal.  A later arming fully supersedes an earlier one.
    pub fn set_token_expiration_timer(&mut self, exp: i64, now: i64)
        ensures
            *final(self) == old(self).rearmed(exp as int, now as int),
    {
        self.timer = match exp.checked_sub(now) {
            Option::Some(d) => if d > 0 {
                TimerSetting::Armed { duration_secs: d as u64 }
            } else {
                TimerSetting::Never
            },
            Option::None => TimerSetting::Never,
        };
    }

    /// One refresh cycle, applied to the outcome of a login call and the
    /// clock reading `now`: a successful login whose token's claim decodes
    /// activates the token, re-arms the timer, and hands back the exact
    /// string to persist.  Any failure — the login itself, or a claim that
    /// does not decode — is fatal and leaves the loop untouched, so nothing
    /// gets persisted.
    pub fn refresh_token(&mut self, login: Result<AuthenticationToken, Error>, now: i64) -> (r:
        Result<RefreshOutcome, Error>)
        ensures
            match login {
                Result::Ok(t) => match exp_claim_of(t.token@) {
                    Option::Some(exp) => {
                        &&& r matches Result::Ok(o) && o.contents@ == t.token@ && o.timer
                            == timer_for(exp, now as int)
                        &&& *final(self) == old(self).refreshed_with(t, exp, now as int)
                    },
                    Option::None => {
                        &&& r matches Result::Err(e) && e matches Error::Jwt(m) && m@ == decode_failure_detail()
                        &&& *final(self) == *old(self)
                    },
                },
                Result::Err(e) => r == Result::<RefreshOutcome, Error>::Err(e) && *final(self)
                    == *old(self),
            },
            old(self).wf() ==> final(self).wf(),
    {
        match login {
            Result::Ok(t) => {
                match t.claim() {
                    Result::Ok(c) => {
                        let contents = t.token.clone();
                        self.state = DaemonState::Active(t);
                        self.set_token_expiration_timer(c.exp, now);
                        Result::Ok(RefreshOutcome { contents, timer: self.timer })
                    },
                    Result::Err(e) => Result::Err(e),
                }
            },
            Result::Err(e) => Result::Err(e),
        }
    }

    /// The refresh cycle as the daemon runs it, against the real clock: the
    /// same contract as `refresh_token`, with the timer computed at some
    /// clock reading.
    pub fn refresh_token_now(&mut self, login: Result<AuthenticationToken, Error>) -> (r: Result<
        RefreshOutcome,
        Error,
    >)
        ensures
            match login {
                Result::Ok(t) => match exp_claim_of(t.token@) {
                    Option::Some(exp) => {
                        &&& r matches Result::Ok(o) && o.contents@ == t.token@ && o.timer
                            == final(self).timer
                        &&& final(self).state == DaemonState::Active(t)
                        &&& exists|n: int| *final(self) == old(self).refreshed_with(t, exp, n)
                    },
                    Option::None => {
                        &&& r matches Result::Err(e) && e matches Error::Jwt(m) && m@ == decode_failure_detail()
                        &&& *final(self) == *old(self)
                    },
                },
                Result::Err(e) => r == Result::<RefreshOutcome, Error>::Err(e) && *final(self)
                    == *old(self),
            },
            old(self).wf() ==> final(self).wf(),
    {
        let now = now_unix_secs();
        let ghost pre = *self;
        let ghost glogin = login;
        let r = self.refresh_token(login, now);
        proof {
            if let Result::Ok(t) = glogin {
                if let Option::Some(exp) = exp_claim_of(t.token@) {
                    assert(*self == pre.refreshed_with(t, exp, now as int));
                }
            }
        }
        r
    }
}

/// One iteration of the daemon loop, as its model sees it: what the
/// multiplexed wait handed back, what the login call returns when this wake
/// triggers a refresh (consulted only then), and the clock reading at the
/// instant the wake is serviced.
#[derive(Debug)]
pub struct LoopEvent {
    /// The wake delivered, or the channel failure that ended delivery.
    pub wake: Result<WakeEvent, Error>,
    /// The login outcome, consumed only when the wake triggers a refresh.
    pub login: Result<AuthenticationToken, Error>,
    /// The clock reading when the wake is serviced, in Unix seconds.
    pub now: i64,
}

/// Whether the event's wake asks for a refresh cycle.
pub open spec fn wake_triggers(e: LoopEvent) -> bool {
    e.wake matches Result::Ok(w) && triggers_refresh(w)
}

/// Whether the event's login outcome carries a token whose claim decodes.
pub open spec fn login_decodes(e: LoopEvent) -> bool {
    e.login matches Result::Ok(t) && exp_claim_of(t.token@) is Some
}

/// Whether servicing the event ends the loop: its wake was a failed
/// delivery, or it triggers a refresh whose login fails or whose token's
/// claim does not decode.
pub open spec fn event_fatal(e: LoopEvent) -> bool {
    ||| e.wake is Err
    ||| wake_triggers(e) && !login_decodes(e)
}

/// What one serviced, triggering event persists and arms: the exact token
/// string, and the timer computed from its claim at the event's clock
/// reading.
pub open spec fn refresh_entry(e: LoopEvent) -> (Seq<char>, TimerSetting)
    recommends
        wake_triggers(e) && login_decodes(e),
{
    let t = e.login->Ok_0;
    (t.token@, timer_for(exp_claim_of(t.token@)->Some_0, e.now as int))
}

/// The refresh log of a schedule of events: one entry per serviced
/// triggering wake, in service order.
pub open spec fn refresh_log(events: Seq<LoopEvent>) -> Seq<(Seq<char>, TimerSetting)>
    decreases events.len(),
{
    if events.len() == 0 {
        Seq::empty()
    } else {
        let rest = refresh_log(events.drop_last());
        let e = events.last();
        if wake_triggers(e) && login_decodes(e) {
            rest.push(refresh_entry(e))
        } else {
            rest
        }
    }
}

/// The loop's state after a schedule of events is serviced strictly in
/// order: each triggering, decodable event supersedes everything before it;
/// every other event leaves the loop untouched.
pub open spec fn after_events(l: RefreshLoop, events: Seq<LoopEvent>) -> RefreshLoop
    decreases events.len(),
{
    if events.len() == 0 {
        l
    } else {
        let prev = after_events(l, events.drop_last());
        let e = events.last();
        if wake_triggers(e) && login_decodes(e) {
            prev.refreshed_with(
                e.login->Ok_0,
                exp_claim_of(e.login->Ok_0.token@)->Some_0,
                e.now as int,
            )
        } else {
            prev
        }
    }
}

/// The log entries a sequence of refresh outcomes amounts to: each one's
/// persisted contents and armed timer.
pub open spec fn outcomes_log(outs: Seq<RefreshOutcome>) -> Seq<(Seq<char>, TimerSetting)> {
    outs.map_values(|o: RefreshOutcome| (o.contents@, o.timer))
}

/// Whether `er` is the fatal event's own error: the failed wake delivery's
/// error, the failed login's, or — for a token whose claim does not decode
/// — the claim-decode error.
pub open spec fn fatal_error_matches(e: LoopEvent, er: Error) -> bool
    recommends
        event_fatal(e),
{
    match e.wake {
        Result::Err(we) => er == we,
        Result::Ok(_) => match e.login {
            Result::Err(le) => er == le,
            Result::Ok(_) => er matches Error::Jwt(m) && m@ == decode_failure_detail(),
        },
    }
}

impl RefreshLoop {
    /// The daemon loop over a schedule of wakes and transport outcomes,
    /// serviced strictly one at a time: each wake is taken from the
    /// schedule, decided, and — exactly when it triggers — serviced by one
    /// complete refresh cycle before the next wake is looked at.  On a
    /// clean run the outcomes handed out are exactly the refresh log of the
    /// schedule: one login consumed, one persisted string and one armed
    /// timer per triggering wake, removal wakes independent of the timer,
    /// and the final state is what the last successful refresh alone
    /// dictates.  The first fatal event ends the loop immediately with that
    /// event's own error — no retry, and no further cycle starts: the final
    /// state reflects exactly the events serviced before it.
    pub fn run_events(&mut self, events: Vec<LoopEvent>) -> (r: Result<Vec<RefreshOutcome>, Error>)
        ensures
            match r {
                Result::Ok(outs) => {
                    &&& outcomes_log(outs@) == refresh_log(events@)
                    &&& outs@.len() == refresh_log(events@).len()
                    &&& *final(self) == after_events(*old(self), events@)
                    &&& forall|i: int|
                        0 <= i < events@.len() ==> !event_fatal(#[trigger] events@[i])
                },
                Result::Err(er) => exists|i: int|
                    {
                        &&& 0 <= i < events@.len()
                        &&& event_fatal(#[trigger] events@[i])
                        &&& forall|j: int| 0 <= j < i ==> !event_fatal(#[trigger] events@[j])
                        &&& fatal_error_matches(events@[i], er)
                        &&& *final(self) == after_events(*old(self), events@.take(i))
                    },
            },
            (forall|i: int| 0 <= i < events@.len() ==> !event_fatal(#[trigger] events@[i]))
                ==> r is Ok,
            old(self).wf() ==> final(self).wf(),
    {
        let ghost all = events@;
        let ghost init = *self;
        let mut remaining = events;
        let mut outs: Vec<RefreshOutcome> = Vec::new();
        let ghost mut done: Seq<LoopEvent> = Seq::empty();
        proof {
            assert(done + remaining@ =~= all);
        }
        #[verifier::loop_isolation(false)]
        while remaining.len() > 0
            invariant
                done + remaining@ == all,
                outcomes_log(outs@) == refresh_log(done),
                outs@.len() == refresh_log(done).len(),
                *self == after_events(init, done),
                forall|i: int| 0 <= i < done.len() ==> !event_fatal(#[trigger] done[i]),
                init.wf() ==> self.wf(),
            decreases remaining.len(),
        {
            let e = remaining.remove(0);
            let ghost ge = e;
            let ghost done0 = done;
            proof {
                assert(all[done0.len() as int] == ge);
            }
            let LoopEvent { wake, login, now } = e;
            match self.dispatch(wake) {
                Result::Err(err) => {
                    proof {
                        let k = done0.len() as int;
                        assert(ge.wake is Err);
                        assert(event_fatal(all[k]));
                        assert forall|j: int| 0 <= j < k implies !event_fatal(
                            #[trigger] all[j],
                        ) by {
                            assert(all[j] == done0[j]);
                        }
                        assert(done0 =~= all.take(k));
                        assert(fatal_error_matches(all[k], err));
                    }
                    return Result::Err(err);
                },
                Result::Ok(Action::Ignore) => {
                    proof {
                        done = done.push(ge);
                        assert(done.drop_last() =~= done0);
                        assert(done + remaining@ =~= all);
                    }
                },
                Result::Ok(Action::Refresh) => {
                    match self.refresh_token(login, now) {
                        Result::Err(err) => {
                            proof {
                                let k = done0.len() as int;
                                assert(event_fatal(all[k]));
                                assert forall|j: int| 0 <= j < k implies !event_fatal(
                                    #[trigger] all[j],
                                ) by {
                                    assert(all[j] == done0[j]);
                                }
                                assert(done0 =~= all.take(k));
                                assert(fatal_error_matches(all[k], err));
                            }
                            return Result::Err(err);
                        },
                        Result::Ok(o) => {
                            let ghost entry = (o.contents@, o.timer);
                            outs.push(o);
                            proof {
                                done = done.push(ge);
                                assert(done.drop_last() =~= done0);
                                assert(done + remaining@ =~= all);
                                assert(entry == refresh_entry(ge));
                                assert(outcomes_log(outs@) =~~= refresh_log(done));
                            }
                        },
                    }
                },
            }
        }
        proof {
            assert(done =~= all);
        }
        Result::Ok(outs)
    }
}

/// Re-arming is idempotent: arming the timer a second time fully supersedes
/// the first, so the resulting loop depends only on the expiry and clock
/// reading supplied last — the superseded arming leaves no trace.
pub proof fn lemma_rearming_supersedes(
    l: RefreshLoop,
    exp1: int,
    now1: int,
    exp2: int,
    now2: int,
)
    ensures
        l.rearmed(exp1, now1).rearmed(exp2, now2) == l.rearmed(exp2, now2),
{
}

/// A redundant refresh is harmless: when two wakes are pending at once, the
/// loop services them one after the other, and the state after the second
/// refresh is exactly what the second refresh alone would produce — the
/// first leaves no trace, so a stale wake never corrupts the loop.
pub proof fn lemma_redundant_refresh_harmless(
    l: RefreshLoop,
    t1: AuthenticationToken,
    exp1: int,
    now1: int,
    t2: AuthenticationToken,
    exp2: int,
    now2: int,
)
    ensures
        l.refreshed_with(t1, exp1, now1).refreshed_with(t2, exp2, now2) == l.refreshed_with(
            t2,
            exp2,
            now2,
        ),
{
}

} // verus!



