//! Trailing-edge debouncing of the search box: keystrokes update a raw text
//! at once; each commit trigger cancels the armed timer and arms a new one;
//! only the timer armed last settles the raw text into the search term.
//!
//! Timers are named by tokens. The host arms a timer for the quiet interval
//! when told to, cancels the one it is told to cancel, and reports a timer
//! that fires by its token.
use vstd::prelude::*;
use crate::text::opt_chars;

verus! {

/// The number of distinct tokens.
pub open spec fn token_space() -> nat {
    0x1_0000_0000_0000_0000
}

/// The token `k` steps after `start`, wrapping around.
pub open spec fn token_after(start: u64, k: nat) -> u64 {
    ((start + k) % (token_space() as int)) as u64
}

/// The model of a debouncer: the raw text (`None` when empty), the token of
/// the armed timer, if any, and the token the next trigger will arm.
pub struct DebouncerView {
    pub raw: Option<Seq<char>>,
    pub pending: Option<u64>,
    pub next_token: u64,
}

impl DebouncerView {
    /// The armed timer, if any, is the one armed last.
    pub open spec fn wf(self) -> bool {
        self.pending matches Some(p) ==> token_after(p, 1) == self.next_token
    }
}

/// The raw text after the user types `text`: empty text clears it.
pub open spec fn input_step(v: DebouncerView, text: Seq<char>) -> DebouncerView {
    DebouncerView { raw: if text.len() == 0 { None } else { Some(text) }, ..v }
}

/// A commit trigger: the armed timer, if any, is cancelled and a new one armed.
pub open spec fn commit_step(v: DebouncerView) -> DebouncerView {
    DebouncerView { pending: Some(v.next_token), next_token: token_after(v.next_token, 1), ..v }
}

/// The state after the timer `token` fires: only the armed timer has effect.
pub open spec fn fire_step(v: DebouncerView, token: u64) -> DebouncerView {
    if v.pending == Some(token) {
        DebouncerView { pending: None, ..v }
    } else {
        v
    }
}

/// What the timer `token` settles when it fires: the raw text if it is the
/// armed timer, nothing otherwise.
pub open spec fn fire_result(v: DebouncerView, token: u64) -> Option<Option<Seq<char>>> {
    if v.pending == Some(token) {
        Some(v.raw)
    } else {
        None
    }
}

/// What the host must do after a commit trigger.
#[derive(Clone, Copy, Debug, PartialEq, Eq, Structural)]
pub struct TimerCommand {
    /// The timer to cancel, if one is armed.
    pub cancel: Option<u64>,
    /// The token of the timer to arm for the quiet interval.
    pub arm: u64,
}

/// The result of a timer firing.
#[derive(Debug)]
pub enum FireOutcome {
    /// The timer was cancelled or replaced; nothing changes.
    Stale,
    /// The search term settles to this value (`None` clears the search).
    Settled(Option<String>),
}

/// What a fire outcome settles, as in `fire_result`.
pub open spec fn outcome_view(o: FireOutcome) -> Option<Option<Seq<char>>> {
    match o {
        FireOutcome::Stale => None,
        FireOutcome::Settled(s) => Some(opt_chars(s)),
    }
}

/// The armed timer, if any, and the token the next trigger will arm.
#[derive(Clone, Copy)]
struct TimerSlot {
    pending: Option<u64>,
    next_token: u64,
}

/// The debouncer of a search box. At most one timer is armed at a time.
pub struct SearchDebouncer {
    raw: Option<String>,
    timer: TimerSlot,
}

impl View for SearchDebouncer {
    type V = DebouncerView;

    closed spec fn view(&self) -> DebouncerView {
        DebouncerView {
            raw: opt_chars(self.raw),
            pending: self.timer.pending,
            next_token: self.timer.next_token,
        }
    }
}

impl SearchDebouncer {
    #[verifier::type_invariant]
    closed spec fn inv(&self) -> bool {
        self@.wf()
    }

    /// An idle debouncer with no raw text.
    pub fn new() -> (r: SearchDebouncer)
        ensures
            r@ == (DebouncerView { raw: None, pending: None, next_token: 0 }),
            r@.wf(),
    {
        SearchDebouncer { raw: None, timer: TimerSlot { pending: None, next_token: 0 } }
    }

    /// Whether a timer is armed.
    pub fn is_pending(&self) -> (r: bool)
        ensures
            r == self@.pending is Some,
    {
        self.timer.pending.is_some()
    }

    /// The user typed: store `text` as the raw text at once. Matching is not
    /// updated until a timer settles it.
    pub fn input(&mut self, text: String)
        ensures
            final(self)@ == input_step(old(self)@, text@),
            final(self)@.wf(),
    {
        proof {
            use_type_invariant(&*self);
        }
        let raw = if text.as_str().is_empty() { None } else { Some(text) };
        self.raw = raw;
    }

    /// A commit trigger (a key release): cancel the armed timer, if any, and
    /// arm a new one.
    pub fn commit(&mut self) -> (c: TimerCommand)
        ensures
            final(self)@ == commit_step(old(self)@),
            final(self)@.wf(),
            c.cancel == old(self)@.pending,
            c.arm == old(self)@.next_token,
    {
        proof {
            use_type_invariant(&*self);
        }
        let token = self.timer.next_token;
        let cancel = self.timer.pending;
        self.timer = TimerSlot { pending: Some(token), next_token: token.wrapping_add(1) };
        TimerCommand { cancel, arm: token }
    }

    /// The timer `token` fired. If it is the armed one, the raw text settles
    /// and the debouncer is idle again; any other token is stale.
    pub fn fire(&mut self, token: u64) -> (r: FireOutcome)
        ensures
            final(self)@ == fire_step(old(self)@, token),
            final(self)@.wf(),
            outcome_view(r) == fire_result(old(self)@, token),
    {
        proof {
            use_type_invariant(&*self);
        }
        let armed = match self.timer.pending {
            Some(p) => p == token,
            None => false,
        };
        if !armed {
            return FireOutcome::Stale;
        }
        self.timer = TimerSlot { pending: None, next_token: self.timer.next_token };
        let settled = match &self.raw {
            Some(s) => Some(s.clone()),
            None => None,
        };
        FireOutcome::Settled(settled)
    }
}

/// An event of the search box other than a timer firing.
pub enum SearchEvent {
    /// The user typed; the box now holds this text.
    Input(Seq<char>),
    /// A commit trigger.
    Commit,
}

/// The state after a single event.
pub open spec fn event_step(v: DebouncerView, e: SearchEvent) -> DebouncerView {
    match e {
        SearchEvent::Input(t) => input_step(v, t),
        SearchEvent::Commit => commit_step(v),
    }
}

/// The state after a sequence of events, in order.
pub open spec fn run_events(v: DebouncerView, events: Seq<SearchEvent>) -> DebouncerView
    decreases events.len(),
{
    if events.len() == 0 {
        v
    } else {
        event_step(run_events(v, events.drop_last()), events.last())
    }
}

/// The number of commit triggers among `events`.
pub open spec fn commit_count(events: Seq<SearchEvent>) -> nat
    decreases events.len(),
{
    if events.len() == 0 {
        0
    } else {
        commit_count(events.drop_last()) + if events.last() is Commit {
            1nat
        } else {
            0nat
        }
    }
}

/// After a burst of events, the armed timer is the one the last trigger
/// armed, and the next token follows the triggers.
proof fn lemma_run_events(v: DebouncerView, events: Seq<SearchEvent>)
    requires
        v.wf(),
    ensures
        run_events(v, events).wf(),
        run_events(v, events).next_token == token_after(v.next_token, commit_count(events)),
        commit_count(events) > 0 ==> run_events(v, events).pending == Some(
            token_after(v.next_token, (commit_count(events) - 1) as nat),
        ),
        commit_count(events) == 0 ==> run_events(v, events).pending == v.pending,
    decreases events.len(),
{
    if events.len() == 0 {
        assert(token_after(v.next_token, 0) == v.next_token);
    } else {
        lemma_run_events(v, events.drop_last());
        let c = commit_count(events.drop_last());
        let a = v.next_token as int;
        assert(token_after(token_after(v.next_token, c), 1) == token_after(v.next_token, c + 1)) by {
            let m = token_space() as int;
            vstd::arithmetic::div_mod::lemma_add_mod_noop(a + c, 1, m);
            vstd::arithmetic::div_mod::lemma_small_mod(1, m as nat);
        }
    }
}

/// Reduction modulo `m` of a value below `2 * m`.
proof fn lemma_mod_below_twice(x: int, m: int)
    requires
        0 < m,
        0 <= x < 2 * m,
    ensures
        x % m == if x < m { x } else { x - m },
{
    if x < m {
        vstd::arithmetic::div_mod::lemma_small_mod(x as nat, m as nat);
    } else {
        vstd::arithmetic::div_mod::lemma_mod_add_multiples_vanish(x - m, m);
        vstd::arithmetic::div_mod::lemma_small_mod((x - m) as nat, m as nat);
    }
}

/// Tokens fewer than the token space apart are distinct.
proof fn lemma_tokens_distinct(start: u64, j: nat, k: nat)
    requires
        j < k < token_space(),
    ensures
        token_after(start, j) != token_after(start, k),
{
    let m = token_space() as int;
    lemma_mod_below_twice(start + j, m);
    lemma_mod_below_twice(start + k, m);
}

/// A burst of keystrokes and commit triggers that ends with a trigger, with no
/// timer firing in between, leaves exactly one timer armed: the one the last
/// trigger armed. Every timer armed before it, in the burst or before the
/// burst, is stale: firing it changes nothing and settles nothing. Firing the
/// last one settles the raw text present at the last trigger, and after that
/// every timer is stale, so the burst settles once.
pub proof fn law_burst_settles_once(v: DebouncerView, events: Seq<SearchEvent>)
    requires
        v.wf(),
        events.len() > 0,
        events.last() is Commit,
        commit_count(events) < token_space(),
    ensures
        ({
            let w = run_events(v, events);
            let last = token_after(v.next_token, (commit_count(events) - 1) as nat);
            &&& w.pending == Some(last)
            &&& forall|k: nat|
                k + 1 < commit_count(events) ==> fire_result(w, #[trigger] token_after(v.next_token, k))
                    is None && fire_step(w, token_after(v.next_token, k)) == w
            &&& (v.pending matches Some(p) ==> fire_result(w, p) is None && fire_step(w, p) == w)
            &&& fire_result(w, last) == Some(w.raw)
            &&& w.raw == run_events(v, events.drop_last()).raw
            &&& forall|t: u64| #[trigger] fire_result(fire_step(w, last), t) is None
        }),
{
    lemma_run_events(v, events);
    let n = commit_count(events);
    let w = run_events(v, events);
    let last = token_after(v.next_token, (n - 1) as nat);
    assert forall|k: nat| k + 1 < n implies fire_result(w, #[trigger] token_after(v.next_token, k))
        is None && fire_step(w, token_after(v.next_token, k)) == w by {
        lemma_tokens_distinct(v.next_token, k, (n - 1) as nat);
    }
    if let Some(p) = v.pending {
        // The timer armed before the burst carries the token just before `v.next_token`.
        let m = token_space() as int;
        lemma_mod_below_twice(p + 1, m);
        lemma_mod_below_twice(v.next_token + m - 1, m);
        assert(p == token_after(v.next_token, (token_space() - 1) as nat));
        lemma_tokens_distinct(v.next_token, (n - 1) as nat, (token_space() - 1) as nat);
    }
}

} // verus!
