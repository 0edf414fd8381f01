//! The dispatch loop: sequence the characters, enforce the timing,
//! and apply the failure policy to each injection outcome.
//!
//! The actual wait and injection are effects the application performs;
//! the `Run` state machine decides, for each outcome it is handed,
//! whether the run goes on, ends in success, or ends with the first
//! unrecovered send failure.

use vstd::prelude::*;
use crate::config::{SimError, SimulationConfig};

verus! {

/// How many send calls a dispatch over `send_ok.len()` characters
/// makes, when `send_ok[i]` says whether the send of character `i`
/// succeeds.  A failure under a tolerant policy is discarded; under a
/// strict policy it ends the run at once.
pub open spec fn model_sends(send_ok: Seq<bool>, ignore_errors: bool) -> nat
    decreases send_ok.len(),
{
    if send_ok.len() == 0 {
        0
    } else if !send_ok[0] && !ignore_errors {
        1
    } else {
        (1 + model_sends(send_ok.drop_first(), ignore_errors)) as nat
    }
}

/// The position of the failure that ends the run, if any: under a
/// tolerant policy there is none; under a strict one it is the first
/// position whose send fails.
pub open spec fn model_failure(send_ok: Seq<bool>, ignore_errors: bool) -> Option<nat>
    decreases send_ok.len(),
{
    if send_ok.len() == 0 {
        None
    } else if !send_ok[0] && !ignore_errors {
        Some(0)
    } else {
        match model_failure(send_ok.drop_first(), ignore_errors) {
            None => None,
            Some(k) => Some((k + 1) as nat),
        }
    }
}

/// Under a tolerant policy every character's send is attempted —
/// exactly one call per character — and the run's final result is
/// success, however many of those calls report failure.
pub proof fn lemma_tolerant_attempts_all(send_ok: Seq<bool>)
    ensures
        model_sends(send_ok, true) == send_ok.len(),
        model_failure(send_ok, true) is None,
    decreases send_ok.len(),
{
    if send_ok.len() > 0 {
        lemma_tolerant_attempts_all(send_ok.drop_first());
    }
}

/// Under a strict policy, a send failure first occurring at position
/// `k` means exactly `k + 1` send calls happen in all, and that
/// failure is the run's terminal outcome; no later position is ever
/// attempted.
pub proof fn lemma_strict_stops_at_first_failure(send_ok: Seq<bool>, k: int)
    requires
        0 <= k < send_ok.len(),
        !send_ok[k],
        forall|j: int| 0 <= j < k ==> send_ok[j],
    ensures
        model_sends(send_ok, false) == k + 1,
        model_failure(send_ok, false) == Some(k as nat),
    decreases k,
{
    if k > 0 {
        let rest = send_ok.drop_first();
        assert(!rest[k - 1]);
        assert forall|j: int| 0 <= j < k - 1 implies rest[j] by {
            assert(send_ok[j + 1]);
        }
        lemma_strict_stops_at_first_failure(rest, k - 1);
    }
}

/// An empty input makes no send call at all and succeeds trivially.
pub proof fn lemma_empty_input_succeeds(ignore_errors: bool)
    ensures
        model_sends(Seq::<bool>::empty(), ignore_errors) == 0,
        model_failure(Seq::<bool>::empty(), ignore_errors) is None,
{
}

/// Relies on `str::chars`: it yields exactly the string's characters
/// (Unicode scalar values) in their natural left-to-right order.
#[verifier::external_body]
fn chars_of(text: &str) -> (r: Vec<char>)
    ensures
        r@ == text@,
{
    text.chars().collect()
}

/// One run's dispatch state: the characters still to be sent, how many
/// sends have been attempted, and whether a failure has ended the run.
pub struct Run {
    config: SimulationConfig,
    chars: Vec<char>,
    sent: usize,
    aborted: bool,
}

impl Run {
    /// The configuration the run was started with.
    pub closed spec fn config_spec(&self) -> SimulationConfig {
        self.config
    }

    /// The character sequence derived from the input string.
    pub closed spec fn chars_spec(&self) -> Seq<char> {
        self.chars@
    }

    /// How many sends have been attempted so far.
    pub closed spec fn sent_spec(&self) -> nat {
        self.sent as nat
    }

    /// Whether an unrecovered send failure has ended the run.
    pub closed spec fn aborted_spec(&self) -> bool {
        self.aborted
    }

    /// The state invariant: a valid configuration, and never more
    /// sends attempted than there are characters.
    pub open spec fn wf(&self) -> bool {
        self.config_spec().valid() && self.sent_spec() <= self.chars_spec().len()
    }

    /// Starts a run over the given text: its characters in order, no
    /// send attempted yet.
    pub fn new(config: SimulationConfig, text: &str) -> (r: Run)
        requires
            config.valid(),
        ensures
            r.wf(),
            r.config_spec() == config,
            r.chars_spec() == text@,
            r.sent_spec() == 0,
            !r.aborted_spec(),
    {
        Run { config, chars: chars_of(text), sent: 0, aborted: false }
    }

    /// The next character to be sent: present exactly while characters
    /// remain and no failure has ended the run.
    pub fn current_char(&self) -> (r: Option<char>)
        requires
            self.wf(),
        ensures
            r is Some <==> (self.sent_spec() < self.chars_spec().len() && !self.aborted_spec()),
            r matches Some(c) ==> c == self.chars_spec()[self.sent_spec() as int],
    {
        if self.aborted || self.sent >= self.chars.len() {
            None
        } else {
            Some(self.chars[self.sent])
        }
    }

    /// Records the outcome of one send attempt and applies the failure
    /// policy: a success, or any failure under a tolerant policy, lets
    /// the run go on; a failure under a strict policy ends it at once,
    /// and the failed position is the run's terminal error.
    pub fn record_send(&mut self, ok: bool) -> (r: Option<SimError>)
        requires
            old(self).wf(),
            old(self).sent_spec() < old(self).chars_spec().len(),
            !old(self).aborted_spec(),
        ensures
            final(self).wf(),
            final(self).config_spec() == old(self).config_spec(),
            final(self).chars_spec() == old(self).chars_spec(),
            final(self).sent_spec() == old(self).sent_spec() + 1,
            ok || old(self).config_spec().ignore_errors ==> (!final(self).aborted_spec()
                && r is None),
            !ok && !old(self).config_spec().ignore_errors ==> (final(self).aborted_spec() && r
                == Some(SimError::Send { index: old(self).sent_spec() as usize })),
    {
        proof {
            // the character count fits in usize, so one more send does too
            vstd::std_specs::vec::axiom_spec_len(&self.chars);
        }
        self.sent = self.sent + 1;
        if ok || self.config.ignore_errors {
            None
        } else {
            self.aborted = true;
            Some(SimError::Send { index: self.sent - 1 })
        }
    }

    /// How many sends have been attempted so far.
    pub fn sends_attempted(&self) -> (r: usize)
        ensures
            r == self.sent_spec(),
    {
        self.sent
    }

    /// Whether an unrecovered send failure has ended the run.
    pub fn is_aborted(&self) -> (r: bool)
        ensures
            r == self.aborted_spec(),
    {
        self.aborted
    }
}

/// Drives one complete dispatch run against a scripted backend: entry
/// `i` of `send_ok` says whether the send of character `i` would
/// succeed.  Returns how many sends were attempted, and the run's
/// terminal result: success, or the first unrecovered send failure.
///
/// This is the dispatch loop itself, with the injection effect
/// replaced by its recorded outcome; the application's effectful loop
/// takes the same steps through `Run`.
pub fn run_scripted(config: SimulationConfig, text: &str, send_ok: &Vec<bool>) -> (r: (
    usize,
    Result<(), SimError>,
))
    requires
        config.valid(),
        send_ok@.len() == text@.len(),
    ensures
        r.0 == model_sends(send_ok@, config.ignore_errors),
        model_failure(send_ok@, config.ignore_errors) is None ==> r.1 == Ok::<(), SimError>(()),
        model_failure(send_ok@, config.ignore_errors) matches Some(k) ==> r.1 == Err::<
            (),
            SimError,
        >(SimError::Send { index: k as usize }),
{
    let ghost ig = config.ignore_errors;
    let ghost s = send_ok@;
    let mut run = Run::new(config, text);
    let n = send_ok.len();
    let mut idx: usize = 0;
    proof {
        assert(s.skip(0) =~= s);
    }
    while idx < n
        invariant
            run.wf(),
            run.config_spec() == config,
            run.chars_spec() == text@,
            run.sent_spec() == idx,
            !run.aborted_spec(),
            idx <= n,
            n == s.len(),
            s == send_ok@,
            text@.len() == n,
            ig == config.ignore_errors,
            model_sends(s, ig) == idx + model_sends(s.skip(idx as int), ig),
            model_failure(s.skip(idx as int), ig) matches Some(k) ==> model_failure(s, ig)
                == Some((k + idx) as nat),
            model_failure(s.skip(idx as int), ig) is None ==> model_failure(s, ig) is None,
        decreases n - idx,
    {
        let ok = send_ok[idx];
        proof {
            assert(s.skip(idx as int).len() == n - idx);
            assert(s.skip(idx as int)[0] == s[idx as int]);
        }
        match run.record_send(ok) {
            None => {
                proof {
                    assert(s.skip(idx as int).drop_first() =~= s.skip(idx as int + 1));
                }
                idx = idx + 1;
            },
            Some(err) => {
                proof {
                    assert(model_sends(s.skip(idx as int), ig) == 1);
                    assert(model_failure(s.skip(idx as int), ig) == Some(0nat));
                }
                return (idx + 1, Err(err));
            },
        }
    }
    proof {
        assert(s.skip(n as int).len() == 0);
    }
    (idx, Ok(()))
}

} // verus!
