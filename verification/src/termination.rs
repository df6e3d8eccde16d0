use vstd::prelude::*;
use crate::json::{append_chars, chars_to_string};
use crate::rewrite::trim_end_slashes;
use crate::strutil::{chars_of, copy_range};

verus! {

// The one-shot termination channel: the host calls a dedicated endpoint
// under the UI path, the endpoint publishes the termination event at most
// meaningfully once, and the serving loop races that signal against the
// listener. The state machine and the wire decisions live here; the
// embedding application owns the actual channel and the race.

/// Where the termination endpoint lives: the advertised UI path, trailing
/// slashes dropped, with the fixed suffix appended.
pub open spec fn spec_termination_path(ui_path: Seq<char>) -> Seq<char> {
    trim_end_slashes(ui_path) + "/term"@
}

/// The termination endpoint's path for an advertised UI path.
#[verifier::loop_isolation(false)]
pub fn termination_path(ui_path: &str) -> (r: String)
    ensures
        r@ == spec_termination_path(ui_path@),
{
    let v = chars_of(ui_path);
    let mut hi: usize = v.len();
    assert(v@.take(v@.len() as int) =~= v@);
    while hi > 0 && v[hi - 1] == '/'
        invariant
            hi <= v@.len(),
            trim_end_slashes(v@) == trim_end_slashes(v@.take(hi as int)),
        decreases hi,
    {
        assert(v@.take(hi as int)[hi - 1] == v@[hi - 1]);
        assert(v@.take(hi as int).drop_last() =~= v@.take(hi - 1));
        hi = hi - 1;
    }
    assert(trim_end_slashes(v@.take(hi as int)) == v@.take(hi as int));
    let mut out = copy_range(v.as_slice(), 0, hi);
    append_chars(&mut out, "/term");
    chars_to_string(&out)
}

/// The status the termination endpoint answers with: success when the
/// signal was published or had already been published, an internal error
/// when publishing failed.
pub fn termination_status(publish_ok: bool) -> (c: u16)
    ensures
        publish_ok ==> c == 200,
        !publish_ok ==> c == 500,
{
    if publish_ok {
        200
    } else {
        500
    }
}

/// The observable state of the one-shot termination channel.
#[derive(Debug, Clone, Copy, PartialEq, Eq, Structural)]
pub struct TerminationState {
    /// Whether termination has been signaled.
    pub signaled: bool,
}

/// The state after a signal: terminated, whatever held before.
pub open spec fn spec_signal(s: TerminationState) -> TerminationState {
    TerminationState { signaled: true }
}

impl TerminationState {
    /// The initial state: not signaled.
    pub fn new() -> (r: TerminationState)
        ensures
            !r.signaled,
    {
        TerminationState { signaled: false }
    }

    /// Publishes the termination signal. Tells the caller whether it had
    /// already been published; either way the state is terminated after the
    /// call, and the call never blocks or fails.
    pub fn signal(&mut self) -> (already: bool)
        ensures
            *final(self) == spec_signal(*old(self)),
            already == old(self).signaled,
    {
        let already = self.signaled;
        self.signaled = true;
        already
    }
}

/// Signaling is idempotent: after the first publication every further
/// signal leaves the channel in the same terminated state.
pub proof fn lemma_signal_idempotent(s: TerminationState)
    ensures
        spec_signal(spec_signal(s)) == spec_signal(s),
        spec_signal(s).signaled,
{
}

} // verus!
