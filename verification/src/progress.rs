//! Live progress. Until the total is known the reporter is
//! indeterminate and ticks with a counter message; once discovery
//! completes it becomes a determinate bar; when the sink is the
//! console it stays silent so progress text never interleaves with
//! results. What to draw is decided here; drawing it is the caller's
//! business.

use vstd::prelude::*;
use vstd::string::{StrSliceExecFns, StringExecFns};
use crate::text::{spec_dec, u64_to_string};

verus! {

/// The presentation the reporter is currently in.
#[derive(Clone, Copy, Debug, PartialEq, Eq, Structural)]
pub enum ProgressMode {
    /// Nothing is drawn.
    Silent,
    /// An indeterminate spinner with counters: the total is unknown.
    Indeterminate,
    /// A determinate bar out of `total`.
    Determinate { total: u64 },
}

/// What the caller should draw after an update.
pub enum ProgressAction {
    /// Draw nothing.
    Quiet,
    /// Tick the indeterminate spinner with this message.
    Tick { message: String },
    /// Advance the determinate bar by one.
    Advance,
}

/// The tick message: the processed count, then how the pool stands —
/// queued, active and its size.
pub open spec fn spec_status_message(count: nat, queued: nat, active: nat, size: nat) -> Seq<
    char,
> {
    "Processing files ("@ + spec_dec(count) + ") ("@ + spec_dec(queued) + " : "@ + spec_dec(
        active,
    ) + " / "@ + spec_dec(size) + ")"@
}

/// Renders the tick message.
pub fn status_message(count: u64, queued: usize, active: usize, size: usize) -> (r: String)
    ensures
        r@ == spec_status_message(count as nat, queued as nat, active as nat, size as nat),
{
    let mut s = String::from_str("Processing files (");
    let n = u64_to_string(count);
    s.append(n.as_str());
    s.append(") (");
    let q = u64_to_string(queued as u64);
    s.append(q.as_str());
    s.append(" : ");
    let a = u64_to_string(active as u64);
    s.append(a.as_str());
    s.append(" / ");
    let m = u64_to_string(size as u64);
    s.append(m.as_str());
    s.append(")");
    s
}

/// The progress reporter's state: the counts it has seen, whether it
/// is enabled at all, and the presentation it is in.
pub struct Progress {
    count: u64,
    success: u64,
    enabled: bool,
    mode: ProgressMode,
}

impl Progress {
    /// Completions seen so far.
    pub closed spec fn spec_count(self) -> u64 {
        self.count
    }

    /// Successful completions seen so far.
    pub closed spec fn spec_success(self) -> u64 {
        self.success
    }

    /// Whether the reporter draws at all.
    pub closed spec fn spec_enabled(self) -> bool {
        self.enabled
    }

    /// The presentation it is in.
    pub closed spec fn spec_mode(self) -> ProgressMode {
        self.mode
    }

    /// A fresh reporter: disabled and silent, nothing counted.
    pub fn new() -> (r: Self)
        ensures
            r.spec_count() == 0,
            r.spec_success() == 0,
            !r.spec_enabled(),
            r.spec_mode() == ProgressMode::Silent,
    {
        Self { count: 0, success: 0, enabled: false, mode: ProgressMode::Silent }
    }

    pub fn set_enabled(&mut self, value: bool)
        ensures
            final(self).spec_enabled() == value,
            final(self).spec_count() == old(self).spec_count(),
            final(self).spec_success() == old(self).spec_success(),
            final(self).spec_mode() == old(self).spec_mode(),
    {
        self.enabled = value;
    }

    /// Switches to the indeterminate presentation — when enabled at
    /// all. Returns whether the caller should build the spinner.
    pub fn build_status(&mut self) -> (r: bool)
        ensures
            r == old(self).spec_enabled(),
            final(self).spec_mode() == if old(self).spec_enabled() {
                ProgressMode::Indeterminate
            } else {
                old(self).spec_mode()
            },
            final(self).spec_count() == old(self).spec_count(),
            final(self).spec_success() == old(self).spec_success(),
            final(self).spec_enabled() == old(self).spec_enabled(),
    {
        if !self.enabled {
            return false;
        }
        self.mode = ProgressMode::Indeterminate;
        true
    }

    /// Switches to the determinate presentation out of `total` — when
    /// enabled at all. Returns whether the caller should build the
    /// bar, at the current count.
    pub fn build_bar(&mut self, total: u64) -> (r: bool)
        ensures
            r == old(self).spec_enabled(),
            final(self).spec_mode() == if old(self).spec_enabled() {
                (ProgressMode::Determinate { total })
            } else {
                old(self).spec_mode()
            },
            final(self).spec_count() == old(self).spec_count(),
            final(self).spec_success() == old(self).spec_success(),
            final(self).spec_enabled() == old(self).spec_enabled(),
    {
        if !self.enabled {
            return false;
        }
        self.mode = ProgressMode::Determinate { total };
        true
    }

    /// The current count, for positioning a freshly built bar.
    pub fn count(&self) -> (r: u64)
        ensures
            r == self.spec_count(),
    {
        self.count
    }

    /// The successful completions counted so far.
    pub fn successes(&self) -> (r: u64)
        ensures
            r == self.spec_success(),
    {
        self.success
    }

    /// One more completion: counts it and says what to draw — nothing
    /// when silent, a bar step when determinate, a tick carrying the
    /// counter message when indeterminate. The pool's queued and
    /// active counts and its size only decorate that message.
    pub fn inc(&mut self, queued: usize, active: usize, size: usize) -> (r: ProgressAction)
        requires
            old(self).spec_count() < u64::MAX,
        ensures
            final(self).spec_count() == old(self).spec_count() + 1,
            final(self).spec_success() == old(self).spec_success(),
            final(self).spec_enabled() == old(self).spec_enabled(),
            final(self).spec_mode() == old(self).spec_mode(),
            match r {
                ProgressAction::Quiet => old(self).spec_mode() == ProgressMode::Silent,
                ProgressAction::Advance => old(self).spec_mode() matches
                    ProgressMode::Determinate { .. },
                ProgressAction::Tick { message } => old(self).spec_mode()
                    == ProgressMode::Indeterminate && message@ == spec_status_message(
                    (old(self).spec_count() + 1) as nat,
                    queued as nat,
                    active as nat,
                    size as nat,
                ),
            },
    {
        self.count = self.count + 1;
        match self.mode {
            ProgressMode::Silent => ProgressAction::Quiet,
            ProgressMode::Determinate { .. } => ProgressAction::Advance,
            ProgressMode::Indeterminate => ProgressAction::Tick {
                message: status_message(self.count, queued, active, size),
            },
        }
    }

    /// One more successful completion: `inc`, and the success count
    /// besides.
    pub fn inc_success(&mut self, queued: usize, active: usize, size: usize) -> (r:
        ProgressAction)
        requires
            old(self).spec_count() < u64::MAX,
            old(self).spec_success() < u64::MAX,
        ensures
            final(self).spec_count() == old(self).spec_count() + 1,
            final(self).spec_success() == old(self).spec_success() + 1,
            final(self).spec_enabled() == old(self).spec_enabled(),
            final(self).spec_mode() == old(self).spec_mode(),
            match r {
                ProgressAction::Quiet => old(self).spec_mode() == ProgressMode::Silent,
                ProgressAction::Advance => old(self).spec_mode() matches
                    ProgressMode::Determinate { .. },
                ProgressAction::Tick { message } => old(self).spec_mode()
                    == ProgressMode::Indeterminate && message@ == spec_status_message(
                    (old(self).spec_count() + 1) as nat,
                    queued as nat,
                    active as nat,
                    size as nat,
                ),
            },
    {
        let r = self.inc(queued, active, size);
        self.success = self.success + 1;
        r
    }
}

} // verus!
