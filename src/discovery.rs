use vstd::prelude::*;
use crate::error::ExploreError;
use crate::matcher::{assemble_app_info, describes, matched_dir, AppInfo, ForegroundInfo, ViewRecord};

verus! {

/// Where a discovery call stands.
#[derive(Clone, Copy, Debug, PartialEq, Eq, Structural)]
pub enum DiscoveryPhase {
    Enumerate,
    Foreground,
    Extract,
    Done,
}

/// The next piece of platform work the host does for a discovery call.
#[derive(Clone, Copy, Debug, PartialEq, Eq, Structural)]
pub enum DiscoveryAction {
    /// Scan the shell window collection.
    EnumerateWindows,
    /// Look up the foreground window, its title, process id and executable.
    ResolveForeground,
    /// Extract the folder and owning process id of the enumerated window at
    /// this index.
    ExtractWindow(usize),
    /// Nothing is left to do: take the outcome with `finish`.
    Finish,
}

/// What the host reports back after doing a `DiscoveryAction`.
pub enum DiscoveryEvent {
    /// The number of shell windows found, or the scan's failure.
    Enumerated(Result<usize, ExploreError>),
    /// The foreground window, or the failure of its lookups.
    Foreground(Result<ForegroundInfo, ExploreError>),
    /// The requested window's folder and process id, or the extraction's
    /// failure.
    Extracted(Result<ViewRecord, ExploreError>),
}

impl DiscoveryEvent {
    /// The failure this event reports, if any.
    pub open spec fn failure(self) -> Option<ExploreError> {
        match self {
            DiscoveryEvent::Enumerated(Err(e)) => Some(e),
            DiscoveryEvent::Foreground(Err(e)) => Some(e),
            DiscoveryEvent::Extracted(Err(e)) => Some(e),
            _ => None,
        }
    }
}

/// The abstract state of a discovery call.
pub struct DiscoveryModel {
    pub phase: DiscoveryPhase,
    pub window_count: nat,
    pub foreground: Option<ForegroundInfo>,
    pub views: Seq<ViewRecord>,
    pub error: Option<ExploreError>,
}

impl DiscoveryModel {
    pub open spec fn wf(self) -> bool {
        &&& self.views.len() <= self.window_count
        &&& match self.phase {
            DiscoveryPhase::Enumerate => {
                &&& self.foreground is None
                &&& self.views.len() == 0
                &&& self.error is None
            },
            DiscoveryPhase::Foreground => {
                &&& self.foreground is None
                &&& self.views.len() == 0
                &&& self.error is None
            },
            DiscoveryPhase::Extract => {
                &&& self.foreground is Some
                &&& self.views.len() < self.window_count
                &&& self.error is None
            },
            DiscoveryPhase::Done => self.error is None ==> {
                &&& self.foreground is Some
                &&& self.views.len() == self.window_count
            },
        }
    }

    /// The work the host does next in this state.
    pub open spec fn action(self) -> DiscoveryAction {
        match self.phase {
            DiscoveryPhase::Enumerate => DiscoveryAction::EnumerateWindows,
            DiscoveryPhase::Foreground => DiscoveryAction::ResolveForeground,
            DiscoveryPhase::Extract => DiscoveryAction::ExtractWindow(self.views.len() as usize),
            DiscoveryPhase::Done => DiscoveryAction::Finish,
        }
    }

    /// `ev` reports the outcome of the current action.
    pub open spec fn answers(self, ev: DiscoveryEvent) -> bool {
        match (self.phase, ev) {
            (DiscoveryPhase::Enumerate, DiscoveryEvent::Enumerated(_)) => true,
            (DiscoveryPhase::Foreground, DiscoveryEvent::Foreground(_)) => true,
            (DiscoveryPhase::Extract, DiscoveryEvent::Extracted(_)) => true,
            _ => false,
        }
    }

    /// The state after `ev`. A failure ends the call; an event that does not
    /// answer the current action leaves the state as it is.
    pub open spec fn step(self, ev: DiscoveryEvent) -> DiscoveryModel {
        if !self.answers(ev) {
            self
        } else if let Some(e) = ev.failure() {
            DiscoveryModel { phase: DiscoveryPhase::Done, error: Some(e), ..self }
        } else {
            match ev {
                DiscoveryEvent::Enumerated(Ok(n)) => DiscoveryModel {
                    phase: DiscoveryPhase::Foreground,
                    window_count: n as nat,
                    ..self
                },
                DiscoveryEvent::Foreground(Ok(f)) => DiscoveryModel {
                    phase: if self.window_count == 0 { DiscoveryPhase::Done } else { DiscoveryPhase::Extract },
                    foreground: Some(f),
                    ..self
                },
                DiscoveryEvent::Extracted(Ok(v)) => DiscoveryModel {
                    phase: if self.views.len() + 1 == self.window_count {
                        DiscoveryPhase::Done
                    } else {
                        DiscoveryPhase::Extract
                    },
                    views: self.views.push(v),
                    ..self
                },
                _ => self,
            }
        }
    }
}

/// One discovery call: enumerate the shell windows, resolve the foreground
/// window, extract each enumerated window's folder and owning process in
/// enumeration order, then match them. The first failure ends the call with
/// no descriptor.
pub struct Discovery {
    pub phase: DiscoveryPhase,
    pub window_count: usize,
    pub foreground: Option<ForegroundInfo>,
    pub views: Vec<ViewRecord>,
    pub error: Option<ExploreError>,
}

impl View for Discovery {
    type V = DiscoveryModel;

    open spec fn view(&self) -> DiscoveryModel {
        DiscoveryModel {
            phase: self.phase,
            window_count: self.window_count as nat,
            foreground: self.foreground,
            views: self.views@,
            error: self.error,
        }
    }
}

impl Discovery {
    /// A fresh call, about to enumerate the shell windows.
    pub fn new() -> (r: Discovery)
        ensures
            r@.wf(),
            r@.phase == DiscoveryPhase::Enumerate,
            r@.window_count == 0,
    {
        Discovery {
            phase: DiscoveryPhase::Enumerate,
            window_count: 0,
            foreground: None,
            views: Vec::new(),
            error: None,
        }
    }

    /// The work the host does next.
    pub fn next_action(&self) -> (r: DiscoveryAction)
        requires
            self@.wf(),
        ensures
            r == self@.action(),
    {
        match self.phase {
            DiscoveryPhase::Enumerate => DiscoveryAction::EnumerateWindows,
            DiscoveryPhase::Foreground => DiscoveryAction::ResolveForeground,
            DiscoveryPhase::Extract => DiscoveryAction::ExtractWindow(self.views.len()),
            DiscoveryPhase::Done => DiscoveryAction::Finish,
        }
    }

    /// Takes the outcome of the current action.
    pub fn on_event(&mut self, ev: DiscoveryEvent)
        requires
            old(self)@.wf(),
        ensures
            final(self)@ == old(self)@.step(ev),
            final(self)@.wf(),
    {
        let phase = self.phase;
        match ev {
            DiscoveryEvent::Enumerated(r) => {
                if phase == DiscoveryPhase::Enumerate {
                    match r {
                        Ok(n) => {
                            self.window_count = n;
                            self.phase = DiscoveryPhase::Foreground;
                        },
                        Err(e) => {
                            self.phase = DiscoveryPhase::Done;
                            self.error = Some(e);
                        },
                    }
                }
            },
            DiscoveryEvent::Foreground(r) => {
                if phase == DiscoveryPhase::Foreground {
                    match r {
                        Ok(f) => {
                            self.foreground = Some(f);
                            self.phase = if self.window_count == 0 {
                                DiscoveryPhase::Done
                            } else {
                                DiscoveryPhase::Extract
                            };
                        },
                        Err(e) => {
                            self.phase = DiscoveryPhase::Done;
                            self.error = Some(e);
                        },
                    }
                }
            },
            DiscoveryEvent::Extracted(r) => {
                if phase == DiscoveryPhase::Extract {
                    match r {
                        Ok(v) => {
                            self.views.push(v);
                            if self.views.len() == self.window_count {
                                self.phase = DiscoveryPhase::Done;
                            }
                        },
                        Err(e) => {
                            self.phase = DiscoveryPhase::Done;
                            self.error = Some(e);
                        },
                    }
                }
            },
        }
    }

    /// The outcome of a finished call: the failure that ended it, or the
    /// descriptor of the foreground window matched against every enumerated
    /// window.
    pub fn finish(self) -> (r: Result<AppInfo, ExploreError>)
        requires
            self@.wf(),
            self@.phase == DiscoveryPhase::Done,
        ensures
            match self@.error {
                Some(e) => r matches Err(x) && x == e,
                None => r matches Ok(info) && describes(info, self@.foreground.unwrap(), self@.views),
            },
    {
        match self.error {
            Some(e) => Err(e),
            None => Ok(assemble_app_info(self.foreground.unwrap(), &self.views)),
        }
    }
}

/// A failure reported for any step ends the discovery call at once: it is
/// done, it carries that failure, and `finish` then yields no descriptor.
pub proof fn lemma_failure_aborts(m: DiscoveryModel, ev: DiscoveryEvent)
    requires
        m.wf(),
        m.answers(ev),
        ev.failure() is Some,
    ensures
        m.step(ev).phase == DiscoveryPhase::Done,
        m.step(ev).error == ev.failure(),
{
}

/// With no shell windows open, a call whose foreground lookups succeed is done
/// right after them, with no failure and nothing matched, so its descriptor
/// has an empty folder and is active.
pub proof fn lemma_no_windows_finishes_empty(f: ForegroundInfo)
    ensures
        ({
            let m = DiscoveryModel {
                phase: DiscoveryPhase::Enumerate,
                window_count: 0,
                foreground: None,
                views: Seq::empty(),
                error: None,
            };
            let end = m.step(DiscoveryEvent::Enumerated(Ok(0))).step(DiscoveryEvent::Foreground(Ok(f)));
            &&& end.wf()
            &&& end.phase == DiscoveryPhase::Done
            &&& end.error is None
            &&& end.views.len() == 0
            &&& matched_dir(f.process_id, end.views) == Seq::<char>::empty()
        }),
{
}

} // verus!
