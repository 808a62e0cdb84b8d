use vstd::prelude::*;
use crate::error::{ExploreError, Stage};

verus! {

/// The text that `String::from_utf16_lossy` decodes from the given code units.
pub uninterp spec fn utf16_lossy(units: Seq<u16>) -> Seq<char>;

/// No unit of `s` is a surrogate, so each unit is one character by itself.
pub open spec fn no_surrogates(s: Seq<u16>) -> bool {
    forall|i: int| 0 <= i < s.len() ==> !(0xD800 <= #[trigger] s[i] <= 0xDFFF)
}

/// Relies on std's `String::from_utf16_lossy`: decodes exactly the given units
/// as UTF-16, replacing each unpairable surrogate, so the result depends on the
/// units alone. Each character takes one or two units, and a unit outside the
/// surrogate range is the character with that code point.
#[verifier::external_body]
fn from_utf16_lossy(units: &[u16]) -> (r: String)
    ensures
        r@ == utf16_lossy(units@),
        r@.len() <= units@.len(),
        no_surrogates(units@) ==> r@.len() == units@.len() && forall|i: int|
            0 <= i < units@.len() ==> r@[i] as u32 == units@[i] as u32,
{
    String::from_utf16_lossy(units)
}

/// No unit of `s` is the null terminator.
pub open spec fn no_terminator(s: Seq<u16>) -> bool {
    forall|i: int| 0 <= i < s.len() ==> s[i] != 0
}

/// The first null terminator of `s` stands at offset `n`.
pub open spec fn terminated_at(s: Seq<u16>, n: int) -> bool {
    &&& 0 <= n < s.len()
    &&& s[n] == 0
    &&& no_terminator(s.take(n))
}

/// The number of units before the first null terminator of `buf`, or `None`
/// where `buf` holds no terminator.
pub fn wide_len(buf: &[u16]) -> (r: Option<usize>)
    ensures
        match r {
            Some(n) => terminated_at(buf@, n as int),
            None => no_terminator(buf@),
        },
{
    let mut i: usize = 0;
    while i < buf.len()
        invariant
            i <= buf@.len(),
            no_terminator(buf@.take(i as int)),
        decreases buf@.len() - i,
    {
        if buf[i] == 0 {
            return Some(i);
        }
        assert(buf@.take(i as int + 1) == buf@.take(i as int).push(buf@[i as int]));
        i = i + 1;
    }
    assert(buf@.take(i as int) == buf@);
    None
}

/// Decodes the null-terminated wide string at the start of `buf`: the units
/// before the first terminator, transcoded with lossy substitution. `None`
/// where `buf` holds no terminator.
pub fn decode_wide(buf: &[u16]) -> (r: Option<String>)
    ensures
        match r {
            Some(s) => exists|n: int|
                {
                    &&& terminated_at(buf@, n)
                    &&& s@ == utf16_lossy(#[trigger] buf@.take(n))
                    &&& s@.len() <= n
                    &&& no_surrogates(buf@.take(n)) ==> s@.len() == n
                },
            None => no_terminator(buf@),
        },
{
    match wide_len(buf) {
        None => None,
        Some(n) => {
            let mut units: Vec<u16> = Vec::new();
            let mut i: usize = 0;
            while i < n
                invariant
                    n < buf@.len(),
                    i <= n,
                    units@ == buf@.take(i as int),
                decreases n - i,
            {
                units.push(buf[i]);
                assert(buf@.take(i as int + 1) == buf@.take(i as int).push(buf@[i as int]));
                i = i + 1;
            }
            let s = from_utf16_lossy(units.as_slice());
            assert(terminated_at(buf@, n as int));
            Some(s)
        },
    }
}

/// Where a path extraction stands.
#[derive(Clone, Copy, Debug, PartialEq, Eq, Structural)]
pub enum PathPhase {
    ActiveView,
    PersistIdList,
    IdList,
    ShellItem,
    DisplayName,
    Scan,
    ReleaseDisplayName,
    ReleaseIdList,
    Done,
}

/// The next platform call the host makes for a path extraction.
#[derive(Clone, Copy, Debug, PartialEq, Eq, Structural)]
pub enum PathAction {
    /// Ask the browser for its active view.
    QueryActiveView,
    /// Negotiate the view down to its persisted-identifier capability.
    CastPersistIdList,
    /// Retrieve the identifier list; the buffer then belongs to the caller.
    GetIdList,
    /// Resolve a shell item from the identifier list.
    CreateShellItem,
    /// Request the item's display name; the buffer then belongs to the caller.
    GetDisplayName,
    /// Read the display-name unit at this offset.
    ReadUnit(usize),
    /// Free the display-name buffer.
    ReleaseDisplayName,
    /// Free the identifier-list buffer.
    ReleaseIdList,
    /// Nothing is left to call: take the outcome with `finish`.
    Finish,
}

/// What the host reports back after performing a `PathAction`.
#[derive(Clone, Copy, Debug, PartialEq, Eq, Structural)]
pub enum PathEvent {
    /// The requested call succeeded.
    Succeeded,
    /// The requested call failed with this status code.
    Failed(i32),
    /// The unit read at the requested offset.
    Unit(u16),
    /// The requested buffer was freed.
    Released,
}

/// The abstract state of a path extraction.
pub struct PathModel {
    pub phase: PathPhase,
    pub units: Seq<u16>,
    pub id_list_acquired: bool,
    pub id_list_releases: nat,
    pub name_acquired: bool,
    pub name_releases: nat,
    pub error: Option<ExploreError>,
}

impl PathModel {
    /// The identifier-list buffer is owned and not yet freed.
    pub open spec fn id_list_held(self) -> bool {
        self.id_list_acquired && self.id_list_releases == 0
    }

    /// The display-name buffer is owned and not yet freed.
    pub open spec fn name_held(self) -> bool {
        self.name_acquired && self.name_releases == 0
    }

    pub open spec fn wf(self) -> bool {
        &&& self.id_list_releases <= 1
        &&& (self.id_list_releases == 1 ==> self.id_list_acquired)
        &&& self.name_releases <= 1
        &&& (self.name_releases == 1 ==> self.name_acquired)
        &&& no_terminator(self.units)
        &&& match self.phase {
            PathPhase::ActiveView | PathPhase::PersistIdList | PathPhase::IdList => {
                &&& !self.id_list_acquired
                &&& !self.name_acquired
                &&& self.error is None
                &&& self.units.len() == 0
            },
            PathPhase::ShellItem | PathPhase::DisplayName => {
                &&& self.id_list_held()
                &&& !self.name_acquired
                &&& self.error is None
                &&& self.units.len() == 0
            },
            PathPhase::Scan | PathPhase::ReleaseDisplayName => {
                &&& self.id_list_held()
                &&& self.name_held()
                &&& self.error is None
            },
            PathPhase::ReleaseIdList => {
                &&& self.id_list_held()
                &&& !self.name_held()
                &&& (self.error is None <==> self.name_acquired)
            },
            PathPhase::Done => {
                &&& !self.id_list_held()
                &&& !self.name_held()
                &&& (self.error is None ==> self.id_list_acquired && self.name_acquired)
            },
        }
    }

    /// The call the host makes next in this state.
    pub open spec fn action(self) -> PathAction {
        match self.phase {
            PathPhase::ActiveView => PathAction::QueryActiveView,
            PathPhase::PersistIdList => PathAction::CastPersistIdList,
            PathPhase::IdList => PathAction::GetIdList,
            PathPhase::ShellItem => PathAction::CreateShellItem,
            PathPhase::DisplayName => PathAction::GetDisplayName,
            PathPhase::Scan => PathAction::ReadUnit(self.units.len() as usize),
            PathPhase::ReleaseDisplayName => PathAction::ReleaseDisplayName,
            PathPhase::ReleaseIdList => PathAction::ReleaseIdList,
            PathPhase::Done => PathAction::Finish,
        }
    }

    /// A failed step: give up, freeing the identifier list if it is owned.
    pub open spec fn fail(self, stage: Stage, code: i32) -> PathModel {
        PathModel {
            phase: if self.id_list_acquired { PathPhase::ReleaseIdList } else { PathPhase::Done },
            error: Some(ExploreError::Path(stage, code)),
            ..self
        }
    }

    /// The state after `ev` answers the current action; an event that does not
    /// answer it leaves the state as it is.
    pub open spec fn step(self, ev: PathEvent) -> PathModel {
        match (self.phase, ev) {
            (PathPhase::ActiveView, PathEvent::Succeeded) => PathModel { phase: PathPhase::PersistIdList, ..self },
            (PathPhase::ActiveView, PathEvent::Failed(c)) => self.fail(Stage::ActiveView, c),
            (PathPhase::PersistIdList, PathEvent::Succeeded) => PathModel { phase: PathPhase::IdList, ..self },
            (PathPhase::PersistIdList, PathEvent::Failed(c)) => self.fail(Stage::PersistIdList, c),
            (PathPhase::IdList, PathEvent::Succeeded) => PathModel {
                phase: PathPhase::ShellItem,
                id_list_acquired: true,
                ..self
            },
            (PathPhase::IdList, PathEvent::Failed(c)) => self.fail(Stage::IdList, c),
            (PathPhase::ShellItem, PathEvent::Succeeded) => PathModel { phase: PathPhase::DisplayName, ..self },
            (PathPhase::ShellItem, PathEvent::Failed(c)) => self.fail(Stage::ShellItem, c),
            (PathPhase::DisplayName, PathEvent::Succeeded) => PathModel {
                phase: PathPhase::Scan,
                name_acquired: true,
                ..self
            },
            (PathPhase::DisplayName, PathEvent::Failed(c)) => self.fail(Stage::DisplayName, c),
            (PathPhase::Scan, PathEvent::Unit(u)) => if u == 0 {
                PathModel { phase: PathPhase::ReleaseDisplayName, ..self }
            } else {
                PathModel { units: self.units.push(u), ..self }
            },
            (PathPhase::ReleaseDisplayName, PathEvent::Released) => PathModel {
                phase: PathPhase::ReleaseIdList,
                name_releases: self.name_releases + 1,
                ..self
            },
            (PathPhase::ReleaseIdList, PathEvent::Released) => PathModel {
                phase: PathPhase::Done,
                id_list_releases: self.id_list_releases + 1,
                ..self
            },
            _ => self,
        }
    }
}

/// One run of extracting the folder path a shell browser displays.
///
/// The host performs each `next_action` with the platform and reports the
/// outcome through `on_event`. Both platform-allocated buffers are freed on
/// every path that acquired them, and the display name is scanned up to its
/// null terminator.
pub struct PathExtraction {
    pub phase: PathPhase,
    pub units: Vec<u16>,
    pub id_list_acquired: bool,
    pub id_list_releases: u32,
    pub name_acquired: bool,
    pub name_releases: u32,
    pub error: Option<ExploreError>,
}

impl View for PathExtraction {
    type V = PathModel;

    open spec fn view(&self) -> PathModel {
        PathModel {
            phase: self.phase,
            units: self.units@,
            id_list_acquired: self.id_list_acquired,
            id_list_releases: self.id_list_releases as nat,
            name_acquired: self.name_acquired,
            name_releases: self.name_releases as nat,
            error: self.error,
        }
    }
}

impl PathExtraction {
    /// A fresh extraction, about to ask for the active view.
    pub fn new() -> (r: PathExtraction)
        ensures
            r@.wf(),
            r@.phase == PathPhase::ActiveView,
            r@.units.len() == 0,
            !r@.id_list_acquired,
            !r@.name_acquired,
            r@.id_list_releases == 0,
            r@.name_releases == 0,
            r@.error is None,
    {
        PathExtraction {
            phase: PathPhase::ActiveView,
            units: Vec::new(),
            id_list_acquired: false,
            id_list_releases: 0,
            name_acquired: false,
            name_releases: 0,
            error: None,
        }
    }

    /// The call the host makes next.
    pub fn next_action(&self) -> (r: PathAction)
        requires
            self@.wf(),
        ensures
            r == self@.action(),
    {
        match self.phase {
            PathPhase::ActiveView => PathAction::QueryActiveView,
            PathPhase::PersistIdList => PathAction::CastPersistIdList,
            PathPhase::IdList => PathAction::GetIdList,
            PathPhase::ShellItem => PathAction::CreateShellItem,
            PathPhase::DisplayName => PathAction::GetDisplayName,
            PathPhase::Scan => PathAction::ReadUnit(self.units.len()),
            PathPhase::ReleaseDisplayName => PathAction::ReleaseDisplayName,
            PathPhase::ReleaseIdList => PathAction::ReleaseIdList,
            PathPhase::Done => PathAction::Finish,
        }
    }

    fn fail(&mut self, stage: Stage, code: i32)
        ensures
            final(self)@ == old(self)@.fail(stage, code),
    {
        self.phase = if self.id_list_acquired { PathPhase::ReleaseIdList } else { PathPhase::Done };
        self.error = Some(ExploreError::Path(stage, code));
    }

    /// Takes the outcome of the current action.
    pub fn on_event(&mut self, ev: PathEvent)
        requires
            old(self)@.wf(),
        ensures
            final(self)@ == old(self)@.step(ev),
            final(self)@.wf(),
    {
        proof { lemma_step_keeps_wf(self@, ev); }
        match (self.phase, ev) {
            (PathPhase::ActiveView, PathEvent::Succeeded) => { self.phase = PathPhase::PersistIdList; },
            (PathPhase::ActiveView, PathEvent::Failed(c)) => { self.fail(Stage::ActiveView, c); },
            (PathPhase::PersistIdList, PathEvent::Succeeded) => { self.phase = PathPhase::IdList; },
            (PathPhase::PersistIdList, PathEvent::Failed(c)) => { self.fail(Stage::PersistIdList, c); },
            (PathPhase::IdList, PathEvent::Succeeded) => {
                self.phase = PathPhase::ShellItem;
                self.id_list_acquired = true;
            },
            (PathPhase::IdList, PathEvent::Failed(c)) => { self.fail(Stage::IdList, c); },
            (PathPhase::ShellItem, PathEvent::Succeeded) => { self.phase = PathPhase::DisplayName; },
            (PathPhase::ShellItem, PathEvent::Failed(c)) => { self.fail(Stage::ShellItem, c); },
            (PathPhase::DisplayName, PathEvent::Succeeded) => {
                self.phase = PathPhase::Scan;
                self.name_acquired = true;
            },
            (PathPhase::DisplayName, PathEvent::Failed(c)) => { self.fail(Stage::DisplayName, c); },
            (PathPhase::Scan, PathEvent::Unit(u)) => {
                if u == 0 {
                    self.phase = PathPhase::ReleaseDisplayName;
                } else {
                    self.units.push(u);
                }
            },
            (PathPhase::ReleaseDisplayName, PathEvent::Released) => {
                self.phase = PathPhase::ReleaseIdList;
                self.name_releases = self.name_releases + 1;
            },
            (PathPhase::ReleaseIdList, PathEvent::Released) => {
                self.phase = PathPhase::Done;
                self.id_list_releases = self.id_list_releases + 1;
            },
            _ => {},
        }
    }

    /// The outcome of a finished extraction: the first failure, or the scanned
    /// display name transcoded with lossy substitution.
    pub fn finish(&self) -> (r: Result<String, ExploreError>)
        requires
            self@.wf(),
            self@.phase == PathPhase::Done,
        ensures
            match self@.error {
                Some(e) => r == Err::<String, ExploreError>(e),
                None => r matches Ok(s) && s@ == utf16_lossy(self@.units) && s@.len()
                    <= self@.units.len() && (no_surrogates(self@.units) ==> s@.len()
                    == self@.units.len()),
            },
    {
        match self.error {
            Some(e) => Err(e),
            None => Ok(from_utf16_lossy(self.units.as_slice())),
        }
    }
}

/// Every step of a path extraction keeps it well formed.
pub proof fn lemma_step_keeps_wf(m: PathModel, ev: PathEvent)
    requires
        m.wf(),
    ensures
        m.step(ev).wf(),
{
    if let (PathPhase::Scan, PathEvent::Unit(u)) = (m.phase, ev) {
        if u != 0 {
            assert forall|i: int| 0 <= i < m.units.push(u).len() implies m.units.push(u)[i] != 0 by {
                if i < m.units.len() {
                    assert(m.units.push(u)[i] == m.units[i]);
                }
            }
        }
    }
}

/// Each platform buffer is freed only while it is owned, and a finished
/// extraction, successful or failed, has freed each buffer it acquired exactly
/// once and none that it did not acquire.
pub proof fn lemma_buffers_released_once(m: PathModel)
    requires
        m.wf(),
    ensures
        m.action() == PathAction::ReleaseDisplayName ==> m.name_held(),
        m.action() == PathAction::ReleaseIdList ==> m.id_list_held() && !m.name_held(),
        m.phase == PathPhase::Done ==> m.id_list_releases == (if m.id_list_acquired { 1nat } else { 0nat }),
        m.phase == PathPhase::Done ==> m.name_releases == (if m.name_acquired { 1nat } else { 0nat }),
        m.phase == PathPhase::Done && m.error is None ==> m.id_list_releases == 1 && m.name_releases == 1,
{
}

/// Scanning a display name `p` followed by its terminator reads exactly the
/// units of `p`, decodes them as `utf16_lossy(p)` whatever they hold, and
/// frees both buffers once.
pub proof fn lemma_scan_round_trip(p: Seq<u16>)
    requires
        no_terminator(p),
    ensures
        terminated_at(p.push(0), p.len() as int),
        ({
            let m = PathModel {
                phase: PathPhase::Scan,
                units: p,
                id_list_acquired: true,
                id_list_releases: 0,
                name_acquired: true,
                name_releases: 0,
                error: None,
            };
            let end = m.step(PathEvent::Unit(0)).step(PathEvent::Released).step(PathEvent::Released);
            &&& m.wf()
            &&& end.wf()
            &&& end.phase == PathPhase::Done
            &&& end.units == p
            &&& end.error is None
            &&& end.id_list_releases == 1
            &&& end.name_releases == 1
        }),
{
    assert(p.push(0).take(p.len() as int) == p);
}

} // verus!
