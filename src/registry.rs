use vstd::prelude::*;
use crate::error::ExploreError;

verus! {

/// The status a collection enumerator returns when it has no more elements.
pub const S_FALSE: i32 = 1;

/// The variant tag of an object/dispatchable element.
pub const VT_DISPATCH: u16 = 9;

/// A shell window found in the collection: its shell-browser capability and the
/// native handle of the window it controls.
pub struct SubExploreInfo<B> {
    pub shell_browser: B,
    pub hwnd: isize,
}

/// Where a scan of the shell window collection stands.
#[derive(Clone, Copy, Debug, PartialEq, Eq, Structural)]
pub enum ScanPhase {
    Fetch,
    Dispatch,
    Browser,
    Window,
    Done,
}

/// The next platform call the host makes for a scan.
#[derive(Clone, Copy, Debug, PartialEq, Eq, Structural)]
pub enum ScanAction {
    /// Fetch one element from the collection's enumerator.
    FetchNext,
    /// Convert the fetched element to its object/dispatchable capability.
    ToDispatch,
    /// Query the object for its top-level shell-browser service.
    QueryBrowser,
    /// Ask the shell browser for its window handle.
    GetWindow,
    /// Nothing is left to call: take the outcome with `finish`.
    Finish,
}

/// What the host reports back after performing a `ScanAction`.
pub enum ScanEvent<B> {
    /// The enumerator's status, the number of elements fetched, and the tag
    /// of the element.
    Fetched { status: i32, count: u32, tag: u16 },
    /// Whether the element converted to a dispatchable object.
    Dispatch(bool),
    /// The service query succeeded, or failed with a status code.
    Browser(Result<(), i32>),
    /// The shell browser and its window handle, or the status code of the
    /// failed handle query.
    Window(Result<(B, isize), i32>),
}

/// The element is usable: fetched, not past the end, and dispatchable.
pub open spec fn fetch_usable(status: i32, count: u32, tag: u16) -> bool {
    status != S_FALSE && count != 0 && tag == VT_DISPATCH
}

/// The fetch reports the end of the collection.
pub open spec fn fetch_exhausted(status: i32, count: u32) -> bool {
    status == S_FALSE || count == 0
}

/// The scan of the shell window collection: fetches elements one at a time
/// until the enumerator reports no more, skips any element that is not
/// dispatchable, and records each remaining window in enumeration order. A
/// failed service query or handle query ends the whole scan with an error.
pub struct SubExploreScan<B> {
    pub phase: ScanPhase,
    pub found: Vec<SubExploreInfo<B>>,
    pub error: Option<ExploreError>,
}

/// The abstract state of a scan.
pub struct ScanModel<B> {
    pub phase: ScanPhase,
    pub found: Seq<SubExploreInfo<B>>,
    pub error: Option<ExploreError>,
}

impl<B> ScanModel<B> {
    /// A fresh scan.
    pub open spec fn start() -> ScanModel<B> {
        ScanModel { phase: ScanPhase::Fetch, found: Seq::empty(), error: None }
    }

    /// The state after `ev` answers the current action.
    pub open spec fn step(self, ev: ScanEvent<B>) -> ScanModel<B> {
        ScanModel {
            phase: SubExploreScan::<B>::next_phase(self.phase, ev),
            found: match (self.phase, ev) {
                (ScanPhase::Window, ScanEvent::Window(Ok((b, h)))) => self.found.push(
                    SubExploreInfo { shell_browser: b, hwnd: h },
                ),
                _ => self.found,
            },
            error: if self.error is Some {
                self.error
            } else {
                SubExploreScan::<B>::fatal(self.phase, ev)
            },
        }
    }

    /// The state after each of `evs` in turn.
    pub open spec fn run(self, evs: Seq<ScanEvent<B>>) -> ScanModel<B>
        decreases evs.len(),
    {
        if evs.len() == 0 {
            self
        } else {
            self.run(evs.drop_last()).step(evs.last())
        }
    }
}

/// One element of the shell window collection as the platform presents it:
/// its tag, whether it converts to a dispatchable object, and the shell
/// browser and window handle it leads to.
pub struct ScanElement<B> {
    pub tag: u16,
    pub converts: bool,
    pub shell_browser: B,
    pub hwnd: isize,
}

/// The events the host reports for one fetched element whose browser and
/// window queries succeed.
pub open spec fn element_events<B>(e: ScanElement<B>) -> Seq<ScanEvent<B>> {
    if e.tag != VT_DISPATCH {
        seq![ScanEvent::Fetched { status: 0, count: 1, tag: e.tag }]
    } else if !e.converts {
        seq![ScanEvent::Fetched { status: 0, count: 1, tag: e.tag }, ScanEvent::Dispatch(false)]
    } else {
        seq![
            ScanEvent::Fetched { status: 0, count: 1, tag: e.tag },
            ScanEvent::Dispatch(true),
            ScanEvent::Browser(Ok(())),
            ScanEvent::Window(Ok((e.shell_browser, e.hwnd))),
        ]
    }
}

/// The events the host reports for the elements `es`, in order.
pub open spec fn elements_events<B>(es: Seq<ScanElement<B>>) -> Seq<ScanEvent<B>>
    decreases es.len(),
{
    if es.len() == 0 {
        Seq::empty()
    } else {
        elements_events(es.drop_last()) + element_events(es.last())
    }
}

/// The windows of the dispatchable elements of `es` that convert, in order.
pub open spec fn usable_windows<B>(es: Seq<ScanElement<B>>) -> Seq<SubExploreInfo<B>>
    decreases es.len(),
{
    if es.len() == 0 {
        Seq::empty()
    } else if es.last().tag == VT_DISPATCH && es.last().converts {
        usable_windows(es.drop_last()).push(
            SubExploreInfo { shell_browser: es.last().shell_browser, hwnd: es.last().hwnd },
        )
    } else {
        usable_windows(es.drop_last())
    }
}

/// The event of the enumerator reporting no more elements.
pub open spec fn end_event<B>() -> ScanEvent<B> {
    ScanEvent::Fetched { status: S_FALSE, count: 0, tag: 0 }
}

impl<B> View for SubExploreScan<B> {
    type V = ScanModel<B>;

    open spec fn view(&self) -> ScanModel<B> {
        ScanModel { phase: self.phase, found: self.found@, error: self.error }
    }
}

impl<B> SubExploreScan<B> {
    /// The phase after `ev` answers the action of `phase`.
    pub open spec fn next_phase(phase: ScanPhase, ev: ScanEvent<B>) -> ScanPhase {
        match (phase, ev) {
            (ScanPhase::Fetch, ScanEvent::Fetched { status, count, tag }) =>
                if fetch_exhausted(status, count) {
                    ScanPhase::Done
                } else if tag == VT_DISPATCH {
                    ScanPhase::Dispatch
                } else {
                    ScanPhase::Fetch
                },
            (ScanPhase::Dispatch, ScanEvent::Dispatch(ok)) =>
                if ok { ScanPhase::Browser } else { ScanPhase::Fetch },
            (ScanPhase::Browser, ScanEvent::Browser(r)) =>
                if r is Ok { ScanPhase::Window } else { ScanPhase::Done },
            (ScanPhase::Window, ScanEvent::Window(r)) =>
                if r is Ok { ScanPhase::Fetch } else { ScanPhase::Done },
            _ => phase,
        }
    }

    /// The error recorded by `ev` in `phase`, if it is fatal.
    pub open spec fn fatal(phase: ScanPhase, ev: ScanEvent<B>) -> Option<ExploreError> {
        match (phase, ev) {
            (ScanPhase::Browser, ScanEvent::Browser(Err(c))) => Some(ExploreError::BrowserQuery(c)),
            (ScanPhase::Window, ScanEvent::Window(Err(c))) => Some(ExploreError::WindowHandle(c)),
            _ => None,
        }
    }

    pub open spec fn wf(&self) -> bool {
        self.error is Some ==> self.phase == ScanPhase::Done
    }

    /// The call the host makes next in `phase`.
    pub open spec fn action_of(phase: ScanPhase) -> ScanAction {
        match phase {
            ScanPhase::Fetch => ScanAction::FetchNext,
            ScanPhase::Dispatch => ScanAction::ToDispatch,
            ScanPhase::Browser => ScanAction::QueryBrowser,
            ScanPhase::Window => ScanAction::GetWindow,
            ScanPhase::Done => ScanAction::Finish,
        }
    }

    /// A fresh scan, about to fetch the first element.
    pub fn new() -> (r: SubExploreScan<B>)
        ensures
            r.wf(),
            r.phase == ScanPhase::Fetch,
            r.found@.len() == 0,
            r.error is None,
    {
        SubExploreScan { phase: ScanPhase::Fetch, found: Vec::new(), error: None }
    }

    /// The call the host makes next.
    pub fn next_action(&self) -> (r: ScanAction)
        ensures
            r == Self::action_of(self.phase),
    {
        match self.phase {
            ScanPhase::Fetch => ScanAction::FetchNext,
            ScanPhase::Dispatch => ScanAction::ToDispatch,
            ScanPhase::Browser => ScanAction::QueryBrowser,
            ScanPhase::Window => ScanAction::GetWindow,
            ScanPhase::Done => ScanAction::Finish,
        }
    }

    /// Takes the outcome of the current action. A window handle that arrives
    /// while the scan waits for one is recorded with its shell browser.
    pub fn on_event(&mut self, ev: ScanEvent<B>)
        requires
            old(self).wf(),
        ensures
            final(self).wf(),
            final(self).phase == Self::next_phase(old(self).phase, ev),
            final(self).error == (if old(self).error is Some {
                old(self).error
            } else {
                Self::fatal(old(self).phase, ev)
            }),
            match (old(self).phase, ev) {
                (ScanPhase::Window, ScanEvent::Window(Ok((b, h)))) => final(self).found@
                    == old(self).found@.push(SubExploreInfo { shell_browser: b, hwnd: h }),
                _ => final(self).found@ == old(self).found@,
            },
            final(self)@ == old(self)@.step(ev),
    {
        let phase = self.phase;
        match ev {
            ScanEvent::Fetched { status, count, tag } => {
                if phase == ScanPhase::Fetch {
                    if status == S_FALSE || count == 0 {
                        self.phase = ScanPhase::Done;
                    } else if tag == VT_DISPATCH {
                        self.phase = ScanPhase::Dispatch;
                    }
                }
            },
            ScanEvent::Dispatch(ok) => {
                if phase == ScanPhase::Dispatch {
                    self.phase = if ok { ScanPhase::Browser } else { ScanPhase::Fetch };
                }
            },
            ScanEvent::Browser(r) => {
                if phase == ScanPhase::Browser {
                    match r {
                        Ok(()) => { self.phase = ScanPhase::Window; },
                        Err(c) => {
                            self.phase = ScanPhase::Done;
                            self.error = Some(ExploreError::BrowserQuery(c));
                        },
                    }
                }
            },
            ScanEvent::Window(r) => {
                if phase == ScanPhase::Window {
                    match r {
                        Ok((b, h)) => {
                            self.found.push(SubExploreInfo { shell_browser: b, hwnd: h });
                            self.phase = ScanPhase::Fetch;
                        },
                        Err(c) => {
                            self.phase = ScanPhase::Done;
                            self.error = Some(ExploreError::WindowHandle(c));
                        },
                    }
                }
            },
        }
    }

    /// The outcome of a finished scan: the recorded error, or every window
    /// found, in enumeration order.
    pub fn finish(self) -> (r: Result<Vec<SubExploreInfo<B>>, ExploreError>)
        requires
            self.phase == ScanPhase::Done,
        ensures
            match self.error {
                Some(e) => r matches Err(x) && x == e,
                None => r matches Ok(v) && v@ == self.found@,
            },
    {
        match self.error {
            Some(e) => Err(e),
            None => Ok(self.found),
        }
    }
}

/// Running `a` then `b` is running `a + b`.
pub proof fn lemma_run_append<B>(m: ScanModel<B>, a: Seq<ScanEvent<B>>, b: Seq<ScanEvent<B>>)
    ensures
        m.run(a + b) == m.run(a).run(b),
    decreases b.len(),
{
    if b.len() == 0 {
        assert(a + b == a);
    } else {
        assert((a + b).drop_last() == a + b.drop_last());
        assert((a + b).last() == b.last());
        lemma_run_append(m, a, b.drop_last());
    }
}

/// From the fetch phase, one element's events lead back to the fetch phase,
/// adding its window exactly when it is dispatchable and converts.
pub proof fn lemma_element_run<B>(m: ScanModel<B>, e: ScanElement<B>)
    requires
        m.phase == ScanPhase::Fetch,
        m.error is None,
    ensures
        m.run(element_events(e)) == (ScanModel {
            phase: ScanPhase::Fetch,
            found: if e.tag == VT_DISPATCH && e.converts {
                m.found.push(SubExploreInfo { shell_browser: e.shell_browser, hwnd: e.hwnd })
            } else {
                m.found
            },
            error: None::<ExploreError>,
        }),
{
    let evs = element_events(e);
    reveal_with_fuel(ScanModel::run, 5);
    if e.tag != VT_DISPATCH {
        assert(evs.drop_last() =~= Seq::<ScanEvent<B>>::empty());
    } else if !e.converts {
        assert(evs.drop_last().drop_last() =~= Seq::<ScanEvent<B>>::empty());
    } else {
        assert(evs.drop_last().drop_last().drop_last().drop_last() =~= Seq::<ScanEvent<B>>::empty());
    }
}

/// A whole scan over elements whose browser and window queries succeed ends
/// without error and finds exactly the windows of the dispatchable elements
/// that convert, in enumeration order; any other element is left out and
/// causes no failure.
pub proof fn lemma_scan_finds_usable_windows<B>(es: Seq<ScanElement<B>>)
    ensures
        ScanModel::<B>::start().run(elements_events(es)) == (ScanModel {
            phase: ScanPhase::Fetch,
            found: usable_windows(es),
            error: None::<ExploreError>,
        }),
        ScanModel::<B>::start().run(elements_events(es).push(end_event())) == (ScanModel {
            phase: ScanPhase::Done,
            found: usable_windows(es),
            error: None::<ExploreError>,
        }),
    decreases es.len(),
{
    let m = ScanModel::<B>::start();
    if es.len() > 0 {
        lemma_scan_finds_usable_windows(es.drop_last());
        lemma_run_append(m, elements_events(es.drop_last()), element_events(es.last()));
        lemma_element_run(m.run(elements_events(es.drop_last())), es.last());
    }
    let evs = elements_events(es).push(end_event());
    assert(evs.drop_last() == elements_events(es));
}

/// Elements that are not dispatchable, inserted anywhere between whole
/// elements, change nothing: from the fetch phase each is skipped, with the
/// windows found, the phase and the error as they were.
pub proof fn lemma_non_dispatchable_invisible<B>(
    m: ScanModel<B>,
    before: Seq<ScanEvent<B>>,
    others: Seq<ScanElement<B>>,
    after: Seq<ScanEvent<B>>,
)
    requires
        m.run(before).phase == ScanPhase::Fetch,
        m.run(before).error is None,
        forall|i: int| 0 <= i < others.len() ==> others[i].tag != VT_DISPATCH,
    ensures
        m.run(before + elements_events(others) + after) == m.run(before + after),
{
    let k = m.run(before);
    assert(k.run(elements_events(others)) == k) by {
        lemma_skips_keep_state(k, others);
    }
    lemma_run_append(m, before, elements_events(others));
    lemma_run_append(m, before + elements_events(others), after);
    lemma_run_append(m, before, after);
}

proof fn lemma_skips_keep_state<B>(k: ScanModel<B>, others: Seq<ScanElement<B>>)
    requires
        k.phase == ScanPhase::Fetch,
        k.error is None,
        forall|i: int| 0 <= i < others.len() ==> others[i].tag != VT_DISPATCH,
    ensures
        k.run(elements_events(others)) == k,
    decreases others.len(),
{
    if others.len() > 0 {
        let rest = others.drop_last();
        assert forall|i: int| 0 <= i < rest.len() implies rest[i].tag != VT_DISPATCH by {
            assert(rest[i] == others[i]);
        }
        lemma_skips_keep_state(k, rest);
        lemma_run_append(k, elements_events(rest), element_events(others.last()));
        lemma_element_run(k, others.last());
    }
}

/// A failed shell-browser query ends the whole scan: whatever the host reports
/// afterwards, the scan stays done with that failure and its windows as they
/// were, asks for no window handle, and `finish` yields the error.
pub proof fn lemma_browser_failure_ends_run<B>(m: ScanModel<B>, code: i32, later: Seq<ScanEvent<B>>)
    requires
        m.phase == ScanPhase::Browser,
        m.error is None,
    ensures
        m.step(ScanEvent::Browser(Err(code))).run(later) == (ScanModel {
            phase: ScanPhase::Done,
            found: m.found,
            error: Some(ExploreError::BrowserQuery(code)),
        }),
        SubExploreScan::<B>::action_of(m.step(ScanEvent::Browser(Err(code))).run(later).phase)
            == ScanAction::Finish,
    decreases later.len(),
{
    if later.len() > 0 {
        lemma_browser_failure_ends_run(m, code, later.drop_last());
    }
}

/// An element that is not object/dispatchable is skipped: the scan fetches the
/// next element, records nothing and does not fail.
pub proof fn lemma_non_dispatchable_skipped<B>(status: i32, count: u32, tag: u16)
    requires
        !fetch_exhausted(status, count),
        tag != VT_DISPATCH,
    ensures
        SubExploreScan::<B>::next_phase(ScanPhase::Fetch, ScanEvent::Fetched { status, count, tag })
            == ScanPhase::Fetch,
        SubExploreScan::<B>::fatal(ScanPhase::Fetch, ScanEvent::Fetched { status, count, tag }) is None,
{
}

/// A failed shell-browser query ends the scan: it is done, it records the
/// failure, and no later event changes that.
pub proof fn lemma_browser_failure_is_fatal<B>(code: i32, later: ScanEvent<B>)
    ensures
        SubExploreScan::<B>::next_phase(ScanPhase::Browser, ScanEvent::Browser(Err(code)))
            == ScanPhase::Done,
        SubExploreScan::<B>::fatal(ScanPhase::Browser, ScanEvent::Browser(Err(code)))
            == Some(ExploreError::BrowserQuery(code)),
        SubExploreScan::<B>::next_phase(ScanPhase::Done, later) == ScanPhase::Done,
{
}

} // verus!
