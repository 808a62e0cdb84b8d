use vstd::prelude::*;

verus! {

/// The negotiation or retrieval step of a path extraction.
#[derive(Clone, Copy, Debug, PartialEq, Eq, Structural)]
pub enum Stage {
    /// The browser's active view.
    ActiveView,
    /// The view's persisted item-identifier capability.
    PersistIdList,
    /// The raw item-identifier list.
    IdList,
    /// The shell item resolved from the identifier list.
    ShellItem,
    /// The item's display name in absolute parsing form.
    DisplayName,
}

/// A fatal condition of a discovery call, with the platform's status code.
#[derive(Clone, Copy, Debug, PartialEq, Eq, Structural)]
pub enum ExploreError {
    /// The COM apartment could not be established.
    Initialize(i32),
    /// The shell window collection or its enumerator could not be obtained.
    Collection(i32),
    /// A dispatchable window object did not yield a shell browser.
    BrowserQuery(i32),
    /// A shell browser did not report its window handle.
    WindowHandle(i32),
    /// A step of extracting a browser's folder path failed.
    Path(Stage, i32),
    /// The executable of the foreground window could not be read.
    ExecutablePath(i32),
}

} // verus!
