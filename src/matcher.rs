use vstd::prelude::*;

verus! {

/// The platform a descriptor was produced on.
#[derive(Clone, Copy, Debug, PartialEq, Eq, Structural)]
pub enum Platform {
    Unknown,
    Windows,
    MacOS,
}

impl Default for Platform {
    fn default() -> (r: Platform)
        ensures
            r == Platform::Unknown,
    {
        Platform::Unknown
    }
}

/// The descriptor of the focused file-manager window.
#[derive(Clone, Debug)]
pub struct AppInfo {
    /// Native handle of the foreground window.
    pub hwnd_id: isize,
    /// Title of the foreground window.
    pub title: String,
    /// Bundle identifier (empty on Windows).
    pub bundle_id: String,
    /// Whether the window is the active one.
    pub is_active: bool,
    /// The folder the matched file-manager window shows, or empty.
    pub dir: String,
    /// Executable path of the foreground window's process.
    pub exec_path: String,
    /// The platform the descriptor was produced on.
    pub platform: Platform,
}

/// What the foreground lookups report: the window, its title, its owning
/// process id and the executable of that process.
#[derive(Clone, Debug)]
pub struct ForegroundInfo {
    pub hwnd: isize,
    pub title: String,
    pub process_id: u32,
    pub exec_path: String,
}

/// An enumerated file-manager window: the folder it shows and the process id
/// that owns it.
#[derive(Clone, Debug)]
pub struct ViewRecord {
    pub dir: String,
    pub process_id: u32,
}

/// The folder of the last window in `views` owned by process `pid`, or empty
/// where none is.
pub open spec fn matched_dir(pid: u32, views: Seq<ViewRecord>) -> Seq<char>
    decreases views.len(),
{
    if views.len() == 0 {
        Seq::empty()
    } else if views.last().process_id == pid {
        views.last().dir@
    } else {
        matched_dir(pid, views.drop_last())
    }
}

/// `info` is the descriptor of `foreground` matched against `views`: active,
/// on Windows, with the folder of the last of `views` owned by the foreground
/// process, or an empty folder where none is.
pub open spec fn describes(info: AppInfo, foreground: ForegroundInfo, views: Seq<ViewRecord>) -> bool {
    &&& info.hwnd_id == foreground.hwnd
    &&& info.title@ == foreground.title@
    &&& info.bundle_id@ == Seq::<char>::empty()
    &&& info.is_active
    &&& info.dir@ == matched_dir(foreground.process_id, views)
    &&& info.exec_path@ == foreground.exec_path@
    &&& info.platform == Platform::Windows
}

/// Builds the descriptor from the foreground window and the enumerated
/// windows, in enumeration order.
pub fn assemble_app_info(foreground: ForegroundInfo, views: &Vec<ViewRecord>) -> (r: AppInfo)
    ensures
        describes(r, foreground, views@),
{
    let mut dir = String::new();
    let mut i: usize = 0;
    while i < views.len()
        invariant
            i <= views@.len(),
            dir@ == matched_dir(foreground.process_id, views@.take(i as int)),
        decreases views@.len() - i,
    {
        assert(views@.take(i as int + 1).drop_last() == views@.take(i as int));
        if views[i].process_id == foreground.process_id {
            dir = views[i].dir.clone();
        }
        i = i + 1;
    }
    assert(views@.take(i as int) == views@);
    AppInfo {
        hwnd_id: foreground.hwnd,
        title: foreground.title,
        bundle_id: String::new(),
        is_active: true,
        dir,
        exec_path: foreground.exec_path,
        platform: Platform::Windows,
    }
}

/// With no enumerated windows the folder is empty.
pub proof fn lemma_no_windows_empty_dir(pid: u32)
    ensures
        matched_dir(pid, Seq::<ViewRecord>::empty()) == Seq::<char>::empty(),
{
}

/// Where exactly one enumerated window is owned by the foreground process, the
/// folder is that window's folder.
pub proof fn lemma_single_match(pid: u32, views: Seq<ViewRecord>, k: int)
    requires
        0 <= k < views.len(),
        views[k].process_id == pid,
        forall|j: int| 0 <= j < views.len() && j != k ==> views[j].process_id != pid,
    ensures
        matched_dir(pid, views) == views[k].dir@,
{
    lemma_last_match_wins(pid, views, k);
}

/// Where several enumerated windows are owned by the foreground process, the
/// folder is that of the last of them in enumeration order.
pub proof fn lemma_last_match_wins(pid: u32, views: Seq<ViewRecord>, k: int)
    requires
        0 <= k < views.len(),
        views[k].process_id == pid,
        forall|j: int| k < j < views.len() ==> views[j].process_id != pid,
    ensures
        matched_dir(pid, views) == views[k].dir@,
    decreases views.len(),
{
    if k < views.len() - 1 {
        let rest = views.drop_last();
        assert forall|j: int| k < j < rest.len() implies rest[j].process_id != pid by {
            assert(rest[j] == views[j]);
        }
        lemma_last_match_wins(pid, rest, k);
    }
}

} // verus!
