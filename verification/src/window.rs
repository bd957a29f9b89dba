//! Window enumeration and reconciliation.
//!
//! The composition service is the primary source for window metadata; a
//! secondary, lower-level window-list snapshot backfills the owning
//! application name and process id when the primary source leaves them
//! empty. A field the primary source populated is never overwritten.
//! Windows narrower or shorter than ten pixels are non-capturable artifacts
//! and are excluded.

use vstd::prelude::*;

use crate::error::XCapError;
use crate::error::XCapResult;
use crate::error::no_windows_message;

verus! {

/// A window as read from the composition service, before reconciliation.
#[derive(Debug, Clone)]
pub struct RawWindow {
    /// Platform window id.
    pub window_id: u32,
    /// Owning application name; empty when the service exposed none.
    pub app_name: String,
    /// Window title; empty when the service exposed none.
    pub title: String,
    /// Owning process id; negative when the service exposed none.
    pub pid: i32,
    /// Leftmost column in global coordinates.
    pub x: i32,
    /// Topmost row in global coordinates.
    pub y: i32,
    /// Width in pixels.
    pub width: u32,
    /// Height in pixels.
    pub height: u32,
    /// Whether the window is currently on screen.
    pub is_on_screen: bool,
}

/// One entry of the secondary window-list snapshot.
#[derive(Debug, Clone)]
pub struct CgWindowRecord {
    /// Window number; entries with a non-positive number are discarded.
    pub window_id: i32,
    /// Owning application name; empty when absent.
    pub app_name: String,
    /// Window name; empty when absent.
    pub title: String,
    /// Owning process id; negative when absent.
    pub pid: i32,
}

/// The mathematical model of an enumerated window.
pub struct WindowModel {
    /// Platform window id.
    pub window_id: u32,
    /// Owning application name, possibly backfilled.
    pub app_name: Seq<char>,
    /// Window title.
    pub title: Seq<char>,
    /// Owning process id, possibly backfilled; negative means unknown.
    pub pid: int,
    /// Leftmost column in global coordinates.
    pub x: int,
    /// Topmost row in global coordinates.
    pub y: int,
    /// Width in pixels.
    pub width: u32,
    /// Height in pixels.
    pub height: u32,
    /// Whether the window is currently on screen.
    pub is_on_screen: bool,
}

/// A capturable window: an immutable snapshot, reconstructed fresh on every
/// enumeration.
#[derive(Debug, Clone)]
pub struct Window {
    window_id: u32,
    app_name: String,
    title: String,
    pid: i32,
    x: i32,
    y: i32,
    width: u32,
    height: u32,
    is_on_screen: bool,
}

impl View for Window {
    type V = WindowModel;

    closed spec fn view(&self) -> WindowModel {
        WindowModel {
            window_id: self.window_id,
            app_name: self.app_name@,
            title: self.title@,
            pid: self.pid as int,
            x: self.x as int,
            y: self.y as int,
            width: self.width,
            height: self.height,
            is_on_screen: self.is_on_screen,
        }
    }
}

/// The secondary snapshot keeps an entry only when its window number is
/// positive.
pub open spec fn spec_cg_valid(rec: CgWindowRecord) -> bool {
    rec.window_id > 0
}

/// What the secondary snapshot holds for a window id: the last kept entry
/// with that number, mirroring a map filled front to back where later
/// entries replace earlier ones.
pub open spec fn spec_cg_lookup(records: Seq<CgWindowRecord>, window_id: u32) -> Option<
    CgWindowRecord,
>
    decreases records.len(),
{
    if records.len() == 0 {
        None
    } else {
        let last = records[records.len() - 1];
        if spec_cg_valid(last) && last.window_id as int == window_id as int {
            Some(last)
        } else {
            spec_cg_lookup(records.drop_last(), window_id)
        }
    }
}

/// The application name after backfilling: the secondary snapshot fills it
/// only when the primary source left it empty.
pub open spec fn spec_merged_app_name(w: RawWindow, records: Seq<CgWindowRecord>) -> Seq<char> {
    if w.app_name@.len() == 0 || w.pid < 0 {
        match spec_cg_lookup(records, w.window_id) {
            Some(rec) => if w.app_name@.len() == 0 && rec.app_name@.len() > 0 {
                rec.app_name@
            } else {
                w.app_name@
            },
            None => w.app_name@,
        }
    } else {
        w.app_name@
    }
}

/// The process id after backfilling: the secondary snapshot fills it only
/// when the primary source left it negative.
pub open spec fn spec_merged_pid(w: RawWindow, records: Seq<CgWindowRecord>) -> int {
    if w.app_name@.len() == 0 || w.pid < 0 {
        match spec_cg_lookup(records, w.window_id) {
            Some(rec) => if w.pid < 0 && rec.pid >= 0 {
                rec.pid as int
            } else {
                w.pid as int
            },
            None => w.pid as int,
        }
    } else {
        w.pid as int
    }
}

/// A window is large enough to capture.
pub open spec fn spec_window_visible(w: RawWindow) -> bool {
    w.width >= 10 && w.height >= 10
}

/// The model of one reconciled window.
pub open spec fn spec_merged_window(w: RawWindow, records: Seq<CgWindowRecord>) -> WindowModel {
    WindowModel {
        window_id: w.window_id,
        app_name: spec_merged_app_name(w, records),
        title: w.title@,
        pid: spec_merged_pid(w, records),
        x: w.x as int,
        y: w.y as int,
        width: w.width,
        height: w.height,
        is_on_screen: w.is_on_screen,
    }
}

/// The models of the windows that survive reconciliation, in enumeration
/// order: every window of visible size, backfilled from the secondary
/// snapshot.
pub open spec fn spec_surviving(
    windows: Seq<RawWindow>,
    records: Seq<CgWindowRecord>,
) -> Seq<WindowModel>
    decreases windows.len(),
{
    if windows.len() == 0 {
        Seq::empty()
    } else {
        let rest = spec_surviving(windows.drop_first(), records);
        if spec_window_visible(windows[0]) {
            seq![spec_merged_window(windows[0], records)] + rest
        } else {
            rest
        }
    }
}

/// Law: reconciliation distributes over concatenation of the primary
/// snapshot.
proof fn lemma_surviving_concat(
    a: Seq<RawWindow>,
    b: Seq<RawWindow>,
    records: Seq<CgWindowRecord>,
)
    ensures
        spec_surviving(a + b, records) == spec_surviving(a, records) + spec_surviving(b, records),
    decreases a.len(),
{
    if a.len() == 0 {
        assert(a + b =~= b);
        assert(spec_surviving(a, records) + spec_surviving(b, records) =~= spec_surviving(
            b,
            records,
        ));
    } else {
        assert((a + b).len() > 0);
        assert((a + b)[0] == a[0]);
        assert((a + b).drop_first() =~= a.drop_first() + b);
        lemma_surviving_concat(a.drop_first(), b, records);
        if spec_window_visible(a[0]) {
            assert(seq![spec_merged_window(a[0], records)] + (spec_surviving(
                a.drop_first(),
                records,
            ) + spec_surviving(b, records)) =~= (seq![spec_merged_window(a[0], records)]
                + spec_surviving(a.drop_first(), records)) + spec_surviving(b, records));
        }
    }
}

/// Law: every window that survives reconciliation is at least the minimum
/// visible size, ten pixels on each axis.
pub proof fn lemma_surviving_min_size(windows: Seq<RawWindow>, records: Seq<CgWindowRecord>)
    ensures
        forall|i: int|
            0 <= i < spec_surviving(windows, records).len() ==> spec_surviving(windows, records)[i].width
                >= 10 && spec_surviving(windows, records)[i].height >= 10,
    decreases windows.len(),
{
    if windows.len() > 0 {
        lemma_surviving_min_size(windows.drop_first(), records);
        let rest = spec_surviving(windows.drop_first(), records);
        if spec_window_visible(windows[0]) {
            let whole = seq![spec_merged_window(windows[0], records)] + rest;
            assert(spec_surviving(windows, records) == whole);
            assert forall|i: int| 0 <= i < whole.len() implies whole[i].width >= 10
                && whole[i].height >= 10 by {
                if i > 0 {
                    assert(whole[i] == rest[i - 1]);
                }
            }
        }
    }
}

proof fn lemma_cg_lookup_prefix(records: Seq<CgWindowRecord>, window_id: u32, n: int)
    requires
        0 <= n <= records.len(),
        forall|k: int|
            n <= k < records.len() ==> !(spec_cg_valid(records[k]) && records[k].window_id as int
                == window_id as int),
    ensures
        spec_cg_lookup(records, window_id) == spec_cg_lookup(records.take(n), window_id),
    decreases records.len() - n,
{
    if n == records.len() {
        assert(records.take(n) =~= records);
    } else {
        let shorter = records.take(records.len() - 1);
        assert(records.drop_last() =~= shorter);
        lemma_cg_lookup_prefix(shorter, window_id, n);
        assert(shorter.take(n) =~= records.take(n));
    }
}

/// Look a window id up in the secondary snapshot, yielding the application
/// name and process id the snapshot holds for it.
fn cg_lookup(records: &Vec<CgWindowRecord>, window_id: u32) -> (r: Option<(String, i32)>)
    ensures
        match spec_cg_lookup(records@, window_id) {
            Some(rec) => {
                &&& r is Some
                &&& (r->0).0@ == rec.app_name@
                &&& (r->0).1 == rec.pid
            },
            None => r is None,
        },
{
    let mut i: usize = records.len();
    while i > 0
        invariant
            i <= records@.len(),
            forall|k: int|
                i <= k < records@.len() ==> !(spec_cg_valid(records@[k])
                    && records@[k].window_id as int == window_id as int),
        decreases i,
    {
        i = i - 1;
        let rec = &records[i];
        if rec.window_id > 0 && rec.window_id as u32 == window_id {
            proof {
                lemma_cg_lookup_prefix(records@, window_id, i + 1);
                let prefix = records@.take(i + 1);
                assert(prefix[prefix.len() - 1] == records@[i as int]);
            }
            return Some((rec.app_name.clone(), rec.pid));
        }
        proof {
            if spec_cg_valid(records@[i as int]) && records@[i as int].window_id as int
                == window_id as int {
                assert(records@[i as int].window_id as u32 == window_id);
                assert(false);
            }
        }
    }
    proof {
        lemma_cg_lookup_prefix(records@, window_id, 0);
        assert(records@.take(0) =~= Seq::<CgWindowRecord>::empty());
    }
    None
}

impl Window {
    /// Build a window from its fields, as enumeration would.
    pub fn new(
        window_id: u32,
        app_name: &str,
        title: &str,
        pid: i32,
        x: i32,
        y: i32,
        width: u32,
        height: u32,
        is_on_screen: bool,
    ) -> (w: Window)
        ensures
            w@.window_id == window_id,
            w@.app_name == app_name@,
            w@.title == title@,
            w@.pid == pid as int,
            w@.x == x as int,
            w@.y == y as int,
            w@.width == width,
            w@.height == height,
            w@.is_on_screen == is_on_screen,
    {
        Window {
            window_id,
            app_name: String::from_str(app_name),
            title: String::from_str(title),
            pid,
            x,
            y,
            width,
            height,
            is_on_screen,
        }
    }

    /// Reconcile the two window snapshots into the enumerated window set.
    ///
    /// Fails exactly when no window survives: either the composition service
    /// reported none, or every reported window was below the minimum visible
    /// size. Otherwise the result holds exactly the surviving windows, in
    /// enumeration order, each at least ten pixels on both axes.
    pub fn all(windows: Vec<RawWindow>, window_info: Vec<CgWindowRecord>) -> (r: XCapResult<
        Vec<Window>,
    >)
        ensures
            r is Ok <==> spec_surviving(windows@, window_info@).len() > 0,
            r is Err ==> {
                &&& r->Err_0.spec_message() == no_windows_message()
                &&& r->Err_0.spec_source() is None
            },
            r is Ok ==> {
                &&& r->Ok_0@.len() == spec_surviving(windows@, window_info@).len()
                &&& forall|i: int|
                    0 <= i < r->Ok_0@.len() ==> r->Ok_0@[i]@ == spec_surviving(
                        windows@,
                        window_info@,
                    )[i]
                &&& forall|i: int|
                    0 <= i < r->Ok_0@.len() ==> r->Ok_0@[i]@.width >= 10 && r->Ok_0@[i]@.height
                        >= 10
            },
    {
        let n: usize = windows.len();
        if n == 0 {
            return Err(XCapError::no_windows());
        }
        let mut out: Vec<Window> = Vec::new();
        let mut i: usize = 0;
        while i < n
            invariant
                n == windows@.len(),
                i <= n,
                out@.map_values(|w: Window| w@) =~= spec_surviving(
                    windows@.take(i as int),
                    window_info@,
                ),
            decreases n - i,
        {
            let w = &windows[i];
            let ghost before = out@;
            if w.width < 10 || w.height < 10 {
                proof {
                    assert(!spec_window_visible(windows@[i as int]));
                }
            } else {
                let mut app_name = w.app_name.clone();
                let mut pid: i32 = w.pid;
                let name_empty = app_name.as_str().is_empty();
                if name_empty || pid < 0 {
                    match cg_lookup(&window_info, w.window_id) {
                        Some(info) => {
                            let (cg_name, cg_pid) = info;
                            if name_empty && !cg_name.as_str().is_empty() {
                                app_name = cg_name;
                            }
                            if pid < 0 && cg_pid >= 0 {
                                pid = cg_pid;
                            }
                        },
                        None => {},
                    }
                }
                proof {
                    assert(app_name@ == spec_merged_app_name(windows@[i as int], window_info@));
                    assert(pid as int == spec_merged_pid(windows@[i as int], window_info@));
                }
                let window = Window {
                    window_id: w.window_id,
                    app_name,
                    title: w.title.clone(),
                    pid,
                    x: w.x,
                    y: w.y,
                    width: w.width,
                    height: w.height,
                    is_on_screen: w.is_on_screen,
                };
                proof {
                    assert(window@ == spec_merged_window(windows@[i as int], window_info@));
                }
                out.push(window);
            }
            proof {
                let wi = windows@[i as int];
                let taken = windows@.take(i as int);
                assert(windows@.take(i + 1) =~= taken + seq![wi]);
                lemma_surviving_concat(taken, seq![wi], window_info@);
                assert(seq![wi].len() == 1 && seq![wi][0] == wi);
                assert(seq![wi].drop_first() =~= Seq::<RawWindow>::empty());
                assert(spec_surviving(Seq::<RawWindow>::empty(), window_info@)
                    =~= Seq::<WindowModel>::empty());
                assert(spec_surviving(seq![wi].drop_first(), window_info@)
                    =~= Seq::<WindowModel>::empty());
                if spec_window_visible(wi) {
                    assert(spec_surviving(seq![wi], window_info@) =~= seq![spec_merged_window(
                        wi,
                        window_info@,
                    )]);
                    assert(out@.map_values(|w: Window| w@) =~= before.map_values(|w: Window| w@)
                        + seq![out@[out@.len() - 1]@]);
                } else {
                    assert(spec_surviving(seq![wi], window_info@) =~= Seq::<WindowModel>::empty());
                }
                assert(out@.map_values(|w: Window| w@) =~= spec_surviving(
                    windows@.take(i + 1),
                    window_info@,
                ));
            }
            i = i + 1;
        }
        proof {
            assert(windows@.take(n as int) =~= windows@);
        }
        if out.len() == 0 {
            return Err(XCapError::no_windows());
        }
        proof {
            lemma_surviving_min_size(windows@, window_info@);
            let surv = spec_surviving(windows@, window_info@);
            assert(out@.map_values(|w: Window| w@) == surv);
            assert(out@.len() == out@.map_values(|w: Window| w@).len());
            assert forall|k: int| 0 <= k < out@.len() implies out@[k]@ == surv[k] by {
                assert(out@.map_values(|w: Window| w@)[k] == out@[k]@);
            }
            assert forall|k: int| 0 <= k < out@.len() implies out@[k]@.width >= 10
                && out@[k]@.height >= 10 by {
                assert(out@[k]@ == surv[k]);
                assert(surv[k].width >= 10 && surv[k].height >= 10);
            }
        }
        Ok(out)
    }

    /// Platform window id.
    pub fn id(&self) -> (r: XCapResult<u32>)
        ensures
            r is Ok,
            r->Ok_0 == self@.window_id,
    {
        Ok(self.window_id)
    }

    /// Platform window id, without the result wrapper.
    pub fn raw_id(&self) -> (r: u32)
        ensures
            r == self@.window_id,
    {
        self.window_id
    }

    /// Owning process id. Unknown when neither metadata source supplied one.
    pub fn pid(&self) -> (r: XCapResult<u32>)
        ensures
            r is Ok <==> self@.pid >= 0,
            r is Ok ==> r->Ok_0 == self@.pid,
            r is Err ==> {
                &&& r->Err_0.spec_message() == "Process ID not available"@
                &&& r->Err_0.spec_source() is None
            },
    {
        if self.pid < 0 {
            return Err(XCapError::new("Process ID not available"));
        }
        Ok(self.pid as u32)
    }

    /// Owning application name; empty when unavailable from either source.
    pub fn app_name(&self) -> (r: XCapResult<String>)
        ensures
            r is Ok,
            r->Ok_0@ == self@.app_name,
    {
        Ok(self.app_name.clone())
    }

    /// Window title; empty when unavailable.
    pub fn title(&self) -> (r: XCapResult<String>)
        ensures
            r is Ok,
            r->Ok_0@ == self@.title,
    {
        Ok(self.title.clone())
    }

    /// Leftmost column in global coordinates.
    pub fn x(&self) -> (r: XCapResult<i32>)
        ensures
            r is Ok,
            r->Ok_0 == self@.x,
    {
        Ok(self.x)
    }

    /// Topmost row in global coordinates.
    pub fn y(&self) -> (r: XCapResult<i32>)
        ensures
            r is Ok,
            r->Ok_0 == self@.y,
    {
        Ok(self.y)
    }

    /// Width in pixels.
    pub fn width(&self) -> (r: XCapResult<u32>)
        ensures
            r is Ok,
            r->Ok_0 == self@.width,
    {
        Ok(self.width)
    }

    /// Height in pixels.
    pub fn height(&self) -> (r: XCapResult<u32>)
        ensures
            r is Ok,
            r->Ok_0 == self@.height,
    {
        Ok(self.height)
    }

    /// Whether the window is minimized: derived as the negation of the
    /// on-screen flag at enumeration time.
    pub fn is_minimized(&self) -> (r: XCapResult<bool>)
        ensures
            r is Ok,
            r->Ok_0 == !self@.is_on_screen,
    {
        Ok(!self.is_on_screen)
    }

    /// Whether the window is maximized. The platform exposes no such state;
    /// always false.
    pub fn is_maximized(&self) -> (r: XCapResult<bool>)
        ensures
            r is Ok,
            r->Ok_0 == false,
    {
        Ok(false)
    }

    /// Whether the window is focused. The platform exposes no focus state,
    /// so the answer is unknown and asking is an error.
    pub fn is_focused(&self) -> (r: XCapResult<bool>)
        ensures
            r is Err,
            r->Err_0.spec_message() == "Window focus state is not available"@,
            r->Err_0.spec_source() is None,
    {
        Err(XCapError::new("Window focus state is not available"))
    }

    /// Whether the window is currently on screen.
    pub fn is_on_screen(&self) -> (r: bool)
        ensures
            r == self@.is_on_screen,
    {
        self.is_on_screen
    }
}

} // verus!
