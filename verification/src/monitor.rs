//! Display enumeration and reconciliation.
//!
//! The composition service and the low-level display interface disagree on
//! units: the service reports the capture dimensions frame requests must use,
//! while the low-level interface reports physical panel pixels and logical
//! (UI layout) bounds. The reconciler keeps the service's dimensions for
//! capture, surfaces the others for information, derives a best-effort scale
//! factor, and marks exactly one display primary.

use vstd::prelude::*;

use crate::capture::Frame;
use crate::error::XCapError;
use crate::error::XCapResult;
use crate::error::no_monitors_message;
use crate::text::spec_decimal;
use crate::text::u32_to_decimal;

verus! {

/// One display's metadata as read at enumeration time from both query
/// surfaces, before reconciliation.
#[derive(Debug, Clone, Copy, PartialEq, Eq, Structural)]
pub struct RawDisplay {
    /// Platform display id.
    pub display_id: u32,
    /// Frame in the global logical coordinate space, from the composition
    /// service.
    pub frame: Frame,
    /// Capture width reported by the composition service.
    pub width: u32,
    /// Capture height reported by the composition service.
    pub height: u32,
    /// Physical panel width from the low-level display interface.
    pub physical_width: u32,
    /// Physical panel height from the low-level display interface.
    pub physical_height: u32,
    /// Logical (UI layout) width from the low-level display interface.
    pub logical_width: u32,
    /// Logical (UI layout) height from the low-level display interface.
    pub logical_height: u32,
}

/// A capturable display: an immutable snapshot, reconstructed fresh on every
/// enumeration.
#[derive(Debug, Clone)]
pub struct Monitor {
    display_id: u32,
    name: String,
    x: i32,
    y: i32,
    width: u32,
    height: u32,
    logical_width: u32,
    logical_height: u32,
    scale_factor: u64,
    is_primary: bool,
}

/// The synthesized name of a display: the platform exposes none, so it is
/// written from the id.
pub open spec fn monitor_name(display_id: u32) -> Seq<char> {
    "Display "@ + spec_decimal(display_id as nat)
}

/// The best-effort scale factor in thousandths: the ratio of physical to
/// capture pixels, averaged over both axes and floored at one; one when the
/// capture dimensions are zero and the ratio is undeterminable.
pub open spec fn spec_scale_factor_milli(
    physical_width: int,
    physical_height: int,
    capture_width: int,
    capture_height: int,
) -> int {
    if capture_width > 0 && capture_height > 0 {
        let width_scale = 1000 * physical_width / capture_width;
        let height_scale = 1000 * physical_height / capture_height;
        let average = (width_scale + height_scale) / 2;
        if average > 1000 {
            average
        } else {
            1000
        }
    } else {
        1000
    }
}

/// The display's frame origin is exactly the global origin.
pub open spec fn display_origin_is_zero(d: RawDisplay) -> bool {
    d.frame.x == 0 && d.frame.y == 0
}

/// Index of the first display whose origin is the global origin; the length
/// of the sequence when none qualifies.
pub open spec fn spec_zero_origin_index(displays: Seq<RawDisplay>) -> int
    decreases displays.len(),
{
    if displays.len() == 0 {
        0
    } else if display_origin_is_zero(displays[0]) {
        0
    } else {
        1 + spec_zero_origin_index(displays.drop_first())
    }
}

/// Index of the primary display: the first with origin `(0, 0)`, falling
/// back to the first display enumerated when none matches.
pub open spec fn spec_primary_index(displays: Seq<RawDisplay>) -> int {
    if spec_zero_origin_index(displays) < displays.len() {
        spec_zero_origin_index(displays)
    } else {
        0
    }
}

proof fn lemma_zero_origin_index(displays: Seq<RawDisplay>)
    ensures
        0 <= spec_zero_origin_index(displays) <= displays.len(),
        spec_zero_origin_index(displays) < displays.len() ==> display_origin_is_zero(
            displays[spec_zero_origin_index(displays)],
        ),
        forall|k: int|
            0 <= k < spec_zero_origin_index(displays) ==> !display_origin_is_zero(displays[k]),
    decreases displays.len(),
{
    if displays.len() > 0 && !display_origin_is_zero(displays[0]) {
        lemma_zero_origin_index(displays.drop_first());
        assert forall|k: int|
            0 <= k < spec_zero_origin_index(displays) implies !display_origin_is_zero(
            displays[k],
        ) by {
            if k > 0 {
                assert(displays.drop_first()[k - 1] == displays[k]);
            }
        }
    }
}

/// The reconciled monitor carries exactly this raw display's data.
pub open spec fn monitor_reconciled(m: Monitor, d: RawDisplay, primary: bool) -> bool {
    &&& m.spec_id() == d.display_id
    &&& m.spec_name() == monitor_name(d.display_id)
    &&& m.spec_x() == d.frame.x
    &&& m.spec_y() == d.frame.y
    &&& m.spec_width() == d.width
    &&& m.spec_height() == d.height
    &&& m.spec_logical_width() == d.logical_width
    &&& m.spec_logical_height() == d.logical_height
    &&& m.spec_scale_factor() == spec_scale_factor_milli(
        d.physical_width as int,
        d.physical_height as int,
        d.width as int,
        d.height as int,
    )
    &&& m.spec_is_primary() == primary
}

/// How many monitors in the sequence are marked primary.
pub open spec fn spec_primary_count(monitors: Seq<Monitor>) -> int
    decreases monitors.len(),
{
    if monitors.len() == 0 {
        0
    } else {
        (if monitors[0].spec_is_primary() {
            1int
        } else {
            0int
        }) + spec_primary_count(monitors.drop_first())
    }
}

proof fn lemma_primary_count_zero(monitors: Seq<Monitor>)
    requires
        forall|i: int| 0 <= i < monitors.len() ==> !monitors[i].spec_is_primary(),
    ensures
        spec_primary_count(monitors) == 0,
    decreases monitors.len(),
{
    if monitors.len() > 0 {
        lemma_primary_count_zero(monitors.drop_first());
    }
}

proof fn lemma_primary_count_single(monitors: Seq<Monitor>, j: int)
    requires
        0 <= j < monitors.len(),
        forall|i: int| 0 <= i < monitors.len() ==> (monitors[i].spec_is_primary() <==> i == j),
    ensures
        spec_primary_count(monitors) == 1,
    decreases monitors.len(),
{
    if j == 0 {
        assert forall|i: int| 0 <= i < monitors.drop_first().len() implies !monitors.drop_first()[i].spec_is_primary() by {
            assert(monitors.drop_first()[i] == monitors[i + 1]);
        }
        lemma_primary_count_zero(monitors.drop_first());
    } else {
        lemma_primary_count_single(monitors.drop_first(), j - 1);
    }
}

/// Scale factor in thousandths, matching [`spec_scale_factor_milli`].
fn scale_factor_milli(
    physical_width: u32,
    physical_height: u32,
    capture_width: u32,
    capture_height: u32,
) -> (r: u64)
    ensures
        r == spec_scale_factor_milli(
            physical_width as int,
            physical_height as int,
            capture_width as int,
            capture_height as int,
        ),
{
    if capture_width > 0 && capture_height > 0 {
        let width_scale: u64 = 1000 * (physical_width as u64) / (capture_width as u64);
        let height_scale: u64 = 1000 * (physical_height as u64) / (capture_height as u64);
        let average: u64 = (width_scale + height_scale) / 2;
        if average > 1000 {
            average
        } else {
            1000
        }
    } else {
        1000
    }
}

impl Monitor {
    /// Platform display id.
    pub closed spec fn spec_id(&self) -> u32 {
        self.display_id
    }

    /// Synthesized display name.
    pub closed spec fn spec_name(&self) -> Seq<char> {
        self.name@
    }

    /// Leftmost column in global coordinates.
    pub closed spec fn spec_x(&self) -> i32 {
        self.x
    }

    /// Topmost row in global coordinates.
    pub closed spec fn spec_y(&self) -> i32 {
        self.y
    }

    /// Capture width.
    pub closed spec fn spec_width(&self) -> u32 {
        self.width
    }

    /// Capture height.
    pub closed spec fn spec_height(&self) -> u32 {
        self.height
    }

    /// Logical (UI layout) width.
    pub closed spec fn spec_logical_width(&self) -> u32 {
        self.logical_width
    }

    /// Logical (UI layout) height.
    pub closed spec fn spec_logical_height(&self) -> u32 {
        self.logical_height
    }

    /// Scale factor in thousandths.
    pub closed spec fn spec_scale_factor(&self) -> u64 {
        self.scale_factor
    }

    /// Whether this is the primary display.
    pub closed spec fn spec_is_primary(&self) -> bool {
        self.is_primary
    }

    /// Build a monitor from its fields, as enumeration would.
    pub fn new(
        display_id: u32,
        name: &str,
        x: i32,
        y: i32,
        width: u32,
        height: u32,
        logical_width: u32,
        logical_height: u32,
        scale_factor: u64,
        is_primary: bool,
    ) -> (m: Monitor)
        ensures
            m.spec_id() == display_id,
            m.spec_name() == name@,
            m.spec_x() == x,
            m.spec_y() == y,
            m.spec_width() == width,
            m.spec_height() == height,
            m.spec_logical_width() == logical_width,
            m.spec_logical_height() == logical_height,
            m.spec_scale_factor() == scale_factor,
            m.spec_is_primary() == is_primary,
    {
        Monitor {
            display_id,
            name: String::from_str(name),
            x,
            y,
            width,
            height,
            logical_width,
            logical_height,
            scale_factor,
            is_primary,
        }
    }

    /// Reconcile the displays read from both query surfaces into monitors.
    ///
    /// Fails exactly when the composition service reported no displays.
    /// Otherwise every display becomes one monitor, in enumeration order,
    /// and exactly one monitor is marked primary: the first whose origin is
    /// `(0, 0)`, else the first enumerated.
    pub fn all(displays: Vec<RawDisplay>) -> (r: XCapResult<Vec<Monitor>>)
        ensures
            r is Ok <==> displays@.len() > 0,
            r is Err ==> {
                &&& r->Err_0.spec_message() == no_monitors_message()
                &&& r->Err_0.spec_source() is None
            },
            r is Ok ==> {
                &&& r->Ok_0@.len() == displays@.len()
                &&& forall|i: int|
                    0 <= i < displays@.len() ==> monitor_reconciled(
                        r->Ok_0@[i],
                        displays@[i],
                        i == spec_primary_index(displays@),
                    )
                &&& spec_primary_count(r->Ok_0@) == 1
            },
    {
        let n: usize = displays.len();
        if n == 0 {
            return Err(XCapError::no_monitors());
        }
        let mut zi: usize = 0;
        while zi < n && !(displays[zi].frame.x == 0 && displays[zi].frame.y == 0)
            invariant
                n == displays@.len(),
                zi <= n,
                forall|k: int| 0 <= k < zi ==> !display_origin_is_zero(displays@[k]),
            decreases n - zi,
        {
            zi = zi + 1;
        }
        let primary_index: usize = if zi < n {
            zi
        } else {
            0
        };
        proof {
            lemma_zero_origin_index(displays@);
            if zi < n {
                assert(display_origin_is_zero(displays@[zi as int]));
                if spec_zero_origin_index(displays@) < zi {
                    assert(!display_origin_is_zero(
                        displays@[spec_zero_origin_index(displays@)],
                    ));
                    assert(false);
                }
                if zi < spec_zero_origin_index(displays@) {
                    assert(false);
                }
            } else {
                if spec_zero_origin_index(displays@) < displays@.len() {
                    assert(!display_origin_is_zero(
                        displays@[spec_zero_origin_index(displays@)],
                    ));
                    assert(false);
                }
            }
            assert(primary_index == spec_primary_index(displays@));
        }
        let mut monitors: Vec<Monitor> = Vec::new();
        let mut i: usize = 0;
        while i < n
            invariant
                n == displays@.len(),
                i <= n,
                primary_index == spec_primary_index(displays@),
                monitors@.len() == i,
                forall|k: int|
                    0 <= k < i ==> monitor_reconciled(
                        monitors@[k],
                        displays@[k],
                        k == spec_primary_index(displays@),
                    ),
            decreases n - i,
        {
            let d = displays[i];
            let mut name = String::from_str("Display ");
            let id_text = u32_to_decimal(d.display_id);
            name.append(id_text.as_str());
            let monitor = Monitor {
                display_id: d.display_id,
                name,
                x: d.frame.x,
                y: d.frame.y,
                width: d.width,
                height: d.height,
                logical_width: d.logical_width,
                logical_height: d.logical_height,
                scale_factor: scale_factor_milli(
                    d.physical_width,
                    d.physical_height,
                    d.width,
                    d.height,
                ),
                is_primary: i == primary_index,
            };
            monitors.push(monitor);
            i = i + 1;
        }
        proof {
            lemma_zero_origin_index(displays@);
            lemma_primary_count_single(monitors@, spec_primary_index(displays@));
        }
        Ok(monitors)
    }

    /// The primary monitor: the one enumeration marks primary.
    pub fn primary(displays: Vec<RawDisplay>) -> (r: XCapResult<Monitor>)
        ensures
            r is Ok <==> displays@.len() > 0,
            r is Err ==> {
                &&& r->Err_0.spec_message() == no_monitors_message()
                &&& r->Err_0.spec_source() is None
            },
            r is Ok ==> monitor_reconciled(
                r->Ok_0,
                displays@[spec_primary_index(displays@)],
                true,
            ),
    {
        let ghost raw = displays@;
        let monitors = match Self::all(displays) {
            Ok(ms) => ms,
            Err(e) => {
                return Err(e);
            },
        };
        proof {
            lemma_zero_origin_index(raw);
        }
        let n: usize = monitors.len();
        let mut i: usize = 0;
        while i < n && !monitors[i].is_primary
            invariant
                n == monitors@.len(),
                i <= n,
                forall|k: int| 0 <= k < i ==> !monitors@[k].spec_is_primary(),
            decreases n - i,
        {
            i = i + 1;
        }
        if i < n {
            proof {
                assert(monitor_reconciled(
                    monitors@[i as int],
                    raw[i as int],
                    i == spec_primary_index(raw),
                ));
                assert(i == spec_primary_index(raw));
            }
            let mut monitors = monitors;
            let monitor = monitors.remove(i);
            Ok(monitor)
        } else {
            proof {
                let pi = spec_primary_index(raw);
                assert(monitor_reconciled(monitors@[pi], raw[pi], true));
                assert(monitors@[pi].spec_is_primary());
                assert(false);
            }
            Err(XCapError::new("No primary monitor found"))
        }
    }

    /// Platform display id.
    pub fn id(&self) -> (r: u32)
        ensures
            r == self.spec_id(),
    {
        self.display_id
    }

    /// Synthesized display name.
    pub fn name(&self) -> (r: &str)
        ensures
            r@ == self.spec_name(),
    {
        self.name.as_str()
    }

    /// Leftmost column in global coordinates.
    pub fn x(&self) -> (r: i32)
        ensures
            r == self.spec_x(),
    {
        self.x
    }

    /// Topmost row in global coordinates.
    pub fn y(&self) -> (r: i32)
        ensures
            r == self.spec_y(),
    {
        self.y
    }

    /// Capture width in pixels.
    pub fn width(&self) -> (r: XCapResult<u32>)
        ensures
            r is Ok,
            r->Ok_0 == self.spec_width(),
    {
        Ok(self.width)
    }

    /// Capture height in pixels.
    pub fn height(&self) -> (r: XCapResult<u32>)
        ensures
            r is Ok,
            r->Ok_0 == self.spec_height(),
    {
        Ok(self.height)
    }

    /// Capture width in pixels, without the result wrapper.
    pub fn raw_width(&self) -> (r: u32)
        ensures
            r == self.spec_width(),
    {
        self.width
    }

    /// Capture height in pixels, without the result wrapper.
    pub fn raw_height(&self) -> (r: u32)
        ensures
            r == self.spec_height(),
    {
        self.height
    }

    /// Logical (UI layout) width.
    pub fn logical_width(&self) -> (r: u32)
        ensures
            r == self.spec_logical_width(),
    {
        self.logical_width
    }

    /// Logical (UI layout) height.
    pub fn logical_height(&self) -> (r: u32)
        ensures
            r == self.spec_logical_height(),
    {
        self.logical_height
    }

    /// Scale factor in thousandths: the ratio of physical to capture pixels,
    /// times one thousand. Informational only.
    pub fn scale_factor(&self) -> (r: u64)
        ensures
            r == self.spec_scale_factor(),
    {
        self.scale_factor
    }

    /// Whether this is the primary display.
    pub fn is_primary(&self) -> (r: bool)
        ensures
            r == self.spec_is_primary(),
    {
        self.is_primary
    }
}

} // verus!
