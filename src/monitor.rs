//! Monitors reported by the display's monitor-layout extension.

use vstd::prelude::*;

verus! {

/// One monitor record as the monitor-layout extension reports it, with the
/// name still an atom to be resolved.
#[derive(Clone, Copy, Debug, PartialEq, Eq, Structural)]
pub struct MonitorInfo {
    pub name: u64,
    pub primary: i32,
    pub automatic: i32,
    pub noutput: i32,
    pub x: i32,
    pub y: i32,
    pub width: i32,
    pub height: i32,
    pub mwidth: i32,
    pub mheight: i32,
}

/// A physical monitor: its name, position and size on the screen, and
/// whether it is the primary one.
#[derive(Debug, PartialEq)]
pub struct Monitor {
    name: String,
    x: i32,
    y: i32,
    width: i32,
    height: i32,
    primary: bool,
}

/// The value a [`Monitor`] stands for.
pub ghost struct MonitorView {
    pub name: Seq<char>,
    pub x: i32,
    pub y: i32,
    pub width: i32,
    pub height: i32,
    pub primary: bool,
}

impl View for Monitor {
    type V = MonitorView;

    closed spec fn view(&self) -> MonitorView {
        MonitorView {
            name: self.name@,
            x: self.x,
            y: self.y,
            width: self.width,
            height: self.height,
            primary: self.primary,
        }
    }
}

impl Clone for Monitor {
    fn clone(&self) -> (r: Monitor)
        ensures
            r@ == self@,
    {
        Monitor {
            name: self.name.clone(),
            x: self.x,
            y: self.y,
            width: self.width,
            height: self.height,
            primary: self.primary,
        }
    }
}

/// The monitor that a record describes, once its name is resolved: the
/// record's primary flag is true exactly when it holds 1.
pub open spec fn monitor_of(name: Seq<char>, info: MonitorInfo) -> MonitorView {
    MonitorView {
        name,
        x: info.x,
        y: info.y,
        width: info.width,
        height: info.height,
        primary: info.primary == 1,
    }
}

impl Monitor {
    /// The monitor described by `info`, whose name atom resolved to `name`.
    pub fn from_info(name: String, info: &MonitorInfo) -> (r: Monitor)
        ensures
            r@ == monitor_of(name@, *info),
    {
        Monitor {
            name,
            x: info.x,
            y: info.y,
            width: info.width,
            height: info.height,
            primary: info.primary == 1,
        }
    }

    pub fn name(&self) -> (r: &str)
        ensures
            r@ == self@.name,
    {
        self.name.as_str()
    }

    pub fn x(&self) -> (r: i32)
        ensures
            r == self@.x,
    {
        self.x
    }

    pub fn y(&self) -> (r: i32)
        ensures
            r == self@.y,
    {
        self.y
    }

    pub fn width(&self) -> (r: i32)
        ensures
            r == self@.width,
    {
        self.width
    }

    pub fn height(&self) -> (r: i32)
        ensures
            r == self@.height,
    {
        self.height
    }

    pub fn primary(&self) -> (r: bool)
        ensures
            r == self@.primary,
    {
        self.primary
    }

    /// Translates a position relative to the root window into one relative
    /// to this monitor; `None` when the position lies outside the monitor
    /// (the right and bottom edges count as inside).
    pub fn mouse_to_local(&self, root_pos: (i32, i32)) -> (r: Option<(i32, i32)>)
        ensures
            ({
                let lx = root_pos.0 - self@.x;
                let ly = root_pos.1 - self@.y;
                &&& r is Some <==> (0 <= lx <= self@.width && 0 <= ly <= self@.height)
                &&& r matches Some(p) ==> p.0 == lx && p.1 == ly
            }),
    {
        let lx: i64 = root_pos.0 as i64 - self.x as i64;
        let ly: i64 = root_pos.1 as i64 - self.y as i64;
        if 0 <= lx && lx <= self.width as i64 && 0 <= ly && ly <= self.height as i64 {
            Some((lx as i32, ly as i32))
        } else {
            None
        }
    }
}

/// The monitors described by `reported`, in order, each named by the entry
/// of `names` at the same index. No records give no monitors.
pub fn collect_monitors(reported: &[MonitorInfo], names: &[String]) -> (r: Vec<Monitor>)
    requires
        names@.len() == reported@.len(),
    ensures
        r@.len() == reported@.len(),
        forall|i: int| 0 <= i < r@.len() ==> #[trigger] r@[i]@ == monitor_of(names@[i]@, reported@[i]),
{
    let mut out: Vec<Monitor> = Vec::with_capacity(reported.len());
    let mut i: usize = 0;
    while i < reported.len()
        invariant
            i <= reported@.len(),
            names@.len() == reported@.len(),
            out@.len() == i,
            forall|k: int| 0 <= k < i ==> #[trigger] out@[k]@ == monitor_of(names@[k]@, reported@[k]),
        decreases reported@.len() - i,
    {
        let m = Monitor::from_info(names[i].clone(), &reported[i]);
        out.push(m);
        i = i + 1;
    }
    out
}

} // verus!
