//! Capture through the server's shared-memory extension: the builder that
//! chooses the captured region, the steps that set a session up (each of
//! which may fail, releasing what was taken so far), the session itself,
//! and the fixed order in which it is torn down.

use vstd::prelude::*;
use crate::display::Display;
use crate::image::{Image, ImageView};
use crate::monitor::Monitor;

verus! {

/// Why a shared-memory session could not be built.
#[derive(Clone, Copy, Debug, PartialEq, Eq, Structural)]
pub enum ShmError {
    /// The server lacks the shared-memory extension.
    ExtensionNotAvailable,
    /// The image descriptor or the memory segment could not be set up.
    ShmInitFailed,
    /// The server could not attach the segment.
    ShmAttachFailed,
}

/// A step that gives back one resource of a session.
#[derive(Clone, Copy, Debug, PartialEq, Eq, Structural)]
pub enum Release {
    /// Detach the segment from the server.
    DetachFromServer,
    /// Detach the segment from this process's address space.
    DetachFromProcess,
    /// Mark the segment for removal by the operating system.
    RemoveSegment,
    /// Free the image descriptor (not the memory it points into).
    DestroyImage,
}

/// The resources that a session holds at some point of its life.
#[derive(Clone, Copy, Debug, PartialEq, Eq, Structural)]
pub struct Held {
    pub image: bool,
    pub segment: bool,
    pub mapping: bool,
    pub attachment: bool,
}

/// Nothing is held.
pub open spec fn nothing_held() -> Held {
    Held { image: false, segment: false, mapping: false, attachment: false }
}

/// Everything is held: the state of a built session.
pub open spec fn all_held() -> Held {
    Held { image: true, segment: true, mapping: true, attachment: true }
}

/// `h` holds the resource that `r` gives back.
pub open spec fn holds(h: Held, r: Release) -> bool {
    match r {
        Release::DetachFromServer => h.attachment,
        Release::DetachFromProcess => h.mapping,
        Release::RemoveSegment => h.segment,
        Release::DestroyImage => h.image,
    }
}

/// The place of a release in teardown order.
pub open spec fn rank(r: Release) -> int {
    match r {
        Release::DetachFromServer => 0,
        Release::DetachFromProcess => 1,
        Release::RemoveSegment => 2,
        Release::DestroyImage => 3,
    }
}

/// What is still held after `r` was performed.
pub open spec fn release_one(h: Held, r: Release) -> Held {
    match r {
        Release::DetachFromServer => Held { attachment: false, ..h },
        Release::DetachFromProcess => Held { mapping: false, ..h },
        Release::RemoveSegment => Held { segment: false, ..h },
        Release::DestroyImage => Held { image: false, ..h },
    }
}

/// What is still held after the releases of `plan`, in order.
pub open spec fn release_all(h: Held, plan: Seq<Release>) -> Held
    decreases plan.len(),
{
    if plan.len() == 0 {
        h
    } else {
        release_all(release_one(h, plan[0]), plan.drop_first())
    }
}

/// A release, if `held`.
pub open spec fn step_if(held: bool, r: Release) -> Seq<Release> {
    if held {
        seq![r]
    } else {
        Seq::empty()
    }
}

/// The releases that give back what `h` holds, in teardown order: server
/// attachment, process mapping, segment, image descriptor.
pub open spec fn release_plan(h: Held) -> Seq<Release> {
    step_if(h.attachment, Release::DetachFromServer) + step_if(h.mapping, Release::DetachFromProcess)
        + step_if(h.segment, Release::RemoveSegment) + step_if(h.image, Release::DestroyImage)
}

/// The releases that give back what `h` holds, in teardown order.
pub fn releases_for(h: Held) -> (r: Vec<Release>)
    ensures
        r@ == release_plan(h),
{
    let mut out: Vec<Release> = Vec::new();
    if h.attachment {
        out.push(Release::DetachFromServer);
    }
    if h.mapping {
        out.push(Release::DetachFromProcess);
    }
    if h.segment {
        out.push(Release::RemoveSegment);
    }
    if h.image {
        out.push(Release::DestroyImage);
    }
    assert(out@ =~= release_plan(h));
    out
}

proof fn lemma_release_all_append(h: Held, a: Seq<Release>, b: Seq<Release>)
    ensures
        release_all(h, a + b) == release_all(release_all(h, a), b),
    decreases a.len(),
{
    if a.len() == 0 {
        assert(a + b =~= b);
    } else {
        assert((a + b).drop_first() =~= a.drop_first() + b);
        lemma_release_all_append(release_one(h, a[0]), a.drop_first(), b);
    }
}

proof fn lemma_release_step(h: Held, held: bool, r: Release)
    requires
        held == holds(h, r),
    ensures
        release_all(h, step_if(held, r)) == (if held { release_one(h, r) } else { h }),
{
    if held {
        let one = step_if(held, r);
        assert(one.drop_first() =~= Seq::<Release>::empty());
        assert(release_all(release_one(h, r), Seq::<Release>::empty()) == release_one(h, r));
        assert(release_all(h, one) == release_all(release_one(h, one[0]), one.drop_first()));
    } else {
        assert(release_all(h, Seq::<Release>::empty()) == h);
    }
}

/// Giving back what `h` holds performs one release for each held resource
/// and no other, in teardown order (so each at most once), and leaves
/// nothing held.
pub proof fn release_plan_is_complete(h: Held)
    ensures
        forall|r: Release| release_plan(h).contains(r) <==> holds(h, r),
        forall|i: int, j: int|
            0 <= i < j < release_plan(h).len() ==> rank(release_plan(h)[i]) < rank(release_plan(h)[j]),
        release_all(h, release_plan(h)) == nothing_held(),
{
    let a = step_if(h.attachment, Release::DetachFromServer);
    let m = step_if(h.mapping, Release::DetachFromProcess);
    let s = step_if(h.segment, Release::RemoveSegment);
    let i = step_if(h.image, Release::DestroyImage);
    let plan = release_plan(h);
    assert forall|r: Release| plan.contains(r) <==> holds(h, r) by {
        if holds(h, r) {
            match r {
                Release::DetachFromServer => assert(plan[0] == r),
                Release::DetachFromProcess => assert(plan[a.len() as int] == r),
                Release::RemoveSegment => assert(plan[(a.len() + m.len()) as int] == r),
                Release::DestroyImage => assert(plan[(a.len() + m.len() + s.len()) as int] == r),
            }
        }
        if plan.contains(r) {
            let k = choose|k: int| 0 <= k < plan.len() && plan[k] == r;
            if k < a.len() {
                assert(plan[k] == a[k]);
            } else if k < a.len() + m.len() {
                assert(plan[k] == m[k - a.len()]);
            } else if k < a.len() + m.len() + s.len() {
                assert(plan[k] == s[k - a.len() - m.len()]);
            } else {
                assert(plan[k] == i[k - a.len() - m.len() - s.len()]);
            }
        }
    }
    assert forall|x: int, y: int| 0 <= x < y < plan.len() implies rank(plan[x]) < rank(plan[y]) by {
        assert forall|k: int| 0 <= k < plan.len() implies rank(#[trigger] plan[k]) == (if k < a.len() {
            0int
        } else if k < a.len() + m.len() {
            1int
        } else if k < a.len() + m.len() + s.len() {
            2int
        } else {
            3int
        }) by {
            if k < a.len() {
                assert(plan[k] == a[k]);
            } else if k < a.len() + m.len() {
                assert(plan[k] == m[k - a.len()]);
            } else if k < a.len() + m.len() + s.len() {
                assert(plan[k] == s[k - a.len() - m.len()]);
            } else {
                assert(plan[k] == i[k - a.len() - m.len() - s.len()]);
            }
        }
    }
    lemma_release_all_append(h, a + m + s, i);
    lemma_release_all_append(h, a + m, s);
    lemma_release_all_append(h, a, m);
    lemma_release_step(h, h.attachment, Release::DetachFromServer);
    let h1 = release_all(h, a);
    lemma_release_step(h1, h.mapping, Release::DetachFromProcess);
    let h2 = release_all(h1, m);
    lemma_release_step(h2, h.segment, Release::RemoveSegment);
    let h3 = release_all(h2, s);
    lemma_release_step(h3, h.image, Release::DestroyImage);
}

/// The region that a shared-memory session captures, chosen before it is
/// built. Each setter replaces both offset and area: the last call wins.
pub struct ShmBuilder<'a> {
    display: &'a Display,
    offset: (u32, u32),
    area: (u32, u32),
}

/// The value a [`ShmBuilder`] stands for: the chosen offset and area, and
/// the screen size of its display.
pub ghost struct ShmBuilderView {
    pub offset: (u32, u32),
    pub area: (u32, u32),
    pub screen: (u32, u32),
}

impl<'a> View for ShmBuilder<'a> {
    type V = ShmBuilderView;

    closed spec fn view(&self) -> ShmBuilderView {
        ShmBuilderView {
            offset: self.offset,
            area: self.area,
            screen: (self.display.width, self.display.height),
        }
    }
}

impl Display {
    /// A builder for a shared-memory session on this display, with an empty
    /// area at the origin until one is chosen.
    pub fn shm(&self) -> (r: ShmBuilder<'_>)
        ensures
            r@ == (ShmBuilderView { offset: (0, 0), area: (0, 0), screen: (self.width, self.height) }),
    {
        ShmBuilder { display: self, offset: (0, 0), area: (0, 0) }
    }
}

impl<'a> ShmBuilder<'a> {
    /// Captures the given monitor: its position and size.
    pub fn monitor(self, monitor: &Monitor) -> (r: ShmBuilder<'a>)
        ensures
            r@ == (ShmBuilderView {
                offset: (monitor@.x as u32, monitor@.y as u32),
                area: (monitor@.width as u32, monitor@.height as u32),
                ..self@
            }),
    {
        let offset = (monitor.x() as u32, monitor.y() as u32);
        let area = (monitor.width() as u32, monitor.height() as u32);
        ShmBuilder { display: self.display, offset, area }
    }

    /// Captures the whole screen.
    pub fn full(self) -> (r: ShmBuilder<'a>)
        ensures
            r@ == (ShmBuilderView { offset: (0, 0), area: self@.screen, ..self@ }),
    {
        let area = (self.display.width, self.display.height);
        ShmBuilder { display: self.display, offset: (0, 0), area }
    }

    /// Captures `area` (width, height) at `offset` (x, y).
    pub fn area(self, offset: (u32, u32), area: (u32, u32)) -> (r: ShmBuilder<'a>)
        ensures
            r@ == (ShmBuilderView { offset, area, ..self@ }),
    {
        ShmBuilder { display: self.display, offset, area }
    }

    /// Begins building the session with the chosen region: the first step
    /// is to ask whether the server has the shared-memory extension.
    pub fn start(self) -> (r: ShmSetup)
        ensures
            r@.wf(),
            r@.stage == SetupStage::Start,
            r@.offset == self@.offset,
            r@.area == self@.area,
    {
        ShmSetup {
            stage: SetupStage::Start,
            offset: self.offset,
            area: self.area,
            layout: ImageLayout { width: 0, height: 0, depth: 0, bytes_per_line: 0 },
            shmid: 0,
            address: 0,
        }
    }
}

/// How far the setup of a session has come.
#[derive(Clone, Copy, Debug, PartialEq, Eq, Structural)]
pub enum SetupStage {
    /// The extension has not been asked for yet.
    Start,
    /// The server has the extension; the image descriptor is to be created.
    ExtensionReady,
    /// The image descriptor exists; the segment is to be allocated.
    ImageCreated,
    /// The segment exists; it is to be mapped into this process.
    SegmentAllocated,
    /// The segment is mapped; it is to be attached to the server.
    SegmentMapped,
    /// A step failed and what it had taken was handed back for release.
    Failed,
}

/// What a setup holds at each stage.
pub open spec fn held_at(stage: SetupStage) -> Held {
    match stage {
        SetupStage::ImageCreated => Held { image: true, ..nothing_held() },
        SetupStage::SegmentAllocated => Held { image: true, segment: true, ..nothing_held() },
        SetupStage::SegmentMapped => Held { image: true, segment: true, mapping: true, attachment: false },
        _ => nothing_held(),
    }
}

/// The header of an image descriptor that the server's extension created.
#[derive(Clone, Copy, Debug, PartialEq, Eq, Structural)]
pub struct ImageLayout {
    pub width: i32,
    pub height: i32,
    pub depth: i32,
    pub bytes_per_line: i32,
}

/// The descriptor has the size of `area`, and its segment of
/// `bytes_per_line * height` bytes is a size that memory can hold.
pub open spec fn layout_fits(area: (u32, u32), l: ImageLayout) -> bool {
    &&& l.width as int == area.0 as int
    &&& l.height as int == area.1 as int
    &&& 0 <= l.bytes_per_line as int * l.height as int <= usize::MAX
}

/// A failed step of a setup: the error, and the releases, in order, that
/// give back what the setup held.
#[derive(Debug)]
pub struct ShmFailure {
    pub error: ShmError,
    pub cleanup: Vec<Release>,
}

/// A session being set up, one step at a time: each method takes the
/// outcome of one step, and says what the next is or that the setup failed.
pub struct ShmSetup {
    stage: SetupStage,
    offset: (u32, u32),
    area: (u32, u32),
    layout: ImageLayout,
    shmid: i32,
    address: usize,
}

/// The value a [`ShmSetup`] stands for.
pub ghost struct ShmSetupView {
    pub stage: SetupStage,
    pub offset: (u32, u32),
    pub area: (u32, u32),
    pub layout: ImageLayout,
    pub shmid: i32,
    pub address: usize,
}

impl View for ShmSetup {
    type V = ShmSetupView;

    closed spec fn view(&self) -> ShmSetupView {
        ShmSetupView {
            stage: self.stage,
            offset: self.offset,
            area: self.area,
            layout: self.layout,
            shmid: self.shmid,
            address: self.address,
        }
    }
}

impl ShmSetupView {
    /// Once a descriptor was created, it has the size of the area and a
    /// segment size that memory can hold.
    pub open spec fn wf(self) -> bool {
        match self.stage {
            SetupStage::ImageCreated | SetupStage::SegmentAllocated | SetupStage::SegmentMapped => layout_fits(
                self.area,
                self.layout,
            ),
            _ => true,
        }
    }
}

/// A failure with this error whose cleanup gives back what `h` holds.
pub open spec fn fails_with<T>(r: Result<T, ShmFailure>, error: ShmError, h: Held) -> bool {
    r matches Err(f) && f.error == error && f.cleanup@ == release_plan(h)
}

impl ShmSetup {
    fn fail(&mut self, error: ShmError, h: Held) -> (r: ShmFailure)
        ensures
            final(self)@.wf(),
            final(self)@ == (ShmSetupView { stage: SetupStage::Failed, ..old(self)@ }),
            r.error == error,
            r.cleanup@ == release_plan(h),
    {
        self.stage = SetupStage::Failed;
        ShmFailure { error, cleanup: releases_for(h) }
    }

    /// The stage the setup is at.
    pub fn stage(&self) -> (r: SetupStage)
        ensures
            r == self@.stage,
    {
        self.stage
    }

    /// The area to create the image descriptor for.
    pub fn area(&self) -> (r: (u32, u32))
        ensures
            r == self@.area,
    {
        self.area
    }

    /// What the setup holds now, released in [`release_plan`] order if it
    /// is abandoned.
    pub fn held(&self) -> (r: Held)
        ensures
            r == held_at(self@.stage),
    {
        match self.stage {
            SetupStage::ImageCreated => Held { image: true, segment: false, mapping: false, attachment: false },
            SetupStage::SegmentAllocated => Held { image: true, segment: true, mapping: false, attachment: false },
            SetupStage::SegmentMapped => Held { image: true, segment: true, mapping: true, attachment: false },
            _ => Held { image: false, segment: false, mapping: false, attachment: false },
        }
    }

    /// Takes whether the server has the shared-memory extension. Without it
    /// the setup fails with nothing to release.
    pub fn extension_checked(&mut self, available: bool) -> (r: Result<(), ShmFailure>)
        requires
            old(self)@.stage == SetupStage::Start,
            old(self)@.wf(),
        ensures
            final(self)@.wf(),
            available ==> r is Ok && final(self)@ == (ShmSetupView { stage: SetupStage::ExtensionReady, ..old(self)@ }),
            !available ==> fails_with(r, ShmError::ExtensionNotAvailable, nothing_held())
                && final(self)@ == (ShmSetupView { stage: SetupStage::Failed, ..old(self)@ }),
    {
        if available {
            self.stage = SetupStage::ExtensionReady;
            Ok(())
        } else {
            Err(self.fail(ShmError::ExtensionNotAvailable, Held { image: false, segment: false, mapping: false, attachment: false }))
        }
    }

    /// Takes the header of the image descriptor created for the area, or
    /// `None` if none was created. Returns the size of the segment to
    /// allocate: `bytes_per_line * height`. A descriptor of another size
    /// than the area, or whose segment size is no memory size, is released
    /// and the setup fails.
    pub fn image_created(&mut self, layout: Option<ImageLayout>) -> (r: Result<usize, ShmFailure>)
        requires
            old(self)@.stage == SetupStage::ExtensionReady,
            old(self)@.wf(),
        ensures
            final(self)@.wf(),
            layout is None ==> fails_with(r, ShmError::ShmInitFailed, nothing_held()),
            layout matches Some(l) && !layout_fits(old(self)@.area, l) ==> fails_with(
                r,
                ShmError::ShmInitFailed,
                held_at(SetupStage::ImageCreated),
            ),
            r is Err ==> final(self)@ == (ShmSetupView { stage: SetupStage::Failed, ..old(self)@ }),
            r is Ok <==> (layout matches Some(l) && layout_fits(old(self)@.area, l)),
            r matches Ok(size) ==> (layout matches Some(l) && size == l.bytes_per_line as int * l.height as int
                && final(self)@ == (ShmSetupView { stage: SetupStage::ImageCreated, layout: l, ..old(self)@ })),
    {
        match layout {
            None => Err(self.fail(ShmError::ShmInitFailed, Held { image: false, segment: false, mapping: false, attachment: false })),
            Some(l) => {
                let taken = Held { image: true, segment: false, mapping: false, attachment: false };
                if l.width as i64 != self.area.0 as i64 || l.height as i64 != self.area.1 as i64 {
                    return Err(self.fail(ShmError::ShmInitFailed, taken));
                }
                let bpl = l.bytes_per_line as i64;
                let h = l.height as i64;
                assert(-0x4000_0000_0000_0000 <= bpl * h <= 0x4000_0000_0000_0000) by (nonlinear_arith)
                    requires
                        -0x8000_0000 <= bpl <= 0x8000_0000,
                        0 <= h <= 0x8000_0000,
                ;
                let size = bpl * h;
                if size < 0 || size as u64 > usize::MAX as u64 {
                    return Err(self.fail(ShmError::ShmInitFailed, taken));
                }
                self.stage = SetupStage::ImageCreated;
                self.layout = l;
                Ok(size as u64 as usize)
            },
        }
    }

    /// Takes the identifier of the segment allocated for the descriptor;
    /// -1 means that none was, and the descriptor is released.
    pub fn segment_allocated(&mut self, shmid: i32) -> (r: Result<(), ShmFailure>)
        requires
            old(self)@.stage == SetupStage::ImageCreated,
            old(self)@.wf(),
        ensures
            final(self)@.wf(),
            shmid != -1 ==> r is Ok
                && final(self)@ == (ShmSetupView { stage: SetupStage::SegmentAllocated, shmid, ..old(self)@ }),
            shmid == -1 ==> fails_with(r, ShmError::ShmInitFailed, held_at(SetupStage::ImageCreated))
                && final(self)@ == (ShmSetupView { stage: SetupStage::Failed, ..old(self)@ }),
    {
        if shmid == -1 {
            let held = self.held();
            Err(self.fail(ShmError::ShmInitFailed, held))
        } else {
            self.stage = SetupStage::SegmentAllocated;
            self.shmid = shmid;
            Ok(())
        }
    }

    /// The segment to map into this process.
    pub fn shmid(&self) -> (r: i32)
        ensures
            r == self@.shmid,
    {
        self.shmid
    }

    /// Takes the address at which the segment was mapped into this process;
    /// `usize::MAX` (an address of -1) means that it was not, and the
    /// segment and descriptor are released.
    pub fn segment_mapped(&mut self, address: usize) -> (r: Result<(), ShmFailure>)
        requires
            old(self)@.stage == SetupStage::SegmentAllocated,
            old(self)@.wf(),
        ensures
            final(self)@.wf(),
            address != usize::MAX ==> r is Ok
                && final(self)@ == (ShmSetupView { stage: SetupStage::SegmentMapped, address, ..old(self)@ }),
            address == usize::MAX ==> fails_with(r, ShmError::ShmInitFailed, held_at(SetupStage::SegmentAllocated))
                && final(self)@ == (ShmSetupView { stage: SetupStage::Failed, ..old(self)@ }),
    {
        if address == usize::MAX {
            let held = self.held();
            Err(self.fail(ShmError::ShmInitFailed, held))
        } else {
            self.stage = SetupStage::SegmentMapped;
            self.address = address;
            Ok(())
        }
    }

    /// Takes the status of attaching the segment to the server: 1 means
    /// success, and the session is built; otherwise the mapping, segment
    /// and descriptor are released.
    pub fn attached(self, status: i32) -> (r: Result<SharedSession, ShmFailure>)
        requires
            self@.wf(),
            self@.stage == SetupStage::SegmentMapped,
        ensures
            r is Ok <==> status == 1,
            r matches Err(f) ==> f.error == ShmError::ShmAttachFailed
                && f.cleanup@ == release_plan(held_at(SetupStage::SegmentMapped)),
            r matches Ok(s) ==> {
                &&& s@.offset == self@.offset
                &&& s@.area == self@.area
                &&& s@.shmid == self@.shmid
                &&& s@.address == self@.address
                &&& s@.frame.wf()
                &&& s@.frame.width == self@.layout.width
                &&& s@.frame.height == self@.layout.height
                &&& s@.frame.depth == self@.layout.depth
                &&& s@.frame.bytes_per_line == self@.layout.bytes_per_line
                &&& s@.frame.data.len() == self@.layout.bytes_per_line as int * self@.layout.height as int
            },
    {
        let mut setup = self;
        if status != 1 {
            let held = setup.held();
            return Err(setup.fail(ShmError::ShmAttachFailed, held));
        }
        let l = setup.layout;
        let frame = Image::blank(l.width, l.height, l.depth, l.bytes_per_line);
        Ok(SharedSession {
            offset: setup.offset,
            area: setup.area,
            shmid: setup.shmid,
            address: setup.address,
            frame,
        })
    }
}

/// A built shared-memory session: the captured region, the segment shared
/// with the server, and the frame that each capture fills in place.
pub struct SharedSession {
    offset: (u32, u32),
    area: (u32, u32),
    shmid: i32,
    address: usize,
    frame: Image,
}

/// The value a [`SharedSession`] stands for.
pub ghost struct SessionView {
    pub offset: (u32, u32),
    pub area: (u32, u32),
    pub shmid: i32,
    pub address: usize,
    pub frame: ImageView,
}

impl View for SharedSession {
    type V = SessionView;

    closed spec fn view(&self) -> SessionView {
        SessionView {
            offset: self.offset,
            area: self.area,
            shmid: self.shmid,
            address: self.address,
            frame: self.frame@,
        }
    }
}

/// The session after a capture that reported `status` and, on success,
/// filled the segment with `fetched`: only the frame's bytes change, and
/// only on success (status 1); on failure the frame is left as it was.
pub open spec fn capture_effect(s: SessionView, status: i32, fetched: Seq<u8>) -> SessionView {
    if status == 1 {
        SessionView { frame: ImageView { data: fetched, ..s.frame }, ..s }
    } else {
        s
    }
}

impl SharedSession {
    /// The offset (x, y) of the captured region.
    pub fn offset(&self) -> (r: (u32, u32))
        ensures
            r == self@.offset,
    {
        self.offset
    }

    /// The size (width, height) of the captured region.
    pub fn area(&self) -> (r: (u32, u32))
        ensures
            r == self@.area,
    {
        self.area
    }

    /// The identifier of the shared segment.
    pub fn shmid(&self) -> (r: i32)
        ensures
            r == self@.shmid,
    {
        self.shmid
    }

    /// The address at which the segment is mapped into this process.
    pub fn address(&self) -> (r: usize)
        ensures
            r == self@.address,
    {
        self.address
    }

    /// The frame that captures fill.
    pub fn frame(&self) -> (r: &Image)
        ensures
            r@ == self@.frame,
    {
        &self.frame
    }

    /// Takes the status of one capture into the segment (1 is success) and
    /// the segment's bytes after it. On success the frame holds them; the
    /// segment, region and frame geometry never change.
    pub fn capture(&mut self, status: i32, fetched: &[u8]) -> (r: Result<(), ()>)
        requires
            old(self)@.frame.wf(),
            fetched@.len() == old(self)@.frame.data.len(),
        ensures
            r is Ok <==> status == 1,
            final(self)@ == capture_effect(old(self)@, status, fetched@),
            final(self)@.frame.wf(),
    {
        if status == 1 {
            self.frame.load_bytes(fetched);
            Ok(())
        } else {
            Err(())
        }
    }

    /// Ends the session: the releases to perform, in this order — detach
    /// the segment from the server, detach it from this process, mark it
    /// for removal, and free the image descriptor.
    pub fn teardown(self) -> (r: Vec<Release>)
        ensures
            r@ == release_plan(all_held()),
            r@ == seq![
                Release::DetachFromServer,
                Release::DetachFromProcess,
                Release::RemoveSegment,
                Release::DestroyImage,
            ],
    {
        let r = releases_for(Held { image: true, segment: true, mapping: true, attachment: true });
        assert(r@ =~= seq![
            Release::DetachFromServer,
            Release::DetachFromProcess,
            Release::RemoveSegment,
            Release::DestroyImage,
        ]);
        r
    }
}

/// Two captures in a row fill the same frame over the same segment: the
/// segment, the region and the frame's geometry and buffer length are
/// those of the session before them.
pub proof fn captures_reuse_the_frame(
    s: SessionView,
    status1: i32,
    fetched1: Seq<u8>,
    status2: i32,
    fetched2: Seq<u8>,
)
    requires
        fetched1.len() == s.frame.data.len(),
        fetched2.len() == s.frame.data.len(),
    ensures
        ({
            let t = capture_effect(capture_effect(s, status1, fetched1), status2, fetched2);
            &&& t.shmid == s.shmid
            &&& t.address == s.address
            &&& t.offset == s.offset
            &&& t.area == s.area
            &&& t.frame.width == s.frame.width
            &&& t.frame.height == s.frame.height
            &&& t.frame.depth == s.frame.depth
            &&& t.frame.data.len() == s.frame.data.len()
            &&& s.frame.wf() ==> t.frame.wf()
        }),
{
}

} // verus!
