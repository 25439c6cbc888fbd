use rxscreen::{Display, ImageLayout, Monitor, MonitorInfo, Release, RootGeometry, SetupStage, ShmError, ShmSetup};

fn display() -> Display {
    Display::from_root(Some(RootGeometry { window: 1, width: 1920, height: 1080 })).unwrap()
}

fn layout(width: i32, height: i32) -> ImageLayout {
    ImageLayout { width, height, depth: 24, bytes_per_line: width * 4 }
}

fn mapped(d: &Display) -> ShmSetup {
    let mut s = d.shm().area((0, 0), (100, 100)).start();
    s.extension_checked(true).unwrap();
    assert_eq!(s.image_created(Some(layout(100, 100))).unwrap(), 40000);
    s.segment_allocated(42).unwrap();
    s.segment_mapped(0x7f00_0000).unwrap();
    s
}

#[test]
fn builder_last_choice_wins() {
    let d = display();
    let m = Monitor::from_info(
        String::from("DP-1"),
        &MonitorInfo { name: 1, primary: 1, automatic: 1, noutput: 1, x: 10, y: 20, width: 300, height: 200, mwidth: 0, mheight: 0 },
    );
    let s = d.shm().full().start();
    assert_eq!(s.area(), (1920, 1080));
    let s = d.shm().full().area((5, 6), (7, 8)).start();
    assert_eq!(s.area(), (7, 8));
    let s = d.shm().area((5, 6), (7, 8)).monitor(&m).start();
    assert_eq!(s.area(), (300, 200));
    let s = d.shm().monitor(&m).full().start();
    assert_eq!(s.area(), (1920, 1080));
    assert_eq!(d.shm().start().area(), (0, 0));
}

#[test]
fn missing_extension_fails_with_nothing_to_release() {
    let d = display();
    let mut s = d.shm().area((0, 0), (100, 100)).start();
    let f = s.extension_checked(false).unwrap_err();
    assert_eq!(f.error, ShmError::ExtensionNotAvailable);
    assert!(f.cleanup.is_empty());
    assert_eq!(s.stage(), SetupStage::Failed);
}

#[test]
fn missing_image_descriptor_fails_with_nothing_to_release() {
    let d = display();
    let mut s = d.shm().area((0, 0), (100, 100)).start();
    s.extension_checked(true).unwrap();
    let f = s.image_created(None).unwrap_err();
    assert_eq!(f.error, ShmError::ShmInitFailed);
    assert!(f.cleanup.is_empty());
}

#[test]
fn descriptor_of_wrong_size_is_released() {
    let d = display();
    let mut s = d.shm().area((0, 0), (100, 100)).start();
    s.extension_checked(true).unwrap();
    let f = s.image_created(Some(layout(99, 100))).unwrap_err();
    assert_eq!(f.error, ShmError::ShmInitFailed);
    assert_eq!(f.cleanup, vec![Release::DestroyImage]);
}

#[test]
fn failed_segment_allocation_releases_the_descriptor() {
    let d = display();
    let mut s = d.shm().area((0, 0), (100, 100)).start();
    s.extension_checked(true).unwrap();
    s.image_created(Some(layout(100, 100))).unwrap();
    let f = s.segment_allocated(-1).unwrap_err();
    assert_eq!(f.error, ShmError::ShmInitFailed);
    assert_eq!(f.cleanup, vec![Release::DestroyImage]);
}

#[test]
fn failed_mapping_releases_segment_and_descriptor() {
    let d = display();
    let mut s = d.shm().area((0, 0), (100, 100)).start();
    s.extension_checked(true).unwrap();
    s.image_created(Some(layout(100, 100))).unwrap();
    s.segment_allocated(42).unwrap();
    let f = s.segment_mapped(usize::MAX).unwrap_err();
    assert_eq!(f.error, ShmError::ShmInitFailed);
    assert_eq!(f.cleanup, vec![Release::RemoveSegment, Release::DestroyImage]);
}

#[test]
fn failed_attach_releases_everything_taken() {
    let d = display();
    let s = mapped(&d);
    let f = s.attached(0).err().unwrap();
    assert_eq!(f.error, ShmError::ShmAttachFailed);
    assert_eq!(
        f.cleanup,
        vec![Release::DetachFromProcess, Release::RemoveSegment, Release::DestroyImage]
    );
}

#[test]
fn captures_fill_the_same_frame() {
    let d = display();
    let mut session = mapped(&d).attached(1).ok().unwrap();
    assert_eq!(session.offset(), (0, 0));
    assert_eq!(session.area(), (100, 100));
    assert_eq!(session.shmid(), 42);
    let first = vec![1u8; 40000];
    let second = vec![2u8; 40000];
    assert!(session.capture(1, &first).is_ok());
    let before = session.frame().as_bytes().as_ptr();
    assert_eq!(session.frame().as_bytes()[0], 1);
    assert!(session.capture(1, &second).is_ok());
    assert_eq!(session.frame().as_bytes().as_ptr(), before);
    assert_eq!(session.frame().as_bytes()[0], 2);
    assert!(session.capture(0, &first).is_err());
    assert_eq!(session.frame().as_bytes()[0], 2);
    assert_eq!(session.shmid(), 42);
    assert_eq!(session.address(), 0x7f00_0000);
}

#[test]
fn teardown_runs_in_fixed_order() {
    let d = display();
    let session = mapped(&d).attached(1).ok().unwrap();
    assert_eq!(
        session.teardown(),
        vec![
            Release::DetachFromServer,
            Release::DetachFromProcess,
            Release::RemoveSegment,
            Release::DestroyImage
        ]
    );
}

#[test]
fn sixteen_bit_descriptor_builds_a_session() {
    let d = display();
    let mut s = d.shm().area((0, 0), (10, 4)).start();
    s.extension_checked(true).unwrap();
    let size = s.image_created(Some(ImageLayout { width: 10, height: 4, depth: 16, bytes_per_line: 20 })).unwrap();
    assert_eq!(size, 80);
    s.segment_allocated(7).unwrap();
    s.segment_mapped(0x1000).unwrap();
    let mut session = s.attached(1).ok().unwrap();
    assert_eq!(session.frame().bytes_per_line(), 20);
    assert!(session.capture(1, &[9u8; 80]).is_ok());
    assert_eq!(session.frame().as_bytes(), &[9u8; 80][..]);
}
