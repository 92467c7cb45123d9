use shm::segment::{map_result, open_result, recover_metadata, release};
use shm::{Backend, Error, Mapped};

#[test]
fn open_failure_carries_errno_context() {
    let r = open_result(-1, 2, String::from("shm_open: No such file or directory"));
    assert_eq!(
        r,
        Err(Error::Errno(
            2,
            String::from("shm_open: No such file or directory")
        ))
    );
}

#[test]
fn open_success_passes_descriptor_through() {
    assert_eq!(open_result(3, 0, String::new()), Ok(3));
}

#[test]
fn posix_create_closes_descriptor_and_keeps_metadata() {
    // the POSIX backend closes the descriptor right after mapping; the
    // segment keeps exactly the requested name and size
    let r = map_result(
        Backend::Posix,
        3,
        String::from("region-a"),
        4096,
        true,
        0x7000,
        0,
        String::new(),
    );
    match r {
        Mapped::CloseThenKeep { fd, shm } => {
            assert_eq!(fd, 3);
            assert_eq!(shm.name(), "region-a");
            assert_eq!(shm.size(), 4096);
            assert_eq!(shm.fd(), None);
            assert_eq!(shm.addr(), 0x7000);
            let plan = release(shm);
            assert_eq!(plan.addr, 0x7000);
            assert_eq!(plan.size, 4096);
            assert_eq!(plan.fd, None);
        }
        _ => panic!("expected the close-then-keep decision"),
    }
}

#[test]
fn ioctl_create_retains_descriptor_until_release() {
    let r = map_result(
        Backend::Ioctl,
        5,
        String::from("region-a"),
        4096,
        true,
        0x8000,
        0,
        String::new(),
    );
    match r {
        Mapped::Keep { shm } => {
            assert_eq!(shm.fd(), Some(5));
            assert_eq!(shm.name(), "region-a");
            assert_eq!(shm.size(), 4096);
            let plan = release(shm);
            assert_eq!(plan.fd, Some(5));
            assert_eq!(plan.addr, 0x8000);
            assert_eq!(plan.size, 4096);
        }
        _ => panic!("expected the keep decision"),
    }
}

#[test]
fn failed_mapping_schedules_close_before_error() {
    // construction must not leak the just-acquired descriptor: a failed
    // mapping first schedules its close, then reports the captured error
    let r = map_result(
        Backend::Posix,
        7,
        String::from("region-a"),
        4096,
        false,
        0,
        12,
        String::from("mmap: Cannot allocate memory"),
    );
    match r {
        Mapped::CloseThenFail { fd, err } => {
            assert_eq!(fd, 7);
            assert_eq!(
                err,
                Error::Errno(12, String::from("mmap: Cannot allocate memory"))
            );
        }
        _ => panic!("expected the close-then-fail decision"),
    }
}

#[test]
fn attach_recovers_name_and_size() {
    // metadata round trip: what creation encoded, attachment recovers
    let encoded = shm::name::encode_name("region-a").unwrap();
    let mut buf = [0u8; 256];
    buf[..encoded.len()].copy_from_slice(&encoded);
    let (name, size) = recover_metadata(&buf, 4096).unwrap();
    assert_eq!(name, "region-a");
    assert_eq!(size, 4096);
}

#[test]
fn attach_rejects_undecodable_name() {
    let r = recover_metadata(&[0xFF, 0], 4096);
    assert!(matches!(r, Err(Error::Utf8(_))));
}

#[test]
fn create_region_a_model_scenario() {
    // Create("region-a", 4096) succeeds given a working backend, and the
    // handle reports exactly that name and size until release
    let encoded = shm::name::encode_name("region-a").unwrap();
    assert_eq!(encoded.last(), Some(&0u8));
    let fd = open_result(4, 0, String::new()).unwrap();
    let r = map_result(
        Backend::Posix,
        fd,
        String::from("region-a"),
        4096,
        true,
        0x9000,
        0,
        String::new(),
    );
    let shm = match r {
        Mapped::CloseThenKeep { fd: closed, shm } => {
            assert_eq!(closed, 4);
            shm
        }
        _ => panic!("expected the close-then-keep decision"),
    };
    assert_eq!(shm.name(), "region-a");
    assert_eq!(shm.size(), 4096);
    let plan = release(shm);
    assert_eq!((plan.addr, plan.size, plan.fd), (0x9000, 4096, None));
}
