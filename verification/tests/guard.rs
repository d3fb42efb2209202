use fd_lock::{Error, FdLock, LockType, RawHandle};

/// A minimal handle-bearing resource: a raw file descriptor.
struct Res(i32);

impl RawHandle for Res {
    fn as_raw_fd(&self) -> i32 {
        self.0
    }
}

/// A second wrapper type, used to exercise `map`.
struct Tagged {
    fd: i32,
    tag: u32,
}

impl RawHandle for Tagged {
    fn as_raw_fd(&self) -> i32 {
        self.fd
    }
}

fn open_tmp(name: &str) -> i32 {
    let path = format!("/tmp/{}", name);
    nix::fcntl::open(
        path.as_str(),
        nix::fcntl::OFlag::O_CREAT | nix::fcntl::OFlag::O_RDWR,
        nix::sys::stat::Mode::from_bits_truncate(0o600),
    )
    .unwrap()
}

#[test]
fn exclusive_blocks_second_nonblocking() {
    let fd1 = open_tmp("fd_lock_test_excl");
    let fd2 = open_tmp("fd_lock_test_excl");
    let guard = match FdLock::lock(Res(fd1), LockType::Exclusive, true) {
        Ok(g) => g,
        Err(e) => panic!("first exclusive lock failed: {:?}", e),
    };
    let second = FdLock::lock(Res(fd2), LockType::Exclusive, false);
    assert!(matches!(second, Err(Error::WouldBlock)));
    drop(guard);
    nix::unistd::close(fd1).unwrap();
    nix::unistd::close(fd2).unwrap();
}

#[test]
fn exclusive_blocks_shared_nonblocking() {
    let fd1 = open_tmp("fd_lock_test_excl_sh");
    let fd2 = open_tmp("fd_lock_test_excl_sh");
    let guard = match FdLock::lock(Res(fd1), LockType::Exclusive, true) {
        Ok(g) => g,
        Err(e) => panic!("exclusive lock failed: {:?}", e),
    };
    let second = FdLock::lock(Res(fd2), LockType::Shared, false);
    assert!(matches!(second, Err(Error::WouldBlock)));
    drop(guard);
    nix::unistd::close(fd1).unwrap();
    nix::unistd::close(fd2).unwrap();
}

#[test]
fn shared_twice_both_succeed() {
    let fd1 = open_tmp("fd_lock_test_shared");
    let fd2 = open_tmp("fd_lock_test_shared");
    let first = FdLock::lock(Res(fd1), LockType::Shared, false);
    assert!(first.is_ok());
    let second = FdLock::lock(Res(fd2), LockType::Shared, false);
    assert!(second.is_ok());
    drop(first);
    drop(second);
    nix::unistd::close(fd1).unwrap();
    nix::unistd::close(fd2).unwrap();
}

#[test]
fn closed_fd_gives_invalid_fd() {
    let fd = open_tmp("fd_lock_test_badfd");
    nix::unistd::close(fd).unwrap();
    let attempt = FdLock::lock(Res(fd), LockType::Exclusive, true);
    assert!(matches!(attempt, Err(Error::InvalidFd)));
}

#[test]
fn drop_releases_the_lock() {
    let fd1 = open_tmp("fd_lock_test_drop");
    let fd2 = open_tmp("fd_lock_test_drop");
    {
        let _guard = match FdLock::lock(Res(fd1), LockType::Exclusive, true) {
            Ok(g) => g,
            Err(e) => panic!("exclusive lock failed: {:?}", e),
        };
        let while_held = FdLock::lock(Res(fd2), LockType::Exclusive, false);
        assert!(matches!(while_held, Err(Error::WouldBlock)));
    }
    let after_drop = FdLock::lock(Res(fd2), LockType::Exclusive, false);
    assert!(after_drop.is_ok());
    drop(after_drop);
    nix::unistd::close(fd1).unwrap();
    nix::unistd::close(fd2).unwrap();
}

#[test]
fn unlock_returns_the_original_resource() {
    let fd1 = open_tmp("fd_lock_test_roundtrip");
    let fd2 = open_tmp("fd_lock_test_roundtrip");
    let guard = match FdLock::lock(Res(fd1), LockType::Exclusive, true) {
        Ok(g) => g,
        Err(e) => panic!("exclusive lock failed: {:?}", e),
    };
    match guard.unlock(true) {
        Ok(res) => assert_eq!(res.0, fd1),
        Err((_, e)) => panic!("unlock failed: {:?}", e),
    }
    let after_unlock = FdLock::lock(Res(fd2), LockType::Exclusive, false);
    assert!(after_unlock.is_ok());
    drop(after_unlock);
    nix::unistd::close(fd1).unwrap();
    nix::unistd::close(fd2).unwrap();
}

#[test]
fn transparent_access_while_held() {
    let fd = open_tmp("fd_lock_test_access");
    let mut guard = match FdLock::lock(Tagged { fd, tag: 1 }, LockType::Exclusive, true) {
        Ok(g) => g,
        Err(e) => panic!("exclusive lock failed: {:?}", e),
    };
    assert_eq!(guard.get().as_raw_fd(), fd);
    assert_eq!(guard.get().tag, 1);
    guard.get_mut().tag = 7;
    assert_eq!(guard.get().tag, 7);
    match guard.unlock(true) {
        Ok(res) => {
            assert_eq!(res.fd, fd);
            assert_eq!(res.tag, 7);
        }
        Err((_, e)) => panic!("unlock failed: {:?}", e),
    }
    nix::unistd::close(fd).unwrap();
}

#[test]
fn map_keeps_the_lock_held() {
    let fd1 = open_tmp("fd_lock_test_map");
    let fd2 = open_tmp("fd_lock_test_map");
    let guard = match FdLock::lock(Res(fd1), LockType::Exclusive, true) {
        Ok(g) => g,
        Err(e) => panic!("exclusive lock failed: {:?}", e),
    };
    let mapped = guard.map(|r| Tagged { fd: r.0, tag: 3 });
    assert_eq!(mapped.get().as_raw_fd(), fd1);
    assert_eq!(mapped.get().tag, 3);
    let while_held = FdLock::lock(Res(fd2), LockType::Exclusive, false);
    assert!(matches!(while_held, Err(Error::WouldBlock)));
    drop(mapped);
    let after_drop = FdLock::lock(Res(fd2), LockType::Exclusive, false);
    assert!(after_drop.is_ok());
    drop(after_drop);
    nix::unistd::close(fd1).unwrap();
    nix::unistd::close(fd2).unwrap();
}

#[test]
fn error_classification_matches_the_table() {
    assert_eq!(Error::from(9), Error::InvalidFd);
    assert_eq!(Error::from(4), Error::Interrupted);
    assert_eq!(Error::from(22), Error::InvalidOperation);
    assert_eq!(Error::from(37), Error::OutOfMemory);
    assert_eq!(Error::from(11), Error::WouldBlock);
    assert_eq!(Error::from(0), Error::Other(0));
    assert_eq!(Error::from(99), Error::Other(99));
    assert_eq!(Error::from(-1), Error::Other(-1));
}
