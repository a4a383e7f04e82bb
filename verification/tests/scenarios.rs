use async_locking::unix;
use async_locking::windows;
use async_locking::windows::SystemCall;
use async_locking::AsDescriptor;
use async_locking::AsyncLockFileExt;
use async_locking::Descriptor;
use async_locking::LockAttempt;
use async_locking::LockResult;
use async_locking::Operation;
use async_locking::OsError;
use async_locking::Reply;
use async_locking::Request;

/// A stand-in for the system's table of whole-file advisory locks: which open
/// handle holds which lock on which file. Calls that would wait are refused
/// instead, so a scenario says itself when a waiting call is made.
struct System {
    files: Vec<(Descriptor, &'static str)>,
    held: Vec<(Descriptor, bool)>,
    calls: Vec<Request>,
    next: Descriptor,
}

impl System {
    fn new() -> System {
        System { files: Vec::new(), held: Vec::new(), calls: Vec::new(), next: 3 }
    }

    fn open(&mut self, path: &'static str) -> File {
        let fd: Descriptor = self.next;
        self.next += 1;
        self.files.push((fd, path));
        File { fd }
    }

    fn close(&mut self, file: File) {
        self.held.retain(|(fd, _)| *fd != file.fd);
        self.files.retain(|(fd, _)| *fd != file.fd);
    }

    fn path(&self, descriptor: Descriptor) -> Option<&'static str> {
        self.files.iter().find(|(fd, _)| *fd == descriptor).map(|(_, path)| *path)
    }

    fn free_for(&self, descriptor: Descriptor, path: &str, exclusive: bool) -> bool {
        self.held.iter().all(|(fd, held_exclusive)| {
            *fd == descriptor
                || self.path(*fd) != Some(path)
                || (!exclusive && !*held_exclusive)
        })
    }

    fn lock(&mut self, descriptor: Descriptor, exclusive: bool, refused: i32) -> Result<(), i32> {
        let path = self.path(descriptor).ok_or(libc::EBADF)?;
        if !self.free_for(descriptor, path, exclusive) {
            return Err(refused);
        }
        self.held.retain(|(fd, _)| *fd != descriptor);
        self.held.push((descriptor, exclusive));
        Ok(())
    }

    fn unlock(&mut self, descriptor: Descriptor) -> Result<(), i32> {
        self.path(descriptor).ok_or(libc::EBADF)?;
        self.held.retain(|(fd, _)| *fd != descriptor);
        Ok(())
    }

    /// `flock(2)`, as far as the scenarios need it.
    fn flock(&mut self, request: Request) -> Reply {
        self.calls.push(request);
        let operation: i32 = unix::flock_operation(request.operation);
        let kind: i32 = operation & !libc::LOCK_NB;
        let done = if kind == libc::LOCK_UN {
            self.unlock(request.descriptor)
        } else if kind == libc::LOCK_SH || kind == libc::LOCK_EX {
            self.lock(request.descriptor, kind == libc::LOCK_EX, libc::EWOULDBLOCK)
        } else {
            Err(libc::EINVAL)
        };
        match done {
            Ok(()) => Reply { ret: 0, code: 0 },
            Err(code) => Reply { ret: -1, code },
        }
    }

    /// `LockFileEx` and `UnlockFile`, as far as the scenarios need them.
    fn lock_file_ex(&mut self, request: Request) -> Reply {
        self.calls.push(request);
        let done = match windows::system_call(request.operation) {
            SystemCall::LockFileEx { flags, .. } => self.lock(request.descriptor, flags & 2 != 0, 33),
            SystemCall::UnlockFile { .. } => self.unlock(request.descriptor),
        };
        match done {
            Ok(()) => Reply { ret: 1, code: 0 },
            Err(code) => Reply { ret: 0, code },
        }
    }

    fn attempt(&mut self, request: Request) -> LockAttempt {
        let reply = self.flock(request);
        unix::attempt(request.operation, reply)
    }

    fn result(&mut self, request: Option<Request>) -> Result<(), OsError> {
        match request {
            Some(request) => {
                let reply = self.flock(request);
                unix::lock_file(reply)
            }
            None => Ok(()),
        }
    }

    fn unlocks(&self) -> usize {
        self.calls.iter().filter(|request| request.operation == Operation::Unlock).count()
    }
}

#[derive(Debug, PartialEq, Eq)]
struct File {
    fd: Descriptor,
}

impl AsDescriptor for File {
    fn descriptor(&self) -> Descriptor {
        self.fd
    }

    fn as_descriptor(&self) -> Descriptor {
        self.fd
    }
}

fn try_exclusive<'a>(system: &mut System, file: &'a mut File) -> Option<async_locking::LockRef<'a, File>> {
    let pending = file.try_lock_exclusive_ref();
    let attempt = system.attempt(pending.request());
    pending.complete(attempt).unwrap()
}

fn try_shared<'a>(system: &mut System, file: &'a mut File) -> Option<async_locking::LockRef<'a, File>> {
    let pending = file.try_lock_shared_ref();
    let attempt = system.attempt(pending.request());
    pending.complete(attempt).unwrap()
}

#[test]
fn exclusive_lock_makes_every_other_attempt_would_block() {
    let mut system = System::new();
    let mut first = system.open("a.lock");
    let mut second = system.open("a.lock");
    let guard = try_exclusive(&mut system, &mut first).unwrap();

    let pending = second.try_lock_exclusive_ref();
    let attempt = system.attempt(pending.request());
    assert_eq!(attempt, LockAttempt::WouldBlock);
    assert!(matches!(pending.complete(attempt), Ok(None)));

    let pending = second.try_lock_shared_ref();
    let attempt = system.attempt(pending.request());
    assert_eq!(attempt, LockAttempt::WouldBlock);
    assert!(matches!(pending.complete(attempt), Ok(None)));

    let pending = second.try_lock_exclusive();
    let attempt = system.attempt(pending.request());
    match pending.complete(attempt) {
        Ok(LockResult::Blocking(file)) => assert_eq!(file, File { fd: 4 }),
        other => panic!("the handle was expected, not {:?}", other),
    }
    assert!(!guard.is_released());
}

#[test]
fn shared_locks_are_held_together_and_keep_exclusive_out() {
    let mut system = System::new();
    let mut first = system.open("a.lock");
    let mut second = system.open("a.lock");
    let mut third = system.open("a.lock");
    let one = try_shared(&mut system, &mut first);
    let two = try_shared(&mut system, &mut second);
    assert!(one.is_some());
    assert!(two.is_some());
    assert!(try_exclusive(&mut system, &mut third).is_none());
}

#[test]
fn locks_on_different_files_do_not_meet() {
    let mut system = System::new();
    let mut first = system.open("a.lock");
    let mut second = system.open("b.lock");
    assert!(try_exclusive(&mut system, &mut first).is_some());
    assert!(try_exclusive(&mut system, &mut second).is_some());
}

#[test]
fn unlock_lets_another_handle_in() {
    let mut system = System::new();
    let mut first = system.open("a.lock");
    let mut second = system.open("a.lock");
    let guard = try_exclusive(&mut system, &mut first).unwrap();
    assert!(try_exclusive(&mut system, &mut second).is_none());
    let request = guard.unlock();
    assert_eq!(system.result(request), Ok(()));
    assert!(try_exclusive(&mut system, &mut second).is_some());
}

#[test]
fn owning_unlock_returns_a_handle_that_still_works() {
    let mut system = System::new();
    let first = system.open("a.lock");
    let mut second = system.open("a.lock");
    let pending = first.try_lock_exclusive();
    let attempt = system.attempt(pending.request());
    let guard = pending.complete(attempt).unwrap().unwrap();
    let release = guard.unlock();
    let outcome = system.result(release.request());
    let mut first = release.complete(outcome).unwrap();
    assert_eq!(first, File { fd: 3 });
    assert!(try_shared(&mut system, &mut second).is_some());
    assert!(try_shared(&mut system, &mut first).is_some());
}

#[test]
fn borrowing_unlock_leaves_the_handle_in_reach() {
    let mut system = System::new();
    let mut first = system.open("a.lock");
    let guard = try_exclusive(&mut system, &mut first).unwrap();
    let request = guard.unlock();
    assert_eq!(system.result(request), Ok(()));
    assert_eq!(first, File { fd: 3 });
    assert!(try_exclusive(&mut system, &mut first).is_some());
}

#[test]
fn scope_exit_releases_as_unlock_does() {
    let mut system = System::new();
    let mut first = system.open("a.lock");
    let mut second = system.open("a.lock");
    {
        let mut guard = try_exclusive(&mut system, &mut first).unwrap();
        let on_scope_exit = guard.unlock_ref();
        assert_eq!(on_scope_exit, Some(Request { descriptor: 3, operation: Operation::Unlock }));
        let _ = system.result(on_scope_exit);
    }
    assert!(try_exclusive(&mut system, &mut second).is_some());
}

#[test]
fn scope_exit_lets_an_error_go() {
    let mut system = System::new();
    let mut first = system.open("a.lock");
    let mut guard = try_exclusive(&mut system, &mut first).unwrap();
    guard.get_mut().fd = 99;
    let on_scope_exit = guard.unlock_ref();
    assert_eq!(system.result(on_scope_exit), Err(OsError { code: libc::EBADF }));
    assert!(guard.is_released());
    assert_eq!(guard.unlock_ref(), None);
    assert_eq!(system.unlocks(), 1);
}

#[test]
fn test_lock_interprocess() {
    let mut system = System::new();
    let blocker = system.open("test.lock");
    let pending = blocker.try_lock_exclusive();
    let attempt = system.attempt(pending.request());
    let held = pending.complete(attempt).unwrap().unwrap();

    let mut file = system.open("test.lock");
    assert!(try_exclusive(&mut system, &mut file).is_none());
    assert!(try_shared(&mut system, &mut file).is_none());

    let release = held.unlock();
    let outcome = system.result(release.request());
    let blocker = release.complete(outcome).unwrap();
    system.close(blocker);

    let mut guard = try_exclusive(&mut system, &mut file).unwrap();
    let on_scope_exit = guard.unlock_ref();
    let _ = system.result(on_scope_exit);
    drop(guard);

    let pending = file.lock_exclusive_ref();
    assert_eq!(pending.request(), Request { descriptor: 4, operation: Operation::LockExclusive });
    let attempt = system.attempt(pending.request());
    assert_eq!(attempt, LockAttempt::Acquired);
    let lock = pending.complete(attempt).unwrap().unwrap();

    let mut again = system.open("test.lock");
    assert!(try_exclusive(&mut system, &mut again).is_none());

    let request = lock.unlock();
    assert_eq!(system.result(request), Ok(()));
}

#[test]
fn test_lock_current_process() {
    let mut system = System::new();
    let mut file = system.open("test2.lock");
    let mut file2 = system.open("test2.lock");

    let lock = try_exclusive(&mut system, &mut file).unwrap();
    assert!(try_exclusive(&mut system, &mut file2).is_none());

    let request = lock.unlock();
    system.result(request).unwrap();

    let lock = try_exclusive(&mut system, &mut file2).unwrap();
    assert!(try_exclusive(&mut system, &mut file).is_none());

    let request = lock.unlock();
    system.result(request).unwrap();

    let lock = try_shared(&mut system, &mut file).unwrap();
    assert!(try_shared(&mut system, &mut file2).is_some());
    assert!(try_exclusive(&mut system, &mut file2).is_none());

    let request = lock.unlock();
    system.result(request).unwrap();
}

#[test]
fn a_closed_handle_gives_the_system_error() {
    let mut system = System::new();
    let file = system.open("test.lock");
    let gone = file.as_descriptor();
    system.close(file);
    let pending = gone.lock_exclusive();
    let attempt = system.attempt(pending.request());
    assert_eq!(attempt, LockAttempt::Error(OsError { code: libc::EBADF }));
    match pending.complete(attempt) {
        Err(error) => assert_eq!(error, OsError { code: libc::EBADF }),
        other => panic!("an error was expected, not {:?}", other),
    }
}

#[test]
fn no_unlock_goes_out_twice() {
    let mut system = System::new();
    let first = system.open("a.lock");
    let pending = first.try_lock_exclusive();
    let attempt = system.attempt(pending.request());
    let mut guard = pending.complete(attempt).unwrap().unwrap();
    for _ in 0..3 {
        let request = guard.unlock_ref();
        system.result(request).unwrap();
    }
    let release = guard.unlock();
    let outcome = system.result(release.request());
    assert_eq!(release.complete(outcome), Ok(File { fd: 3 }));
    assert_eq!(system.unlocks(), 1);
}

#[test]
fn the_same_scenario_runs_on_the_other_platform() {
    let mut system = System::new();
    let mut first = system.open("a.lock");
    let mut second = system.open("a.lock");

    let pending = first.try_lock_exclusive_ref();
    let reply = system.lock_file_ex(pending.request());
    let attempt = windows::attempt(Operation::TryLockExclusive, reply);
    let guard = pending.complete(attempt).unwrap().unwrap();

    let pending = second.try_lock_exclusive_ref();
    let reply = system.lock_file_ex(pending.request());
    assert_eq!(reply, Reply { ret: 0, code: 33 });
    let attempt = windows::attempt(Operation::TryLockExclusive, reply);
    assert!(matches!(pending.complete(attempt), Ok(None)));

    let request = guard.unlock().unwrap();
    let reply = system.lock_file_ex(request);
    assert_eq!(windows::lock_file(reply), Ok(()));

    let pending = second.try_lock_exclusive_ref();
    let reply = system.lock_file_ex(pending.request());
    let attempt = windows::attempt(Operation::TryLockExclusive, reply);
    assert!(matches!(pending.complete(attempt), Ok(Some(_))));
}
