use r_linux_syscall::arch::x86;
use r_linux_syscall::arch::x86_64;

#[test]
fn native_check() {
    //
    // Verify the table of the architecture that this test runs on names an
    // actual call. Of the supported architectures, x86_64 is the one with
    // words of 64 bits.
    //

    let exit = if usize::BITS == 64 { x86_64::nr::EXIT } else { x86::nr::EXIT };
    assert_ne!(exit, 0);
}

#[test]
fn mod_native_check() {
    //
    // Whichever of the supported architectures a build binds as its native
    // one, its table names an actual call.
    //

    assert_ne!(x86::nr::EXIT, 0);
    assert_ne!(x86_64::nr::EXIT, 0);
}

#[test]
fn arch_availability() {
    //
    // Verify all architectures are always compiled in and accessible. We
    // simply check for their hard-coded `nr::EXIT` symbols here.
    //

    assert_eq!(x86::nr::EXIT, 1);
    assert_eq!(x86_64::nr::EXIT, 60);
}

#[test]
fn mod_arch_availability() {
    //
    // Verify all architectures are always compiled in and accessible. We
    // simply check for their hard-coded `nr::EXIT` symbols here.
    //

    assert_eq!(x86::nr::EXIT, 1);
    assert_eq!(x86_64::nr::EXIT, 60);
}

#[test]
fn arch_check() {
    //
    // Check for basic architecture properties that need to be satisfied by
    // all linux architectures and is relied upon.
    //

    assert!(core::mem::size_of::<usize>() >= 4);
    assert!(core::mem::align_of::<usize>() >= 4);
}

#[test]
fn x86_call_numbers() {
    assert_eq!(x86::nr::RESTART_SYSCALL, 0);
    assert_eq!(x86::nr::EXIT, 1);
    assert_eq!(x86::nr::FORK, 2);
    assert_eq!(x86::nr::READ, 3);
    assert_eq!(x86::nr::WRITE, 4);
    assert_eq!(x86::nr::OPEN, 5);
    assert_eq!(x86::nr::CLOSE, 6);
    assert_eq!(x86::nr::LSEEK, 19);
    assert_eq!(x86::nr::GETPID, 20);
    assert_eq!(x86::nr::DUP, 41);
    assert_eq!(x86::nr::DUP2, 63);
    assert_eq!(x86::nr::READLINKAT, 305);
    assert_eq!(x86::nr::DUP3, 330);
    assert_eq!(x86::nr::PIPE2, 331);
    assert_eq!(x86::nr::MEMFD_CREATE, 356);
    assert_eq!(x86::nr::COPY_FILE_RANGE, 377);
    assert_eq!(x86::nr::STATX, 383);
}

#[test]
fn x86_64_call_numbers() {
    assert_eq!(x86_64::nr::READ, 0);
    assert_eq!(x86_64::nr::WRITE, 1);
    assert_eq!(x86_64::nr::OPEN, 2);
    assert_eq!(x86_64::nr::CLOSE, 3);
    assert_eq!(x86_64::nr::LSEEK, 8);
    assert_eq!(x86_64::nr::DUP, 32);
    assert_eq!(x86_64::nr::DUP2, 33);
    assert_eq!(x86_64::nr::GETPID, 39);
    assert_eq!(x86_64::nr::FORK, 57);
    assert_eq!(x86_64::nr::EXIT, 60);
    assert_eq!(x86_64::nr::RESTART_SYSCALL, 219);
    assert_eq!(x86_64::nr::READLINKAT, 267);
    assert_eq!(x86_64::nr::DUP3, 292);
    assert_eq!(x86_64::nr::PIPE2, 293);
    assert_eq!(x86_64::nr::MEMFD_CREATE, 319);
    assert_eq!(x86_64::nr::COPY_FILE_RANGE, 326);
    assert_eq!(x86_64::nr::STATX, 332);
}
