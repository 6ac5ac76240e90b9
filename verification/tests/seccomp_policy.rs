use joycon2click::seccomp::{
    descriptor_value, filter_outcome, Architecture, ArgEquals, BpfInstruction, ConfineError,
    ConfinementPolicy, Enforcement, FilterAction, SeccompConfiner, Syscall, SyscallRule, AF_NETLINK,
    EPERM, F_GETFD, NETLINK_KOBJECT_UEVENT, STDERR_FILENO, STDOUT_FILENO,
};
use nix::libc;
use seccompiler::{
    BpfProgram, SeccompAction, SeccompCmpArgLen, SeccompCmpOp, SeccompCondition, SeccompFilter,
    SeccompRule, TargetArch,
};

const ALL_CALLS: [Syscall; 13] = [
    Syscall::Close,
    Syscall::Read,
    Syscall::Recvfrom,
    Syscall::Getpid,
    Syscall::Getdents64,
    Syscall::Bind,
    Syscall::Fstat,
    Syscall::Write,
    Syscall::Setuid,
    Syscall::Socket,
    Syscall::Fcntl,
    Syscall::Ioctl,
    Syscall::Openat,
];

fn libc_number(call: Syscall) -> i64 {
    match call {
        Syscall::Close => libc::SYS_close,
        Syscall::Read => libc::SYS_read,
        Syscall::Recvfrom => libc::SYS_recvfrom,
        Syscall::Getpid => libc::SYS_getpid,
        Syscall::Getdents64 => libc::SYS_getdents64,
        Syscall::Bind => libc::SYS_bind,
        Syscall::Fstat => libc::SYS_fstat,
        Syscall::Write => libc::SYS_write,
        Syscall::Setuid => libc::SYS_setuid,
        Syscall::Socket => libc::SYS_socket,
        Syscall::Fcntl => libc::SYS_fcntl,
        Syscall::Ioctl => libc::SYS_ioctl,
        Syscall::Openat => libc::SYS_openat,
    }
}

/// The architecture whose table agrees with the numbers that this machine's
/// C library was built with, under the name that the compiler knows it by.
fn host() -> (Architecture, &'static str, TargetArch) {
    let known = [
        (Architecture::X86_64, "x86_64", TargetArch::x86_64),
        (Architecture::Aarch64, "aarch64", TargetArch::aarch64),
        (Architecture::Riscv64, "riscv64", TargetArch::riscv64),
    ];
    for (arch, name, target) in known {
        if ALL_CALLS.iter().all(|c| c.number(arch) == libc_number(*c)) {
            return (arch, name, target);
        }
    }
    panic!("no table agrees with the numbers of this machine");
}

fn calls_of(policy: &ConfinementPolicy) -> Vec<Syscall> {
    policy.rules.iter().map(|r| r.syscall).collect()
}

fn eq(arg_index: u8, value: u64) -> ArgEquals {
    ArgEquals { arg_index, value }
}

fn rule<'a>(policy: &'a ConfinementPolicy, call: Syscall) -> &'a SyscallRule {
    policy.rules.iter().find(|r| r.syscall == call).unwrap()
}

/// The filter as one writes it against the outside crate itself.
fn reference_program(allow_setuid: bool, device_fd: i32, action: SeccompAction, target: TargetArch) -> BpfProgram {
    let cond = |index: u8, value: u64| {
        SeccompCondition::new(index, SeccompCmpArgLen::Dword, SeccompCmpOp::Eq, value).unwrap()
    };
    let mut rules: Vec<(i64, Vec<SeccompRule>)> = Vec::new();
    for s in [
        libc::SYS_close,
        libc::SYS_read,
        libc::SYS_recvfrom,
        libc::SYS_getpid,
        libc::SYS_getdents64,
        libc::SYS_bind,
        libc::SYS_fstat,
    ] {
        rules.push((s, vec![]));
    }
    let mut writes = Vec::new();
    for f in [libc::STDOUT_FILENO, libc::STDERR_FILENO, device_fd] {
        writes.push(SeccompRule::new(vec![cond(0, f as u64)]).unwrap());
    }
    rules.push((libc::SYS_write, writes));
    if allow_setuid {
        rules.push((libc::SYS_setuid, vec![]));
    }
    rules.push((
        libc::SYS_socket,
        vec![SeccompRule::new(vec![
            cond(0, libc::AF_NETLINK as u64),
            cond(2, libc::NETLINK_KOBJECT_UEVENT as u64),
        ])
        .unwrap()],
    ));
    rules.push((
        libc::SYS_fcntl,
        vec![SeccompRule::new(vec![cond(1, libc::F_GETFD as u64)]).unwrap()],
    ));
    rules.push((libc::SYS_ioctl, vec![]));
    rules.push((libc::SYS_openat, vec![]));
    let filter =
        SeccompFilter::new(rules.into_iter().collect(), action, SeccompAction::Allow, target).unwrap();
    filter.try_into().unwrap()
}

fn same_program(ours: &[BpfInstruction], theirs: &BpfProgram) -> bool {
    ours.len() == theirs.len()
        && ours
            .iter()
            .zip(theirs.iter())
            .all(|(a, b)| a.code == b.code && a.jt == b.jt && a.jf == b.jf && a.k == b.k)
}

#[test]
fn policy_lists_every_call_in_order() {
    let policy = SeccompConfiner::new(true, 7).policy(Architecture::X86_64);
    assert_eq!(calls_of(&policy), ALL_CALLS.to_vec());
}

#[test]
fn policy_without_setuid_leaves_only_that_call_out() {
    let policy = SeccompConfiner::new(false, 7).policy(Architecture::X86_64);
    let expected: Vec<Syscall> =
        ALL_CALLS.iter().copied().filter(|c| *c != Syscall::Setuid).collect();
    assert_eq!(calls_of(&policy), expected);
}

#[test]
fn unconditional_calls_have_no_alternatives() {
    let policy = SeccompConfiner::new(true, 7).policy(Architecture::Aarch64);
    for call in [
        Syscall::Close,
        Syscall::Read,
        Syscall::Recvfrom,
        Syscall::Getpid,
        Syscall::Getdents64,
        Syscall::Bind,
        Syscall::Fstat,
        Syscall::Setuid,
        Syscall::Ioctl,
        Syscall::Openat,
    ] {
        assert!(rule(&policy, call).alternatives.is_empty());
    }
}

#[test]
fn write_is_bound_to_three_descriptors() {
    let policy = SeccompConfiner::new(false, 7).policy(Architecture::X86_64);
    let write = rule(&policy, Syscall::Write);
    assert_eq!(write.number, 1);
    assert_eq!(write.alternatives, vec![vec![eq(0, 1)], vec![eq(0, 2)], vec![eq(0, 7)]]);
}

#[test]
fn socket_needs_family_and_protocol_together() {
    let policy = SeccompConfiner::new(false, 7).policy(Architecture::X86_64);
    let socket = rule(&policy, Syscall::Socket);
    assert_eq!(socket.number, 41);
    assert_eq!(socket.alternatives, vec![vec![eq(0, 16), eq(2, 15)]]);
}

#[test]
fn fcntl_may_only_read_descriptor_flags() {
    let policy = SeccompConfiner::new(false, 7).policy(Architecture::X86_64);
    let fcntl = rule(&policy, Syscall::Fcntl);
    assert_eq!(fcntl.number, 72);
    assert_eq!(fcntl.alternatives, vec![vec![eq(1, 1)]]);
}

#[test]
fn constants_agree_with_the_c_library() {
    assert_eq!(STDOUT_FILENO, libc::STDOUT_FILENO);
    assert_eq!(STDERR_FILENO, libc::STDERR_FILENO);
    assert_eq!(AF_NETLINK, libc::AF_NETLINK as u64);
    assert_eq!(NETLINK_KOBJECT_UEVENT, libc::NETLINK_KOBJECT_UEVENT as u64);
    assert_eq!(F_GETFD, libc::F_GETFD as u64);
    assert_eq!(EPERM, libc::EPERM as u32);
}

#[test]
fn numbers_on_x86_64() {
    let expected: [i64; 13] = [3, 0, 45, 39, 217, 49, 5, 1, 105, 41, 72, 16, 257];
    for (call, number) in ALL_CALLS.iter().zip(expected) {
        assert_eq!(call.number(Architecture::X86_64), number);
    }
}

#[test]
fn numbers_on_the_generic_table() {
    let expected: [i64; 13] = [57, 63, 207, 172, 61, 200, 80, 64, 146, 198, 25, 29, 56];
    for (call, number) in ALL_CALLS.iter().zip(expected) {
        assert_eq!(call.number(Architecture::Aarch64), number);
        assert_eq!(call.number(Architecture::Riscv64), number);
    }
}

#[test]
fn numbers_of_this_machine_agree_with_the_c_library() {
    let (arch, _, _) = host();
    let policy = SeccompConfiner::new(true, 7).policy(arch);
    for r in &policy.rules {
        assert_eq!(r.number, libc_number(r.syscall));
    }
}

#[test]
fn descriptor_value_extends_the_sign() {
    assert_eq!(descriptor_value(0), 0);
    assert_eq!(descriptor_value(7), 7);
    assert_eq!(descriptor_value(i32::MAX), 0x7fff_ffff);
    assert_eq!(descriptor_value(-1), u64::MAX);
    assert_eq!(descriptor_value(-2), -2i32 as u64);
    assert_eq!(descriptor_value(i32::MIN), i32::MIN as u64);
}

#[test]
fn enforcement_decides_the_fate_of_other_calls() {
    assert_eq!(Enforcement::Enforcing.on_mismatch(), FilterAction::Errno(1));
    assert_eq!(Enforcement::Diagnostic.on_mismatch(), FilterAction::Log);
    let enforcing = SeccompConfiner::new(true, 7);
    assert_eq!(enforcing.policy(Architecture::X86_64).on_mismatch, FilterAction::Errno(1));
    assert_eq!(
        enforcing.diagnostic().policy(Architecture::X86_64).on_mismatch,
        FilterAction::Log
    );
}

#[test]
fn a_call_on_the_list_is_allowed() {
    for confiner in [SeccompConfiner::new(true, 7), SeccompConfiner::new(false, 7).diagnostic()] {
        for arch in [Architecture::X86_64, Architecture::Aarch64, Architecture::Riscv64] {
            let policy = confiner.policy(arch);
            assert_eq!(policy.on_match, FilterAction::Allow);
            assert_ne!(policy.on_mismatch, FilterAction::Allow);
        }
    }
}

#[test]
fn the_program_returns_the_actions_of_the_policy() {
    // What a filter returns to the kernel: to allow, to log, and to fail
    // with the error number in the low bits.
    let allow = BpfInstruction { code: 0x06, jt: 0, jf: 0, k: 0x7fff_0000 };
    let log = BpfInstruction { code: 0x06, jt: 0, jf: 0, k: 0x7ffc_0000 };
    let eperm = BpfInstruction { code: 0x06, jt: 0, jf: 0, k: 0x0005_0001 };
    let returns = |program: &[BpfInstruction]| -> Vec<BpfInstruction> {
        program.iter().copied().filter(|i| i.code == 0x06 && i.k != 0x8000_0000).collect()
    };

    let enforcing = SeccompConfiner::new(true, 7).confine("x86_64").unwrap();
    let seen = returns(&enforcing);
    assert!(seen.contains(&allow));
    assert!(seen.contains(&eperm));
    assert!(seen.iter().all(|i| *i == allow || *i == eperm));
    // One way through for each call without demands and for each
    // alternative of the others: 10 + 3 + 1 + 1.
    assert_eq!(seen.iter().filter(|i| **i == allow).count(), 15);
    assert_eq!(*enforcing.last().unwrap(), eperm);

    let diagnostic = SeccompConfiner::new(true, 7).diagnostic().confine("x86_64").unwrap();
    let seen = returns(&diagnostic);
    assert!(seen.contains(&allow));
    assert!(seen.contains(&log));
    assert!(seen.iter().all(|i| *i == allow || *i == log));
    assert_eq!(seen.iter().filter(|i| **i == allow).count(), 15);
    assert_eq!(*diagnostic.last().unwrap(), log);
}

#[test]
fn policy_permits_what_the_daemon_needs() {
    let policy = SeccompConfiner::new(false, 7).policy(Architecture::X86_64);
    assert!(policy.permits(Syscall::Read, &[9, 9, 9, 9, 9, 9]));
    assert!(policy.permits(Syscall::Ioctl, &[0, 0, 0, 0, 0, 0]));
    assert!(policy.permits(Syscall::Write, &[1, 0, 0, 0, 0, 0]));
    assert!(policy.permits(Syscall::Write, &[2, 0, 0, 0, 0, 0]));
    assert!(policy.permits(Syscall::Write, &[7, 0, 0, 0, 0, 0]));
    assert!(policy.permits(Syscall::Socket, &[16, 3, 15, 0, 0, 0]));
    assert!(policy.permits(Syscall::Fcntl, &[5, 1, 0, 0, 0, 0]));
}

#[test]
fn policy_refuses_the_rest() {
    let policy = SeccompConfiner::new(false, 7).policy(Architecture::X86_64);
    assert!(!policy.permits(Syscall::Write, &[0, 0, 0, 0, 0, 0]));
    assert!(!policy.permits(Syscall::Write, &[3, 0, 0, 0, 0, 0]));
    assert!(!policy.permits(Syscall::Write, &[8, 0, 0, 0, 0, 0]));
    // Both demands of a socket have to be met.
    assert!(!policy.permits(Syscall::Socket, &[16, 3, 0, 0, 0, 0]));
    assert!(!policy.permits(Syscall::Socket, &[2, 3, 15, 0, 0, 0]));
    assert!(!policy.permits(Syscall::Fcntl, &[5, 2, 0, 0, 0, 0]));
    assert!(!policy.permits(Syscall::Setuid, &[1000, 0, 0, 0, 0, 0]));
}

#[test]
fn setuid_is_permitted_only_where_it_was_asked_for() {
    let with = SeccompConfiner::new(true, 7).policy(Architecture::X86_64);
    let without = SeccompConfiner::new(false, 7).policy(Architecture::X86_64);
    assert!(with.permits(Syscall::Setuid, &[1000, 0, 0, 0, 0, 0]));
    assert!(!without.permits(Syscall::Setuid, &[1000, 0, 0, 0, 0, 0]));
}

#[test]
fn only_the_low_word_of_an_argument_counts() {
    let policy = SeccompConfiner::new(false, -1).policy(Architecture::X86_64);
    assert_eq!(rule(&policy, Syscall::Write).alternatives[2], vec![eq(0, u64::MAX)]);
    assert!(policy.permits(Syscall::Write, &[0xffff_ffff, 0, 0, 0, 0, 0]));
    assert!(policy.permits(Syscall::Write, &[0x5_0000_0001, 0, 0, 0, 0, 0]));
    assert!(!policy.permits(Syscall::Write, &[0xffff_fffe, 0, 0, 0, 0, 0]));
}

#[test]
fn a_descriptor_that_is_also_standard_output_changes_nothing() {
    let policy = SeccompConfiner::new(false, 1).policy(Architecture::X86_64);
    assert_eq!(
        rule(&policy, Syscall::Write).alternatives,
        vec![vec![eq(0, 1)], vec![eq(0, 2)], vec![eq(0, 1)]]
    );
    assert!(policy.permits(Syscall::Write, &[1, 0, 0, 0, 0, 0]));
    assert!(!policy.permits(Syscall::Write, &[3, 0, 0, 0, 0, 0]));
}

#[test]
fn confine_compiles_what_the_compiler_compiles() {
    let (_, name, target) = host();
    for allow_setuid in [false, true] {
        for fd in [3, 7, -1] {
            let ours = SeccompConfiner::new(allow_setuid, fd).confine(name).unwrap();
            let theirs = reference_program(allow_setuid, fd, SeccompAction::Errno(1), target);
            assert!(same_program(&ours, &theirs));
        }
    }
}

#[test]
fn diagnostic_confiner_compiles_a_logging_filter() {
    let (_, name, target) = host();
    let ours = SeccompConfiner::new(true, 7).diagnostic().confine(name).unwrap();
    let theirs = reference_program(true, 7, SeccompAction::Log, target);
    assert!(same_program(&ours, &theirs));
    let enforcing = SeccompConfiner::new(true, 7).confine(name).unwrap();
    assert_ne!(ours, enforcing);
}

#[test]
fn confine_depends_on_the_architecture() {
    let x86 = SeccompConfiner::new(true, 7).confine("x86_64").unwrap();
    let arm = SeccompConfiner::new(true, 7).confine("aarch64").unwrap();
    let riscv = SeccompConfiner::new(true, 7).confine("riscv64").unwrap();
    assert_eq!(x86.len(), arm.len());
    assert_ne!(x86, arm);
    assert_ne!(arm, riscv);
    // The program starts by loading the architecture of the call, and goes
    // on only where that is the one it was built for.
    assert_eq!(x86[0], BpfInstruction { code: 0x20, jt: 0, jf: 0, k: 4 });
    assert_eq!(x86[1], BpfInstruction { code: 0x15, jt: 1, jf: 0, k: 0xc000_003e });
    assert_eq!(arm[1], BpfInstruction { code: 0x15, jt: 1, jf: 0, k: 0xc000_00b7 });
    assert_eq!(riscv[1], BpfInstruction { code: 0x15, jt: 1, jf: 0, k: 0xc000_00f3 });
}

#[test]
fn confine_is_the_same_on_every_run() {
    let first = SeccompConfiner::new(true, 7).confine("x86_64");
    let second = SeccompConfiner::new(true, 7).confine("x86_64");
    assert_eq!(first, second);
    let a = SeccompConfiner::new(true, 7).policy(Architecture::X86_64);
    let b = SeccompConfiner::new(true, 7).policy(Architecture::X86_64);
    assert_eq!(calls_of(&a), calls_of(&b));
    for (x, y) in a.rules.iter().zip(b.rules.iter()) {
        assert_eq!(x.number, y.number);
        assert_eq!(x.alternatives, y.alternatives);
    }
}

#[test]
fn architecture_names() {
    assert_eq!(Architecture::parse("x86_64"), Some(Architecture::X86_64));
    assert_eq!(Architecture::parse("aarch64"), Some(Architecture::Aarch64));
    assert_eq!(Architecture::parse("riscv64"), Some(Architecture::Riscv64));
    assert_eq!(Architecture::parse("X86_64"), Some(Architecture::X86_64));
    assert_eq!(Architecture::parse("x8664"), None);
    assert_eq!(Architecture::parse(""), None);
    assert_eq!(Architecture::parse("arm"), None);
}

#[test]
fn confine_refuses_an_unknown_architecture() {
    assert_eq!(
        SeccompConfiner::new(true, 7).confine("m68k"),
        Err(ConfineError::UnsupportedArchitecture)
    );
}

#[test]
fn a_program_that_was_not_compiled_is_too_large() {
    assert_eq!(filter_outcome(None), Err(ConfineError::FilterTooLarge));
    let program = vec![BpfInstruction { code: 6, jt: 0, jf: 0, k: 0 }];
    assert_eq!(filter_outcome(Some(program.clone())), Ok(program));
}
