//! The system call allow-list of the confined daemon, and its compilation
//! into a kernel filter program.

use seccompiler::{
    BpfProgram, SeccompAction, SeccompCmpArgLen, SeccompCmpOp, SeccompCondition, SeccompFilter,
    SeccompRule, TargetArch,
};
use vstd::prelude::*;

verus! {

/// A processor architecture for which a filter can be built.
#[derive(Clone, Copy, Debug, PartialEq, Eq, Structural)]
pub enum Architecture {
    X86_64,
    Aarch64,
    Riscv64,
}

/// A system call that the daemon may need after it has been confined.
#[derive(Clone, Copy, Debug, PartialEq, Eq, Structural)]
pub enum Syscall {
    Close,
    Read,
    Recvfrom,
    Getpid,
    Getdents64,
    Bind,
    Fstat,
    Write,
    Setuid,
    Socket,
    Fcntl,
    Ioctl,
    Openat,
}

impl Syscall {
    /// The number under which the kernel knows this call on `arch`.
    pub open spec fn spec_number(self, arch: Architecture) -> int {
        match arch {
            Architecture::X86_64 => match self {
                Syscall::Read => 0,
                Syscall::Write => 1,
                Syscall::Close => 3,
                Syscall::Fstat => 5,
                Syscall::Ioctl => 16,
                Syscall::Getpid => 39,
                Syscall::Socket => 41,
                Syscall::Recvfrom => 45,
                Syscall::Bind => 49,
                Syscall::Fcntl => 72,
                Syscall::Setuid => 105,
                Syscall::Getdents64 => 217,
                Syscall::Openat => 257,
            },
            // Both follow the kernel's generic table.
            Architecture::Aarch64 | Architecture::Riscv64 => match self {
                Syscall::Fcntl => 25,
                Syscall::Ioctl => 29,
                Syscall::Openat => 56,
                Syscall::Close => 57,
                Syscall::Getdents64 => 61,
                Syscall::Read => 63,
                Syscall::Write => 64,
                Syscall::Fstat => 80,
                Syscall::Setuid => 146,
                Syscall::Getpid => 172,
                Syscall::Socket => 198,
                Syscall::Bind => 200,
                Syscall::Recvfrom => 207,
            },
        }
    }

    /// The number under which the kernel knows this call on `arch`.
    pub fn number(self, arch: Architecture) -> (n: i64)
        ensures
            n == self.spec_number(arch),
    {
        match arch {
            Architecture::X86_64 => match self {
                Syscall::Read => 0,
                Syscall::Write => 1,
                Syscall::Close => 3,
                Syscall::Fstat => 5,
                Syscall::Ioctl => 16,
                Syscall::Getpid => 39,
                Syscall::Socket => 41,
                Syscall::Recvfrom => 45,
                Syscall::Bind => 49,
                Syscall::Fcntl => 72,
                Syscall::Setuid => 105,
                Syscall::Getdents64 => 217,
                Syscall::Openat => 257,
            },
            Architecture::Aarch64 | Architecture::Riscv64 => match self {
                Syscall::Fcntl => 25,
                Syscall::Ioctl => 29,
                Syscall::Openat => 56,
                Syscall::Close => 57,
                Syscall::Getdents64 => 61,
                Syscall::Read => 63,
                Syscall::Write => 64,
                Syscall::Fstat => 80,
                Syscall::Setuid => 146,
                Syscall::Getpid => 172,
                Syscall::Socket => 198,
                Syscall::Bind => 200,
                Syscall::Recvfrom => 207,
            },
        }
    }
}


/// Descriptor of the standard output.
pub const STDOUT_FILENO: i32 = 1;

/// Descriptor of the standard error.
pub const STDERR_FILENO: i32 = 2;

/// Address family of the kernel's event sockets.
pub const AF_NETLINK: u64 = 16;

/// Protocol on which the kernel announces its objects.
pub const NETLINK_KOBJECT_UEVENT: u64 = 15;

/// The `fcntl` operation that reads a descriptor's flags.
pub const F_GETFD: u64 = 1;

/// Error number of "operation not permitted".
pub const EPERM: u32 = 1;

/// Highest index of a system call argument.
pub const ARG_INDEX_MAX: u8 = 5;

/// The low 32 bits of an argument, which is all that the filter compares.
pub open spec fn low_word(value: u64) -> int {
    value as int % 0x1_0000_0000
}

/// A descriptor as the kernel sees it in a 64-bit argument: sign-extended.
pub open spec fn spec_descriptor_value(fd: i32) -> u64 {
    if fd >= 0 {
        fd as u64
    } else {
        (0x1_0000_0000_0000_0000 + fd) as u64
    }
}

/// A descriptor as the kernel sees it in a 64-bit argument: sign-extended.
pub fn descriptor_value(fd: i32) -> (value: u64)
    ensures
        value == spec_descriptor_value(fd),
{
    if fd >= 0 {
        fd as u64
    } else {
        let below: i64 = -(fd as i64) - 1;
        u64::MAX - (below as u64)
    }
}

/// The demand that one argument of a call, taken as a 32-bit word, equals a
/// given value.
#[derive(Clone, Copy, Debug, PartialEq, Eq, Structural)]
pub struct ArgEquals {
    pub arg_index: u8,
    pub value: u64,
}

impl ArgEquals {
    /// Whether a call made with `args` meets the demand.
    pub open spec fn holds(self, args: Seq<u64>) -> bool {
        self.arg_index < args.len() && low_word(args[self.arg_index as int]) == low_word(
            self.value,
        )
    }
}

/// What the rule of one system call says: the call, and the alternatives of
/// which one has to be met in full. Without alternatives the call is allowed
/// whatever its arguments.
pub struct RuleView {
    pub syscall: Syscall,
    pub alternatives: Seq<Seq<ArgEquals>>,
}

/// The rule of one system call, with the call's number on the architecture
/// that the rule was made for.
#[derive(Debug)]
pub struct SyscallRule {
    pub syscall: Syscall,
    pub number: i64,
    pub alternatives: Vec<Vec<ArgEquals>>,
}

impl View for SyscallRule {
    type V = RuleView;

    open spec fn view(&self) -> RuleView {
        RuleView {
            syscall: self.syscall,
            alternatives: self.alternatives@.map_values(|c: Vec<ArgEquals>| c@),
        }
    }
}

/// What a list of rules says, rule by rule.
pub open spec fn rules_view(rules: Seq<SyscallRule>) -> Seq<RuleView> {
    rules.map_values(|r: SyscallRule| r@)
}

/// What the kernel does with a call once the filter has judged it. No action
/// of a filter of this library ends the process or one of its threads.
#[derive(Clone, Copy, Debug, PartialEq, Eq, Structural)]
pub enum FilterAction {
    /// The call goes on.
    Allow,
    /// The call is logged and goes on: for diagnosis only.
    Log,
    /// The call fails with the given error number.
    Errno(u32),
}

/// The policy of a confined process: the rules of the calls that are let
/// through, what happens to a call that they let through, and what happens
/// to every other call.
#[derive(Debug)]
pub struct ConfinementPolicy {
    pub rules: Vec<SyscallRule>,
    pub on_match: FilterAction,
    pub on_mismatch: FilterAction,
}

/// What a `ConfinementPolicy` says.
pub struct PolicyView {
    pub rules: Seq<RuleView>,
    pub on_match: FilterAction,
    pub on_mismatch: FilterAction,
}

impl View for ConfinementPolicy {
    type V = PolicyView;

    open spec fn view(&self) -> PolicyView {
        PolicyView {
            rules: rules_view(self.rules@),
            on_match: self.on_match,
            on_mismatch: self.on_mismatch,
        }
    }
}

/// Whether a call made with `args` meets every demand of `conditions`.
pub open spec fn all_hold(conditions: Seq<ArgEquals>, args: Seq<u64>) -> bool {
    forall|k: int| 0 <= k < conditions.len() ==> (#[trigger] conditions[k]).holds(args)
}

/// Whether `rule` lets a call with `args` through.
pub open spec fn rule_permits(rule: RuleView, args: Seq<u64>) -> bool {
    rule.alternatives.len() == 0 || exists|j: int|
        0 <= j < rule.alternatives.len() && all_hold(#[trigger] rule.alternatives[j], args)
}

/// Whether `rules` let the call `call` with `args` through. A call that no
/// rule names is left to the action for mismatches.
pub open spec fn permits(rules: Seq<RuleView>, call: Syscall, args: Seq<u64>) -> bool {
    exists|i: int|
        0 <= i < rules.len() && (#[trigger] rules[i]).syscall == call && rule_permits(
            rules[i],
            args,
        )
}

/// The rule that allows `call` whatever its arguments.
pub open spec fn always(call: Syscall) -> RuleView {
    RuleView { syscall: call, alternatives: Seq::empty() }
}

/// The rule that allows `call` where one of `alternatives` is met.
pub open spec fn when(call: Syscall, alternatives: Seq<Seq<ArgEquals>>) -> RuleView {
    RuleView { syscall: call, alternatives }
}

/// The demand that argument `arg_index` equals `value`.
pub open spec fn arg_is(arg_index: u8, value: u64) -> ArgEquals {
    ArgEquals { arg_index, value }
}

/// The allow-list of the daemon, in the order in which it is built.
///
/// Closing, reading, receiving, asking for the process id, reading
/// directories, binding a socket and asking for a file's status are allowed
/// as they are, and so are `ioctl` and `openat`. Writing is allowed to the
/// standard output, the standard error and the virtual keyboard. A socket may
/// be opened for the kernel's object events only, and `fcntl` may read a
/// descriptor's flags only. `setuid` is on the list only where
/// `allow_setuid` says so.
pub open spec fn allow_list(allow_setuid: bool, device_fd: i32) -> Seq<RuleView> {
    seq![
        always(Syscall::Close),
        always(Syscall::Read),
        always(Syscall::Recvfrom),
        always(Syscall::Getpid),
        always(Syscall::Getdents64),
        always(Syscall::Bind),
        always(Syscall::Fstat),
        when(
            Syscall::Write,
            seq![
                seq![arg_is(0, spec_descriptor_value(STDOUT_FILENO))],
                seq![arg_is(0, spec_descriptor_value(STDERR_FILENO))],
                seq![arg_is(0, spec_descriptor_value(device_fd))],
            ],
        ),
    ] + (if allow_setuid {
        seq![always(Syscall::Setuid)]
    } else {
        Seq::empty()
    }) + seq![
        when(
            Syscall::Socket,
            seq![seq![arg_is(0, AF_NETLINK), arg_is(2, NETLINK_KOBJECT_UEVENT)]],
        ),
        when(Syscall::Fcntl, seq![seq![arg_is(1, F_GETFD)]]),
        always(Syscall::Ioctl),
        always(Syscall::Openat),
    ]
}

/// The calls that the confined daemon may make, said directly.
pub open spec fn allowed(allow_setuid: bool, device_fd: i32, call: Syscall, args: Seq<u64>) -> bool {
    match call {
        Syscall::Close
        | Syscall::Read
        | Syscall::Recvfrom
        | Syscall::Getpid
        | Syscall::Getdents64
        | Syscall::Bind
        | Syscall::Fstat
        | Syscall::Ioctl
        | Syscall::Openat => true,
        Syscall::Write => {
            ||| low_word(args[0]) == STDOUT_FILENO
            ||| low_word(args[0]) == STDERR_FILENO
            ||| low_word(args[0]) == low_word(spec_descriptor_value(device_fd))
        },
        Syscall::Setuid => allow_setuid,
        Syscall::Socket => low_word(args[0]) == AF_NETLINK && low_word(args[2])
            == NETLINK_KOBJECT_UEVENT,
        Syscall::Fcntl => low_word(args[1]) == F_GETFD,
    }
}


/// The allow-list means what `allowed` says: it lets a call through exactly
/// where the daemon is meant to make it.
pub proof fn lemma_allow_list_meaning(allow_setuid: bool, device_fd: i32, call: Syscall, args: Seq<u64>)
    requires
        args.len() == 6,
    ensures
        permits(allow_list(allow_setuid, device_fd), call, args) <==> allowed(
            allow_setuid,
            device_fd,
            call,
            args,
        ),
{
    let rules = allow_list(allow_setuid, device_fd);
    let shift: int = if allow_setuid { 1 } else { 0 };
    assert(rules.len() == 12 + shift);
    assert(rules[0] == always(Syscall::Close));
    assert(rules[1] == always(Syscall::Read));
    assert(rules[2] == always(Syscall::Recvfrom));
    assert(rules[3] == always(Syscall::Getpid));
    assert(rules[4] == always(Syscall::Getdents64));
    assert(rules[5] == always(Syscall::Bind));
    assert(rules[6] == always(Syscall::Fstat));
    let write = rules[7];
    assert(write.syscall == Syscall::Write && write.alternatives.len() == 3);
    assert(allow_setuid ==> rules[8] == always(Syscall::Setuid));
    let socket = rules[8 + shift];
    assert(socket.syscall == Syscall::Socket && socket.alternatives.len() == 1);
    let fcntl = rules[9 + shift];
    assert(fcntl.syscall == Syscall::Fcntl && fcntl.alternatives.len() == 1);
    assert(rules[10 + shift] == always(Syscall::Ioctl));
    assert(rules[11 + shift] == always(Syscall::Openat));
    assert(spec_descriptor_value(STDOUT_FILENO) == 1 && spec_descriptor_value(STDERR_FILENO) == 2);
    assert(low_word(1) == 1 && low_word(2) == 2 && low_word(15) == 15 && low_word(16) == 16);

    assert(all_hold(write.alternatives[0], args) <==> low_word(args[0]) == 1) by {
        assert(write.alternatives[0][0] == arg_is(0, 1));
    }
    assert(all_hold(write.alternatives[1], args) <==> low_word(args[0]) == 2) by {
        assert(write.alternatives[1][0] == arg_is(0, 2));
    }
    assert(all_hold(write.alternatives[2], args) <==> low_word(args[0]) == low_word(
        spec_descriptor_value(device_fd),
    )) by {
        assert(write.alternatives[2][0] == arg_is(0, spec_descriptor_value(device_fd)));
    }
    assert(all_hold(socket.alternatives[0], args) <==> (low_word(args[0]) == 16 && low_word(
        args[2],
    ) == 15)) by {
        assert(socket.alternatives[0][0] == arg_is(0, AF_NETLINK));
        assert(socket.alternatives[0][1] == arg_is(2, NETLINK_KOBJECT_UEVENT));
    }
    assert(all_hold(fcntl.alternatives[0], args) <==> low_word(args[1]) == 1) by {
        assert(fcntl.alternatives[0][0] == arg_is(1, F_GETFD));
    }

    if allowed(allow_setuid, device_fd, call, args) {
        let i: int = match call {
            Syscall::Close => 0,
            Syscall::Read => 1,
            Syscall::Recvfrom => 2,
            Syscall::Getpid => 3,
            Syscall::Getdents64 => 4,
            Syscall::Bind => 5,
            Syscall::Fstat => 6,
            Syscall::Write => 7,
            Syscall::Setuid => 8,
            Syscall::Socket => 8 + shift,
            Syscall::Fcntl => 9 + shift,
            Syscall::Ioctl => 10 + shift,
            Syscall::Openat => 11 + shift,
        };
        assert(rules[i].syscall == call && rule_permits(rules[i], args));
    }
    if permits(rules, call, args) {
        let i = choose|i: int|
            0 <= i < rules.len() && (#[trigger] rules[i]).syscall == call && rule_permits(
                rules[i],
                args,
            );
        assert(rules[i].syscall == call && rule_permits(rules[i], args));
        if i == 7 {
            let j = choose|j: int|
                0 <= j < write.alternatives.len() && all_hold(#[trigger] write.alternatives[j], args);
            assert(j == 0 || j == 1 || j == 2);
        }
    }
}

/// No call stands twice on the allow-list, so no rule hides another.
pub proof fn lemma_allow_list_names_each_call_once(allow_setuid: bool, device_fd: i32)
    ensures
        forall|i: int, j: int|
            #![trigger allow_list(allow_setuid, device_fd)[i], allow_list(allow_setuid, device_fd)[j]]
            0 <= i < j < allow_list(allow_setuid, device_fd).len() ==> allow_list(
                allow_setuid,
                device_fd,
            )[i].syscall != allow_list(allow_setuid, device_fd)[j].syscall,
{
}


/// One instruction of a filter program.
#[derive(Clone, Copy, Debug, PartialEq, Eq, Structural)]
pub struct BpfInstruction {
    pub code: u16,
    pub jt: u8,
    pub jf: u8,
    pub k: u32,
}

/// Why no filter program could be made.
#[derive(Clone, Copy, Debug, PartialEq, Eq, Structural)]
pub enum ConfineError {
    /// No filter can be built for the architecture that was named.
    UnsupportedArchitecture,
    /// The program would be longer than the kernel accepts.
    FilterTooLarge,
}

#[verifier::external_type_specification]
#[verifier::external_body]
pub struct ExSeccompRule(seccompiler::SeccompRule);

/// The architecture that `seccompiler` knows under `name`, if it knows one.
pub uninterp spec fn target_arch_of(name: Seq<char>) -> Option<Architecture>;

/// The rule that `seccompiler` makes of a list of demands, each a comparison
/// of a 32-bit word for equality.
pub uninterp spec fn rule_of(conditions: Seq<ArgEquals>) -> SeccompRule;

/// The program that `seccompiler` compiles from a table of system call
/// numbers and their rules, the action for a call that the table does not
/// let through and the action for one that it does, or `None` where it
/// compiles none.
pub uninterp spec fn bpf_program(
    table: Seq<(i64, Seq<SeccompRule>)>,
    on_mismatch: FilterAction,
    on_match: FilterAction,
    arch: Architecture,
) -> Option<Seq<BpfInstruction>>;

/// What a table of numbers and rules holds, entry by entry.
pub open spec fn table_view(table: Seq<(i64, Vec<SeccompRule>)>) -> Seq<(i64, Seq<SeccompRule>)> {
    table.map_values(|e: (i64, Vec<SeccompRule>)| (e.0, e.1@))
}

/// `TargetArch::try_from` of `seccompiler`, which reads the name of an
/// architecture. The names "x86_64", "aarch64" and "riscv64" are known, and
/// the answer depends on the name alone.
#[verifier::external_body]
fn target_arch(name: &str) -> (arch: Option<Architecture>)
    ensures
        arch == target_arch_of(name@),
        name@ == "x86_64"@ ==> arch == Some(Architecture::X86_64),
        name@ == "aarch64"@ ==> arch == Some(Architecture::Aarch64),
        name@ == "riscv64"@ ==> arch == Some(Architecture::Riscv64),
{
    match TargetArch::try_from(name) {
        Ok(TargetArch::x86_64) => Some(Architecture::X86_64),
        Ok(TargetArch::aarch64) => Some(Architecture::Aarch64),
        Ok(TargetArch::riscv64) => Some(Architecture::Riscv64),
        Err(_) => None,
    }
}

/// `SeccompRule::new` of `seccompiler`, on conditions made by
/// `SeccompCondition::new` that compare a 32-bit word for equality. It makes
/// a rule unless the list is empty or a condition names an argument beyond
/// the sixth, and the rule depends on the conditions alone.
#[verifier::external_body]
fn seccomp_rule(conditions: &Vec<ArgEquals>) -> (rule: Option<SeccompRule>)
    ensures
        rule is Some <==> conditions.len() > 0 && forall|k: int|
            0 <= k < conditions.len() ==> conditions[k].arg_index <= ARG_INDEX_MAX,
        rule matches Some(r) ==> r == rule_of(conditions@),
{
    let mut made = Vec::new();
    for c in conditions {
        let eq = SeccompCondition::new(c.arg_index, SeccompCmpArgLen::Dword, SeccompCmpOp::Eq, c.value);
        made.push(eq.ok()?);
    }
    SeccompRule::new(made).ok()
}

/// `SeccompFilter::new` of `seccompiler` and the conversion of the filter
/// into a program. It compiles nothing where the two actions are the same.
/// With every number of the table in the range of `u32`, and two actions
/// that differ, the only failure left is a program that is too long. The
/// outcome depends on the arguments alone.
#[verifier::external_body]
fn compile_filter(
    table: Vec<(i64, Vec<SeccompRule>)>,
    on_mismatch: FilterAction,
    on_match: FilterAction,
    arch: Architecture,
) -> (program: Option<Vec<BpfInstruction>>)
    requires
        forall|i: int| 0 <= i < table.len() ==> 0 <= (#[trigger] table[i]).0 <= u32::MAX,
    ensures
        program is Some <==> bpf_program(table_view(table@), on_mismatch, on_match, arch) is Some,
        program matches Some(p) ==> Some(p@) == bpf_program(
            table_view(table@),
            on_mismatch,
            on_match,
            arch,
        ),
        on_mismatch == on_match ==> program is None,
{
    let target = match arch {
        Architecture::X86_64 => TargetArch::x86_64,
        Architecture::Aarch64 => TargetArch::aarch64,
        Architecture::Riscv64 => TargetArch::riscv64,
    };
    let action = |a: FilterAction| match a {
        FilterAction::Allow => SeccompAction::Allow,
        FilterAction::Log => SeccompAction::Log,
        FilterAction::Errno(e) => SeccompAction::Errno(e),
    };
    let rules = table.into_iter().collect();
    let filter = SeccompFilter::new(rules, action(on_mismatch), action(on_match), target).ok()?;
    let program = BpfProgram::try_from(filter).ok()?;
    Some(program.iter().map(|i| BpfInstruction { code: i.code, jt: i.jt, jf: i.jf, k: i.k }).collect())
}

/// Whether the kernel refuses what the allow-list does not name, or only
/// reports it.
#[derive(Clone, Copy, Debug, PartialEq, Eq, Structural)]
pub enum Enforcement {
    /// Calls off the list are logged and go on. For diagnosis only.
    Diagnostic,
    /// Calls off the list fail with "operation not permitted".
    Enforcing,
}

impl Enforcement {
    /// What happens to a call off the list.
    pub open spec fn spec_on_mismatch(self) -> FilterAction {
        match self {
            Enforcement::Diagnostic => FilterAction::Log,
            Enforcement::Enforcing => FilterAction::Errno(EPERM),
        }
    }

    /// What happens to a call off the list: it is logged, or it fails with
    /// "operation not permitted". It is never let through unseen.
    pub fn on_mismatch(self) -> (action: FilterAction)
        ensures
            action == self.spec_on_mismatch(),
            action != FilterAction::Allow,
    {
        match self {
            Enforcement::Diagnostic => FilterAction::Log,
            Enforcement::Enforcing => FilterAction::Errno(EPERM),
        }
    }
}

/// Confinement by an allow-list of system calls.
#[derive(Clone, Copy, Debug)]
pub struct SeccompConfiner {
    allow_setuid: bool,
    device_fd: i32,
    enforcement: Enforcement,
}

/// What the filter table of an allow-list holds on `arch`: for each rule the
/// number of its call and the rules that `seccompiler` makes of its
/// alternatives.
pub open spec fn filter_table(rules: Seq<RuleView>, arch: Architecture) -> Seq<(i64, Seq<SeccompRule>)> {
    rules.map_values(
        |r: RuleView|
            (
                r.syscall.spec_number(arch) as i64,
                r.alternatives.map_values(|c: Seq<ArgEquals>| rule_of(c)),
            ),
    )
}

/// What `confine` returns for the outcome of the compilation.
pub open spec fn filter_outcome_of(program: Option<Seq<BpfInstruction>>) -> Result<
    Seq<BpfInstruction>,
    ConfineError,
> {
    match program {
        Some(p) => Ok(p),
        None => Err(ConfineError::FilterTooLarge),
    }
}

/// A result of `confine`, with the program taken as a sequence.
pub open spec fn outcome_view(result: Result<Vec<BpfInstruction>, ConfineError>) -> Result<
    Seq<BpfInstruction>,
    ConfineError,
> {
    match result {
        Ok(p) => Ok(p@),
        Err(e) => Err(e),
    }
}

/// Turns the outcome of the compilation into the result of `confine`: the
/// program, or the one failure that is left to the compiler.
pub fn filter_outcome(program: Option<Vec<BpfInstruction>>) -> (result: Result<
    Vec<BpfInstruction>,
    ConfineError,
>)
    ensures
        outcome_view(result) == filter_outcome_of(
            match program {
                Some(p) => Some(p@),
                None => None,
            },
        ),
{
    match program {
        Some(p) => Ok(p),
        None => Err(ConfineError::FilterTooLarge),
    }
}

impl Architecture {
    /// Reads the name of an architecture, as the operating system gives it.
    pub fn parse(name: &str) -> (arch: Option<Architecture>)
        ensures
            arch == target_arch_of(name@),
            name@ == "x86_64"@ ==> arch == Some(Architecture::X86_64),
            name@ == "aarch64"@ ==> arch == Some(Architecture::Aarch64),
            name@ == "riscv64"@ ==> arch == Some(Architecture::Riscv64),
    {
        target_arch(name)
    }
}

/// The rule that allows `call` whatever its arguments.
fn rule_always(call: Syscall, arch: Architecture) -> (rule: SyscallRule)
    ensures
        rule@ == always(call),
        rule.number == call.spec_number(arch),
{
    let rule = SyscallRule { syscall: call, number: call.number(arch), alternatives: Vec::new() };
    assert(rule@.alternatives =~= Seq::empty());
    rule
}

/// The alternative that holds one demand.
fn one_demand(arg_index: u8, value: u64) -> (alternative: Vec<ArgEquals>)
    ensures
        alternative@ == seq![arg_is(arg_index, value)],
{
    let mut alternative: Vec<ArgEquals> = Vec::new();
    alternative.push(ArgEquals { arg_index, value });
    assert(alternative@ =~= seq![arg_is(arg_index, value)]);
    alternative
}

/// The rule that allows `call` where one of `alternatives` is met.
fn rule_when(call: Syscall, arch: Architecture, alternatives: Vec<Vec<ArgEquals>>) -> (rule:
    SyscallRule)
    ensures
        rule@ == when(call, alternatives@.map_values(|c: Vec<ArgEquals>| c@)),
        rule.number == call.spec_number(arch),
{
    SyscallRule { syscall: call, number: call.number(arch), alternatives }
}

impl SeccompConfiner {
    /// Whether `setuid` is on the allow-list.
    pub closed spec fn allows_setuid(&self) -> bool {
        self.allow_setuid
    }

    /// The descriptor of the virtual keyboard, to which writing is allowed.
    pub closed spec fn device(&self) -> i32 {
        self.device_fd
    }

    /// What happens to calls off the list.
    pub closed spec fn enforcement(&self) -> Enforcement {
        self.enforcement
    }

    /// The allow-list of this confiner.
    pub open spec fn spec_rules(&self) -> Seq<RuleView> {
        allow_list(self.allows_setuid(), self.device())
    }

    /// The policy of this confiner: a call that the allow-list lets through
    /// goes on, and any other is logged or refused.
    pub open spec fn spec_policy(&self) -> PolicyView {
        PolicyView {
            rules: self.spec_rules(),
            on_match: FilterAction::Allow,
            on_mismatch: self.enforcement().spec_on_mismatch(),
        }
    }

    /// An enforcing confiner. `allow_setuid` says whether a switch of
    /// identity is still to come, `device_fd` is the descriptor of the
    /// virtual keyboard.
    pub fn new(allow_setuid: bool, device_fd: i32) -> (confiner: SeccompConfiner)
        ensures
            confiner.allows_setuid() == allow_setuid,
            confiner.device() == device_fd,
            confiner.enforcement() == Enforcement::Enforcing,
    {
        SeccompConfiner { allow_setuid, device_fd, enforcement: Enforcement::Enforcing }
    }

    /// The same confiner, but one that only reports the calls off the list.
    pub fn diagnostic(self) -> (confiner: SeccompConfiner)
        ensures
            confiner.allows_setuid() == self.allows_setuid(),
            confiner.device() == self.device(),
            confiner.enforcement() == Enforcement::Diagnostic,
    {
        SeccompConfiner {
            allow_setuid: self.allow_setuid,
            device_fd: self.device_fd,
            enforcement: Enforcement::Diagnostic,
        }
    }

    /// Builds the policy: the allow-list, each rule with the number of its
    /// call on `arch`, and what happens to a call on the list and to one off
    /// it.
    pub fn policy(&self, arch: Architecture) -> (policy: ConfinementPolicy)
        ensures
            policy@ == self.spec_policy(),
            policy.on_match == FilterAction::Allow,
            policy.on_mismatch != FilterAction::Allow,
            forall|i: int|
                0 <= i < policy.rules.len() ==> (#[trigger] policy.rules[i]).number
                    == policy.rules[i].syscall.spec_number(arch),
    {
        let mut rules: Vec<SyscallRule> = Vec::new();
        rules.push(rule_always(Syscall::Close, arch));
        rules.push(rule_always(Syscall::Read, arch));
        rules.push(rule_always(Syscall::Recvfrom, arch));
        rules.push(rule_always(Syscall::Getpid, arch));
        rules.push(rule_always(Syscall::Getdents64, arch));
        rules.push(rule_always(Syscall::Bind, arch));
        rules.push(rule_always(Syscall::Fstat, arch));

        let mut writable: Vec<Vec<ArgEquals>> = Vec::new();
        writable.push(one_demand(0, descriptor_value(STDOUT_FILENO)));
        writable.push(one_demand(0, descriptor_value(STDERR_FILENO)));
        writable.push(one_demand(0, descriptor_value(self.device_fd)));
        let write = rule_when(Syscall::Write, arch, writable);
        assert(write@.alternatives =~= seq![
            seq![arg_is(0, spec_descriptor_value(STDOUT_FILENO))],
            seq![arg_is(0, spec_descriptor_value(STDERR_FILENO))],
            seq![arg_is(0, spec_descriptor_value(self.device_fd))],
        ]);
        rules.push(write);

        if self.allow_setuid {
            rules.push(rule_always(Syscall::Setuid, arch));
        }
        let mut uevent: Vec<ArgEquals> = Vec::new();
        uevent.push(ArgEquals { arg_index: 0, value: AF_NETLINK });
        uevent.push(ArgEquals { arg_index: 2, value: NETLINK_KOBJECT_UEVENT });
        let mut sockets: Vec<Vec<ArgEquals>> = Vec::new();
        sockets.push(uevent);
        let socket = rule_when(Syscall::Socket, arch, sockets);
        assert(socket@.alternatives =~= seq![
            seq![arg_is(0, AF_NETLINK), arg_is(2, NETLINK_KOBJECT_UEVENT)],
        ]) by {
            assert(socket@.alternatives[0] =~= seq![
                arg_is(0, AF_NETLINK),
                arg_is(2, NETLINK_KOBJECT_UEVENT),
            ]);
        }
        rules.push(socket);

        let mut flags: Vec<Vec<ArgEquals>> = Vec::new();
        flags.push(one_demand(1, F_GETFD));
        let fcntl = rule_when(Syscall::Fcntl, arch, flags);
        assert(fcntl@.alternatives =~= seq![seq![arg_is(1, F_GETFD)]]);
        rules.push(fcntl);

        rules.push(rule_always(Syscall::Ioctl, arch));
        rules.push(rule_always(Syscall::Openat, arch));
        assert(rules_view(rules@) =~= self.spec_rules());
        ConfinementPolicy {
            rules,
            on_match: FilterAction::Allow,
            on_mismatch: self.enforcement.on_mismatch(),
        }
    }
}


/// Whether every alternative of every rule can be handed to `seccompiler`:
/// it holds a demand, and each demand names one of the six arguments.
pub open spec fn well_formed(rules: Seq<RuleView>) -> bool {
    forall|i: int, j: int|
        0 <= i < rules.len() && 0 <= j < rules[i].alternatives.len() ==> {
            &&& (#[trigger] rules[i].alternatives[j]).len() > 0
            &&& forall|k: int|
                0 <= k < rules[i].alternatives[j].len() ==> (#[trigger] rules[i].alternatives[j][k]).arg_index
                    <= ARG_INDEX_MAX
        }
}

/// Every alternative on the allow-list holds a demand, and each demand names
/// one of the six arguments of a call.
pub proof fn lemma_allow_list_well_formed(allow_setuid: bool, device_fd: i32)
    ensures
        well_formed(allow_list(allow_setuid, device_fd)),
{
    let rules = allow_list(allow_setuid, device_fd);
    let shift: int = if allow_setuid { 1 } else { 0 };
    assert forall|i: int, j: int|
        0 <= i < rules.len() && 0 <= j < rules[i].alternatives.len() implies {
        &&& (#[trigger] rules[i].alternatives[j]).len() > 0
        &&& forall|k: int|
            0 <= k < rules[i].alternatives[j].len() ==> (#[trigger] rules[i].alternatives[j][k]).arg_index
                <= ARG_INDEX_MAX
    } by {
        if i == 7 {
            assert(j == 0 || j == 1 || j == 2);
        } else if i == 8 + shift {
            assert(j == 0);
        } else if i == 9 + shift {
            assert(j == 0);
        } else {
            assert(rules[i].alternatives.len() == 0);
        }
    }
}

/// Makes the rules of `seccompiler` of the alternatives of one rule.
fn rule_chain(alternatives: &Vec<Vec<ArgEquals>>) -> (chain: Vec<SeccompRule>)
    requires
        forall|j: int|
            0 <= j < alternatives.len() ==> {
                &&& (#[trigger] alternatives[j]).len() > 0
                &&& forall|k: int|
                    0 <= k < alternatives[j].len() ==> (#[trigger] alternatives[j][k]).arg_index
                        <= ARG_INDEX_MAX
            },
    ensures
        chain@ == alternatives@.map_values(|c: Vec<ArgEquals>| rule_of(c@)),
{
    let mut chain: Vec<SeccompRule> = Vec::new();
    let mut j: usize = 0;
    while j < alternatives.len()
        invariant
            j <= alternatives.len(),
            chain.len() == j,
            forall|m: int| 0 <= m < j ==> chain[m] == rule_of(#[trigger] alternatives[m]@),
            forall|j: int|
                0 <= j < alternatives.len() ==> {
                    &&& (#[trigger] alternatives[j]).len() > 0
                    &&& forall|k: int|
                        0 <= k < alternatives[j].len() ==> (#[trigger] alternatives[j][k]).arg_index
                            <= ARG_INDEX_MAX
                },
        decreases alternatives.len() - j,
    {
        match seccomp_rule(&alternatives[j]) {
            Some(rule) => {
                chain.push(rule);
            },
            None => {
                assert(alternatives[j as int].len() > 0);
                assert(false);
            },
        }
        j += 1;
    }
    assert(chain@ =~= alternatives@.map_values(|c: Vec<ArgEquals>| rule_of(c@)));
    chain
}

impl SeccompConfiner {
    /// What `confine` returns for the architecture named `arch_name`: the
    /// program that `seccompiler` compiles from the policy, where it knows
    /// the architecture and the program is not too long. In that program a
    /// call that the allow-list lets through is allowed, and any other is
    /// logged or refused as the enforcement says.
    pub open spec fn spec_confine(&self, arch_name: Seq<char>) -> Result<
        Seq<BpfInstruction>,
        ConfineError,
    > {
        match target_arch_of(arch_name) {
            None => Err(ConfineError::UnsupportedArchitecture),
            Some(arch) => filter_outcome_of(
                bpf_program(
                    filter_table(self.spec_policy().rules, arch),
                    self.spec_policy().on_mismatch,
                    self.spec_policy().on_match,
                    arch,
                ),
            ),
        }
    }

    /// Compiles the allow-list into the filter program for the architecture
    /// named `arch_name`. Installing the program is left to the caller, who
    /// must not go on without it where this fails.
    pub fn confine(&self, arch_name: &str) -> (result: Result<Vec<BpfInstruction>, ConfineError>)
        ensures
            outcome_view(result) == self.spec_confine(arch_name@),
    {
        let arch = match Architecture::parse(arch_name) {
            Some(arch) => arch,
            None => {
                return Err(ConfineError::UnsupportedArchitecture);
            },
        };
        let ConfinementPolicy { rules, on_match, on_mismatch } = self.policy(arch);
        proof {
            lemma_allow_list_well_formed(self.allow_setuid, self.device_fd);
        }
        let mut table: Vec<(i64, Vec<SeccompRule>)> = Vec::new();
        let mut i: usize = 0;
        while i < rules.len()
            invariant
                i <= rules.len(),
                table.len() == i,
                rules_view(rules@) == self.spec_rules(),
                well_formed(self.spec_rules()),
                forall|m: int|
                    0 <= m < rules.len() ==> (#[trigger] rules[m]).number == rules[m].syscall.spec_number(
                        arch,
                    ),
                forall|m: int|
                    0 <= m < i ==> {
                        &&& (#[trigger] table[m]).0 == rules[m].syscall.spec_number(arch)
                        &&& table[m].1@ == rules[m]@.alternatives.map_values(
                            |c: Seq<ArgEquals>| rule_of(c),
                        )
                    },
            decreases rules.len() - i,
        {
            let rule = &rules[i];
            assert(rules_view(rules@)[i as int] == rule@);
            assert forall|j: int| 0 <= j < rule.alternatives.len() implies {
                &&& (#[trigger] rule.alternatives[j]).len() > 0
                &&& forall|k: int|
                    0 <= k < rule.alternatives[j].len() ==> (#[trigger] rule.alternatives[j][k]).arg_index
                        <= ARG_INDEX_MAX
            } by {
                assert(rule@.alternatives[j] == rule.alternatives[j]@);
                assert(self.spec_rules()[i as int].alternatives[j].len() > 0);
            }
            let chain = rule_chain(&rule.alternatives);
            assert(chain@ =~= rule@.alternatives.map_values(|c: Seq<ArgEquals>| rule_of(c)));
            table.push((rule.number, chain));
            i += 1;
        }
        assert(table_view(table@) =~= filter_table(self.spec_rules(), arch)) by {
            assert forall|m: int| 0 <= m < table.len() implies table_view(table@)[m]
                == filter_table(self.spec_rules(), arch)[m] by {
                assert(rules_view(rules@)[m] == rules[m]@);
            }
        }
        filter_outcome(compile_filter(table, on_mismatch, on_match, arch))
    }
}


impl ArgEquals {
    /// Whether a call made with `args` meets the demand.
    pub fn is_met(&self, args: &[u64; 6]) -> (yes: bool)
        ensures
            yes == self.holds(args@),
    {
        let at: usize = self.arg_index as usize;
        at < 6 && args[at] % 0x1_0000_0000 == self.value % 0x1_0000_0000
    }
}

impl SyscallRule {
    /// Whether the rule lets a call with `args` through.
    pub fn permits(&self, args: &[u64; 6]) -> (yes: bool)
        ensures
            yes == rule_permits(self@, args@),
    {
        if self.alternatives.len() == 0 {
            return true;
        }
        let mut j: usize = 0;
        while j < self.alternatives.len()
            invariant
                j <= self.alternatives.len(),
                forall|m: int| 0 <= m < j ==> !all_hold(#[trigger] self@.alternatives[m], args@),
            decreases self.alternatives.len() - j,
        {
            let alternative = &self.alternatives[j];
            assert(self@.alternatives[j as int] == alternative@);
            let mut k: usize = 0;
            let mut met = true;
            while k < alternative.len()
                invariant
                    k <= alternative.len(),
                    met <==> forall|m: int| 0 <= m < k ==> (#[trigger] alternative[m]).holds(args@),
                decreases alternative.len() - k,
            {
                if !alternative[k].is_met(args) {
                    met = false;
                }
                k += 1;
            }
            if met {
                return true;
            }
            j += 1;
        }
        false
    }
}

impl ConfinementPolicy {
    /// Whether the policy lets the call `call` with `args` through; if not,
    /// the call is left to `on_mismatch`.
    pub fn permits(&self, call: Syscall, args: &[u64; 6]) -> (yes: bool)
        ensures
            yes == permits(self@.rules, call, args@),
    {
        let mut i: usize = 0;
        while i < self.rules.len()
            invariant
                i <= self.rules.len(),
                forall|m: int|
                    0 <= m < i ==> !((#[trigger] self@.rules[m]).syscall == call && rule_permits(
                        self@.rules[m],
                        args@,
                    )),
            decreases self.rules.len() - i,
        {
            let rule = &self.rules[i];
            assert(self@.rules[i as int] == rule@);
            if rule.syscall == call && rule.permits(args) {
                return true;
            }
            i += 1;
        }
        false
    }
}

/// What a confiner builds depends on its three choices alone: two confiners
/// that agree in them have the same allow-list, in the same order, and hand
/// the same table to the compiler, so that the same program comes out.
pub proof fn lemma_policy_is_determined(a: SeccompConfiner, b: SeccompConfiner, arch_name: Seq<char>)
    requires
        a.allows_setuid() == b.allows_setuid(),
        a.device() == b.device(),
        a.enforcement() == b.enforcement(),
    ensures
        a.spec_policy() == b.spec_policy(),
        a.spec_confine(arch_name) == b.spec_confine(arch_name),
{
}

/// In the policy of every confiner a call on the allow-list goes on, and a
/// call off it fails with "operation not permitted" where the confiner
/// enforces and is logged where it only diagnoses. The two actions differ,
/// so a call off the list is never let through unseen.
pub proof fn lemma_policy_actions(confiner: SeccompConfiner)
    ensures
        confiner.spec_policy().on_match == FilterAction::Allow,
        confiner.enforcement() == Enforcement::Enforcing ==> confiner.spec_policy().on_mismatch
            == FilterAction::Errno(1),
        confiner.enforcement() == Enforcement::Diagnostic ==> confiner.spec_policy().on_mismatch
            == FilterAction::Log,
        confiner.spec_policy().on_mismatch != confiner.spec_policy().on_match,
{
}

} // verus!
