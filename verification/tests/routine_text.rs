use netpwn::arch::ExecutableClass;
use netpwn::template::syscall_routine;

const AMD64_EXPECTED: &str = "
void _gdb_expr(void) {
\t__asm__ (
\t\t\"movq $33, %%rax\\n\"
\t\t\"movl %0, %%edi\\n\"
\t\t\"movq $0, %%rsi\\n\"
\t\t\"syscall\\n\"
\t\t\"movq $33, %%rax\\n\"
\t\t\"movl %0, %%edi\\n\"
\t\t\"movq $1, %%rsi\\n\"
\t\t\"syscall\\n\"
\t\t\"movq $33, %%rax\\n\"
\t\t\"movl %0, %%edi\\n\"
\t\t\"movq $2, %%rsi\\n\"
\t\t\"syscall\\n\"
\t\t:: \"b\"(fd) : \"%rax\", \"%rdi\", \"%rsi\", \"%rcx\"
\t);
}
";

const X86_EXPECTED: &str = "
void _gdb_expr(void) {
\t__asm__ (
\t\t\"movl $63, %%eax\\n\"
\t\t\"movl %0, %%ebx\\n\"
\t\t\"movl $0, %%ecx\\n\"
\t\t\"syscall\\n\"
\t\t\"movl $63, %%eax\\n\"
\t\t\"movl %0, %%ebx\\n\"
\t\t\"movl $1, %%ecx\\n\"
\t\t\"syscall\\n\"
\t\t\"movl $63, %%eax\\n\"
\t\t\"movl %0, %%ebx\\n\"
\t\t\"movl $2, %%ecx\\n\"
\t\t\"syscall\\n\"
\t\t:: \"b\"(fd) : \"%eax\", \"%ebx\", \"%ecx\"
\t);
}
";

#[test]
fn sixty_four_bit_routine_text() {
    assert_eq!(syscall_routine(ExecutableClass::SixtyFourBit), AMD64_EXPECTED);
}

#[test]
fn thirty_two_bit_routine_text() {
    assert_eq!(syscall_routine(ExecutableClass::ThirtyTwoBit), X86_EXPECTED);
}

#[test]
fn routine_is_pure() {
    let first = syscall_routine(ExecutableClass::SixtyFourBit);
    let second = syscall_routine(ExecutableClass::SixtyFourBit);
    assert_eq!(first, second);
    let first = syscall_routine(ExecutableClass::ThirtyTwoBit);
    let second = syscall_routine(ExecutableClass::ThirtyTwoBit);
    assert_eq!(first, second);
}

#[test]
fn routines_differ_in_syscall_numbers_and_registers() {
    let r64 = syscall_routine(ExecutableClass::SixtyFourBit);
    let r32 = syscall_routine(ExecutableClass::ThirtyTwoBit);
    assert_ne!(r64, r32);
    assert!(r64.contains("$33") && !r64.contains("$63"));
    assert!(r32.contains("$63") && !r32.contains("$33"));
    assert!(r64.contains("%%rax") && r64.contains("%%rsi"));
    assert!(r32.contains("%%eax") && r32.contains("%%ecx"));
    assert_eq!(r64.matches("\"syscall\\n\"").count(), 3);
    assert_eq!(r32.matches("\"syscall\\n\"").count(), 3);
}
