use vstd::prelude::*;
use crate::arch::ExecutableClass;

verus! {

// Each routine is a small C compilation unit the debugger compiles into the
// stopped debuggee's raw address space. Its assembly issues the raw
// "duplicate file descriptor" system call three times, rebinding slots 0, 1
// and 2 onto the free variable `fd`, and names as clobbered exactly the
// registers those calls touch. The routines for the two classes share every
// piece of text except the syscall-number line, the operand registers and
// the clobber list.
/// Shared opening: one function holding one inline-assembly block.
pub open spec fn prologue_text() -> Seq<char> {
    "\nvoid _gdb_expr(void) {\n\t__asm__ (\n"@
}

/// The class's instruction loading the "duplicate descriptor" syscall
/// number into its syscall-number register.
pub open spec fn sysnum_line(class: ExecutableClass) -> Seq<char> {
    match class {
        ExecutableClass::ThirtyTwoBit => "\t\t\"movl $63, %%eax\\n\"\n"@,
        ExecutableClass::SixtyFourBit => "\t\t\"movq $33, %%rax\\n\"\n"@,
    }
}

/// The class's instruction loading the free descriptor variable into its
/// first-argument register.
pub open spec fn fd_line(class: ExecutableClass) -> Seq<char> {
    match class {
        ExecutableClass::ThirtyTwoBit => "\t\t\"movl %0, %%ebx\\n\"\n"@,
        ExecutableClass::SixtyFourBit => "\t\t\"movl %0, %%edi\\n\"\n"@,
    }
}

/// Opening of the instruction loading a target slot number.
pub open spec fn slot_open(class: ExecutableClass) -> Seq<char> {
    match class {
        ExecutableClass::ThirtyTwoBit => "\t\t\"movl $"@,
        ExecutableClass::SixtyFourBit => "\t\t\"movq $"@,
    }
}

/// Close of the slot-loading instruction, naming the second-argument
/// register.
pub open spec fn slot_close(class: ExecutableClass) -> Seq<char> {
    match class {
        ExecutableClass::ThirtyTwoBit => ", %%ecx\\n\"\n"@,
        ExecutableClass::SixtyFourBit => ", %%rsi\\n\"\n"@,
    }
}

/// Shared instruction entering the kernel.
pub open spec fn syscall_line() -> Seq<char> {
    "\t\t\"syscall\\n\"\n"@
}

/// The class's operand binding and clobber list, closing the block.
pub open spec fn epilogue_text(class: ExecutableClass) -> Seq<char> {
    match class {
        ExecutableClass::ThirtyTwoBit => "\t\t:: \"b\"(fd) : \"%eax\", \"%ebx\", \"%ecx\"\n\t);\n}\n"@,
        ExecutableClass::SixtyFourBit => "\t\t:: \"b\"(fd) : \"%rax\", \"%rdi\", \"%rsi\", \"%rcx\"\n\t);\n}\n"@,
    }
}

/// One duplicate-descriptor call: load the syscall number, the descriptor,
/// the target slot, enter the kernel. The return value is ignored.
pub open spec fn block(class: ExecutableClass, slot: Seq<char>) -> Seq<char> {
    sysnum_line(class) + fd_line(class) + slot_open(class) + slot + slot_close(class)
        + syscall_line()
}

/// The whole routine for a class: the shared prologue, one block for each
/// of the slots 0, 1 and 2 in that order, and the class's epilogue.
pub open spec fn routine(class: ExecutableClass) -> Seq<char> {
    prologue_text() + block(class, "0"@) + block(class, "1"@) + block(class, "2"@)
        + epilogue_text(class)
}

/// Appends one duplicate-descriptor block for `slot` to `r`.
fn push_block(r: &mut String, class: ExecutableClass, slot: &str)
    ensures
        final(r)@ == old(r)@ + block(class, slot@),
{
    match class {
        ExecutableClass::ThirtyTwoBit => {
            r.append("\t\t\"movl $63, %%eax\\n\"\n");
            r.append("\t\t\"movl %0, %%ebx\\n\"\n");
            r.append("\t\t\"movl $");
            r.append(slot);
            r.append(", %%ecx\\n\"\n");
            r.append("\t\t\"syscall\\n\"\n");
        },
        ExecutableClass::SixtyFourBit => {
            r.append("\t\t\"movq $33, %%rax\\n\"\n");
            r.append("\t\t\"movl %0, %%edi\\n\"\n");
            r.append("\t\t\"movq $");
            r.append(slot);
            r.append(", %%rsi\\n\"\n");
            r.append("\t\t\"syscall\\n\"\n");
        },
    }
    proof {
        assert(r@ =~= old(r)@ + block(class, slot@));
    }
}

/// The architecture-matched routine text. A pure mapping: equal classes
/// always yield byte-identical text, pinned to `routine` by the contract.
pub fn syscall_routine(class: ExecutableClass) -> (r: String)
    ensures
        r@ == routine(class),
{
    let mut r = String::from_str("\nvoid _gdb_expr(void) {\n\t__asm__ (\n");
    push_block(&mut r, class, "0");
    push_block(&mut r, class, "1");
    push_block(&mut r, class, "2");
    match class {
        ExecutableClass::ThirtyTwoBit => {
            r.append("\t\t:: \"b\"(fd) : \"%eax\", \"%ebx\", \"%ecx\"\n\t);\n}\n");
        },
        ExecutableClass::SixtyFourBit => {
            r.append("\t\t:: \"b\"(fd) : \"%rax\", \"%rdi\", \"%rsi\", \"%rcx\"\n\t);\n}\n");
        },
    }
    proof {
        assert(r@ =~= routine(class));
    }
    r
}

/// The generator is a pure mapping: equal classes always yield identical
/// routine text.
pub proof fn lemma_routine_deterministic(a: ExecutableClass, b: ExecutableClass)
    requires
        a == b,
    ensures
        routine(a) == routine(b),
{
}

/// The two routines share their whole shape — prologue, three blocks for
/// slots 0, 1, 2, epilogue — and differ only in the class-tagged pieces:
/// the syscall-number line, the operand registers and the clobber list.
pub proof fn lemma_routines_share_shape(class: ExecutableClass)
    ensures
        routine(class) == prologue_text() + block(class, "0"@) + block(class, "1"@) + block(
            class,
            "2"@,
        ) + epilogue_text(class),
        block(class, "0"@) == sysnum_line(class) + fd_line(class) + slot_open(class) + "0"@
            + slot_close(class) + syscall_line(),
{
}

/// The two routines are nevertheless distinct texts.
pub proof fn lemma_routines_differ()
    ensures
        routine(ExecutableClass::ThirtyTwoBit) != routine(ExecutableClass::SixtyFourBit),
{
    reveal_strlit("\nvoid _gdb_expr(void) {\n\t__asm__ (\n");
    reveal_strlit("\t\t\"movl $63, %%eax\\n\"\n");
    reveal_strlit("\t\t\"movq $33, %%rax\\n\"\n");
    reveal_strlit("\t\t\"movl %0, %%ebx\\n\"\n");
    reveal_strlit("\t\t\"movl %0, %%edi\\n\"\n");
    reveal_strlit("\t\t\"movl $");
    reveal_strlit("\t\t\"movq $");
    reveal_strlit(", %%ecx\\n\"\n");
    reveal_strlit(", %%rsi\\n\"\n");
    reveal_strlit("\t\t\"syscall\\n\"\n");
    reveal_strlit("0");
    reveal_strlit("1");
    reveal_strlit("2");
    reveal_strlit("\t\t:: \"b\"(fd) : \"%eax\", \"%ebx\", \"%ecx\"\n\t);\n}\n");
    reveal_strlit("\t\t:: \"b\"(fd) : \"%rax\", \"%rdi\", \"%rsi\", \"%rcx\"\n\t);\n}\n");
    assert(routine(ExecutableClass::ThirtyTwoBit).len() != routine(
        ExecutableClass::SixtyFourBit,
    ).len());
}

} // verus!
