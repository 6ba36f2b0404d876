//! Calls as the dispatcher sees them: the name of a kernel operation, the way
//! the call may be ordered against memory accesses, and up to six raw register
//! values.
//!
//! A raw register value is a machine word, a `usize`. It carries no meaning of
//! its own: the encoders in [`crate::conv`] produce one from each typed
//! argument, and the decoders there interpret the one that comes back.

use vstd::prelude::*;

verus! {

/// The most arguments that a call can carry.
pub const MAX_ARGS: usize = 6;

/// The kernel operations that this library calls, by name. The dispatcher
/// resolves a name to the number that the target architecture gives it.
#[derive(Clone, Copy, Debug, PartialEq, Eq, Hash, Structural)]
pub enum Sysno {
    Chdir,
    ExitGroup,
    Fchdir,
    Getcwd,
    Getegid,
    /// The variant of `Getegid` that returns a 32-bit identifier on the
    /// architectures whose first one returns 16 bits.
    Getegid32,
    Geteuid,
    /// See [`Sysno::Getegid32`].
    Geteuid32,
    Getgid,
    /// See [`Sysno::Getegid32`].
    Getgid32,
    Getpid,
    Getppid,
    Getpriority,
    Getrlimit,
    Getuid,
    /// See [`Sysno::Getegid32`].
    Getuid32,
    Membarrier,
    Prlimit64,
    SchedGetaffinity,
    SchedSetaffinity,
    SchedYield,
    Setpriority,
    Uname,
    Wait4,
}

/// How the dispatcher may treat a call. The caller of an operation never
/// chooses this: each operation fixes it.
#[derive(Clone, Copy, Debug, PartialEq, Eq, Hash, Structural)]
pub enum CallKind {
    /// The call may read and write the caller's memory, so no memory access
    /// may be moved across it.
    Ordinary,
    /// The call writes none of the caller's memory.
    ReadOnly,
    /// The call does not come back.
    NoReturn,
}

/// What a [`Call`] holds, as a mathematical value.
pub struct CallView {
    pub nr: Sysno,
    pub kind: CallKind,
    /// The register values in the order of the arguments.
    pub args: Seq<usize>,
}

/// One call into the kernel, ready for the dispatcher.
#[derive(Clone, Copy, Debug, PartialEq, Eq)]
pub struct Call {
    nr: Sysno,
    kind: CallKind,
    regs: [usize; MAX_ARGS],
    count: usize,
}

impl View for Call {
    type V = CallView;

    closed spec fn view(&self) -> CallView {
        CallView { nr: self.nr, kind: self.kind, args: self.regs@.take(self.count as int) }
    }
}

impl Call {
    /// At most six registers are in use, and the others hold zero, so that two
    /// calls with the same view are the same value.
    #[verifier::type_invariant]
    spec fn inv(self) -> bool {
        &&& self.count <= MAX_ARGS
        &&& forall|i: int| self.count <= i < MAX_ARGS ==> self.regs@[i] == 0
    }

    /// A call of `nr` without arguments.
    pub fn new(nr: Sysno, kind: CallKind) -> (call: Call)
        ensures
            call@ == (CallView { nr, kind, args: Seq::empty() }),
    {
        let call = Call { nr, kind, regs: [0, 0, 0, 0, 0, 0], count: 0 };
        assert(call@.args =~= Seq::empty());
        call
    }

    /// This call with `word` as one more argument, after those it has.
    pub fn with_arg(self, word: usize) -> (call: Call)
        requires
            self@.args.len() < MAX_ARGS,
        ensures
            call@ == (CallView { nr: self@.nr, kind: self@.kind, args: self@.args.push(word) }),
    {
        proof {
            use_type_invariant(&self);
        }
        let mut regs = self.regs;
        regs[self.count] = word;
        let call = Call { nr: self.nr, kind: self.kind, regs, count: self.count + 1 };
        assert(call@.args =~= self@.args.push(word));
        call
    }

    /// The operation that is called.
    pub fn nr(&self) -> (nr: Sysno)
        ensures
            nr == self@.nr,
    {
        self.nr
    }

    /// How the dispatcher may treat the call.
    pub fn kind(&self) -> (kind: CallKind)
        ensures
            kind == self@.kind,
    {
        self.kind
    }

    /// The number of arguments.
    pub fn len(&self) -> (len: usize)
        ensures
            len == self@.args.len(),
            len <= MAX_ARGS,
    {
        proof {
            use_type_invariant(self);
        }
        self.count
    }

    /// The register value of the argument at `index`.
    pub fn arg(&self, index: usize) -> (word: usize)
        requires
            index < self@.args.len(),
        ensures
            word == self@.args[index as int],
    {
        proof {
            use_type_invariant(self);
        }
        self.regs[index]
    }

    /// All six registers as the dispatcher loads them: the arguments in their
    /// order, then zeros.
    pub fn regs(&self) -> (regs: [usize; MAX_ARGS])
        ensures
            regs@.take(self@.args.len() as int) == self@.args,
            forall|i: int| self@.args.len() <= i < MAX_ARGS ==> regs@[i] == 0,
    {
        proof {
            use_type_invariant(self);
        }
        self.regs
    }
}

} // verus!
