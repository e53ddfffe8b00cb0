use vstd::prelude::*;
use vstd::string::*;

verus! {

/// A program to execute: the binary, and the arguments after its name.
#[derive(Debug, Clone, Copy, Hash, PartialEq, Eq)]
pub struct CommandArgs<'a> {
    pub binary: &'a str,
    pub args: &'a [&'a str],
}

/// Whether no byte of the encoded text is zero, so that the text can be
/// handed to the operating system as a C string.
pub open spec fn spec_nul_free(text: Seq<char>) -> bool {
    forall|i: int| 0 <= i < encode_len(text) ==> #[trigger] vstd::utf8::encode_utf8(text)[i] != 0
}

/// The number of bytes that encode the text.
pub open spec fn encode_len(text: Seq<char>) -> int {
    vstd::utf8::encode_utf8(text).len() as int
}

/// Whether the text holds no zero byte.
pub fn nul_free(text: &str) -> (free: bool)
    ensures
        free == spec_nul_free(text@),
{
    let bytes = text.as_bytes();
    let mut at: usize = 0;
    while at < bytes.len()
        invariant
            at <= bytes.len(),
            bytes@ == vstd::utf8::encode_utf8(text@),
            forall|i: int| 0 <= i < at ==> #[trigger] bytes@[i] != 0,
        decreases bytes.len() - at,
    {
        if bytes[at] == 0 {
            return false;
        }
        at = at + 1;
    }
    true
}

/// The texts of a sequence of string slices, in order.
pub open spec fn spec_texts(items: Seq<&str>) -> Seq<Seq<char>> {
    Seq::new(items.len(), |i: int| items[i]@)
}

impl<'a> CommandArgs<'a> {
    /// The argument vector that the program is started with: its own name,
    /// then its arguments in order.
    pub open spec fn spec_argv(&self) -> Seq<Seq<char>> {
        seq![self.binary@] + spec_texts(self.args@)
    }

    /// Whether the binary and every argument can be handed to exec: none
    /// holds a zero byte.
    pub open spec fn spec_executable(&self) -> bool {
        forall|i: int| 0 <= i < self.spec_argv().len() ==> spec_nul_free(#[trigger] self.spec_argv()[i])
    }

    /// The argument vector that the program is started with.
    pub fn argv(&self) -> (argv: Vec<&'a str>)
        ensures
            spec_texts(argv@) == self.spec_argv(),
    {
        let mut argv: Vec<&'a str> = Vec::new();
        argv.push(self.binary);
        let mut at: usize = 0;
        while at < self.args.len()
            invariant
                at <= self.args@.len(),
                argv@.len() == at + 1,
                argv@[0]@ == self.binary@,
                forall|i: int| 1 <= i <= at ==> (#[trigger] argv@[i])@ == self.args@[i - 1]@,
            decreases self.args@.len() - at,
        {
            argv.push(self.args[at]);
            at = at + 1;
        }
        assert(spec_texts(argv@) =~= self.spec_argv());
        argv
    }

    /// Whether the binary and every argument can be handed to exec.
    pub fn executable(&self) -> (ok: bool)
        ensures
            ok == self.spec_executable(),
    {
        if !nul_free(self.binary) {
            assert(self.spec_argv()[0] == self.binary@);
            return false;
        }
        let mut at: usize = 0;
        while at < self.args.len()
            invariant
                at <= self.args@.len(),
                spec_nul_free(self.binary@),
                forall|i: int| 0 <= i < at ==> spec_nul_free(#[trigger] self.args@[i]@),
            decreases self.args@.len() - at,
        {
            if !nul_free(self.args[at]) {
                assert(self.spec_argv()[at + 1] == self.args@[at as int]@);
                return false;
            }
            at = at + 1;
        }
        assert forall|i: int| 0 <= i < self.spec_argv().len() implies spec_nul_free(
            #[trigger] self.spec_argv()[i],
        ) by {
            if i > 0 {
                assert(self.spec_argv()[i] == self.args@[i - 1]@);
            }
        }
        true
    }
}

} // verus!
