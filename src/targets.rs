use vstd::prelude::*;

verus! {

/// The target triples that the catalogue builds for.
#[allow(non_camel_case_types)]
#[derive(PartialEq, Eq, Structural, Clone, Copy, Debug)]
pub enum Target {
    x86_64_unknown_linux_gnu,
    i686_unknown_linux_gnu,
    powerpc_unknown_linux_gnu,
    powerpc64_unknown_linux_gnu,
    mips_unknown_linux_gnu,
    arm_linux_androideabi,
}

impl Target {
    pub open spec fn spec_triple(self) -> Seq<char> {
        match self {
            Target::x86_64_unknown_linux_gnu => "x86_64-unknown-linux-gnu"@,
            Target::i686_unknown_linux_gnu => "i686-unknown-linux-gnu"@,
            Target::powerpc_unknown_linux_gnu => "powerpc-unknown-linux-gnu"@,
            Target::powerpc64_unknown_linux_gnu => "powerpc64-unknown-linux-gnu"@,
            Target::mips_unknown_linux_gnu => "mips-unknown-linux-gnu"@,
            Target::arm_linux_androideabi => "arm-linux-androideabi"@,
        }
    }

    /// The triple as cargo's `--target` takes it.
    pub fn triple(self) -> (r: &'static str)
        ensures
            r@ == self.spec_triple(),
    {
        match self {
            Target::x86_64_unknown_linux_gnu => "x86_64-unknown-linux-gnu",
            Target::i686_unknown_linux_gnu => "i686-unknown-linux-gnu",
            Target::powerpc_unknown_linux_gnu => "powerpc-unknown-linux-gnu",
            Target::powerpc64_unknown_linux_gnu => "powerpc64-unknown-linux-gnu",
            Target::mips_unknown_linux_gnu => "mips-unknown-linux-gnu",
            Target::arm_linux_androideabi => "arm-linux-androideabi",
        }
    }
}

} // verus!
