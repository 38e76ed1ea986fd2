use vstd::prelude::*;

verus! {

/// The 32 integer registers of RV64, under their standard ABI names.
#[derive(Clone, Copy, Debug, PartialEq, Eq, PartialOrd, Hash, Structural)]
pub enum Register {
    Zero,
    Ra,
    Sp,
    Gp,
    Tp,
    T0,
    T1,
    T2,
    Fp,
    S1,
    A0,
    A1,
    A2,
    A3,
    A4,
    A5,
    A6,
    A7,
    S2,
    S3,
    S4,
    S5,
    S6,
    S7,
    S8,
    S9,
    S10,
    S11,
    T3,
    T4,
    T5,
    T6,
}

/// The 5-bit index under which a register appears in an instruction word.
pub open spec fn register_index(r: Register) -> u32 {
    match r {
        Register::Zero => 0,
        Register::Ra => 1,
        Register::Sp => 2,
        Register::Gp => 3,
        Register::Tp => 4,
        Register::T0 => 5,
        Register::T1 => 6,
        Register::T2 => 7,
        Register::Fp => 8,
        Register::S1 => 9,
        Register::A0 => 10,
        Register::A1 => 11,
        Register::A2 => 12,
        Register::A3 => 13,
        Register::A4 => 14,
        Register::A5 => 15,
        Register::A6 => 16,
        Register::A7 => 17,
        Register::S2 => 18,
        Register::S3 => 19,
        Register::S4 => 20,
        Register::S5 => 21,
        Register::S6 => 22,
        Register::S7 => 23,
        Register::S8 => 24,
        Register::S9 => 25,
        Register::S10 => 26,
        Register::S11 => 27,
        Register::T3 => 28,
        Register::T4 => 29,
        Register::T5 => 30,
        Register::T6 => 31,
    }
}

/// The register that an index denotes; indices are read modulo 32.
pub open spec fn register_of_index(v: u32) -> Register {
    let k = v % 32;
    if k == 0 {
        Register::Zero
    } else if k == 1 {
        Register::Ra
    } else if k == 2 {
        Register::Sp
    } else if k == 3 {
        Register::Gp
    } else if k == 4 {
        Register::Tp
    } else if k == 5 {
        Register::T0
    } else if k == 6 {
        Register::T1
    } else if k == 7 {
        Register::T2
    } else if k == 8 {
        Register::Fp
    } else if k == 9 {
        Register::S1
    } else if k == 10 {
        Register::A0
    } else if k == 11 {
        Register::A1
    } else if k == 12 {
        Register::A2
    } else if k == 13 {
        Register::A3
    } else if k == 14 {
        Register::A4
    } else if k == 15 {
        Register::A5
    } else if k == 16 {
        Register::A6
    } else if k == 17 {
        Register::A7
    } else if k == 18 {
        Register::S2
    } else if k == 19 {
        Register::S3
    } else if k == 20 {
        Register::S4
    } else if k == 21 {
        Register::S5
    } else if k == 22 {
        Register::S6
    } else if k == 23 {
        Register::S7
    } else if k == 24 {
        Register::S8
    } else if k == 25 {
        Register::S9
    } else if k == 26 {
        Register::S10
    } else if k == 27 {
        Register::S11
    } else if k == 28 {
        Register::T3
    } else if k == 29 {
        Register::T4
    } else if k == 30 {
        Register::T5
    } else {
        Register::T6
    }
}

/// Reading a register's index back gives the register: the two
/// conversions invert each other on all 32 values.
pub proof fn lemma_register_index_roundtrip(r: Register)
    ensures
        register_index(r) < 32,
        register_of_index(register_index(r)) == r,
{
}

impl From<Register> for u32 {
    fn from(reg: Register) -> (r: u32) {
        match reg {
            Register::Zero => 0,
            Register::Ra => 1,
            Register::Sp => 2,
            Register::Gp => 3,
            Register::Tp => 4,
            Register::T0 => 5,
            Register::T1 => 6,
            Register::T2 => 7,
            Register::Fp => 8,
            Register::S1 => 9,
            Register::A0 => 10,
            Register::A1 => 11,
            Register::A2 => 12,
            Register::A3 => 13,
            Register::A4 => 14,
            Register::A5 => 15,
            Register::A6 => 16,
            Register::A7 => 17,
            Register::S2 => 18,
            Register::S3 => 19,
            Register::S4 => 20,
            Register::S5 => 21,
            Register::S6 => 22,
            Register::S7 => 23,
            Register::S8 => 24,
            Register::S9 => 25,
            Register::S10 => 26,
            Register::S11 => 27,
            Register::T3 => 28,
            Register::T4 => 29,
            Register::T5 => 30,
            Register::T6 => 31,
        }
    }
}

impl vstd::std_specs::convert::FromSpecImpl<Register> for u32 {
    open spec fn obeys_from_spec() -> bool {
        true
    }

    open spec fn from_spec(reg: Register) -> u32 {
        register_index(reg)
    }
}

impl From<u32> for Register {
    fn from(raw: u32) -> (r: Register) {
        let k = raw % 32;
        if k == 0 {
            Register::Zero
        } else if k == 1 {
            Register::Ra
        } else if k == 2 {
            Register::Sp
        } else if k == 3 {
            Register::Gp
        } else if k == 4 {
            Register::Tp
        } else if k == 5 {
            Register::T0
        } else if k == 6 {
            Register::T1
        } else if k == 7 {
            Register::T2
        } else if k == 8 {
            Register::Fp
        } else if k == 9 {
            Register::S1
        } else if k == 10 {
            Register::A0
        } else if k == 11 {
            Register::A1
        } else if k == 12 {
            Register::A2
        } else if k == 13 {
            Register::A3
        } else if k == 14 {
            Register::A4
        } else if k == 15 {
            Register::A5
        } else if k == 16 {
            Register::A6
        } else if k == 17 {
            Register::A7
        } else if k == 18 {
            Register::S2
        } else if k == 19 {
            Register::S3
        } else if k == 20 {
            Register::S4
        } else if k == 21 {
            Register::S5
        } else if k == 22 {
            Register::S6
        } else if k == 23 {
            Register::S7
        } else if k == 24 {
            Register::S8
        } else if k == 25 {
            Register::S9
        } else if k == 26 {
            Register::S10
        } else if k == 27 {
            Register::S11
        } else if k == 28 {
            Register::T3
        } else if k == 29 {
            Register::T4
        } else if k == 30 {
            Register::T5
        } else {
            Register::T6
        }
    }
}

impl vstd::std_specs::convert::FromSpecImpl<u32> for Register {
    open spec fn obeys_from_spec() -> bool {
        true
    }

    open spec fn from_spec(raw: u32) -> Register {
        register_of_index(raw)
    }
}

} // verus!
