use vstd::prelude::*;

verus! {

/// The CHR bank registers: eight general purpose ones, four more, then one per name table quadrant.
#[derive(PartialEq, Eq, Clone, Copy, Debug, Structural)]
pub enum ChrBankRegisterId {
    C,
    D,
    E,
    F,
    G,
    H,
    I,
    J,
    K,
    L,
    M,
    N,
    NT0,
    NT1,
    NT2,
    NT3,
}

/// The registers that select where (ROM, RAM, CIRAM) a name table quadrant is read from.
#[derive(PartialEq, Eq, Clone, Copy, Debug, Structural)]
pub enum ChrSourceRegisterId {
    NTS0,
    NTS1,
    NTS2,
    NTS3,
}

/// The PRG bank registers that mappers switch.
#[derive(PartialEq, Eq, Clone, Copy, Debug, Structural)]
pub enum PrgBankRegisterId {
    P,
    Q,
}

/// The registers that enable reading a switchable RAM window.
#[derive(PartialEq, Eq, Clone, Copy, Debug, Structural)]
pub enum ReadStatusRegisterId {
    RS0,
}

/// The registers that enable writing a switchable RAM window.
#[derive(PartialEq, Eq, Clone, Copy, Debug, Structural)]
pub enum WriteStatusRegisterId {
    WS0,
}

} // verus!
