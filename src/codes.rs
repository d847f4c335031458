//! Named categories for the numeric codes of the header, each with a
//! passthrough variant that keeps an unrecognised code as it was read.
use vstd::prelude::*;

verus! {

/// The object file type, as named by the header's 16-bit type code.
#[derive(Debug, Clone, Copy, PartialEq, Eq)]
pub enum Type {
    NoFileType,
    Relocatable,
    Executable,
    SharedObject,
    Core,
    ProcessorSpecific(u16),
}

/// The raw 16-bit type code of the header.
#[derive(Debug, Clone, Copy, PartialEq, Eq)]
pub struct Type_(pub u16);

/// The category that a type code names.
pub open spec fn type_of_code(c: u16) -> Type {
    if c == 0 {
        Type::NoFileType
    } else if c == 1 {
        Type::Relocatable
    } else if c == 2 {
        Type::Executable
    } else if c == 3 {
        Type::SharedObject
    } else if c == 4 {
        Type::Core
    } else {
        Type::ProcessorSpecific(c)
    }
}

/// The code that a type category stands for.
pub open spec fn code_of_type(t: Type) -> u16 {
    match t {
        Type::NoFileType => 0,
        Type::Relocatable => 1,
        Type::Executable => 2,
        Type::SharedObject => 3,
        Type::Core => 4,
        Type::ProcessorSpecific(c) => c,
    }
}

impl Type_ {
    /// Maps the raw code to its category; codes past the known ones are kept.
    pub fn as_type(self) -> (t: Type)
        ensures
            t == type_of_code(self.0),
    {
        match self.0 {
            0 => Type::NoFileType,
            1 => Type::Relocatable,
            2 => Type::Executable,
            3 => Type::SharedObject,
            4 => Type::Core,
            x => Type::ProcessorSpecific(x),
        }
    }
}

/// The target architecture, as named by the header's 16-bit machine code.
#[derive(Debug, Clone, Copy, PartialEq, Eq)]
pub enum Machine {
    NoMachine,
    Sparc,
    X86,
    Mips,
    PowerPC,
    Arm,
    SuperH,
    Ia64,
    X86_64,
    AArch64,
    Unknown(u16),
}

/// The architecture that a machine code names.
pub open spec fn machine_of_code(c: u16) -> Machine {
    if c == 0x00 {
        Machine::NoMachine
    } else if c == 0x02 {
        Machine::Sparc
    } else if c == 0x03 {
        Machine::X86
    } else if c == 0x08 {
        Machine::Mips
    } else if c == 0x14 {
        Machine::PowerPC
    } else if c == 0x28 {
        Machine::Arm
    } else if c == 0x2A {
        Machine::SuperH
    } else if c == 0x32 {
        Machine::Ia64
    } else if c == 0x3E {
        Machine::X86_64
    } else if c == 0xB7 {
        Machine::AArch64
    } else {
        Machine::Unknown(c)
    }
}

/// The code that an architecture stands for.
pub open spec fn code_of_machine(m: Machine) -> u16 {
    match m {
        Machine::NoMachine => 0x00,
        Machine::Sparc => 0x02,
        Machine::X86 => 0x03,
        Machine::Mips => 0x08,
        Machine::PowerPC => 0x14,
        Machine::Arm => 0x28,
        Machine::SuperH => 0x2A,
        Machine::Ia64 => 0x32,
        Machine::X86_64 => 0x3E,
        Machine::AArch64 => 0xB7,
        Machine::Unknown(c) => c,
    }
}

impl Machine {
    /// Maps a raw machine code to its architecture; unknown codes are kept.
    pub fn from_code(c: u16) -> (m: Machine)
        ensures
            m == machine_of_code(c),
    {
        match c {
            0x00 => Machine::NoMachine,
            0x02 => Machine::Sparc,
            0x03 => Machine::X86,
            0x08 => Machine::Mips,
            0x14 => Machine::PowerPC,
            0x28 => Machine::Arm,
            0x2A => Machine::SuperH,
            0x32 => Machine::Ia64,
            0x3E => Machine::X86_64,
            0xB7 => Machine::AArch64,
            x => Machine::Unknown(x),
        }
    }
}

/// The target operating system interface, as named by its one-byte code.
#[derive(Debug, Clone, Copy, PartialEq, Eq)]
pub enum OsAbi {
    SystemV,
    HpUx,
    NetBSD,
    Linux,
    Solaris,
    Aix,
    Irix,
    FreeBSD,
    OpenBSD,
    OpenVMS,
    Unknown(u8),
}

/// The interface that an OS/ABI code names.
pub open spec fn os_abi_of_code(c: u8) -> OsAbi {
    if c == 0x00 {
        OsAbi::SystemV
    } else if c == 0x01 {
        OsAbi::HpUx
    } else if c == 0x02 {
        OsAbi::NetBSD
    } else if c == 0x03 {
        OsAbi::Linux
    } else if c == 0x04 {
        OsAbi::Solaris
    } else if c == 0x07 {
        OsAbi::Aix
    } else if c == 0x08 {
        OsAbi::Irix
    } else if c == 0x09 {
        OsAbi::FreeBSD
    } else if c == 0x0C {
        OsAbi::OpenBSD
    } else if c == 0x0D {
        OsAbi::OpenVMS
    } else {
        OsAbi::Unknown(c)
    }
}

/// The code that an OS/ABI interface stands for.
pub open spec fn code_of_os_abi(o: OsAbi) -> u8 {
    match o {
        OsAbi::SystemV => 0x00,
        OsAbi::HpUx => 0x01,
        OsAbi::NetBSD => 0x02,
        OsAbi::Linux => 0x03,
        OsAbi::Solaris => 0x04,
        OsAbi::Aix => 0x07,
        OsAbi::Irix => 0x08,
        OsAbi::FreeBSD => 0x09,
        OsAbi::OpenBSD => 0x0C,
        OsAbi::OpenVMS => 0x0D,
        OsAbi::Unknown(c) => c,
    }
}

impl OsAbi {
    /// Maps a raw OS/ABI code to its interface; unknown codes are kept.
    pub fn from_code(c: u8) -> (o: OsAbi)
        ensures
            o == os_abi_of_code(c),
    {
        match c {
            0x00 => OsAbi::SystemV,
            0x01 => OsAbi::HpUx,
            0x02 => OsAbi::NetBSD,
            0x03 => OsAbi::Linux,
            0x04 => OsAbi::Solaris,
            0x07 => OsAbi::Aix,
            0x08 => OsAbi::Irix,
            0x09 => OsAbi::FreeBSD,
            0x0C => OsAbi::OpenBSD,
            0x0D => OsAbi::OpenVMS,
            x => OsAbi::Unknown(x),
        }
    }
}

/// The format version of the identification block.
#[derive(Debug, Clone, Copy, PartialEq, Eq)]
pub enum Version {
    Current,
    Other(u8),
}

/// The version that a version byte names.
pub open spec fn version_of_code(c: u8) -> Version {
    if c == 1 {
        Version::Current
    } else {
        Version::Other(c)
    }
}

/// The byte that a version stands for.
pub open spec fn code_of_version(v: Version) -> u8 {
    match v {
        Version::Current => 1,
        Version::Other(c) => c,
    }
}

impl Version {
    /// Maps a raw version byte to its version; other values are kept.
    pub fn from_code(c: u8) -> (v: Version)
        ensures
            v == version_of_code(c),
    {
        if c == 1 {
            Version::Current
        } else {
            Version::Other(c)
        }
    }
}

/// Mapping a type code to its category loses nothing: the code comes back.
pub proof fn lemma_type_code_kept(c: u16)
    ensures
        code_of_type(type_of_code(c)) == c,
{
}

/// Mapping a machine code to its architecture loses nothing: the code comes back.
pub proof fn lemma_machine_code_kept(c: u16)
    ensures
        code_of_machine(machine_of_code(c)) == c,
{
}

/// Mapping an OS/ABI code to its interface loses nothing: the code comes back.
pub proof fn lemma_os_abi_code_kept(c: u8)
    ensures
        code_of_os_abi(os_abi_of_code(c)) == c,
{
}

/// Mapping a version byte to its version loses nothing: the byte comes back.
pub proof fn lemma_version_code_kept(c: u8)
    ensures
        code_of_version(version_of_code(c)) == c,
{
}

} // verus!
