//! A host's description and its plain-text report.

use vstd::prelude::*;

verus! {

/// The text that byte_unit gives for `size` bytes in the nearest decimal
/// unit, formatted with precision two: "10.00 KB", but "999 B" for sizes
/// under a kilobyte, which byte_unit shows as whole bytes.
pub uninterp spec fn decimal_size_text(size: u64) -> Seq<char>;

/// Relies on byte_unit: `Byte::from_u64(size)` brought to its appropriate
/// decimal unit and formatted with precision two; the text depends on `size`
/// alone.
#[verifier::external_body]
fn display_size(size: u64) -> (r: String)
    ensures
        r@ == decimal_size_text(size),
{
    let adjusted = byte_unit::Byte::from_u64(size).get_appropriate_unit(byte_unit::UnitType::Decimal);
    format!("{adjusted:.2}")
}

/// The text of a decimal digit.
pub open spec fn digit_text(d: nat) -> Seq<char> {
    if d == 0 {
        "0"@
    } else if d == 1 {
        "1"@
    } else if d == 2 {
        "2"@
    } else if d == 3 {
        "3"@
    } else if d == 4 {
        "4"@
    } else if d == 5 {
        "5"@
    } else if d == 6 {
        "6"@
    } else if d == 7 {
        "7"@
    } else if d == 8 {
        "8"@
    } else {
        "9"@
    }
}

/// `n` written in decimal, without leading zeros.
pub open spec fn decimal_text(n: nat) -> Seq<char>
    decreases n,
{
    if n < 10 {
        digit_text(n)
    } else {
        decimal_text(n / 10) + digit_text(n % 10)
    }
}

fn digit_str(d: usize) -> (r: &'static str)
    requires
        d < 10,
    ensures
        r@ == digit_text(d as nat),
{
    if d == 0 {
        "0"
    } else if d == 1 {
        "1"
    } else if d == 2 {
        "2"
    } else if d == 3 {
        "3"
    } else if d == 4 {
        "4"
    } else if d == 5 {
        "5"
    } else if d == 6 {
        "6"
    } else if d == 7 {
        "7"
    } else if d == 8 {
        "8"
    } else {
        "9"
    }
}

/// `n` written in decimal.
pub fn decimal(n: usize) -> (r: String)
    ensures
        r@ == decimal_text(n as nat),
    decreases n,
{
    if n < 10 {
        String::from_str(digit_str(n))
    } else {
        let mut s = decimal(n / 10);
        s.append(digit_str(n % 10));
        s
    }
}

/// The processor's core counts.
#[derive(Debug)]
pub struct CPU {
    cores: usize,
    physical_cores: usize,
}

impl CPU {
    pub closed spec fn spec_cores(&self) -> nat {
        self.cores as nat
    }

    pub closed spec fn spec_physical_cores(&self) -> nat {
        self.physical_cores as nat
    }

    /// A processor with `cores` logical and `physical_cores` physical cores.
    pub fn new(cores: usize, physical_cores: usize) -> (r: CPU)
        ensures
            r.spec_cores() == cores,
            r.spec_physical_cores() == physical_cores,
    {
        CPU { cores, physical_cores }
    }

    /// The number of logical cores.
    pub fn cores(&self) -> (r: usize)
        ensures
            r == self.spec_cores(),
    {
        self.cores
    }

    /// The number of physical cores.
    pub fn physical_cores(&self) -> (r: usize)
        ensures
            r == self.spec_physical_cores(),
    {
        self.physical_cores
    }
}

/// Memory sizes, in bytes.
#[derive(Debug)]
pub struct Memory {
    pub total: u64,
    pub free: u64,
    pub available: u64,
}

/// A host: its names, processor and memory.
#[derive(Debug)]
pub struct Sys {
    pub hostname: String,
    pub os: String,
    pub os_version: String,
    pub system_name: String,
    pub cpu: CPU,
    pub memory: Memory,
}

impl Sys {
    /// The report that `dump` writes.
    pub open spec fn dump_text(&self) -> Seq<char> {
        "\nHostname: "@ + self.hostname@ + "\nOS: "@ + self.os@ + " "@ + self.os_version@
            + "\nSystem: "@ + self.system_name@ + "\nCPU cores: "@ + decimal_text(
            self.cpu.spec_cores(),
        ) + "/"@ + decimal_text(self.cpu.spec_physical_cores()) + "\nMemory: total - "@
            + decimal_size_text(self.memory.total) + ", free - "@ + decimal_size_text(
            self.memory.free,
        ) + ", available - "@ + decimal_size_text(self.memory.available) + "\n        "@
    }

    /// A plain-text report of the host, one line per part.
    pub fn dump(&self) -> (r: String)
        ensures
            r@ == self.dump_text(),
    {
        let mut r = String::from_str("\nHostname: ");
        r.append(self.hostname.as_str());
        r.append("\nOS: ");
        r.append(self.os.as_str());
        r.append(" ");
        r.append(self.os_version.as_str());
        r.append("\nSystem: ");
        r.append(self.system_name.as_str());
        r.append("\nCPU cores: ");
        r.append(decimal(self.cpu.cores()).as_str());
        r.append("/");
        r.append(decimal(self.cpu.physical_cores()).as_str());
        r.append("\nMemory: total - ");
        r.append(display_size(self.memory.total).as_str());
        r.append(", free - ");
        r.append(display_size(self.memory.free).as_str());
        r.append(", available - ");
        r.append(display_size(self.memory.available).as_str());
        r.append("\n        ");
        r
    }
}

} // verus!
