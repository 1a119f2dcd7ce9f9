//! Processor samples.

use crate::text::{decimal, digit_char, digit_to_char, push_decimal};
use vstd::prelude::*;

verus! {

/// The load of one processor, in hundredths of a percent.
#[derive(Debug, PartialEq, Eq)]
pub struct CpuLoad {
    pub name: String,
    pub load: u32,
}

/// One processor sample: every processor of the host, in the order it
/// lists them.
#[derive(Debug, PartialEq, Eq)]
pub struct CpuInfo {
    pub cpus: Vec<CpuLoad>,
}

impl CpuLoad {
    /// The line that shows this processor: its load with two decimals.
    pub open spec fn text(self) -> Seq<char> {
        " "@ + self.name@ + ": Load: "@ + decimal((self.load / 100) as nat) + "."@ + seq![
            digit_char(((self.load % 100) / 10) as int),
            digit_char((self.load % 10) as int),
        ] + "%\n"@
    }

    pub fn render(&self) -> (s: String)
        ensures
            s@ == self.text(),
    {
        let mut s = String::from_str(" ");
        s.append(self.name.as_str());
        s.append(": Load: ");
        push_decimal(&mut s, (self.load / 100) as u64);
        s.append(".");
        let ghost before = s@;
        s.push(digit_to_char(((self.load % 100) / 10) as u8));
        s.push(digit_to_char((self.load % 10) as u8));
        proof {
            assert(s@ =~= before + seq![
                digit_char(((self.load % 100) / 10) as int),
                digit_char((self.load % 10) as int),
            ]);
        }
        s.append("%\n");
        s
    }
}

/// The lines of the first `n` processors, one after the other.
pub open spec fn cpus_text(cpus: Seq<CpuLoad>, n: int) -> Seq<char>
    decreases n,
{
    if n <= 0 {
        Seq::empty()
    } else {
        cpus_text(cpus, n - 1) + cpus[n - 1].text()
    }
}

impl CpuInfo {
    /// The lines that show this sample: one for each processor.
    pub open spec fn text(self) -> Seq<char> {
        cpus_text(self.cpus@, self.cpus@.len() as int)
    }

    pub fn render(&self) -> (s: String)
        ensures
            s@ == self.text(),
    {
        let mut s = String::new();
        let mut i: usize = 0;
        while i < self.cpus.len()
            invariant
                i <= self.cpus.len(),
                s@ == cpus_text(self.cpus@, i as int),
            decreases self.cpus.len() - i,
        {
            let line = self.cpus[i].render();
            s.append(line.as_str());
            i += 1;
        }
        s
    }
}

} // verus!
