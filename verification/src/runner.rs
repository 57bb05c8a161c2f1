//! The runner's output: everything a run writes to the output stream, as one
//! sequence of lines.

use vstd::prelude::*;

use crate::config::valid_bitness;
use crate::text::completion_banner;
use crate::text::completion_banner_text;
use crate::text::start_banner;
use crate::text::start_banner_text;

verus! {

/// The complete output of one run over an already rendered buffer: the start
/// banner, a blank line, every rendered instruction line in order, a blank
/// line, and the completion banner. A buffer of no instructions gives the
/// banners and blanks alone.
pub fn run_output(bitness: u32, rendered: &Vec<String>) -> (r: Vec<String>)
    requires
        valid_bitness(bitness),
    ensures
        r@.len() == rendered@.len() + 4,
        r@[0]@ == start_banner_text(bitness),
        r@[1]@.len() == 0,
        forall|i: int| 0 <= i < rendered@.len() ==> (#[trigger] r@[i + 2])@ == rendered@[i]@,
        r@[r@.len() - 2]@.len() == 0,
        r@[r@.len() - 1]@ == completion_banner_text(),
{
    let mut out: Vec<String> = Vec::new();
    out.push(start_banner(bitness));
    out.push(String::new());
    let mut i: usize = 0;
    while i < rendered.len()
        invariant
            out@.len() == i + 2,
            i <= rendered@.len(),
            out@[0]@ == start_banner_text(bitness),
            out@[1]@.len() == 0,
            valid_bitness(bitness),
            forall|j: int| 0 <= j < i ==> (#[trigger] out@[j + 2])@ == rendered@[j]@,
        decreases rendered@.len() - i,
    {
        out.push(rendered[i].clone());
        i = i + 1;
    }
    out.push(String::new());
    out.push(completion_banner());
    out
}

} // verus!
