//! Small inspection helpers over the writer.
use vstd::prelude::*;

use crate::demo::writer::Writer;

verus! {

/// Reports how many bytes a writer has buffered after writing the input.
pub fn measure(input: &[u8]) -> (r: usize)
    ensures
        r == input@.len(),
{
    let mut writer = Writer::new();
    writer.write_all(input);
    writer.pending()
}

} // verus!
