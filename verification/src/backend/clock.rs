//! The local time, from `chrono`. Nothing in this file is proved.

use vstd::prelude::*;

verus! {

/// The strftime pattern of year, month, day, hour, minute and second, as
/// in `2024-05-17_09-30-00`.
pub open spec fn stamp_pattern() -> Seq<char> {
    "%Y-%m-%d_%H-%M-%S"@
}

/// `chrono::Local::now`, `DateTime::format` and `DelayedFormat::write_to`:
/// the local time of this moment, written out after the strftime
/// `pattern`. There is none where chrono finds an item in `pattern` that it
/// cannot write. `stamp_pattern()` holds no such item: chrono reads it as
/// six numbers of the date and the time with the literals `-` and `_`
/// between them, and a local time has all six, so after that pattern
/// there always is a text. What the text says depends on the clock and the
/// time zone of the machine, so nothing is claimed of it. chrono does not
/// return if the machine's clock stands before 1970.
#[verifier::external_body]
pub(crate) fn local_time_text(pattern: &str) -> (text: Option<String>)
    ensures
        pattern@ == stamp_pattern() ==> text is Some,
{
    let mut text = String::new();
    match chrono::Local::now().format(pattern).write_to(&mut text) {
        Ok(()) => Some(text),
        Err(_) => None,
    }
}

} // verus!
