//! Decoding the device-enumeration results.
//!
//! Discovery uses the canonical two-phase dynamic-buffer query: a first
//! call asks only for the required buffer size, and a second call fills a
//! buffer of exactly that size with fixed-shape device records. The calls
//! themselves are operating-system work and stay with the caller; this
//! module holds the decisions and the decode: whether the reported size
//! warrants a fill call at all, and how the filled records become the
//! sequence of device names, one name per record, in the order returned.

use vstd::prelude::*;

verus! {

/// One fixed-shape device record, reduced to the field the enumerator
/// reads: the device-name string, as UTF-16 code units.
pub struct PrinterRecord {
    /// The code units of the record's name field, up to and excluding its
    /// terminator; `None` when the record carried no name at all.
    pub name_units: Option<Vec<u16>>,
}

impl View for PrinterRecord {
    type V = Option<Seq<u16>>;

    open spec fn view(&self) -> Option<Seq<u16>> {
        match self.name_units {
            Some(ref units) => Some(units@),
            None => None,
        }
    }
}

/// The characters that a sequence of UTF-16 code units decodes to, with
/// every malformed sequence replaced by U+FFFD.
pub uninterp spec fn utf16_lossy(units: Seq<u16>) -> Seq<char>;

/// Relies on widestring::U16Str::to_string_lossy: it decodes the slice as
/// UTF-16, replacing invalid sequences with U+FFFD, and its result is a
/// function of the code units alone; no code units decode to no characters.
#[verifier::external_body]
fn decode_utf16_lossy(units: &Vec<u16>) -> (r: String)
    ensures
        r@ == utf16_lossy(units@),
        units@.len() == 0 ==> r@.len() == 0,
{
    widestring::U16Str::from_slice(units.as_slice()).to_string_lossy()
}

/// The name a record decodes to: its name field decoded as UTF-16, or the
/// sentinel placeholder when the record carried no name.
pub open spec fn spec_device_name(r: Option<Seq<u16>>) -> Seq<char> {
    match r {
        Some(units) => utf16_lossy(units),
        None => "Unknown Printer"@,
    }
}

/// What the size query decides: skip the fill call entirely, or fill a
/// buffer of exactly the reported size.
#[derive(Clone, Copy, Debug, PartialEq, Eq, Structural)]
pub enum SizeQueryDecision {
    /// The query reported that no storage is required: there is nothing to
    /// enumerate, and no fill call may be made.
    NoDevices,
    /// Allocate exactly `bytes` bytes and invoke the fill call with them.
    Fill { bytes: u32 },
}

/// Decide, from the required size the first query reported, whether the
/// fill call happens. A zero required size means no devices: the caller
/// returns the empty list without a second call. Any other size is used
/// exactly as reported — a guessed or truncated buffer is a protocol error.
pub fn plan_fill(required_size: u32) -> (d: SizeQueryDecision)
    ensures
        d == (if required_size == 0 {
            SizeQueryDecision::NoDevices
        } else {
            SizeQueryDecision::Fill { bytes: required_size }
        }),
{
    if required_size == 0 {
        SizeQueryDecision::NoDevices
    } else {
        SizeQueryDecision::Fill { bytes: required_size }
    }
}

/// Decode the filled records into device names.
///
/// One name per record — none skipped, none duplicated — in the order the
/// records were returned; a record without a name field becomes the
/// sentinel placeholder.
pub fn collect_names(records: &Vec<PrinterRecord>) -> (names: Vec<String>)
    ensures
        names@.len() == records@.len(),
        forall|i: int|
            0 <= i < records@.len() ==> names@[i]@ == spec_device_name(records@[i]@),
{
    let mut names: Vec<String> = Vec::new();
    let mut i: usize = 0;
    while i < records.len()
        invariant
            0 <= i <= records@.len(),
            names@.len() == i,
            forall|j: int| 0 <= j < i ==> names@[j]@ == spec_device_name(records@[j]@),
        decreases records@.len() - i,
    {
        let name = match &records[i].name_units {
            Some(units) => decode_utf16_lossy(units),
            None => String::from_str("Unknown Printer"),
        };
        names.push(name);
        i = i + 1;
    }
    names
}

/// The enumeration result once the fill call has returned: the decoded
/// names when it succeeded, and the empty list when it failed — a partial
/// or stale buffer is discarded, never read.
pub fn device_names(fill_succeeded: bool, records: &Vec<PrinterRecord>) -> (names: Vec<String>)
    ensures
        fill_succeeded ==> names@.len() == records@.len(),
        fill_succeeded ==> forall|i: int|
            0 <= i < records@.len() ==> names@[i]@ == spec_device_name(records@[i]@),
        !fill_succeeded ==> names@.len() == 0,
{
    if fill_succeeded {
        collect_names(records)
    } else {
        Vec::new()
    }
}

} // verus!
