//! Finding the peripheral: the name filter, the choice among the advertised
//! peripherals, and the writable characteristic that telemetry goes to.

use crate::text::{chars_of, contains, contains_chars, lemma_trailing_is, trailing};
use vstd::prelude::*;
use vstd::string::{StrSliceExecFns, StringExecFns};

verus! {

/// The identifier of the characteristic that telemetry is written to.
pub const FLIPPER_CHARACTERISTIC_UUID: u128 = 0x19ed82ae_ed21_4c9d_4145_228e62fe0000;

/// The name filter that is used where none is entered.
pub const DEFAULT_FILTER: &'static str = "PC Mon";

/// A peripheral as the transport knows it: its identity, and the name it
/// advertises, where it advertises one.
#[derive(Clone, Debug, PartialEq, Eq)]
pub struct Advertised {
    pub id: u64,
    pub name: Option<String>,
}

/// An advertised name passes the filter: the filter is empty, or the name
/// holds it as a substring, letter case observed.
pub open spec fn passes(filter: Seq<char>, name: Seq<char>) -> bool {
    filter.len() == 0 || contains(name, filter)
}

/// The peripheral is the one with identity `id`, and its name passes the
/// filter. A peripheral without a name passes no filter.
pub open spec fn is_wanted(peripheral: Advertised, id: u64, filter: Seq<char>) -> bool {
    &&& peripheral.id == id
    &&& peripheral.name matches Some(name)
    &&& passes(filter, name@)
}

/// The test for the two characters that end a line, as a predicate.
pub open spec fn line_end() -> spec_fn(char) -> bool {
    |c: char| c == '\n' || c == '\r'
}

/// The filter that an entered line asks for: the line without the line
/// feeds and carriage returns at its end, and the default where no line was
/// entered. An empty line asks for the empty filter.
pub open spec fn filter_of(entered: Option<Seq<char>>) -> Seq<char> {
    match entered {
        Some(line) => line.take(line.len() - trailing(line, line_end())),
        None => DEFAULT_FILTER@,
    }
}

/// The filter that an entered line asks for.
pub fn filter_from_line(entered: Option<&str>) -> (filter: String)
    ensures
        filter@ == filter_of(
            match entered {
                Some(line) => Some(line@),
                None => None,
            },
        ),
{
    match entered {
        Some(line) => {
            let text = chars_of(line);
            let mut to: usize = text.len();
            while to > 0 && (text[to - 1] == '\n' || text[to - 1] == '\r')
                invariant
                    to <= text.len(),
                    forall|j: int| to <= j < text.len() ==> line_end()(#[trigger] text@[j]),
                decreases to,
            {
                to = to - 1;
            }
            proof {
                lemma_trailing_is(text@, line_end(), text.len() - to);
                assert(line@.take(to as int) =~= line@.subrange(0, to as int));
            }
            String::from_str(line.substring_char(0, to))
        },
        None => String::from_str(DEFAULT_FILTER),
    }
}

/// Whether an advertised name passes the filter.
pub fn name_matches(filter: &str, name: &str) -> (matched: bool)
    ensures
        matched == passes(filter@, name@),
        matched == contains(name@, filter@),
{
    let needle = chars_of(filter);
    let hay = chars_of(name);
    proof {
        if filter@.len() == 0 {
            assert(crate::text::occurs_at(name@, filter@, 0)) by {
                assert(name@.subrange(0, 0) =~= filter@);
            }
        }
    }
    contains_chars(&hay, &needle)
}

/// The first of `peripherals` that has identity `id` and a name that passes
/// the filter.
pub fn get_flipper(peripherals: &Vec<Advertised>, id: u64, filter: &str) -> (found: Option<usize>)
    ensures
        match found {
            Some(at) => {
                &&& at < peripherals.len()
                &&& is_wanted(peripherals[at as int], id, filter@)
                &&& forall|j: int| 0 <= j < at ==> !is_wanted(#[trigger] peripherals[j], id, filter@)
            },
            None => forall|j: int|
                0 <= j < peripherals.len() ==> !is_wanted(#[trigger] peripherals[j], id, filter@),
        },
{
    let mut at: usize = 0;
    while at < peripherals.len()
        invariant
            at <= peripherals.len(),
            forall|j: int| 0 <= j < at ==> !is_wanted(#[trigger] peripherals[j], id, filter@),
        decreases peripherals.len() - at,
    {
        let p = &peripherals[at];
        let hit = p.id == id && match &p.name {
            Some(name) => name_matches(filter, name.as_str()),
            None => false,
        };
        if hit {
            return Some(at);
        }
        at = at + 1;
    }
    None
}

/// The first position of `wanted` among the characteristics that a
/// peripheral offers.
pub fn find_characteristic(offered: &Vec<u128>, wanted: u128) -> (found: Option<usize>)
    ensures
        match found {
            Some(at) => {
                &&& at < offered.len()
                &&& offered[at as int] == wanted
                &&& forall|j: int| 0 <= j < at ==> offered[j] != wanted
            },
            None => forall|j: int| 0 <= j < offered.len() ==> offered[j] != wanted,
        },
{
    let mut at: usize = 0;
    while at < offered.len()
        invariant
            at <= offered.len(),
            forall|j: int| 0 <= j < at ==> offered[j] != wanted,
        decreases offered.len() - at,
    {
        if offered[at] == wanted {
            return Some(at);
        }
        at = at + 1;
    }
    None
}

} // verus!
