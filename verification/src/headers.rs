//! Request headers as plain values: names and raw values in arrival order.

use vstd::prelude::*;
use vstd::string::StringSliceAdditionalSpecFns;
use vstd::string::StrSliceExecFns;
use crate::text::bytes_eq_ignore_ascii_case;
use crate::text::eq_ignore_ascii_case;

verus! {

/// One header line: the bytes of its name and the raw bytes of its value.
pub struct Header {
    pub name: Vec<u8>,
    pub value: Vec<u8>,
}

/// The headers of one request, in the order in which they arrived.
pub struct HeaderList {
    pub entries: Vec<Header>,
}

/// The value of the first header in `entries[from..]` whose name is `name`
/// up to ASCII case, if there is one.
pub open spec fn first_value_from(entries: Seq<Header>, name: Seq<u8>, from: int) -> Option<Seq<u8>>
    decreases entries.len() - from,
{
    if from < 0 || from >= entries.len() {
        None
    } else if eq_ignore_ascii_case(entries[from].name@, name) {
        Some(entries[from].value@)
    } else {
        first_value_from(entries, name, from + 1)
    }
}

/// The value of the first header named `name`, up to ASCII case.
pub open spec fn first_value(entries: Seq<Header>, name: Seq<u8>) -> Option<Seq<u8>> {
    first_value_from(entries, name, 0)
}

impl Header {
    /// A header with the given name and value.
    pub fn new(name: &str, value: &[u8]) -> (h: Header)
        ensures
            h.name@ == name.spec_bytes(),
            h.value@ == value@,
    {
        Header { name: name.as_bytes_vec(), value: crate::text::copy_range(value, 0, value.len()) }
    }
}

impl View for HeaderList {
    type V = Seq<Header>;

    open spec fn view(&self) -> Seq<Header> {
        self.entries@
    }
}

impl HeaderList {
    /// No headers.
    pub fn new() -> (list: HeaderList)
        ensures
            list@ == Seq::<Header>::empty(),
    {
        HeaderList { entries: Vec::new() }
    }

    /// Adds a header after those already there.
    pub fn append(&mut self, header: Header)
        ensures
            final(self)@ == old(self)@.push(header),
    {
        self.entries.push(header);
    }

    /// The raw value of the first header called `name`; header names are
    /// compared without regard to ASCII case.
    pub fn get(&self, name: &[u8]) -> (value: Option<&Vec<u8>>)
        ensures
            match first_value(self@, name@) {
                Some(v) => value matches Some(found) && found@ == v,
                None => value is None,
            },
    {
        let mut i: usize = 0;
        while i < self.entries.len()
            invariant
                0 <= i <= self.entries@.len(),
                first_value(self@, name@) == first_value_from(self@, name@, i as int),
            decreases self.entries@.len() - i,
        {
            if bytes_eq_ignore_ascii_case(self.entries[i].name.as_slice(), name) {
                return Some(&self.entries[i].value);
            }
            i += 1;
        }
        None
    }
}

} // verus!
