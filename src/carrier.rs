//! The header carrier handed to a trace propagator: only the request headers
//! that the propagator reads, under their normalised names.

use crate::headers::{
    find_header, header_lookup, header_name_accepted, header_value_accepted, is_valid_header_name,
    is_valid_header_value,
};
use vstd::prelude::*;

verus! {

/// The entry that propagator field `field` contributes to the carrier: the
/// field name itself with the value of the first request header of that name
/// (ignoring ASCII case), where the field is a valid header name and that
/// value a valid header value.
pub open spec fn field_entry(field: Seq<char>, headers: Seq<(String, String)>) -> Option<
    (Seq<char>, Seq<char>),
> {
    if is_valid_header_name(field) {
        match header_lookup(headers, field) {
            Some(v) => if is_valid_header_value(v) {
                Some((field, v))
            } else {
                None
            },
            None => None,
        }
    } else {
        None
    }
}

/// Every entry has a valid header name and a valid header value.
pub open spec fn entries_valid(entries: Seq<(Seq<char>, Seq<char>)>) -> bool {
    forall|k: int|
        0 <= k < entries.len() ==> is_valid_header_name(#[trigger] entries[k].0)
            && is_valid_header_value(entries[k].1)
}

/// The carrier built for `fields` from `headers`: one entry per field that
/// contributes one, in the order of the fields.
pub open spec fn carrier_spec(fields: Seq<String>, headers: Seq<(String, String)>) -> Seq<
    (Seq<char>, Seq<char>),
>
    decreases fields.len(),
{
    if fields.len() == 0 {
        seq![]
    } else {
        let prev = carrier_spec(fields.drop_last(), headers);
        match field_entry(fields.last()@, headers) {
            Some(e) => prev.push(e),
            None => prev,
        }
    }
}

/// The value of the first entry, at index `i` or after, named exactly `key`.
pub open spec fn entry_value_from(entries: Seq<(Seq<char>, Seq<char>)>, key: Seq<char>, i: int) -> Option<
    Seq<char>,
>
    decreases entries.len() - i,
{
    if i < 0 || i >= entries.len() {
        None
    } else if entries[i].0 == key {
        Some(entries[i].1)
    } else {
        entry_value_from(entries, key, i + 1)
    }
}

/// The value of the first entry named exactly `key`.
pub open spec fn entry_value(entries: Seq<(Seq<char>, Seq<char>)>, key: Seq<char>) -> Option<
    Seq<char>,
> {
    entry_value_from(entries, key, 0)
}

/// A mapping from header name to header value; a name may hold several values,
/// kept in the order they were added.
pub struct Carrier {
    entries: Vec<(String, String)>,
}

impl View for Carrier {
    type V = Seq<(Seq<char>, Seq<char>)>;

    closed spec fn view(&self) -> Seq<(Seq<char>, Seq<char>)> {
        self.entries@.map_values(|e: (String, String)| (e.0@, e.1@))
    }
}

impl Carrier {
    /// An empty carrier.
    pub fn new() -> (r: Carrier)
        ensures
            r@ == Seq::<(Seq<char>, Seq<char>)>::empty(),
    {
        let r = Carrier { entries: Vec::new() };
        assert(r@ =~= Seq::<(Seq<char>, Seq<char>)>::empty());
        r
    }

    /// Number of entries.
    pub fn len(&self) -> (r: usize)
        ensures
            r == self@.len(),
    {
        self.entries.len()
    }

    /// Adds `value` under `name` after the entries already held.
    pub fn append(&mut self, name: String, value: String)
        ensures
            final(self)@ == old(self)@.push((name@, value@)),
    {
        self.entries.push((name, value));
        assert(final(self)@ =~= old(self)@.push((name@, value@)));
    }

    /// The name of entry `i`.
    pub fn name_at(&self, i: usize) -> (r: &str)
        requires
            i < self@.len(),
        ensures
            r@ == self@[i as int].0,
    {
        self.entries[i].0.as_str()
    }

    /// The value of entry `i`.
    pub fn value_at(&self, i: usize) -> (r: &str)
        requires
            i < self@.len(),
        ensures
            r@ == self@[i as int].1,
    {
        self.entries[i].1.as_str()
    }

    /// The first value held under exactly `key`.
    pub fn get(&self, key: &str) -> (r: Option<&str>)
        ensures
            match r {
                Some(v) => entry_value(self@, key@) == Some(v@),
                None => entry_value(self@, key@) is None,
            },
    {
        let mut i: usize = 0;
        while i < self.entries.len()
            invariant
                i <= self@.len(),
                self@.len() == self.entries@.len(),
                entry_value(self@, key@) == entry_value_from(self@, key@, i as int),
            decreases self@.len() - i,
        {
            if str_equal(self.entries[i].0.as_str(), key) {
                return Some(self.entries[i].1.as_str());
            }
            i = i + 1;
        }
        None
    }
}

fn str_equal(a: &str, b: &str) -> (r: bool)
    ensures
        r == (a@ == b@),
{
    let n = a.unicode_len();
    if n != b.unicode_len() {
        return false;
    }
    let mut i: usize = 0;
    while i < n
        invariant
            n == a@.len(),
            n == b@.len(),
            i <= n,
            forall|j: int| 0 <= j < i ==> a@[j] == b@[j],
        decreases n - i,
    {
        if a.get_char(i) != b.get_char(i) {
            return false;
        }
        i = i + 1;
    }
    assert(a@ =~= b@);
    true
}

/// Copies the first request header named `header_name` (ignoring ASCII case)
/// into `carrier`, where its value is a valid header value.
pub fn add_header(old_headers: &Vec<(String, String)>, carrier: &mut Carrier, header_name: String)
    ensures
        final(carrier)@ == match header_lookup(old_headers@, header_name@) {
            Some(v) => if is_valid_header_value(v) {
                old(carrier)@.push((header_name@, v))
            } else {
                old(carrier)@
            },
            None => old(carrier)@,
        },
{
    match find_header(old_headers, header_name.as_str()) {
        Some(v) => {
            if header_value_accepted(v.as_str()) {
                carrier.append(header_name, v.clone());
            }
        },
        None => {},
    }
}

/// Builds the carrier for a propagator that reads `fields` from the request
/// headers `headers`, given as name and value pairs in the order the request
/// holds them. Each entry is keyed by the field name exactly as the
/// propagator gives it. Fields that are not valid header names, and headers
/// whose value is not a valid header value, are left out.
pub fn build_carrier(fields: &Vec<String>, headers: &Vec<(String, String)>) -> (r: Carrier)
    ensures
        r@ == carrier_spec(fields@, headers@),
        entries_valid(r@),
{
    let mut carrier = Carrier::new();
    let mut i: usize = 0;
    while i < fields.len()
        invariant
            i <= fields@.len(),
            carrier@ == carrier_spec(fields@.subrange(0, i as int), headers@),
        decreases fields@.len() - i,
    {
        proof {
            assert(fields@.subrange(0, i + 1).drop_last() =~= fields@.subrange(0, i as int));
        }
        if header_name_accepted(fields[i].as_str()) {
            add_header(headers, &mut carrier, fields[i].clone());
        }
        i = i + 1;
    }
    assert(fields@.subrange(0, fields@.len() as int) =~= fields@);
    proof {
        lemma_carrier_entries_valid(fields@, headers@);
    }
    carrier
}

proof fn lemma_carrier_entries_valid(fields: Seq<String>, headers: Seq<(String, String)>)
    ensures
        entries_valid(carrier_spec(fields, headers)),
    decreases fields.len(),
{
    if fields.len() > 0 {
        lemma_carrier_entries_valid(fields.drop_last(), headers);
        let prev = carrier_spec(fields.drop_last(), headers);
        let cur = carrier_spec(fields, headers);
        match field_entry(fields.last()@, headers) {
            Some(e) => {
                assert(cur == prev.push(e));
                assert forall|k: int| 0 <= k < cur.len() implies is_valid_header_name(
                    #[trigger] cur[k].0,
                ) && is_valid_header_value(cur[k].1) by {
                    if k < prev.len() {
                        assert(cur[k] == prev[k]);
                    }
                }
            },
            None => {},
        }
    }
}

/// A request that carries no header under the name of any of the
/// propagator's valid fields (ignoring ASCII case) yields an empty carrier:
/// the propagator then sees no upstream context.
pub proof fn lemma_no_matching_headers(fields: Seq<String>, headers: Seq<(String, String)>)
    requires
        forall|i: int|
            0 <= i < fields.len() && is_valid_header_name(#[trigger] fields[i]@) ==> header_lookup(
                headers,
                fields[i]@,
            ) is None,
    ensures
        carrier_spec(fields, headers) == Seq::<(Seq<char>, Seq<char>)>::empty(),
    decreases fields.len(),
{
    if fields.len() > 0 {
        let prev = fields.drop_last();
        assert forall|i: int|
            0 <= i < prev.len() && is_valid_header_name(#[trigger] prev[i]@) implies header_lookup(
            headers,
            prev[i]@,
        ) is None by {
            assert(prev[i] == fields[i]);
        }
        lemma_no_matching_headers(prev, headers);
        assert(fields.last() == fields[fields.len() - 1]);
    }
}

/// The standalone carrier that holds `values[i]` under `fields[i]`.
pub open spec fn standalone_carrier(fields: Seq<String>, values: Seq<Seq<char>>) -> Seq<
    (Seq<char>, Seq<char>),
> {
    Seq::new(fields.len(), |i: int| (fields[i]@, values[i]))
}

/// Round trip: when every field of the propagator is a valid header name and
/// the request carries, under each, a valid value `values[i]` (as injecting a
/// context writes them), whatever other headers it holds, the carrier built
/// from the request equals the standalone carrier of those values, so the
/// propagator decodes the same context from both.
pub proof fn lemma_carrier_round_trip(
    fields: Seq<String>,
    headers: Seq<(String, String)>,
    values: Seq<Seq<char>>,
)
    requires
        fields.len() == values.len(),
        forall|i: int| 0 <= i < fields.len() ==> is_valid_header_name(#[trigger] fields[i]@),
        forall|i: int|
            0 <= i < fields.len() ==> header_lookup(headers, #[trigger] fields[i]@) == Some(
                values[i],
            ),
        forall|i: int| 0 <= i < values.len() ==> is_valid_header_value(#[trigger] values[i]),
    ensures
        carrier_spec(fields, headers) == standalone_carrier(fields, values),
    decreases fields.len(),
{
    if fields.len() > 0 {
        let k = fields.len() - 1;
        let pf = fields.drop_last();
        let pv = values.drop_last();
        assert forall|i: int| 0 <= i < pf.len() implies is_valid_header_name(#[trigger] pf[i]@) by {
            assert(pf[i] == fields[i]);
        }
        assert forall|i: int| 0 <= i < pf.len() implies header_lookup(headers, #[trigger] pf[i]@)
            == Some(pv[i]) by {
            assert(pf[i] == fields[i]);
        }
        assert forall|i: int| 0 <= i < pv.len() implies is_valid_header_value(#[trigger] pv[i]) by {
            assert(pv[i] == values[i]);
        }
        lemma_carrier_round_trip(pf, headers, pv);
        assert(fields.last() == fields[k]);
        assert(is_valid_header_name(fields[k]@));
        assert(header_lookup(headers, fields[k]@) == Some(values[k]));
        assert(is_valid_header_value(values[k]));
        assert(standalone_carrier(fields, values) =~= standalone_carrier(pf, pv).push(
            (fields[k]@, values[k]),
        ));
    }
}

/// A header present under a name whose value is not a valid header value is
/// left out: no carrier entry has that name, so a carrier for a single such
/// field is empty.
pub proof fn lemma_invalid_value_left_out(
    fields: Seq<String>,
    headers: Seq<(String, String)>,
    name: Seq<char>,
)
    requires
        header_lookup(headers, name) matches Some(v) && !is_valid_header_value(v),
    ensures
        forall|k: int|
            0 <= k < carrier_spec(fields, headers).len() ==> (#[trigger] carrier_spec(
                fields,
                headers,
            )[k]).0 != name,
        fields.len() == 1 && fields[0]@ == name ==> carrier_spec(fields, headers).len() == 0,
    decreases fields.len(),
{
    if fields.len() > 0 {
        let prev = carrier_spec(fields.drop_last(), headers);
        let cur = carrier_spec(fields, headers);
        lemma_invalid_value_left_out(fields.drop_last(), headers, name);
        match field_entry(fields.last()@, headers) {
            Some(e) => {
                assert(e.0 != name);
                assert(cur == prev.push(e));
                assert forall|k: int| 0 <= k < cur.len() implies (#[trigger] cur[k]).0 != name by {
                    if k < prev.len() {
                        assert(cur[k] == prev[k]);
                    }
                }
            },
            None => {
                assert(cur == prev);
            },
        }
        if fields.len() == 1 {
            assert(fields.drop_last().len() == 0);
            assert(fields.last() == fields[0]);
        }
    }
}

} // verus!
