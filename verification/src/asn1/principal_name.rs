//! Names on the wire.

use crate::asn1::der::{
    TAG_SEQUENCE,
    context_tag,
    opt_view,
    read_exact,
    read_field,
    read_general_string,
    read_i32,
    read_items,
    read_optional_field,
    spec_bytes_of,
    spec_context_tag,
    spec_element,
    spec_exact,
    spec_explicit,
    spec_field,
    spec_general_string,
    spec_i32,
    spec_items,
    spec_optional_field,
    spec_write_general_string,
    spec_write_i32,
    write_element,
    write_explicit,
    write_general_string,
    write_i32,
};
use vstd::prelude::*;

verus! {

/// What the bytes hold, if they are a SEQUENCE of strings.
pub open spec fn spec_string_list(bytes: Seq<u8>) -> Option<Seq<Seq<u8>>> {
    let body = spec_exact(bytes, TAG_SEQUENCE);
    let items = spec_items(body->0);
    if body is Some && items is Some && (forall|i: int|
        0 <= i < items->0.len() ==> (#[trigger] spec_general_string(items->0[i])) is Some) {
        Some(Seq::new(items->0.len(), |i: int| spec_general_string(items->0[i])->0))
    } else {
        None
    }
}

/// Reads a SEQUENCE of strings.
pub fn read_string_list(bytes: &[u8]) -> (r: Option<Vec<Vec<u8>>>)
    ensures
        match r {
            Some(v) => spec_string_list(bytes@) == Some(spec_bytes_of(v@)),
            None => spec_string_list(bytes@) is None,
        },
{
    let body = match read_exact(bytes, TAG_SEQUENCE) {
        Some(body) => body,
        None => {
            return None;
        },
    };
    let items = match read_items(body) {
        Some(items) => items,
        None => {
            return None;
        },
    };
    let ghost cut = spec_items(body@)->0;
    let mut out: Vec<Vec<u8>> = Vec::new();
    let mut i: usize = 0;
    while i < items.len()
        invariant
            i <= items.len(),
            out.len() == i,
            spec_exact(bytes@, TAG_SEQUENCE) == Some(body@),
            spec_items(body@) == Some(cut),
            cut.len() == items.len(),
            forall|j: int| 0 <= j < items.len() ==> cut[j] == #[trigger] items@[j]@,
            forall|j: int|
                0 <= j < i ==> (#[trigger] spec_general_string(cut[j])) == Some(spec_bytes_of(out@)[j]),
        decreases items.len() - i,
    {
        let item = items[i];
        assert(cut[i as int] == items@[i as int]@);
        match read_general_string(item) {
            Some(v) => {
                let ghost before = spec_bytes_of(out@);
                out.push(vstd::slice::slice_to_vec(v));
                assert(forall|j: int| 0 <= j < i ==> spec_bytes_of(out@)[j] == before[j]);
            },
            None => {
                assert(spec_general_string(cut[i as int]) is None);
                return None;
            },
        }
        i = i + 1;
    }
    assert(spec_bytes_of(out@) =~= Seq::new(cut.len(), |i: int| spec_general_string(cut[i])->0));
    Some(out)
}

/// The wire encodings of strings, one after the other.
pub open spec fn spec_write_strings(v: Seq<Seq<u8>>) -> Option<Seq<u8>>
    decreases v.len(),
{
    if v.len() == 0 {
        Some(Seq::empty())
    } else {
        match (spec_write_strings(v.drop_last()), spec_write_general_string(v.last())) {
            (Some(front), Some(last)) => Some(front + last),
            _ => None,
        }
    }
}

/// The wire encoding of a SEQUENCE of strings.
pub open spec fn spec_write_string_list(v: Seq<Seq<u8>>) -> Option<Seq<u8>> {
    match spec_write_strings(v) {
        Some(body) => spec_element(TAG_SEQUENCE, body),
        None => None,
    }
}

/// Writes a SEQUENCE of strings.
pub fn write_string_list(v: &Vec<Vec<u8>>) -> (r: Option<Vec<u8>>)
    ensures
        opt_view(r) == spec_write_string_list(spec_bytes_of(v@)),
{
    let ghost all = spec_bytes_of(v@);
    let mut body: Vec<u8> = Vec::new();
    let mut i: usize = 0;
    while i < v.len()
        invariant
            i <= v.len(),
            all == spec_bytes_of(v@),
            all.len() == v.len(),
            spec_write_strings(all.take(i as int)) == Some(body@),
        decreases v.len() - i,
    {
        proof {
            assert(all.take(i + 1).drop_last() =~= all.take(i as int));
            assert(all.take(i + 1).last() == all[i as int]);
        }
        match write_general_string(v[i].as_slice()) {
            Some(part) => {
                let mut part = part;
                body.append(&mut part);
            },
            None => {
                proof {
                    lemma_write_strings_fails(all, i as int);
                }
                return None;
            },
        }
        i = i + 1;
    }
    assert(all.take(v.len() as int) =~= all);
    write_element(TAG_SEQUENCE, body.as_slice())
}

/// Where one of them cannot be written, the run cannot be written.
proof fn lemma_write_strings_fails(v: Seq<Seq<u8>>, at: int)
    requires
        0 <= at < v.len(),
        spec_write_general_string(v[at]) is None,
    ensures
        spec_write_strings(v) is None,
    decreases v.len(),
{
    if at < v.len() - 1 {
        lemma_write_strings_fails(v.drop_last(), at);
    }
}
/// A name as the wire carries it: a type and the components of the name.
#[derive(Debug, Clone, PartialEq, Eq)]
pub struct PrincipalName {
    /// Number of the name's type.
    pub name_type: i32,
    /// The components, in order.
    pub name_string: Vec<Vec<u8>>,
}

/// What a name holds, as plain values.
pub struct PrincipalNameView {
    pub name_type: i32,
    pub name_string: Seq<Seq<u8>>,
}

impl DeepView for PrincipalName {
    type V = PrincipalNameView;

    open spec fn deep_view(&self) -> PrincipalNameView {
        PrincipalNameView {
            name_type: self.name_type,
            name_string: spec_bytes_of(self.name_string@),
        }
    }
}

impl PrincipalName {
    /// What the bytes hold, if they are a name in the wire encoding: a SEQUENCE
    /// of the fields in their order, each inside its numbered tag, and nothing
    /// else.
    #[verifier::opaque]
    pub open spec fn spec_decode(bytes: Seq<u8>) -> Option<PrincipalNameView> {
        let body = spec_exact(bytes, TAG_SEQUENCE);
        let field0 = spec_field(body->0, spec_context_tag(0));
        let name_type = spec_i32((field0->0).0);
        let field1 = spec_field((field0->0).1, spec_context_tag(1));
        let name_string = spec_string_list((field1->0).0);
        if body is Some
            && field0 is Some
            && name_type is Some
            && field1 is Some
            && name_string is Some
            && (field1->0).1.len() == 0 {
            Some(PrincipalNameView { name_type: name_type->0, name_string: name_string->0 })
        } else {
            None
        }
    }

    /// Reads a name from its wire encoding.
    pub fn decode(bytes: &[u8]) -> (r: Option<PrincipalName>)
        ensures
            match r {
                Some(v) => PrincipalName::spec_decode(bytes@) == Some(v.deep_view()),
                None => PrincipalName::spec_decode(bytes@) is None,
            },
    {
        proof {
            reveal(PrincipalName::spec_decode);
        }
        let rest = match read_exact(bytes, TAG_SEQUENCE) {
            Some(body) => body,
            None => {
                return None;
            },
        };
        let (c, rest) = match read_field(rest, context_tag(0)) {
            Some(found) => found,
            None => {
                return None;
            },
        };
        let name_type = match read_i32(c) {
            Some(v) => v,
            None => {
                return None;
            },
        };
        let (c, rest) = match read_field(rest, context_tag(1)) {
            Some(found) => found,
            None => {
                return None;
            },
        };
        let name_string = match read_string_list(c) {
            Some(v) => v,
            None => {
                return None;
            },
        };
        if rest.len() != 0 {
            return None;
        }
        Some(PrincipalName { name_type, name_string })
    }

    /// The wire encoding of a name, where every field can be written.
    #[verifier::opaque]
    pub open spec fn spec_encode(v: PrincipalNameView) -> Option<Seq<u8>> {
        let part0 = spec_explicit(0, spec_write_i32(v.name_type));
        let part1 = spec_explicit(1, spec_write_string_list(v.name_string));
        if part0 is Some && part1 is Some {
            spec_element(TAG_SEQUENCE, part0->0 + part1->0)
        } else {
            None
        }
    }

    /// Writes a name in its wire encoding.
    pub fn encode(&self) -> (r: Option<Vec<u8>>)
        ensures
            opt_view(r) == PrincipalName::spec_encode(self.deep_view()),
    {
        proof {
            reveal(PrincipalName::spec_encode);
        }
        let mut body: Vec<u8> = Vec::new();
        match write_explicit(0, write_i32(self.name_type)) {
            Some(part) => {
                let mut part = part;
                body.append(&mut part);
            },
            None => {
                return None;
            },
        }
        match write_explicit(1, write_string_list(&self.name_string)) {
            Some(part) => {
                let mut part = part;
                body.append(&mut part);
            },
            None => {
                return None;
            },
        }
        write_element(TAG_SEQUENCE, body.as_slice())
    }
}
} // verus!
