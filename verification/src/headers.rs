//! Checking a request's headers and collecting them into a header table.

use vstd::prelude::*;
use vstd::utf8::encode_utf8;
use http::header::{HeaderMap, HeaderName, HeaderValue};
use crate::error::{Failure, RelayError};
use crate::grammar::{
    canonical_name, field_name_text_is_its_bytes, field_value_text_is_its_bytes,
    is_field_name_text, is_field_value_text,
};
use crate::trusted::{
    header_entries, header_map_insert, invalid_header_name_detail, invalid_header_value_detail,
    HeaderEntries, HEADER_TABLE_ROOM, INVALID_HEADER_NAME_TEXT, INVALID_HEADER_VALUE_TEXT,
};

verus! {

/// Headers as a caller gives them: key and value, in the order they are
/// looked at.
pub type HeaderPairs = Seq<(Seq<char>, Seq<char>)>;

/// What is wrong with one header, if anything. The name is judged before the
/// value, and either failure carries the key as the caller wrote it.
pub open spec fn header_fault(key: Seq<char>, value: Seq<char>) -> Option<Failure> {
    if !is_field_name_text(key) {
        Some(Failure::InvalidHeaderName { key, detail: INVALID_HEADER_NAME_TEXT@ })
    } else if !is_field_value_text(value) {
        Some(Failure::InvalidHeaderValue { key, detail: INVALID_HEADER_VALUE_TEXT@ })
    } else {
        None
    }
}

/// Every header is well formed.
pub open spec fn all_well_formed(pairs: HeaderPairs) -> bool {
    forall|i: int| 0 <= i < pairs.len() ==> header_fault(#[trigger] pairs[i].0, pairs[i].1) is None
}

/// Header `i` is malformed and no header before it is.
pub open spec fn is_first_fault(pairs: HeaderPairs, i: int) -> bool {
    &&& 0 <= i < pairs.len()
    &&& header_fault(pairs[i].0, pairs[i].1) is Some
    &&& forall|j: int| 0 <= j < i ==> header_fault(#[trigger] pairs[j].0, pairs[j].1) is None
}

/// The failure that the headers give rise to: that of the first malformed
/// one, or none where all are well formed.
pub open spec fn first_fault(pairs: HeaderPairs) -> Option<Failure>
    decreases pairs.len(),
{
    if pairs.len() == 0 {
        None
    } else {
        match header_fault(pairs[0].0, pairs[0].1) {
            Some(failure) => Some(failure),
            None => first_fault(pairs.drop_first()),
        }
    }
}

/// The table that results from attaching the headers one after another:
/// each goes under its lower-cased name and displaces what was there.
pub open spec fn attached(pairs: HeaderPairs) -> HeaderEntries
    decreases pairs.len(),
{
    if pairs.len() == 0 {
        Map::empty()
    } else {
        attached(pairs.drop_last()).insert(
            canonical_name(encode_utf8(pairs.last().0)),
            seq![encode_utf8(pairs.last().1)],
        )
    }
}

/// The name under which header `i` is attached.
pub open spec fn name_of(pairs: HeaderPairs, i: int) -> Seq<u8> {
    canonical_name(encode_utf8(pairs[i].0))
}

/// No two headers have the same name, differences of case aside.
pub open spec fn names_are_distinct(pairs: HeaderPairs) -> bool {
    forall|i: int, j: int|
        0 <= i < j < pairs.len() ==> #[trigger] name_of(pairs, i) != #[trigger] name_of(pairs, j)
}

/// The table holds exactly the names of the headers, and no others.
pub proof fn attached_holds_each_name(pairs: HeaderPairs)
    ensures
        attached(pairs).dom().finite(),
        forall|name: Seq<u8>|
            attached(pairs).dom().contains(name) <==> exists|i: int|
                0 <= i < pairs.len() && #[trigger] name_of(pairs, i) == name,
    decreases pairs.len(),
{
    if pairs.len() > 0 {
        let front = pairs.drop_last();
        let last: int = pairs.len() - 1;
        attached_holds_each_name(front);
        assert forall|name: Seq<u8>| attached(pairs).dom().contains(name) implies exists|i: int|
            0 <= i < pairs.len() && #[trigger] name_of(pairs, i) == name by {
            if name != name_of(pairs, last) {
                let i: int = choose|i: int|
                    0 <= i < front.len() && #[trigger] name_of(front, i) == name;
                assert(name_of(pairs, i) == name);
            }
        }
        assert forall|name: Seq<u8>|
            (exists|i: int|
                0 <= i < pairs.len() && #[trigger] name_of(pairs, i) == name) implies attached(
            pairs,
        ).dom().contains(name) by {
            let i: int = choose|i: int|
                0 <= i < pairs.len() && #[trigger] name_of(pairs, i) == name;
            if i < last {
                assert(name_of(front, i) == name);
            }
        }
    }
}

/// Under each name the table holds one value: that of the last header with
/// that name.
pub proof fn attached_last_wins(pairs: HeaderPairs, i: int)
    requires
        0 <= i < pairs.len(),
        forall|j: int| i < j < pairs.len() ==> #[trigger] name_of(pairs, j) != name_of(pairs, i),
    ensures
        attached(pairs).dom().contains(name_of(pairs, i)),
        attached(pairs)[name_of(pairs, i)] == seq![encode_utf8(pairs[i].1)],
    decreases pairs.len(),
{
    let front = pairs.drop_last();
    let last: int = pairs.len() - 1;
    if i < last {
        assert(name_of(pairs, last) != name_of(pairs, i));
        assert forall|j: int| i < j < front.len() implies #[trigger] name_of(front, j) != name_of(
            front,
            i,
        ) by {
            assert(name_of(front, j) == name_of(pairs, j));
        }
        attached_last_wins(front, i);
    }
}

/// Two lists that hold the same headers, each without a repeated name, give
/// the same table: the order in which headers are attached does not matter.
pub proof fn attached_ignores_order(a: HeaderPairs, b: HeaderPairs)
    requires
        forall|i: int| 0 <= i < a.len() ==> b.contains(#[trigger] a[i]),
        forall|j: int| 0 <= j < b.len() ==> a.contains(#[trigger] b[j]),
        names_are_distinct(a),
        names_are_distinct(b),
    ensures
        attached(a) == attached(b),
{
    attached_holds_each_name(a);
    attached_holds_each_name(b);
    assert forall|name: Seq<u8>| #[trigger]
        attached(a).dom().contains(name) implies attached(b).dom().contains(name) && attached(
        a,
    )[name] == attached(b)[name] by {
        let i: int = choose|i: int| 0 <= i < a.len() && #[trigger] name_of(a, i) == name;
        let j: int = choose|j: int| 0 <= j < b.len() && b[j] == a[i];
        attached_last_wins(a, i);
        attached_last_wins(b, j);
    }
    assert forall|name: Seq<u8>| #[trigger]
        attached(b).dom().contains(name) implies attached(a).dom().contains(name) by {
        let j: int = choose|j: int| 0 <= j < b.len() && #[trigger] name_of(b, j) == name;
        let i: int = choose|i: int| 0 <= i < a.len() && a[i] == b[j];
        assert(name_of(a, i) == name);
    }
}

/// `first_fault` is none exactly when every header is well formed, and it is
/// the fault of header `i` whenever `i` is the first malformed one.
pub proof fn first_fault_is_first(pairs: HeaderPairs)
    ensures
        first_fault(pairs) is None <==> all_well_formed(pairs),
        forall|i: int| #[trigger]
            is_first_fault(pairs, i) ==> first_fault(pairs) == header_fault(pairs[i].0, pairs[i].1),
    decreases pairs.len(),
{
    if pairs.len() > 0 {
        let rest = pairs.drop_first();
        first_fault_is_first(rest);
        assert forall|j: int| 0 <= j < rest.len() implies #[trigger] rest[j] == pairs[j + 1] by {}
        if header_fault(pairs[0].0, pairs[0].1) is None && all_well_formed(rest) {
            assert forall|j: int| 0 <= j < pairs.len() implies header_fault(
                #[trigger] pairs[j].0,
                pairs[j].1,
            ) is None by {
                if j > 0 {
                    assert(pairs[j] == rest[j - 1]);
                }
            }
        }
        assert forall|i: int| #[trigger] is_first_fault(pairs, i) implies first_fault(pairs)
            == header_fault(pairs[i].0, pairs[i].1) by {
            if i > 0 {
                assert(is_first_fault(rest, i - 1));
            }
        }
    }
}

/// Where header `i` is malformed, some header up to `i` is the first that is.
pub proof fn first_fault_index(pairs: HeaderPairs, i: int) -> (k: int)
    requires
        0 <= i < pairs.len(),
        header_fault(pairs[i].0, pairs[i].1) is Some,
    ensures
        0 <= k <= i,
        is_first_fault(pairs, k),
    decreases i,
{
    if is_first_fault(pairs, i) {
        i
    } else {
        let j: int = choose|j: int|
            0 <= j < i && !(header_fault(#[trigger] pairs[j].0, pairs[j].1) is None);
        first_fault_index(pairs, j)
    }
}

/// Checks the headers in order and collects them into a table.
///
/// The first malformed header, if there is one, is the failure; otherwise
/// every header is in the table, later ones displacing earlier ones of the
/// same name. No more than [`HEADER_TABLE_ROOM`] headers are taken, which is
/// what a table is sure to hold.
pub fn build_headers(headers: &Vec<(String, String)>) -> (r: Result<
    HeaderMap<HeaderValue>,
    RelayError,
>)
    requires
        headers.len() <= HEADER_TABLE_ROOM,
    ensures
        match first_fault(headers.deep_view()) {
            Some(failure) => r matches Err(e) && e@ == failure,
            None => r matches Ok(map) && header_entries(map) == attached(headers.deep_view()),
        },
{
    let ghost pairs = headers.deep_view();
    let mut map = HeaderMap::new();
    let mut i: usize = 0;
    assert(pairs.skip(0) == pairs);
    while i < headers.len()
        invariant
            i <= headers.len() <= HEADER_TABLE_ROOM,
            pairs == headers.deep_view(),
            first_fault(pairs) == first_fault(pairs.skip(i as int)),
            header_entries(map) == attached(pairs.take(i as int)),
            header_entries(map).dom().finite(),
            header_entries(map).dom().len() <= i,
        decreases headers.len() - i,
    {
        let key = &headers[i].0;
        let value = &headers[i].1;
        proof {
            assert(pairs.skip(i as int).drop_first() == pairs.skip(i + 1));
            assert(pairs.take(i + 1).drop_last() == pairs.take(i as int));
            field_name_text_is_its_bytes(key@);
            field_value_text_is_its_bytes(value@);
        }
        let name = match HeaderName::from_bytes(key.as_str().as_bytes()) {
            Ok(name) => name,
            Err(e) => {
                return Err(
                    RelayError::InvalidHeaderName {
                        key: key.clone(),
                        detail: invalid_header_name_detail(&e),
                    },
                );
            },
        };
        let field = match HeaderValue::from_str(value.as_str()) {
            Ok(field) => field,
            Err(e) => {
                return Err(
                    RelayError::InvalidHeaderValue {
                        key: key.clone(),
                        detail: invalid_header_value_detail(&e),
                    },
                );
            },
        };
        header_map_insert(&mut map, name, field);
        i += 1;
    }
    Ok(map)
}

} // verus!
