//! Header fields: `http::HeaderMap`, as far as the library reads and
//! changes it, and the one header value that the library parses itself.

use vstd::prelude::*;

verus! {

#[verifier::external_type_specification]
#[verifier::external_body]
#[verifier::reject_recursive_types(T)]
pub struct ExHeaderMap<T>(http::HeaderMap<T>);

#[verifier::external_type_specification]
#[verifier::external_body]
pub struct ExHeaderValue(http::HeaderValue);

/// The fields of a header map: for each name that occurs, written in lower
/// case, the values given for it, oldest first.
pub uninterp spec fn fields(map: http::HeaderMap<http::HeaderValue>) -> Map<Seq<char>, Seq<Seq<u8>>>;

/// A character that the library uses in header names.
pub open spec fn is_name_char(c: char) -> bool {
    ('a' <= c && c <= 'z') || ('0' <= c && c <= '9') || c == '-'
}

/// The header names that the library looks up and writes: short, and made
/// of lower-case letters, digits and hyphens only.  The map stores such a
/// name as it is written.
pub open spec fn is_field_name(name: Seq<char>) -> bool {
    &&& 1 <= name.len() <= 64
    &&& forall|i: int| 0 <= i < name.len() ==> is_name_char(#[trigger] name[i])
}

/// The values that `all` holds for `name`; none where the name does not occur.
pub open spec fn values_of(all: Map<Seq<char>, Seq<Seq<u8>>>, name: Seq<char>) -> Seq<Seq<u8>> {
    if all.dom().contains(name) {
        all[name]
    } else {
        Seq::empty()
    }
}

/// The first value that `all` holds for `name`.
pub open spec fn first_value(all: Map<Seq<char>, Seq<Seq<u8>>>, name: Seq<char>) -> Option<Seq<u8>> {
    if all.dom().contains(name) {
        Some(all[name][0])
    } else {
        None
    }
}

/// No fields at all.
pub open spec fn no_fields() -> Map<Seq<char>, Seq<Seq<u8>>> {
    Map::empty()
}

/// `HeaderMap::new` makes a map without fields.
pub assume_specification[ http::HeaderMap::<http::HeaderValue>::new ]() -> (made: http::HeaderMap<http::HeaderValue>)
    ensures
        fields(made) == no_fields(),
;

/// `HeaderMap::get` with a name as text: a copy of the bytes of the first
/// value stored under that name, or nothing where the name does not occur.
/// A name that occurs has at least one value.
#[verifier::external_body]
pub(crate) fn header_get(map: &http::HeaderMap<http::HeaderValue>, name: &str) -> (r: Option<Vec<u8>>)
    requires
        is_field_name(name@),
    ensures
        r is Some <==> fields(*map).dom().contains(name@),
        r matches Some(v) ==> fields(*map)[name@].len() > 0 && v@ == fields(*map)[name@][0],
{
    map.get(name).map(|value| value.as_bytes().to_vec())
}

/// `HeaderMap::remove` with a name as text: every value stored under that
/// name leaves the map, the other fields stay; tells whether the name occurred.
#[verifier::external_body]
pub(crate) fn header_remove(map: &mut http::HeaderMap<http::HeaderValue>, name: &str) -> (had: bool)
    requires
        is_field_name(name@),
    ensures
        had == fields(*old(map)).dom().contains(name@),
        fields(*final(map)) == fields(*old(map)).remove(name@),
{
    map.remove(name).is_some()
}

/// Whether `map`, as it stands, takes `value` as a further value of `name`:
/// the answer of `HeaderMap::try_append` with the name and the value made
/// by `HeaderName::from_bytes` and `HeaderValue::from_bytes`.  It is the
/// map's to give: it depends on the room that the map has, not on its
/// fields alone.
pub uninterp spec fn takes(map: http::HeaderMap<http::HeaderValue>, name: Seq<char>, value: Seq<u8>) -> bool;

/// `HeaderMap::try_append`, with the name and the value made from text and
/// bytes by `HeaderName::from_bytes` and `HeaderValue::from_bytes`.  Its
/// answer is what [`takes`] names.  Where it answers `true`, the value now
/// stands last among the values of that name and nothing else changed.
/// Where the value is no legal header value, or the map has reached the
/// size it can hold, it answers `false` and the fields are as before.
#[verifier::external_body]
pub(crate) fn header_append(map: &mut http::HeaderMap<http::HeaderValue>, name: &str, value: &[u8]) -> (ok: bool)
    requires
        is_field_name(name@),
    ensures
        ok == takes(*old(map), name@, value@),
        ok ==> fields(*final(map)) == fields(*old(map)).insert(
            name@,
            values_of(fields(*old(map)), name@).push(value@),
        ),
        !ok ==> fields(*final(map)) == fields(*old(map)),
{
    match (http::header::HeaderName::from_bytes(name.as_bytes()), http::HeaderValue::from_bytes(value)) {
        (Ok(name), Ok(value)) => map.try_append(name, value).is_ok(),
        _ => false,
    }
}

/// The names of the header fields that the library reads and writes are
/// names of the kind that the lookups take.
pub proof fn lemma_known_names()
    ensures
        is_field_name("content-length"@),
        is_field_name("content-encoding"@),
        is_field_name("accept-encoding"@),
        is_field_name("host"@),
{
    reveal_strlit("content-length");
    reveal_strlit("content-encoding");
    reveal_strlit("accept-encoding");
    reveal_strlit("host");
}

/// Whether two byte strings are the same.
pub fn same_bytes(a: &[u8], b: &[u8]) -> (r: bool)
    ensures
        r == (a@ == b@),
{
    if a.len() != b.len() {
        return false;
    }
    let mut i: usize = 0;
    while i < a.len()
        invariant
            0 <= i <= a@.len(),
            a@.len() == b@.len(),
            forall|j: int| 0 <= j < i ==> a@[j] == b@[j],
        decreases a@.len() - i,
    {
        if a[i] != b[i] {
            return false;
        }
        i = i + 1;
    }
    assert(a@ =~= b@);
    true
}

/// An ASCII decimal digit.
pub open spec fn is_digit(b: u8) -> bool {
    48 <= b <= 57
}

/// Whether `s` is made of decimal digits only.
pub open spec fn all_digits(s: Seq<u8>) -> bool {
    forall|i: int| 0 <= i < s.len() ==> is_digit(#[trigger] s[i])
}

/// The number that the decimal digits `s` write.
pub open spec fn digits_value(s: Seq<u8>) -> nat
    decreases s.len(),
{
    if s.len() == 0 {
        0
    } else {
        digits_value(s.drop_last()) * 10 + (s.last() - 48) as nat
    }
}

/// What follows an optional leading `+`.
pub open spec fn unsigned_part(s: Seq<u8>) -> Seq<u8> {
    if s.len() > 0 && s[0] == 43 {
        s.skip(1)
    } else {
        s
    }
}

/// The length that a `content-length` value declares: an optional `+`, then
/// one or more decimal digits and nothing else, writing a number that fits
/// `usize`.  Anything else declares nothing.
pub open spec fn content_length_value(s: Seq<u8>) -> Option<usize> {
    let digits = unsigned_part(s);
    if digits.len() > 0 && all_digits(digits) && digits_value(digits) <= usize::MAX {
        Some(digits_value(digits) as usize)
    } else {
        None
    }
}

/// A digit string is worth at least as much as each of its prefixes.
pub proof fn lemma_digits_value_grows(s: Seq<u8>, k: int)
    requires
        all_digits(s),
        0 <= k <= s.len(),
    ensures
        digits_value(s.take(k)) <= digits_value(s),
    decreases s.len() - k,
{
    if k == s.len() {
        assert(s.take(k) == s);
    } else {
        lemma_digits_value_grows(s, k + 1);
        assert(s.take(k + 1).drop_last() == s.take(k));
        assert(is_digit(s[k]));
    }
}

/// Parses a `content-length` header value.
pub fn parse_content_length(value: &[u8]) -> (r: Option<usize>)
    ensures
        r == content_length_value(value@),
{
    let n: usize = value.len();
    let start: usize = if n > 0 && value[0] == 43 { 1 } else { 0 };
    let ghost digits = unsigned_part(value@);
    assert(digits == value@.skip(start as int));
    if start == n {
        return None;
    }
    let mut acc: usize = 0;
    let mut i: usize = start;
    while i < n
        invariant
            start <= i <= n,
            n == value@.len(),
            digits == value@.skip(start as int),
            digits == unsigned_part(value@),
            all_digits(digits.take(i - start)),
            acc == digits_value(digits.take(i - start)),
        decreases n - i,
    {
        let b: u8 = value[i];
        assert(digits[i - start] == b);
        if b < 48 || b > 57 {
            assert(!is_digit(digits[i - start]));
            assert(!all_digits(digits));
            return None;
        }
        let d: usize = (b - 48) as usize;
        assert(digits.take(i - start + 1).drop_last() == digits.take(i - start));
        assert(digits.take(i - start + 1).last() == b);
        assert(all_digits(digits.take(i - start + 1))) by {
            assert forall|j: int| 0 <= j < i - start + 1 implies is_digit(
                #[trigger] digits.take(i - start + 1)[j],
            ) by {
                if j < i - start {
                    assert(digits.take(i - start)[j] == digits.take(i - start + 1)[j]);
                }
            }
        }
        assert(digits_value(digits.take(i - start + 1)) == acc * 10 + d);
        if acc > (usize::MAX - d) / 10 {
            proof {
                if all_digits(digits) {
                    lemma_digits_value_grows(digits, i - start + 1);
                }
            }
            return None;
        }
        acc = acc * 10 + d;
        i = i + 1;
    }
    assert(digits.take(n - start) == digits);
    Some(acc)
}

} // verus!
