//! Default request headers and the map that carries them.
//!
//! The map is `http::HeaderMap`, and a request sends the headers in the
//! order in which the map yields them. The documentation of the map leaves
//! that order open. What is said of it here rests on the source of `http`
//! 0.2: the map yields its names in the order of an inner vector, an insert
//! puts a new name at the end of that vector and leaves a name that is
//! there in its place. Nothing is said here of a removal, which moves the
//! last name into the gap.

use http::HeaderMap;
use http::HeaderValue;
use vstd::prelude::*;

verus! {

/// `http::HeaderMap`: a map from header names to values. Nothing is known
/// of what is inside but through [`header_entries`].
#[verifier::external_type_specification]
#[verifier::external_body]
#[verifier::reject_recursive_types(T)]
pub struct ExHeaderMap<T>(http::HeaderMap<T>);

/// `http::HeaderValue`: the value of a header. Nothing is known of what is
/// inside.
#[verifier::external_type_specification]
#[verifier::external_body]
pub struct ExHeaderValue(http::HeaderValue);

/// What `HeaderMap::iter` yields, in the order in which it yields it: each
/// name, in lower case, with each of its values.
pub uninterp spec fn header_entries(map: HeaderMap<HeaderValue>) -> Seq<(Seq<char>, Seq<u8>)>;

/// A map that yields at most this many entries takes one more without
/// fail. `http` 0.2 refuses to grow a map only when its table has reached
/// 32768 slots, and then only at a load of a fifth (6554 names) or more.
pub const SURE_ROOM: usize = 6553;

/// Longest header name that this library inserts.
pub const MAX_NAME_LEN: usize = 64;

/// A character of a header name as this library writes them: a lower-case
/// letter, a digit or a hyphen.
pub open spec fn is_name_char(c: char) -> bool {
    ('a' <= c && c <= 'z') || ('0' <= c && c <= '9') || c == '-'
}

/// A header name as this library writes them: between 1 and 64 characters,
/// each a lower-case letter, a digit or a hyphen.
pub open spec fn is_header_name(name: Seq<char>) -> bool {
    &&& 1 <= name.len() <= MAX_NAME_LEN
    &&& forall|i: int| 0 <= i < name.len() ==> is_name_char(#[trigger] name[i])
}

/// A header value as this library writes them: printable ASCII.
pub open spec fn is_header_value(value: Seq<char>) -> bool {
    forall|i: int|
        0 <= i < value.len() ==> 32 <= (#[trigger] value[i]) as u32 && (value[i] as u32) < 127
}

/// The bytes of an ASCII text.
pub open spec fn ascii_bytes(text: Seq<char>) -> Seq<u8> {
    Seq::new(text.len(), |i: int| text[i] as u8)
}

/// Whether the entries hold the name.
pub open spec fn has_name(entries: Seq<(Seq<char>, Seq<u8>)>, name: Seq<char>) -> bool {
    exists|i: int| 0 <= i < entries.len() && (#[trigger] entries[i]).0 == name
}

/// The place of the first entry with the name.
pub open spec fn first_with_name(entries: Seq<(Seq<char>, Seq<u8>)>, name: Seq<char>) -> int {
    choose|i: int|
        0 <= i < entries.len() && (#[trigger] entries[i]).0 == name && forall|j: int|
            0 <= j < i ==> (#[trigger] entries[j]).0 != name
}

/// Whether an entry has another name than the given one.
pub open spec fn other_name(name: Seq<char>) -> spec_fn((Seq<char>, Seq<u8>)) -> bool {
    |e: (Seq<char>, Seq<u8>)| e.0 != name
}

/// The values that the entries hold under a name, in order.
pub open spec fn values_of(entries: Seq<(Seq<char>, Seq<u8>)>, name: Seq<char>) -> Seq<Seq<u8>>
    decreases entries.len(),
{
    if entries.len() == 0 {
        Seq::empty()
    } else if entries.last().0 == name {
        values_of(entries.drop_last(), name).push(entries.last().1)
    } else {
        values_of(entries.drop_last(), name)
    }
}

/// The entries after a value was inserted under a name. A new name goes to
/// the end. A name that is there keeps its place, and the value replaces
/// all the values that it had.
pub open spec fn entries_after_insert(
    entries: Seq<(Seq<char>, Seq<u8>)>,
    name: Seq<char>,
    value: Seq<u8>,
) -> Seq<(Seq<char>, Seq<u8>)> {
    if has_name(entries, name) {
        let at = first_with_name(entries, name);
        entries.take(at).push((name, value)) + entries.skip(at + 1).filter(other_name(name))
    } else {
        entries.push((name, value))
    }
}

/// The entries after each header of a list was inserted, in order.
pub open spec fn entries_after_all(
    entries: Seq<(Seq<char>, Seq<u8>)>,
    headers: Seq<(Seq<char>, Seq<char>)>,
) -> Seq<(Seq<char>, Seq<u8>)>
    decreases headers.len(),
{
    if headers.len() == 0 {
        entries
    } else {
        entries_after_insert(
            entries_after_all(entries, headers.drop_last()),
            headers.last().0,
            ascii_bytes(headers.last().1),
        )
    }
}

/// `HeaderMap::try_insert`, with a static name as the key and the value
/// made by `HeaderValue::from_static`. The name and the value are of the
/// plain kind above, which both functions accept as they stand. On
/// success the value has replaced every value of the name, in the name's
/// place, or the name was added at the end. The map refuses to grow past
/// its maximum size; then it is left as it was. It does not refuse while
/// it yields no more than [`SURE_ROOM`] entries.
#[verifier::external_body]
fn try_insert_static(
    map: &mut HeaderMap<HeaderValue>,
    name: &'static str,
    value: &'static str,
) -> (inserted: bool)
    requires
        is_header_name(name@),
        is_header_value(value@),
    ensures
        inserted ==> header_entries(*final(map)) == entries_after_insert(
            header_entries(*old(map)),
            name@,
            ascii_bytes(value@),
        ),
        !inserted ==> header_entries(*final(map)) == header_entries(*old(map)),
        header_entries(*old(map)).len() <= SURE_ROOM ==> inserted,
{
    map.try_insert(name, HeaderValue::from_static(value)).is_ok()
}

/// The map could not take all the headers: it had reached its maximum size
/// when `inserted` of them were in.
#[derive(Debug)]
pub struct HeaderMapFull {
    pub inserted: usize,
}

/// The texts of a list of headers.
pub open spec fn texts(headers: Seq<(&'static str, &'static str)>) -> Seq<(Seq<char>, Seq<char>)> {
    Seq::new(headers.len(), |i: int| (headers[i].0@, headers[i].1@))
}

/// Whether each header of a list has a plain name and a plain value.
pub open spec fn all_plain(headers: Seq<(Seq<char>, Seq<char>)>) -> bool {
    forall|i: int|
        0 <= i < headers.len() ==> is_header_name((#[trigger] headers[i]).0) && is_header_value(
            headers[i].1,
        )
}

/// Inserts the headers into the map, in order. Fails when the map refuses
/// one of them for want of room; those before it are then in the map. A
/// map in which the headers leave the entries within [`SURE_ROOM`] and one
/// takes them all.
pub(crate) fn insert_headers(
    map: &mut HeaderMap<HeaderValue>,
    headers: &Vec<(&'static str, &'static str)>,
) -> (r: Result<(), HeaderMapFull>)
    requires
        all_plain(texts(headers@)),
    ensures
        header_entries(*old(map)).len() + headers@.len() <= SURE_ROOM + 1 ==> r is Ok,
        match r {
            Ok(()) => header_entries(*final(map)) == entries_after_all(
                header_entries(*old(map)),
                texts(headers@),
            ),
            Err(full) => full.inserted < headers@.len() && header_entries(*final(map))
                == entries_after_all(
                header_entries(*old(map)),
                texts(headers@).take(full.inserted as int),
            ),
        },
{
    let ghost list = texts(headers@);
    let mut i: usize = 0;
    assert(list.take(0) =~= Seq::empty());
    while i < headers.len()
        invariant
            i <= headers@.len(),
            list == texts(headers@),
            all_plain(list),
            header_entries(*map) == entries_after_all(
                header_entries(*old(map)),
                list.take(i as int),
            ),
            header_entries(*map).len() <= header_entries(*old(map)).len() + i,
        decreases headers@.len() - i,
    {
        let (name, value) = headers[i];
        assert(list[i as int] == (name@, value@));
        let ghost before = header_entries(*map);
        if !try_insert_static(map, name, value) {
            return Err(HeaderMapFull { inserted: i });
        }
        proof {
            let next = list.take(i + 1);
            assert(next.drop_last() =~= list.take(i as int));
            assert(next.last() == list[i as int]);
            lemma_insert_adds_at_most_one(before, name@, ascii_bytes(value@));
        }
        i += 1;
    }
    assert(list.take(i as int) =~= list);
    Ok(())
}


/// Whether no two headers of a list have the same name.
pub open spec fn distinct_names(headers: Seq<(Seq<char>, Seq<char>)>) -> bool {
    forall|i: int, j: int|
        0 <= i < j < headers.len() ==> (#[trigger] headers[i]).0 != (#[trigger] headers[j]).0
}

/// The entries that a list of headers stands for: each name with the bytes
/// of its value, in the order of the list.
pub open spec fn written(headers: Seq<(Seq<char>, Seq<char>)>) -> Seq<(Seq<char>, Seq<u8>)> {
    Seq::new(headers.len(), |i: int| (headers[i].0, ascii_bytes(headers[i].1)))
}

/// Headers whose names the entries do not hold, and of which no two have
/// the same name, are added behind the entries, in their order.
pub proof fn lemma_new_headers_are_appended(
    entries: Seq<(Seq<char>, Seq<u8>)>,
    headers: Seq<(Seq<char>, Seq<char>)>,
)
    requires
        distinct_names(headers),
        forall|i: int| 0 <= i < headers.len() ==> !has_name(entries, (#[trigger] headers[i]).0),
    ensures
        entries_after_all(entries, headers) == entries + written(headers),
    decreases headers.len(),
{
    if headers.len() == 0 {
        assert(entries + written(headers) =~= entries);
    } else {
        let front = headers.drop_last();
        let last = headers.last();
        assert forall|i: int, j: int| 0 <= i < j < front.len() implies (#[trigger] front[i]).0 != (
        #[trigger] front[j]).0 by {
            assert(front[i] == headers[i] && front[j] == headers[j]);
        }
        assert forall|i: int| 0 <= i < front.len() implies !has_name(
            entries,
            (#[trigger] front[i]).0,
        ) by {
            assert(front[i] == headers[i]);
        }
        lemma_new_headers_are_appended(entries, front);
        let before = entries + written(front);
        if has_name(before, last.0) {
            let i = choose|i: int| 0 <= i < before.len() && (#[trigger] before[i]).0 == last.0;
            if i < entries.len() {
                assert(entries[i].0 == last.0);
                assert(has_name(entries, headers[headers.len() - 1].0));
            } else {
                let k = i - entries.len();
                assert(written(front)[k].0 == headers[k].0);
                assert(headers[k].0 != headers[headers.len() - 1].0);
            }
            assert(false);
        }
        assert(before.push((last.0, ascii_bytes(last.1))) =~= entries + written(headers));
    }
}


/// Where a name is among the entries, its first place is a place of the
/// entries, holds the name, and no place before it does.
pub proof fn lemma_first_with_name(entries: Seq<(Seq<char>, Seq<u8>)>, name: Seq<char>)
    requires
        has_name(entries, name),
    ensures
        0 <= first_with_name(entries, name) < entries.len(),
        entries[first_with_name(entries, name)].0 == name,
        forall|j: int|
            0 <= j < first_with_name(entries, name) ==> (#[trigger] entries[j]).0 != name,
{
    let k = choose|i: int| 0 <= i < entries.len() && (#[trigger] entries[i]).0 == name;
    lemma_first_below(entries, name, k);
}

/// At or below a place that holds the name there is a first such place.
proof fn lemma_first_below(entries: Seq<(Seq<char>, Seq<u8>)>, name: Seq<char>, k: int)
    requires
        0 <= k < entries.len(),
        entries[k].0 == name,
    ensures
        exists|i: int|
            0 <= i < entries.len() && (#[trigger] entries[i]).0 == name && forall|j: int|
                0 <= j < i ==> (#[trigger] entries[j]).0 != name,
    decreases k,
{
    if exists|j: int| 0 <= j < k && (#[trigger] entries[j]).0 == name {
        let j = choose|j: int| 0 <= j < k && (#[trigger] entries[j]).0 == name;
        lemma_first_below(entries, name, j);
    } else {
        assert(0 <= k < entries.len() && entries[k].0 == name && forall|j: int|
            0 <= j < k ==> (#[trigger] entries[j]).0 != name);
    }
}

/// An insert adds at most one entry.
pub proof fn lemma_insert_adds_at_most_one(
    entries: Seq<(Seq<char>, Seq<u8>)>,
    name: Seq<char>,
    value: Seq<u8>,
)
    ensures
        entries_after_insert(entries, name, value).len() <= entries.len() + 1,
{
    if has_name(entries, name) {
        lemma_first_with_name(entries, name);
        let at = first_with_name(entries, name);
        entries.skip(at + 1).lemma_filter_len(other_name(name));
    }
}

/// The values under a name in two runs of entries, one behind the other,
/// are those of the first followed by those of the second.
proof fn lemma_values_of_add(
    a: Seq<(Seq<char>, Seq<u8>)>,
    b: Seq<(Seq<char>, Seq<u8>)>,
    name: Seq<char>,
)
    ensures
        values_of(a + b, name) == values_of(a, name) + values_of(b, name),
    decreases b.len(),
{
    if b.len() == 0 {
        assert(a + b =~= a);
        assert(values_of(a, name) + values_of(b, name) =~= values_of(a, name));
    } else {
        assert((a + b).drop_last() =~= a + b.drop_last());
        assert((a + b).last() == b.last());
        lemma_values_of_add(a, b.drop_last(), name);
        assert(values_of(a + b, name) =~= values_of(a, name) + values_of(b, name));
    }
}

/// Entries hold no value under a name exactly when none of them has it.
proof fn lemma_values_of_absent(entries: Seq<(Seq<char>, Seq<u8>)>, name: Seq<char>)
    ensures
        values_of(entries, name).len() == 0 <==> !has_name(entries, name),
    decreases entries.len(),
{
    if entries.len() > 0 {
        let front = entries.drop_last();
        lemma_values_of_absent(front, name);
        if has_name(front, name) {
            let i = choose|i: int| 0 <= i < front.len() && (#[trigger] front[i]).0 == name;
            assert(entries[i].0 == name);
        }
        if has_name(entries, name) && entries.last().0 != name {
            let i = choose|i: int| 0 <= i < entries.len() && (#[trigger] entries[i]).0 == name;
            assert(front[i].0 == name);
        }
        if entries.last().0 == name {
            assert(entries[entries.len() - 1].0 == name);
        }
    }
}

/// Leaving out the entries of one name leaves out its values and keeps
/// those of every other name.
proof fn lemma_values_of_filter(
    entries: Seq<(Seq<char>, Seq<u8>)>,
    name: Seq<char>,
    other: Seq<char>,
)
    ensures
        values_of(entries.filter(other_name(name)), other) == if other == name {
            Seq::<Seq<u8>>::empty()
        } else {
            values_of(entries, other)
        },
    decreases entries.len(),
{
    reveal(Seq::filter);
    if entries.len() > 0 {
        let front = entries.drop_last();
        lemma_values_of_filter(front, name, other);
        if entries.last().0 != name {
            let kept = front.filter(other_name(name));
            assert(kept.push(entries.last()).drop_last() =~= kept);
        }
    }
}

/// Leaving out the entries of a name that none of them has leaves them all.
proof fn lemma_filter_keeps_all(entries: Seq<(Seq<char>, Seq<u8>)>, name: Seq<char>)
    requires
        !has_name(entries, name),
    ensures
        entries.filter(other_name(name)) == entries,
    decreases entries.len(),
{
    reveal(Seq::filter);
    if entries.len() > 0 {
        let front = entries.drop_last();
        if has_name(front, name) {
            let i = choose|i: int| 0 <= i < front.len() && (#[trigger] front[i]).0 == name;
            assert(entries[i].0 == name);
        }
        assert(entries[entries.len() - 1].0 != name);
        lemma_filter_keeps_all(front, name);
        assert(front.push(entries.last()) =~= entries);
    }
}

/// After an insert the name has the inserted value and no other, and every
/// other name has the values that it had.
pub proof fn lemma_insert_values(
    entries: Seq<(Seq<char>, Seq<u8>)>,
    name: Seq<char>,
    value: Seq<u8>,
    other: Seq<char>,
)
    ensures
        values_of(entries_after_insert(entries, name, value), other) == if other == name {
            seq![value]
        } else {
            values_of(entries, other)
        },
{
    let after = entries_after_insert(entries, name, value);
    if has_name(entries, name) {
        lemma_first_with_name(entries, name);
        let at = first_with_name(entries, name);
        let head = entries.take(at);
        let tail = entries.skip(at + 1);
        let kept = tail.filter(other_name(name));
        lemma_values_of_add(head.push((name, value)), kept, other);
        lemma_values_of_filter(tail, name, other);
        assert(head.push((name, value)).drop_last() =~= head);
        if other == name {
            if has_name(head, name) {
                let i = choose|i: int| 0 <= i < head.len() && (#[trigger] head[i]).0 == name;
                assert(entries[i].0 == name);
            }
            lemma_values_of_absent(head, name);
            assert(values_of(head, name) =~= Seq::<Seq<u8>>::empty());
            assert(values_of(after, other) =~= seq![value]);
        } else {
            let middle = seq![entries[at]];
            assert(entries =~= head + middle + tail);
            lemma_values_of_add(head + middle, tail, other);
            lemma_values_of_add(head, middle, other);
            assert(middle.drop_last() =~= Seq::<(Seq<char>, Seq<u8>)>::empty());
            assert(values_of(middle.drop_last(), other) =~= Seq::<Seq<u8>>::empty());
            assert(middle.last().0 == name);
            assert(values_of(middle, other) =~= Seq::<Seq<u8>>::empty());
            assert(values_of(after, other) =~= values_of(entries, other));
        }
    } else {
        assert(after.drop_last() =~= entries);
        if other == name {
            lemma_values_of_absent(entries, name);
            assert(values_of(after, other) =~= seq![value]);
        }
    }
}

/// Inserting under a name the one value that it has changes nothing.
pub proof fn lemma_insert_same_changes_nothing(
    entries: Seq<(Seq<char>, Seq<u8>)>,
    name: Seq<char>,
    value: Seq<u8>,
)
    requires
        values_of(entries, name) == seq![value],
    ensures
        entries_after_insert(entries, name, value) == entries,
{
    lemma_values_of_absent(entries, name);
    lemma_first_with_name(entries, name);
    let at = first_with_name(entries, name);
    let head = entries.take(at);
    let middle = seq![entries[at]];
    let tail = entries.skip(at + 1);
    assert(entries =~= head + middle + tail);
    lemma_values_of_add(head + middle, tail, name);
    lemma_values_of_add(head, middle, name);
    assert(middle.drop_last() =~= Seq::<(Seq<char>, Seq<u8>)>::empty());
    assert(values_of(middle, name) =~= seq![entries[at].1]);
    if has_name(head, name) {
        let i = choose|i: int| 0 <= i < head.len() && (#[trigger] head[i]).0 == name;
        assert(entries[i].0 == name);
    }
    lemma_values_of_absent(head, name);
    assert(values_of(head, name) =~= Seq::<Seq<u8>>::empty());
    assert(values_of(entries, name).len() == 1 + values_of(tail, name).len());
    lemma_values_of_absent(tail, name);
    lemma_filter_keeps_all(tail, name);
    assert(values_of(entries, name)[0] == entries[at].1);
    assert(entries[at] == (name, value));
    assert(entries_after_insert(entries, name, value) =~= entries);
}

/// After the headers of a list were inserted, each of their names has the
/// value of the list and no other, and every name that is not in the list
/// has the values that it had.
pub proof fn lemma_inserted_headers_are_present(
    entries: Seq<(Seq<char>, Seq<u8>)>,
    headers: Seq<(Seq<char>, Seq<char>)>,
)
    requires
        distinct_names(headers),
    ensures
        forall|i: int|
            0 <= i < headers.len() ==> values_of(
                entries_after_all(entries, headers),
                (#[trigger] headers[i]).0,
            ) == seq![ascii_bytes(headers[i].1)],
        forall|name: Seq<char>|
            (forall|i: int| 0 <= i < headers.len() ==> (#[trigger] headers[i]).0 != name)
                ==> #[trigger] values_of(entries_after_all(entries, headers), name) == values_of(
                entries,
                name,
            ),
    decreases headers.len(),
{
    if headers.len() > 0 {
        let front = headers.drop_last();
        let last = headers.last();
        let before = entries_after_all(entries, front);
        let after = entries_after_all(entries, headers);
        assert forall|i: int, j: int| 0 <= i < j < front.len() implies (#[trigger] front[i]).0 != (
        #[trigger] front[j]).0 by {
            assert(front[i] == headers[i] && front[j] == headers[j]);
        }
        lemma_inserted_headers_are_present(entries, front);
        assert forall|i: int| 0 <= i < headers.len() implies values_of(
            after,
            (#[trigger] headers[i]).0,
        ) == seq![ascii_bytes(headers[i].1)] by {
            lemma_insert_values(before, last.0, ascii_bytes(last.1), headers[i].0);
            if i < front.len() {
                assert(front[i] == headers[i]);
                assert(headers[i].0 != headers[headers.len() - 1].0);
            }
        }
        assert forall|name: Seq<char>|
            (forall|i: int|
                0 <= i < headers.len() ==> (#[trigger] headers[i]).0
                    != name) implies #[trigger] values_of(after, name) == values_of(
            entries,
            name,
        ) by {
            lemma_insert_values(before, last.0, ascii_bytes(last.1), name);
            assert(headers[headers.len() - 1].0 != name);
            assert forall|i: int| 0 <= i < front.len() implies (#[trigger] front[i]).0
                != name by {
                assert(front[i] == headers[i]);
            }
        }
    }
}

/// Entries in which each name of a list has the value of the list and no
/// other are left as they are when the headers of the list are inserted.
proof fn lemma_present_headers_change_nothing(
    entries: Seq<(Seq<char>, Seq<u8>)>,
    headers: Seq<(Seq<char>, Seq<char>)>,
)
    requires
        forall|i: int|
            0 <= i < headers.len() ==> values_of(entries, (#[trigger] headers[i]).0) == seq![
                ascii_bytes(headers[i].1),
            ],
    ensures
        entries_after_all(entries, headers) == entries,
    decreases headers.len(),
{
    if headers.len() > 0 {
        let front = headers.drop_last();
        assert forall|i: int| 0 <= i < front.len() implies values_of(
            entries,
            (#[trigger] front[i]).0,
        ) == seq![ascii_bytes(front[i].1)] by {
            assert(front[i] == headers[i]);
        }
        lemma_present_headers_change_nothing(entries, front);
        assert(values_of(entries, headers[headers.len() - 1].0) == seq![
            ascii_bytes(headers[headers.len() - 1].1),
        ]);
        lemma_insert_same_changes_nothing(
            entries,
            headers.last().0,
            ascii_bytes(headers.last().1),
        );
    }
}

/// Inserting a list of headers with distinct names a second time changes
/// nothing.
pub proof fn lemma_insert_twice_is_once(
    entries: Seq<(Seq<char>, Seq<u8>)>,
    headers: Seq<(Seq<char>, Seq<char>)>,
)
    requires
        distinct_names(headers),
    ensures
        entries_after_all(entries_after_all(entries, headers), headers) == entries_after_all(
            entries,
            headers,
        ),
{
    lemma_inserted_headers_are_present(entries, headers);
    lemma_present_headers_change_nothing(entries_after_all(entries, headers), headers);
}

} // verus!
