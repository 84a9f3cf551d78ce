use vstd::prelude::*;

verus! {

/// A number as it appears in a JSON document.
#[derive(Debug, PartialEq)]
pub enum JsonNumber {
    /// A non-negative integer that fits in `u64`.
    Unsigned(u64),
    /// A negative integer that fits in `i64`.
    Negative(i64),
    /// Any other number, kept as its decimal text.
    Decimal(String),
}

/// A dynamically shaped JSON value. Object entries keep their order.
#[derive(Debug, PartialEq)]
pub enum Json {
    Null,
    Bool(bool),
    Number(JsonNumber),
    Str(String),
    Array(Vec<Json>),
    Object(Vec<(String, Json)>),
}

/// The value stored under `key`; a later entry overrides an earlier one.
pub open spec fn field_in(entries: Seq<(String, Json)>, key: Seq<char>) -> Option<Json>
    decreases entries.len(),
{
    if entries.len() == 0 {
        None
    } else if entries.last().0@ == key {
        Some(entries.last().1)
    } else {
        field_in(entries.drop_last(), key)
    }
}

/// The value stored under `key` in an object; `None` for any other value.
pub open spec fn field(j: Json, key: Seq<char>) -> Option<Json> {
    match j {
        Json::Object(entries) => field_in(entries@, key),
        _ => None,
    }
}

/// A value found under a key is smaller than the entries that hold it.
pub proof fn lemma_field_in_decreases(entries: Seq<(String, Json)>, key: Seq<char>)
    ensures
        field_in(entries, key) matches Some(v) ==> decreases_to!(entries => v),
    decreases entries.len(),
{
    if entries.len() > 0 {
        let last = entries[entries.len() - 1];
        assert(decreases_to!(entries => last));
        assert(decreases_to!(last => last.1));
        if entries.last().0@ != key {
            lemma_field_in_decreases(entries.drop_last(), key);
            if field_in(entries, key) is Some {
                assert(decreases_to!(entries => entries.drop_last()));
            }
        }
    }
}

/// Removing an entry whose key differs from `key` leaves the lookup of `key` as it was.
proof fn lemma_field_in_remove_other(entries: Seq<(String, Json)>, i: int, key: Seq<char>)
    requires
        0 <= i < entries.len(),
        entries[i].0@ != key,
    ensures
        field_in(entries.remove(i), key) == field_in(entries, key),
    decreases entries.len(),
{
    if i < entries.len() - 1 {
        assert(entries.remove(i).drop_last() =~= entries.drop_last().remove(i));
        assert(entries.remove(i).last() == entries.last());
        if entries.last().0@ != key {
            lemma_field_in_remove_other(entries.drop_last(), i, key);
        }
    } else {
        assert(entries.remove(i) =~= entries.drop_last());
    }
}

/// Appends the entry `key: value` to the entries of an object.
pub fn put(entries: &mut Vec<(String, Json)>, key: &str, value: Json)
    ensures
        forall|k: Seq<char>|
            #[trigger] field_in(final(entries)@, k) == if k == key@ {
                Some(value)
            } else {
                field_in(old(entries)@, k)
            },
{
    let ghost before = entries@;
    let k = key.to_string();
    proof {
        vstd::string::to_string_from_display_ensures_for_str(key, k);
    }
    entries.push((k, value));
    assert(entries@.drop_last() =~= before);
}

/// Whether `s` spells out `text`.
pub fn text_is(s: &String, text: &str) -> (r: bool)
    ensures
        r == (s@ == text@),
{
    let t = text.to_string();
    proof {
        vstd::string::to_string_from_display_ensures_for_str(text, t);
    }
    *s == t
}

/// Takes the value stored under `key` out of the entries of an object.
pub fn take_field(entries: &mut Vec<(String, Json)>, key: &str) -> (r: Option<Json>)
    ensures
        r == field_in(old(entries)@, key@),
        forall|other: Seq<char>|
            other != key@ ==> #[trigger] field_in(final(entries)@, other) == field_in(old(entries)@, other),
{
    let mut i: usize = entries.len();
    assert(entries@.subrange(0, i as int) =~= entries@);
    while i > 0
        invariant
            i <= entries.len(),
            entries@ == old(entries)@,
                        field_in(entries@, key@) == field_in(entries@.subrange(0, i as int), key@),
        decreases i,
    {
        if text_is(&entries[i - 1].0, key) {
            let ghost before = entries@;
            proof {
                assert(before.subrange(0, i as int).last() == before[i - 1]);
                assert forall|other: Seq<char>| other != key@ implies
                    field_in(before.remove(i - 1), other) == field_in(before, other) by {
                    lemma_field_in_remove_other(before, i - 1, other);
                }
            }
            let (_, value) = entries.remove(i - 1);
            return Some(value);
        }
        assert(entries@.subrange(0, i - 1) =~= entries@.subrange(0, i as int).drop_last());
        i = i - 1;
    }
    None
}

/// A string value.
pub open spec fn as_string(f: Option<Json>) -> Option<String> {
    match f {
        Some(Json::Str(s)) => Some(s),
        _ => None,
    }
}

/// An optional string: absent and `null` both stand for `None`.
pub open spec fn as_opt_string(f: Option<Json>) -> Option<Option<String>> {
    match f {
        None => Some(None),
        Some(Json::Null) => Some(None),
        Some(Json::Str(s)) => Some(Some(s)),
        _ => None,
    }
}

/// A non-negative integer that fits in `u64`.
pub open spec fn as_u64(f: Option<Json>) -> Option<u64> {
    match f {
        Some(Json::Number(JsonNumber::Unsigned(n))) => Some(n),
        _ => None,
    }
}

/// A boolean value.
pub open spec fn as_bool(f: Option<Json>) -> Option<bool> {
    match f {
        Some(Json::Bool(b)) => Some(b),
        _ => None,
    }
}

/// An optional number: absent and `null` both stand for `None`.
pub open spec fn as_opt_number(f: Option<Json>) -> Option<Option<JsonNumber>> {
    match f {
        None => Some(None),
        Some(Json::Null) => Some(None),
        Some(Json::Number(n)) => Some(Some(n)),
        _ => None,
    }
}

/// An optional array: absent and `null` both stand for `None`.
pub open spec fn as_opt_array(f: Option<Json>) -> Option<Option<Vec<Json>>> {
    match f {
        None => Some(None),
        Some(Json::Null) => Some(None),
        Some(Json::Array(items)) => Some(Some(items)),
        _ => None,
    }
}

/// `strings` holds exactly the string items of `items`, in order.
pub open spec fn strings_match(items: Seq<Json>, strings: Seq<String>) -> bool {
    &&& items.len() == strings.len()
    &&& forall|i: int| 0 <= i < items.len() ==> items[i] == Json::Str(#[trigger] strings[i])
}

pub fn string_of(f: Option<Json>) -> (r: Option<String>)
    ensures
        r == as_string(f),
{
    match f {
        Some(Json::Str(s)) => Some(s),
        _ => None,
    }
}

pub fn opt_string_of(f: Option<Json>) -> (r: Option<Option<String>>)
    ensures
        r == as_opt_string(f),
{
    match f {
        None => Some(None),
        Some(Json::Null) => Some(None),
        Some(Json::Str(s)) => Some(Some(s)),
        _ => None,
    }
}

pub fn u64_of(f: Option<Json>) -> (r: Option<u64>)
    ensures
        r == as_u64(f),
{
    match f {
        Some(Json::Number(JsonNumber::Unsigned(n))) => Some(n),
        _ => None,
    }
}

pub fn bool_of(f: Option<Json>) -> (r: Option<bool>)
    ensures
        r == as_bool(f),
{
    match f {
        Some(Json::Bool(b)) => Some(b),
        _ => None,
    }
}

pub fn opt_number_of(f: Option<Json>) -> (r: Option<Option<JsonNumber>>)
    ensures
        r == as_opt_number(f),
{
    match f {
        None => Some(None),
        Some(Json::Null) => Some(None),
        Some(Json::Number(n)) => Some(Some(n)),
        _ => None,
    }
}

pub fn opt_array_of(f: Option<Json>) -> (r: Option<Option<Vec<Json>>>)
    ensures
        r == as_opt_array(f),
{
    match f {
        None => Some(None),
        Some(Json::Null) => Some(None),
        Some(Json::Array(items)) => Some(Some(items)),
        _ => None,
    }
}

/// An array holding each string as a string item, in order.
pub fn strings_into_json(strings: Vec<String>) -> (r: Vec<Json>)
    ensures
        strings_match(r@, strings@),
{
    let ghost all = strings@;
    let mut rest = strings;
    let mut out: Vec<Json> = Vec::new();
    while rest.len() > 0
        invariant
            all == strings@,
            out@.len() + rest@.len() == all.len(),
            rest@ == all.subrange(out@.len() as int, all.len() as int),
            forall|i: int| 0 <= i < out@.len() ==> out@[i] == Json::Str(#[trigger] all[i]),
        decreases rest.len(),
    {
        let ghost k = out@.len() as int;
        let s = rest.remove(0);
        assert(s == all[k]);
        out.push(Json::Str(s));
        assert(rest@ =~= all.subrange(out@.len() as int, all.len() as int));
    }
    out
}

/// The strings of an array whose items are all strings.
pub fn strings_of(items: Vec<Json>) -> (r: Option<Vec<String>>)
    ensures
        match r {
            Some(strings) => strings_match(items@, strings@),
            None => forall|strings: Seq<String>| !strings_match(items@, strings),
        },
{
    let ghost all = items@;
    let mut rest = items;
    let mut out: Vec<String> = Vec::new();
    while rest.len() > 0
        invariant
            all == items@,
            out@.len() + rest@.len() == all.len(),
            rest@ == all.subrange(out@.len() as int, all.len() as int),
            forall|i: int| 0 <= i < out@.len() ==> all[i] == Json::Str(#[trigger] out@[i]),
        decreases rest.len(),
    {
        let item = rest.remove(0);
        assert(item == all[out@.len() as int]);
        assert(out@.len() < all.len());
        if let Json::Str(s) = item {
            out.push(s);
        } else {
            let ghost k = out@.len() as int;
            assert(0 <= k < all.len());
            assert forall|strings: Seq<String>| !strings_match(items@, strings) by {
                if strings_match(items@, strings) {
                    assert(items@[k] == Json::Str(strings[k]));
                }
            }
            return None;
        }
        assert(rest@ =~= all.subrange(out@.len() as int, all.len() as int));
    }
    Some(out)
}

} // verus!
