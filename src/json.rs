use vstd::prelude::*;

verus! {

#[verifier::external_type_specification]
#[verifier::external_body]
pub struct ExJsonValue(serde_json::Value);

#[verifier::external_type_specification]
#[verifier::external_body]
pub struct ExJsonError(serde_json::Error);

/// A JSON value, with the parts that the protocol reads held as plain values.
#[derive(Debug, PartialEq)]
pub enum Json {
    Null,
    Bool(bool),
    /// A number that fits an `i64`.
    Int(i64),
    Str(String),
    /// The members of an object. serde_json reads them sorted by name and
    /// writes them sorted by name, whatever their order here.
    Object(Vec<(String, Json)>),
    /// Any other value (an array, a fraction, a number past `i64`), carried as is.
    Other(serde_json::Value),
}

/// The value of the last member named `key`, as a JSON object reads it.
pub open spec fn field(entries: Seq<(String, Json)>, key: Seq<char>) -> Option<Json>
    decreases entries.len(),
{
    if entries.len() == 0 {
        None
    } else if entries.last().0@ == key {
        Some(entries.last().1)
    } else {
        field(entries.drop_last(), key)
    }
}

/// The value that serde_json reads from a text, if the text is JSON.
pub uninterp spec fn parsed_json_text(text: Seq<char>) -> Option<Json>;

/// The indented text that serde_json writes for a value.
pub uninterp spec fn pretty_json_text(j: Json) -> Seq<char>;

/// Relies on `serde_json::from_str` into a `serde_json::Value`: it fails
/// exactly on texts that are not JSON, and depends on the text alone.
#[verifier::external_body]
pub(crate) fn parse_json_text(text: &str) -> (r: Result<Json, serde_json::Error>)
    ensures
        r is Ok <==> parsed_json_text(text@) is Some,
        r is Ok ==> parsed_json_text(text@) == Some(r->Ok_0),
{
    serde_json::from_str::<serde_json::Value>(text).map(json_of_value)
}

/// Relies on `serde_json::to_string_pretty` on a `serde_json::Value`, which
/// cannot fail: every key of a `Value` is a string.
#[verifier::external_body]
pub(crate) fn write_json_text(j: &Json) -> (r: Result<String, serde_json::Error>)
    ensures
        r is Ok,
        r is Ok ==> r->Ok_0@ == pretty_json_text(*j),
{
    serde_json::to_string_pretty(&value_of_json(j))
}

/// The compact text that serde_json writes for a value.
pub uninterp spec fn compact_json_text(j: Json) -> Seq<char>;

/// Relies on `serde_json::to_string` on a `serde_json::Value`, which cannot
/// fail: every key of a `Value` is a string.
#[verifier::external_body]
pub(crate) fn write_compact_json_text(j: &Json) -> (r: Result<String, serde_json::Error>)
    ensures
        r is Ok,
        r is Ok ==> r->Ok_0@ == compact_json_text(*j),
{
    serde_json::to_string(&value_of_json(j))
}

/// Converts serde_json's value into the library's, variant by variant.
#[verifier::external_body]
fn json_of_value(v: serde_json::Value) -> Json {
    match v {
        serde_json::Value::Null => Json::Null,
        serde_json::Value::Bool(b) => Json::Bool(b),
        serde_json::Value::Number(n) => match n.as_i64() {
            Some(i) => Json::Int(i),
            None => Json::Other(serde_json::Value::Number(n)),
        },
        serde_json::Value::String(s) => Json::Str(s),
        serde_json::Value::Object(m) => Json::Object(m.into_iter().map(|(k, x)| (k, json_of_value(x))).collect()),
        other => Json::Other(other),
    }
}

/// Converts the library's value into serde_json's, variant by variant.
#[verifier::external_body]
fn value_of_json(j: &Json) -> serde_json::Value {
    match j {
        Json::Null => serde_json::Value::Null,
        Json::Bool(b) => serde_json::Value::Bool(*b),
        Json::Int(i) => serde_json::Value::from(*i),
        Json::Str(s) => serde_json::Value::String(s.clone()),
        Json::Object(es) => serde_json::Value::Object(es.iter().map(|(k, x)| (k.clone(), value_of_json(x))).collect()),
        Json::Other(v) => v.clone(),
    }
}

/// Whether `k` spells `name`.
pub fn key_is(k: &String, name: &str) -> (r: bool)
    ensures
        r == (k@ == name@),
{
    let n = name.to_owned();
    *k == n
}

/// A member named `key` holding `value`.
pub fn member(key: &str, value: Json) -> (r: (String, Json))
    ensures
        r.0@ == key@,
        r.1 == value,
{
    (key.to_owned(), value)
}

/// A JSON string holding the characters of `s`.
pub fn text(s: &str) -> (r: Json)
    ensures
        r is Str,
        r->Str_0@ == s@,
{
    Json::Str(s.to_owned())
}


/// A required string member.
pub open spec fn string_member(es: Seq<(String, Json)>, key: Seq<char>) -> Option<Seq<char>> {
    match field(es, key) {
        Some(Json::Str(s)) => Some(s@),
        _ => None,
    }
}

/// A required integer member.
pub open spec fn int_member(es: Seq<(String, Json)>, key: Seq<char>) -> Option<i64> {
    match field(es, key) {
        Some(Json::Int(n)) => Some(n),
        _ => None,
    }
}

/// A count that defaults to 0 when the member is absent; `None` when it is
/// malformed or out of the range of `i32`.
pub open spec fn count_member(es: Seq<(String, Json)>, key: Seq<char>) -> Option<i32> {
    match field(es, key) {
        None => Some(0i32),
        Some(Json::Int(n)) => if i32::MIN <= n <= i32::MAX {
            Some(n as i32)
        } else {
            None
        },
        _ => None,
    }
}

/// A flag that defaults to `false` when the member is absent; `None` when it
/// is malformed.
pub open spec fn flag_member(es: Seq<(String, Json)>, key: Seq<char>) -> Option<bool> {
    match field(es, key) {
        None => Some(false),
        Some(Json::Bool(b)) => Some(b),
        _ => None,
    }
}

/// An optional string member: absent or `null` reads as `Some(None)`;
/// `None` when it is malformed.
pub open spec fn optional_string_member(es: Seq<(String, Json)>, key: Seq<char>) -> Option<
    Option<Seq<char>>,
> {
    match field(es, key) {
        None => Some(None),
        Some(Json::Null) => Some(None),
        Some(Json::Str(s)) => Some(Some(s@)),
        _ => None,
    }
}

/// A member absent from `es` reads the same after more members are added in
/// front of them.
pub proof fn lemma_field_append(a: Seq<(String, Json)>, b: Seq<(String, Json)>, key: Seq<char>)
    ensures
        field(a + b, key) == (if field(b, key) is Some {
            field(b, key)
        } else {
            field(a, key)
        }),
    decreases b.len(),
{
    if b.len() == 0 {
        assert(a + b =~= a);
    } else {
        assert((a + b).drop_last() =~= a + b.drop_last());
        lemma_field_append(a, b.drop_last(), key);
    }
}

/// A sequence whose members all pass `pred` is its own filter.
pub proof fn lemma_filter_all(s: Seq<(String, Json)>, pred: spec_fn((String, Json)) -> bool)
    requires
        forall|i: int| 0 <= i < s.len() ==> #[trigger] pred(s[i]),
    ensures
        s.filter(pred) == s,
    decreases s.len(),
{
    reveal(Seq::filter);
    if s.len() > 0 {
        lemma_filter_all(s.drop_last(), pred);
        assert(s.drop_last().push(s.last()) =~= s);
    }
}

/// A sequence whose members all fail `pred` filters to nothing.
pub proof fn lemma_filter_none(s: Seq<(String, Json)>, pred: spec_fn((String, Json)) -> bool)
    requires
        forall|i: int| 0 <= i < s.len() ==> !#[trigger] pred(s[i]),
    ensures
        s.filter(pred) == Seq::<(String, Json)>::empty(),
    decreases s.len(),
{
    reveal(Seq::filter);
    if s.len() > 0 {
        lemma_filter_none(s.drop_last(), pred);
    }
}

/// No member of `s` is named `key`.
pub proof fn lemma_field_absent(s: Seq<(String, Json)>, key: Seq<char>)
    requires
        forall|i: int| 0 <= i < s.len() ==> (#[trigger] s[i]).0@ != key,
    ensures
        field(s, key) is None,
    decreases s.len(),
{
    if s.len() > 0 {
        lemma_field_absent(s.drop_last(), key);
    }
}


/// Whether `k` is one of `names`.
pub open spec fn is_named(names: Seq<&'static str>, k: Seq<char>) -> bool {
    exists|j: int| 0 <= j < names.len() && (#[trigger] names[j])@ == k
}

/// No two of `names` are spelled alike.
pub open spec fn distinct_names(names: Seq<&'static str>) -> bool {
    forall|i: int, j: int|
        0 <= i < names.len() && 0 <= j < names.len() && i != j ==> (#[trigger] names[i])@
            != (#[trigger] names[j])@
}

/// Splits the members of an object into the value read for each of `names`
/// and, in order, the members named otherwise.
pub fn split_members(es: Vec<(String, Json)>, names: &Vec<&'static str>) -> (r: (
    Vec<Option<Json>>,
    Vec<(String, Json)>,
))
    requires
        distinct_names(names@),
    ensures
        r.0@.len() == names@.len(),
        forall|j: int| 0 <= j < names@.len() ==> r.0@[j] == field(es@, (#[trigger] names@[j])@),
        r.1@ == es@.filter(|e: (String, Json)| !is_named(names@, e.0@)),
{
    let ghost all = es@;
    let ghost pred = |e: (String, Json)| !is_named(names@, e.0@);
    let mut es = es;
    let mut slots: Vec<Option<Json>> = Vec::new();
    let mut n: usize = 0;
    while n < names.len()
        invariant
            n <= names@.len(),
            slots@.len() == n,
            forall|j: int| 0 <= j < n ==> slots@[j] is None,
        decreases names@.len() - n,
    {
        slots.push(None);
        n = n + 1;
    }
    let mut rest: Vec<(String, Json)> = Vec::new();
    let ghost mut i: int = 0;
    proof {
        reveal(Seq::filter);
        assert(all.subrange(0, 0) =~= Seq::<(String, Json)>::empty());
    }
    while es.len() > 0
        invariant
            0 <= i <= all.len(),
            es@ == all.subrange(i, all.len() as int),
            slots@.len() == names@.len(),
            distinct_names(names@),
            pred == (|e: (String, Json)| !is_named(names@, e.0@)),
            forall|j: int|
                0 <= j < names@.len() ==> slots@[j] == field(
                    all.subrange(0, i),
                    (#[trigger] names@[j])@,
                ),
            rest@ == all.subrange(0, i).filter(pred),
        decreases es.len(),
    {
        let e = es.remove(0);
        proof {
            assert(e == all[i]);
            assert(all.subrange(0, i + 1).drop_last() =~= all.subrange(0, i));
            assert(all.subrange(0, i + 1) =~= all.subrange(0, i).push(e));
            all.subrange(0, i).lemma_filter_push(e, pred);
        }
        let (k, v) = e;
        let mut at: usize = names.len();
        let mut j: usize = 0;
        while j < names.len()
            invariant
                j <= names@.len(),
                at == names@.len() || (at < j && names@[at as int]@ == k@),
                at == names@.len() ==> forall|m: int| 0 <= m < j ==> (#[trigger] names@[m])@ != k@,
            decreases names@.len() - j,
        {
            if at == names.len() && key_is(&k, names[j]) {
                at = j;
            }
            j = j + 1;
        }
        if at < names.len() {
            slots[at] = Some(v);
            proof {
                assert forall|m: int| 0 <= m < names@.len() implies slots@[m] == field(
                    all.subrange(0, i + 1),
                    (#[trigger] names@[m])@,
                ) by {
                    if m != at {
                        assert(names@[m]@ != names@[at as int]@);
                    }
                }
                assert(is_named(names@, k@));
            }
        } else {
            rest.push((k, v));
            proof {
                assert(!is_named(names@, k@));
            }
        }
        proof {
            i = i + 1;
            assert(es@ =~= all.subrange(i, all.len() as int));
        }
    }
    proof {
        assert(all.subrange(0, all.len() as int) =~= all);
    }
    (slots, rest)
}


/// The characters of an optional string.
pub open spec fn opt_view(o: Option<String>) -> Option<Seq<char>> {
    match o {
        Some(s) => Some(s@),
        None => None,
    }
}

/// A required string.
pub fn read_string(j: Option<Json>) -> (r: Option<String>)
    ensures
        opt_view(r) == (match j {
            Some(Json::Str(s)) => Some(s@),
            _ => None,
        }),
{
    match j {
        Some(Json::Str(s)) => Some(s),
        _ => None,
    }
}

/// A required integer.
pub fn read_int(j: Option<Json>) -> (r: Option<i64>)
    ensures
        r == (match j {
            Some(Json::Int(n)) => Some(n),
            _ => None,
        }),
{
    match j {
        Some(Json::Int(n)) => Some(n),
        _ => None,
    }
}

/// A flag that defaults to `false`.
pub fn read_flag(j: Option<Json>) -> (r: Option<bool>)
    ensures
        forall|es: Seq<(String, Json)>, k: Seq<char>| field(es, k) == j ==> r == flag_member(es, k),
{
    match j {
        None => Some(false),
        Some(Json::Bool(b)) => Some(b),
        _ => None,
    }
}

/// A string that may be absent or `null`.
pub fn read_optional_string(j: Option<Json>) -> (r: Option<Option<String>>)
    ensures
        forall|es: Seq<(String, Json)>, k: Seq<char>|
            field(es, k) == j ==> (r is Some <==> optional_string_member(es, k) is Some) && (
            r is Some ==> opt_view(r->Some_0) == optional_string_member(es, k)->Some_0),
{
    match j {
        None => Some(None),
        Some(Json::Null) => Some(None),
        Some(Json::Str(s)) => Some(Some(s)),
        _ => None,
    }
}

/// The next value read off the end of `slots`.
pub fn take_last(slots: &mut Vec<Option<Json>>) -> (r: Option<Json>)
    requires
        old(slots)@.len() > 0,
    ensures
        r == old(slots)@.last(),
        final(slots)@ == old(slots)@.drop_last(),
{
    match slots.pop() {
        Some(x) => x,
        None => None,
    }
}

/// No two members share a name.
pub open spec fn keys_distinct(es: Seq<(String, Json)>) -> bool {
    forall|i: int, j: int| 0 <= i < j < es.len() ==> (#[trigger] es[i]).0@ != (#[trigger] es[j]).0@
}

/// Whether no two members share a name.
pub fn distinct_keys(es: &Vec<(String, Json)>) -> (r: bool)
    ensures
        r == keys_distinct(es@),
{
    let mut i: usize = 0;
    while i < es.len()
        invariant
            i <= es@.len(),
            forall|a: int, b: int|
                0 <= a < b < es@.len() && a < i ==> (#[trigger] es@[a]).0@ != (#[trigger] es@[b]).0@,
        decreases es@.len() - i,
    {
        let mut j: usize = i + 1;
        while j < es.len()
            invariant
                i < es@.len(),
                i + 1 <= j <= es@.len(),
                forall|a: int, b: int|
                    0 <= a < b < es@.len() && a < i ==> (#[trigger] es@[a]).0@ != (#[trigger] es@[b]).0@,
                forall|b: int| i < b < j ==> es@[i as int].0@ != (#[trigger] es@[b]).0@,
            decreases es@.len() - j,
        {
            if es[i].0 == es[j].0 {
                proof {
                    assert(es@[i as int].0@ == es@[j as int].0@);
                }
                return false;
            }
            j = j + 1;
        }
        i = i + 1;
    }
    true
}

/// In members named, in order, by distinct `names`, each name reads its own
/// member, and the names past the last member read nothing.
pub proof fn lemma_fields_in_order(es: Seq<(String, Json)>, names: Seq<&'static str>)
    requires
        es.len() <= names.len(),
        forall|j: int| 0 <= j < es.len() ==> (#[trigger] es[j]).0@ == names[j]@,
        distinct_names(names),
    ensures
        forall|j: int| 0 <= j < es.len() ==> field(es, (#[trigger] names[j])@) == Some(es[j].1),
        forall|j: int| es.len() <= j < names.len() ==> field(es, (#[trigger] names[j])@) is None,
    decreases es.len(),
{
    if es.len() > 0 {
        let n = es.len() - 1;
        let front = es.drop_last();
        assert forall|j: int| 0 <= j < front.len() implies (#[trigger] front[j]).0@ == names[j]@ by {
            assert(front[j] == es[j]);
        }
        lemma_fields_in_order(front, names);
        assert forall|j: int| 0 <= j < names.len() && j != n implies field(es, (#[trigger] names[j])@)
            == field(front, names[j]@) by {
            assert(names[j]@ != names[n]@);
        }
        assert forall|j: int| 0 <= j < es.len() implies field(es, (#[trigger] names[j])@) == Some(
            es[j].1,
        ) by {
            if j != n {
                assert(front[j] == es[j]);
                assert(field(front, names[j]@) == Some(front[j].1));
            }
        }
        assert forall|j: int| es.len() <= j < names.len() implies field(es, (#[trigger] names[j])@)
            is None by {
            assert(field(front, names[j]@) is None);
        }
    }
}

} // verus!
