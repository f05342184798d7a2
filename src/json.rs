//! A JSON document tree, the unit every protocol message is built from.
use vstd::prelude::*;

verus! {

/// One JSON value. Integers that fit in `i64` are held as such; any other
/// number keeps its decimal text so that it passes through unchanged.
/// Object members keep their order; a lookup takes the first member with
/// the key.
#[derive(Debug, PartialEq, Eq)]
pub enum JsonValue {
    Null,
    Bool(bool),
    Integer(i64),
    OtherNumber(String),
    Text(String),
    Array(Vec<JsonValue>),
    Object(Vec<(String, JsonValue)>),
}

/// The value of the first member of `fields` whose key is `key`.
pub open spec fn lookup(fields: Seq<(String, JsonValue)>, key: Seq<char>) -> Option<JsonValue>
    decreases fields.len(),
{
    if fields.len() == 0 {
        None
    } else if fields[0].0@ == key {
        Some(fields[0].1)
    } else {
        lookup(fields.drop_first(), key)
    }
}

/// Looking up a key after appending a member: the earlier members still
/// come first.
pub proof fn lemma_lookup_push(s: Seq<(String, JsonValue)>, k: String, v: JsonValue, key: Seq<char>)
    ensures
        lookup(s.push((k, v)), key) == (match lookup(s, key) {
            Some(x) => Some(x),
            None => if k@ == key {
                Some(v)
            } else {
                None
            },
        }),
    decreases s.len(),
{
    if s.len() > 0 {
        lemma_lookup_push(s.drop_first(), k, v, key);
        assert(s.push((k, v)).drop_first() =~= s.drop_first().push((k, v)));
    } else {
        assert(s.push((k, v)).drop_first() =~= s);
    }
}

/// Appends the member `key: value` to an object's members.
pub fn push_member(f: &mut Vec<(String, JsonValue)>, key: &str, value: JsonValue)
    ensures
        final(f)@ == old(f)@.push((final(f)@.last().0, value)),
        final(f)@.last().0@ == key@,
        forall|q: Seq<char>|
            #![trigger lookup(final(f)@, q)]
            lookup(final(f)@, q) == (match lookup(old(f)@, q) {
                Some(x) => Some(x),
                None => if q == key@ {
                    Some(value)
                } else {
                    None
                },
            }),
{
    let k = key.to_string();
    let ghost kk = k;
    f.push((k, value));
    assert forall|q: Seq<char>| #![trigger lookup(f@, q)] lookup(f@, q) == (match lookup(old(f)@, q) {
        Some(x) => Some(x),
        None => if q == key@ {
            Some(value)
        } else {
            None
        },
    }) by {
        lemma_lookup_push(old(f)@, kk, value, q);
    }
}

/// Whether the string `k` is the key `name`.
pub fn key_is(k: &String, name: &str) -> (r: bool)
    ensures
        r == (k@ == name@),
{
    let n = name.to_string();
    *k == n
}

/// Splits an object's members into the values of the given keys: entry `j`
/// of the result is the value of the first member keyed `names[j]`.
pub fn take_fields(fields: Vec<(String, JsonValue)>, names: &Vec<&str>) -> (r: Vec<Option<JsonValue>>)
    requires
        forall|a: int, b: int|
            0 <= a < b < names@.len() ==> names@[a]@ != names@[b]@,
    ensures
        r@.len() == names@.len(),
        forall|j: int| 0 <= j < names@.len() ==> r@[j] == lookup(fields@, names@[j]@),
{
    let ghost orig = fields@;
    let mut rest = fields;
    let mut r: Vec<Option<JsonValue>> = Vec::new();
    let mut j: usize = 0;
    while j < names.len()
        invariant
            j <= names@.len(),
            r@.len() == j,
            forall|k: int| 0 <= k < j ==> r@[k] is None,
        decreases names@.len() - j,
    {
        r.push(None);
        j = j + 1;
    }
    assert(orig.subrange(orig.len() as int, orig.len() as int) =~= Seq::<(String, JsonValue)>::empty());
    while rest.len() > 0
        invariant
            rest@.len() <= orig.len(),
            rest@ == orig.subrange(0, rest@.len() as int),
            r@.len() == names@.len(),
            forall|a: int, b: int|
                0 <= a < b < names@.len() ==> names@[a]@ != names@[b]@,
            forall|k: int|
                0 <= k < names@.len() ==> r@[k] == lookup(
                    orig.subrange(rest@.len() as int, orig.len() as int),
                    names@[k]@,
                ),
        decreases rest@.len(),
    {
        let ghost n = rest@.len() as int;
        let last = rest.pop().unwrap();
        let ghost tail = orig.subrange(n - 1, orig.len() as int);
        assert(tail.drop_first() =~= orig.subrange(n, orig.len() as int));
        assert(tail[0] == last);
        let (key, value) = last;
        let mut k: usize = 0;
        let mut found: bool = false;
        while k < names.len() && !found
            invariant
                k <= names@.len(),
                found ==> k > 0 && key@ == names@[k - 1]@,
                !found ==> forall|m: int| 0 <= m < k ==> key@ != names@[m]@,
            decreases names@.len() - k,
        {
            found = key_is(&key, names[k]);
            k = k + 1;
        }
        if found {
            r.set(k - 1, Some(value));
        }
        assert forall|m: int| 0 <= m < names@.len() implies r@[m] == lookup(tail, names@[m]@) by {
            if key@ == names@[m]@ {
                if !found {
                    assert(key@ != names@[m]@);
                }
            }
        }
    }
    assert(orig.subrange(0, orig.len() as int) =~= orig);
    r
}

} // verus!
