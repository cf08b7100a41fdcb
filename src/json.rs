//! A JSON document held as plain values, and the lookups that decoders use
//! on it.

use vstd::prelude::*;

verus! {

/// A JSON number as it appeared in a document.
#[derive(Debug, PartialEq)]
pub enum JsonNumber {
    /// A non-negative integer.
    Unsigned(u64),
    /// A negative integer.
    Signed(i64),
    /// Any other number, kept as its decimal text.
    Other(String),
}

/// A JSON document.
///
/// Object members keep the order of the document; decoders look a member up
/// by the first entry with that key.
#[derive(Debug, PartialEq)]
pub enum JsonValue {
    /// `null`.
    Null,
    /// `true` or `false`.
    Bool(bool),
    /// A number.
    Number(JsonNumber),
    /// A string.
    Str(String),
    /// An array.
    Array(Vec<JsonValue>),
    /// An object, as its members in order.
    Object(Vec<(String, JsonValue)>),
}

/// The value of the first member of `members` whose key is `key`.
pub open spec fn lookup(members: Seq<(String, JsonValue)>, key: Seq<char>) -> Option<JsonValue>
    decreases members.len(),
{
    if members.len() == 0 {
        None
    } else if members[0].0@ == key {
        Some(members[0].1)
    } else {
        lookup(members.drop_first(), key)
    }
}

/// The member named `key` of an object; `None` for any other value.
pub open spec fn member(j: JsonValue, key: Seq<char>) -> Option<JsonValue> {
    match j {
        JsonValue::Object(members) => lookup(members@, key),
        _ => None,
    }
}

/// Removing a member with another key leaves the lookup of `k` unchanged.
proof fn lemma_lookup_remove(m: Seq<(String, JsonValue)>, i: int, k: Seq<char>)
    requires
        0 <= i < m.len(),
        m[i].0@ != k,
    ensures
        lookup(m.remove(i), k) == lookup(m, k),
    decreases i,
{
    if i == 0 {
        assert(m.remove(0) =~= m.drop_first());
    } else {
        assert(m.remove(i).drop_first() =~= m.drop_first().remove(i - 1));
        lemma_lookup_remove(m.drop_first(), i - 1, k);
    }
}

/// A lookup that skips a non-matching first member.
proof fn lemma_lookup_step(m: Seq<(String, JsonValue)>, i: int, k: Seq<char>)
    requires
        0 <= i < m.len(),
        m[i].0@ != k,
    ensures
        lookup(m.subrange(i, m.len() as int), k) == lookup(m.subrange(i + 1, m.len() as int), k),
{
    assert(m.subrange(i, m.len() as int).drop_first() =~= m.subrange(i + 1, m.len() as int));
}

/// Whether two texts are equal, character by character.
pub fn str_eq(a: &str, b: &str) -> (r: bool)
    ensures
        r == (a@ == b@),
{
    let n = a.unicode_len();
    if n != b.unicode_len() {
        return false;
    }
    let mut i: usize = 0;
    while i < n
        invariant
            n == a@.len(),
            n == b@.len(),
            i <= n,
            a@.subrange(0, i as int) == b@.subrange(0, i as int),
        decreases n - i,
    {
        if a.get_char(i) != b.get_char(i) {
            return false;
        }
        assert(a@.subrange(0, i + 1) == a@.subrange(0, i as int).push(a@[i as int]));
        assert(b@.subrange(0, i + 1) == b@.subrange(0, i as int).push(b@[i as int]));
        i = i + 1;
    }
    assert(a@ == a@.subrange(0, n as int));
    assert(b@ == b@.subrange(0, n as int));
    true
}

/// The value of the first member of `members` whose key is `key`.
pub fn find_member<'a>(members: &'a Vec<(String, JsonValue)>, key: &str) -> (r: Option<
    &'a JsonValue,
>)
    ensures
        match r {
            Some(v) => lookup(members@, key@) == Some(*v),
            None => lookup(members@, key@) is None,
        },
{
    let mut i: usize = 0;
    assert(members@.subrange(0, members@.len() as int) =~= members@);
    while i < members.len()
        invariant
            i <= members@.len(),
            lookup(members@, key@) == lookup(members@.subrange(i as int, members@.len() as int), key@),
        decreases members.len() - i,
    {
        if str_eq(members[i].0.as_str(), key) {
            return Some(&members[i].1);
        }
        proof {
            lemma_lookup_step(members@, i as int, key@);
        }
        i = i + 1;
    }
    None
}

/// Removes the first member whose key is `key` and returns its value; the
/// lookup of every other key is unchanged.
pub fn take_member(members: &mut Vec<(String, JsonValue)>, key: &str) -> (r: Option<JsonValue>)
    ensures
        r == lookup(old(members)@, key@),
        forall|k: Seq<char>|
            k != key@ ==> #[trigger] lookup(final(members)@, k) == lookup(old(members)@, k),
{
    let mut i: usize = 0;
    assert(members@.subrange(0, members@.len() as int) =~= members@);
    while i < members.len()
        invariant
            i <= members@.len(),
            members@ == old(members)@,
            lookup(members@, key@) == lookup(members@.subrange(i as int, members@.len() as int), key@),
        decreases members.len() - i,
    {
        if str_eq(members[i].0.as_str(), key) {
            let ghost m = members@;
            proof {
                assert forall|k: Seq<char>| k != key@ implies lookup(m.remove(i as int), k) == lookup(
                    m,
                    k,
                ) by {
                    lemma_lookup_remove(m, i as int, k);
                }
            }
            let (_, v) = members.remove(i);
            return Some(v);
        }
        proof {
            lemma_lookup_step(members@, i as int, key@);
        }
        i = i + 1;
    }
    None
}

/// The member named `key` of `j` when `j` is an object.
pub fn get_member<'a>(j: &'a JsonValue, key: &str) -> (r: Option<&'a JsonValue>)
    ensures
        match r {
            Some(v) => member(*j, key@) == Some(*v),
            None => member(*j, key@) is None,
        },
{
    match j {
        JsonValue::Object(members) => find_member(members, key),
        _ => None,
    }
}

/// Values that can be decoded from a JSON document.
///
/// `decodes_to(j, v)` says that `v` is the decoding of `j`, and
/// `decodable(j)` that `j` has the expected shape.
pub trait FromJson: Sized {
    spec fn decodes_to(j: JsonValue, v: Self) -> bool;

    spec fn decodable(j: JsonValue) -> bool;

    /// Decodes `j`, or returns `None` when it does not have the expected shape.
    fn from_json(j: JsonValue) -> (r: Option<Self>)
        ensures
            match r {
                Some(v) => Self::decodable(j) && Self::decodes_to(j, v),
                None => !Self::decodable(j),
            },
    ;
}

/// A document kept as it is: every document decodes to itself.
impl FromJson for JsonValue {
    open spec fn decodes_to(j: JsonValue, v: Self) -> bool {
        v == j
    }

    open spec fn decodable(j: JsonValue) -> bool {
        true
    }

    fn from_json(j: JsonValue) -> (r: Option<Self>) {
        Some(j)
    }
}

/// Whether every item decodes as a `T`.
pub open spec fn all_decodable<T: FromJson>(items: Seq<JsonValue>) -> bool {
    forall|i: int| 0 <= i < items.len() ==> T::decodable(#[trigger] items[i])
}

/// Whether `v` holds the decodings of `items`, one for one.
pub open spec fn all_decode_to<T: FromJson>(items: Seq<JsonValue>, v: Seq<T>) -> bool {
    items.len() == v.len() && forall|i: int| 0 <= i < v.len() ==> T::decodes_to(items[i], #[trigger] v[i])
}

/// A sequence decodes from an array whose every item decodes.
impl<T: FromJson> FromJson for Vec<T> {
    open spec fn decodes_to(j: JsonValue, v: Self) -> bool {
        match j {
            JsonValue::Array(items) => all_decode_to::<T>(items@, v@),
            _ => false,
        }
    }

    open spec fn decodable(j: JsonValue) -> bool {
        match j {
            JsonValue::Array(items) => all_decodable::<T>(items@),
            _ => false,
        }
    }

    fn from_json(j: JsonValue) -> (r: Option<Self>) {
        match j {
            JsonValue::Array(items) => {
                let ghost orig = items@;
                assert(Self::decodable(j) == all_decodable::<T>(orig));
                assert(forall|v: Self| Self::decodes_to(j, v) == all_decode_to::<T>(orig, v@));
                let mut rest = items;
                let mut out: Vec<T> = Vec::new();
                while rest.len() > 0
                    invariant
                        Self::decodable(j) == all_decodable::<T>(orig),
                        orig.len() == out@.len() + rest@.len(),
                        rest@ == orig.subrange(out@.len() as int, orig.len() as int),
                        forall|i: int|
                            0 <= i < out@.len() ==> T::decodes_to(orig[i], #[trigger] out@[i])
                                && T::decodable(orig[i]),
                    decreases rest.len(),
                {
                    let ghost k = out@.len() as int;
                    let item = rest.remove(0);
                    assert(item == orig[k]);
                    match T::from_json(item) {
                        Some(v) => out.push(v),
                        None => {
                            assert(!T::decodable(orig[k]));
                            assert(!all_decodable::<T>(orig));
                            return None;
                        },
                    }
                }
                assert forall|i: int| 0 <= i < orig.len() implies T::decodable(#[trigger] orig[i]) by {
                    assert(T::decodes_to(orig[i], out@[i]));
                }
                Some(out)
            }
            _ => None,
        }
    }
}

} // verus!

verus! {

/// The value of an optional member, with a missing member read as `null`.
pub open spec fn or_null(m: Option<JsonValue>) -> JsonValue {
    match m {
        Some(v) => v,
        None => JsonValue::Null,
    }
}

/// A string decodes from a JSON string.
impl FromJson for String {
    open spec fn decodes_to(j: JsonValue, v: Self) -> bool {
        j == JsonValue::Str(v)
    }

    open spec fn decodable(j: JsonValue) -> bool {
        j is Str
    }

    fn from_json(j: JsonValue) -> (r: Option<Self>) {
        match j {
            JsonValue::Str(s) => Some(s),
            _ => None,
        }
    }
}

/// An optional value: `null` gives `None`, anything else must decode as a `T`.
impl<T: FromJson> FromJson for Option<T> {
    open spec fn decodes_to(j: JsonValue, v: Self) -> bool {
        match v {
            None => j is Null,
            Some(x) => !(j is Null) && T::decodes_to(j, x),
        }
    }

    open spec fn decodable(j: JsonValue) -> bool {
        j is Null || T::decodable(j)
    }

    fn from_json(j: JsonValue) -> (r: Option<Self>) {
        match j {
            JsonValue::Null => Some(None),
            other => match T::from_json(other) {
                Some(x) => Some(Some(x)),
                None => None,
            },
        }
    }
}

/// Whether every member value decodes as a `T`.
pub open spec fn map_decodable<T: FromJson>(ms: Seq<(String, JsonValue)>) -> bool {
    forall|i: int| 0 <= i < ms.len() ==> T::decodable(#[trigger] ms[i].1)
}

/// Whether some member of `s` has the key `k`.
pub open spec fn has_key<A>(s: Seq<(String, A)>, k: Seq<char>) -> bool {
    exists|i: int| 0 <= i < s.len() && (#[trigger] s[i]).0@ == k
}

/// Whether no two members of `s` have the same key.
pub open spec fn unique_keys<A>(s: Seq<(String, A)>) -> bool {
    forall|i: int, j: int| 0 <= i < j < s.len() ==> (#[trigger] s[i]).0@ != (#[trigger] s[j]).0@
}

/// The members of `s` whose key has not appeared before, in order: the first
/// member with each key wins, as in [lookup].
pub open spec fn first_members<A>(s: Seq<(String, A)>) -> Seq<(String, A)>
    decreases s.len(),
{
    if s.len() == 0 {
        s
    } else {
        let p = first_members(s.drop_last());
        if has_key(s.drop_last(), s.last().0@) {
            p
        } else {
            p.push(s.last())
        }
    }
}

/// The first members have the same keys as all members, each once.
pub proof fn lemma_first_members<A>(s: Seq<(String, A)>)
    ensures
        forall|k: Seq<char>| #[trigger] has_key(first_members(s), k) == has_key(s, k),
        unique_keys(first_members(s)),
    decreases s.len(),
{
    if s.len() > 0 {
        let t = s.drop_last();
        let l = s.last();
        let p = first_members(t);
        lemma_first_members(t);
        assert forall|k: Seq<char>| has_key(s, k) == (has_key(t, k) || l.0@ == k) by {
            if has_key(s, k) {
                let i = choose|i: int| 0 <= i < s.len() && (#[trigger] s[i]).0@ == k;
                if i < s.len() - 1 {
                    assert(t[i] == s[i]);
                }
            }
            if has_key(t, k) {
                let i = choose|i: int| 0 <= i < t.len() && (#[trigger] t[i]).0@ == k;
                assert(s[i] == t[i]);
            }
            if l.0@ == k {
                assert(s[s.len() - 1] == l);
            }
        }
        if !has_key(t, l.0@) {
            let q = p.push(l);
            assert forall|k: Seq<char>| has_key(q, k) == (has_key(p, k) || l.0@ == k) by {
                if has_key(q, k) {
                    let i = choose|i: int| 0 <= i < q.len() && (#[trigger] q[i]).0@ == k;
                    if i < q.len() - 1 {
                        assert(p[i] == q[i]);
                    }
                }
                if has_key(p, k) {
                    let i = choose|i: int| 0 <= i < p.len() && (#[trigger] p[i]).0@ == k;
                    assert(q[i] == p[i]);
                }
                if l.0@ == k {
                    assert(q[q.len() - 1] == l);
                }
            }
            assert forall|i: int, j: int| 0 <= i < j < q.len() implies (#[trigger] q[i]).0@ != (
            #[trigger] q[j]).0@ by {
                if j == q.len() - 1 {
                    assert(q[i] == p[i]);
                    if q[i].0@ == l.0@ {
                        assert(has_key(p, l.0@));
                    }
                } else {
                    assert(q[i] == p[i] && q[j] == p[j]);
                }
            }
        }
    }
}

/// Whether `v` holds the members `ms`, one for one, each value decoded as a `T`.
pub open spec fn pairs_decode_to<T: FromJson>(ms: Seq<(String, JsonValue)>, v: Seq<(String, T)>) -> bool {
    ms.len() == v.len() && forall|i: int|
        0 <= i < v.len() ==> (#[trigger] v[i]).0 == ms[i].0 && T::decodes_to(ms[i].1, v[i].1)
}

/// Whether `v` holds the first member with each key of `ms`, in order, each
/// value decoded as a `T`.
pub open spec fn map_decodes_to<T: FromJson>(ms: Seq<(String, JsonValue)>, v: Seq<(String, T)>) -> bool {
    pairs_decode_to::<T>(first_members(ms), v)
}

/// A decoded map holds each key once.
pub proof fn lemma_decoded_keys_unique<T: FromJson>(ms: Seq<(String, JsonValue)>, v: Seq<(String, T)>)
    requires
        map_decodes_to::<T>(ms, v),
    ensures
        unique_keys(v),
        forall|k: Seq<char>| #[trigger] has_key(v, k) == has_key(ms, k),
{
    lemma_first_members(ms);
    lemma_same_keys::<T>(first_members(ms), v);
}

/// Sequences that match one for one have the same keys.
pub proof fn lemma_same_keys<T: FromJson>(ms: Seq<(String, JsonValue)>, v: Seq<(String, T)>)
    requires
        pairs_decode_to::<T>(ms, v),
    ensures
        forall|k: Seq<char>| #[trigger] has_key(v, k) == has_key(ms, k),
        unique_keys(ms) ==> unique_keys(v),
{
    assert forall|k: Seq<char>| #[trigger] has_key(v, k) == has_key(ms, k) by {
        if has_key(v, k) {
            let i = choose|i: int| 0 <= i < v.len() && (#[trigger] v[i]).0@ == k;
            assert(ms[i].0 == v[i].0);
        }
        if has_key(ms, k) {
            let i = choose|i: int| 0 <= i < ms.len() && (#[trigger] ms[i]).0@ == k;
            assert(ms[i].0 == v[i].0);
        }
    }
    if unique_keys(ms) {
        assert forall|i: int, j: int| 0 <= i < j < v.len() implies (#[trigger] v[i]).0@ != (
        #[trigger] v[j]).0@ by {
            assert(ms[i].0 == v[i].0 && ms[j].0 == v[j].0);
        }
    }
}

/// Whether some member of `pairs` has the key `key`.
pub fn contains_key<T>(pairs: &Vec<(String, T)>, key: &str) -> (r: bool)
    ensures
        r == has_key(pairs@, key@),
{
    let mut i: usize = 0;
    while i < pairs.len()
        invariant
            i <= pairs@.len(),
            forall|k: int| 0 <= k < i ==> (#[trigger] pairs@[k]).0@ != key@,
        decreases pairs.len() - i,
    {
        if str_eq(pairs[i].0.as_str(), key) {
            return true;
        }
        i = i + 1;
    }
    false
}

/// Whether an optional map member is `null` or an object whose values all decode.
pub open spec fn opt_map_decodable<T: FromJson>(j: JsonValue) -> bool {
    match j {
        JsonValue::Null => true,
        JsonValue::Object(ms) => map_decodable::<T>(ms@),
        _ => false,
    }
}

/// Whether `v` is the decoding of an optional map member.
pub open spec fn opt_map_decodes_to<T: FromJson>(j: JsonValue, v: Option<Vec<(String, T)>>) -> bool {
    match j {
        JsonValue::Null => v is None,
        JsonValue::Object(ms) => match v {
            Some(m) => map_decodes_to::<T>(ms@, m@),
            None => false,
        },
        _ => false,
    }
}

/// Decodes the members of an object, each value as a `T`, keeping their
/// order. Every value must decode; of members with the same key the first
/// is kept, so the keys of the result are unique.
pub fn decode_map<T: FromJson>(members: Vec<(String, JsonValue)>) -> (r: Option<Vec<(String, T)>>)
    ensures
        match r {
            Some(v) => map_decodable::<T>(members@) && map_decodes_to::<T>(members@, v@)
                && unique_keys(v@),
            None => !map_decodable::<T>(members@),
        },
{
    let ghost orig = members@;
    let mut rest = members;
    let mut out: Vec<(String, T)> = Vec::new();
    let ghost mut k: int = 0;
    assert(orig.subrange(0, 0) =~= Seq::<(String, JsonValue)>::empty());
    while rest.len() > 0
        invariant
            orig == members@,
            0 <= k <= orig.len(),
            orig.len() == k + rest@.len(),
            rest@ == orig.subrange(k, orig.len() as int),
            forall|i: int| 0 <= i < k ==> T::decodable(#[trigger] orig[i].1),
            pairs_decode_to::<T>(first_members(orig.subrange(0, k)), out@),
        decreases rest.len(),
    {
        let ghost prefix = orig.subrange(0, k);
        let ghost next = orig.subrange(0, k + 1);
        let (key, value) = rest.remove(0);
        assert(next.drop_last() =~= prefix);
        assert(next[k] == orig[k]);
        proof {
            lemma_first_members(prefix);
            lemma_same_keys::<T>(first_members(prefix), out@);
        }
        match T::from_json(value) {
            Some(v) => {
                if !contains_key(&out, key.as_str()) {
                    out.push((key, v));
                }
            },
            None => {
                assert(!T::decodable(orig[k].1));
                return None;
            },
        }
        proof {
            k = k + 1;
        }
    }
    assert(orig.subrange(0, k) =~= orig);
    proof {
        lemma_first_members(orig);
        lemma_same_keys::<T>(first_members(orig), out@);
    }
    Some(out)
}

/// Decodes an optional map member: `null` gives `None`, an object its members.
pub fn decode_opt_map<T: FromJson>(j: JsonValue) -> (r: Option<Option<Vec<(String, T)>>>)
    ensures
        match r {
            Some(v) => opt_map_decodable::<T>(j) && opt_map_decodes_to::<T>(j, v),
            None => !opt_map_decodable::<T>(j),
        },
{
    match j {
        JsonValue::Null => Some(None),
        JsonValue::Object(members) => match decode_map::<T>(members) {
            Some(m) => Some(Some(m)),
            None => None,
        },
        _ => None,
    }
}

/// Takes the member `key` out of `members`, reading a missing member as `null`.
pub fn take_or_null(members: &mut Vec<(String, JsonValue)>, key: &str) -> (r: JsonValue)
    ensures
        r == or_null(lookup(old(members)@, key@)),
        forall|k: Seq<char>|
            k != key@ ==> #[trigger] lookup(final(members)@, k) == lookup(old(members)@, k),
{
    match take_member(members, key) {
        Some(v) => v,
        None => JsonValue::Null,
    }
}

} // verus!

verus! {

/// The members of `j` when it is an object.
pub fn into_members(j: JsonValue) -> (r: Option<Vec<(String, JsonValue)>>)
    ensures
        match r {
            Some(ms) => j is Object && forall|k: Seq<char>| #[trigger] member(j, k) == lookup(ms@, k),
            None => !(j is Object),
        },
{
    match j {
        JsonValue::Object(members) => Some(members),
        _ => None,
    }
}

} // verus!

verus! {

/// A non-negative JSON integer.
impl FromJson for u64 {
    open spec fn decodes_to(j: JsonValue, v: Self) -> bool {
        j == JsonValue::Number(JsonNumber::Unsigned(v))
    }

    open spec fn decodable(j: JsonValue) -> bool {
        j matches JsonValue::Number(JsonNumber::Unsigned(_))
    }

    fn from_json(j: JsonValue) -> (r: Option<Self>) {
        match j {
            JsonValue::Number(JsonNumber::Unsigned(n)) => Some(n),
            _ => None,
        }
    }
}

/// A non-negative JSON integer below 256.
impl FromJson for u8 {
    open spec fn decodes_to(j: JsonValue, v: Self) -> bool {
        j == JsonValue::Number(JsonNumber::Unsigned(v as u64))
    }

    open spec fn decodable(j: JsonValue) -> bool {
        j matches JsonValue::Number(JsonNumber::Unsigned(n)) && n < 256
    }

    fn from_json(j: JsonValue) -> (r: Option<Self>) {
        match j {
            JsonValue::Number(JsonNumber::Unsigned(n)) => if n < 256 {
                Some(n as u8)
            } else {
                None
            },
            _ => None,
        }
    }
}

} // verus!
