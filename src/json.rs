//! A JSON document model for packet bodies.
use vstd::prelude::*;
use vstd::string::StrSliceExecFns;

verus! {

/// A JSON value as carried in a packet body.
///
/// Integers keep their sign class (`UInt` for values that are not negative,
/// `NegInt` for negative ones); a number with a fraction or an exponent is
/// kept as its decimal text.
#[derive(Debug)]
pub enum JsonValue {
    Null,
    Bool(bool),
    UInt(u64),
    NegInt(i64),
    Decimal(String),
    Str(String),
    Array(Vec<JsonValue>),
    Object(Vec<(String, JsonValue)>),
}

/// The mathematical value of a JSON document.
pub enum Json {
    Null,
    Bool(bool),
    Int(int),
    Decimal(Seq<char>),
    Str(Seq<char>),
    Array(Seq<Json>),
    Object(Seq<(Seq<char>, Json)>),
}

impl JsonValue {
    /// The value this document denotes; both integer variants denote an
    /// integer.
    pub open spec fn model(&self) -> Json
        decreases self,
    {
        match self {
            JsonValue::Null => Json::Null,
            JsonValue::Bool(b) => Json::Bool(*b),
            JsonValue::UInt(n) => Json::Int(*n as int),
            JsonValue::NegInt(n) => Json::Int(*n as int),
            JsonValue::Decimal(s) => Json::Decimal(s@),
            JsonValue::Str(s) => Json::Str(s@),
            JsonValue::Array(items) => Json::Array(
                Seq::new(
                    items@.len(),
                    |i: int|
                        if 0 <= i < items@.len() {
                            items@[i].model()
                        } else {
                            Json::Null
                        },
                ),
            ),
            JsonValue::Object(fields) => Json::Object(
                Seq::new(
                    fields@.len(),
                    |i: int|
                        if 0 <= i < fields@.len() {
                            (fields@[i].0@, fields@[i].1.model())
                        } else {
                            (Seq::empty(), Json::Null)
                        },
                ),
            ),
        }
    }
}

impl View for JsonValue {
    type V = Json;

    open spec fn view(&self) -> Json {
        self.model()
    }
}

/// The value of the first member of `fields` named `key`.
pub open spec fn member(fields: Seq<(Seq<char>, Json)>, key: Seq<char>) -> Option<Json>
    decreases fields.len(),
{
    if fields.len() == 0 {
        None
    } else if fields[0].0 == key {
        Some(fields[0].1)
    } else {
        member(fields.drop_first(), key)
    }
}

/// The members of an object, as values.
pub open spec fn members_model(fields: Seq<(String, JsonValue)>) -> Seq<(Seq<char>, Json)> {
    Seq::new(fields.len(), |i: int| (fields[i].0@, fields[i].1@))
}

/// The items of an array, as values.
pub open spec fn items_model(items: Seq<JsonValue>) -> Seq<Json> {
    Seq::new(items.len(), |i: int| items[i]@)
}

/// The member `key` of `j`, when `j` is an object that has one.
pub open spec fn json_member(j: Json, key: Seq<char>) -> Option<Json> {
    match j {
        Json::Object(fields) => member(fields, key),
        _ => None,
    }
}

/// `j` as a `u32`, when it is an integer in range.
pub open spec fn json_u32(j: Json) -> Option<u32> {
    match j {
        Json::Int(n) => if 0 <= n <= u32::MAX {
            Some(n as u32)
        } else {
            None
        },
        _ => None,
    }
}

/// `j` as a `u64`, when it is an integer in range.
pub open spec fn json_u64(j: Json) -> Option<u64> {
    match j {
        Json::Int(n) => if 0 <= n <= u64::MAX {
            Some(n as u64)
        } else {
            None
        },
        _ => None,
    }
}

/// `j` as a boolean.
pub open spec fn json_bool(j: Json) -> Option<bool> {
    match j {
        Json::Bool(b) => Some(b),
        _ => None,
    }
}

/// `j` as a string.
pub open spec fn json_str(j: Json) -> Option<Seq<char>> {
    match j {
        Json::Str(s) => Some(s),
        _ => None,
    }
}

pub proof fn lemma_object_model(fields: Vec<(String, JsonValue)>)
    ensures
        JsonValue::Object(fields)@ == Json::Object(members_model(fields@)),
{
    let j = JsonValue::Object(fields);
    if let Json::Object(m) = j.model() {
        assert(m =~= members_model(fields@));
    }
}

pub proof fn lemma_array_model(items: Vec<JsonValue>)
    ensures
        JsonValue::Array(items)@ == Json::Array(items_model(items@)),
{
    let j = JsonValue::Array(items);
    if let Json::Array(m) = j.model() {
        assert(m =~= items_model(items@));
    }
}

/// Looking a key up in a concatenation looks in the first part, then in the
/// second.
pub proof fn lemma_member_append(a: Seq<(Seq<char>, Json)>, b: Seq<(Seq<char>, Json)>, key: Seq<char>)
    ensures
        member(a + b, key) == (if member(a, key) is Some { member(a, key) } else { member(b, key) }),
    decreases a.len(),
{
    if a.len() > 0 {
        assert((a + b).drop_first() =~= a.drop_first() + b);
        lemma_member_append(a.drop_first(), b, key);
    } else {
        assert(a + b =~= b);
    }
}

/// Looking a key up after a push: an earlier member wins, else the pushed
/// one if it has the key.
pub broadcast proof fn lemma_member_push(
    fields: Seq<(Seq<char>, Json)>,
    entry: (Seq<char>, Json),
    key: Seq<char>,
)
    ensures
        #[trigger] member(fields.push(entry), key) == (if member(fields, key) is Some {
            member(fields, key)
        } else if entry.0 == key {
            Some(entry.1)
        } else {
            None
        }),
{
    let one = Seq::<(Seq<char>, Json)>::empty().push(entry);
    lemma_member_append(fields, one, key);
    assert(fields + one =~= fields.push(entry));
    assert(one.drop_first() =~= Seq::<(Seq<char>, Json)>::empty());
    assert(one[0] == entry);
    assert(member(one.drop_first(), key) is None);
    assert(member(one, key) == (if entry.0 == key { Some(entry.1) } else { None }));
}

/// Appends the member `key: value` to an object's members.
pub fn push_member(fields: &mut Vec<(String, JsonValue)>, key: &str, value: JsonValue)
    ensures
        members_model(final(fields)@) == members_model(old(fields)@).push((key@, value@)),
{
    let ghost v = value@;
    fields.push((String::from_str(key), value));
    assert(members_model(final(fields)@) =~= members_model(old(fields)@).push((key@, v)));
}

/// The member `key` of `v`, when `v` is an object that has one.
pub fn get_member<'a>(v: &'a JsonValue, key: &str) -> (r: Option<&'a JsonValue>)
    ensures
        match r {
            Some(x) => json_member(v@, key@) == Some(x@),
            None => json_member(v@, key@) is None,
        },
{
    match v {
        JsonValue::Object(fields) => {
            proof {
                lemma_object_model(*fields);
            }
            let ghost fs = members_model(fields@);
            assert(fs.subrange(0, fs.len() as int) =~= fs);
            assert(v@ == Json::Object(fs));
            let mut i: usize = 0;
            while i < fields.len()
                invariant
                    fs == members_model(fields@),
                    v@ == Json::Object(fs),
                    i <= fields@.len(),
                    member(fs, key@) == member(fs.subrange(i as int, fs.len() as int), key@),
                decreases fields.len() - i,
            {
                let ghost rest = fs.subrange(i as int, fs.len() as int);
                assert(rest.drop_first() =~= fs.subrange(i + 1, fs.len() as int));
                if str_eq(fields[i].0.as_str(), key) {
                    assert(rest[0] == fs[i as int]);
                    assert(fs[i as int] == (fields@[i as int].0@, fields@[i as int].1@));
                    assert(member(rest, key@) == Some(fields@[i as int].1@));
                    return Some(&fields[i].1);
                }
                i = i + 1;
            }
            None
        },
        _ => None,
    }
}

/// `v` as a `u32`, when it is an integer in range.
pub fn as_u32(v: &JsonValue) -> (r: Option<u32>)
    ensures
        r == json_u32(v@),
{
    match v {
        JsonValue::UInt(n) => if *n <= u32::MAX as u64 {
            Some(*n as u32)
        } else {
            None
        },
        JsonValue::NegInt(n) => if 0 <= *n && *n <= u32::MAX as i64 {
            Some(*n as u32)
        } else {
            None
        },
        _ => None,
    }
}

/// `v` as a `u64`, when it is an integer in range.
pub fn as_u64(v: &JsonValue) -> (r: Option<u64>)
    ensures
        r == json_u64(v@),
{
    match v {
        JsonValue::UInt(n) => Some(*n),
        JsonValue::NegInt(n) => if 0 <= *n {
            Some(*n as u64)
        } else {
            None
        },
        _ => None,
    }
}

/// `v` as a boolean.
pub fn as_bool(v: &JsonValue) -> (r: Option<bool>)
    ensures
        r == json_bool(v@),
{
    match v {
        JsonValue::Bool(b) => Some(*b),
        _ => None,
    }
}

/// A copy of `v` as a string.
pub fn as_string(v: &JsonValue) -> (r: Option<String>)
    ensures
        match r {
            Some(s) => json_str(v@) == Some(s@),
            None => json_str(v@) is None,
        },
{
    match v {
        JsonValue::Str(s) => Some(s.clone()),
        _ => None,
    }
}

/// Whether two strings hold the same characters.
pub fn str_eq(a: &str, b: &str) -> (r: bool)
    ensures
        r == (a@ == b@),
{
    let n = a.unicode_len();
    if n != b.unicode_len() {
        return false;
    }
    let mut i: usize = 0;
    while i < n
        invariant
            n == a@.len(),
            n == b@.len(),
            i <= n,
            a@.subrange(0, i as int) == b@.subrange(0, i as int),
        decreases n - i,
    {
        if a.get_char(i) != b.get_char(i) {
            return false;
        }
        assert(a@.subrange(0, i + 1) == a@.subrange(0, i as int).push(a@[i as int]));
        assert(b@.subrange(0, i + 1) == b@.subrange(0, i as int).push(b@[i as int]));
        i = i + 1;
    }
    assert(a@ == a@.subrange(0, n as int));
    assert(b@ == b@.subrange(0, n as int));
    true
}

} // verus!
