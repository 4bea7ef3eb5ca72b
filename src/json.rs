//! A plain JSON document model and the lookups that response reading needs.
use vstd::prelude::*;

verus! {

/// A JSON value. Numbers are integers, or `Fixed2`: a decimal number with
/// two fractional digits, held as hundredths.
#[derive(Debug)]
pub enum Json {
    Null,
    Bool(bool),
    Number(i128),
    Fixed2(i128),
    Str(String),
    Array(Vec<Json>),
    Object(Vec<(String, Json)>),
}

/// The value of the first entry under `key`.
pub open spec fn entries_lookup(entries: Seq<(String, Json)>, key: Seq<char>) -> Option<Json>
    decreases entries.len(),
{
    if entries.len() == 0 {
        None
    } else if entries[0].0@ == key {
        Some(entries[0].1)
    } else {
        entries_lookup(entries.drop_first(), key)
    }
}

/// The member `key` of an object; `None` for a missing member or a value that
/// is no object.
pub open spec fn json_get(j: Json, key: Seq<char>) -> Option<Json> {
    match j {
        Json::Object(entries) => entries_lookup(entries@, key),
        _ => None,
    }
}

/// The members of an object; none for any other value.
pub open spec fn object_entries(j: Json) -> Seq<(String, Json)> {
    match j {
        Json::Object(entries) => entries@,
        _ => Seq::empty(),
    }
}

pub open spec fn json_str(j: Option<Json>) -> Option<Seq<char>> {
    match j {
        Some(Json::Str(s)) => Some(s@),
        _ => None,
    }
}

pub open spec fn json_int(j: Option<Json>) -> Option<int> {
    match j {
        Some(Json::Number(n)) => Some(n as int),
        _ => None,
    }
}

/// The payload of a response: the member `value` where the body has one
/// (the wrapped envelope), else the body itself.
pub open spec fn unwrap_envelope(j: Json) -> Json {
    match json_get(j, "value"@) {
        Some(v) => v,
        None => j,
    }
}

impl Json {
    /// The member `key`, if this is an object that has one.
    pub fn get(&self, key: &str) -> (r: Option<&Json>)
        ensures
            match r {
                Some(v) => json_get(*self, key@) == Some(*v),
                None => json_get(*self, key@) is None,
            },
    {
        match self {
            Json::Object(entries) => {
                let k = String::from_str(key);
                let mut i: usize = 0;
                assert(entries@.subrange(0, entries@.len() as int) =~= entries@);
                assert(json_get(*self, key@) == entries_lookup(entries@, k@));
                while i < entries.len()
                    invariant
                        i <= entries.len(),
                        json_get(*self, key@) == entries_lookup(entries@, k@),
                        entries_lookup(entries@, k@) == entries_lookup(
                            entries@.subrange(i as int, entries@.len() as int),
                            k@,
                        ),
                    decreases entries.len() - i,
                {
                    let ghost rest = entries@.subrange(i as int, entries@.len() as int);
                    assert(rest.drop_first() =~= entries@.subrange(i + 1, entries@.len() as int));
                    assert(rest[0] == entries@[i as int]);
                    let e = &entries[i];
                    if e.0 == k {
                        assert(entries_lookup(rest, k@) == Some(e.1));
                        return Some(&e.1);
                    }
                    i += 1;
                }
                assert(entries@.subrange(i as int, entries@.len() as int).len() == 0);
                None
            },
            _ => None,
        }
    }

    pub fn as_str(&self) -> (r: Option<&String>)
        ensures
            match r {
                Some(s) => json_str(Some(*self)) == Some(s@),
                None => json_str(Some(*self)) is None,
            },
    {
        match self {
            Json::Str(s) => Some(s),
            _ => None,
        }
    }

    pub fn as_array(&self) -> (r: Option<&Vec<Json>>)
        ensures
            match r {
                Some(v) => *self == Json::Array(*v),
                None => !(*self is Array),
            },
    {
        match self {
            Json::Array(v) => Some(v),
            _ => None,
        }
    }

    pub fn as_int(&self) -> (r: Option<i128>)
        ensures
            match r {
                Some(n) => json_int(Some(*self)) == Some(n as int),
                None => json_int(Some(*self)) is None,
            },
    {
        match self {
            Json::Number(n) => Some(*n),
            _ => None,
        }
    }

    /// The payload of a response body.
    pub fn unwrap_envelope(&self) -> (r: &Json)
        ensures
            *r == unwrap_envelope(*self),
    {
        match self.get("value") {
            Some(v) => v,
            None => self,
        }
    }
}

} // verus!
