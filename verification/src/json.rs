use vstd::prelude::*;

verus! {

/// One decoded line of the external tool's output stream, held as plain
/// values. Numbers are carried as a bare marker: nothing the bridge reads
/// looks inside them.
pub enum Json {
    Null,
    Bool(bool),
    Num,
    Str(String),
    Arr(Vec<Json>),
    Obj(Vec<(String, Json)>),
}

/// The value under `key` among object entries: the first entry with that key.
pub open spec fn entries_get(entries: Seq<(String, Json)>, key: Seq<char>) -> Option<Json>
    decreases entries.len(),
{
    if entries.len() == 0 {
        None
    } else if entries[0].0@ == key {
        Some(entries[0].1)
    } else {
        entries_get(entries.drop_first(), key)
    }
}

/// Field lookup: a value only on an object that has the key.
pub open spec fn get_field(j: Json, key: Seq<char>) -> Option<Json> {
    match j {
        Json::Obj(entries) => entries_get(entries@, key),
        _ => None,
    }
}

/// A field that is present and holds a string.
pub open spec fn str_field(j: Json, key: Seq<char>) -> Option<Seq<char>> {
    match get_field(j, key) {
        Some(v) => match v {
            Json::Str(s) => Some(s@),
            _ => None,
        },
        None => None,
    }
}

/// Character-for-character string equality, decided against the views.
pub fn str_eq(a: &str, b: &str) -> (r: bool)
    ensures
        r == (a@ == b@),
{
    let la = a.unicode_len();
    let lb = b.unicode_len();
    if la != lb {
        return false;
    }
    let mut i: usize = 0;
    while i < la
        invariant
            la == a@.len(),
            la == b@.len(),
            i <= la,
            forall|k: int| 0 <= k < i ==> a@[k] == b@[k],
        decreases la - i,
    {
        if a.get_char(i) != b.get_char(i) {
            return false;
        }
        i = i + 1;
    }
    proof {
        assert(a@ =~= b@);
    }
    true
}

impl Json {
    /// Field lookup on an object: the first entry whose key matches.
    pub fn get<'a>(&'a self, key: &str) -> (r: Option<&'a Json>)
        ensures
            match r {
                Some(v) => get_field(*self, key@) == Some(*v),
                None => get_field(*self, key@) is None,
            },
    {
        match self {
            Json::Obj(entries) => {
                let n = entries.len();
                let mut i: usize = 0;
                proof {
                    assert(entries@.skip(0) =~= entries@);
                }
                while i < n
                    invariant
                        n == entries@.len(),
                        i <= n,
                        get_field(*self, key@) == entries_get(entries@, key@),
                        entries_get(entries@, key@) == entries_get(
                            entries@.skip(i as int),
                            key@,
                        ),
                    decreases n - i,
                {
                    let e = &entries[i];
                    proof {
                        assert(entries@.skip(i as int)[0] == entries@[i as int]);
                    }
                    if str_eq(e.0.as_str(), key) {
                        proof {
                            assert(entries@.skip(i as int).len() > 0);
                            assert(entries_get(entries@.skip(i as int), key@) == Some(
                                entries@[i as int].1,
                            ));
                            assert(get_field(*self, key@) == entries_get(entries@, key@));
                            assert(e.1 == entries@[i as int].1);
                        }
                        return Some(&e.1);
                    }
                    proof {
                        assert(entries@.skip(i as int).drop_first() =~= entries@.skip(
                            i as int + 1,
                        ));
                    }
                    i = i + 1;
                }
                proof {
                    assert(entries@.skip(n as int) =~= Seq::<(String, Json)>::empty());
                }
                None
            },
            _ => None,
        }
    }

    /// A field that is present and holds a string.
    pub fn get_str<'a>(&'a self, key: &str) -> (r: Option<&'a String>)
        ensures
            match r {
                Some(s) => str_field(*self, key@) == Some(s@),
                None => str_field(*self, key@) is None,
            },
    {
        match self.get(key) {
            Some(v) => match v {
                Json::Str(s) => Some(s),
                _ => None,
            },
            None => None,
        }
    }
}

#[verifier::external_type_specification]
#[verifier::external_body]
pub struct ExValue(serde_json::Value);

/// What decoding one line of the stream yields in the library's model:
/// a value exactly when the line is valid JSON.
pub uninterp spec fn json_of_line(line: Seq<char>) -> Option<Json>;

/// Carries a decoded `serde_json::Value` into the library's model, one
/// variant to one variant; the number's value is dropped, as nothing here
/// reads it. Only `parse_line` uses this.
#[verifier::external_body]
fn value_to_json(v: serde_json::Value) -> Json {
    match v {
        serde_json::Value::Null => Json::Null,
        serde_json::Value::Bool(b) => Json::Bool(b),
        serde_json::Value::Number(_) => Json::Num,
        serde_json::Value::String(s) => Json::Str(s),
        serde_json::Value::Array(a) => Json::Arr(a.into_iter().map(value_to_json).collect()),
        serde_json::Value::Object(m) => Json::Obj(
            m.into_iter().map(|(k, x)| (k, value_to_json(x))).collect(),
        ),
    }
}

/// Relies on `serde_json::from_str::<serde_json::Value>`: decoding a line is
/// a function of its characters alone, and fails exactly on text that is not
/// valid JSON.
#[verifier::external_body]
pub(crate) fn parse_line(line: &str) -> (r: Option<Json>)
    ensures
        r == json_of_line(line@),
{
    match serde_json::from_str::<serde_json::Value>(line) {
        Ok(v) => Some(value_to_json(v)),
        Err(_) => None,
    }
}

} // verus!
