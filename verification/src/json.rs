//! A structured JSON value model: the data every protocol envelope is
//! read from and written to.
use vstd::prelude::*;
use vstd::string::StringExecFns;

verus! {

/// One structured JSON value. Objects keep their members in insertion
/// order as a list of (key, value) pairs.
pub enum JsonValue {
    Null,
    Bool(bool),
    Int(i64),
    Str(String),
    Arr(Vec<JsonValue>),
    Obj(Vec<(String, JsonValue)>),
}

impl JsonValue {
    /// The index of the first member of `obj` named `key`, if any.
    pub open spec fn spec_key_index(obj: Seq<(String, JsonValue)>, key: Seq<char>) -> Option<int>
        decreases obj.len(),
    {
        if obj.len() == 0 {
            None
        } else if obj[0].0@ == key {
            Some(0)
        } else {
            match Self::spec_key_index(obj.skip(1), key) {
                Some(i) => Some(i + 1),
                None => None,
            }
        }
    }

    /// The value of the first member of `obj` named `key`, if any.
    pub open spec fn spec_first_val(obj: Seq<(String, JsonValue)>, key: Seq<char>) -> Option<
        JsonValue,
    > {
        match Self::spec_key_index(obj, key) {
            Some(i) => Some(obj[i].1),
            None => None,
        }
    }

    /// The value of the first member named `key` of this object, if this
    /// is an object with such a member.
    pub open spec fn spec_get(self, key: Seq<char>) -> Option<JsonValue> {
        match self {
            JsonValue::Obj(members) => Self::spec_first_val(members@, key),
            _ => None,
        }
    }

    /// Whether this object has a member named `key`.
    pub open spec fn spec_has_key(self, key: Seq<char>) -> bool {
        self.spec_get(key) is Some
    }

    /// A found key index always lies inside the member list.
    pub proof fn lemma_key_index_bounds(obj: Seq<(String, JsonValue)>, key: Seq<char>)
        ensures
            match Self::spec_key_index(obj, key) {
                Some(i) => 0 <= i < obj.len() && obj[i].0@ == key,
                None => true,
            },
        decreases obj.len(),
    {
        if obj.len() > 0 && obj[0].0@ != key {
            Self::lemma_key_index_bounds(obj.skip(1), key);
        }
    }

    /// A lookup in a non-empty member list is decided by its head member
    /// first, and only then by the rest.
    pub proof fn lemma_first_val_unfold(obj: Seq<(String, JsonValue)>, key: Seq<char>)
        requires
            obj.len() > 0,
        ensures
            Self::spec_first_val(obj, key) == if obj[0].0@ == key {
                Some(obj[0].1)
            } else {
                Self::spec_first_val(obj.skip(1), key)
            },
    {
        if obj[0].0@ != key {
            Self::lemma_key_index_bounds(obj.skip(1), key);
            match Self::spec_key_index(obj.skip(1), key) {
                Some(i) => {
                    assert(obj[i + 1] == obj.skip(1)[i]);
                },
                None => {},
            }
        }
    }

    /// A lookup finds the first member that carries the key.
    pub proof fn lemma_first_val_found(obj: Seq<(String, JsonValue)>, key: Seq<char>, k: int)
        requires
            0 <= k < obj.len(),
            obj[k].0@ == key,
            forall|j: int| 0 <= j < k ==> obj[j].0@ != key,
        ensures
            Self::spec_first_val(obj, key) == Some(obj[k].1),
        decreases k,
    {
        Self::lemma_first_val_unfold(obj, key);
        if k > 0 {
            Self::lemma_first_val_found(obj.skip(1), key, k - 1);
        }
    }

    /// A lookup finds nothing when no member carries the key.
    pub proof fn lemma_first_val_absent(obj: Seq<(String, JsonValue)>, key: Seq<char>)
        requires
            forall|j: int| 0 <= j < obj.len() ==> obj[j].0@ != key,
        ensures
            Self::spec_first_val(obj, key) is None,
        decreases obj.len(),
    {
        if obj.len() > 0 {
            Self::lemma_first_val_unfold(obj, key);
            Self::lemma_first_val_absent(obj.skip(1), key);
        }
    }

    /// Look up the first member named `key`, when this is an object.
    pub fn get<'a>(&'a self, key: &str) -> (r: Option<&'a JsonValue>)
        ensures
            match r {
                Some(v) => self.spec_get(key@) == Some(*v),
                None => self.spec_get(key@) is None,
            },
    {
        match self {
            JsonValue::Obj(members) => {
                let key_string: String = key.to_owned();
                let n = members.len();
                proof {
                    assert(members@.skip(0) =~= members@);
                }
                for i in 0..n
                    invariant
                        *self == JsonValue::Obj(*members),
                        key_string@ == key@,
                        n == members@.len(),
                        Self::spec_first_val(members@, key@) == Self::spec_first_val(
                            members@.skip(i as int),
                            key@,
                        ),
                {
                    proof {
                        Self::lemma_first_val_unfold(members@.skip(i as int), key@);
                        assert(members@.skip(i as int)[0] == members@[i as int]);
                        assert(members@.skip(i as int).skip(1) =~= members@.skip(i + 1));
                    }
                    if members[i].0 == key_string {
                        return Some(&members[i].1);
                    }
                }
                None
            },
            _ => None,
        }
    }

    /// The string inside this value, when it is a JSON string.
    pub fn as_str<'a>(&'a self) -> (r: Option<&'a String>)
        ensures
            match r {
                Some(s) => self == JsonValue::Str(*s),
                None => !(self is Str),
            },
    {
        match self {
            JsonValue::Str(s) => Some(s),
            _ => None,
        }
    }

    /// Takes this value apart, handing out the first values of three
    /// distinct keys at once.
    pub(crate) fn take3(self, k1: &str, k2: &str, k3: &str) -> (r: (
        Option<JsonValue>,
        Option<JsonValue>,
        Option<JsonValue>,
    ))
        requires
            k1@ != k2@,
            k1@ != k3@,
            k2@ != k3@,
        ensures
            r.0 == self.spec_get(k1@),
            r.1 == self.spec_get(k2@),
            r.2 == self.spec_get(k3@),
    {
        match self {
            JsonValue::Obj(mut members) => {
                let ghost orig = members@;
                let s1: String = k1.to_owned();
                let s2: String = k2.to_owned();
                let s3: String = k3.to_owned();
                let mut v1: Option<JsonValue> = None;
                let mut v2: Option<JsonValue> = None;
                let mut v3: Option<JsonValue> = None;
                proof {
                    assert(orig.skip(orig.len() as int) =~= Seq::<(String, JsonValue)>::empty());
                }
                while members.len() > 0
                    invariant
                        k1@ != k2@,
                        k1@ != k3@,
                        k2@ != k3@,
                        s1@ == k1@,
                        s2@ == k2@,
                        s3@ == k3@,
                        members@ == orig.take(members@.len() as int),
                        members@.len() <= orig.len(),
                        v1 == Self::spec_first_val(orig.skip(members@.len() as int), k1@),
                        v2 == Self::spec_first_val(orig.skip(members@.len() as int), k2@),
                        v3 == Self::spec_first_val(orig.skip(members@.len() as int), k3@),
                    decreases members@.len(),
                {
                    let ghost n = members@.len() as int;
                    proof {
                        assert(orig.skip(n - 1)[0] == orig[n - 1]);
                        assert(orig.skip(n - 1).skip(1) =~= orig.skip(n));
                        Self::lemma_first_val_unfold(orig.skip(n - 1), k1@);
                        Self::lemma_first_val_unfold(orig.skip(n - 1), k2@);
                        Self::lemma_first_val_unfold(orig.skip(n - 1), k3@);
                    }
                    let pair = members.pop();
                    match pair {
                        Some((k, val)) => {
                            proof {
                                assert((k, val) == orig[n - 1]);
                                assert(members@ =~= orig.take(n - 1));
                            }
                            if k == s1 {
                                v1 = Some(val);
                            } else if k == s2 {
                                v2 = Some(val);
                            } else if k == s3 {
                                v3 = Some(val);
                            }
                        },
                        None => {
                            proof {
                                assert(false);
                            }
                        },
                    }
                }
                proof {
                    assert(orig.skip(0) =~= orig);
                }
                (v1, v2, v3)
            },
            _ => (None, None, None),
        }
    }
}

} // verus!
