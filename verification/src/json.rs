use vstd::prelude::*;

verus! {

/// A JSON number as the configuration files hold it: a non-negative integer,
/// a negative integer, or a floating-point number kept by its IEEE-754 bits.
#[derive(Clone, Copy, PartialEq, Eq, Debug)]
pub enum JsonNumber {
    PosInt(u64),
    NegInt(i64),
    FloatBits(u64),
}

/// A JSON document. Objects keep their entries in order.
#[derive(Debug, PartialEq)]
pub enum JsonValue {
    Null,
    Bool(bool),
    Number(JsonNumber),
    Str(String),
    Array(Vec<JsonValue>),
    Object(Vec<(String, JsonValue)>),
}

/// The mathematical form of a JSON document.
pub enum JVal {
    Null,
    Bool(bool),
    Number(JsonNumber),
    Str(Seq<char>),
    Array(Seq<JVal>),
    Object(Seq<(Seq<char>, JVal)>),
}

impl JsonValue {
    pub open spec fn jv(&self) -> JVal
        decreases self,
    {
        match self {
            JsonValue::Null => JVal::Null,
            JsonValue::Bool(b) => JVal::Bool(*b),
            JsonValue::Number(n) => JVal::Number(*n),
            JsonValue::Str(s) => JVal::Str(s@),
            JsonValue::Array(v) => JVal::Array(
                Seq::new(v@.len(), |i: int| if 0 <= i < v@.len() { v@[i].jv() } else { JVal::Null }),
            ),
            JsonValue::Object(v) => JVal::Object(
                Seq::new(
                    v@.len(),
                    |i: int| if 0 <= i < v@.len() { (v@[i].0@, v@[i].1.jv()) } else { (Seq::empty(), JVal::Null) },
                ),
            ),
        }
    }
}

} // verus!
verus! {

impl JsonValue {
    /// Copies the document.
    pub fn duplicate(&self) -> (r: JsonValue)
        ensures
            r.jv() == self.jv(),
        decreases self,
    {
        match self {
            JsonValue::Null => JsonValue::Null,
            JsonValue::Bool(b) => JsonValue::Bool(*b),
            JsonValue::Number(n) => JsonValue::Number(*n),
            JsonValue::Str(s) => JsonValue::Str(s.clone()),
            JsonValue::Array(v) => {
                let mut out: Vec<JsonValue> = Vec::new();
                let mut i: usize = 0;
                #[verifier::loop_isolation(false)]
                while i < v.len()
                    invariant
                        i <= v.len(),
                        out@.len() == i,
                        forall|j: int| 0 <= j < i ==> #[trigger] out@[j].jv() == v@[j].jv(),
                    decreases v.len() - i,
                {
                    proof { assert(decreases_to!(self => v@[i as int])) by { assert(decreases_to!(*v => v@)); }; }
                    let c = v[i].duplicate();
                    out.push(c);
                    i = i + 1;
                }
                let r = JsonValue::Array(out);
                assert(r.jv()->Array_0.len() == self.jv()->Array_0.len());
                assert forall|k: int| 0 <= k < out@.len() implies r.jv()->Array_0[k] == self.jv()->Array_0[k] by {
                    assert(out@[k].jv() == v@[k].jv());
                }
                assert(r.jv()->Array_0 =~= self.jv()->Array_0);
                r
            },
            JsonValue::Object(v) => {
                let mut out: Vec<(String, JsonValue)> = Vec::new();
                let mut i: usize = 0;
                #[verifier::loop_isolation(false)]
                while i < v.len()
                    invariant
                        i <= v.len(),
                        out@.len() == i,
                        forall|j: int| 0 <= j < i ==> #[trigger] out@[j].0@ == v@[j].0@ && out@[j].1.jv() == v@[j].1.jv(),
                    decreases v.len() - i,
                {
                    proof { assert(decreases_to!(self => v@[i as int].1)) by { assert(decreases_to!(*v => v@)); }; }
                    let k = v[i].0.clone();
                    let c = v[i].1.duplicate();
                    out.push((k, c));
                    i = i + 1;
                }
                let r = JsonValue::Object(out);
                assert(r.jv()->Object_0 =~= self.jv()->Object_0);
                r
            },
        }
    }
}

} // verus!
verus! {

/// The mathematical form of the entries of a JSON object.
pub open spec fn ov(s: Seq<(String, JsonValue)>) -> Seq<(Seq<char>, JVal)> {
    Seq::new(s.len(), |i: int| (s[i].0@, s[i].1.jv()))
}

/// The mathematical form of the elements of a JSON array.
pub open spec fn av(s: Seq<JsonValue>) -> Seq<JVal> {
    Seq::new(s.len(), |i: int| s[i].jv())
}

/// A JSON document as a parser gives it: no object holds a key twice, at any depth.
pub open spec fn json_wf(v: JVal) -> bool
    decreases v,
{
    match v {
        JVal::Object(o) => {
            &&& crate::assoc::unique_keys(o)
            &&& forall|i: int| 0 <= i < o.len() ==> json_wf(#[trigger] o[i].1)
        },
        JVal::Array(a) => forall|i: int| 0 <= i < a.len() ==> json_wf(#[trigger] a[i]),
        _ => true,
    }
}

/// Setting a key of a valid object to a valid value gives a valid object.
pub proof fn lemma_wf_insert(o: Seq<(Seq<char>, JVal)>, k: Seq<char>, v: JVal)
    requires
        json_wf(JVal::Object(o)),
        json_wf(v),
    ensures
        json_wf(JVal::Object(crate::assoc::assoc_insert(o, k, v))),
{
    let t = crate::assoc::assoc_insert(o, k, v);
    crate::assoc::lemma_insert_unique(o, k, v);
    if crate::assoc::has_key(o, k) {
        crate::assoc::lemma_key_index(o, k);
    }
    assert forall|i: int| 0 <= i < t.len() implies json_wf(#[trigger] t[i].1) by {
        if i < o.len() && t[i].1 != v {
            assert(t[i] == o[i]);
        }
    }
}

/// Removing a key of a valid object gives a valid object.
pub proof fn lemma_wf_swap_remove(o: Seq<(Seq<char>, JVal)>, k: Seq<char>)
    requires
        json_wf(JVal::Object(o)),
    ensures
        json_wf(JVal::Object(crate::assoc::assoc_swap_remove(o, k))),
{
    let t = crate::assoc::assoc_swap_remove(o, k);
    crate::assoc::lemma_swap_remove(o, k, k);
    if crate::assoc::has_key(o, k) {
        crate::assoc::lemma_key_index(o, k);
        let i0 = crate::assoc::key_index(o, k);
        assert forall|i: int| 0 <= i < t.len() implies json_wf(#[trigger] t[i].1) by {
            let j = if i == i0 { o.len() - 1 } else { i };
            assert(t[i] == o[j]);
        }
    }
}

pub proof fn lemma_object_jv(v: Vec<(String, JsonValue)>)
    ensures
        JsonValue::Object(v).jv() == JVal::Object(ov(v@)),
{
    assert(JsonValue::Object(v).jv()->Object_0 =~= ov(v@));
}

pub proof fn lemma_array_jv(v: Vec<JsonValue>)
    ensures
        JsonValue::Array(v).jv() == JVal::Array(av(v@)),
{
    assert(JsonValue::Array(v).jv()->Array_0 =~= av(v@));
}

/// The value under key `k` of an object; nothing for other values.
pub open spec fn jget(v: JVal, k: Seq<char>) -> Option<JVal> {
    match v {
        JVal::Object(o) => crate::assoc::lookup(o, k),
        _ => None,
    }
}

/// The text of a string value.
pub open spec fn jstr(v: Option<JVal>) -> Option<Seq<char>> {
    match v {
        Some(JVal::Str(s)) => Some(s),
        _ => None,
    }
}

/// The entries of an object value.
pub open spec fn jobj(v: Option<JVal>) -> Option<Seq<(Seq<char>, JVal)>> {
    match v {
        Some(JVal::Object(o)) => Some(o),
        _ => None,
    }
}

/// A number that is a non-negative integer.
pub open spec fn ju64(v: Option<JVal>) -> Option<u64> {
    match v {
        Some(JVal::Number(JsonNumber::PosInt(n))) => Some(n),
        _ => None,
    }
}

/// The elements of an array value.
pub open spec fn jarr(v: Option<JVal>) -> Option<Seq<JVal>> {
    match v {
        Some(JVal::Array(a)) => Some(a),
        _ => None,
    }
}

/// An integer that fits `i64`.
pub open spec fn ji64(v: Option<JVal>) -> Option<i64> {
    match v {
        Some(JVal::Number(JsonNumber::PosInt(n))) => if n <= i64::MAX as u64 { Some(n as i64) } else { None },
        Some(JVal::Number(JsonNumber::NegInt(n))) => Some(n),
        _ => None,
    }
}

pub open spec fn opt_jv(o: Option<&JsonValue>) -> Option<JVal> {
    match o {
        Some(v) => Some(v.jv()),
        None => None,
    }
}

pub open spec fn opt_owned_jv(o: Option<JsonValue>) -> Option<JVal> {
    match o {
        Some(v) => Some(v.jv()),
        None => None,
    }
}

/// The first position of `key` among the entries, if any.
pub fn obj_find(v: &Vec<(String, JsonValue)>, key: &str) -> (r: Option<usize>)
    ensures
        r is Some == crate::assoc::has_key(ov(v@), key@),
        r is Some ==> r.unwrap() == crate::assoc::key_index(ov(v@), key@),
        r is Some ==> r.unwrap() < v@.len() && v@[r.unwrap() as int].0@ == key@,
{
    let mut i: usize = 0;
    while i < v.len()
        invariant
            i <= v.len(),
            forall|j: int| 0 <= j < i ==> #[trigger] v@[j].0@ != key@,
        decreases v.len() - i,
    {
        if crate::text::str_eq(v[i].0.as_str(), key) {
            proof {
                assert(ov(v@)[i as int].0 == key@);
                crate::assoc::lemma_key_index(ov(v@), key@);
                let m = crate::assoc::key_index(ov(v@), key@);
                assert(m == i) by {
                    if m < i { assert(ov(v@)[m].0 == v@[m].0@); }
                }
            }
            return Some(i);
        }
        i = i + 1;
    }
    proof {
        if crate::assoc::has_key(ov(v@), key@) {
            let j = choose|j: int| 0 <= j < ov(v@).len() && #[trigger] ov(v@)[j].0 == key@;
            assert(v@[j].0@ == key@);
        }
    }
    None
}

/// The value under `key` among the entries, if any.
pub fn obj_get<'a>(v: &'a Vec<(String, JsonValue)>, key: &str) -> (r: Option<&'a JsonValue>)
    ensures
        opt_jv(r) == crate::assoc::lookup(ov(v@), key@),
{
    match obj_find(v, key) {
        Some(i) => Some(&v[i].1),
        None => None,
    }
}

/// Copies the entries of an object.
pub fn obj_duplicate(v: &Vec<(String, JsonValue)>) -> (r: Vec<(String, JsonValue)>)
    ensures
        ov(r@) == ov(v@),
{
    let mut out: Vec<(String, JsonValue)> = Vec::new();
    let mut i: usize = 0;
    while i < v.len()
        invariant
            i <= v.len(),
            out@.len() == i,
            forall|j: int| 0 <= j < i ==> #[trigger] out@[j].0@ == v@[j].0@ && out@[j].1.jv() == v@[j].1.jv(),
        decreases v.len() - i,
    {
        out.push((v[i].0.clone(), v[i].1.duplicate()));
        i = i + 1;
    }
    assert(ov(out@) =~= ov(v@));
    out
}

/// Sets `key` to `val`: an existing entry keeps its place, otherwise the entry is appended.
pub fn obj_insert(v: &mut Vec<(String, JsonValue)>, key: String, val: JsonValue)
    ensures
        ov(final(v)@) == crate::assoc::assoc_insert(ov(old(v)@), key@, val.jv()),
        json_wf(JVal::Object(ov(old(v)@))) && json_wf(val.jv()) ==> json_wf(JVal::Object(ov(final(v)@))),
{
    proof {
        if json_wf(JVal::Object(ov(old(v)@))) && json_wf(val.jv()) {
            lemma_wf_insert(ov(old(v)@), key@, val.jv());
        }
    }
    match obj_find(v, key.as_str()) {
        Some(i) => {
            let ghost k0 = v@[i as int].0;
            let (k, _) = v.remove(i);
            v.insert(i, (k, val));
            assert(ov(v@) =~= crate::assoc::assoc_insert(ov(old(v)@), key@, val.jv()));
        },
        None => {
            let ghost kv = key@;
            let ghost vv = val.jv();
            v.push((key, val));
            assert(ov(v@) =~= crate::assoc::assoc_insert(ov(old(v)@), kv, vv));
        },
    }
}

/// Removes `key`, moving the last entry into its place (as `serde_json::Map::remove`
/// does when maps keep their order), and returns its value.
pub fn obj_remove(v: &mut Vec<(String, JsonValue)>, key: &str) -> (r: Option<JsonValue>)
    ensures
        ov(final(v)@) == crate::assoc::assoc_swap_remove(ov(old(v)@), key@),
        opt_owned_jv(r) == crate::assoc::lookup(ov(old(v)@), key@),
        json_wf(JVal::Object(ov(old(v)@))) ==> json_wf(JVal::Object(ov(final(v)@))),
{
    proof {
        if json_wf(JVal::Object(ov(old(v)@))) {
            lemma_wf_swap_remove(ov(old(v)@), key@);
        }
    }
    match obj_find(v, key) {
        Some(i) => {
            let (_, val) = v.swap_remove(i);
            assert(ov(v@) =~= crate::assoc::assoc_swap_remove(ov(old(v)@), key@));
            Some(val)
        },
        None => None,
    }
}

impl JsonValue {
    /// `value.get(key)`: the value under `key` when this is an object.
    pub fn get(&self, key: &str) -> (r: Option<&JsonValue>)
        ensures
            opt_jv(r) == jget(self.jv(), key@),
    {
        match self {
            JsonValue::Object(v) => {
                proof { lemma_object_jv(*v); }
                match obj_find(v, key) {
                    Some(i) => Some(&v[i].1),
                    None => None,
                }
            },
            _ => None,
        }
    }

    /// `value.as_str()`.
    pub fn as_str(&self) -> (r: Option<&String>)
        ensures
            r is Some == self.jv() is Str,
            r is Some ==> r.unwrap()@ == self.jv()->Str_0,
    {
        match self {
            JsonValue::Str(s) => Some(s),
            _ => None,
        }
    }

    /// `value.as_object()`.
    pub fn as_object(&self) -> (r: Option<&Vec<(String, JsonValue)>>)
        ensures
            r is Some == self.jv() is Object,
            r is Some ==> ov(r.unwrap()@) == self.jv()->Object_0,
    {
        match self {
            JsonValue::Object(v) => {
                proof { lemma_object_jv(*v); }
                Some(v)
            },
            _ => None,
        }
    }

    /// `value.as_array()`.
    pub fn as_array(&self) -> (r: Option<&Vec<JsonValue>>)
        ensures
            r is Some == self.jv() is Array,
            r is Some ==> av(r.unwrap()@) == self.jv()->Array_0,
    {
        match self {
            JsonValue::Array(v) => {
                proof { lemma_array_jv(*v); }
                Some(v)
            },
            _ => None,
        }
    }

    /// `value.as_u64()`.
    pub fn as_u64(&self) -> (r: Option<u64>)
        ensures
            r == ju64(Some(self.jv())),
    {
        match self {
            JsonValue::Number(JsonNumber::PosInt(n)) => Some(*n),
            _ => None,
        }
    }

    /// `value.as_i64()`.
    pub fn as_i64(&self) -> (r: Option<i64>)
        ensures
            r == ji64(Some(self.jv())),
    {
        match self {
            JsonValue::Number(JsonNumber::PosInt(n)) => {
                if *n <= 9223372036854775807u64 {
                    Some(*n as i64)
                } else {
                    None
                }
            },
            JsonValue::Number(JsonNumber::NegInt(n)) => Some(*n),
            _ => None,
        }
    }

    /// `value.is_object()`.
    pub fn is_object(&self) -> (r: bool)
        ensures
            r == self.jv() is Object,
    {
        match self {
            JsonValue::Object(_) => true,
            _ => false,
        }
    }
}

} // verus!
verus! {

pub open spec fn opt_sref(o: Option<&String>) -> Option<Seq<char>> {
    match o {
        Some(s) => Some(s@),
        None => None,
    }
}

impl JsonValue {
    /// `value.get(key).and_then(Value::as_str)`.
    pub fn get_str(&self, key: &str) -> (r: Option<&String>)
        ensures
            opt_sref(r) == jstr(jget(self.jv(), key@)),
    {
        match self.get(key) {
            Some(v) => v.as_str(),
            None => None,
        }
    }

    /// `value.get(key).and_then(Value::as_object)`.
    pub fn get_object(&self, key: &str) -> (r: Option<&Vec<(String, JsonValue)>>)
        ensures
            r is Some == jobj(jget(self.jv(), key@)) is Some,
            r is Some ==> ov(r.unwrap()@) == jobj(jget(self.jv(), key@)).unwrap(),
    {
        match self.get(key) {
            Some(v) => v.as_object(),
            None => None,
        }
    }
}

/// The text stored under `key` among the entries, if it is a string.
pub fn obj_get_str<'a>(v: &'a Vec<(String, JsonValue)>, key: &str) -> (r: Option<&'a String>)
    ensures
        opt_sref(r) == jstr(crate::assoc::lookup(ov(v@), key@)),
{
    match obj_get(v, key) {
        Some(x) => x.as_str(),
        None => None,
    }
}

/// Copies the elements of an array.
pub fn arr_duplicate(v: &Vec<JsonValue>) -> (r: Vec<JsonValue>)
    ensures
        av(r@) == av(v@),
{
    let mut out: Vec<JsonValue> = Vec::new();
    let mut i: usize = 0;
    while i < v.len()
        invariant
            i <= v.len(),
            out@.len() == i,
            forall|j: int| 0 <= j < i ==> #[trigger] out@[j].jv() == v@[j].jv(),
        decreases v.len() - i,
    {
        out.push(v[i].duplicate());
        i = i + 1;
    }
    assert(av(out@) =~= av(v@));
    out
}

} // verus!
