use vstd::prelude::*;

use crate::text::{dec_str, str_eq, u64_to_string};

verus! {

/// A query string parameter value, kept in its textual query-string form.
pub struct Value {
    text: String,
}

impl View for Value {
    type V = Seq<char>;

    closed spec fn view(&self) -> Seq<char> {
        self.text@
    }
}

impl Value {
    /// Returns a reference to the value as a string.
    pub fn as_str(&self) -> (r: &str)
        ensures
            r@ == self@,
    {
        self.text.as_str()
    }
}

/// A type that serializes to its textual query-string form.
pub trait ToValue {
    /// The textual form this value takes in a query string.
    spec fn to_value_spec(&self) -> Seq<char>;

    /// Converts this value to a query string parameter value.
    fn to_value(&self) -> (v: Value)
        ensures
            v@ == self.to_value_spec(),
    ;
}

impl ToValue for String {
    open spec fn to_value_spec(&self) -> Seq<char> {
        self@
    }

    fn to_value(&self) -> (v: Value) {
        Value { text: self.clone() }
    }
}

impl ToValue for bool {
    open spec fn to_value_spec(&self) -> Seq<char> {
        if *self {
            "true"@
        } else {
            "false"@
        }
    }

    fn to_value(&self) -> (v: Value) {
        let text = if *self {
            String::from_str("true")
        } else {
            String::from_str("false")
        };
        Value { text }
    }
}

impl ToValue for u64 {
    open spec fn to_value_spec(&self) -> Seq<char> {
        dec_str(*self as nat)
    }

    fn to_value(&self) -> (v: Value) {
        Value { text: u64_to_string(*self) }
    }
}

impl ToValue for u32 {
    open spec fn to_value_spec(&self) -> Seq<char> {
        dec_str(*self as nat)
    }

    fn to_value(&self) -> (v: Value) {
        Value { text: u64_to_string(*self as u64) }
    }
}

impl ToValue for Value {
    open spec fn to_value_spec(&self) -> Seq<char> {
        self@
    }

    fn to_value(&self) -> (v: Value) {
        Value { text: self.text.clone() }
    }
}

/// Zero or one pairs: an absent optional parameter contributes nothing to
/// the query, a present one contributes its pair.
pub open spec fn opt_pair(k: Seq<char>, v: Option<Seq<char>>) -> Seq<(Seq<char>, Seq<char>)> {
    match v {
        Some(v) => seq![(k, v)],
        None => Seq::empty(),
    }
}

/// The view of an optional textual parameter.
pub open spec fn opt_str_view(v: Option<String>) -> Option<Seq<char>> {
    match v {
        Some(s) => Some(s@),
        None => None,
    }
}

/// The textual form of an optional numeric parameter.
pub open spec fn opt_dec_u64(v: Option<u64>) -> Option<Seq<char>> {
    match v {
        Some(n) => Some(dec_str(n as nat)),
        None => None,
    }
}

/// The textual form of an optional numeric parameter.
pub open spec fn opt_dec_u32(v: Option<u32>) -> Option<Seq<char>> {
    match v {
        Some(n) => Some(dec_str(n as nat)),
        None => None,
    }
}

/// The textual form of an optional boolean parameter.
pub open spec fn opt_bool_text(v: Option<bool>) -> Option<Seq<char>> {
    match v {
        Some(b) => Some(
            if b {
                "true"@
            } else {
                "false"@
            },
        ),
        None => None,
    }
}

/// Clones an optional textual parameter.
pub(crate) fn clone_opt_string(v: &Option<String>) -> (r: Option<String>)
    ensures
        opt_str_view(r) == opt_str_view(*v),
{
    match v {
        Some(s) => Some(s.clone()),
        None => None,
    }
}

/// The effect of `push` on the pair sequence: an absent value is silently
/// omitted, a present one is appended.
pub open spec fn spec_push(
    s: Seq<(Seq<char>, Seq<char>)>,
    k: Seq<char>,
    v: Option<Seq<char>>,
) -> Seq<(Seq<char>, Seq<char>)> {
    match v {
        None => s,
        Some(v) => s.push((k, v)),
    }
}

/// The position of the first pair with key `k`, or -1 if no pair has it.
pub open spec fn key_index(s: Seq<(Seq<char>, Seq<char>)>, k: Seq<char>) -> int
    decreases s.len(),
{
    if s.len() == 0 {
        -1
    } else if s[0].0 == k {
        0
    } else {
        let r = key_index(s.drop_first(), k);
        if r == -1 {
            -1
        } else {
            r + 1
        }
    }
}

/// Whether some pair in `s` has key `k`.
pub open spec fn has_key(s: Seq<(Seq<char>, Seq<char>)>, k: Seq<char>) -> bool {
    key_index(s, k) >= 0
}

/// The effect of `replace` on the pair sequence: the first pair with key `k`
/// is overwritten in place; a missing key is appended at the end.
pub open spec fn spec_replace(
    s: Seq<(Seq<char>, Seq<char>)>,
    k: Seq<char>,
    v: Seq<char>,
) -> Seq<(Seq<char>, Seq<char>)> {
    if has_key(s, k) {
        s.update(key_index(s, k), (k, v))
    } else {
        s.push((k, v))
    }
}

/// `key_index` points at the first pair with key `k`: everything before it
/// has another key, and a result of -1 means no pair has `k` at all.
pub proof fn lemma_key_index(s: Seq<(Seq<char>, Seq<char>)>, k: Seq<char>)
    ensures
        key_index(s, k) == -1 ==> forall|j: int| 0 <= j < s.len() ==> s[j].0 != k,
        key_index(s, k) != -1 ==> 0 <= key_index(s, k) < s.len() && s[key_index(s, k)].0 == k,
        key_index(s, k) != -1 ==> forall|j: int| 0 <= j < key_index(s, k) ==> s[j].0 != k,
    decreases s.len(),
{
    if s.len() > 0 && s[0].0 != k {
        let t = s.drop_first();
        lemma_key_index(t, k);
        if key_index(t, k) == -1 {
            assert forall|j: int| 0 <= j < s.len() implies s[j].0 != k by {
                if j >= 1 {
                    assert(s[j] == t[j - 1]);
                    assert(t[j - 1].0 != k);
                }
            }
        } else {
            assert(s[key_index(s, k)] == t[key_index(t, k)]);
            assert forall|j: int| 0 <= j < key_index(s, k) implies s[j].0 != k by {
                if j >= 1 {
                    assert(s[j] == t[j - 1]);
                    assert(t[j - 1].0 != k);
                }
            }
        }
    }
}

/// An ordered collection of query string parameters. Insertion order is
/// preserved and is observable in the serialized query string.
pub struct Parameters {
    pairs: Vec<(String, Value)>,
}

impl View for Parameters {
    type V = Seq<(Seq<char>, Seq<char>)>;

    closed spec fn view(&self) -> Seq<(Seq<char>, Seq<char>)> {
        self.pairs@.map_values(|p: (String, Value)| (p.0@, p.1@))
    }
}

impl Parameters {
    /// Constructs a new, empty collection.
    pub fn new() -> (r: Parameters)
        ensures
            r@ == Seq::<(Seq<char>, Seq<char>)>::empty(),
    {
        let r = Parameters { pairs: Vec::new() };
        proof {
            assert(r@ =~= Seq::<(Seq<char>, Seq<char>)>::empty());
        }
        r
    }

    /// Constructs a new, empty collection with room for the given number
    /// of pairs.
    pub fn with_capacity(capacity: usize) -> (r: Parameters)
        ensures
            r@ == Seq::<(Seq<char>, Seq<char>)>::empty(),
    {
        let r = Parameters { pairs: Vec::with_capacity(capacity) };
        proof {
            assert(r@ =~= Seq::<(Seq<char>, Seq<char>)>::empty());
        }
        r
    }

    /// The number of collected pairs.
    pub fn len(&self) -> (n: usize)
        ensures
            n == self@.len(),
    {
        self.pairs.len()
    }

    /// The key of the pair at position `i`.
    pub fn key_at(&self, i: usize) -> (k: &String)
        requires
            i < self@.len(),
        ensures
            k@ == self@[i as int].0,
    {
        &self.pairs[i].0
    }

    /// The value of the pair at position `i`.
    pub fn value_at(&self, i: usize) -> (v: &Value)
        requires
            i < self@.len(),
        ensures
            v@ == self@[i as int].1,
    {
        &self.pairs[i].1
    }

    /// Appends a parameter to the collection if the value is present; an
    /// absent value is silently omitted. This method doesn't check for
    /// duplicates: the same key can appear more than once.
    pub fn push<V: ToValue>(&mut self, key: &str, value: Option<&V>)
        ensures
            final(self)@ == spec_push(
                old(self)@,
                key@,
                match value {
                    Some(v) => Some(v.to_value_spec()),
                    None => None,
                },
            ),
    {
        match value {
            Some(v) => {
                let val = v.to_value();
                self.pairs.push((key.to_owned(), val));
                proof {
                    assert(self@ =~= spec_push(
                        old(self)@,
                        key@,
                        Some(v.to_value_spec()),
                    ));
                }
            },
            None => {},
        }
    }

    /// Replaces the first parameter with this key, keeping its position; a
    /// missing key is appended at the end, exactly as a push of a present
    /// value.
    pub fn replace<V: ToValue>(&mut self, key: &str, value: &V)
        ensures
            final(self)@ == spec_replace(old(self)@, key@, value.to_value_spec()),
    {
        proof {
            lemma_key_index(old(self)@, key@);
        }
        let n = self.pairs.len();
        let mut i: usize = 0;
        while i < n
            invariant
                *self == *old(self),
                n == self@.len(),
                i <= n,
                forall|j: int| 0 <= j < i ==> self@[j].0 != key@,
            decreases n - i,
        {
            if str_eq(self.pairs[i].0.as_str(), key) {
                proof {
                    lemma_key_index(self@, key@);
                    assert(self@[i as int].0 == key@);
                    assert(key_index(self@, key@) == i);
                }
                let val = value.to_value();
                self.pairs[i] = (key.to_owned(), val);
                proof {
                    assert(self@ =~= spec_replace(old(self)@, key@, value.to_value_spec()));
                }
                return ;
            }
            i += 1;
        }
        proof {
            assert(key_index(self@, key@) == -1);
        }
        let val = value.to_value();
        self.pairs.push((key.to_owned(), val));
        proof {
            assert(self@ =~= spec_replace(old(self)@, key@, value.to_value_spec()));
        }
    }
}

impl Default for Parameters {
    /// An empty collection.
    fn default() -> (r: Parameters)
        ensures
            r@ == Seq::<(Seq<char>, Seq<char>)>::empty(),
    {
        Parameters::new()
    }
}

/// Pushing an absent value leaves the collection unchanged.
pub proof fn lemma_push_none_is_identity(s: Seq<(Seq<char>, Seq<char>)>, k: Seq<char>)
    ensures
        spec_push(s, k, None) == s,
{
}

/// Replacing a key that the collection contains changes only the value at
/// that key's existing position: the length is unchanged and every other
/// pair keeps both its key and its place.
pub proof fn lemma_replace_preserves_shape(
    s: Seq<(Seq<char>, Seq<char>)>,
    k: Seq<char>,
    v: Seq<char>,
)
    requires
        has_key(s, k),
    ensures
        spec_replace(s, k, v).len() == s.len(),
        spec_replace(s, k, v)[key_index(s, k)] == (k, v),
        forall|j: int|
            0 <= j < s.len() && j != key_index(s, k) ==> spec_replace(s, k, v)[j] == s[j],
{
    lemma_key_index(s, k);
}

/// Replacing a key that the collection does not contain appends the pair at
/// the end, exactly as a push of a present value.
pub proof fn lemma_replace_absent_is_push(
    s: Seq<(Seq<char>, Seq<char>)>,
    k: Seq<char>,
    v: Seq<char>,
)
    requires
        !has_key(s, k),
    ensures
        spec_replace(s, k, v) == spec_push(s, k, Some(v)),
{
}

} // verus!
