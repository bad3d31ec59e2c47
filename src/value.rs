use vstd::prelude::*;

verus! {

/// The largest integer that a host's double-precision number holds exactly.
/// Larger unsigned integers are rendered as decimal strings instead.
pub const MAX_SAFE_INTEGER: u64 = 9007199254740991;

/// The generic value tree that typed messages are projected into.
///
/// The projection only builds numbers up to [`MAX_SAFE_INTEGER`].
#[derive(Debug, PartialEq)]
pub enum Value {
    Null,
    Bool(bool),
    Number(u64),
    Str(String),
    Bytes(Vec<u8>),
    Array(Vec<Value>),
    Object(Vec<(String, Value)>),
}

/// The mathematical model of a [`Value`]: an object is an ordered sequence
/// of key/value entries.
pub enum Js {
    Null,
    Bool(bool),
    Num(nat),
    Str(Seq<char>),
    Bytes(Seq<u8>),
    Arr(Seq<Js>),
    Obj(Seq<(Seq<char>, Js)>),
}

pub open spec fn js_of(v: Value) -> Js
    decreases v,
{
    match v {
        Value::Null => Js::Null,
        Value::Bool(b) => Js::Bool(b),
        Value::Number(n) => Js::Num(n as nat),
        Value::Str(s) => Js::Str(s@),
        Value::Bytes(b) => Js::Bytes(b@),
        Value::Array(a) => Js::Arr(
            Seq::new(
                a@.len(),
                |i: int|
                    if 0 <= i < a@.len() {
                        js_of(a@[i])
                    } else {
                        Js::Null
                    },
            ),
        ),
        Value::Object(o) => Js::Obj(
            Seq::new(
                o@.len(),
                |i: int|
                    if 0 <= i < o@.len() {
                        (o@[i].0@, js_of(o@[i].1))
                    } else {
                        (Seq::empty(), Js::Null)
                    },
            ),
        ),
    }
}

impl View for Value {
    type V = Js;

    open spec fn view(&self) -> Js {
        js_of(*self)
    }
}

/// The models of a sequence of values.
pub open spec fn values_js(s: Seq<Value>) -> Seq<Js> {
    s.map_values(|v: Value| v@)
}

/// The models of a sequence of object entries.
pub open spec fn entries_js(s: Seq<(String, Value)>) -> Seq<(Seq<char>, Js)> {
    s.map_values(|e: (String, Value)| (e.0@, e.1@))
}

/// The keys of an object model, in order.
pub open spec fn keys_of(entries: Seq<(Seq<char>, Js)>) -> Seq<Seq<char>> {
    entries.map_values(|e: (Seq<char>, Js)| e.0)
}

pub proof fn lemma_array_js(a: Vec<Value>)
    ensures
        Value::Array(a)@ == Js::Arr(values_js(a@)),
{
    assert(Value::Array(a)@->Arr_0 =~= values_js(a@));
}

pub proof fn lemma_object_js(o: Vec<(String, Value)>)
    ensures
        Value::Object(o)@ == Js::Obj(entries_js(o@)),
{
    assert(Value::Object(o)@->Obj_0 =~= entries_js(o@));
}

/// The entries of an object that opens with its `"type"` entry.
pub open spec fn tag(kind: Seq<char>) -> Seq<(Seq<char>, Js)> {
    Seq::empty().push(("type"@, Js::Str(kind)))
}

/// The decimal digit for `d < 10`.
pub open spec fn digit_char(d: nat) -> char {
    seq!['0', '1', '2', '3', '4', '5', '6', '7', '8', '9'][d as int]
}

/// The decimal representation of `n`, without leading zeros.
pub open spec fn decimal(n: nat) -> Seq<char>
    decreases n,
{
    if n < 10 {
        seq![digit_char(n)]
    } else {
        decimal(n / 10).push(digit_char(n % 10))
    }
}

/// The model of an unsigned integer: a number where the host holds it
/// exactly, its decimal string otherwise.
pub open spec fn num_js(n: nat) -> Js {
    if n <= MAX_SAFE_INTEGER {
        Js::Num(n)
    } else {
        Js::Str(decimal(n))
    }
}

fn digit_str(d: u64) -> (r: &'static str)
    requires
        d < 10,
    ensures
        r@ == seq![digit_char(d as nat)],
{
    proof {
        reveal_strlit("0");
        reveal_strlit("1");
        reveal_strlit("2");
        reveal_strlit("3");
        reveal_strlit("4");
        reveal_strlit("5");
        reveal_strlit("6");
        reveal_strlit("7");
        reveal_strlit("8");
        reveal_strlit("9");
    }
    let r = match d {
        0 => "0",
        1 => "1",
        2 => "2",
        3 => "3",
        4 => "4",
        5 => "5",
        6 => "6",
        7 => "7",
        8 => "8",
        _ => "9",
    };
    assert(r@ =~= seq![digit_char(d as nat)]);
    r
}

/// Renders `n` in decimal.
pub fn decimal_string(n: u64) -> (r: String)
    ensures
        r@ == decimal(n as nat),
    decreases n,
{
    if n < 10 {
        String::from_str(digit_str(n))
    } else {
        let mut s = decimal_string(n / 10);
        s.append(digit_str(n % 10));
        s
    }
}

/// Encodes an unsigned integer, falling back to its decimal string above
/// [`MAX_SAFE_INTEGER`] so that no digit is lost.
pub fn number(n: u64) -> (r: Value)
    ensures
        r@ == num_js(n as nat),
{
    if n <= MAX_SAFE_INTEGER {
        Value::Number(n)
    } else {
        Value::Str(decimal_string(n))
    }
}

/// A string value.
pub fn text(s: &str) -> (r: Value)
    ensures
        r@ == Js::Str(s@),
{
    Value::Str(String::from_str(s))
}

/// A byte-array value holding a copy of `b`.
pub fn bytes(b: &Vec<u8>) -> (r: Value)
    ensures
        r@ == Js::Bytes(b@),
{
    let mut out: Vec<u8> = Vec::new();
    let mut i: usize = 0;
    while i < b.len()
        invariant
            i <= b@.len(),
            out@ == b@.subrange(0, i as int),
        decreases b@.len() - i,
    {
        out.push(b[i]);
        i += 1;
        assert(out@ =~= b@.subrange(0, i as int));
    }
    assert(out@ =~= b@);
    Value::Bytes(out)
}

/// Builds an object one entry at a time, keeping the order of insertion.
pub struct ObjectBuilder {
    entries: Vec<(String, Value)>,
}

impl View for ObjectBuilder {
    type V = Seq<(Seq<char>, Js)>;

    closed spec fn view(&self) -> Seq<(Seq<char>, Js)> {
        entries_js(self.entries@)
    }
}

impl ObjectBuilder {
    pub fn new() -> (r: ObjectBuilder)
        ensures
            r@ == Seq::<(Seq<char>, Js)>::empty(),
    {
        let r = ObjectBuilder { entries: Vec::new() };
        assert(r@ =~= Seq::<(Seq<char>, Js)>::empty());
        r
    }

    /// An object whose first entry is `"type"`, naming the message kind.
    pub fn tagged(kind: &str) -> (r: ObjectBuilder)
        ensures
            r@ == tag(kind@),
    {
        ObjectBuilder::new().with("type", text(kind))
    }

    pub fn with(self, key: &str, v: Value) -> (r: ObjectBuilder)
        ensures
            r@ == self@.push((key@, v@)),
    {
        let mut entries = self.entries;
        let ghost before = entries@;
        entries.push((String::from_str(key), v));
        assert(entries_js(entries@) =~= entries_js(before).push((key@, v@)));
        ObjectBuilder { entries }
    }

    pub fn build(self) -> (r: Value)
        ensures
            r@ == Js::Obj(self@),
    {
        proof {
            lemma_object_js(self.entries);
        }
        Value::Object(self.entries)
    }
}

} // verus!
