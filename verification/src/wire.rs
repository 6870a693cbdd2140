//! The wire value: whatever can travel over the remote-procedure-call channel.
//!
//! A wire value is a closed tagged union. Arrays and maps keep the order in
//! which their items were written, and no variant is ever read as another: an
//! integer is not a float.
use vstd::prelude::*;
use crate::scalar::Double;

verus! {

/// Smallest integer that a wire value can hold.
pub open spec fn integer_min() -> int {
    -0x8000_0000_0000_0000
}

/// Largest integer that a wire value can hold.
pub open spec fn integer_max() -> int {
    0xffff_ffff_ffff_ffff
}

/// A wire integer: any whole number from `-(2^63)` up to `2^64 - 1`.
///
/// Its view is the number itself, so a value written as signed and the same
/// value written as unsigned are one integer.
#[derive(Clone, Copy, Debug, PartialEq, Eq)]
pub struct Integer {
    n: i128,
}

impl View for Integer {
    type V = int;

    closed spec fn view(&self) -> int {
        self.n as int
    }
}

impl Integer {
    #[verifier::type_invariant]
    spec fn in_range(self) -> bool {
        integer_min() <= self.n <= integer_max()
    }

    pub fn from_u64(n: u64) -> (r: Integer)
        ensures
            r@ == n,
    {
        Integer { n: n as i128 }
    }

    pub fn from_i64(n: i64) -> (r: Integer)
        ensures
            r@ == n,
    {
        Integer { n: n as i128 }
    }

    /// The integer as a `u64`, when it is not negative.
    pub fn as_u64(&self) -> (r: Option<u64>)
        ensures
            r == if 0 <= self@ { Some(self@ as u64) } else { None::<u64> },
            self@ >= 0 ==> self@ <= u64::MAX,
    {
        proof {
            use_type_invariant(self);
        }
        if self.n >= 0 {
            Some(self.n as u64)
        } else {
            None
        }
    }

    /// The integer as an `i64`, when it fits.
    pub fn as_i64(&self) -> (r: Option<i64>)
        ensures
            r == if self@ <= i64::MAX { Some(self@ as i64) } else { None::<i64> },
            self@ >= i64::MIN,
    {
        proof {
            use_type_invariant(self);
        }
        if self.n <= 0x7fff_ffff_ffff_ffffi128 {
            Some(self.n as i64)
        } else {
            None
        }
    }

    /// Whether two integers are the same number.
    pub fn same(&self, other: &Integer) -> (r: bool)
        ensures
            r == (self@ == other@),
    {
        self.n == other.n
    }

    /// The integer as an `i128`, which holds every wire integer.
    pub fn value(&self) -> (r: i128)
        ensures
            r == self@,
            integer_min() <= r <= integer_max(),
    {
        proof {
            use_type_invariant(self);
        }
        self.n
    }
}

/// A wire value.
///
/// Two wire values are equal when they hold the same: the same variant with
/// the same content, arrays and maps item by item in the same order.
#[derive(Debug)]
pub enum Value {
    Nil,
    Boolean(bool),
    Integer(Integer),
    Float(Double),
    String(String),
    Binary(Vec<u8>),
    Array(Vec<Value>),
    /// Key and value pairs in the order written. The container does not ask
    /// that keys be unique.
    Mapping(Vec<(String, Value)>),
}

/// What a wire value holds: the mathematical counterpart of [`Value`].
pub enum ValueView {
    Nil,
    Boolean(bool),
    Integer(int),
    Float(Double),
    String(Seq<char>),
    Binary(Seq<u8>),
    Array(Seq<ValueView>),
    Mapping(Seq<(Seq<char>, ValueView)>),
}

impl View for Value {
    type V = ValueView;

    open spec fn view(&self) -> ValueView
        decreases self,
    {
        match self {
            Value::Nil => ValueView::Nil,
            Value::Boolean(b) => ValueView::Boolean(*b),
            Value::Integer(i) => ValueView::Integer(i@),
            Value::Float(d) => ValueView::Float(*d),
            Value::String(s) => ValueView::String(s@),
            Value::Binary(b) => ValueView::Binary(b@),
            Value::Array(items) => ValueView::Array(items_view(items@)),
            Value::Mapping(entries) => ValueView::Mapping(entries_view(entries@)),
        }
    }
}

/// The views of a list of wire values, item by item.
pub open spec fn items_view(items: Seq<Value>) -> Seq<ValueView>
    decreases items,
{
    Seq::new(
        items.len(),
        |i: int|
            if 0 <= i < items.len() {
                items[i].view()
            } else {
                ValueView::Nil
            },
    )
}

/// The views of the entries of a wire map, entry by entry.
pub open spec fn entries_view(entries: Seq<(String, Value)>) -> Seq<(Seq<char>, ValueView)>
    decreases entries,
{
    Seq::new(
        entries.len(),
        |i: int|
            if 0 <= i < entries.len() {
                (entries[i].0@, entries[i].1.view())
            } else {
                (Seq::empty(), ValueView::Nil)
            },
    )
}

/// Whether two byte strings hold the same bytes.
fn same_bytes(a: &Vec<u8>, b: &Vec<u8>) -> (r: bool)
    ensures
        r == (a@ == b@),
{
    if a.len() != b.len() {
        return false;
    }
    let mut i: usize = 0;
    while i < a.len()
        invariant
            i <= a.len(),
            a.len() == b.len(),
            forall|k: int| 0 <= k < i ==> a@[k] == b@[k],
        decreases a.len() - i,
    {
        if a[i] != b[i] {
            return false;
        }
        i += 1;
    }
    assert(a@ =~= b@);
    true
}

/// Whether two lists of wire values hold the same values in the same order.
fn same_items(a: &Vec<Value>, b: &Vec<Value>) -> (r: bool)
    ensures
        r == (items_view(a@) == items_view(b@)),
    decreases a,
{
    if a.len() != b.len() {
        assert(items_view(a@).len() != items_view(b@).len());
        return false;
    }
    let mut i: usize = 0;
    while i < a.len()
        invariant
            i <= a.len(),
            a.len() == b.len(),
            forall|k: int| 0 <= k < i ==> items_view(a@)[k] == items_view(b@)[k],
        decreases a.len() - i,
    {
        if !a[i].same(&b[i]) {
            assert(items_view(a@)[i as int] != items_view(b@)[i as int]);
            return false;
        }
        i += 1;
    }
    assert(items_view(a@) =~= items_view(b@));
    true
}

/// Whether two lists of entries hold the same keys and values in the same
/// order.
fn same_entries(a: &Vec<(String, Value)>, b: &Vec<(String, Value)>) -> (r: bool)
    ensures
        r == (entries_view(a@) == entries_view(b@)),
    decreases a,
{
    if a.len() != b.len() {
        assert(entries_view(a@).len() != entries_view(b@).len());
        return false;
    }
    let mut i: usize = 0;
    while i < a.len()
        invariant
            i <= a.len(),
            a.len() == b.len(),
            forall|k: int| 0 <= k < i ==> entries_view(a@)[k] == entries_view(b@)[k],
        decreases a.len() - i,
    {
        if !(a[i].0 == b[i].0) || !a[i].1.same(&b[i].1) {
            assert(entries_view(a@)[i as int] != entries_view(b@)[i as int]);
            return false;
        }
        i += 1;
    }
    assert(entries_view(a@) =~= entries_view(b@));
    true
}

impl Value {
    /// Whether two wire values hold the same.
    pub fn same(&self, other: &Value) -> (r: bool)
        ensures
            r == (self@ == other@),
        decreases self,
    {
        match self {
            Value::Nil => match other {
                Value::Nil => true,
                _ => false,
            },
            Value::Boolean(a) => match other {
                Value::Boolean(b) => *a == *b,
                _ => false,
            },
            Value::Integer(a) => match other {
                Value::Integer(b) => a.same(b),
                _ => false,
            },
            Value::Float(a) => match other {
                Value::Float(b) => a.bits == b.bits,
                _ => false,
            },
            Value::String(a) => match other {
                Value::String(b) => *a == *b,
                _ => false,
            },
            Value::Binary(a) => match other {
                Value::Binary(b) => same_bytes(a, b),
                _ => false,
            },
            Value::Array(a) => match other {
                Value::Array(b) => same_items(a, b),
                _ => false,
            },
            Value::Mapping(a) => match other {
                Value::Mapping(b) => same_entries(a, b),
                _ => false,
            },
        }
    }
}

/// A copy of the bytes.
pub fn copy_bytes(bytes: &Vec<u8>) -> (r: Vec<u8>)
    ensures
        r@ == bytes@,
{
    let mut out: Vec<u8> = Vec::new();
    let mut i: usize = 0;
    while i < bytes.len()
        invariant
            i <= bytes.len(),
            out@ == bytes@.subrange(0, i as int),
        decreases bytes.len() - i,
    {
        out.push(bytes[i]);
        i += 1;
    }
    assert(bytes@.subrange(0, bytes@.len() as int) == bytes@);
    out
}

/// A copy of the values, in the same order.
fn copy_items(items: &Vec<Value>) -> (r: Vec<Value>)
    ensures
        items_view(r@) == items_view(items@),
    decreases items,
{
    let mut out: Vec<Value> = Vec::new();
    let mut i: usize = 0;
    while i < items.len()
        invariant
            i <= items.len(),
            items_view(out@) == items_view(items@).subrange(0, i as int),
        decreases items.len() - i,
    {
        let item = items[i].clone();
        proof {
            lemma_items_view_push(out@, item);
            let all = items_view(items@);
            assert(all.subrange(0, i + 1) == all.subrange(0, i as int).push(all[i as int]));
        }
        out.push(item);
        i += 1;
    }
    assert(items_view(items@).subrange(0, items@.len() as int) == items_view(items@));
    out
}

/// A copy of the entries, in the same order.
fn copy_entries(entries: &Vec<(String, Value)>) -> (r: Vec<(String, Value)>)
    ensures
        entries_view(r@) == entries_view(entries@),
    decreases entries,
{
    let mut out: Vec<(String, Value)> = Vec::new();
    let mut i: usize = 0;
    while i < entries.len()
        invariant
            i <= entries.len(),
            entries_view(out@) == entries_view(entries@).subrange(0, i as int),
        decreases entries.len() - i,
    {
        let entry = (entries[i].0.clone(), entries[i].1.clone());
        proof {
            lemma_entries_view_push(out@, entry);
            let all = entries_view(entries@);
            assert(all.subrange(0, i + 1) == all.subrange(0, i as int).push(all[i as int]));
        }
        out.push(entry);
        i += 1;
    }
    assert(entries_view(entries@).subrange(0, entries@.len() as int) == entries_view(entries@));
    out
}

impl Clone for Value {
    /// A copy that holds the same, through every array and map.
    fn clone(&self) -> (r: Value)
        ensures
            r@ == self@,
        decreases self,
    {
        match self {
            Value::Nil => Value::Nil,
            Value::Boolean(b) => Value::Boolean(*b),
            Value::Integer(n) => Value::Integer(*n),
            Value::Float(d) => Value::Float(*d),
            Value::String(s) => Value::String(s.clone()),
            Value::Binary(b) => Value::Binary(copy_bytes(b)),
            Value::Array(items) => Value::Array(copy_items(items)),
            Value::Mapping(entries) => Value::Mapping(copy_entries(entries)),
        }
    }
}

impl PartialEq for Value {
    fn eq(&self, other: &Value) -> (r: bool) {
        self.same(other)
    }
}

impl vstd::std_specs::cmp::PartialEqSpecImpl for Value {
    open spec fn obeys_eq_spec() -> bool {
        true
    }

    open spec fn eq_spec(&self, other: &Value) -> bool {
        self@ == other@
    }
}

/// Appending an entry appends its view.
pub proof fn lemma_entries_view_push(entries: Seq<(String, Value)>, entry: (String, Value))
    ensures
        entries_view(entries.push(entry)) == entries_view(entries).push((entry.0@, entry.1@)),
{
    assert(entries_view(entries.push(entry)) =~= entries_view(entries).push((entry.0@, entry.1@)));
}

/// Taking an entry out takes its view out.
pub proof fn lemma_entries_view_remove(entries: Seq<(String, Value)>, p: int)
    requires
        0 <= p < entries.len(),
    ensures
        entries_view(entries.remove(p)) == entries_view(entries).remove(p),
        entries_view(entries)[p] == (entries[p].0@, entries[p].1@),
{
    assert(entries_view(entries.remove(p)) =~= entries_view(entries).remove(p));
}

/// Appending an item appends its view.
pub proof fn lemma_items_view_push(items: Seq<Value>, item: Value)
    ensures
        items_view(items.push(item)) == items_view(items).push(item@),
{
    assert(items_view(items.push(item)) =~= items_view(items).push(item@));
}

} // verus!
