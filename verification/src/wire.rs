//! The tree of values that payloads are exchanged as, and the contract between
//! a data type and its shape in that tree.

use vstd::prelude::*;
use vstd::string::StringExecFns;

verus! {

/// A payload as a tree.
#[derive(Debug, PartialEq, Eq)]
pub enum Value {
    /// Nothing.
    Null,
    /// True or false.
    Boolean(bool),
    /// A whole number.
    Integer(i128),
    /// A number that is not whole, as it was written.
    Decimal(String),
    /// A piece of text.
    Text(String),
    /// Values in order.
    Array(Vec<Value>),
    /// Named values, the members, in order.
    Object(Vec<(String, Value)>),
}

/// The mathematical content of a [`Value`].
pub enum ValueView {
    Null,
    Boolean(bool),
    Integer(int),
    Decimal(Seq<char>),
    Text(Seq<char>),
    Array(Seq<ValueView>),
    Object(Seq<(Seq<char>, ValueView)>),
}

/// The mathematical content of a value: the same tree, over sequences.
pub open spec fn content(value: Value) -> ValueView
    decreases value,
{
    match value {
        Value::Null => ValueView::Null,
        Value::Boolean(b) => ValueView::Boolean(b),
        Value::Integer(n) => ValueView::Integer(n as int),
        Value::Decimal(s) => ValueView::Decimal(s@),
        Value::Text(s) => ValueView::Text(s@),
        Value::Array(values) => ValueView::Array(
            Seq::new(
                values.len() as nat,
                |i: int|
                    if 0 <= i < values.len() {
                        content(values[i])
                    } else {
                        ValueView::Null
                    },
            ),
        ),
        Value::Object(fields) => ValueView::Object(
            Seq::new(
                fields.len() as nat,
                |i: int|
                    if 0 <= i < fields.len() {
                        (fields[i].0@, content(fields[i].1))
                    } else {
                        (Seq::empty(), ValueView::Null)
                    },
            ),
        ),
    }
}

impl View for Value {
    type V = ValueView;

    open spec fn view(&self) -> ValueView {
        content(*self)
    }
}

impl DeepView for Value {
    type V = ValueView;

    open spec fn deep_view(&self) -> ValueView {
        self@
    }
}

/// The members of an object, each key and value by its view.
pub open spec fn members(fields: Seq<(String, Value)>) -> Seq<(Seq<char>, ValueView)> {
    Seq::new(fields.len(), |i: int| (fields[i].0@, fields[i].1@))
}

/// The items of an array, each by its view.
pub open spec fn items(values: Seq<Value>) -> Seq<ValueView> {
    Seq::new(values.len(), |i: int| values[i]@)
}

/// An object's view is the sequence of its members' views.
pub proof fn lemma_object_view(fields: Vec<(String, Value)>)
    ensures
        Value::Object(fields)@ == ValueView::Object(members(fields@)),
{
    reveal_with_fuel(content, 2);
    assert(Value::Object(fields)@->Object_0 =~= members(fields@));
}

/// An array's view is the sequence of its items' views.
pub proof fn lemma_array_view(values: Vec<Value>)
    ensures
        Value::Array(values)@ == ValueView::Array(items(values@)),
{
    reveal_with_fuel(content, 2);
    assert(Value::Array(values)@->Array_0 =~= items(values@));
}

/// Why a value does not have the shape of the type it was decoded as.
#[derive(Debug, Clone, Copy, PartialEq, Eq, Structural)]
pub enum DecodeError {
    /// The value is not an object.
    ExpectedObject,
    /// The value is not an array.
    ExpectedArray,
    /// The value is not text.
    ExpectedText,
    /// The value is not a whole number.
    ExpectedInteger,
    /// The value is neither true nor false.
    ExpectedBoolean,
    /// The number does not fit the type.
    IntegerOutOfRange,
    /// A member that has to be there is missing, be it the discriminator.
    MissingField,
    /// The name stands for no variant of the type.
    UnknownVariant,
    /// The text is not a date and time.
    InvalidTimestamp,
    /// A key occurs twice where each may occur once.
    DuplicateKey,
}

/// The value of the first member named `key` at or after position `start`.
pub open spec fn lookup_from(
    fields: Seq<(Seq<char>, ValueView)>,
    key: Seq<char>,
    start: int,
) -> Option<ValueView>
    decreases fields.len() - start,
{
    if start < 0 || start >= fields.len() {
        None
    } else if fields[start].0 == key {
        Some(fields[start].1)
    } else {
        lookup_from(fields, key, start + 1)
    }
}

/// The value of the first member named `key`, if there is one.
pub open spec fn lookup(fields: Seq<(Seq<char>, ValueView)>, key: Seq<char>) -> Option<
    ValueView,
> {
    lookup_from(fields, key, 0)
}

/// Equality of string slices by `str::eq` of the standard library: two slices
/// are equal exactly when they hold the same characters.
#[verifier::external_body]
pub(crate) fn str_eq(a: &str, b: &str) -> (r: bool)
    ensures
        r == (a@ == b@),
{
    a == b
}

/// Finds the first member named `key`.
pub fn find<'a>(fields: &'a Vec<(String, Value)>, key: &str) -> (r: Option<&'a Value>)
    ensures
        r matches Some(v) ==> lookup(members(fields@), key@) == Some(v@),
        r is None ==> lookup(members(fields@), key@) is None,
{
    let mut i: usize = 0;
    while i < fields.len()
        invariant
            i <= fields.len(),
            lookup(members(fields@), key@) == lookup_from(members(fields@), key@, i as int),
        decreases fields.len() - i,
    {
        if str_eq(fields[i].0.as_str(), key) {
            return Some(&fields[i].1);
        }
        i += 1;
    }
    None
}

/// The tree that holds a piece of text.
pub fn text(s: &str) -> (v: Value)
    ensures
        v@ == ValueView::Text(s@),
{
    Value::Text(String::from_str(s))
}

/// Starts an object without members.
pub fn new_object() -> (fields: Vec<(String, Value)>)
    ensures
        members(fields@) == Seq::<(Seq<char>, ValueView)>::empty(),
{
    let fields: Vec<(String, Value)> = Vec::new();
    assert(members(fields@) =~= Seq::<(Seq<char>, ValueView)>::empty());
    fields
}

/// Appends a member to an object under construction.
pub fn put(fields: &mut Vec<(String, Value)>, key: &str, value: Value)
    ensures
        members(final(fields)@) == members(old(fields)@).push((key@, value@)),
{
    fields.push((String::from_str(key), value));
    assert(members(fields@) =~= members(old(fields)@).push((key@, value@)));
}

/// A data type with a shape in the tree of values.
///
/// `encoded` and `decoded` say, over the views, what the shape is; `encode`
/// and `decode` compute them.
pub trait Wire: DeepView + Sized {
    /// Whether a view is one that a value of the type can have.
    spec fn valid(m: Self::V) -> bool;

    /// The tree that stands for a value.
    spec fn encoded(m: Self::V) -> ValueView;

    /// The value that a tree stands for, or why it stands for none.
    spec fn decoded(v: ValueView) -> Result<Self::V, DecodeError>;

    /// Builds the tree that stands for `self`; decoding it gives `self` back.
    fn encode(&self) -> (v: Value)
        ensures
            Self::valid(self.deep_view()),
            v@ == Self::encoded(self.deep_view()),
            Self::decoded(v@) == Ok::<Self::V, DecodeError>(self.deep_view()),
    ;

    /// Reads a value of the type off a tree.
    fn decode(v: &Value) -> (r: Result<Self, DecodeError>)
        ensures
            r matches Ok(x) ==> Self::decoded(v@) == Ok::<Self::V, DecodeError>(x.deep_view()),
            r matches Err(e) ==> Self::decoded(v@) == Err::<Self::V, DecodeError>(e),
    ;

    /// Decoding what was encoded gives the value back, and no value is
    /// encoded as null, which stands for an optional value that is absent.
    proof fn round_trip(m: Self::V)
        requires
            Self::valid(m),
        ensures
            Self::decoded(Self::encoded(m)) == Ok::<Self::V, DecodeError>(m),
            !(Self::encoded(m) is Null),
    ;
}

impl Wire for String {
    open spec fn valid(m: Seq<char>) -> bool {
        true
    }

    open spec fn encoded(m: Seq<char>) -> ValueView {
        ValueView::Text(m)
    }

    open spec fn decoded(v: ValueView) -> Result<Seq<char>, DecodeError> {
        match v {
            ValueView::Text(s) => Ok(s),
            _ => Err(DecodeError::ExpectedText),
        }
    }

    fn encode(&self) -> (v: Value) {
        Value::Text(self.clone())
    }

    fn decode(v: &Value) -> (r: Result<String, DecodeError>) {
        match v {
            Value::Text(s) => Ok(s.clone()),
            _ => Err(DecodeError::ExpectedText),
        }
    }

    proof fn round_trip(m: Seq<char>) {
    }
}

impl Wire for bool {
    open spec fn valid(m: bool) -> bool {
        true
    }

    open spec fn encoded(m: bool) -> ValueView {
        ValueView::Boolean(m)
    }

    open spec fn decoded(v: ValueView) -> Result<bool, DecodeError> {
        match v {
            ValueView::Boolean(b) => Ok(b),
            _ => Err(DecodeError::ExpectedBoolean),
        }
    }

    fn encode(&self) -> (v: Value) {
        Value::Boolean(*self)
    }

    fn decode(v: &Value) -> (r: Result<bool, DecodeError>) {
        match v {
            Value::Boolean(b) => Ok(*b),
            _ => Err(DecodeError::ExpectedBoolean),
        }
    }

    proof fn round_trip(m: bool) {
    }
}

impl Wire for u64 {
    open spec fn valid(m: u64) -> bool {
        true
    }

    open spec fn encoded(m: u64) -> ValueView {
        ValueView::Integer(m as int)
    }

    open spec fn decoded(v: ValueView) -> Result<u64, DecodeError> {
        match v {
            ValueView::Integer(n) => if 0 <= n <= u64::MAX {
                Ok(n as u64)
            } else {
                Err(DecodeError::IntegerOutOfRange)
            },
            _ => Err(DecodeError::ExpectedInteger),
        }
    }

    fn encode(&self) -> (v: Value) {
        Value::Integer(*self as i128)
    }

    fn decode(v: &Value) -> (r: Result<u64, DecodeError>) {
        match v {
            Value::Integer(n) => if 0 <= *n && *n <= u64::MAX as i128 {
                Ok(*n as u64)
            } else {
                Err(DecodeError::IntegerOutOfRange)
            },
            _ => Err(DecodeError::ExpectedInteger),
        }
    }

    proof fn round_trip(m: u64) {
    }
}

impl Wire for i32 {
    open spec fn valid(m: i32) -> bool {
        true
    }

    open spec fn encoded(m: i32) -> ValueView {
        ValueView::Integer(m as int)
    }

    open spec fn decoded(v: ValueView) -> Result<i32, DecodeError> {
        match v {
            ValueView::Integer(n) => if i32::MIN <= n <= i32::MAX {
                Ok(n as i32)
            } else {
                Err(DecodeError::IntegerOutOfRange)
            },
            _ => Err(DecodeError::ExpectedInteger),
        }
    }

    fn encode(&self) -> (v: Value) {
        Value::Integer(*self as i128)
    }

    fn decode(v: &Value) -> (r: Result<i32, DecodeError>) {
        match v {
            Value::Integer(n) => if i32::MIN as i128 <= *n && *n <= i32::MAX as i128 {
                Ok(*n as i32)
            } else {
                Err(DecodeError::IntegerOutOfRange)
            },
            _ => Err(DecodeError::ExpectedInteger),
        }
    }

    proof fn round_trip(m: i32) {
    }
}

/// The trees that stand for the items of a sequence, in order.
pub open spec fn encoded_items<T: Wire>(models: Seq<T::V>) -> Seq<ValueView> {
    Seq::new(models.len(), |i: int| T::encoded(models[i]))
}

/// The items that a sequence of trees stands for; the error of the first
/// tree that stands for none.
pub open spec fn decoded_items<T: Wire>(values: Seq<ValueView>) -> Result<Seq<T::V>, DecodeError>
    decreases values.len(),
{
    if values.len() == 0 {
        Ok(Seq::empty())
    } else {
        match decoded_items::<T>(values.drop_last()) {
            Err(e) => Err(e),
            Ok(prefix) => match T::decoded(values.last()) {
                Err(e) => Err(e),
                Ok(x) => Ok(prefix.push(x)),
            },
        }
    }
}

/// An error among the first `k` trees is the error of the whole sequence.
pub proof fn lemma_decoded_items_error<T: Wire>(values: Seq<ValueView>, k: int)
    requires
        0 <= k <= values.len(),
        decoded_items::<T>(values.take(k)) is Err,
    ensures
        decoded_items::<T>(values) == decoded_items::<T>(values.take(k)),
    decreases values.len(),
{
    if k == values.len() {
        assert(values.take(k) =~= values);
    } else {
        assert(values.drop_last().take(k) =~= values.take(k));
        lemma_decoded_items_error::<T>(values.drop_last(), k);
    }
}

/// Decoding the encoded items of a sequence gives the sequence back.
pub proof fn lemma_items_round_trip<T: Wire>(models: Seq<T::V>)
    requires
        forall|i: int| 0 <= i < models.len() ==> T::valid(#[trigger] models[i]),
    ensures
        decoded_items::<T>(encoded_items::<T>(models)) == Ok::<Seq<T::V>, DecodeError>(models),
    decreases models.len(),
{
    let values = encoded_items::<T>(models);
    if models.len() == 0 {
        assert(models =~= Seq::empty());
    } else {
        assert(values.drop_last() =~= encoded_items::<T>(models.drop_last()));
        lemma_items_round_trip::<T>(models.drop_last());
        T::round_trip(models.last());
        assert(models.drop_last().push(models.last()) =~= models);
    }
}

impl<T: Wire> Wire for Vec<T> {
    open spec fn valid(m: Seq<T::V>) -> bool {
        forall|i: int| 0 <= i < m.len() ==> T::valid(#[trigger] m[i])
    }

    open spec fn encoded(m: Seq<T::V>) -> ValueView {
        ValueView::Array(encoded_items::<T>(m))
    }

    open spec fn decoded(v: ValueView) -> Result<Seq<T::V>, DecodeError> {
        match v {
            ValueView::Array(values) => decoded_items::<T>(values),
            _ => Err(DecodeError::ExpectedArray),
        }
    }

    fn encode(&self) -> (v: Value) {
        let mut out: Vec<Value> = Vec::new();
        let mut i: usize = 0;
        while i < self.len()
            invariant
                i <= self.len(),
                out.len() == i,
                forall|j: int|
                    0 <= j < i ==> (#[trigger] out[j])@ == T::encoded(self[j].deep_view()),
                forall|j: int| 0 <= j < i ==> T::valid(#[trigger] self.deep_view()[j]),
            decreases self.len() - i,
        {
            let item = self[i].encode();
            out.push(item);
            i += 1;
        }
        proof {
            lemma_array_view(out);
            assert(items(out@) =~= encoded_items::<T>(self.deep_view()));
            Self::round_trip(self.deep_view());
        }
        Value::Array(out)
    }

    fn decode(v: &Value) -> (r: Result<Vec<T>, DecodeError>) {
        match v {
            Value::Array(values) => {
                proof {
                    lemma_array_view(*values);
                }
                let ghost all = items(values@);
                let mut out: Vec<T> = Vec::new();
                let mut i: usize = 0;
                proof {
                    assert(all.take(0) =~= Seq::empty());
                    assert(out.deep_view() =~= Seq::empty());
                }
                while i < values.len()
                    invariant
                        i <= values.len(),
                        all == items(values@),
                        v@ == ValueView::Array(all),
                        decoded_items::<T>(all.take(i as int)) == Ok::<Seq<T::V>, DecodeError>(
                            out.deep_view(),
                        ),
                    decreases values.len() - i,
                {
                    proof {
                        assert(all.take(i + 1).drop_last() =~= all.take(i as int));
                        assert(all.take(i + 1).last() == values[i as int]@);
                    }
                    match T::decode(&values[i]) {
                        Ok(x) => {
                            let ghost before = out.deep_view();
                            out.push(x);
                            assert(out.deep_view() =~= before.push(x.deep_view()));
                        },
                        Err(e) => {
                            proof {
                                assert(decoded_items::<T>(all.take(i + 1)) == Err::<
                                    Seq<T::V>,
                                    DecodeError,
                                >(e));
                                lemma_decoded_items_error::<T>(all, i + 1);
                            }
                            return Err(e);
                        },
                    }
                    i += 1;
                }
                assert(all.take(i as int) =~= all);
                Ok(out)
            },
            _ => Err(DecodeError::ExpectedArray),
        }
    }

    proof fn round_trip(m: Seq<T::V>) {
        lemma_items_round_trip::<T>(m);
    }
}

/// The tree that stands for an optional value: null when it is absent.
pub open spec fn encoded_optional<T: Wire>(m: Option<T::V>) -> ValueView {
    match m {
        Some(x) => T::encoded(x),
        None => ValueView::Null,
    }
}

/// Whether an optional view is one that a value can have.
pub open spec fn valid_optional<T: Wire>(m: Option<T::V>) -> bool {
    m matches Some(x) ==> T::valid(x)
}

/// What the member named `key` stands for; it has to be there.
pub open spec fn required<T: Wire>(fields: Seq<(Seq<char>, ValueView)>, key: Seq<char>) -> Result<
    T::V,
    DecodeError,
> {
    match lookup(fields, key) {
        Some(v) => T::decoded(v),
        None => Err(DecodeError::MissingField),
    }
}

/// The optional value that a tree stands for: none for null.
pub open spec fn decoded_optional<T: Wire>(v: ValueView) -> Result<Option<T::V>, DecodeError> {
    match v {
        ValueView::Null => Ok(None),
        _ => match T::decoded(v) {
            Ok(x) => Ok(Some(x)),
            Err(e) => Err(e),
        },
    }
}

/// What the member named `key` stands for; a member that is missing or
/// null stands for an absent value.
pub open spec fn optional<T: Wire>(fields: Seq<(Seq<char>, ValueView)>, key: Seq<char>) -> Result<
    Option<T::V>,
    DecodeError,
> {
    match lookup(fields, key) {
        None => Ok(None),
        Some(v) => decoded_optional::<T>(v),
    }
}

/// What the member named `key` stands for, a sequence; a member that is
/// missing stands for the empty sequence.
pub open spec fn defaulted<T: Wire>(fields: Seq<(Seq<char>, ValueView)>, key: Seq<char>) -> Result<
    Seq<T::V>,
    DecodeError,
> {
    match lookup(fields, key) {
        None => Ok(Seq::empty()),
        Some(v) => Vec::<T>::decoded(v),
    }
}

/// Decoding what an optional value was encoded as gives it back.
pub proof fn lemma_optional_round_trip<T: Wire>(m: Option<T::V>)
    requires
        valid_optional::<T>(m),
    ensures
        decoded_optional::<T>(encoded_optional::<T>(m)) == Ok::<Option<T::V>, DecodeError>(m),
{
    match m {
        Some(x) => T::round_trip(x),
        None => {},
    }
}

/// Looking a name up from `start` on, in the first of two sequences of
/// members put end to end, falls through to the second.
proof fn lemma_lookup_from_first(
    a: Seq<(Seq<char>, ValueView)>,
    b: Seq<(Seq<char>, ValueView)>,
    key: Seq<char>,
    start: int,
)
    requires
        0 <= start <= a.len(),
    ensures
        lookup_from(a + b, key, start) == match lookup_from(a, key, start) {
            Some(v) => Some(v),
            None => lookup(b, key),
        },
    decreases a.len() - start,
{
    if start < a.len() {
        assert((a + b)[start] == a[start]);
        if a[start].0 != key {
            lemma_lookup_from_first(a, b, key, start + 1);
        }
    } else {
        lemma_lookup_from_second(a, b, key, 0);
    }
}

/// Looking a name up in the second of two sequences of members put end to
/// end.
proof fn lemma_lookup_from_second(
    a: Seq<(Seq<char>, ValueView)>,
    b: Seq<(Seq<char>, ValueView)>,
    key: Seq<char>,
    start: int,
)
    requires
        0 <= start <= b.len(),
    ensures
        lookup_from(a + b, key, a.len() + start) == lookup_from(b, key, start),
    decreases b.len() - start,
{
    if start < b.len() {
        assert((a + b)[a.len() + start] == b[start]);
        if b[start].0 != key {
            lemma_lookup_from_second(a, b, key, start + 1);
        }
    }
}

/// In two sequences of members put end to end, a name stands for what it
/// stands for in the first, and where the first lacks it, in the second.
pub proof fn lemma_lookup_concat(
    a: Seq<(Seq<char>, ValueView)>,
    b: Seq<(Seq<char>, ValueView)>,
    key: Seq<char>,
)
    ensures
        lookup(a + b, key) == match lookup(a, key) {
            Some(v) => Some(v),
            None => lookup(b, key),
        },
{
    lemma_lookup_from_first(a, b, key, 0);
}

/// Builds the tree that stands for an optional value.
pub fn encode_optional<T: Wire>(value: &Option<T>) -> (v: Value)
    ensures
        valid_optional::<T>(value.deep_view()),
        v@ == encoded_optional::<T>(value.deep_view()),
{
    match value {
        Some(x) => x.encode(),
        None => Value::Null,
    }
}

/// Decodes the member named `key`, which has to be there.
pub fn get_required<T: Wire>(fields: &Vec<(String, Value)>, key: &str) -> (r: Result<
    T,
    DecodeError,
>)
    ensures
        r matches Ok(x) ==> required::<T>(members(fields@), key@) == Ok::<T::V, DecodeError>(
            x.deep_view(),
        ),
        r matches Err(e) ==> required::<T>(members(fields@), key@) == Err::<T::V, DecodeError>(e),
{
    match find(fields, key) {
        Some(v) => T::decode(v),
        None => Err(DecodeError::MissingField),
    }
}

/// Decodes the member named `key`, which may be missing or null.
pub fn get_optional<T: Wire>(fields: &Vec<(String, Value)>, key: &str) -> (r: Result<
    Option<T>,
    DecodeError,
>)
    ensures
        r matches Ok(x) ==> optional::<T>(members(fields@), key@) == Ok::<
            Option<T::V>,
            DecodeError,
        >(x.deep_view()),
        r matches Err(e) ==> optional::<T>(members(fields@), key@) == Err::<
            Option<T::V>,
            DecodeError,
        >(e),
{
    match find(fields, key) {
        None => Ok(None),
        Some(Value::Null) => Ok(None),
        Some(v) => match T::decode(v) {
            Ok(x) => Ok(Some(x)),
            Err(e) => Err(e),
        },
    }
}

/// Decodes the member named `key`, a sequence that is empty when the
/// member is missing.
pub fn get_defaulted<T: Wire>(fields: &Vec<(String, Value)>, key: &str) -> (r: Result<
    Vec<T>,
    DecodeError,
>)
    ensures
        r matches Ok(x) ==> defaulted::<T>(members(fields@), key@) == Ok::<
            Seq<T::V>,
            DecodeError,
        >(x.deep_view()),
        r matches Err(e) ==> defaulted::<T>(members(fields@), key@) == Err::<
            Seq<T::V>,
            DecodeError,
        >(e),
{
    match find(fields, key) {
        None => {
            let empty: Vec<T> = Vec::new();
            assert(empty.deep_view() =~= Seq::<T::V>::empty());
            Ok(empty)
        },
        Some(v) => Vec::<T>::decode(v),
    }
}

/// Moves the members of `more` to the end of an object under construction.
pub fn put_all(fields: &mut Vec<(String, Value)>, more: Vec<(String, Value)>)
    ensures
        members(final(fields)@) == members(old(fields)@) + members(more@),
{
    let mut rest = more;
    fields.append(&mut rest);
    assert(members(fields@) =~= members(old(fields)@) + members(more@));
}

} // verus!
