//! Maps from text to text, kept in the order in which the keys came.

use crate::wire::{
    lemma_object_view, members, new_object, put, str_eq, DecodeError, Value, ValueView, Wire,
};
use vstd::prelude::*;

verus! {

/// Whether no key occurs twice among the pairs.
pub open spec fn distinct_keys(pairs: Seq<(Seq<char>, Seq<char>)>) -> bool {
    forall|i: int, j: int| 0 <= i < j < pairs.len() ==> pairs[i].0 != pairs[j].0
}

/// Whether one of the pairs has the key.
pub open spec fn has_key(pairs: Seq<(Seq<char>, Seq<char>)>, key: Seq<char>) -> bool {
    exists|i: int| 0 <= i < pairs.len() && (#[trigger] pairs[i]).0 == key
}

/// The position of a pair that has the key.
pub open spec fn index_of(pairs: Seq<(Seq<char>, Seq<char>)>, key: Seq<char>) -> int {
    choose|i: int| 0 <= i < pairs.len() && (#[trigger] pairs[i]).0 == key
}

/// The map that the pairs make up.
pub open spec fn as_map(pairs: Seq<(Seq<char>, Seq<char>)>) -> Map<Seq<char>, Seq<char>> {
    Map::new(|key: Seq<char>| has_key(pairs, key), |key: Seq<char>| pairs[index_of(pairs, key)].1)
}

/// Among pairs with distinct keys, a key is found at one position only.
pub proof fn lemma_index_of(pairs: Seq<(Seq<char>, Seq<char>)>, i: int)
    requires
        distinct_keys(pairs),
        0 <= i < pairs.len(),
    ensures
        has_key(pairs, pairs[i].0),
        index_of(pairs, pairs[i].0) == i,
{
    let key = pairs[i].0;
    let c = index_of(pairs, key);
    assert(0 <= c < pairs.len() && pairs[c].0 == key);
    if c < i {
        assert(pairs[c].0 != pairs[i].0);
    } else if i < c {
        assert(pairs[i].0 != pairs[c].0);
    }
}

/// Replacing the value of a key that the pairs have is putting the value
/// under the key in the map that they make up.
pub proof fn lemma_as_map_update(
    pairs: Seq<(Seq<char>, Seq<char>)>,
    i: int,
    value: Seq<char>,
)
    requires
        distinct_keys(pairs),
        0 <= i < pairs.len(),
    ensures
        distinct_keys(pairs.update(i, (pairs[i].0, value))),
        as_map(pairs.update(i, (pairs[i].0, value))) == as_map(pairs).insert(pairs[i].0, value),
{
    let key = pairs[i].0;
    let after = pairs.update(i, (key, value));
    assert forall|a: int, b: int| 0 <= a < b < after.len() implies after[a].0 != after[b].0 by {
        assert(pairs[a].0 != pairs[b].0);
    }
    assert forall|k: Seq<char>| has_key(after, k) <==> (k == key || has_key(pairs, k)) by {
        if has_key(after, k) {
            let j = index_of(after, k);
            assert(pairs[j].0 == k);
        }
        if has_key(pairs, k) {
            let j = index_of(pairs, k);
            assert(after[j].0 == k);
        }
        if k == key {
            assert(after[i].0 == k);
        }
    }
    assert forall|k: Seq<char>| has_key(after, k) implies #[trigger] as_map(after)[k] == as_map(
        pairs,
    ).insert(key, value)[k] by {
        let j = index_of(after, k);
        lemma_index_of(after, j);
        assert(pairs[j].0 == k);
        lemma_index_of(pairs, j);
    }
    assert(as_map(after) =~= as_map(pairs).insert(key, value));
}

/// Adding a pair with a key that the pairs lack is putting the value under
/// the key in the map that they make up.
pub proof fn lemma_as_map_push(
    pairs: Seq<(Seq<char>, Seq<char>)>,
    key: Seq<char>,
    value: Seq<char>,
)
    requires
        distinct_keys(pairs),
        !has_key(pairs, key),
    ensures
        distinct_keys(pairs.push((key, value))),
        as_map(pairs.push((key, value))) == as_map(pairs).insert(key, value),
{
    let after = pairs.push((key, value));
    assert forall|a: int, b: int| 0 <= a < b < after.len() implies after[a].0 != after[b].0 by {
        if b == pairs.len() {
            assert(pairs[a].0 != key);
        } else {
            assert(pairs[a].0 != pairs[b].0);
        }
    }
    assert forall|k: Seq<char>| has_key(after, k) <==> (k == key || has_key(pairs, k)) by {
        if has_key(after, k) {
            let j = index_of(after, k);
            if j < pairs.len() {
                assert(pairs[j].0 == k);
            }
        }
        if has_key(pairs, k) {
            let j = index_of(pairs, k);
            assert(after[j].0 == k);
        }
        if k == key {
            assert(after[pairs.len() as int].0 == k);
        }
    }
    assert forall|k: Seq<char>| has_key(after, k) implies #[trigger] as_map(after)[k] == as_map(
        pairs,
    ).insert(key, value)[k] by {
        let j = index_of(after, k);
        lemma_index_of(after, j);
        if j < pairs.len() {
            assert(pairs[j].0 == k);
            lemma_index_of(pairs, j);
        }
    }
    assert(as_map(after) =~= as_map(pairs).insert(key, value));
}

/// The position of the first entry with the key, if there is one.
fn position(entries: &Vec<(String, String)>, key: &str) -> (r: Option<usize>)
    ensures
        r matches Some(i) ==> i < entries.len() && entries.deep_view()[i as int].0 == key@,
        r is None ==> !has_key(entries.deep_view(), key@),
{
    let mut i: usize = 0;
    while i < entries.len()
        invariant
            i <= entries.len(),
            forall|j: int| 0 <= j < i ==> (#[trigger] entries.deep_view()[j]).0 != key@,
        decreases entries.len() - i,
    {
        if str_eq(entries[i].0.as_str(), key) {
            return Some(i);
        }
        i += 1;
    }
    None
}

/// A map from text to text. No key occurs twice, and the entries stay in the
/// order in which their keys were first added.
#[derive(Debug, PartialEq, Eq)]
pub struct StringMap {
    entries: Vec<(String, String)>,
}

impl DeepView for StringMap {
    type V = Seq<(Seq<char>, Seq<char>)>;

    closed spec fn deep_view(&self) -> Seq<(Seq<char>, Seq<char>)> {
        self.entries.deep_view()
    }
}

impl StringMap {
    #[verifier::type_invariant]
    spec fn well_formed(self) -> bool {
        distinct_keys(self.entries.deep_view())
    }

    /// The map as a mathematical map.
    pub open spec fn map(&self) -> Map<Seq<char>, Seq<char>> {
        as_map(self.deep_view())
    }

    /// A map without entries.
    pub fn new() -> (m: StringMap)
        ensures
            m.deep_view() == Seq::<(Seq<char>, Seq<char>)>::empty(),
    {
        let entries: Vec<(String, String)> = Vec::new();
        assert(entries.deep_view() =~= Seq::<(Seq<char>, Seq<char>)>::empty());
        StringMap { entries }
    }

    /// The map of the given entries; `None` where a key occurs twice.
    pub fn from_entries(entries: Vec<(String, String)>) -> (r: Option<StringMap>)
        ensures
            r is Some <==> distinct_keys(entries.deep_view()),
            r matches Some(m) ==> m.deep_view() == entries.deep_view(),
    {
        let ghost pairs = entries.deep_view();
        let mut i: usize = 0;
        while i < entries.len()
            invariant
                i <= entries.len(),
                pairs == entries.deep_view(),
                forall|a: int, b: int| 0 <= a < b < i ==> pairs[a].0 != pairs[b].0,
            decreases entries.len() - i,
        {
            let mut j: usize = 0;
            while j < i
                invariant
                    j <= i < entries.len(),
                    pairs == entries.deep_view(),
                    forall|a: int| 0 <= a < j ==> pairs[a].0 != pairs[i as int].0,
                decreases i - j,
            {
                if str_eq(entries[j].0.as_str(), entries[i].0.as_str()) {
                    assert(pairs[j as int].0 == pairs[i as int].0);
                    return None;
                }
                j += 1;
            }
            i += 1;
        }
        Some(StringMap { entries })
    }

    /// The entries, in order.
    pub fn entries(&self) -> (entries: &Vec<(String, String)>)
        ensures
            entries.deep_view() == self.deep_view(),
            distinct_keys(entries.deep_view()),
    {
        proof {
            use_type_invariant(self);
        }
        &self.entries
    }

    /// The number of entries.
    pub fn len(&self) -> (n: usize)
        ensures
            n == self.deep_view().len(),
    {
        self.entries.len()
    }

    /// The value that stands under `key`, if one does.
    pub fn get(&self, key: &str) -> (r: Option<&String>)
        ensures
            r is Some <==> has_key(self.deep_view(), key@),
            r matches Some(value) ==> value@ == self.deep_view()[index_of(
                self.deep_view(),
                key@,
            )].1,
            r is Some <==> self.map().contains_key(key@),
            r matches Some(value) ==> value@ == self.map()[key@],
    {
        proof {
            use_type_invariant(self);
        }
        match position(&self.entries, key) {
            Some(i) => {
                proof {
                    lemma_index_of(self.deep_view(), i as int);
                }
                Some(&self.entries[i].1)
            },
            None => None,
        }
    }

    /// Puts `value` under `key`. A key that the map has keeps its place and
    /// gives up its former value, which is returned; a new key goes to the
    /// end.
    pub fn insert(&mut self, key: String, value: String) -> (r: Option<String>)
        ensures
            has_key(old(self).deep_view(), key@) ==> {
                let i = index_of(old(self).deep_view(), key@);
                &&& r matches Some(former)
                &&& former@ == old(self).deep_view()[i].1
                &&& final(self).deep_view() == old(self).deep_view().update(i, (key@, value@))
            },
            !has_key(old(self).deep_view(), key@) ==> {
                &&& r is None
                &&& final(self).deep_view() == old(self).deep_view().push((key@, value@))
            },
            final(self).map() == old(self).map().insert(key@, value@),
            r is Some <==> old(self).map().contains_key(key@),
            r matches Some(former) ==> former@ == old(self).map()[key@],
    {
        proof {
            use_type_invariant(&*self);
        }
        let ghost before = self.deep_view();
        let mut entries: Vec<(String, String)> = Vec::new();
        assert(entries.deep_view() =~= Seq::<(Seq<char>, Seq<char>)>::empty());
        std::mem::swap(&mut self.entries, &mut entries);
        assert(entries.deep_view() == before);
        match position(&entries, key.as_str()) {
            Some(i) => {
                proof {
                    lemma_index_of(before, i as int);
                }
                let ghost k = key@;
                let ghost v = value@;
                entries.push((key, value));
                let former = entries.swap_remove(i);
                proof {
                    assert(entries.deep_view() =~= before.update(i as int, (k, v)));
                    assert(former.deep_view() == before[i as int]);
                    lemma_as_map_update(before, i as int, v);
                }
                self.entries = entries;
                Some(former.1)
            },
            None => {
                let ghost k = key@;
                let ghost v = value@;
                entries.push((key, value));
                proof {
                    assert(entries.deep_view() =~= before.push((k, v)));
                    lemma_as_map_push(before, k, v);
                }
                self.entries = entries;
                None
            },
        }
    }
}

impl Clone for StringMap {
    fn clone(&self) -> (r: StringMap)
        ensures
            r.deep_view() == self.deep_view(),
    {
        proof {
            use_type_invariant(self);
        }
        let mut entries: Vec<(String, String)> = Vec::new();
        let mut i: usize = 0;
        while i < self.entries.len()
            invariant
                i <= self.entries.len(),
                entries.len() == i,
                forall|j: int|
                    0 <= j < i ==> (#[trigger] entries.deep_view()[j]) == self.entries.deep_view()[j],
            decreases self.entries.len() - i,
        {
            let ghost before = entries.deep_view();
            let pair = (self.entries[i].0.clone(), self.entries[i].1.clone());
            entries.push(pair);
            assert(entries.deep_view() =~= before.push(self.entries.deep_view()[i as int]));
            i += 1;
        }
        assert(entries.deep_view() =~= self.entries.deep_view());
        StringMap { entries }
    }
}

/// The members that stand for the pairs: under each key its value, as text.
pub open spec fn encoded_entries(pairs: Seq<(Seq<char>, Seq<char>)>) -> Seq<
    (Seq<char>, ValueView),
> {
    Seq::new(pairs.len(), |i: int| (pairs[i].0, ValueView::Text(pairs[i].1)))
}

/// The pairs that members stand for. The first member that is not text, or
/// that has the key of an earlier one, makes the whole an error.
pub open spec fn decoded_entries(fields: Seq<(Seq<char>, ValueView)>) -> Result<
    Seq<(Seq<char>, Seq<char>)>,
    DecodeError,
>
    decreases fields.len(),
{
    if fields.len() == 0 {
        Ok(Seq::empty())
    } else {
        match decoded_entries(fields.drop_last()) {
            Err(e) => Err(e),
            Ok(prefix) => match fields.last().1 {
                ValueView::Text(value) => if has_key(prefix, fields.last().0) {
                    Err(DecodeError::DuplicateKey)
                } else {
                    Ok(prefix.push((fields.last().0, value)))
                },
                _ => Err(DecodeError::ExpectedText),
            },
        }
    }
}

/// Pairs that were decoded have distinct keys.
pub proof fn lemma_decoded_entries_distinct(fields: Seq<(Seq<char>, ValueView)>)
    ensures
        decoded_entries(fields) matches Ok(pairs) ==> distinct_keys(pairs) && pairs.len()
            == fields.len(),
    decreases fields.len(),
{
    if fields.len() > 0 {
        lemma_decoded_entries_distinct(fields.drop_last());
        if let Ok(prefix) = decoded_entries(fields.drop_last()) {
            if let Ok(pairs) = decoded_entries(fields) {
                assert forall|a: int, b: int| 0 <= a < b < pairs.len() implies pairs[a].0
                    != pairs[b].0 by {
                    if b == prefix.len() {
                        assert(prefix[a].0 != fields.last().0);
                    } else {
                        assert(prefix[a].0 != prefix[b].0);
                    }
                }
            }
        }
    }
}

/// An error among the first `k` members is the error of the whole.
pub proof fn lemma_decoded_entries_error(fields: Seq<(Seq<char>, ValueView)>, k: int)
    requires
        0 <= k <= fields.len(),
        decoded_entries(fields.take(k)) is Err,
    ensures
        decoded_entries(fields) == decoded_entries(fields.take(k)),
    decreases fields.len(),
{
    if k == fields.len() {
        assert(fields.take(k) =~= fields);
    } else {
        assert(fields.drop_last().take(k) =~= fields.take(k));
        lemma_decoded_entries_error(fields.drop_last(), k);
    }
}

/// Decoding the members that stand for pairs with distinct keys gives the
/// pairs back.
pub proof fn lemma_entries_round_trip(pairs: Seq<(Seq<char>, Seq<char>)>)
    requires
        distinct_keys(pairs),
    ensures
        decoded_entries(encoded_entries(pairs)) == Ok::<Seq<(Seq<char>, Seq<char>)>, DecodeError>(
            pairs,
        ),
    decreases pairs.len(),
{
    if pairs.len() == 0 {
        assert(pairs =~= Seq::empty());
    } else {
        let front = pairs.drop_last();
        assert(encoded_entries(pairs).drop_last() =~= encoded_entries(front));
        lemma_entries_round_trip(front);
        if has_key(front, pairs.last().0) {
            let i = index_of(front, pairs.last().0);
            assert(pairs[i].0 != pairs[pairs.len() - 1].0);
        }
        assert(front.push(pairs.last()) =~= pairs);
    }
}

impl Wire for StringMap {
    open spec fn valid(m: Seq<(Seq<char>, Seq<char>)>) -> bool {
        distinct_keys(m)
    }

    open spec fn encoded(m: Seq<(Seq<char>, Seq<char>)>) -> ValueView {
        ValueView::Object(encoded_entries(m))
    }

    open spec fn decoded(v: ValueView) -> Result<Seq<(Seq<char>, Seq<char>)>, DecodeError> {
        match v {
            ValueView::Object(fields) => decoded_entries(fields),
            _ => Err(DecodeError::ExpectedObject),
        }
    }

    fn encode(&self) -> (v: Value) {
        proof {
            use_type_invariant(self);
        }
        let mut fields = new_object();
        let mut i: usize = 0;
        while i < self.entries.len()
            invariant
                i <= self.entries.len(),
                members(fields@) == encoded_entries(self.entries.deep_view()).take(i as int),
            decreases self.entries.len() - i,
        {
            let ghost before = members(fields@);
            put(&mut fields, self.entries[i].0.as_str(), Value::Text(self.entries[i].1.clone()));
            assert(members(fields@) =~= encoded_entries(self.entries.deep_view()).take(i + 1));
            i += 1;
        }
        proof {
            assert(encoded_entries(self.entries.deep_view()).take(i as int) =~= encoded_entries(
                self.entries.deep_view(),
            ));
            lemma_object_view(fields);
            Self::round_trip(self.deep_view());
        }
        Value::Object(fields)
    }

    fn decode(v: &Value) -> (r: Result<StringMap, DecodeError>) {
        match v {
            Value::Object(fields) => {
                proof {
                    lemma_object_view(*fields);
                }
                let ghost all = members(fields@);
                let mut entries: Vec<(String, String)> = Vec::new();
                let mut i: usize = 0;
                proof {
                    assert(all.take(0) =~= Seq::empty());
                    assert(entries.deep_view() =~= Seq::<(Seq<char>, Seq<char>)>::empty());
                }
                while i < fields.len()
                    invariant
                        i <= fields.len(),
                        all == members(fields@),
                        v@ == ValueView::Object(all),
                        decoded_entries(all.take(i as int)) == Ok::<
                            Seq<(Seq<char>, Seq<char>)>,
                            DecodeError,
                        >(entries.deep_view()),
                    decreases fields.len() - i,
                {
                    proof {
                        assert(all.take(i + 1).drop_last() =~= all.take(i as int));
                        assert(all.take(i + 1).last() == all[i as int]);
                    }
                    match &fields[i].1 {
                        Value::Text(value) => {
                            if position(&entries, fields[i].0.as_str()).is_some() {
                                proof {
                                    assert(has_key(entries.deep_view(), all[i as int].0));
                                    assert(decoded_entries(all.take(i + 1)) == Err::<
                                        Seq<(Seq<char>, Seq<char>)>,
                                        DecodeError,
                                    >(DecodeError::DuplicateKey));
                                    lemma_decoded_entries_error(all, i + 1);
                                }
                                return Err(DecodeError::DuplicateKey);
                            }
                            let ghost before = entries.deep_view();
                            entries.push((fields[i].0.clone(), value.clone()));
                            assert(entries.deep_view() =~= before.push((all[i as int].0, value@)));
                        },
                        _ => {
                            proof {
                                assert(decoded_entries(all.take(i + 1)) == Err::<
                                    Seq<(Seq<char>, Seq<char>)>,
                                    DecodeError,
                                >(DecodeError::ExpectedText));
                                lemma_decoded_entries_error(all, i + 1);
                            }
                            return Err(DecodeError::ExpectedText);
                        },
                    }
                    i += 1;
                }
                proof {
                    assert(all.take(i as int) =~= all);
                    lemma_decoded_entries_distinct(all);
                }
                Ok(StringMap { entries })
            },
            _ => Err(DecodeError::ExpectedObject),
        }
    }

    proof fn round_trip(m: Seq<(Seq<char>, Seq<char>)>) {
        lemma_entries_round_trip(m);
    }
}

} // verus!
