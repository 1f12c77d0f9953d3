use vstd::prelude::*;

verus! {

/// A structured configuration / tool-input value.
///
/// Mirrors the JSON data model except that numbers are carried as their
/// decimal text, so no information is lost and no floating point is needed.
#[derive(Debug, PartialEq)]
pub enum JsonValue {
    Null,
    Bool(bool),
    /// A number, kept as its decimal text (for example `"0.85"` or `"1000"`).
    Num(String),
    Str(String),
    Arr(Vec<JsonValue>),
    Obj(Vec<(String, JsonValue)>),
}

/// The ghost shape of a value: the same structure over mathematical
/// sequences. Two values of one shape hold the same booleans, number
/// texts, strings, elements and entries, all the way down.
pub ghost enum JsonShape {
    Null,
    Bool(bool),
    Num(Seq<char>),
    Str(Seq<char>),
    Arr(Seq<JsonShape>),
    Obj(Seq<(Seq<char>, JsonShape)>),
}

/// The shape of a value.
pub open spec fn shape_of(v: JsonValue) -> JsonShape
    decreases v,
{
    match v {
        JsonValue::Null => JsonShape::Null,
        JsonValue::Bool(b) => JsonShape::Bool(b),
        JsonValue::Num(t) => JsonShape::Num(t@),
        JsonValue::Str(s) => JsonShape::Str(s@),
        JsonValue::Arr(items) => JsonShape::Arr(shapes_of(items@)),
        JsonValue::Obj(entries) => JsonShape::Obj(entry_shapes_of(entries@)),
    }
}

/// The shapes of a run of values.
pub open spec fn shapes_of(items: Seq<JsonValue>) -> Seq<JsonShape>
    decreases items,
{
    if items.len() == 0 {
        Seq::empty()
    } else {
        seq![shape_of(items[0])] + shapes_of(items.drop_first())
    }
}

/// The keyed shapes of a run of entries.
pub open spec fn entry_shapes_of(entries: Seq<(String, JsonValue)>) -> Seq<(Seq<char>, JsonShape)>
    decreases entries,
{
    if entries.len() == 0 {
        Seq::empty()
    } else {
        seq![(entries[0].0@, shape_of(entries[0].1))] + entry_shapes_of(entries.drop_first())
    }
}

proof fn lemma_shapes_of_elementwise(a: Seq<JsonValue>, b: Seq<JsonValue>)
    requires
        a.len() == b.len(),
        forall|j: int| 0 <= j < a.len() ==> shape_of(#[trigger] a[j]) == shape_of(b[j]),
    ensures
        shapes_of(a) == shapes_of(b),
    decreases a.len(),
{
    if a.len() > 0 {
        let ta = a.drop_first();
        let tb = b.drop_first();
        assert forall|j: int| 0 <= j < ta.len() implies shape_of(#[trigger] ta[j]) == shape_of(
            tb[j],
        ) by {
            assert(ta[j] == a[j + 1]);
            assert(tb[j] == b[j + 1]);
        }
        lemma_shapes_of_elementwise(ta, tb);
    }
}

proof fn lemma_entry_shapes_elementwise(a: Seq<(String, JsonValue)>, b: Seq<(String, JsonValue)>)
    requires
        a.len() == b.len(),
        forall|j: int|
            0 <= j < a.len() ==> (#[trigger] a[j]).0@ == b[j].0@ && shape_of(a[j].1) == shape_of(
                b[j].1,
            ),
    ensures
        entry_shapes_of(a) == entry_shapes_of(b),
    decreases a.len(),
{
    if a.len() > 0 {
        let ta = a.drop_first();
        let tb = b.drop_first();
        assert forall|j: int|
            0 <= j < ta.len() implies (#[trigger] ta[j]).0@ == tb[j].0@ && shape_of(ta[j].1)
            == shape_of(tb[j].1) by {
            assert(ta[j] == a[j + 1]);
            assert(tb[j] == b[j + 1]);
        }
        lemma_entry_shapes_elementwise(ta, tb);
    }
}

/// Copy a value structurally: the copy has the original's shape.
#[verifier::loop_isolation(false)]
pub fn copy_json(v: &JsonValue) -> (r: JsonValue)
    ensures
        shape_of(r) == shape_of(*v),
    decreases *v,
{
    match v {
        JsonValue::Null => JsonValue::Null,
        JsonValue::Bool(b) => JsonValue::Bool(*b),
        JsonValue::Num(s) => JsonValue::Num(s.clone()),
        JsonValue::Str(s) => JsonValue::Str(s.clone()),
        JsonValue::Arr(items) => {
            let n = items.len();
            let mut out: Vec<JsonValue> = Vec::new();
            let mut i: usize = 0;
            while i < n
                invariant
                    n == items@.len(),
                    i <= n,
                    out@.len() == i,
                    forall|j: int|
                        0 <= j < i ==> shape_of(#[trigger] out@[j]) == shape_of(items@[j]),
                decreases n - i,
            {
                proof {
                    assert(decreases_to!(*v => items@[i as int]));
                }
                out.push(copy_json(&items[i]));
                i += 1;
            }
            proof {
                lemma_shapes_of_elementwise(out@, items@);
            }
            JsonValue::Arr(out)
        }
        JsonValue::Obj(entries) => {
            let n = entries.len();
            let mut out: Vec<(String, JsonValue)> = Vec::new();
            let mut i: usize = 0;
            while i < n
                invariant
                    n == entries@.len(),
                    i <= n,
                    out@.len() == i,
                    forall|j: int|
                        0 <= j < i ==> (#[trigger] out@[j]).0@ == entries@[j].0@ && shape_of(
                            out@[j].1,
                        ) == shape_of(entries@[j].1),
                decreases n - i,
            {
                proof {
                    assert(decreases_to!(*v => entries@[i as int].1));
                }
                out.push((entries[i].0.clone(), copy_json(&entries[i].1)));
                i += 1;
            }
            proof {
                lemma_entry_shapes_elementwise(out@, entries@);
            }
            JsonValue::Obj(out)
        }
    }
}

impl Clone for JsonValue {
    /// A structural copy of the same shape.
    fn clone(&self) -> (r: JsonValue)
        ensures
            shape_of(r) == shape_of(*self),
    {
        copy_json(self)
    }
}

/// The value bound to `key` in an object's entry list: first match wins.
pub open spec fn lookup(entries: Seq<(String, JsonValue)>, key: Seq<char>) -> Option<JsonValue>
    decreases entries.len(),
{
    if entries.len() == 0 {
        None
    } else if entries[0].0@ == key {
        Some(entries[0].1)
    } else {
        lookup(entries.drop_first(), key)
    }
}

/// Lookup after a shallow merge: keys of `source` win, the rest fall
/// through to `target`.
pub open spec fn merged_lookup(
    target: Seq<(String, JsonValue)>,
    source: Seq<(String, JsonValue)>,
    key: Seq<char>,
) -> Option<JsonValue> {
    match lookup(source, key) {
        Some(v) => Some(v),
        None => lookup(target, key),
    }
}

proof fn lemma_lookup_update(
    entries: Seq<(String, JsonValue)>,
    i: int,
    pair: (String, JsonValue),
    k: Seq<char>,
)
    requires
        0 <= i < entries.len(),
        entries[i].0@ == pair.0@,
        forall|j: int| 0 <= j < i ==> (#[trigger] entries[j]).0@ != pair.0@,
    ensures
        lookup(entries.update(i, pair), k) == (
            if k == pair.0@ {
                Some(pair.1)
            } else {
                lookup(entries, k)
            }
        ),
    decreases i,
{
    let upd = entries.update(i, pair);
    assert(upd.len() == entries.len());
    if i == 0 {
        assert(upd[0] == pair);
        assert(entries[0].0@ == pair.0@);
        if k != pair.0@ {
            assert(upd.drop_first() =~= entries.drop_first());
            assert(lookup(upd, k) == lookup(upd.drop_first(), k));
            assert(lookup(entries, k) == lookup(entries.drop_first(), k));
        }
    } else {
        assert(upd[0] == entries[0]);
        assert(entries[0].0@ != pair.0@);
        if k == entries[0].0@ {
            assert(lookup(upd, k) == Some(upd[0].1));
            assert(lookup(entries, k) == Some(entries[0].1));
        } else {
            let sub = entries.drop_first();
            assert(sub[i - 1] == entries[i]);
            assert forall|j: int| 0 <= j < i - 1 implies (#[trigger] sub[j]).0@ != pair.0@ by {
                assert(sub[j] == entries[j + 1]);
            }
            lemma_lookup_update(sub, i - 1, pair, k);
            assert(upd.drop_first() =~= sub.update(i - 1, pair));
            assert(lookup(upd, k) == lookup(sub.update(i - 1, pair), k));
            assert(lookup(entries, k) == lookup(sub, k));
        }
    }
}

proof fn lemma_lookup_push(
    entries: Seq<(String, JsonValue)>,
    pair: (String, JsonValue),
    k: Seq<char>,
)
    ensures
        lookup(entries.push(pair), k) == (
            match lookup(entries, k) {
                Some(v) => Some(v),
                None => if k == pair.0@ {
                    Some(pair.1)
                } else {
                    None
                },
            }
        ),
    decreases entries.len(),
{
    let pushed = entries.push(pair);
    if entries.len() == 0 {
        assert(pushed[0] == pair);
        if k != pair.0@ {
            assert(pushed.drop_first() =~= Seq::<(String, JsonValue)>::empty());
            assert(lookup(pushed.drop_first(), k) is None);
        }
    } else {
        assert(pushed[0] == entries[0]);
        if k != entries[0].0@ {
            assert(pushed.drop_first() =~= entries.drop_first().push(pair));
            lemma_lookup_push(entries.drop_first(), pair, k);
            assert(lookup(pushed, k) == lookup(entries.drop_first().push(pair), k));
            assert(lookup(entries, k) == lookup(entries.drop_first(), k));
        }
    }
}

proof fn lemma_lookup_none_when_no_key(entries: Seq<(String, JsonValue)>, key: Seq<char>)
    requires
        forall|j: int| 0 <= j < entries.len() ==> (#[trigger] entries[j]).0@ != key,
    ensures
        lookup(entries, key) is None,
    decreases entries.len(),
{
    if entries.len() > 0 {
        let sub = entries.drop_first();
        assert forall|j: int| 0 <= j < sub.len() implies (#[trigger] sub[j]).0@ != key by {
            assert(sub[j] == entries[j + 1]);
        }
        lemma_lookup_none_when_no_key(sub, key);
    }
}

proof fn lemma_lookup_first_match(entries: Seq<(String, JsonValue)>, i: int, key: Seq<char>)
    requires
        0 <= i < entries.len(),
        entries[i].0@ == key,
        forall|j: int| 0 <= j < i ==> (#[trigger] entries[j]).0@ != key,
    ensures
        lookup(entries, key) == Some(entries[i].1),
    decreases i,
{
    if i > 0 {
        let sub = entries.drop_first();
        assert(sub[i - 1] == entries[i]);
        assert forall|j: int| 0 <= j < i - 1 implies (#[trigger] sub[j]).0@ != key by {
            assert(sub[j] == entries[j + 1]);
        }
        lemma_lookup_first_match(sub, i - 1, key);
        assert(lookup(entries, key) == lookup(sub, key));
    }
}

/// Bind `key` to `val` in an entry list, overwriting the first entry with
/// that key, or appending when the key is absent.
#[verifier::loop_isolation(false)]
pub fn set_entry(entries: &mut Vec<(String, JsonValue)>, key: String, val: JsonValue)
    ensures
        forall|k: Seq<char>| #[trigger] lookup(final(entries)@, k) == (
            if k == key@ {
                Some(val)
            } else {
                lookup(old(entries)@, k)
            }
        ),
{
    let ghost orig = entries@;
    let ghost gpair = (key, val);
    let n = entries.len();
    let mut i: usize = 0;
    while i < n
        invariant
            n == entries.len(),
            i <= n,
            entries@ == orig,
            gpair.0 == key,
            gpair.1 == val,
            forall|j: int| 0 <= j < i ==> (#[trigger] orig[j]).0@ != key@,
        decreases n - i,
    {
        if crate::strutil::str_eq(entries[i].0.as_str(), key.as_str()) {
            let _old_pair = entries.remove(i);
            entries.insert(i, (key, val));
            proof {
                assert(entries@ =~= orig.update(i as int, gpair));
                assert forall|k: Seq<char>| #[trigger] lookup(entries@, k) == (
                    if k == gpair.0@ {
                        Some(gpair.1)
                    } else {
                        lookup(orig, k)
                    }
                ) by {
                    lemma_lookup_update(orig, i as int, gpair, k);
                }
            }
            return;
        }
        i += 1;
    }
    entries.push((key, val));
    proof {
        assert(entries@ =~= orig.push(gpair));
        assert forall|k: Seq<char>| #[trigger] lookup(entries@, k) == (
            if k == gpair.0@ {
                Some(gpair.1)
            } else {
                lookup(orig, k)
            }
        ) by {
            lemma_lookup_push(orig, gpair, k);
            lemma_lookup_none_when_no_key(orig, gpair.0@);
        }
    }
}

/// Merge the entries of `source` into `target`: keys of `source`
/// overwrite or extend `target`.
#[verifier::loop_isolation(false)]
fn merge_entries(
    tgt_entries: &mut Vec<(String, JsonValue)>,
    mut src_entries: Vec<(String, JsonValue)>,
)
    ensures
        forall|k: Seq<char>| #[trigger] lookup(final(tgt_entries)@, k)
            == merged_lookup(old(tgt_entries)@, src_entries@, k),
{
    let ghost orig_t = tgt_entries@;
    let ghost orig_s = src_entries@;
    loop
        invariant
            src_entries@ =~= orig_s.subrange(0, src_entries@.len() as int),
            src_entries@.len() <= orig_s.len(),
            forall|k: Seq<char>| #[trigger] lookup(tgt_entries@, k)
                == merged_lookup(
                    orig_t,
                    orig_s.subrange(src_entries@.len() as int, orig_s.len() as int),
                    k,
                ),
        decreases src_entries@.len(),
    {
        let ghost before = src_entries@;
        match src_entries.pop() {
            Some((k, v)) => {
                let ghost mid = tgt_entries@;
                let ghost pair = (k, v);
                set_entry(tgt_entries, k, v);
                proof {
                    let i = before.len() - 1;
                    assert(orig_s[i] == pair);
                    let done_before = orig_s.subrange(i + 1, orig_s.len() as int);
                    let done_after = orig_s.subrange(i, orig_s.len() as int);
                    assert(done_after[0] == orig_s[i]);
                    assert(done_after.drop_first() =~= done_before);
                    assert forall|kk: Seq<char>| #[trigger] lookup(tgt_entries@, kk)
                        == merged_lookup(orig_t, done_after, kk) by {
                        if kk == pair.0@ {
                            assert(lookup(done_after, kk) == Some(pair.1));
                        } else {
                            assert(lookup(done_after, kk) == lookup(done_before, kk));
                            assert(lookup(mid, kk) == merged_lookup(orig_t, done_before, kk));
                        }
                    }
                }
            }
            None => {
                proof {
                    assert(orig_s.subrange(0, orig_s.len() as int) =~= orig_s);
                }
                return;
            }
        }
    }
}

/// Shallow merge of `source` into `target`, as the configuration update
/// tool applies it: when both are objects, every key of `source` overwrites
/// or extends `target`; any other combination returns `target` unchanged.
pub fn merge_json(target: JsonValue, source: JsonValue) -> (r: JsonValue)
    ensures
        (target is Obj && source is Obj) ==> {
            &&& r is Obj
            &&& forall|k: Seq<char>| #[trigger] lookup(r->Obj_0@, k)
                == merged_lookup(target->Obj_0@, source->Obj_0@, k)
        },
        !(target is Obj && source is Obj) ==> r == target,
{
    match (target, source) {
        (JsonValue::Obj(mut tgt_entries), JsonValue::Obj(src_entries)) => {
            merge_entries(&mut tgt_entries, src_entries);
            JsonValue::Obj(tgt_entries)
        }
        (t, _) => t,
    }
}

/// The entry bound to `key` when this value is an object holding it.
#[verifier::loop_isolation(false)]
pub fn get<'a>(v: &'a JsonValue, key: &str) -> (r: Option<&'a JsonValue>)
    ensures
        match *v {
            JsonValue::Obj(entries) => {
                match lookup(entries@, key@) {
                    Some(found) => r is Some && *r->0 == found,
                    None => r is None,
                }
            },
            _ => r is None,
        },
{
    match v {
        JsonValue::Obj(entries) => {
            let n = entries.len();
            let mut i: usize = 0;
            while i < n
                invariant
                    n == entries@.len(),
                    i <= n,
                    forall|j: int| 0 <= j < i ==> (#[trigger] entries@[j]).0@ != key@,
                decreases n - i,
            {
                if crate::strutil::str_eq(entries[i].0.as_str(), key) {
                    proof {
                        lemma_lookup_first_match(entries@, i as int, key@);
                    }
                    return Some(&entries[i].1);
                }
                i += 1;
            }
            proof {
                lemma_lookup_none_when_no_key(entries@, key@);
            }
            None
        }
        _ => None,
    }
}

/// The string payload of a `Str` value.
pub fn as_str<'a>(v: &'a JsonValue) -> (r: Option<&'a String>)
    ensures
        match *v {
            JsonValue::Str(s) => r is Some && *r->0 == s,
            _ => r is None,
        },
{
    match v {
        JsonValue::Str(s) => Some(s),
        _ => None,
    }
}

/// The boolean payload of a `Bool` value.
pub fn as_bool(v: &JsonValue) -> (r: Option<bool>)
    ensures
        match *v {
            JsonValue::Bool(b) => r == Some(b),
            _ => r is None,
        },
{
    match v {
        JsonValue::Bool(b) => Some(*b),
        _ => None,
    }
}

proof fn lemma_lookup_remove_other(entries: Seq<(String, JsonValue)>, i: int, key: Seq<char>, k: Seq<char>)
    requires
        0 <= i < entries.len(),
        entries[i].0@ == key,
        forall|j: int| 0 <= j < i ==> (#[trigger] entries[j]).0@ != key,
        k != key,
    ensures
        lookup(entries.remove(i), k) == lookup(entries, k),
    decreases i,
{
    let rem = entries.remove(i);
    if i == 0 {
        assert(rem =~= entries.drop_first());
    } else {
        assert(rem[0] == entries[0]);
        if k != entries[0].0@ {
            let sub = entries.drop_first();
            assert(sub[i - 1] == entries[i]);
            assert forall|j: int| 0 <= j < i - 1 implies (#[trigger] sub[j]).0@ != key by {
                assert(sub[j] == entries[j + 1]);
            }
            lemma_lookup_remove_other(sub, i - 1, key, k);
            assert(rem.drop_first() =~= sub.remove(i - 1));
            assert(lookup(rem, k) == lookup(sub.remove(i - 1), k));
            assert(lookup(entries, k) == lookup(sub, k));
        }
    }
}

/// Take the value bound to `key` out of an entry list, removing the
/// entry that held it; lookups of every other key are unchanged.
#[verifier::loop_isolation(false)]
pub fn take_entry(entries: &mut Vec<(String, JsonValue)>, key: &str) -> (r: Option<JsonValue>)
    ensures
        r == lookup(old(entries)@, key@),
        forall|k: Seq<char>| k != key@ ==> #[trigger] lookup(final(entries)@, k) == lookup(
            old(entries)@,
            k,
        ),
{
    let ghost orig = entries@;
    let n = entries.len();
    let mut i: usize = 0;
    while i < n
        invariant
            n == entries.len(),
            i <= n,
            entries@ == orig,
            forall|j: int| 0 <= j < i ==> (#[trigger] orig[j]).0@ != key@,
        decreases n - i,
    {
        if crate::strutil::str_eq(entries[i].0.as_str(), key) {
            proof {
                lemma_lookup_first_match(orig, i as int, key@);
            }
            let (_k, v) = entries.remove(i);
            proof {
                assert forall|k: Seq<char>| k != key@ implies #[trigger] lookup(entries@, k)
                    == lookup(orig, k) by {
                    lemma_lookup_remove_other(orig, i as int, key@, k);
                }
            }
            return Some(v);
        }
        i += 1;
    }
    proof {
        lemma_lookup_none_when_no_key(orig, key@);
    }
    None
}

} // verus!
