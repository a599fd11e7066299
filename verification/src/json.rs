//! The settings document as the store reads it back, and the merge that lays
//! a persisted document over the defaults: what the user saved wins, nested
//! objects merge key by key, and every key the saved file lacks keeps its
//! default.
use vstd::prelude::*;
use crate::text::str_eq;

verus! {

/// A JSON document. Numbers keep their textual form: the merge never looks
/// inside them.
#[derive(Debug, PartialEq, Eq)]
pub enum JsonValue {
    Null,
    Bool(bool),
    Number(String),
    Text(String),
    Array(Vec<JsonValue>),
    Object(Vec<(String, JsonValue)>),
}

/// The mathematical value of a document; an object is its list of entries.
pub enum JsonView {
    Null,
    Bool(bool),
    Number(Seq<char>),
    Text(Seq<char>),
    Array(Seq<JsonView>),
    Object(Seq<(Seq<char>, JsonView)>),
}

pub open spec fn json_view(j: JsonValue) -> JsonView
    decreases j,
{
    match j {
        JsonValue::Null => JsonView::Null,
        JsonValue::Bool(b) => JsonView::Bool(b),
        JsonValue::Number(s) => JsonView::Number(s@),
        JsonValue::Text(s) => JsonView::Text(s@),
        JsonValue::Array(items) => JsonView::Array(items_view(items@)),
        JsonValue::Object(entries) => JsonView::Object(entries_view(entries@)),
    }
}

pub open spec fn items_view(s: Seq<JsonValue>) -> Seq<JsonView>
    decreases s,
{
    if s.len() == 0 {
        Seq::empty()
    } else {
        items_view(s.subrange(0, s.len() - 1)).push(json_view(s[s.len() - 1]))
    }
}

pub open spec fn entries_view(s: Seq<(String, JsonValue)>) -> Seq<(Seq<char>, JsonView)>
    decreases s,
{
    if s.len() == 0 {
        Seq::empty()
    } else {
        entries_view(s.subrange(0, s.len() - 1)).push(
            (s[s.len() - 1].0@, json_view(s[s.len() - 1].1)),
        )
    }
}

impl View for JsonValue {
    type V = JsonView;

    open spec fn view(&self) -> JsonView {
        json_view(*self)
    }
}

/// An entry's view is the key's characters beside the value's view, index by index.
pub proof fn lemma_entries_view(s: Seq<(String, JsonValue)>)
    ensures
        entries_view(s).len() == s.len(),
        forall|i: int|
            0 <= i < s.len() ==> #[trigger] entries_view(s)[i] == (s[i].0@, json_view(s[i].1)),
    decreases s.len(),
{
    if s.len() > 0 {
        let t = s.subrange(0, s.len() - 1);
        lemma_entries_view(t);
        assert forall|i: int| 0 <= i < s.len() implies #[trigger] entries_view(s)[i] == (
            s[i].0@,
            json_view(s[i].1),
        ) by {
            if i < s.len() - 1 {
                assert(t[i] == s[i]);
            }
        }
    }
}

/// Index of the first entry with key `k` at or after `i`, or -1.
pub open spec fn key_index_from(s: Seq<(Seq<char>, JsonView)>, k: Seq<char>, i: nat) -> int
    decreases s.len() - i,
{
    if i >= s.len() {
        -1
    } else if s[i as int].0 == k {
        i as int
    } else {
        key_index_from(s, k, i + 1)
    }
}

pub proof fn lemma_key_index_from(s: Seq<(Seq<char>, JsonView)>, k: Seq<char>, i: nat)
    ensures
        key_index_from(s, k, i) == -1 || (i <= key_index_from(s, k, i) < s.len()
            && s[key_index_from(s, k, i)].0 == k),
    decreases s.len() - i,
{
    if i < s.len() && s[i as int].0 != k {
        lemma_key_index_from(s, k, i + 1);
    }
}

pub open spec fn key_index(s: Seq<(Seq<char>, JsonView)>, k: Seq<char>) -> int {
    key_index_from(s, k, 0)
}

pub open spec fn has_key(s: Seq<(Seq<char>, JsonView)>, k: Seq<char>) -> bool {
    exists|j: int| 0 <= j < s.len() && #[trigger] s[j].0 == k
}

/// No key occurs twice, as in every object that a JSON map holds.
pub open spec fn unique_keys(s: Seq<(Seq<char>, JsonView)>) -> bool {
    forall|i: int, j: int| 0 <= i < s.len() && 0 <= j < s.len() && i != j ==> s[i].0 != s[j].0
}

/// The value stored under `k`.
pub open spec fn value_at(s: Seq<(Seq<char>, JsonView)>, k: Seq<char>) -> JsonView {
    s[key_index(s, k)].1
}

proof fn lemma_key_index_at(s: Seq<(Seq<char>, JsonView)>, k: Seq<char>, j: int, i: nat)
    requires
        unique_keys(s),
        0 <= i <= j < s.len(),
        s[j].0 == k,
    ensures
        key_index_from(s, k, i) == j,
    decreases j - i,
{
    if i < j {
        lemma_key_index_at(s, k, j, i + 1);
    }
}

proof fn lemma_key_index_absent(s: Seq<(Seq<char>, JsonView)>, k: Seq<char>, i: nat)
    requires
        !has_key(s, k),
    ensures
        key_index_from(s, k, i) == -1,
    decreases s.len() - i,
{
    if i < s.len() {
        assert(s[i as int].0 != k);
        lemma_key_index_absent(s, k, i + 1);
    }
}

/// Under unique keys, the entry at `j` is the one `value_at` reads.
proof fn lemma_value_at(s: Seq<(Seq<char>, JsonView)>, j: int)
    requires
        unique_keys(s),
        0 <= j < s.len(),
    ensures
        key_index(s, s[j].0) == j,
        value_at(s, s[j].0) == s[j].1,
{
    lemma_key_index_at(s, s[j].0, j, 0);
}

proof fn lemma_has_key_index(s: Seq<(Seq<char>, JsonView)>, k: Seq<char>)
    ensures
        has_key(s, k) <==> key_index(s, k) >= 0,
{
    lemma_key_index_from(s, k, 0);
    if !has_key(s, k) {
        lemma_key_index_absent(s, k, 0);
    } else {
        assert(key_index(s, k) >= 0 ==> s[key_index(s, k)].0 == k);
        if key_index(s, k) < 0 {
            let j = choose|j: int| 0 <= j < s.len() && #[trigger] s[j].0 == k;
            lemma_key_index_absent_contra(s, k, j, 0);
        }
    }
}

proof fn lemma_key_index_absent_contra(s: Seq<(Seq<char>, JsonView)>, k: Seq<char>, j: int, i: nat)
    requires
        0 <= i <= j < s.len(),
        s[j].0 == k,
    ensures
        key_index_from(s, k, i) >= 0,
    decreases j - i,
{
    if i < j && s[i as int].0 != k {
        lemma_key_index_absent_contra(s, k, j, i + 1);
    }
}

/// Putting `(key, w)` in place of whatever `key` held.
proof fn lemma_upsert(
    acc: Seq<(Seq<char>, JsonView)>,
    key: Seq<char>,
    w: JsonView,
    next: Seq<(Seq<char>, JsonView)>,
)
    requires
        unique_keys(acc),
        next == (if key_index(acc, key) >= 0 {
            acc.remove(key_index(acc, key))
        } else {
            acc
        }).push((key, w)),
    ensures
        unique_keys(next),
        forall|k: Seq<char>| #[trigger] has_key(next, k) <==> (has_key(acc, k) || k == key),
        value_at(next, key) == w,
        forall|k: Seq<char>|
            k != key && has_key(acc, k) ==> #[trigger] value_at(next, k) == value_at(acc, k),
{
    let i = key_index(acc, key);
    lemma_key_index_from(acc, key, 0);
    lemma_has_key_index(acc, key);
    let base = if i >= 0 { acc.remove(i) } else { acc };
    assert forall|j: int| #![trigger base[j]] 0 <= j < base.len() implies exists|m: int| 0 <= m < acc.len() && m != i && #[trigger] acc[m] == base[j] by {
        if i >= 0 && j >= i {
            assert(acc[j + 1] == base[j]);
        } else {
            assert(acc[j] == base[j]);
        }
    }
    assert forall|j: int| 0 <= j < base.len() implies #[trigger] base[j].0 != key by {
        let m = choose|m: int| 0 <= m < acc.len() && m != i && #[trigger] acc[m] == base[j];
        if i < 0 {
            assert(!has_key(acc, key));
        }
    }
    assert(unique_keys(next)) by {
        assert forall|a: int, b: int| 0 <= a < next.len() && 0 <= b < next.len() && a != b implies next[a].0 != next[b].0 by {
            if a < base.len() && b < base.len() {
                let ma = choose|m: int| 0 <= m < acc.len() && m != i && #[trigger] acc[m] == base[a];
                let mb = choose|m: int| 0 <= m < acc.len() && m != i && #[trigger] acc[m] == base[b];
                if i >= 0 {
                    if ma == mb {
                        assert(acc.remove(i)[a] == acc[if a < i { a } else { a + 1 }]);
                        assert(acc.remove(i)[b] == acc[if b < i { b } else { b + 1 }]);
                    }
                }
            }
        }
    }
    assert forall|k: Seq<char>| #[trigger] has_key(next, k) <==> (has_key(acc, k) || k == key) by {
        if has_key(acc, k) && k != key {
            let j = choose|j: int| 0 <= j < acc.len() && #[trigger] acc[j].0 == k;
            let jj = if i >= 0 && j > i { j - 1 } else { j };
            assert(next[jj] == base[jj]);
            assert(next[jj].0 == k);
        }
        if k == key {
            assert(next[base.len() as int].0 == key);
        }
        if has_key(next, k) && k != key {
            let j = choose|j: int| 0 <= j < next.len() && #[trigger] next[j].0 == k;
            assert(j < base.len());
            let m = choose|m: int| 0 <= m < acc.len() && m != i && #[trigger] acc[m] == base[j];
            assert(acc[m].0 == k);
        }
    }
    lemma_value_at(next, base.len() as int);
    assert forall|k: Seq<char>| k != key && has_key(acc, k) implies #[trigger] value_at(next, k) == value_at(acc, k) by {
        let j = choose|j: int| 0 <= j < acc.len() && #[trigger] acc[j].0 == k;
        lemma_value_at(acc, j);
        let jj = if i >= 0 && j > i { j - 1 } else { j };
        assert(next[jj] == acc[j]);
        lemma_value_at(next, jj);
    }
}

/// Laying a saved object over the defaults: the merged object has exactly
/// the keys of both; a key saved but not in the defaults keeps the saved
/// value; a key in both merges the two values; a key only in the defaults
/// keeps the default.
pub proof fn law_merge_objects(de: Seq<(Seq<char>, JsonView)>, pe: Seq<(Seq<char>, JsonView)>)
    requires
        unique_keys(de),
        unique_keys(pe),
    ensures
        unique_keys(merge_entries(de, pe)),
        forall|k: Seq<char>|
            #[trigger] has_key(merge_entries(de, pe), k) <==> (has_key(de, k) || has_key(pe, k)),
        forall|k: Seq<char>|
            has_key(pe, k) && has_key(de, k) ==> #[trigger] value_at(merge_entries(de, pe), k)
                == merge_spec(value_at(de, k), value_at(pe, k)),
        forall|k: Seq<char>|
            has_key(pe, k) && !has_key(de, k) ==> #[trigger] value_at(merge_entries(de, pe), k)
                == value_at(pe, k),
        forall|k: Seq<char>|
            !has_key(pe, k) && has_key(de, k) ==> #[trigger] value_at(merge_entries(de, pe), k)
                == value_at(de, k),
    decreases pe.len(),
{
    if pe.len() > 0 {
        let n = pe.len() - 1;
        let front = pe.subrange(0, n);
        let key = pe[n].0;
        let value = pe[n].1;
        assert(unique_keys(front));
        law_merge_objects(de, front);
        let acc = merge_entries(de, front);
        assert(!has_key(front, key));
        lemma_has_key_index(acc, key);
        let w = if key_index(acc, key) >= 0 { merge_spec(acc[key_index(acc, key)].1, value) } else { value };
        lemma_value_at(pe, n);
        lemma_upsert(acc, key, w, merge_entries(de, pe));
        assert forall|k: Seq<char>| k != key implies (has_key(pe, k) <==> has_key(front, k)) && (has_key(front, k) ==> value_at(pe, k) == value_at(front, k)) by {
            if has_key(pe, k) {
                let j = choose|j: int| 0 <= j < pe.len() && #[trigger] pe[j].0 == k;
                assert(front[j] == pe[j]);
            }
            if has_key(front, k) {
                let j = choose|j: int| 0 <= j < front.len() && #[trigger] front[j].0 == k;
                assert(front[j] == pe[j]);
                lemma_value_at(front, j);
                lemma_value_at(pe, j);
            }
        }
        assert(has_key(pe, key));
        let r = merge_entries(de, pe);
        assert forall|k: Seq<char>| #[trigger] has_key(r, k) <==> (has_key(de, k) || has_key(pe, k)) by {
            assert(has_key(r, k) <==> (has_key(acc, k) || k == key));
            assert(has_key(acc, k) <==> (has_key(de, k) || has_key(front, k)));
        }
        assert forall|k: Seq<char>| has_key(pe, k) && has_key(de, k) implies #[trigger] value_at(r, k)
            == merge_spec(value_at(de, k), value_at(pe, k)) by {
            if k == key {
                assert(has_key(acc, key));
                assert(value_at(acc, key) == value_at(de, key));
            } else {
                assert(has_key(acc, k));
                assert(value_at(r, k) == value_at(acc, k));
            }
        }
        assert forall|k: Seq<char>| has_key(pe, k) && !has_key(de, k) implies #[trigger] value_at(r, k)
            == value_at(pe, k) by {
            if k != key {
                assert(has_key(acc, k));
                assert(value_at(r, k) == value_at(acc, k));
            } else {
                assert(!has_key(acc, key));
            }
        }
        assert forall|k: Seq<char>| !has_key(pe, k) && has_key(de, k) implies #[trigger] value_at(r, k)
            == value_at(de, k) by {
            assert(k != key);
            assert(has_key(acc, k));
            assert(value_at(r, k) == value_at(acc, k));
        }
    }
}

/// A saved document that holds every key of flat defaults (no default is
/// itself an object) reads back exactly as saved: the same keys, each with
/// its saved value.
pub proof fn law_complete_document_reads_back(de: Seq<(Seq<char>, JsonView)>, pe: Seq<(Seq<char>, JsonView)>)
    requires
        unique_keys(de),
        unique_keys(pe),
        forall|k: Seq<char>| #[trigger] has_key(de, k) ==> has_key(pe, k),
        forall|k: Seq<char>| #[trigger] has_key(de, k) ==> !(value_at(de, k) is Object),
    ensures
        forall|k: Seq<char>| #[trigger] has_key(merge_entries(de, pe), k) <==> has_key(pe, k),
        forall|k: Seq<char>| has_key(pe, k) ==> #[trigger] value_at(merge_entries(de, pe), k) == value_at(pe, k),
{
    law_merge_objects(de, pe);
    assert forall|k: Seq<char>| has_key(pe, k) implies #[trigger] value_at(merge_entries(de, pe), k) == value_at(pe, k) by {
        if has_key(de, k) {
            assert(!(value_at(de, k) is Object));
        }
    }
}

/// Laying `p` over `d`: two objects merge entry by entry; any other pair
/// gives `p`.
pub open spec fn merge_spec(d: JsonView, p: JsonView) -> JsonView
    decreases p,
{
    match p {
        JsonView::Object(pe) => match d {
            JsonView::Object(de) => JsonView::Object(merge_entries(de, pe)),
            _ => p,
        },
        _ => p,
    }
}

/// The entries of `de` after each entry of `pe` in turn has been laid over
/// them: an entry whose key is present takes that key out and puts it back
/// with the merged value; a new key is added.
pub open spec fn merge_entries(
    de: Seq<(Seq<char>, JsonView)>,
    pe: Seq<(Seq<char>, JsonView)>,
) -> Seq<(Seq<char>, JsonView)>
    decreases pe,
{
    if pe.len() == 0 {
        de
    } else {
        let acc = merge_entries(de, pe.subrange(0, pe.len() - 1));
        let key = pe[pe.len() - 1].0;
        let value = pe[pe.len() - 1].1;
        let i = key_index(acc, key);
        if i >= 0 {
            acc.remove(i).push((key, merge_spec(acc[i].1, value)))
        } else {
            acc.push((key, value))
        }
    }
}

/// Position of the first entry keyed `key`.
fn key_position(entries: &Vec<(String, JsonValue)>, key: &String) -> (r: Option<usize>)
    ensures
        match r {
            Some(i) => i as int == key_index(entries_view(entries@), key@),
            None => key_index(entries_view(entries@), key@) == -1,
        },
{
    proof {
        lemma_entries_view(entries@);
    }
    let ghost ev = entries_view(entries@);
    let n = entries.len();
    let mut i: usize = 0;
    while i < n
        invariant
            n == entries.len(),
            ev == entries_view(entries@),
            ev.len() == n,
            forall|j: int| 0 <= j < n ==> #[trigger] ev[j] == (entries@[j].0@, json_view(entries@[j].1)),
            i <= n,
            key_index(ev, key@) == key_index_from(ev, key@, i as nat),
        decreases n - i,
    {
        if str_eq(entries[i].0.as_str(), key.as_str()) {
            assert(ev[i as int].0 == key@);
            return Some(i);
        }
        assert(ev[i as int].0 != key@);
        i = i + 1;
    }
    None
}

/// Lays the persisted document over the defaults. Two objects whose keys
/// are unique merge into an object whose keys are unique.
pub fn merge_json(defaults: JsonValue, persisted: JsonValue) -> (r: JsonValue)
    ensures
        r@ == merge_spec(defaults@, persisted@),
        (defaults@ is Object && persisted@ is Object && unique_keys(defaults@->Object_0)
            && unique_keys(persisted@->Object_0)) ==> (r@ is Object && unique_keys(r@->Object_0)),
    decreases persisted,
{
    proof {
        if defaults@ is Object && persisted@ is Object && unique_keys(defaults@->Object_0)
            && unique_keys(persisted@->Object_0) {
            law_merge_objects(defaults@->Object_0, persisted@->Object_0);
        }
    }
    let ghost p0 = persisted;
    let ghost d0 = defaults;
    match persisted {
        JsonValue::Object(mut entries) => match defaults {
            JsonValue::Object(mut acc) => {
                let ghost ovec = entries;
                let ghost orig = entries@;
                let ghost de = entries_view(acc@);
                let ghost pe = entries_view(orig);
                proof {
                    lemma_entries_view(orig);
                    assert(pe.subrange(0, 0) =~= Seq::<(Seq<char>, JsonView)>::empty());
                }
                let ghost mut done: nat = 0;
                while entries.len() > 0
                    invariant
                        done + entries.len() == orig.len(),
                        entries@ == orig.subrange(done as int, orig.len() as int),
                        ovec@ == orig,
                        pe == entries_view(orig),
                        pe.len() == orig.len(),
                        forall|j: int|
                            0 <= j < orig.len() ==> #[trigger] pe[j] == (
                                orig[j].0@,
                                json_view(orig[j].1),
                            ),
                        entries_view(acc@) == merge_entries(de, pe.subrange(0, done as int)),
                        p0 == JsonValue::Object(ovec),
                        p0 == persisted,
                    decreases entries.len(),
                {
                    let ghost acc0 = acc@;
                    let (key, value) = entries.remove(0);
                    proof {
                        assert(orig[done as int] == (key, value));
                        lemma_entries_view(acc0);
                        let next = pe.subrange(0, done + 1int);
                        assert(next.subrange(0, done as int) =~= pe.subrange(0, done as int));
                        assert(next[done as int] == pe[done as int]);
                    }
                    let pos = key_position(&acc, &key);
                    proof {
                        lemma_key_index_from(entries_view(acc0), key@, 0);
                    }
                    match pos {
                        Some(i) => {
                            let (_present, dv) = acc.remove(i);
                            proof {
                                assert(decreases_to!(ovec@ => ovec@[done as int]));
                                assert(decreases_to!(persisted => value)) by {
                                    assert(decreases_to!(p0 => p0->Object_0));
                                    assert(decreases_to!(ovec => ovec@));
                                    assert(decreases_to!(ovec@[done as int] => ovec@[done as int].1));
                                    assert(decreases_to!(p0 => value));
                                }
                            }
                            let merged = merge_json(dv, value);
                            acc.push((key, merged));
                            proof {
                                lemma_entries_view(acc@);
                                assert(entries_view(acc@) =~= entries_view(acc0).remove(i as int).push(
                                    (key@, json_view(merged)),
                                ));
                            }
                        },
                        None => {
                            acc.push((key, value));
                            proof {
                                lemma_entries_view(acc@);
                                assert(entries_view(acc@) =~= entries_view(acc0).push(
                                    (key@, json_view(value)),
                                ));
                            }
                        },
                    }
                    proof {
                        done = done + 1;
                        assert(entries@ =~= orig.subrange(done as int, orig.len() as int));
                    }
                }
                proof {
                    assert(pe.subrange(0, done as int) =~= pe);
                }
                JsonValue::Object(acc)
            },
            _ => JsonValue::Object(entries),
        },
        other => other,
    }
}

} // verus!
