use crate::error::LoadError;
use crate::handle::Handle;
use vstd::prelude::*;

verus! {

/// The map that a list of values makes under the handles that stand beside
/// them, place by place.
pub open spec fn keyed_map<V>(keys: Seq<Handle>, vals: Seq<V>) -> Map<Handle, V> {
    Map::new(|k: Handle| keys.contains(k), |k: Handle| vals[keys.index_of(k)])
}

/// What stands at place `i` is found under the handle at place `i`.
pub proof fn lemma_keyed_lookup<V>(keys: Seq<Handle>, vals: Seq<V>, i: int)
    requires
        keys.no_duplicates(),
        keys.len() == vals.len(),
        0 <= i < keys.len(),
    ensures
        keyed_map(keys, vals).contains_key(keys[i]),
        keyed_map(keys, vals)[keys[i]] == vals[i],
        keys.index_of(keys[i]) == i,
{
    assert(keys.contains(keys[i]));
    let k = keys.index_of(keys[i]);
    assert(keys[k] == keys[i]);
}

/// Every handle of the map stands at some place of the list.
pub proof fn lemma_keyed_place<V>(keys: Seq<Handle>, vals: Seq<V>, k: Handle)
    requires
        keys.no_duplicates(),
        keys.len() == vals.len(),
        keyed_map(keys, vals).contains_key(k),
    ensures
        0 <= keys.index_of(k) < keys.len(),
        keys[keys.index_of(k)] == k,
        keyed_map(keys, vals)[k] == vals[keys.index_of(k)],
{
    assert(keys.contains(k));
}

/// A new pair at the end of the list is one more entry of the map.
pub proof fn lemma_keyed_push<V>(keys: Seq<Handle>, vals: Seq<V>, k: Handle, v: V)
    requires
        keys.no_duplicates(),
        keys.len() == vals.len(),
        !keys.contains(k),
    ensures
        keys.push(k).no_duplicates(),
        keyed_map(keys.push(k), vals.push(v)) == keyed_map(keys, vals).insert(k, v),
{
    let keys2 = keys.push(k);
    let vals2 = vals.push(v);
    assert forall|a: int, b: int| 0 <= a < keys2.len() && 0 <= b < keys2.len() && a
        != b implies keys2[a] != keys2[b] by {
        if a < keys.len() {
            assert(keys.contains(keys[a]));
        }
        if b < keys.len() {
            assert(keys.contains(keys[b]));
        }
    }
    let m = keyed_map(keys, vals).insert(k, v);
    let m2 = keyed_map(keys2, vals2);
    assert forall|h: Handle| m2.contains_key(h) <==> m.contains_key(h) by {
        if keys2.contains(h) {
            let j = keys2.index_of(h);
            assert(keys2[j] == h);
            if j < keys.len() {
                assert(keys[j] == h);
                assert(keys.contains(h));
            }
        }
        if keys.contains(h) {
            let j = keys.index_of(h);
            assert(keys2[j] == h);
        }
        if h == k {
            assert(keys2[keys.len() as int] == h);
        }
    }
    assert forall|h: Handle| m2.contains_key(h) implies m2[h] == m[h] by {
        let j = keys2.index_of(h);
        assert(keys2[j] == h);
        if h == k {
            assert(keys2[keys.len() as int] == k);
            assert(j == keys.len());
        } else {
            assert(keys[j] == h);
            assert(keys.contains(h));
            let j1 = keys.index_of(h);
            assert(keys[j1] == h);
            assert(j1 == j);
        }
    }
    assert(m2 =~= m);
}

/// Taking the pair at place `i` out of the list takes its handle out of the
/// map.
pub proof fn lemma_keyed_remove<V>(keys: Seq<Handle>, vals: Seq<V>, i: int)
    requires
        keys.no_duplicates(),
        keys.len() == vals.len(),
        0 <= i < keys.len(),
    ensures
        keys.remove(i).no_duplicates(),
        !keys.remove(i).contains(keys[i]),
        keyed_map(keys.remove(i), vals.remove(i)) == keyed_map(keys, vals).remove(keys[i]),
{
    let keys2 = keys.remove(i);
    let vals2 = vals.remove(i);
    assert forall|a: int| 0 <= a < keys2.len() implies keys2[a] == keys[if a < i {
        a
    } else {
        a + 1
    }] by {}
    assert forall|a: int, b: int| 0 <= a < keys2.len() && 0 <= b < keys2.len() && a
        != b implies keys2[a] != keys2[b] by {
        let a1 = if a < i { a } else { a + 1 };
        let b1 = if b < i { b } else { b + 1 };
        assert(keys2[a] == keys[a1] && keys2[b] == keys[b1]);
    }
    if keys2.contains(keys[i]) {
        let a = keys2.index_of(keys[i]);
        let a1 = if a < i { a } else { a + 1 };
        assert(keys2[a] == keys[a1]);
        assert(false);
    }
    let m = keyed_map(keys, vals).remove(keys[i]);
    let m2 = keyed_map(keys2, vals2);
    assert forall|h: Handle| m2.contains_key(h) <==> m.contains_key(h) by {
        if keys2.contains(h) {
            let a = keys2.index_of(h);
            let a1 = if a < i { a } else { a + 1 };
            assert(keys2[a] == keys[a1]);
            assert(keys.contains(h));
        }
        if keys.contains(h) && h != keys[i] {
            let a1 = keys.index_of(h);
            assert(keys[a1] == h);
            let a = if a1 < i { a1 } else { a1 - 1 };
            assert(keys2[a] == h);
        }
    }
    assert forall|h: Handle| m2.contains_key(h) implies m2[h] == m[h] by {
        let a = keys2.index_of(h);
        let a1 = if a < i { a } else { a + 1 };
        assert(keys2[a] == keys[a1]);
        assert(keys.contains(h));
        let j = keys.index_of(h);
        assert(keys[j] == h);
        assert(j == a1);
        assert(vals2[a] == vals[a1]);
    }
    assert(m2 =~= m);
}

/// Another value at place `i` of the list is another value under the handle
/// of that place.
pub proof fn lemma_keyed_update<V>(keys: Seq<Handle>, vals: Seq<V>, i: int, v: V)
    requires
        keys.no_duplicates(),
        keys.len() == vals.len(),
        0 <= i < keys.len(),
    ensures
        keyed_map(keys, vals.update(i, v)) == keyed_map(keys, vals).insert(keys[i], v),
{
    let m = keyed_map(keys, vals).insert(keys[i], v);
    let m2 = keyed_map(keys, vals.update(i, v));
    assert(keys.contains(keys[i]));
    assert forall|h: Handle| m2.contains_key(h) implies m2[h] == m[h] by {
        let j = keys.index_of(h);
        assert(keys[j] == h);
    }
    assert(m2 =~= m);
}

/// The map has as many entries as the list has places.
pub proof fn lemma_keyed_len<V>(keys: Seq<Handle>, vals: Seq<V>)
    requires
        keys.no_duplicates(),
        keys.len() == vals.len(),
    ensures
        keyed_map(keys, vals).dom().finite(),
        keyed_map(keys, vals).dom().len() == keys.len(),
    decreases keys.len(),
{
    if keys.len() == 0 {
        assert(keyed_map(keys, vals).dom() =~= Set::empty());
    } else {
        let n = keys.len() - 1;
        let k0 = keys.drop_last();
        let v0 = vals.drop_last();
        assert(k0 =~= keys.remove(n));
        assert(v0 =~= vals.remove(n));
        lemma_keyed_remove(keys, vals, n);
        lemma_keyed_len(k0, v0);
        lemma_keyed_push(k0, v0, keys[n], vals[n]);
        assert(k0.push(keys[n]) =~= keys);
        assert(v0.push(vals[n]) =~= vals);
        assert(keyed_map(keys, vals).dom() =~= keyed_map(k0, v0).dom().insert(keys[n]));
    }
}

/// Whether a list of handles can be the handles of a container that has
/// issued `next` handles: no handle stands twice, and each was issued.
pub open spec fn check_handles(ids: Seq<Handle>, next: u64) -> Result<(), LoadError> {
    if !ids.no_duplicates() {
        Err(LoadError::DuplicateHandle)
    } else if exists|i: int| 0 <= i < ids.len() && (#[trigger] ids[i]).raw >= next {
        Err(LoadError::UnissuedHandle)
    } else {
        Ok(())
    }
}

/// Whether a list of handles can be the handles of a container that has
/// issued `next` handles.
pub fn handles_valid(ids: &Vec<Handle>, next: u64) -> (r: Result<(), LoadError>)
    ensures
        r == check_handles(ids@, next),
{
    let mut i: usize = 0;
    while i < ids.len()
        invariant
            i <= ids.len(),
            forall|a: int, b: int| 0 <= a < b < i ==> ids@[a] != ids@[b],
        decreases ids.len() - i,
    {
        let mut j: usize = 0;
        while j < i
            invariant
                j <= i < ids.len(),
                forall|a: int| 0 <= a < j ==> ids@[a] != ids@[i as int],
            decreases i - j,
        {
            if ids[j] == ids[i] {
                return Err(LoadError::DuplicateHandle);
            }
            j += 1;
        }
        i += 1;
    }
    assert(ids@.no_duplicates());
    let mut k: usize = 0;
    while k < ids.len()
        invariant
            k <= ids.len(),
            ids@.no_duplicates(),
            forall|a: int| 0 <= a < k ==> (#[trigger] ids@[a]).raw < next,
        decreases ids.len() - k,
    {
        if ids[k].raw >= next {
            return Err(LoadError::UnissuedHandle);
        }
        k += 1;
    }
    Ok(())
}

} // verus!
