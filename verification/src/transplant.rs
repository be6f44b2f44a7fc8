//! Moving an export from one asset into another, with the imports it needs.
use vstd::prelude::*;
use vstd::set_lib::lemma_len_subset;
use crate::export::{
    Export, duplicate_export, export_data_refs, export_ref_targets, import_ref_targets,
    lemma_export_data_trans, lemma_export_shape_trans, on_export_refs, on_import_refs, same_export_data_shape,
    same_export_shape,
};
use crate::index::{
    IndexVisitor, PackageIndex, index_list_refs, lemma_walk_out_append, lemma_walk_state_append,
    walk_out, walk_state,
};
use crate::strings::str_equal;

verus! {

broadcast use lemma_walk_state_append, lemma_walk_out_append;

/// An object that an asset uses from another package.
pub struct Import {
    pub class_package: String,
    pub class_name: String,
    pub outer_index: PackageIndex,
    pub object_name: String,
    pub optional: bool,
}

/// A copy of an import.
pub fn duplicate_import(i: &Import) -> (j: Import)
    ensures
        j == *i,
{
    Import {
        class_package: i.class_package.clone(),
        class_name: i.class_name.clone(),
        outer_index: i.outer_index,
        object_name: i.object_name.clone(),
        optional: i.optional,
    }
}

/// What identifies an imported object: its package, its class and its name.
pub type ImportKey = (Seq<char>, Seq<char>, Seq<char>);

/// The key of an import.
pub open spec fn key_of(i: Import) -> ImportKey {
    (i.class_package@, i.class_name@, i.object_name@)
}

/// The keys of a list of imports, in order.
pub open spec fn keys(s: Seq<Import>) -> Seq<ImportKey> {
    s.map_values(|i: Import| key_of(i))
}

/// The position of the first import of `s` with the given key.
pub open spec fn first_match(s: Seq<Import>, key: ImportKey) -> Option<int> {
    keys(s).index_of_first(key)
}

/// What `index_of_first` finds is the first occurrence; when it finds none,
/// there is none.
pub proof fn lemma_first_key<A>(s: Seq<A>, k: A)
    ensures
        s.index_of_first(k) matches Some(i) ==> {
            &&& 0 <= i < s.len()
            &&& s[i] == k
            &&& forall|j: int| 0 <= j < i ==> s[j] != k
        },
        s.index_of_first(k) is None ==> forall|j: int| 0 <= j < s.len() ==> s[j] != k,
{
    s.index_of_first_ensures(k);
    if s.index_of_first(k) is None {
        assert forall|j: int| 0 <= j < s.len() implies s[j] != k by {
            if s[j] == k {
                assert(s.contains(k));
            }
        }
    }
}

/// The first occurrence of a key in a list is where it occurs first.
pub proof fn lemma_first_key_at<A>(s: Seq<A>, k: A, i: int)
    requires
        0 <= i < s.len(),
        s[i] == k,
        forall|j: int| 0 <= j < i ==> s[j] != k,
    ensures
        s.index_of_first(k) == Some(i),
{
    lemma_first_key(s, k);
    match s.index_of_first(k) {
        Some(p) => {
            if p < i {
                assert(s[p] != k);
            } else if p > i {
                assert(s[i] != k);
            }
        },
        None => {
            assert(s[i] != k);
        },
    }
}

/// Adding keys at the end of a list keeps the first occurrence of every key
/// that the list already holds, and puts the first occurrence of any other
/// after it.
pub proof fn lemma_first_key_append<A>(s: Seq<A>, t: Seq<A>, k: A)
    ensures
        s.index_of_first(k) is Some ==> (s + t).index_of_first(k) == s.index_of_first(k),
        s.index_of_first(k) is None ==> (s + t).index_of_first(k) == match t.index_of_first(k) {
            Some(p) => Some(s.len() + p),
            None => None::<int>,
        },
{
    lemma_first_key(s, k);
    lemma_first_key(t, k);
    lemma_first_key(s + t, k);
    match s.index_of_first(k) {
        Some(i) => {
            lemma_first_key_at(s + t, k, i);
        },
        None => {
            match t.index_of_first(k) {
                Some(p) => {
                    assert forall|j: int| 0 <= j < s.len() + p implies (s + t)[j] != k by {
                        if j >= s.len() {
                            assert((s + t)[j] == t[j - s.len()]);
                        }
                    }
                    lemma_first_key_at(s + t, k, s.len() + p);
                },
                None => {
                    if let Some(q) = (s + t).index_of_first(k) {
                        if q < s.len() {
                            assert((s + t)[q] == s[q]);
                        } else {
                            assert((s + t)[q] == t[q - s.len()]);
                        }
                    }
                },
            }
        },
    }
}

/// The position of the first import of `s` with the given key.
fn position_naming(s: &Vec<Import>, class_package: &str, class_name: &str, object_name: &str) -> (r:
    Option<usize>)
    ensures
        r matches Some(i) ==> i < s@.len() && first_match(s@, (class_package@, class_name@, object_name@))
            == Some(i as int),
        r is None ==> first_match(s@, (class_package@, class_name@, object_name@)) is None,
{
    let ghost k = (class_package@, class_name@, object_name@);
    let ghost ks = keys(s@);
    let mut i: usize = 0;
    while i < s.len()
        invariant
            i <= s@.len(),
            ks == keys(s@),
            k == (class_package@, class_name@, object_name@),
            forall|j: int| 0 <= j < i ==> ks[j] != k,
        decreases s@.len() - i,
    {
        let imp = &s[i];
        if str_equal(imp.class_package.as_str(), class_package) && str_equal(
            imp.class_name.as_str(),
            class_name,
        ) && str_equal(imp.object_name.as_str(), object_name) {
            proof {
                lemma_first_key_at(ks, k, i as int);
            }
            return Some(i);
        }
        i = i + 1;
    }
    proof {
        lemma_first_key(ks, k);
    }
    None
}

/// The import that a reference names within `s`, where it names one.
pub open spec fn import_at(s: Seq<Import>, index: i32) -> Option<Import> {
    if index < 0 && -(index as int) - 1 < s.len() {
        Some(s[-(index as int) - 1])
    } else {
        None
    }
}

/// An asset: its name map, its imports, its exports, and the UE5 object
/// version it was written with.
pub struct Asset {
    pub name_map: Vec<String>,
    pub imports: Vec<Import>,
    pub exports: Vec<Export>,
    pub object_version_ue5: i32,
}

/// Whether a name map holds a name.
pub open spec fn holds_name(name_map: Seq<String>, name: Seq<char>) -> bool {
    exists|i: int| 0 <= i < name_map.len() && #[trigger] name_map[i]@ == name
}

impl Asset {
    /// The import that `index` names, where it names one of this asset's
    /// imports.
    ///
    /// Where `index` is the first value below the import table (`-(len + 1)`),
    /// the asset library's own lookup indexes past the table; here the answer
    /// is that no import is named.
    pub fn get_import(&self, index: PackageIndex) -> (r: Option<Import>)
        ensures
            r == import_at(self.imports@, index.index),
    {
        if index.index >= 0 {
            return None;
        }
        let i = -(index.index + 1);
        if (i as usize) < self.imports.len() {
            Some(duplicate_import(&self.imports[i as usize]))
        } else {
            None
        }
    }

    /// The reference to the first import that names the given object, whatever
    /// its outer object.
    pub fn find_import_no_index(&self, class_package: &str, class_name: &str, object_name: &str) -> (r:
        Option<i32>)
        requires
            self.imports@.len() <= i32::MAX,
        ensures
            r matches Some(x) ==> first_match(self.imports@, (class_package@, class_name@, object_name@))
                == Some(-x - 1),
            r is None ==> first_match(self.imports@, (class_package@, class_name@, object_name@)) is None,
    {
        match position_naming(&self.imports, class_package, class_name, object_name) {
            Some(i) => Some(-(i as i32) - 1),
            None => None,
        }
    }

    /// Adds `name` to the name map, unless the map already holds it, and
    /// returns it.
    pub fn add_fname(&mut self, name: &str) -> (r: String)
        ensures
            r@ == name@,
            final(self).imports == old(self).imports,
            final(self).exports == old(self).exports,
            final(self).object_version_ue5 == old(self).object_version_ue5,
            holds_name(old(self).name_map@, name@) ==> final(self).name_map@ == old(self).name_map@,
            !holds_name(old(self).name_map@, name@) ==> {
                &&& final(self).name_map@.len() == old(self).name_map@.len() + 1
                &&& final(self).name_map@.drop_last() == old(self).name_map@
                &&& final(self).name_map@.last()@ == name@
            },
    {
        let mut i: usize = 0;
        while i < self.name_map.len()
            invariant
                i <= self.name_map@.len(),
                forall|j: int| 0 <= j < i ==> #[trigger] self.name_map@[j]@ != name@,
            decreases self.name_map@.len() - i,
        {
            if str_equal(self.name_map[i].as_str(), name) {
                return self.name_map[i].clone();
            }
            i = i + 1;
        }
        let added = name.to_owned();
        let r = name.to_owned();
        self.name_map.push(added);
        proof {
            assert(self.name_map@.drop_last() =~= old(self).name_map@);
        }
        r
    }
}

/// Where resolution stands: the donor's imports, the keys of the recipient's
/// imports, the keys of the imports added so far, and how many of the added
/// imports have had their outer object resolved.
pub type ResolveState = (Seq<Import>, Seq<ImportKey>, Seq<ImportKey>, int);

/// The keys of the imports to add once a reference holding `index` has been
/// resolved from state `s`: where it names a donor import whose key is
/// nowhere yet, that key is added.
pub open spec fn next_added(s: ResolveState, index: i32) -> Seq<ImportKey> {
    match import_at(s.0, index) {
        Some(d) => if (s.1 + s.2).contains(key_of(d)) {
            s.2
        } else {
            s.2.push(key_of(d))
        },
        None => s.2,
    }
}

/// Where a reference holding `index` points once the imports with keys
/// `known` are in place: the first import with the key of the donor import it
/// names; a reference that names no donor import, or one whose key is not
/// there, is left as it is.
pub open spec fn resolved_ref(donor: Seq<Import>, known: Seq<ImportKey>, index: i32) -> int {
    match import_at(donor, index) {
        Some(d) => match known.index_of_first(key_of(d)) {
            Some(p) => -(p + 1),
            None => index as int,
        },
        None => index as int,
    }
}

/// Whether the key of the donor import that `index` names, if it names one,
/// is among `known`.
pub open spec fn covered(donor: Seq<Import>, known: Seq<ImportKey>, index: i32) -> bool {
    import_at(donor, index) matches Some(d) ==> known.contains(key_of(d))
}

/// Whether `b` starts with `a`.
pub open spec fn extends(a: Seq<ImportKey>, b: Seq<ImportKey>) -> bool {
    a.len() <= b.len() && b.subrange(0, a.len() as int) == a
}

/// What resolution keeps: the added keys are distinct, none is a recipient
/// key, each is the key of a donor import, and the references it hands out
/// fit in an `i32`.
pub open spec fn valid_resolve_state(s: ResolveState) -> bool {
    &&& s.1.len() + s.0.len() <= i32::MAX
    &&& s.2.no_duplicates()
    &&& forall|k: int| 0 <= k < s.2.len() ==> !s.1.contains(#[trigger] s.2[k])
    &&& forall|k: int| 0 <= k < s.2.len() ==> keys(s.0).contains(#[trigger] s.2[k])
}

/// There are no more added keys than donor imports, and none more while a
/// donor key is still missing.
pub proof fn lemma_added_bound(s: ResolveState, extra: Option<ImportKey>)
    requires
        valid_resolve_state(s),
        extra matches Some(k) ==> keys(s.0).contains(k) && !s.2.contains(k),
    ensures
        s.2.len() <= s.0.len(),
        extra is Some ==> s.2.len() + 1 <= s.0.len(),
{
    broadcast use vstd::seq_lib::seq_to_set_is_finite;

    let t = match extra {
        Some(k) => s.2.push(k),
        None => s.2,
    };
    assert(t.no_duplicates()) by {
        if let Some(k) = extra {
            assert forall|i: int, j: int| 0 <= i < t.len() && 0 <= j < t.len() && i != j implies t[i]
                != t[j] by {
                if i == s.2.len() {
                    assert(s.2[j] == t[j]);
                } else if j == s.2.len() {
                    assert(s.2[i] == t[i]);
                }
            }
        }
    }
    t.unique_seq_to_set();
    keys(s.0).lemma_cardinality_of_set();
    assert forall|x: ImportKey| t.to_set().contains(x) implies keys(s.0).to_set().contains(x) by {
        let i = choose|i: int| 0 <= i < t.len() && t[i] == x;
        if i < s.2.len() {
            assert(s.2[i] == t[i]);
        }
    }
    lemma_len_subset(t.to_set(), keys(s.0).to_set());
}

/// Resolving one reference keeps a valid state valid, and only adds keys.
pub proof fn lemma_next_valid(s: ResolveState, index: i32)
    requires
        valid_resolve_state(s),
    ensures
        valid_resolve_state((s.0, s.1, next_added(s, index), s.3)),
        extends(s.2, next_added(s, index)),
        extends(s.1 + s.2, s.1 + next_added(s, index)),
        covered(s.0, s.1 + next_added(s, index), index),
{
    let n = next_added(s, index);
    assert(s.2 =~= n.subrange(0, s.2.len() as int));
    assert(s.1 + s.2 =~= (s.1 + n).subrange(0, (s.1 + s.2).len() as int));
    if let Some(d) = import_at(s.0, index) {
        let k = key_of(d);
        let j = -(index as int) - 1;
        assert(keys(s.0)[j] == k);
        if !(s.1 + s.2).contains(k) {
            assert forall|i: int| 0 <= i < s.2.len() implies s.2[i] != k by {
                assert((s.1 + s.2)[s.1.len() + i] == s.2[i]);
            }
            assert forall|i: int| 0 <= i < s.1.len() implies s.1[i] != k by {
                assert((s.1 + s.2)[i] == s.1[i]);
            }
            assert(n.no_duplicates()) by {
                assert forall|a: int, b: int| 0 <= a < n.len() && 0 <= b < n.len() && a != b implies n[a]
                    != n[b] by {
                    if a < s.2.len() && b < s.2.len() {
                        assert(n[a] == s.2[a] && n[b] == s.2[b]);
                    } else if a < s.2.len() {
                        assert(n[a] == s.2[a]);
                    } else if b < s.2.len() {
                        assert(n[b] == s.2[b]);
                    }
                }
            }
            assert forall|i: int| 0 <= i < n.len() implies !s.1.contains(#[trigger] n[i]) by {
                if i < s.2.len() {
                    assert(n[i] == s.2[i]);
                }
            }
            assert forall|i: int| 0 <= i < n.len() implies keys(s.0).contains(#[trigger] n[i]) by {
                if i < s.2.len() {
                    assert(n[i] == s.2[i]);
                }
            }
            assert((s.1 + n)[(s.1.len() + s.2.len()) as int] == k);
        }
    }
}

/// A reference that was covered resolves the same way once more keys follow.
pub proof fn lemma_resolved_extends(donor: Seq<Import>, a: Seq<ImportKey>, b: Seq<ImportKey>, index: i32)
    requires
        extends(a, b),
        covered(donor, a, index),
    ensures
        covered(donor, b, index),
        resolved_ref(donor, b, index) == resolved_ref(donor, a, index),
{
    if let Some(d) = import_at(donor, index) {
        let k = key_of(d);
        assert(b =~= a + b.subrange(a.len() as int, b.len() as int));
        lemma_first_key(a, k);
        lemma_first_key_append(a, b.subrange(a.len() as int, b.len() as int), k);
        let i = choose|i: int| 0 <= i < a.len() && a[i] == k;
        assert(b[i] == k);
    }
}


/// Resolving one reference from a valid state: the value it gets, stated
/// against any list of keys that extends the state it leaves.
pub proof fn lemma_resolve_step(s: ResolveState, index: i32)
    requires
        valid_resolve_state(s),
    ensures
        -i32::MAX <= resolved_ref(s.0, s.1 + next_added(s, index), index) <= i32::MAX
            || import_at(s.0, index) is None,
        import_at(s.0, index) is None ==> resolved_ref(s.0, s.1 + next_added(s, index), index)
            == index,
{
    lemma_next_valid(s, index);
    let n = next_added(s, index);
    lemma_added_bound((s.0, s.1, n, s.3), None);
    if let Some(d) = import_at(s.0, index) {
        lemma_first_key(s.1 + n, key_of(d));
    }
}

/// Resolving references in turn from a valid state: each gets what resolving
/// against the keys at the end of the walk gives it, and each is covered by
/// them.
pub proof fn lemma_resolve_walk(s: ResolveState, q: Seq<i32>)
    requires
        valid_resolve_state(s),
    ensures
        valid_resolve_state(walk_state::<ImportResolver>(s, q)),
        walk_state::<ImportResolver>(s, q).0 == s.0,
        walk_state::<ImportResolver>(s, q).1 == s.1,
        walk_state::<ImportResolver>(s, q).3 == s.3,
        extends(s.1 + s.2, s.1 + walk_state::<ImportResolver>(s, q).2),
        walk_out::<ImportResolver>(s, q).len() == q.len(),
        forall|k: int|
            0 <= k < q.len() ==> {
                &&& walk_out::<ImportResolver>(s, q)[k] as int == resolved_ref(
                    s.0,
                    s.1 + walk_state::<ImportResolver>(s, q).2,
                    q[k],
                )
                &&& covered(s.0, s.1 + walk_state::<ImportResolver>(s, q).2, q[k])
            },
    decreases q.len(),
{
    if q.len() == 0 {
        assert(s.1 + s.2 =~= (s.1 + s.2).subrange(0, (s.1 + s.2).len() as int));
    } else {
        let n = (s.0, s.1, next_added(s, q[0]), s.3);
        let rest = q.drop_first();
        lemma_next_valid(s, q[0]);
        lemma_resolve_step(s, q[0]);
        lemma_resolve_walk(n, rest);
        let end = s.1 + walk_state::<ImportResolver>(n, rest).2;
        assert(walk_state::<ImportResolver>(s, q) == walk_state::<ImportResolver>(n, rest));
        let mid = s.1 + n.2;
        assert(extends(s.1 + s.2, end)) by {
            assert(end.subrange(0, (s.1 + s.2).len() as int) =~= mid.subrange(
                0,
                (s.1 + s.2).len() as int,
            ));
        }
        lemma_resolved_extends(s.0, mid, end, q[0]);
        assert forall|k: int| 0 <= k < q.len() implies {
            &&& walk_out::<ImportResolver>(s, q)[k] as int == resolved_ref(s.0, end, q[k])
            &&& covered(s.0, end, q[k])
        } by {
            if k > 0 {
                assert(q[k] == rest[k - 1]);
                assert(walk_out::<ImportResolver>(s, q)[k] == walk_out::<ImportResolver>(n, rest)[k
                    - 1]);
            }
        }
    }
}

/// Whether the donor import that `index` names has the key `key`.
pub open spec fn names_key(donor: Seq<Import>, index: i32, key: ImportKey) -> bool {
    import_at(donor, index) matches Some(d) && key_of(d) == key
}

/// Whether one of the references `q` names a donor import with the key `key`.
pub open spec fn named_by(donor: Seq<Import>, q: Seq<i32>, key: ImportKey) -> bool {
    exists|i: int| 0 <= i < q.len() && names_key(donor, #[trigger] q[i], key)
}

/// Resolving references in turn only adds keys after those there, each the
/// key of a donor import that one of the references names.
pub proof fn lemma_walk_named(s: ResolveState, q: Seq<i32>)
    ensures
        walk_state::<ImportResolver>(s, q).2.len() >= s.2.len(),
        forall|k: int| 0 <= k < s.2.len() ==> #[trigger] walk_state::<ImportResolver>(s, q).2[k] == s.2[k],
        forall|k: int|
            s.2.len() <= k < walk_state::<ImportResolver>(s, q).2.len() ==> named_by(
                s.0,
                q,
                #[trigger] walk_state::<ImportResolver>(s, q).2[k],
            ),
    decreases q.len(),
{
    if q.len() > 0 {
        let n = (s.0, s.1, next_added(s, q[0]), s.3);
        let rest = q.drop_first();
        lemma_walk_named(n, rest);
        let w = walk_state::<ImportResolver>(s, q).2;
        assert(walk_state::<ImportResolver>(s, q) == walk_state::<ImportResolver>(n, rest));
        assert forall|k: int| 0 <= k < s.2.len() implies #[trigger] w[k] == s.2[k] by {
            assert(w[k] == n.2[k]);
        }
        assert forall|k: int| s.2.len() <= k < w.len() implies named_by(s.0, q, #[trigger] w[k]) by {
            if k < n.2.len() {
                assert(w[k] == n.2[k]);
                assert(names_key(s.0, q[0], w[k]));
            } else {
                let i = choose|i: int| 0 <= i < rest.len() && names_key(s.0, #[trigger] rest[i], w[k]);
                assert(q[i + 1] == rest[i]);
            }
        }
    }
}

/// Whether `key`, that of the added import at position `pos`, is needed: one
/// of the references `q` names a donor import with that key, or the outer
/// object of one of the first `n` of `origins`, at a position before `pos`,
/// does.
pub open spec fn needed_key(donor: Seq<Import>, q: Seq<i32>, origins: Seq<Import>, n: int, pos: int, key: ImportKey) -> bool {
    ||| named_by(donor, q, key)
    ||| exists|m: int| 0 <= m < n && m < pos && names_key(donor, (#[trigger] origins[m]).outer_index.index, key)
}

/// Whether each import that `after` adds to `before` is needed: one of the
/// references `q` names a donor import with its key, or the outer object of
/// a donor import that an earlier added import copies does.
pub open spec fn only_needed(before: Seq<Import>, after: Seq<Import>, donor: Seq<Import>, q: Seq<i32>) -> bool {
    forall|k: int|
        before.len() <= k < after.len() ==> {
            ||| named_by(donor, q, key_of(#[trigger] after[k]))
            ||| exists|m: int, j: int|
                before.len() <= m < k && 0 <= j < donor.len() && key_of(#[trigger] after[m])
                    == key_of(#[trigger] donor[j]) && names_key(donor, donor[j].outer_index.index, key_of(after[k]))
        }
}

/// Where no reference names a donor import, nothing needed is added: the
/// first added import would need an earlier one.
pub proof fn lemma_nothing_needed(before: Seq<Import>, after: Seq<Import>, donor: Seq<Import>, q: Seq<i32>)
    requires
        only_needed(before, after, donor, q),
        before.len() <= after.len(),
        forall|i: int| 0 <= i < q.len() ==> import_at(donor, #[trigger] q[i]) is None,
    ensures
        after.len() == before.len(),
{
    if after.len() > before.len() {
        let k = before.len() as int;
        assert(named_by(donor, q, key_of(after[k])) || exists|m: int, j: int|
            before.len() <= m < k && 0 <= j < donor.len() && key_of(#[trigger] after[m]) == key_of(
                #[trigger] donor[j],
            ) && names_key(donor, donor[j].outer_index.index, key_of(after[k])));
        if named_by(donor, q, key_of(after[k])) {
            let i = choose|i: int| 0 <= i < q.len() && names_key(donor, #[trigger] q[i], key_of(after[k]));
            assert(import_at(donor, q[i]) is None);
        }
    }
}

/// Whether added import `a` is a copy of donor import `d` but for its outer
/// object.
pub open spec fn origin_of(a: Import, d: Import) -> bool {
    key_of(a) == key_of(d) && a.optional == d.optional
}

/// Resolves the import references of an export moved from a donor asset into
/// a recipient: a reference to a donor import comes to point at the first
/// recipient import with the same key, or at a copy of the donor import that
/// the resolver adds after the recipient's imports.
pub struct ImportResolver<'a> {
    donor: &'a Asset,
    recipient: &'a Asset,
    imports: Vec<Import>,
    origins: Ghost<Seq<Import>>,
    resolved: Ghost<int>,
}

impl<'a> ImportResolver<'a> {
    #[verifier::type_invariant]
    spec fn resolver_inv(self) -> bool {
        &&& valid_resolve_state(
            (self.donor.imports@, keys(self.recipient.imports@), keys(self.imports@), self.resolved@),
        )
        &&& self.origins@.len() == self.imports@.len()
        &&& 0 <= self.resolved@ <= self.imports@.len()
        &&& forall|k: int|
            0 <= k < self.imports@.len() ==> origin_of(#[trigger] self.imports@[k], self.origins@[k])
        &&& forall|k: int|
            0 <= k < self.origins@.len() ==> exists|j: int|
                0 <= j < self.donor.imports@.len() && #[trigger] self.origins@[k] == self.donor.imports@[j]
        &&& forall|k: int|
            self.resolved@ <= k < self.imports@.len() ==> #[trigger] self.imports@[k] == self.origins@[k]
    }

    /// The donor imports that the added imports were copied from.
    pub closed spec fn origins(self) -> Seq<Import> {
        self.origins@
    }

    /// The imports added so far.
    pub closed spec fn added(self) -> Seq<Import> {
        self.imports@
    }

    /// The donor's imports.
    pub closed spec fn donor_imports(self) -> Seq<Import> {
        self.donor.imports@
    }

    /// The recipient's imports.
    pub closed spec fn recipient_imports(self) -> Seq<Import> {
        self.recipient.imports@
    }

    /// A resolver that has added nothing yet.
    fn new(donor: &'a Asset, recipient: &'a Asset) -> (r: Self)
        requires
            recipient.imports@.len() + donor.imports@.len() <= i32::MAX,
        ensures
            r.added() == Seq::<Import>::empty(),
            r.origins() == Seq::<Import>::empty(),
            r.donor_imports() == donor.imports@,
            r.recipient_imports() == recipient.imports@,
            r.visit_state().3 == 0,
    {
        let ghost empty = Seq::<Import>::empty();
        assert(keys(empty) =~= Seq::<ImportKey>::empty());
        ImportResolver { donor, recipient, imports: Vec::new(), origins: Ghost(empty), resolved: Ghost(0) }
    }

    /// Adds a copy of a donor import whose key is not there yet.
    fn add_import(&mut self, import: Import) -> (len: usize)
        requires
            !(old(self).visit_state().1 + old(self).visit_state().2).contains(key_of(import)),
            exists|j: int| 0 <= j < old(self).donor_imports().len() && import == old(self).donor_imports()[j],
        ensures
            len == final(self).added().len(),
            final(self).added() == old(self).added().push(import),
            final(self).origins() == old(self).origins().push(import),
            final(self).visit_state() == (
                old(self).visit_state().0,
                old(self).visit_state().1,
                old(self).visit_state().2.push(key_of(import)),
                old(self).visit_state().3,
            ),
            final(self).donor_imports() == old(self).donor_imports(),
            final(self).recipient_imports() == old(self).recipient_imports(),
    {
        proof {
            use_type_invariant(&*self);
        }
        let ghost s = self.visit_state();
        let ghost copy = import;
        let mut me = ImportResolver::new(self.donor, self.recipient);
        std::mem::swap(self, &mut me);
        proof {
            use_type_invariant(&me);
        }
        let ImportResolver { donor, recipient, mut imports, origins, resolved } = me;
        imports.push(import);
        let len = imports.len();
        let ghost new_origins = origins@.push(copy);
        proof {
            assert(keys(imports@) =~= s.2.push(key_of(copy)));
            let j = choose|j: int| 0 <= j < donor.imports@.len() && copy == donor.imports@[j];
            assert(keys(donor.imports@)[j] == key_of(copy));
            let d = donor.imports@[j];
            assert(import_at(s.0, -(j + 1) as i32) == Some(d));
            lemma_next_valid(s, -(j + 1) as i32);
            assert(next_added(s, -(j + 1) as i32) == s.2.push(key_of(copy)));
            assert forall|k: int| 0 <= k < new_origins.len() implies exists|j: int|
                0 <= j < donor.imports@.len() && #[trigger] new_origins[k] == donor.imports@[j] by {
                if k < origins@.len() {
                    assert(new_origins[k] == origins@[k]);
                }
            }
            assert forall|k: int| 0 <= k < imports@.len() implies origin_of(
                #[trigger] imports@[k],
                new_origins[k],
            ) by {
                if k < origins@.len() {
                    assert(new_origins[k] == origins@[k]);
                }
            }
            assert forall|k: int| resolved@ <= k < imports@.len() implies #[trigger] imports@[k]
                == new_origins[k] by {
                if k < origins@.len() {
                    assert(new_origins[k] == origins@[k]);
                }
            }
        }
        *self = ImportResolver { donor, recipient, imports, origins: Ghost(new_origins), resolved };
        len
    }

    /// Resolves one reference.
    fn resolve(&mut self, index: i32) -> (r: i32)
        ensures
            r == ImportResolver::new_index(old(self).visit_state(), index),
            final(self).visit_state() == ImportResolver::next_state(old(self).visit_state(), index),
            final(self).donor_imports() == old(self).donor_imports(),
            final(self).recipient_imports() == old(self).recipient_imports(),
            final(self).added().len() >= old(self).added().len(),
            forall|k: int|
                0 <= k < old(self).added().len() ==> final(self).added()[k] == old(self).added()[k],
            forall|k: int|
                old(self).added().len() <= k < final(self).added().len() ==> import_at(
                    old(self).donor_imports(),
                    index,
                ) == Some(final(self).added()[k]),
            final(self).origins().len() == final(self).added().len(),
            forall|k: int|
                0 <= k < old(self).origins().len() ==> final(self).origins()[k] == old(self).origins()[k],
            forall|k: int|
                old(self).added().len() <= k < final(self).added().len() ==> final(self).origins()[k]
                    == final(self).added()[k],
    {
        proof {
            use_type_invariant(&*self);
        }
        let ghost s = self.visit_state();
        match self.donor.get_import(PackageIndex::new(index)) {
            Some(import) => {
                let ghost k = key_of(import);
                proof {
                    lemma_first_key(s.1, k);
                    lemma_first_key(s.2, k);
                    lemma_first_key_append(s.1, s.2, k);
                    lemma_first_key(s.1 + s.2, k);
                    lemma_next_valid(s, index);
                }
                match self.recipient.find_import_no_index(
                    import.class_package.as_str(),
                    import.class_name.as_str(),
                    import.object_name.as_str(),
                ) {
                    Some(existing) => {
                        proof {
                            lemma_first_key_append(s.1, next_added(s, index), k);
                            assert(s.1.contains(k));
                            assert((s.1 + s.2).contains(k)) by {
                                let p = -existing - 1;
                                assert((s.1 + s.2)[p] == s.1[p]);
                            }
                        }
                        existing
                    },
                    None => {
                        let offset = self.recipient.imports.len() as i32;
                        match position_naming(
                            &self.imports,
                            import.class_package.as_str(),
                            import.class_name.as_str(),
                            import.object_name.as_str(),
                        ) {
                            Some(p) => {
                                proof {
                                    lemma_added_bound(s, None);
                                    lemma_first_key_append(s.1, next_added(s, index), k);
                                    assert((s.1 + s.2).contains(k)) by {
                                        assert((s.1 + s.2)[s.1.len() + p] == s.2[p as int]);
                                    }
                                }
                                -offset - (p as i32 + 1)
                            },
                            None => {
                                proof {
                                    assert(!(s.1 + s.2).contains(k));
                                    let j = -(index as int) - 1;
                                    assert(keys(s.0)[j] == k);
                                    lemma_added_bound(s, Some(k));
                                    lemma_first_key_append(s.1, next_added(s, index), k);
                                    lemma_first_key_at(next_added(s, index), k, s.2.len() as int);
                                    assert(import == s.0[j]);
                                }
                                let len = self.add_import(import);
                                -offset - (len as i32)
                            },
                        }
                    },
                }
            },
            None => index,
        }
    }

    /// The imports added, handed over.
    fn into_added(self) -> (r: Vec<Import>)
        ensures
            r@ == self.added(),
    {
        self.imports
    }
}

impl<'a> IndexVisitor for ImportResolver<'a> {
    type State = ResolveState;

    closed spec fn visit_state(&self) -> ResolveState {
        (self.donor.imports@, keys(self.recipient.imports@), keys(self.imports@), self.resolved@)
    }

    open spec fn next_state(s: ResolveState, index: i32) -> ResolveState {
        (s.0, s.1, next_added(s, index), s.3)
    }

    open spec fn new_index(s: ResolveState, index: i32) -> i32 {
        resolved_ref(s.0, s.1 + next_added(s, index), index) as i32
    }

    fn visit(&mut self, index: &mut PackageIndex) {
        let r = self.resolve(index.index);
        index.index = r;
    }
}

/// Where a reference holding `index` points once an export has been moved:
/// a reference to the export itself points at its new place, one to its old
/// outer object at the class that receives it, and any other is kept.
pub open spec fn redirect(index: i32, self_index: i32, package_offset: i32, old: i32, class: i32) -> i32 {
    if index == self_index {
        package_offset
    } else if index == old {
        class
    } else {
        index
    }
}

/// The references `q`, each redirected with the parameters `p` (the export's
/// own reference, its new reference, its old outer object and the class).
pub open spec fn redirect_all(q: Seq<i32>, p: (i32, i32, i32, i32)) -> Seq<i32> {
    q.map_values(|i: i32| redirect(i, p.0, p.1, p.2, p.3))
}

/// `s` with its first occurrence of `from` replaced by `to`, if it has one.
pub open spec fn replace_first(s: Seq<i32>, from: i32, to: i32) -> Seq<i32> {
    match s.index_of_first(from) {
        Some(p) => s.update(p, to),
        None => s,
    }
}

/// Rewrites the references of an export being moved, as `redirect` says.
pub struct ExportRedirect {
    pub self_index: i32,
    pub package_offset: i32,
    pub old: i32,
    pub class: i32,
}

impl IndexVisitor for ExportRedirect {
    type State = (i32, i32, i32, i32);

    open spec fn visit_state(&self) -> (i32, i32, i32, i32) {
        (self.self_index, self.package_offset, self.old, self.class)
    }

    open spec fn next_state(s: (i32, i32, i32, i32), index: i32) -> (i32, i32, i32, i32) {
        s
    }

    open spec fn new_index(s: (i32, i32, i32, i32), index: i32) -> i32 {
        redirect(index, s.0, s.1, s.2, s.3)
    }

    fn visit(&mut self, index: &mut PackageIndex) {
        if index.index == self.self_index {
            index.index = self.package_offset;
        } else if index.index == self.old {
            index.index = self.class;
        }
    }
}

/// Redirecting references one after another rewrites each on its own.
pub proof fn lemma_redirect_walk(s: (i32, i32, i32, i32), q: Seq<i32>)
    ensures
        walk_state::<ExportRedirect>(s, q) == s,
        walk_out::<ExportRedirect>(s, q) == redirect_all(q, s),
    decreases q.len(),
{
    if q.len() > 0 {
        lemma_redirect_walk(s, q.drop_first());
    }
    assert(walk_out::<ExportRedirect>(s, q) =~= redirect_all(q, s));
}

/// Redirecting a concatenation redirects each part.
pub proof fn lemma_redirect_all_append(a: Seq<i32>, b: Seq<i32>, p: (i32, i32, i32, i32))
    ensures
        redirect_all(a + b, p) == redirect_all(a, p) + redirect_all(b, p),
{
    assert(redirect_all(a + b, p) =~= redirect_all(a, p) + redirect_all(b, p));
}

/// Replaces the first reference of `list` that holds `from` by one holding
/// `to`.
fn replace_first_index(list: &mut Vec<PackageIndex>, from: i32, to: i32)
    ensures
        final(list)@.len() == old(list)@.len(),
        index_list_refs(final(list)@) == replace_first(index_list_refs(old(list)@), from, to),
{
    let ghost refs = index_list_refs(list@);
    let mut i: usize = 0;
    while i < list.len()
        invariant
            i <= list@.len(),
            list@ == old(list)@,
            refs == index_list_refs(list@),
            forall|j: int| 0 <= j < i ==> refs[j] != from,
        decreases list@.len() - i,
    {
        if list[i].index == from {
            proof {
                lemma_first_i32_at(refs, from, i as int);
            }
            list.set(i, PackageIndex::new(to));
            proof {
                assert(index_list_refs(list@) =~= refs.update(i as int, to));
            }
            return;
        }
        i = i + 1;
    }
    proof {
        refs.index_of_first_ensures(from);
        if refs.contains(from) {
            let j = choose|j: int| 0 <= j < refs.len() && refs[j] == from;
            assert(refs[j] != from);
        }
    }
}

/// Two concatenations of five parts that agree, with parts of the same
/// lengths, agree part by part.
pub proof fn lemma_split5<A>(
    a: Seq<A>,
    b: Seq<A>,
    c: Seq<A>,
    d: Seq<A>,
    e: Seq<A>,
    a2: Seq<A>,
    b2: Seq<A>,
    c2: Seq<A>,
    d2: Seq<A>,
    e2: Seq<A>,
)
    requires
        a + b + c + d + e == a2 + b2 + c2 + d2 + e2,
        b.len() == b2.len(),
        c.len() == c2.len(),
        d.len() == d2.len(),
        e.len() == e2.len(),
    ensures
        a == a2,
        b == b2,
        c == c2,
        d == d2,
        e == e2,
{
    let w = a + b + c + d + e;
    let w2 = a2 + b2 + c2 + d2 + e2;
    assert(w.len() == w2.len());
    assert(a.len() == a2.len());
    let i = a.len() as int;
    let j = i + b.len();
    let k = j + c.len();
    let l = k + d.len();
    assert(a =~= w.subrange(0, i));
    assert(a2 =~= w2.subrange(0, i));
    assert(b =~= w.subrange(i, j));
    assert(b2 =~= w2.subrange(i, j));
    assert(c =~= w.subrange(j, k));
    assert(c2 =~= w2.subrange(j, k));
    assert(d =~= w.subrange(k, l));
    assert(d2 =~= w2.subrange(k, l));
    assert(e =~= w.subrange(l, w.len() as int));
    assert(e2 =~= w2.subrange(l, w.len() as int));
}

/// Two concatenations whose second parts have one length agree part by part.
pub proof fn lemma_split2<A>(a: Seq<A>, b: Seq<A>, a2: Seq<A>, b2: Seq<A>)
    requires
        a + b == a2 + b2,
        b.len() == b2.len(),
    ensures
        a == a2,
        b == b2,
{
    let w = a + b;
    assert(w.len() == (a2 + b2).len());
    assert(a.len() == a2.len());
    assert(a =~= w.subrange(0, a.len() as int));
    assert(a2 =~= (a2 + b2).subrange(0, a.len() as int));
    assert(b =~= w.subrange(a.len() as int, w.len() as int));
    assert(b2 =~= (a2 + b2).subrange(a.len() as int, w.len() as int));
}

/// The first occurrence of a value is where it occurs first.
proof fn lemma_first_i32_at(s: Seq<i32>, x: i32, i: int)
    requires
        0 <= i < s.len(),
        s[i] == x,
        forall|j: int| 0 <= j < i ==> s[j] != x,
    ensures
        s.index_of_first(x) == Some(i),
{
    s.index_of_first_ensures(x);
    assert(s.contains(x));
    let p = s.index_of_first(x).unwrap();
    if p < i {
        assert(s[p] != x);
    } else if p > i {
        assert(s[i] != x);
    }
}

/// The references of export `e`, moved with the parameters `p`, that may
/// name imports: those of its data, its class and template, and three of its
/// dependency lists, in the order resolution visits them.
pub open spec fn moved_import_refs(e: Export, p: (i32, i32, i32, i32)) -> Seq<i32> {
    redirect_all(export_data_refs(e.data), p) + seq![e.base_export.class_index.index] + seq![
        e.base_export.template_index.index,
    ] + redirect_all(index_list_refs(e.base_export.serialization_before_create_dependencies@), p)
        + redirect_all(index_list_refs(e.base_export.create_before_serialization_dependencies@), p)
        + replace_first(
        redirect_all(index_list_refs(e.base_export.create_before_create_dependencies@), p),
        p.2,
        p.3,
    )
}

/// The parameters of `redirect` for moving export `e`, at `index` of its
/// asset, to the end of an export table of `offset` entries under `class`.
pub open spec fn move_params(e: Export, index: usize, offset: usize, class: i32) -> (i32, i32, i32, i32) {
    ((index + 1) as i32, (offset + 1) as i32, e.base_export.outer_index.index, class)
}

/// A copy of export `index` of `asset`, rewritten for its place at the end
/// of an export table of `offset` entries: references to itself point at that
/// place, references to its outer object point at `class`, the first of its
/// create-before-create dependencies that still names its outer object is
/// replaced by `class`, and its outer object becomes `class`.
pub fn get_export(index: usize, asset: &Asset, offset: usize, class: i32) -> (child: Export)
    requires
        index < asset.exports@.len(),
        index < i32::MAX,
        offset < i32::MAX,
    ensures
        same_export_shape(asset.exports@[index as int], child),
        export_data_refs(child.data) == redirect_all(
            export_data_refs(asset.exports@[index as int].data),
            move_params(asset.exports@[index as int], index, offset, class),
        ),
        index_list_refs(child.base_export.create_before_serialization_dependencies@) == redirect_all(
            index_list_refs(asset.exports@[index as int].base_export.create_before_serialization_dependencies@),
            move_params(asset.exports@[index as int], index, offset, class),
        ),
        index_list_refs(child.base_export.serialization_before_create_dependencies@) == redirect_all(
            index_list_refs(asset.exports@[index as int].base_export.serialization_before_create_dependencies@),
            move_params(asset.exports@[index as int], index, offset, class),
        ),
        index_list_refs(child.base_export.create_before_create_dependencies@) == replace_first(
            redirect_all(
                index_list_refs(asset.exports@[index as int].base_export.create_before_create_dependencies@),
                move_params(asset.exports@[index as int], index, offset, class),
            ),
            asset.exports@[index as int].base_export.outer_index.index,
            class,
        ),
        child.base_export.outer_index.index == class,
        child.base_export.class_index == asset.exports@[index as int].base_export.class_index,
        child.base_export.super_index == asset.exports@[index as int].base_export.super_index,
        child.base_export.template_index == asset.exports@[index as int].base_export.template_index,
        child.base_export.serialization_before_serialization_dependencies@
            == asset.exports@[index as int].base_export.serialization_before_serialization_dependencies@,
{
    let ghost e = asset.exports@[index as int];
    let mut child = duplicate_export(&asset.exports[index]);
    let package_offset = offset as i32 + 1;
    let old = child.base_export.outer_index.index;
    let mut redirector = ExportRedirect {
        self_index: index as i32 + 1,
        package_offset,
        old,
        class,
    };
    let ghost mid = child;
    let ghost st = redirector.visit_state();
    on_export_refs(&mut child, &mut redirector);
    proof {
        lemma_redirect_walk(st, export_ref_targets(mid));
        let a = export_data_refs(mid.data);
        let b = index_list_refs(mid.base_export.create_before_create_dependencies@);
        let c = index_list_refs(mid.base_export.create_before_serialization_dependencies@);
        let d = index_list_refs(mid.base_export.serialization_before_create_dependencies@);
        let o = seq![mid.base_export.outer_index.index];
        let a2 = export_data_refs(child.data);
        let b2 = index_list_refs(child.base_export.create_before_create_dependencies@);
        let c2 = index_list_refs(child.base_export.create_before_serialization_dependencies@);
        let d2 = index_list_refs(child.base_export.serialization_before_create_dependencies@);
        let o2 = seq![child.base_export.outer_index.index];
        lemma_redirect_all_append(a + b + c + d, o, st);
        lemma_redirect_all_append(a + b + c, d, st);
        lemma_redirect_all_append(a + b, c, st);
        lemma_redirect_all_append(a, b, st);
        assert(a2 + b2 + c2 + d2 + o2 == redirect_all(a, st) + redirect_all(b, st) + redirect_all(c, st)
            + redirect_all(d, st) + redirect_all(o, st));
        assert(b2.len() == b.len() && c2.len() == c.len() && d2.len() == d.len());
        lemma_split5(a2, b2, c2, d2, o2, redirect_all(a, st), redirect_all(b, st), redirect_all(c, st), redirect_all(d, st), redirect_all(o, st));
        assert(st == move_params(e, index, offset, class));
    }
    replace_first_index(&mut child.base_export.create_before_create_dependencies, old, class);
    child.base_export.outer_index = PackageIndex::new(class);
    proof {
        lemma_export_shape_trans(e, mid, child);
    }
    child
}

/// The references `q`, each resolved against the keys `known`.
pub open spec fn resolved_all(donor: Seq<Import>, known: Seq<ImportKey>, q: Seq<i32>) -> Seq<int> {
    q.map_values(|x: i32| resolved_ref(donor, known, x))
}

/// Whether every reference of `q` that names a donor import has its key among
/// `known`.
pub open spec fn covers_all(donor: Seq<Import>, known: Seq<ImportKey>, q: Seq<i32>) -> bool {
    forall|k: int| 0 <= k < q.len() ==> covered(donor, known, #[trigger] q[k])
}

/// References as integers.
pub open spec fn widen(q: Seq<i32>) -> Seq<int> {
    q.map_values(|x: i32| x as int)
}

/// `s` with every leading copy of `prefix` removed.
pub open spec fn strip_prefixes(s: Seq<char>, prefix: Seq<char>) -> Seq<char>
    decreases s.len(),
{
    if prefix.len() > 0 && prefix.len() <= s.len() && s.subrange(0, prefix.len() as int) == prefix {
        strip_prefixes(s.subrange(prefix.len() as int, s.len() as int), prefix)
    } else {
        s
    }
}

/// `str::trim_start_matches` of std with a string pattern, which its
/// documentation says returns `s` with all prefixes that match the pattern
/// repeatedly removed.
#[verifier::external_body]
fn trim_start_matches<'a>(s: &'a str, prefix: &str) -> (r: &'a str)
    ensures
        r@ == strip_prefixes(s@, prefix@),
{
    s.trim_start_matches(prefix)
}

impl<'a> ImportResolver<'a> {
    /// How many imports have been added.
    fn added_len(&self) -> (n: usize)
        ensures
            n == self.added().len(),
    {
        self.imports.len()
    }

    /// The outer object of added import `i`.
    fn added_outer(&self, i: usize) -> (o: i32)
        requires
            i < self.added().len(),
        ensures
            o == self.added()[i as int].outer_index.index,
    {
        self.imports[i].outer_index.index
    }

    /// Points the outer object of added import `i`, the first whose outer
    /// object is not resolved yet, at `outer`.
    fn set_added_outer(&mut self, i: usize, outer: i32)
        requires
            i < old(self).added().len(),
            i == old(self).visit_state().3,
        ensures
            final(self).donor_imports() == old(self).donor_imports(),
            final(self).recipient_imports() == old(self).recipient_imports(),
            final(self).origins() == old(self).origins(),
            final(self).visit_state() == (
                old(self).visit_state().0,
                old(self).visit_state().1,
                old(self).visit_state().2,
                i + 1,
            ),
            final(self).added().len() == old(self).added().len(),
            forall|k: int|
                0 <= k < old(self).added().len() && k != i ==> final(self).added()[k] == old(
                    self,
                ).added()[k],
            key_of(final(self).added()[i as int]) == key_of(old(self).added()[i as int]),
            final(self).added()[i as int].optional == old(self).added()[i as int].optional,
            final(self).added()[i as int].outer_index.index == outer,
    {
        proof {
            use_type_invariant(&*self);
        }
        let mut me = ImportResolver::new(self.donor, self.recipient);
        std::mem::swap(self, &mut me);
        proof {
            use_type_invariant(&me);
        }
        let ImportResolver { donor, recipient, mut imports, origins, resolved } = me;
        let ghost before = imports@;
        let current = &imports[i];
        let updated = Import {
            class_package: current.class_package.clone(),
            class_name: current.class_name.clone(),
            outer_index: PackageIndex::new(outer),
            object_name: current.object_name.clone(),
            optional: current.optional,
        };
        imports.set(i, updated);
        proof {
            assert(keys(imports@) =~= keys(before));
        }
        *self = ImportResolver { donor, recipient, imports, origins, resolved: Ghost(i + 1) };
    }
}

/// Concatenations split the resolution of references.
pub proof fn lemma_resolved_all_append(donor: Seq<Import>, known: Seq<ImportKey>, a: Seq<i32>, b: Seq<i32>)
    ensures
        resolved_all(donor, known, a + b) == resolved_all(donor, known, a) + resolved_all(donor, known, b),
        widen(a + b) == widen(a) + widen(b),
        covers_all(donor, known, a + b) ==> covers_all(donor, known, a) && covers_all(donor, known, b),
{
    assert(resolved_all(donor, known, a + b) =~= resolved_all(donor, known, a) + resolved_all(
        donor,
        known,
        b,
    ));
    assert(widen(a + b) =~= widen(a) + widen(b));
    if covers_all(donor, known, a + b) {
        assert forall|k: int| 0 <= k < a.len() implies covered(donor, known, #[trigger] a[k]) by {
            assert((a + b)[k] == a[k]);
        }
        assert forall|k: int| 0 <= k < b.len() implies covered(donor, known, #[trigger] b[k]) by {
            assert((a + b)[a.len() + k] == b[k]);
        }
    }
}


/// Whether `n` is export `e` moved with the parameters `p` (see
/// `move_params`) into an asset whose imports have the keys `known`, with
/// `donor` the imports of the asset it came from: its own data keeps its
/// shape, and each reference that may name an import is redirected and then
/// resolved; its remaining common fields are as `get_export` leaves them.
pub open spec fn moved_export(
    e: Export,
    n: Export,
    p: (i32, i32, i32, i32),
    donor: Seq<Import>,
    known: Seq<ImportKey>,
) -> bool {
    let data = redirect_all(export_data_refs(e.data), p);
    let sbcd = redirect_all(index_list_refs(e.base_export.serialization_before_create_dependencies@), p);
    let cbsd = redirect_all(index_list_refs(e.base_export.create_before_serialization_dependencies@), p);
    let cbcd = replace_first(
        redirect_all(index_list_refs(e.base_export.create_before_create_dependencies@), p),
        p.2,
        p.3,
    );
    &&& same_export_data_shape(e.data, n.data)
    &&& widen(export_data_refs(n.data)) == resolved_all(donor, known, data)
    &&& covers_all(donor, known, data)
    &&& n.base_export.class_index.index as int == resolved_ref(donor, known, e.base_export.class_index.index)
    &&& covered(donor, known, e.base_export.class_index.index)
    &&& n.base_export.template_index.index as int == resolved_ref(
        donor,
        known,
        e.base_export.template_index.index,
    )
    &&& covered(donor, known, e.base_export.template_index.index)
    &&& widen(index_list_refs(n.base_export.serialization_before_create_dependencies@)) == resolved_all(
        donor,
        known,
        sbcd,
    )
    &&& covers_all(donor, known, sbcd)
    &&& widen(index_list_refs(n.base_export.create_before_serialization_dependencies@)) == resolved_all(
        donor,
        known,
        cbsd,
    )
    &&& covers_all(donor, known, cbsd)
    &&& widen(index_list_refs(n.base_export.create_before_create_dependencies@)) == resolved_all(
        donor,
        known,
        cbcd,
    )
    &&& covers_all(donor, known, cbcd)
    &&& n.base_export.outer_index.index == p.3
    &&& n.base_export.super_index == e.base_export.super_index
    &&& n.base_export.serialization_before_serialization_dependencies@
        == e.base_export.serialization_before_serialization_dependencies@
}

/// Whether the name map `after` is `before` with `name` added, unless it was
/// there already.
pub open spec fn adds_name(before: Seq<String>, after: Seq<String>, name: Seq<char>) -> bool {
    &&& holds_name(before, name) ==> after == before
    &&& !holds_name(before, name) ==> {
        &&& after.len() == before.len() + 1
        &&& after.drop_last() == before
        &&& after.last()@ == name
    }
}

/// Whether the imports `after` are `before` followed by imports with distinct
/// keys that `before` lacks, each a copy of a donor import whose outer object
/// is resolved against `after`.
pub open spec fn added_imports(before: Seq<Import>, after: Seq<Import>, donor: Seq<Import>) -> bool {
    &&& before.len() <= after.len()
    &&& after.subrange(0, before.len() as int) == before
    &&& keys(after.subrange(before.len() as int, after.len() as int)).no_duplicates()
    &&& forall|k: int| before.len() <= k < after.len() ==> !keys(before).contains(key_of(#[trigger] after[k]))
    &&& forall|k: int|
        before.len() <= k < after.len() ==> exists|j: int|
            0 <= j < donor.len() && copied_import(#[trigger] after[k], donor[j], donor, keys(after))
}

/// Whether `a` is a copy of donor import `d` with its outer object resolved
/// against the keys `known`.
pub open spec fn copied_import(a: Import, d: Import, donor: Seq<Import>, known: Seq<ImportKey>) -> bool {
    &&& key_of(a) == key_of(d)
    &&& a.optional == d.optional
    &&& a.outer_index.index as int == resolved_ref(donor, known, d.outer_index.index)
    &&& covered(donor, known, d.outer_index.index)
}

/// What `transplant` makes of the references of the export it moves: those
/// that `get_export` redirected and the walk of the import resolver then
/// resolved against `walk_end`, stated against the final keys `known`.
proof fn lemma_moved_refs(
    e: Export,
    child0: Export,
    mid: Export,
    n: Export,
    p: (i32, i32, i32, i32),
    donor: Seq<Import>,
    walk_end: Seq<ImportKey>,
    known: Seq<ImportKey>,
)
    requires
        p.2 == e.base_export.outer_index.index,
        same_export_shape(e, child0),
        export_data_refs(child0.data) == redirect_all(export_data_refs(e.data), p),
        index_list_refs(child0.base_export.create_before_serialization_dependencies@) == redirect_all(
            index_list_refs(e.base_export.create_before_serialization_dependencies@),
            p,
        ),
        index_list_refs(child0.base_export.serialization_before_create_dependencies@) == redirect_all(
            index_list_refs(e.base_export.serialization_before_create_dependencies@),
            p,
        ),
        index_list_refs(child0.base_export.create_before_create_dependencies@) == replace_first(
            redirect_all(index_list_refs(e.base_export.create_before_create_dependencies@), p),
            p.2,
            p.3,
        ),
        child0.base_export.outer_index.index == p.3,
        child0.base_export.class_index == e.base_export.class_index,
        child0.base_export.super_index == e.base_export.super_index,
        child0.base_export.template_index == e.base_export.template_index,
        child0.base_export.serialization_before_serialization_dependencies@
            == e.base_export.serialization_before_serialization_dependencies@,
        mid.data == child0.data,
        mid.base_export.class_index == child0.base_export.class_index,
        mid.base_export.super_index == child0.base_export.super_index,
        mid.base_export.template_index == child0.base_export.template_index,
        mid.base_export.outer_index == child0.base_export.outer_index,
        mid.base_export.serialization_before_serialization_dependencies
            == child0.base_export.serialization_before_serialization_dependencies,
        mid.base_export.create_before_serialization_dependencies
            == child0.base_export.create_before_serialization_dependencies,
        mid.base_export.serialization_before_create_dependencies
            == child0.base_export.serialization_before_create_dependencies,
        mid.base_export.create_before_create_dependencies
            == child0.base_export.create_before_create_dependencies,
        same_export_shape(mid, n),
        n.base_export.super_index == mid.base_export.super_index,
        n.base_export.outer_index == mid.base_export.outer_index,
        n.base_export.serialization_before_serialization_dependencies
            == mid.base_export.serialization_before_serialization_dependencies,
        import_ref_targets(n).len() == import_ref_targets(mid).len(),
        forall|k: int|
            #![trigger import_ref_targets(mid)[k]]
            0 <= k < import_ref_targets(mid).len() ==> {
                &&& import_ref_targets(n)[k] as int == resolved_ref(
                    donor,
                    walk_end,
                    import_ref_targets(mid)[k],
                )
                &&& covered(donor, walk_end, import_ref_targets(mid)[k])
            },
        extends(walk_end, known),
    ensures
        moved_export(e, n, p, donor, known),
{
    let q = import_ref_targets(mid);
    let out = import_ref_targets(n);
    assert forall|k: int| 0 <= k < q.len() implies {
        &&& out[k] as int == resolved_ref(donor, known, q[k])
        &&& covered(donor, known, q[k])
    } by {
        assert(out[k] == import_ref_targets(n)[k]);
        assert(q[k] == import_ref_targets(mid)[k]);
        lemma_resolved_extends(donor, walk_end, known, q[k]);
    }
    assert(widen(out) =~= resolved_all(donor, known, q));
    assert forall|k: int| 0 <= k < q.len() implies covered(donor, known, #[trigger] q[k]) by {
        assert(q[k] == import_ref_targets(mid)[k]);
        lemma_resolved_extends(donor, walk_end, known, q[k]);
    }
    let a = export_data_refs(mid.data);
    let b = seq![mid.base_export.class_index.index];
    let c = seq![mid.base_export.template_index.index];
    let d = index_list_refs(mid.base_export.serialization_before_create_dependencies@);
    let f = index_list_refs(mid.base_export.create_before_serialization_dependencies@);
    let a2 = export_data_refs(n.data);
    let b2 = seq![n.base_export.class_index.index];
    let c2 = seq![n.base_export.template_index.index];
    let d2 = index_list_refs(n.base_export.serialization_before_create_dependencies@);
    let f2 = index_list_refs(n.base_export.create_before_serialization_dependencies@);
    let g = index_list_refs(mid.base_export.create_before_create_dependencies@);
    let g2 = index_list_refs(n.base_export.create_before_create_dependencies@);
    lemma_resolved_all_append(donor, known, a + b + c + d + f, g);
    lemma_resolved_all_append(donor, known, a2 + b2 + c2 + d2 + f2, g2);
    assert(g2.len() == g.len());
    lemma_split2(
        widen(a2 + b2 + c2 + d2 + f2),
        widen(g2),
        resolved_all(donor, known, a + b + c + d + f),
        resolved_all(donor, known, g),
    );
    lemma_resolved_all_append(donor, known, a + b + c + d, f);
    lemma_resolved_all_append(donor, known, a + b + c, d);
    lemma_resolved_all_append(donor, known, a + b, c);
    lemma_resolved_all_append(donor, known, a, b);
    lemma_resolved_all_append(donor, known, a2 + b2 + c2 + d2, f2);
    lemma_resolved_all_append(donor, known, a2 + b2 + c2, d2);
    lemma_resolved_all_append(donor, known, a2 + b2, c2);
    lemma_resolved_all_append(donor, known, a2, b2);
    assert(d2.len() == d.len() && f2.len() == f.len());
    lemma_split5(
        widen(a2),
        widen(b2),
        widen(c2),
        widen(d2),
        widen(f2),
        resolved_all(donor, known, a),
        resolved_all(donor, known, b),
        resolved_all(donor, known, c),
        resolved_all(donor, known, d),
        resolved_all(donor, known, f),
    );
    assert(widen(b2)[0] == resolved_all(donor, known, b)[0]);
    assert(widen(c2)[0] == resolved_all(donor, known, c)[0]);
    assert(b[0] == e.base_export.class_index.index);
    assert(c[0] == e.base_export.template_index.index);
    assert(covered(donor, known, b[0]));
    assert(covered(donor, known, c[0]));
    lemma_export_data_trans(e.data, mid.data, n.data);
}

/// A reference to a donor import, once resolved against imports that hold
/// its key, names among them an import with the same package, class and
/// name as the donor import.
pub proof fn lemma_resolved_names_same(donor: Seq<Import>, imports: Seq<Import>, index: i32)
    requires
        import_at(donor, index) is Some,
        covered(donor, keys(imports), index),
        imports.len() <= i32::MAX,
    ensures
        import_at(imports, resolved_ref(donor, keys(imports), index) as i32) matches Some(a) && key_of(a)
            == key_of(import_at(donor, index).unwrap()),
{
    let d = import_at(donor, index).unwrap();
    let k = key_of(d);
    lemma_first_key(keys(imports), k);
    let i = choose|i: int| 0 <= i < keys(imports).len() && keys(imports)[i] == k;
    let p = keys(imports).index_of_first(k).unwrap();
    assert(keys(imports)[p] == key_of(imports[p]));
}

/// Moves export `index` of `donor` to the end of `recipient`'s exports, as a
/// member of the class at reference `class`.
///
/// The moved export is rewritten by `get_export`; its name loses every
/// leading `hook_` and is added to the recipient's name map. Each reference
/// of it that may name an import and names one of the donor's imports comes
/// to point at the first recipient import with the same package, class and
/// name; where the recipient has none, a copy of the donor import is added
/// after the recipient's imports (once per key), and the outer objects of the
/// added imports are resolved the same way, adding what they need in turn.
/// No other import is added.
pub fn transplant(index: usize, recipient: &mut Asset, donor: &Asset, class: i32)
    requires
        index < donor.exports@.len(),
        index < i32::MAX,
        old(recipient).exports@.len() < i32::MAX,
        old(recipient).imports@.len() + donor.imports@.len() <= i32::MAX,
    ensures
        final(recipient).exports@.len() == old(recipient).exports@.len() + 1,
        final(recipient).exports@.drop_last() == old(recipient).exports@,
        final(recipient).object_version_ue5 == old(recipient).object_version_ue5,
        moved_export(
            donor.exports@[index as int],
            final(recipient).exports@.last(),
            move_params(donor.exports@[index as int], index, old(recipient).exports@.len() as usize, class),
            donor.imports@,
            keys(final(recipient).imports@),
        ),
        final(recipient).exports@.last().base_export.object_name@ == strip_prefixes(
            donor.exports@[index as int].base_export.object_name@,
            "hook_"@,
        ),
        adds_name(
            old(recipient).name_map@,
            final(recipient).name_map@,
            strip_prefixes(donor.exports@[index as int].base_export.object_name@, "hook_"@),
        ),
        added_imports(old(recipient).imports@, final(recipient).imports@, donor.imports@),
        only_needed(
            old(recipient).imports@,
            final(recipient).imports@,
            donor.imports@,
            moved_import_refs(
                donor.exports@[index as int],
                move_params(donor.exports@[index as int], index, old(recipient).exports@.len() as usize, class),
            ),
        ),
{
    let ghost e = donor.exports@[index as int];
    let ghost params = move_params(e, index, recipient.exports@.len() as usize, class);
    let offset = recipient.exports.len();
    let mut child = get_export(index, donor, offset, class);
    let ghost child0 = child;
    let stripped = trim_start_matches(child.base_export.object_name.as_str(), "hook_");
    let name = recipient.add_fname(stripped);
    child.base_export.object_name = name;
    let ghost mid = child;
    let ghost rimports = recipient.imports@;
    let ghost rkeys = keys(recipient.imports@);
    let ghost dimports = donor.imports@;
    let ghost q = import_ref_targets(mid);
    let mut resolver = ImportResolver::new(donor, &*recipient);
    let ghost s0 = resolver.visit_state();
    proof {
        use_type_invariant(&resolver);
        lemma_resolve_walk(s0, q);
        lemma_walk_named(s0, q);
    }
    on_import_refs(&mut child, &mut resolver);
    let ghost walk_end = rkeys + resolver.visit_state().2;
    let mut i: usize = 0;
    proof {
        use_type_invariant(&resolver);
        lemma_added_bound(resolver.visit_state(), None);
        assert(walk_end.subrange(0, walk_end.len() as int) =~= walk_end);
        assert forall|m: int| 0 <= m < resolver.added().len() implies needed_key(
            dimports,
            q,
            resolver.origins(),
            0,
            m,
            key_of(#[trigger] resolver.added()[m]),
        ) by {
            assert(keys(resolver.added())[m] == key_of(resolver.added()[m]));
            assert(walk_state::<ImportResolver>(s0, q).2[m] == keys(resolver.added())[m]);
        }
    }
    while i < resolver.added_len()
        invariant
            i <= resolver.added().len() <= dimports.len(),
            resolver.origins().len() == resolver.added().len(),
            rkeys == keys(rimports),
            resolver.visit_state() == (dimports, rkeys, keys(resolver.added()), i as int),
            extends(walk_end, rkeys + keys(resolver.added())),
            forall|k: int|
                0 <= k < i ==> {
                    &&& (#[trigger] resolver.added()[k]).outer_index.index as int == resolved_ref(
                        dimports,
                        rkeys + keys(resolver.added()),
                        resolver.origins()[k].outer_index.index,
                    )
                    &&& covered(
                        dimports,
                        rkeys + keys(resolver.added()),
                        resolver.origins()[k].outer_index.index,
                    )
                },
            forall|m: int|
                0 <= m < resolver.added().len() ==> needed_key(
                    dimports,
                    q,
                    resolver.origins(),
                    i as int,
                    m,
                    key_of(#[trigger] resolver.added()[m]),
                ),
        decreases dimports.len() - i,
    {
        proof {
            use_type_invariant(&resolver);
        }
        let ghost st = resolver.visit_state();
        let ghost before = rkeys + keys(resolver.added());
        let ghost added0 = resolver.added();
        let ghost origins0 = resolver.origins();
        let outer = resolver.added_outer(i);
        let r = resolver.resolve(outer);
        proof {
            lemma_next_valid(st, outer);
            lemma_resolve_step(st, outer);
            lemma_added_bound((st.0, st.1, next_added(st, outer), st.3), None);
            use_type_invariant(&resolver);
            let after = rkeys + keys(resolver.added());
            assert(after == st.1 + next_added(st, outer));
            assert(extends(walk_end, after)) by {
                assert(after.subrange(0, walk_end.len() as int) =~= after.subrange(
                    0,
                    before.len() as int,
                ).subrange(0, walk_end.len() as int));
            }
            assert forall|k: int| 0 <= k < i implies {
                &&& (#[trigger] resolver.added()[k]).outer_index.index as int == resolved_ref(
                    dimports,
                    after,
                    resolver.origins()[k].outer_index.index,
                )
                &&& covered(dimports, after, resolver.origins()[k].outer_index.index)
            } by {
                assert(resolver.added()[k] == added0[k]);
                assert(resolver.origins()[k] == origins0[k]);
                lemma_resolved_extends(dimports, before, after, origins0[k].outer_index.index);
            }
            assert(added0[i as int] == origins0[i as int]);
            assert(resolver.origins()[i as int] == origins0[i as int]);
            assert forall|m: int| 0 <= m < resolver.added().len() implies needed_key(
                dimports,
                q,
                resolver.origins(),
                i + 1,
                m,
                key_of(#[trigger] resolver.added()[m]),
            ) by {
                if m < added0.len() {
                    assert(resolver.added()[m] == added0[m]);
                    assert(needed_key(dimports, q, origins0, i as int, m, key_of(added0[m])));
                    if !named_by(dimports, q, key_of(added0[m])) {
                        let w = choose|w: int| 0 <= w < i && w < m && names_key(dimports, (#[trigger] origins0[w]).outer_index.index, key_of(added0[m]));
                        assert(resolver.origins()[w] == origins0[w]);
                    }
                } else {
                    assert(names_key(dimports, outer, key_of(resolver.added()[m])));
                }
            }
        }
        let ghost added1 = resolver.added();
        let ghost after = rkeys + keys(resolver.added());
        resolver.set_added_outer(i, r);
        proof {
            assert(keys(resolver.added()) == keys(added1));
            assert forall|k: int| 0 <= k < i + 1 implies {
                &&& (#[trigger] resolver.added()[k]).outer_index.index as int == resolved_ref(
                    dimports,
                    rkeys + keys(resolver.added()),
                    resolver.origins()[k].outer_index.index,
                )
                &&& covered(
                    dimports,
                    rkeys + keys(resolver.added()),
                    resolver.origins()[k].outer_index.index,
                )
            } by {
                if k < i {
                    assert(resolver.added()[k] == added1[k]);
                }
            }
            assert forall|m: int| 0 <= m < resolver.added().len() implies needed_key(
                dimports,
                q,
                resolver.origins(),
                i + 1,
                m,
                key_of(#[trigger] resolver.added()[m]),
            ) by {
                if m != i {
                    assert(resolver.added()[m] == added1[m]);
                }
                assert(key_of(resolver.added()[m]) == key_of(added1[m]));
            }
        }
        i = i + 1;
    }
    proof {
        use_type_invariant(&resolver);
    }
    let ghost final_added = resolver.added();
    let ghost origins = resolver.origins();
    let mut added = resolver.into_added();
    let ghost fkeys = rkeys + keys(final_added);
    proof {
        assert(walk_out::<ImportResolver>(s0, q).len() == q.len());
        lemma_moved_refs(e, child0, mid, child, params, dimports, walk_end, fkeys);
    }
    recipient.exports.push(child);
    recipient.imports.append(&mut added);
    proof {
        assert(recipient.exports@.drop_last() =~= old(recipient).exports@);
        let f = recipient.imports@;
        assert(keys(f) =~= fkeys);
        assert(f.subrange(0, rimports.len() as int) =~= rimports);
        assert(f.subrange(rimports.len() as int, f.len() as int) =~= final_added);
        assert forall|k: int| rimports.len() <= k < f.len() implies exists|j: int|
            0 <= j < dimports.len() && copied_import(#[trigger] f[k], dimports[j], dimports, keys(f)) by {
            let m = k - rimports.len();
            assert(f[k] == final_added[m]);
            let j = choose|j: int| 0 <= j < dimports.len() && origins[m] == dimports[j];
            assert(origin_of(final_added[m], origins[m]));
            assert(copied_import(f[k], dimports[j], dimports, keys(f)));
        }
        assert forall|k: int| rimports.len() <= k < f.len() implies !keys(rimports).contains(
            key_of(#[trigger] f[k]),
        ) by {
            let m = k - rimports.len();
            assert(f[k] == final_added[m]);
            assert(keys(final_added)[m] == key_of(final_added[m]));
        }
        assert(q == moved_import_refs(e, params));
        assert forall|k: int| rimports.len() <= k < f.len() implies {
            ||| named_by(dimports, q, key_of(#[trigger] f[k]))
            ||| exists|m: int, j: int|
                rimports.len() <= m < k && 0 <= j < dimports.len() && key_of(#[trigger] f[m]) == key_of(
                    #[trigger] dimports[j],
                ) && names_key(dimports, dimports[j].outer_index.index, key_of(f[k]))
        } by {
            let m = k - rimports.len();
            assert(f[k] == final_added[m]);
            assert(needed_key(dimports, q, origins, final_added.len() as int, m, key_of(final_added[m])));
            if !named_by(dimports, q, key_of(f[k])) {
                let w = choose|w: int|
                    0 <= w < final_added.len() && w < m && names_key(
                        dimports,
                        (#[trigger] origins[w]).outer_index.index,
                        key_of(final_added[m]),
                    );
                let j = choose|j: int| 0 <= j < dimports.len() && origins[w] == dimports[j];
                assert(origin_of(final_added[w], origins[w]));
                assert(f[rimports.len() + w] == final_added[w]);
                assert(key_of(f[rimports.len() + w]) == key_of(dimports[j]));
            }
        }
    }
}

} // verus!
