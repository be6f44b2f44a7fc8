//! Package indices, and visitors that are shown the indices of a structure in
//! turn.
use vstd::prelude::*;

verus! {

/// An element lies in a concatenation exactly when it lies in one of its
/// two parts.
pub broadcast proof fn lemma_add_contains<A>(a: Seq<A>, b: Seq<A>, x: A)
    ensures
        #[trigger] (a + b).contains(x) <==> a.contains(x) || b.contains(x),
{
    if a.contains(x) {
        let i = choose|i: int| 0 <= i < a.len() && a[i] == x;
        assert((a + b)[i] == x);
    }
    if b.contains(x) {
        let j = choose|j: int| 0 <= j < b.len() && b[j] == x;
        assert((a + b)[a.len() + j] == x);
    }
    if (a + b).contains(x) {
        let k = choose|k: int| 0 <= k < (a + b).len() && (a + b)[k] == x;
        if k < a.len() {
            assert(a[k] == x);
        } else {
            assert(b[k - a.len()] == x);
        }
    }
}

/// A reference into an asset's tables: a negative value `-(i + 1)` names
/// import `i`, a positive value `i + 1` names export `i`, and zero names
/// nothing.
#[derive(Clone, Copy, Debug, PartialEq, Eq, Structural)]
pub struct PackageIndex {
    pub index: i32,
}

impl PackageIndex {
    /// A reference holding `index`.
    pub fn new(index: i32) -> (p: PackageIndex)
        ensures
            p.index == index,
    {
        PackageIndex { index }
    }
}

/// Something that is shown each reference of a structure in turn and may
/// rewrite it, changing its state as it goes.
pub trait IndexVisitor: Sized {
    /// What the visitor's decisions depend on.
    type State;

    /// The visitor's current state.
    spec fn visit_state(&self) -> Self::State;

    /// The state after a reference holding `index` has been shown in state `s`.
    spec fn next_state(s: Self::State, index: i32) -> Self::State;

    /// The value that a reference holding `index` holds after it has been shown
    /// in state `s`.
    spec fn new_index(s: Self::State, index: i32) -> i32;

    /// Shows the visitor one reference.
    fn visit(&mut self, index: &mut PackageIndex)
        ensures
            final(self).visit_state() == Self::next_state(old(self).visit_state(), old(index).index),
            final(index).index == Self::new_index(old(self).visit_state(), old(index).index),
    ;
}

/// The state after the references `s` have been shown in order from state `v`.
pub open spec fn walk_state<V: IndexVisitor>(v: V::State, s: Seq<i32>) -> V::State
    decreases s.len(),
{
    if s.len() == 0 {
        v
    } else {
        walk_state::<V>(V::next_state(v, s[0]), s.drop_first())
    }
}

/// The values that the references `s` hold after they have been shown in order
/// from state `v`.
pub open spec fn walk_out<V: IndexVisitor>(v: V::State, s: Seq<i32>) -> Seq<i32>
    decreases s.len(),
{
    if s.len() == 0 {
        Seq::empty()
    } else {
        seq![V::new_index(v, s[0])] + walk_out::<V>(V::next_state(v, s[0]), s.drop_first())
    }
}

/// Showing `a + b` is showing `a`, then `b`.
pub broadcast proof fn lemma_walk_state_append<V: IndexVisitor>(v: V::State, a: Seq<i32>, b: Seq<i32>)
    ensures
        #[trigger] walk_state::<V>(v, a + b) == walk_state::<V>(walk_state::<V>(v, a), b),
    decreases a.len(),
{
    if a.len() > 0 {
        assert((a + b).drop_first() =~= a.drop_first() + b);
        lemma_walk_state_append::<V>(V::next_state(v, a[0]), a.drop_first(), b);
    } else {
        assert(a + b =~= b);
    }
}

/// Showing `a + b` rewrites `a` as showing `a` alone does, then `b` from the
/// state that `a` left.
pub broadcast proof fn lemma_walk_out_append<V: IndexVisitor>(v: V::State, a: Seq<i32>, b: Seq<i32>)
    ensures
        #[trigger] walk_out::<V>(v, a + b) == walk_out::<V>(v, a) + walk_out::<V>(
            walk_state::<V>(v, a),
            b,
        ),
    decreases a.len(),
{
    if a.len() > 0 {
        assert((a + b).drop_first() =~= a.drop_first() + b);
        lemma_walk_out_append::<V>(V::next_state(v, a[0]), a.drop_first(), b);
        assert(walk_out::<V>(v, a + b) =~= walk_out::<V>(v, a) + walk_out::<V>(
            walk_state::<V>(v, a),
            b,
        ));
    } else {
        assert(a + b =~= b);
        assert(walk_out::<V>(v, a) + walk_out::<V>(walk_state::<V>(v, a), b) =~= walk_out::<V>(
            v,
            b,
        ));
    }
}

/// Two visitors shown each reference in turn: the first rewrites it, then
/// the second is shown what the first left.
pub struct Both<A, B> {
    pub first: A,
    pub second: B,
}

impl<A: IndexVisitor, B: IndexVisitor> IndexVisitor for Both<A, B> {
    type State = (A::State, B::State);

    open spec fn visit_state(&self) -> (A::State, B::State) {
        (self.first.visit_state(), self.second.visit_state())
    }

    open spec fn next_state(s: (A::State, B::State), index: i32) -> (A::State, B::State) {
        (A::next_state(s.0, index), B::next_state(s.1, A::new_index(s.0, index)))
    }

    open spec fn new_index(s: (A::State, B::State), index: i32) -> i32 {
        B::new_index(s.1, A::new_index(s.0, index))
    }

    fn visit(&mut self, index: &mut PackageIndex) {
        self.first.visit(index);
        self.second.visit(index);
    }
}

/// Showing references to `a` and then what `a` left to `b` is showing them
/// once to both.
pub proof fn lemma_walk_both<A: IndexVisitor, B: IndexVisitor>(s1: A::State, s2: B::State, q: Seq<i32>)
    ensures
        walk_out::<Both<A, B>>((s1, s2), q) == walk_out::<B>(s2, walk_out::<A>(s1, q)),
        walk_state::<Both<A, B>>((s1, s2), q) == (walk_state::<A>(s1, q), walk_state::<B>(
            s2,
            walk_out::<A>(s1, q),
        )),
    decreases q.len(),
{
    if q.len() > 0 {
        let o = walk_out::<A>(s1, q);
        let rest = q.drop_first();
        let t1 = A::next_state(s1, q[0]);
        let t2 = B::next_state(s2, A::new_index(s1, q[0]));
        lemma_walk_both::<A, B>(t1, t2, rest);
        assert(o[0] == A::new_index(s1, q[0]));
        assert(o.drop_first() =~= walk_out::<A>(t1, rest));
        assert(walk_out::<Both<A, B>>((s1, s2), q) =~= walk_out::<B>(s2, o));
    }
}

/// Showing one reference.
pub proof fn lemma_walk_single<V: IndexVisitor>(v: V::State, i: i32)
    ensures
        walk_state::<V>(v, seq![i]) == V::next_state(v, i),
        walk_out::<V>(v, seq![i]) == seq![V::new_index(v, i)],
{
    reveal_with_fuel(walk_state, 2);
    reveal_with_fuel(walk_out, 2);
    assert(seq![i].drop_first() =~= Seq::<i32>::empty());
    assert(walk_out::<V>(v, seq![i]) =~= seq![V::new_index(v, i)]);
}

/// Showing nothing.
pub proof fn lemma_walk_empty<V: IndexVisitor>(v: V::State)
    ensures
        walk_state::<V>(v, Seq::empty()) == v,
        walk_out::<V>(v, Seq::empty()) == Seq::<i32>::empty(),
{
}

/// A walk rewrites as many references as it is shown.
pub proof fn lemma_walk_len<V: IndexVisitor>(v: V::State, s: Seq<i32>)
    ensures
        walk_out::<V>(v, s).len() == s.len(),
    decreases s.len(),
{
    if s.len() > 0 {
        lemma_walk_len::<V>(V::next_state(v, s[0]), s.drop_first());
    }
}

/// The reference an optional index holds.
pub open spec fn index_opt_refs(o: Option<PackageIndex>) -> Seq<i32> {
    match o {
        Some(i) => seq![i.index],
        None => Seq::empty(),
    }
}

/// The references a list of indices holds, in order.
pub open spec fn index_list_refs(s: Seq<PackageIndex>) -> Seq<i32> {
    s.map_values(|p: PackageIndex| p.index)
}

/// Shows `func` one reference.
pub fn on_index<V: IndexVisitor>(index: &mut PackageIndex, func: &mut V)
    ensures
        walk_out::<V>(old(func).visit_state(), seq![old(index).index]) == seq![final(index).index],
        final(func).visit_state() == walk_state::<V>(old(func).visit_state(), seq![old(index).index]),
{
    proof {
        lemma_walk_single::<V>(func.visit_state(), index.index);
    }
    func.visit(index);
}

/// Shows `func` an optional reference.
pub fn on_opt_index<V: IndexVisitor>(index: &mut Option<PackageIndex>, func: &mut V)
    ensures
        (*old(index) is Some <==> *final(index) is Some),
        index_opt_refs(*final(index)) == walk_out::<V>(old(func).visit_state(), index_opt_refs(*old(index))),
        final(func).visit_state() == walk_state::<V>(old(func).visit_state(), index_opt_refs(*old(index))),
{
    proof {
        lemma_walk_empty::<V>(func.visit_state());
    }
    if let Some(inner) = index {
        on_index(inner, func);
    }
}

/// Shows `func` each reference of a list, in order.
pub fn on_index_list<V: IndexVisitor>(list: &mut Vec<PackageIndex>, func: &mut V)
    ensures
        final(list)@.len() == old(list)@.len(),
        index_list_refs(final(list)@) == walk_out::<V>(old(func).visit_state(), index_list_refs(old(list)@)),
        final(func).visit_state() == walk_state::<V>(old(func).visit_state(), index_list_refs(old(list)@)),
{
    let ghost orig = list@;
    let ghost v0 = func.visit_state();
    let mut i: usize = 0;
    proof {
        lemma_walk_empty::<V>(v0);
        assert(index_list_refs(orig.take(0)) =~= Seq::<i32>::empty());
        assert(index_list_refs(list@.take(0)) =~= Seq::<i32>::empty());
    }
    while i < list.len()
        invariant
            i <= list@.len(),
            list@.len() == orig.len(),
            forall|j: int| i <= j < orig.len() ==> list@[j] == orig[j],
            index_list_refs(list@.take(i as int)) == walk_out::<V>(v0, index_list_refs(orig.take(i as int))),
            func.visit_state() == walk_state::<V>(v0, index_list_refs(orig.take(i as int))),
        decreases orig.len() - i,
    {
        let ghost prev = list@;
        on_index(&mut list[i], func);
        proof {
            broadcast use lemma_walk_state_append, lemma_walk_out_append;

            assert(list@.take(i as int) =~= prev.take(i as int));
            assert(index_list_refs(orig.take(i + 1)) =~= index_list_refs(orig.take(i as int)) + seq![
                orig[i as int].index,
            ]);
            assert(index_list_refs(list@.take(i + 1)) =~= index_list_refs(prev.take(i as int)) + seq![
                list@[i as int].index,
            ]);
        }
        i = i + 1;
    }
    assert(orig.take(orig.len() as int) =~= orig);
    assert(list@.take(orig.len() as int) =~= list@);
}

/// A copy of a list of indices.
pub fn copy_index_list(list: &Vec<PackageIndex>) -> (copy: Vec<PackageIndex>)
    ensures
        copy@ == list@,
{
    let mut copy: Vec<PackageIndex> = Vec::new();
    let mut i: usize = 0;
    while i < list.len()
        invariant
            i <= list@.len(),
            copy@ == list@.take(i as int),
        decreases list@.len() - i,
    {
        copy.push(list[i]);
        i = i + 1;
        assert(copy@ =~= list@.take(i as int));
    }
    assert(list@.take(list@.len() as int) =~= list@);
    copy
}

} // verus!
