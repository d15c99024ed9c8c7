//! Values that can be copied and compared by their model, and the list
//! operations the client is built from.
//!
//! Every list function states its result over the list's deep view, so a
//! caller reasons about plain sequences of models.
use vstd::prelude::*;

verus! {

/// A value that can be duplicated and compared by its model.
pub trait Value: DeepView + Sized {
    fn dup(&self) -> (r: Self)
        ensures
            r.deep_view() == self.deep_view(),
    ;

    fn same(&self, other: &Self) -> (b: bool)
        ensures
            b == (self.deep_view() == other.deep_view()),
    ;
}

impl Value for String {
    fn dup(&self) -> (r: Self) {
        self.clone()
    }

    fn same(&self, other: &Self) -> (b: bool) {
        *self == *other
    }
}

impl Value for u32 {
    fn dup(&self) -> (r: Self) {
        *self
    }

    fn same(&self, other: &Self) -> (b: bool) {
        *self == *other
    }
}

impl Value for u64 {
    fn dup(&self) -> (r: Self) {
        *self
    }

    fn same(&self, other: &Self) -> (b: bool) {
        *self == *other
    }
}

impl Value for usize {
    fn dup(&self) -> (r: Self) {
        *self
    }

    fn same(&self, other: &Self) -> (b: bool) {
        *self == *other
    }
}

impl Value for bool {
    fn dup(&self) -> (r: Self) {
        *self
    }

    fn same(&self, other: &Self) -> (b: bool) {
        *self == *other
    }
}

impl<T: Value> Value for Vec<T> {
    fn dup(&self) -> (r: Self) {
        let mut out: Vec<T> = Vec::new();
        let n: usize = self.len();
        for i in 0..n
            invariant
                n == self@.len(),
                out@.len() == i,
                forall|j: int| 0 <= j < i ==> (#[trigger] out@[j]).deep_view() == self@[j].deep_view(),
        {
            out.push(self[i].dup());
        }
        assert(out.deep_view() =~= self.deep_view());
        out
    }

    fn same(&self, other: &Self) -> (b: bool) {
        let n: usize = self.len();
        if n != other.len() {
            assert(self.deep_view().len() != other.deep_view().len());
            return false;
        }
        for i in 0..n
            invariant
                n == self@.len(),
                n == other@.len(),
                forall|j: int| 0 <= j < i ==> (#[trigger] self@[j]).deep_view() == other@[j].deep_view(),
        {
            if !self[i].same(&other[i]) {
                assert(self.deep_view()[i as int] != other.deep_view()[i as int]);
                return false;
            }
        }
        assert(self.deep_view() =~= other.deep_view());
        true
    }
}

impl<T: Value> Value for Option<T> {
    fn dup(&self) -> (r: Self) {
        match self {
            Some(t) => Some(t.dup()),
            None => None,
        }
    }

    fn same(&self, other: &Self) -> (b: bool) {
        match (self, other) {
            (Some(a), Some(b)) => a.same(b),
            (None, None) => true,
            _ => false,
        }
    }
}

impl<A: Value, B: Value> Value for (A, B) {
    fn dup(&self) -> (r: Self) {
        (self.0.dup(), self.1.dup())
    }

    fn same(&self, other: &Self) -> (b: bool) {
        self.0.same(&other.0) && self.1.same(&other.1)
    }
}

/// Index of the first element `p` accepts.
pub open spec fn first_where<A>(s: Seq<A>, p: spec_fn(A) -> bool) -> Option<int>
    decreases s.len(),
{
    if s.len() == 0 {
        None
    } else if p(s[0]) {
        Some(0)
    } else {
        match first_where(s.drop_first(), p) {
            Some(i) => Some(i + 1),
            None => None,
        }
    }
}

/// The first element `p` accepts.
pub open spec fn found<A>(s: Seq<A>, p: spec_fn(A) -> bool) -> Option<A> {
    match first_where(s, p) {
        Some(i) => Some(s[i]),
        None => None,
    }
}

/// The last element `p` accepts.
pub open spec fn found_last<A>(s: Seq<A>, p: spec_fn(A) -> bool) -> Option<A>
    decreases s.len(),
{
    if s.len() == 0 {
        None
    } else if p(s.last()) {
        Some(s.last())
    } else {
        found_last(s.drop_last(), p)
    }
}

/// Some element satisfies `p`.
pub open spec fn some_where<A>(s: Seq<A>, p: spec_fn(A) -> bool) -> bool {
    exists|i: int| 0 <= i < s.len() && #[trigger] p(s[i])
}

/// `first_where` is the least index that `p` accepts.
pub proof fn lemma_first_where<A>(s: Seq<A>, p: spec_fn(A) -> bool)
    ensures
        match first_where(s, p) {
            Some(i) => 0 <= i < s.len() && p(s[i]) && forall|j: int| 0 <= j < i ==> !p(#[trigger] s[j]),
            None => forall|j: int| 0 <= j < s.len() ==> !p(#[trigger] s[j]),
        },
        (first_where(s, p) is Some) == some_where(s, p),
    decreases s.len(),
{
    if s.len() > 0 && !p(s[0]) {
        let rest = s.drop_first();
        lemma_first_where(rest, p);
        assert(forall|j: int| 0 < j < s.len() ==> #[trigger] s[j] == rest[j - 1]);
        assert(forall|j: int| 0 <= j < rest.len() ==> #[trigger] rest[j] == s[j + 1]);
        if some_where(s, p) {
            let i = choose|i: int| 0 <= i < s.len() && #[trigger] p(s[i]);
            assert(p(rest[i - 1]));
        }
    }
}

/// `f` decides `p`.
pub open spec fn decides<T: DeepView, F: Fn(&T) -> bool>(f: F, p: spec_fn(T::V) -> bool) -> bool {
    &&& forall|x: &T| #[trigger] f.requires((x,))
    &&& forall|x: &T, b: bool| #[trigger] f.ensures((x,), b) ==> b == p(x.deep_view())
}

/// `f` computes `g`.
pub open spec fn computes<T: DeepView, U: DeepView, F: Fn(&T) -> U>(f: F, g: spec_fn(T::V) -> U::V) -> bool {
    &&& forall|x: &T| #[trigger] f.requires((x,))
    &&& forall|x: &T, y: U| #[trigger] f.ensures((x,), y) ==> y.deep_view() == g(x.deep_view())
}

/// Position of the first element `f` accepts.
pub fn position<T: DeepView, F: Fn(&T) -> bool>(
    v: &Vec<T>,
    f: F,
    Ghost(p): Ghost<spec_fn(T::V) -> bool>,
) -> (r: Option<usize>)
    requires
        decides(f, p),
    ensures
        match r {
            Some(i) => i < v@.len() && first_where(v.deep_view(), p) == Some(i as int) && p(v@[i as int].deep_view())
                && found(v.deep_view(), p) == Some(v@[i as int].deep_view()),
            None => first_where(v.deep_view(), p) is None && found(v.deep_view(), p) is None,
        },
        (r is Some) == some_where(v.deep_view(), p),
{
    let n: usize = v.len();
    proof {
        lemma_first_where(v.deep_view(), p);
    }
    for i in 0..n
        invariant
            n == v@.len(),
            decides(f, p),
            forall|j: int| 0 <= j < i ==> !p(#[trigger] v.deep_view()[j]),
            match first_where(v.deep_view(), p) {
                Some(i) => 0 <= i < v@.len() && p(v.deep_view()[i]) && forall|j: int|
                    0 <= j < i ==> !p(#[trigger] v.deep_view()[j]),
                None => forall|j: int| 0 <= j < v@.len() ==> !p(#[trigger] v.deep_view()[j]),
            },
            (first_where(v.deep_view(), p) is Some) == some_where(v.deep_view(), p),
    {
        let b = f(&v[i]);
        assert(v.deep_view()[i as int] == v@[i as int].deep_view());
        if b {
            return Some(i);
        }
    }
    None
}

/// The first element `f` accepts.
pub fn find<'a, T: DeepView, F: Fn(&T) -> bool>(
    v: &'a Vec<T>,
    f: F,
    Ghost(p): Ghost<spec_fn(T::V) -> bool>,
) -> (r: Option<&'a T>)
    requires
        decides(f, p),
    ensures
        match r {
            Some(x) => found(v.deep_view(), p) == Some(x.deep_view()) && p(x.deep_view()),
            None => found(v.deep_view(), p) is None,
        },
        (r is Some) == some_where(v.deep_view(), p),
{
    match position(v, f, Ghost(p)) {
        Some(i) => Some(&v[i]),
        None => None,
    }
}

/// The last element `f` accepts.
pub fn find_last<'a, T: DeepView, F: Fn(&T) -> bool>(
    v: &'a Vec<T>,
    f: F,
    Ghost(p): Ghost<spec_fn(T::V) -> bool>,
) -> (r: Option<&'a T>)
    requires
        decides(f, p),
    ensures
        match r {
            Some(x) => found_last(v.deep_view(), p) == Some(x.deep_view()),
            None => found_last(v.deep_view(), p) is None,
        },
{
    let n: usize = v.len();
    let ghost s = v.deep_view();
    let mut out: Option<&'a T> = None;
    for i in 0..n
        invariant
            n == v@.len(),
            s == v.deep_view(),
            decides(f, p),
            match out {
                Some(x) => found_last(s.take(i as int), p) == Some(x.deep_view()),
                None => found_last(s.take(i as int), p) is None,
            },
    {
        assert(s.take(i + 1).drop_last() =~= s.take(i as int));
        assert(s.take(i + 1).last() == v@[i as int].deep_view());
        if f(&v[i]) {
            out = Some(&v[i]);
        }
    }
    assert(s.take(n as int) =~= s);
    out
}

/// Whether `f` accepts some element.
pub fn any<T: DeepView, F: Fn(&T) -> bool>(
    v: &Vec<T>,
    f: F,
    Ghost(p): Ghost<spec_fn(T::V) -> bool>,
) -> (r: bool)
    requires
        decides(f, p),
    ensures
        r == some_where(v.deep_view(), p),
{
    match position(v, f, Ghost(p)) {
        Some(_) => true,
        None => false,
    }
}

/// Whether the list holds a value equal to `x`.
pub fn contains<T: Value>(v: &Vec<T>, x: &T) -> (r: bool)
    ensures
        r == v.deep_view().contains(x.deep_view()),
{
    let n: usize = v.len();
    for i in 0..n
        invariant
            n == v@.len(),
            forall|j: int| 0 <= j < i ==> #[trigger] v.deep_view()[j] != x.deep_view(),
    {
        assert(v.deep_view()[i as int] == v@[i as int].deep_view());
        if v[i].same(x) {
            return true;
        }
    }
    false
}

/// Append one value.
pub fn push<T: DeepView>(v: &mut Vec<T>, x: T)
    ensures
        final(v).deep_view() == old(v).deep_view().push(x.deep_view()),
{
    v.push(x);
    assert(v.deep_view() =~= old(v).deep_view().push(x.deep_view()));
}

/// Append every value of `more`.
pub fn append<T: DeepView>(v: &mut Vec<T>, more: Vec<T>)
    ensures
        final(v).deep_view() == old(v).deep_view() + more.deep_view(),
{
    let mut more = more;
    let ghost added = more.deep_view();
    v.append(&mut more);
    assert(v.deep_view() =~= old(v).deep_view() + added);
}

/// Replace the value at `i`.
pub fn set<T: DeepView>(v: &mut Vec<T>, i: usize, x: T)
    requires
        i < old(v)@.len(),
    ensures
        final(v).deep_view() == old(v).deep_view().update(i as int, x.deep_view()),
{
    v.set(i, x);
    assert(v.deep_view() =~= old(v).deep_view().update(i as int, x.deep_view()));
}

/// Take out the value at `i`.
pub fn remove<T: DeepView>(v: &mut Vec<T>, i: usize) -> (x: T)
    requires
        i < old(v)@.len(),
    ensures
        x.deep_view() == old(v).deep_view()[i as int],
        final(v).deep_view() == old(v).deep_view().remove(i as int),
{
    let x = v.remove(i);
    assert(v.deep_view() =~= old(v).deep_view().remove(i as int));
    x
}

/// Put `x` in front of the value at `i`.
pub fn insert<T: DeepView>(v: &mut Vec<T>, i: usize, x: T)
    requires
        i <= old(v)@.len(),
    ensures
        final(v).deep_view() == old(v).deep_view().insert(i as int, x.deep_view()),
{
    v.insert(i, x);
    assert(v.deep_view() =~= old(v).deep_view().insert(i as int, x.deep_view()));
}

/// An empty list.
pub fn empty<T: DeepView>() -> (v: Vec<T>)
    ensures
        v.deep_view() == Seq::<T::V>::empty(),
{
    let v: Vec<T> = Vec::new();
    assert(v.deep_view() =~= Seq::<T::V>::empty());
    v
}

/// A list of one value.
pub fn one<T: DeepView>(x: T) -> (v: Vec<T>)
    ensures
        v.deep_view() == seq![x.deep_view()],
{
    let mut v: Vec<T> = Vec::new();
    v.push(x);
    assert(v.deep_view() =~= seq![x.deep_view()]);
    v
}

/// A list of two values.
pub fn two<T: DeepView>(x: T, y: T) -> (v: Vec<T>)
    ensures
        v.deep_view() == seq![x.deep_view(), y.deep_view()],
{
    let mut v: Vec<T> = Vec::new();
    v.push(x);
    v.push(y);
    assert(v.deep_view() =~= seq![x.deep_view(), y.deep_view()]);
    v
}

/// Keep the elements `f` accepts, in order.
pub fn retain<T: DeepView, F: Fn(&T) -> bool>(v: &mut Vec<T>, f: F, Ghost(p): Ghost<spec_fn(T::V) -> bool>)
    requires
        decides(f, p),
    ensures
        final(v).deep_view() == old(v).deep_view().filter(p),
{
    let ghost s = v.deep_view();
    let mut i: usize = 0;
    let ghost mut k: int = 0;
    assert(s.take(0).filter(p) =~= Seq::empty());
    while i < v.len()
        invariant
            decides(f, p),
            0 <= i <= v@.len(),
            0 <= k <= s.len(),
            v@.len() - i == s.len() - k,
            v.deep_view().take(i as int) =~= s.take(k).filter(p),
            v.deep_view().skip(i as int) =~= s.skip(k),
        decreases v@.len() - i,
    {
        let ghost before = v.deep_view();
        let b = f(&v[i]);
        proof {
            assert(before.skip(i as int)[0] == s.skip(k)[0]);
            assert(s.take(k + 1).drop_last() =~= s.take(k));
            assert(s.skip(k + 1) =~= s.skip(k).drop_first());
            reveal(Seq::filter);
        }
        if b {
            i = i + 1;
            assert(v.deep_view().take(i as int) =~= before.take(i - 1).push(s[k]));
            assert(v.deep_view().skip(i as int) =~= before.skip(i - 1).drop_first());
        } else {
            v.remove(i);
            assert(v.deep_view() =~= before.remove(i as int));
            assert(v.deep_view().take(i as int) =~= before.take(i as int));
            assert(v.deep_view().skip(i as int) =~= before.skip(i as int).drop_first());
        }
        proof {
            k = k + 1;
        }
    }
    assert(s.take(k) =~= s);
    assert(v.deep_view().take(i as int) =~= v.deep_view());
}

/// The image of every element under `f`, in order.
pub fn map<T: DeepView, U: DeepView, F: Fn(&T) -> U>(
    v: &Vec<T>,
    f: F,
    Ghost(g): Ghost<spec_fn(T::V) -> U::V>,
) -> (r: Vec<U>)
    requires
        computes(f, g),
    ensures
        r.deep_view() == v.deep_view().map_values(g),
{
    let mut out: Vec<U> = Vec::new();
    let n: usize = v.len();
    for i in 0..n
        invariant
            n == v@.len(),
            computes(f, g),
            out@.len() == i,
            forall|j: int| 0 <= j < i ==> (#[trigger] out@[j]).deep_view() == g(v@[j].deep_view()),
    {
        out.push(f(&v[i]));
    }
    assert(out.deep_view() =~= v.deep_view().map_values(g));
    out
}

/// Copies of the elements `f` accepts, in order.
pub fn filtered<T: Value, F: Fn(&T) -> bool>(
    v: &Vec<T>,
    f: F,
    Ghost(p): Ghost<spec_fn(T::V) -> bool>,
) -> (r: Vec<T>)
    requires
        decides(f, p),
    ensures
        r.deep_view() == v.deep_view().filter(p),
{
    let mut out: Vec<T> = Vec::new();
    let n: usize = v.len();
    let ghost s = v.deep_view();
    assert(s.take(0).filter(p) =~= Seq::empty());
    for i in 0..n
        invariant
            n == v@.len(),
            s == v.deep_view(),
            decides(f, p),
            out.deep_view() =~= s.take(i as int).filter(p),
    {
        let ghost before = out.deep_view();
        assert(s.take(i + 1).drop_last() =~= s.take(i as int));
        assert(s.take(i + 1).last() == v@[i as int].deep_view());
        proof {
            reveal(Seq::filter);
        }
        if f(&v[i]) {
            out.push(v[i].dup());
            assert(out.deep_view() =~= before.push(v@[i as int].deep_view()));
        }
    }
    assert(s.take(n as int) =~= s);
    out
}

/// The images `f` gives, where it gives one, in order.
pub fn filter_map<T: DeepView, U: DeepView, F: Fn(&T) -> Option<U>>(
    v: &Vec<T>,
    f: F,
    Ghost(g): Ghost<spec_fn(T::V) -> Option<U::V>>,
) -> (r: Vec<U>)
    requires
        computes::<T, Option<U>, F>(f, g),
    ensures
        r.deep_view() == v.deep_view().filter_map(g),
{
    let mut out: Vec<U> = Vec::new();
    let n: usize = v.len();
    let ghost s = v.deep_view();
    assert(s.take(0).filter_map(g) =~= Seq::empty());
    for i in 0..n
        invariant
            n == v@.len(),
            s == v.deep_view(),
            computes::<T, Option<U>, F>(f, g),
            out.deep_view() =~= s.take(i as int).filter_map(g),
    {
        let ghost before = out.deep_view();
        assert(s.take(i + 1).drop_last() =~= s.take(i as int));
        assert(s.take(i + 1).last() == v@[i as int].deep_view());
        if let Some(u) = f(&v[i]) {
            let ghost m = u.deep_view();
            out.push(u);
            assert(out.deep_view() =~= before + seq![m]);
        }
    }
    assert(s.take(n as int) =~= s);
    out
}

// ---- sorting --------------------------------------------------------------

/// `x` put behind the last element that may come before it.
pub open spec fn insert_sorted<A>(s: Seq<A>, x: A, le: spec_fn(A, A) -> bool) -> Seq<A>
    decreases s.len(),
{
    if s.len() == 0 {
        seq![x]
    } else if le(s.last(), x) {
        s.push(x)
    } else {
        insert_sorted(s.drop_last(), x, le).push(s.last())
    }
}

/// The elements in order; equal ones stay as they were.
pub open spec fn sorted<A>(s: Seq<A>, le: spec_fn(A, A) -> bool) -> Seq<A>
    decreases s.len(),
{
    if s.len() == 0 {
        Seq::empty()
    } else {
        insert_sorted(sorted(s.drop_last(), le), s.last(), le)
    }
}

proof fn lemma_insert_sorted<A>(s: Seq<A>, x: A, le: spec_fn(A, A) -> bool, k: int)
    requires
        0 <= k <= s.len(),
        k == 0 || le(s[k - 1], x),
        forall|j: int| k <= j < s.len() ==> !le(#[trigger] s[j], x),
    ensures
        insert_sorted(s, x, le) == s.insert(k, x),
    decreases s.len(),
{
    if s.len() == 0 {
        assert(s.insert(k, x) =~= seq![x]);
    } else if le(s.last(), x) {
        assert(s.insert(k, x) =~= s.push(x));
    } else {
        let rest = s.drop_last();
        assert(k < s.len());
        lemma_insert_sorted(rest, x, le, k);
        assert(rest.insert(k, x).push(s.last()) =~= s.insert(k, x));
    }
}

/// `le` orders any two elements, and consistently.
pub open spec fn total_order<A>(le: spec_fn(A, A) -> bool) -> bool {
    &&& forall|a: A, b: A| #[trigger] le(a, b) || le(b, a)
    &&& forall|a: A, b: A, c: A| #[trigger] le(a, b) && #[trigger] le(b, c) ==> le(a, c)
}

/// Inserting changes nothing about what else is in the list, and inserting
/// into an ordered list keeps it ordered.
pub proof fn lemma_insert_sorted_order<A>(s: Seq<A>, x: A, le: spec_fn(A, A) -> bool)
    requires
        total_order(le),
        forall|i: int, j: int| 0 <= i < j < s.len() ==> le(#[trigger] s[i], #[trigger] s[j]),
    ensures
        insert_sorted(s, x, le).to_multiset() == s.to_multiset().insert(x),
        insert_sorted(s, x, le).len() == s.len() + 1,
        forall|i: int, j: int|
            0 <= i < j < s.len() + 1 ==> le(
                #[trigger] insert_sorted(s, x, le)[i],
                #[trigger] insert_sorted(s, x, le)[j],
            ),
    decreases s.len(),
{
    broadcast use vstd::seq_lib::group_to_multiset_ensures;

    if s.len() == 0 {
        assert(seq![x] =~= s.push(x));
    } else if le(s.last(), x) {
    } else {
        let rest = s.drop_last();
        let r = insert_sorted(rest, x, le);
        lemma_insert_sorted_order(rest, x, le);
        assert(rest.push(s.last()) =~= s);
        assert forall|i: int| 0 <= i < r.len() implies le(#[trigger] r[i], s.last()) by {
            assert(r.to_multiset().contains(r[i]));
            if r[i] != x {
                assert(rest.to_multiset().contains(r[i]));
                let k = choose|k: int| 0 <= k < rest.len() && rest[k] == r[i];
                assert(le(s[k], s[s.len() - 1]));
            }
        }
    }
}

/// Sorting keeps exactly the elements and puts them in order.
pub proof fn lemma_sorted<A>(s: Seq<A>, le: spec_fn(A, A) -> bool)
    requires
        total_order(le),
    ensures
        sorted(s, le).to_multiset() == s.to_multiset(),
        sorted(s, le).len() == s.len(),
        forall|i: int, j: int|
            0 <= i < j < s.len() ==> le(#[trigger] sorted(s, le)[i], #[trigger] sorted(s, le)[j]),
    decreases s.len(),
{
    broadcast use vstd::seq_lib::group_to_multiset_ensures;

    if s.len() > 0 {
        lemma_sorted(s.drop_last(), le);
        lemma_insert_sorted_order(sorted(s.drop_last(), le), s.last(), le);
        assert(s.drop_last().push(s.last()) =~= s);
    } else {
        assert(sorted(s, le) =~= s);
    }
}

/// `f` decides the order `le`.
pub open spec fn orders<T: DeepView, F: Fn(&T, &T) -> bool>(f: F, le: spec_fn(T::V, T::V) -> bool) -> bool {
    &&& forall|x: &T, y: &T| #[trigger] f.requires((x, y))
    &&& forall|x: &T, y: &T, b: bool| #[trigger] f.ensures((x, y), b) ==> b == le(x.deep_view(), y.deep_view())
}

/// Put the elements in order; equal ones stay as they were.
pub fn sort<T: DeepView, F: Fn(&T, &T) -> bool>(
    v: &mut Vec<T>,
    f: F,
    Ghost(le): Ghost<spec_fn(T::V, T::V) -> bool>,
)
    requires
        orders(f, le),
    ensures
        final(v).deep_view() == sorted(old(v).deep_view(), le),
{
    let n: usize = v.len();
    let ghost s = v.deep_view();
    assert(s.take(0) =~= Seq::empty());
    assert(v.deep_view().take(0) =~= Seq::empty());
    for i in 0..n
        invariant
            n == v@.len(),
            n == s.len(),
            orders(f, le),
            v.deep_view().take(i as int) == sorted(s.take(i as int), le),
            v.deep_view().skip(i as int) == s.skip(i as int),
    {
        let ghost here = v.deep_view();
        let ghost so_far = here.take(i as int);
        assert(s.take(i + 1).drop_last() =~= s.take(i as int));
        assert(here[i as int] == here.skip(i as int)[0]);
        assert(s.take(i + 1).last() == s.skip(i as int)[0]);
        let x = remove(v, i);
        let ghost m = x.deep_view();
        assert(v.deep_view().take(i as int) =~= so_far);
        assert(v.deep_view().len() == v@.len());
        let mut k: usize = i;
        loop
            invariant
                k <= i,
                i < n,
                v@.len() == n - 1,
                orders(f, le),
                v.deep_view() == here.remove(i as int),
                so_far == here.take(i as int),
                i < here.len(),
                m == x.deep_view(),
                forall|j: int| k <= j < so_far.len() ==> !le(#[trigger] so_far[j], m),
            ensures
                k <= i,
                forall|j: int| k <= j < so_far.len() ==> !le(#[trigger] so_far[j], m),
                k == 0 || le(so_far[k - 1], m),
            decreases k,
        {
            if k == 0 {
                break;
            }
            let before = f(&v[k - 1], &x);
            assert(v.deep_view()[k - 1] == v@[k - 1].deep_view());
            assert(so_far[k - 1] == v.deep_view()[k - 1]);
            if before {
                break;
            }
            k = k - 1;
        }
        proof {
            lemma_insert_sorted(so_far, m, le, k as int);
        }
        insert(v, k, x);
        assert(v.deep_view().take(i + 1) =~= so_far.insert(k as int, m));
        assert(v.deep_view().skip(i + 1) =~= here.skip(i as int).drop_first());
        assert(s.skip(i + 1) =~= s.skip(i as int).drop_first());
        assert(v.deep_view().len() == v@.len());
    }
    assert(s.take(n as int) =~= s);
    assert(v.deep_view().take(n as int) =~= v.deep_view());
}

/// A filter that accepts everything changes nothing.
pub proof fn lemma_filter_keeps<A>(s: Seq<A>, p: spec_fn(A) -> bool)
    requires
        forall|i: int| 0 <= i < s.len() ==> p(#[trigger] s[i]),
    ensures
        s.filter(p) == s,
    decreases s.len(),
{
    reveal(Seq::filter);
    if s.len() > 0 {
        let rest = s.drop_last();
        assert forall|i: int| 0 <= i < rest.len() implies p(#[trigger] rest[i]) by {
            assert(rest[i] == s[i]);
        }
        lemma_filter_keeps(rest, p);
        assert(s =~= rest.push(s.last()));
    } else {
        assert(s.filter(p) =~= s);
    }
}

/// The first element accepted, from the front.
proof fn lemma_found_first<A>(s: Seq<A>, p: spec_fn(A) -> bool)
    requires
        s.len() > 0,
    ensures
        found(s, p) == (if p(s[0]) {
            Some(s[0])
        } else {
            found(s.drop_first(), p)
        }),
{
    lemma_first_where(s.drop_first(), p);
}

/// Of two lists the first is searched first.
pub proof fn lemma_found_in_both<A>(a: Seq<A>, b: Seq<A>, p: spec_fn(A) -> bool)
    ensures
        found(a + b, p) == (if found(a, p) is Some {
            found(a, p)
        } else {
            found(b, p)
        }),
    decreases a.len(),
{
    if a.len() == 0 {
        assert(a + b =~= b);
    } else {
        assert((a + b).drop_first() =~= a.drop_first() + b);
        lemma_found_first(a + b, p);
        lemma_found_first(a, p);
        lemma_found_in_both(a.drop_first(), b, p);
    }
}

pub proof fn lemma_found_last<A>(s: Seq<A>, x: A, p: spec_fn(A) -> bool)
    ensures
        found(s.push(x), p) == (if found(s, p) is Some {
            found(s, p)
        } else if p(x) {
            Some(x)
        } else {
            None
        }),
{
    assert(s.push(x) =~= s + seq![x]);
    lemma_found_in_both(s, seq![x], p);
    lemma_found_first(seq![x], p);
    assert(seq![x].drop_first() =~= Seq::empty());
}

/// What is found is there and accepted; nothing is found only where nothing
/// is accepted.
pub proof fn lemma_found<A>(s: Seq<A>, p: spec_fn(A) -> bool)
    ensures
        match found(s, p) {
            Some(x) => s.contains(x) && p(x),
            None => forall|x: A| s.contains(x) ==> !#[trigger] p(x),
        },
        (found(s, p) is Some) == some_where(s, p),
{
    lemma_first_where(s, p);
}

/// A search that agrees on every element finds the same.
pub proof fn lemma_found_alike<A>(s: Seq<A>, p: spec_fn(A) -> bool, q: spec_fn(A) -> bool)
    requires
        forall|i: int| 0 <= i < s.len() ==> p(#[trigger] s[i]) == q(s[i]),
    ensures
        found(s, p) == found(s, q),
    decreases s.len(),
{
    if s.len() > 0 {
        let rest = s.drop_last();
        assert(rest.push(s.last()) =~= s);
        assert forall|i: int| 0 <= i < rest.len() implies p(#[trigger] rest[i]) == q(rest[i]) by {
            assert(rest[i] == s[i]);
        }
        lemma_found_alike(rest, p, q);
        lemma_found_last(rest, s.last(), p);
        lemma_found_last(rest, s.last(), q);
        assert(p(s[s.len() - 1]) == q(s[s.len() - 1]));
    }
}

pub open spec fn both<A>(p: spec_fn(A) -> bool, q: spec_fn(A) -> bool) -> spec_fn(A) -> bool {
    |x: A| p(x) && q(x)
}

/// A search of what a filter leaves is a search for both.
pub proof fn lemma_found_filtered<A>(s: Seq<A>, p: spec_fn(A) -> bool, q: spec_fn(A) -> bool)
    ensures
        found(s.filter(p), q) == found(s, both(p, q)),
    decreases s.len(),
{
    reveal(Seq::filter);
    if s.len() > 0 {
        let rest = s.drop_last();
        assert(rest.push(s.last()) =~= s);
        lemma_found_filtered(rest, p, q);
        lemma_found_last(rest, s.last(), both(p, q));
        if p(s.last()) {
            lemma_found_last(rest.filter(p), s.last(), q);
        }
    } else {
        assert(s.filter(p) =~= s);
    }
}

/// A filter leaves what it accepts.
pub proof fn lemma_filter_has<A>(s: Seq<A>, p: spec_fn(A) -> bool, x: A)
    ensures
        s.filter(p).contains(x) <==> s.contains(x) && p(x),
    decreases s.len(),
{
    reveal(Seq::filter);
    broadcast use vstd::seq_lib::lemma_seq_contains_after_push;
    if s.len() > 0 {
        let rest = s.drop_last();
        assert(rest.push(s.last()) =~= s);
        lemma_filter_has(rest, p, x);
    } else {
        assert(s.filter(p) =~= s);
    }
}

/// Two filters are one for both.
pub proof fn lemma_filter_both<A>(s: Seq<A>, p: spec_fn(A) -> bool, q: spec_fn(A) -> bool)
    ensures
        s.filter(p).filter(q) == s.filter(both(p, q)),
    decreases s.len(),
{
    reveal(Seq::filter);
    if s.len() > 0 {
        let rest = s.drop_last();
        lemma_filter_both(rest, p, q);
        if p(s.last()) {
            assert(rest.filter(p).push(s.last()).drop_last() =~= rest.filter(p));
        }
    } else {
        assert(s.filter(p).filter(q) =~= s.filter(both(p, q)));
    }
}

/// Filters that agree on every element leave the same.
pub proof fn lemma_filter_alike<A>(s: Seq<A>, p: spec_fn(A) -> bool, q: spec_fn(A) -> bool)
    requires
        forall|i: int| 0 <= i < s.len() ==> p(#[trigger] s[i]) == q(s[i]),
    ensures
        s.filter(p) == s.filter(q),
    decreases s.len(),
{
    reveal(Seq::filter);
    if s.len() > 0 {
        let rest = s.drop_last();
        assert forall|i: int| 0 <= i < rest.len() implies p(#[trigger] rest[i]) == q(rest[i]) by {
            assert(rest[i] == s[i]);
        }
        lemma_filter_alike(rest, p, q);
        assert(p(s[s.len() - 1]) == q(s[s.len() - 1]));
    } else {
        assert(s.filter(p) =~= s.filter(q));
    }
}

pub proof fn lemma_filter_last<A>(s: Seq<A>, x: A, p: spec_fn(A) -> bool)
    ensures
        s.push(x).filter(p) == (if p(x) {
            s.filter(p).push(x)
        } else {
            s.filter(p)
        }),
{
    reveal(Seq::filter);
    assert(s.push(x).drop_last() =~= s);
}

/// A filter that drops nothing leaves the list as it is.
pub proof fn lemma_filter_all<A>(s: Seq<A>, p: spec_fn(A) -> bool)
    ensures
        s.filter(p).len() <= s.len(),
        s.filter(p).len() == s.len() ==> s.filter(p) == s,
    decreases s.len(),
{
    reveal(Seq::filter);
    if s.len() > 0 {
        lemma_filter_all(s.drop_last(), p);
        assert(s.drop_last().push(s.last()) =~= s);
    } else {
        assert(s.filter(p) =~= s);
    }
}

/// Places in a list, each behind the one before.
pub open spec fn rising(at: Seq<int>, len: nat) -> bool {
    &&& forall|k: int| 0 <= k < at.len() ==> 0 <= #[trigger] at[k] < len
    &&& forall|j: int, k: int| 0 <= j < k < at.len() ==> #[trigger] at[j] < #[trigger] at[k]
}

/// Where the images of a `filter_map` come from: from every element that has
/// one, in order.
pub proof fn lemma_images<A, B>(s: Seq<A>, f: spec_fn(A) -> Option<B>) -> (at: Seq<int>)
    ensures
        rising(at, s.len()),
        at.len() == s.filter_map(f).len(),
        forall|k: int| 0 <= k < at.len() ==> f(s[#[trigger] at[k]]) == Some(s.filter_map(f)[k]),
        forall|i: int| 0 <= i < s.len() && f(#[trigger] s[i]) is Some ==> at.contains(i),
    decreases s.len(),
{
    reveal(Seq::filter_map);
    if s.len() == 0 {
        Seq::empty()
    } else {
        let rest = s.drop_last();
        let before = lemma_images(rest, f);
        let last = s.len() - 1;
        let r = s.filter_map(f);
        let at = if f(s.last()) is Some {
            before.push(last)
        } else {
            before
        };
        assert forall|k: int| 0 <= k < at.len() implies f(s[#[trigger] at[k]]) == Some(r[k]) by {
            if k < before.len() {
                assert(at[k] == before[k]);
                assert(rest[before[k]] == s[before[k]]);
            }
        }
        assert forall|k: int| 0 <= k < at.len() implies 0 <= #[trigger] at[k] < s.len() by {
            if k < before.len() {
                assert(at[k] == before[k]);
            }
        }
        assert forall|j: int, k: int| 0 <= j < k < at.len() implies #[trigger] at[j] < #[trigger] at[k] by {
            assert(at[j] == before[j]);
            if k < before.len() {
                assert(at[k] == before[k]);
            }
        }
        assert forall|i: int| 0 <= i < s.len() && f(#[trigger] s[i]) is Some implies at.contains(i) by {
            if i < last {
                assert(rest[i] == s[i]);
                let k = choose|k: int| 0 <= k < before.len() && before[k] == i;
                assert(at[k] == i);
            } else {
                assert(at[at.len() - 1] == i);
            }
        }
        at
    }
}

/// Which elements a filter keeps: every one that satisfies `p`, in order.
pub proof fn lemma_kept<A>(s: Seq<A>, p: spec_fn(A) -> bool) -> (at: Seq<int>)
    ensures
        rising(at, s.len()),
        at.len() == s.filter(p).len(),
        forall|k: int| 0 <= k < at.len() ==> s[#[trigger] at[k]] == s.filter(p)[k],
        forall|i: int| 0 <= i < s.len() ==> (at.contains(i) <==> p(#[trigger] s[i])),
    decreases s.len(),
{
    reveal(Seq::filter);
    if s.len() == 0 {
        Seq::empty()
    } else {
        let rest = s.drop_last();
        let before = lemma_kept(rest, p);
        let last = s.len() - 1;
        let at = if p(s.last()) {
            before.push(last)
        } else {
            before
        };
        assert forall|k: int| 0 <= k < at.len() implies s[#[trigger] at[k]] == s.filter(p)[k] by {
            if k < before.len() {
                assert(at[k] == before[k]);
                assert(rest[before[k]] == s[at[k]]);
            }
        }
        assert forall|i: int| 0 <= i < s.len() implies (at.contains(i) <==> p(#[trigger] s[i])) by {
            if i < last {
                assert(rest[i] == s[i]);
                if before.contains(i) {
                    let k = choose|k: int| 0 <= k < before.len() && before[k] == i;
                    assert(at[k] == i);
                }
                if at.contains(i) {
                    let k = choose|k: int| 0 <= k < at.len() && at[k] == i;
                    assert(before[k] == i);
                }
            } else {
                if p(s[i]) {
                    assert(at[before.len() as int] == i);
                }
                if at.contains(i) && !p(s[i]) {
                    let k = choose|k: int| 0 <= k < at.len() && at[k] == i;
                    assert(0 <= before[k] < rest.len());
                }
            }
        }
        assert forall|j: int, k: int| 0 <= j < k < at.len() implies #[trigger] at[j] < #[trigger] at[k] by {
            assert(at[j] == before[j]);
            if k < before.len() {
                assert(at[k] == before[k]);
            }
        }
        assert forall|k: int| 0 <= k < at.len() implies 0 <= #[trigger] at[k] < s.len() by {
            if k < before.len() {
                assert(at[k] == before[k]);
            }
        }
        at
    }
}

/// What a `filter_map` gives are the images.
pub proof fn lemma_images_has<A, B>(s: Seq<A>, f: spec_fn(A) -> Option<B>, y: B)
    ensures
        s.filter_map(f).contains(y) <==> exists|i: int| 0 <= i < s.len() && f(#[trigger] s[i]) == Some(y),
{
    let at = lemma_images(s, f);
    let r = s.filter_map(f);
    if r.contains(y) {
        let k = choose|k: int| 0 <= k < r.len() && r[k] == y;
        assert(f(s[at[k]]) == Some(y));
    }
    if exists|i: int| 0 <= i < s.len() && f(#[trigger] s[i]) == Some(y) {
        let i = choose|i: int| 0 <= i < s.len() && f(#[trigger] s[i]) == Some(y);
        let k = choose|k: int| 0 <= k < at.len() && at[k] == i;
        assert(r[k] == y);
    }
}

/// Sorting keeps what is in the list.
pub proof fn lemma_sorted_has<A>(s: Seq<A>, le: spec_fn(A, A) -> bool, x: A)
    requires
        total_order(le),
    ensures
        sorted(s, le).contains(x) <==> s.contains(x),
{
    lemma_sorted(s, le);
    broadcast use vstd::seq_lib::group_to_multiset_ensures;
    assert(s.contains(x) <==> s.to_multiset().count(x) > 0);
    assert(sorted(s, le).contains(x) <==> sorted(s, le).to_multiset().count(x) > 0);
}

/// A filter leaves no more than there was.
pub proof fn lemma_filter_len<A>(s: Seq<A>, p: spec_fn(A) -> bool)
    ensures
        s.filter(p).len() <= s.len(),
    decreases s.len(),
{
    reveal(Seq::filter);
    if s.len() > 0 {
        lemma_filter_len(s.drop_last(), p);
    }
}

/// The last element that satisfies `p` is the one found last.
pub proof fn lemma_found_at<A>(s: Seq<A>, p: spec_fn(A) -> bool, i: int)
    requires
        0 <= i < s.len(),
        p(s[i]),
        forall|j: int| i < j < s.len() ==> !p(#[trigger] s[j]),
    ensures
        found_last(s, p) == Some(s[i]),
    decreases s.len(),
{
    if i < s.len() - 1 {
        assert(!p(s[s.len() - 1]));
        let rest = s.drop_last();
        assert forall|j: int| i < j < rest.len() implies !p(#[trigger] rest[j]) by {
            assert(!p(s[j]));
        }
        lemma_found_at(rest, p, i);
    }
}

/// A filter that leaves as many as there were leaves them all.
pub proof fn lemma_filter_whole<A>(s: Seq<A>, p: spec_fn(A) -> bool)
    ensures
        s.filter(p).len() == s.len() ==> s.filter(p) == s,
    decreases s.len(),
{
    reveal(Seq::filter);
    if s.len() > 0 {
        let rest = s.drop_last();
        lemma_filter_len(rest, p);
        lemma_filter_whole(rest, p);
        assert(s =~= rest.push(s.last()));
    }
}

} // verus!
