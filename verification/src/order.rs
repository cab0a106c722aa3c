use vstd::prelude::*;
use vstd::multiset::Multiset;
use vstd::string::*;

verus! {

/// Result of comparing two values.
#[derive(PartialEq, Eq, Structural, Clone, Copy, Debug)]
pub enum Comparison {
    Less,
    Equal,
    Greater,
}

/// `lt` is a strict total order: irreflexive, transitive, and any two
/// distinct values are related one way or the other.
pub open spec fn strict_total<A>(lt: spec_fn(A, A) -> bool) -> bool {
    &&& forall|x: A| #![trigger lt(x, x)] !lt(x, x)
    &&& forall|x: A, y: A, z: A| #![trigger lt(x, y), lt(y, z)] lt(x, y) && lt(y, z) ==> lt(x, z)
    &&& forall|x: A, y: A| #![trigger lt(x, y)] x == y || lt(x, y) || lt(y, x)
}

/// What a comparison result says of `a` and `b` under the order `lt`.
pub open spec fn comparison_agrees<A>(c: Comparison, a: A, b: A, lt: spec_fn(A, A) -> bool) -> bool {
    match c {
        Comparison::Less => lt(a, b),
        Comparison::Equal => a == b,
        Comparison::Greater => lt(b, a),
    }
}

/// Lexicographic order on sequences: the first differing element decides,
/// and a proper prefix comes first.
pub open spec fn lex_lt<A>(a: Seq<A>, b: Seq<A>, lt: spec_fn(A, A) -> bool) -> bool
    decreases a.len(),
{
    if a.len() == 0 {
        b.len() > 0
    } else if b.len() == 0 {
        false
    } else {
        lt(a[0], b[0]) || (a[0] == b[0] && lex_lt(a.drop_first(), b.drop_first(), lt))
    }
}

/// `s` is in non-decreasing order under the strict order `lt`.
pub open spec fn sorted_by<A>(s: Seq<A>, lt: spec_fn(A, A) -> bool) -> bool {
    forall|i: int, j: int| 0 <= i < j < s.len() ==> !lt(#[trigger] s[j], #[trigger] s[i])
}

proof fn lemma_lex_irreflexive<A>(a: Seq<A>, lt: spec_fn(A, A) -> bool)
    requires
        strict_total(lt),
    ensures
        !lex_lt(a, a, lt),
    decreases a.len(),
{
    if a.len() > 0 {
        assert(!lt(a[0], a[0]));
        lemma_lex_irreflexive(a.drop_first(), lt);
    }
}

proof fn lemma_lex_transitive<A>(a: Seq<A>, b: Seq<A>, c: Seq<A>, lt: spec_fn(A, A) -> bool)
    requires
        strict_total(lt),
        lex_lt(a, b, lt),
        lex_lt(b, c, lt),
    ensures
        lex_lt(a, c, lt),
    decreases a.len(),
{
    if a.len() > 0 {
        assert(b.len() > 0);
        assert(c.len() > 0);
        if lt(a[0], b[0]) {
            if lt(b[0], c[0]) {
                assert(lt(a[0], c[0]));
            }
        } else {
            if !lt(b[0], c[0]) {
                lemma_lex_transitive(a.drop_first(), b.drop_first(), c.drop_first(), lt);
            }
        }
    }
}

proof fn lemma_lex_total<A>(a: Seq<A>, b: Seq<A>, lt: spec_fn(A, A) -> bool)
    requires
        strict_total(lt),
    ensures
        a == b || lex_lt(a, b, lt) || lex_lt(b, a, lt),
    decreases a.len(),
{
    if a.len() == 0 || b.len() == 0 {
        if a.len() == 0 && b.len() == 0 {
            assert(a =~= b);
        }
    } else {
        assert(a[0] == b[0] || lt(a[0], b[0]) || lt(b[0], a[0]));
        if a[0] == b[0] {
            lemma_lex_total(a.drop_first(), b.drop_first(), lt);
            if a.drop_first() == b.drop_first() {
                assert(a.drop_first().len() == b.drop_first().len());
                assert(a.len() == a.drop_first().len() + 1);
                assert(b.len() == b.drop_first().len() + 1);
                assert(a.len() == b.len());
                assert forall|i: int| 0 <= i < a.len() implies a[i] == b[i] by {
                    if i > 0 {
                        assert(a[i] == a.drop_first()[i - 1]);
                        assert(b[i] == b.drop_first()[i - 1]);
                    }
                }
                assert(a =~= b);
            }
        }
    }
}

/// The lexicographic order built on a strict total order is one too.
pub proof fn lemma_lex_strict_total<A>(lt: spec_fn(A, A) -> bool)
    requires
        strict_total(lt),
    ensures
        strict_total(|a: Seq<A>, b: Seq<A>| lex_lt(a, b, lt)),
{
    assert forall|x: Seq<A>| #![trigger lex_lt(x, x, lt)] !lex_lt(x, x, lt) by {
        lemma_lex_irreflexive(x, lt);
    }
    assert forall|x: Seq<A>, y: Seq<A>, z: Seq<A>|
        #![trigger lex_lt(x, y, lt), lex_lt(y, z, lt)]
        lex_lt(x, y, lt) && lex_lt(y, z, lt) implies lex_lt(x, z, lt) by {
        lemma_lex_transitive(x, y, z, lt);
    }
    assert forall|x: Seq<A>, y: Seq<A>| #![trigger lex_lt(x, y, lt)]
        x == y || lex_lt(x, y, lt) || lex_lt(y, x, lt) by {
        lemma_lex_total(x, y, lt);
    }
}

/// Order of characters by their code point.
pub open spec fn char_lt() -> spec_fn(char, char) -> bool {
    |x: char, y: char| (x as u32) < (y as u32)
}

/// Order of texts: lexicographic by code point, which is the order of
/// their UTF-8 bytes.
pub open spec fn text_lt(a: Seq<char>, b: Seq<char>) -> bool {
    lex_lt(a, b, char_lt())
}

/// `text_lt` as a relation.
pub open spec fn text_order() -> spec_fn(Seq<char>, Seq<char>) -> bool {
    |a: Seq<char>, b: Seq<char>| text_lt(a, b)
}

/// Texts are ordered by code point: when `a` and `b` agree on their first
/// `i` characters, `a` comes first if it ends there and `b` goes on, or if
/// its next character has the smaller code point, and not if `b`'s has.
pub proof fn law_text_order_by_code_point(a: Seq<char>, b: Seq<char>, i: int)
    requires
        0 <= i <= a.len(),
        i <= b.len(),
        a.take(i) == b.take(i),
    ensures
        i == a.len() && i < b.len() ==> text_lt(a, b),
        i < a.len() && i < b.len() && (a[i] as u32) < (b[i] as u32) ==> text_lt(a, b),
        i < a.len() && i < b.len() && (b[i] as u32) < (a[i] as u32) ==> !text_lt(a, b),
    decreases i,
{
    if i > 0 {
        assert(a[0] == a.take(i)[0]);
        assert(b[0] == b.take(i)[0]);
        let a1 = a.drop_first();
        let b1 = b.drop_first();
        assert(a1.take(i - 1) =~= a.take(i).drop_first());
        assert(b1.take(i - 1) =~= b.take(i).drop_first());
        law_text_order_by_code_point(a1, b1, i - 1);
        assert(!char_lt()(a[0], b[0]));
        assert(text_lt(a, b) == text_lt(a1, b1));
        if i < a.len() {
            assert(a1[i - 1] == a[i]);
        }
        if i < b.len() {
            assert(b1[i - 1] == b[i]);
        }
    }
}

pub proof fn lemma_char_strict_total()
    ensures
        strict_total(char_lt()),
{
    assert forall|x: char, y: char| #![trigger char_lt()(x, y)] x == y || char_lt()(x, y) || char_lt()(y, x) by {
        if (x as u32) == (y as u32) {
            vstd::utf8::char_u32_cast(x, x as u32);
            vstd::utf8::char_u32_cast(y, y as u32);
        }
    }
}

pub proof fn lemma_text_strict_total()
    ensures
        strict_total(text_order()),
{
    lemma_char_strict_total();
    lemma_lex_strict_total(char_lt());
    assert(strict_total(|a: Seq<char>, b: Seq<char>| lex_lt(a, b, char_lt())));
    assert(text_order() =~= (|a: Seq<char>, b: Seq<char>| lex_lt(a, b, char_lt())));
}

proof fn lemma_lex_skip_step<A>(a: Seq<A>, b: Seq<A>, i: int, lt: spec_fn(A, A) -> bool)
    requires
        strict_total(lt),
        0 <= i < a.len(),
        i < b.len(),
        a[i] == b[i],
    ensures
        lex_lt(a.skip(i), b.skip(i), lt) == lex_lt(a.skip(i + 1), b.skip(i + 1), lt),
{
    assert(!lt(a[i], b[i]));
    assert(a.skip(i)[0] == a[i]);
    assert(b.skip(i)[0] == b[i]);
    assert(a.skip(i).drop_first() =~= a.skip(i + 1));
    assert(b.skip(i).drop_first() =~= b.skip(i + 1));
}

/// Compares two texts in the order `text_lt`.
pub fn compare_text(a: &str, b: &str) -> (c: Comparison)
    ensures
        comparison_agrees(c, a@, b@, text_order()),
{
    let n = a.unicode_len();
    let m = b.unicode_len();
    let mut i: usize = 0;
    assert(a@.skip(0) =~= a@);
    assert(b@.skip(0) =~= b@);
    while i < n && i < m
        invariant
            n == a@.len(),
            m == b@.len(),
            i <= n,
            i <= m,
            a@.subrange(0, i as int) =~= b@.subrange(0, i as int),
            text_lt(a@, b@) == text_lt(a@.skip(i as int), b@.skip(i as int)),
            text_lt(b@, a@) == text_lt(b@.skip(i as int), a@.skip(i as int)),
        decreases n - i,
    {
        let ca = a.get_char(i);
        let cb = b.get_char(i);
        if (ca as u32) < (cb as u32) {
            assert(a@.skip(i as int)[0] == ca);
            assert(b@.skip(i as int)[0] == cb);
            return Comparison::Less;
        }
        if (cb as u32) < (ca as u32) {
            assert(a@.skip(i as int)[0] == ca);
            assert(b@.skip(i as int)[0] == cb);
            return Comparison::Greater;
        }
        proof {
            lemma_char_strict_total();
            assert(ca == cb);
            lemma_lex_skip_step(a@, b@, i as int, char_lt());
            lemma_lex_skip_step(b@, a@, i as int, char_lt());
            assert(a@.subrange(0, i + 1) =~= a@.subrange(0, i as int).push(ca));
            assert(b@.subrange(0, i + 1) =~= b@.subrange(0, i as int).push(cb));
        }
        i = i + 1;
    }
    if i == n && i == m {
        assert(a@ =~= a@.subrange(0, i as int));
        assert(b@ =~= b@.subrange(0, i as int));
        Comparison::Equal
    } else if i == n {
        assert(a@.skip(i as int).len() == 0);
        Comparison::Less
    } else {
        assert(b@.skip(i as int).len() == 0);
        Comparison::Greater
    }
}

/// A type whose values are put in order by a strict total order on their
/// views.
pub trait ViewOrder: DeepView + Sized {
    spec fn view_lt() -> spec_fn(Self::V, Self::V) -> bool;

    proof fn lemma_view_lt_strict_total()
        ensures
            strict_total(Self::view_lt()),
    ;

    fn compare(&self, other: &Self) -> (c: Comparison)
        ensures
            comparison_agrees(c, self.deep_view(), other.deep_view(), Self::view_lt()),
    ;
}

impl ViewOrder for String {
    open spec fn view_lt() -> spec_fn(Seq<char>, Seq<char>) -> bool {
        text_order()
    }

    proof fn lemma_view_lt_strict_total() {
        lemma_text_strict_total();
    }

    fn compare(&self, other: &Self) -> (c: Comparison) {
        compare_text(self.as_str(), other.as_str())
    }
}

/// `lex_lt` over `lt` as a relation.
pub open spec fn lex_order<A>(lt: spec_fn(A, A) -> bool) -> spec_fn(Seq<A>, Seq<A>) -> bool {
    |a: Seq<A>, b: Seq<A>| lex_lt(a, b, lt)
}

/// Compares two vectors lexicographically by the order of their elements.
pub fn compare_vecs<T: ViewOrder>(a: &Vec<T>, b: &Vec<T>) -> (c: Comparison)
    ensures
        comparison_agrees(c, a.deep_view(), b.deep_view(), lex_order(T::view_lt())),
{
    proof {
        T::lemma_view_lt_strict_total();
    }
    let ghost lt = T::view_lt();
    let ghost av = a.deep_view();
    let ghost bv = b.deep_view();
    let n = a.len();
    let m = b.len();
    let mut i: usize = 0;
    assert(av.skip(0) =~= av);
    assert(bv.skip(0) =~= bv);
    while i < n && i < m
        invariant
            lt == T::view_lt(),
            strict_total(lt),
            av == a.deep_view(),
            bv == b.deep_view(),
            n == av.len(),
            m == bv.len(),
            i <= n,
            i <= m,
            av.subrange(0, i as int) =~= bv.subrange(0, i as int),
            lex_lt(av, bv, lt) == lex_lt(av.skip(i as int), bv.skip(i as int), lt),
            lex_lt(bv, av, lt) == lex_lt(bv.skip(i as int), av.skip(i as int), lt),
        decreases n - i,
    {
        let c = a[i].compare(&b[i]);
        assert(av.skip(i as int)[0] == av[i as int]);
        assert(bv.skip(i as int)[0] == bv[i as int]);
        match c {
            Comparison::Less => {
                return Comparison::Less;
            },
            Comparison::Greater => {
                return Comparison::Greater;
            },
            Comparison::Equal => {},
        }
        proof {
            lemma_lex_skip_step(av, bv, i as int, lt);
            lemma_lex_skip_step(bv, av, i as int, lt);
            assert(av.subrange(0, i + 1) =~= av.subrange(0, i as int).push(av[i as int]));
            assert(bv.subrange(0, i + 1) =~= bv.subrange(0, i as int).push(bv[i as int]));
        }
        i = i + 1;
    }
    if i == n && i == m {
        assert(av =~= av.subrange(0, i as int));
        assert(bv =~= bv.subrange(0, i as int));
        Comparison::Equal
    } else if i == n {
        assert(av.skip(i as int).len() == 0);
        Comparison::Less
    } else {
        assert(bv.skip(i as int).len() == 0);
        Comparison::Greater
    }
}

impl<T: ViewOrder> ViewOrder for Vec<T> {
    open spec fn view_lt() -> spec_fn(Seq<T::V>, Seq<T::V>) -> bool {
        lex_order(T::view_lt())
    }

    proof fn lemma_view_lt_strict_total() {
        T::lemma_view_lt_strict_total();
        lemma_lex_strict_total(T::view_lt());
        assert(lex_order(T::view_lt()) =~= (|a: Seq<T::V>, b: Seq<T::V>| lex_lt(a, b, T::view_lt())));
    }

    fn compare(&self, other: &Self) -> (c: Comparison) {
        compare_vecs(self, other)
    }
}

/// Two arrangements in order of the same values are the same: sorting
/// determines its result.
pub proof fn law_sorted_arrangement_unique<A>(a: Seq<A>, b: Seq<A>, lt: spec_fn(A, A) -> bool)
    requires
        strict_total(lt),
        sorted_by(a, lt),
        sorted_by(b, lt),
        a.to_multiset() == b.to_multiset(),
    ensures
        a == b,
    decreases a.len(),
{
    broadcast use vstd::seq_lib::group_to_multiset_ensures;

    if a.len() == 0 {
        assert(b.to_multiset().len() == 0);
        assert(b.len() == 0);
        assert(a =~= b);
    } else {
        assert(a.to_multiset().count(a[0]) > 0);
        assert(b.len() > 0);
        assert(b.contains(a[0]));
        assert(b.contains(b[0]));
        vstd::seq_lib::to_multiset_contains(b, b[0]);
        vstd::seq_lib::to_multiset_contains(a, b[0]);
        assert(a.contains(b[0]));
        let k = choose|k: int| 0 <= k < b.len() && b[k] == a[0];
        let j = choose|j: int| 0 <= j < a.len() && a[j] == b[0];
        if k > 0 {
            assert(!lt(b[k], b[0]));
        }
        if j > 0 {
            assert(!lt(a[j], a[0]));
        }
        assert(a[0] == b[0]);
        vstd::seq_lib::to_multiset_remove(a, 0);
        vstd::seq_lib::to_multiset_remove(b, 0);
        assert(a.remove(0) =~= a.drop_first());
        assert(b.remove(0) =~= b.drop_first());
        assert(sorted_by(a.drop_first(), lt)) by {
            assert forall|x: int, y: int| 0 <= x < y < a.drop_first().len() implies !lt(
                #[trigger] a.drop_first()[y],
                #[trigger] a.drop_first()[x],
            ) by {
                assert(a.drop_first()[y] == a[y + 1]);
                assert(a.drop_first()[x] == a[x + 1]);
            }
        }
        assert(sorted_by(b.drop_first(), lt)) by {
            assert forall|x: int, y: int| 0 <= x < y < b.drop_first().len() implies !lt(
                #[trigger] b.drop_first()[y],
                #[trigger] b.drop_first()[x],
            ) by {
                assert(b.drop_first()[y] == b[y + 1]);
                assert(b.drop_first()[x] == b[x + 1]);
            }
        }
        law_sorted_arrangement_unique(a.drop_first(), b.drop_first(), lt);
        assert forall|i: int| 0 <= i < a.len() implies a[i] == b[i] by {
            if i > 0 {
                assert(a[i] == a.drop_first()[i - 1]);
                assert(b[i] == b.drop_first()[i - 1]);
            }
        }
        assert(a =~= b);
    }
}

/// Sorts `v` in non-decreasing order of its views, keeping every value.
pub fn sort_by_view<T: ViewOrder>(v: Vec<T>) -> (r: Vec<T>)
    ensures
        sorted_by(r.deep_view(), T::view_lt()),
        r.deep_view().to_multiset() == v.deep_view().to_multiset(),
{
    broadcast use vstd::seq_lib::group_to_multiset_ensures;
    broadcast use vstd::multiset::group_multiset_properties;

    proof {
        T::lemma_view_lt_strict_total();
    }
    let ghost orig = v.deep_view();
    let ghost lt = T::view_lt();
    let mut rest = v;
    let mut r: Vec<T> = Vec::new();
    assert(r.deep_view() =~= Seq::<T::V>::empty());
    assert(r.deep_view().to_multiset() =~= Multiset::empty());
    while rest.len() > 0
        invariant
            lt == T::view_lt(),
            strict_total(lt),
            sorted_by(r.deep_view(), lt),
            r.deep_view().to_multiset().add(rest.deep_view().to_multiset()) == orig.to_multiset(),
        decreases rest.len(),
    {
        let ghost old_rest = rest.deep_view();
        let ghost old_r = r.deep_view();
        let x = rest.pop().unwrap();
        let ghost xv = x.deep_view();
        assert(old_rest =~= rest.deep_view().push(xv));
        let mut p: usize = 0;
        while p < r.len()
            invariant
                p <= r.len(),
                lt == T::view_lt(),
                strict_total(lt),
                xv == x.deep_view(),
                r.deep_view() == old_r,
                forall|k: int| 0 <= k < p ==> !lt(xv, #[trigger] old_r[k]),
            ensures
                p <= r.len(),
                forall|k: int| 0 <= k < p ==> !lt(xv, #[trigger] old_r[k]),
                p < r.len() ==> lt(xv, old_r[p as int]),
            decreases r.len() - p,
        {
            let c = x.compare(&r[p]);
            assert(r[p as int].deep_view() == old_r[p as int]);
            if c == Comparison::Less {
                break;
            }
            p = p + 1;
        }
        r.insert(p, x);
        assert(r.deep_view() =~= old_r.insert(p as int, xv));
        proof {
            vstd::seq_lib::to_multiset_insert(old_r, p as int, xv);
            vstd::seq_lib::to_multiset_build(rest.deep_view(), xv);
        }
        assert(r.deep_view().to_multiset().add(rest.deep_view().to_multiset()) =~= old_r.to_multiset().add(
            old_rest.to_multiset(),
        ));
        assert forall|i: int, j: int| 0 <= i < j < r.deep_view().len() implies !lt(
            #[trigger] r.deep_view()[j],
            #[trigger] r.deep_view()[i],
        ) by {
            let s = r.deep_view();
            if j < p {
            } else if j == p {
            } else if i < p {
            } else if i == p {
                if lt(s[j], xv) {
                    assert(lt(xv, old_r[p as int]));
                    assert(!lt(old_r[j - 1], old_r[p as int]) || j - 1 == p);
                }
            } else {
            }
        }
    }
    assert(rest.deep_view() =~= Seq::<T::V>::empty());
    r
}

} // verus!
