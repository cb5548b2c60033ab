//! Tensor shapes and element counts.
use vstd::prelude::*;

verus! {

/// Product of a list of extents; `1` for the empty list.
pub open spec fn product(dims: Seq<usize>) -> nat
    decreases dims.len(),
{
    if dims.len() == 0 {
        1
    } else {
        product(dims.drop_last()) * (dims.last() as nat)
    }
}

/// An extent of zero makes the product zero.
pub proof fn lemma_product_zero(dims: Seq<usize>, i: int)
    requires
        0 <= i < dims.len(),
        dims[i] == 0,
    ensures
        product(dims) == 0,
    decreases dims.len(),
{
    if i < dims.len() - 1 {
        lemma_product_zero(dims.drop_last(), i);
    }
    assert(product(dims) == 0) by (nonlinear_arith)
        requires
            product(dims) == product(dims.drop_last()) * (dims.last() as nat),
            product(dims.drop_last()) == 0 || dims.last() == 0,
    ;
}

/// Where no extent is zero, a prefix has no larger a product than the whole.
pub proof fn lemma_product_prefix(dims: Seq<usize>, i: int)
    requires
        0 <= i <= dims.len(),
        forall|j: int| 0 <= j < dims.len() ==> dims[j] != 0,
    ensures
        1 <= product(dims.take(i)) <= product(dims),
    decreases dims.len(),
{
    if dims.len() == 0 {
        assert(dims.take(i) =~= dims);
    } else if i == dims.len() {
        assert(dims.take(i) =~= dims);
        lemma_product_prefix(dims.drop_last(), i - 1);
        assert(dims.drop_last().take(i - 1) =~= dims.drop_last());
        assert(product(dims) >= 1) by (nonlinear_arith)
            requires
                product(dims) == product(dims.drop_last()) * (dims.last() as nat),
                product(dims.drop_last()) >= 1,
                dims.last() >= 1,
        ;
    } else {
        lemma_product_prefix(dims.drop_last(), i);
        assert(dims.drop_last().take(i) =~= dims.take(i));
        assert(product(dims) >= product(dims.drop_last())) by (nonlinear_arith)
            requires
                product(dims) == product(dims.drop_last()) * (dims.last() as nat),
                dims.last() >= 1,
        ;
    }
}

/// Product of one extent.
pub proof fn lemma_product_1(a: usize)
    ensures
        product(seq![a]) == a,
{
    assert(seq![a].drop_last() =~= Seq::<usize>::empty());
    assert(product(Seq::<usize>::empty()) == 1);
    assert(product(seq![a]) == 1 * (a as nat));
}

/// Product of two extents.
pub proof fn lemma_product_2(a: usize, b: usize)
    ensures
        product(seq![a, b]) == a * b,
{
    lemma_product_1(a);
    assert(seq![a, b].drop_last() =~= seq![a]);
}

/// Product of three extents.
pub proof fn lemma_product_3(a: usize, b: usize, c: usize)
    ensures
        product(seq![a, b, c]) == a * b * c,
{
    lemma_product_2(a, b);
    assert(seq![a, b, c].drop_last() =~= seq![a, b]);
}

/// Product of four extents.
pub proof fn lemma_product_4(a: usize, b: usize, c: usize, d: usize)
    ensures
        product(seq![a, b, c, d]) == a * b * c * d,
{
    lemma_product_3(a, b, c);
    assert(seq![a, b, c, d].drop_last() =~= seq![a, b, c]);
}

/// Product of the extents, where a machine word can hold it.
pub fn checked_product(dims: &Vec<usize>) -> (count: Option<usize>)
    ensures
        match count {
            Some(n) => n == product(dims@),
            None => product(dims@) > usize::MAX,
        },
{
    let mut i: usize = 0;
    while i < dims.len()
        invariant
            i <= dims.len(),
            forall|j: int| 0 <= j < i ==> dims[j] != 0,
        decreases dims.len() - i,
    {
        if dims[i] == 0 {
            proof {
                lemma_product_zero(dims@, i as int);
            }
            return Some(0);
        }
        i += 1;
    }
    let mut total: usize = 1;
    i = 0;
    assert(dims@.take(0) =~= Seq::<usize>::empty());
    while i < dims.len()
        invariant
            i <= dims.len(),
            forall|j: int| 0 <= j < dims.len() ==> dims[j] != 0,
            total == product(dims@.take(i as int)),
        decreases dims.len() - i,
    {
        proof {
            lemma_product_prefix(dims@, i + 1);
            assert(dims@.take(i + 1).drop_last() =~= dims@.take(i as int));
        }
        match total.checked_mul(dims[i]) {
            Some(next) => {
                total = next;
            },
            None => {
                return None;
            },
        }
        i += 1;
    }
    assert(dims@.take(dims.len() as int) =~= dims@);
    Some(total)
}

/// Whether two lists hold the same extents.
pub fn same_dims(a: &Vec<usize>, b: &Vec<usize>) -> (same: bool)
    ensures
        same == (a@ == b@),
{
    if a.len() != b.len() {
        return false;
    }
    let mut i: usize = 0;
    while i < a.len()
        invariant
            a.len() == b.len(),
            i <= a.len(),
            forall|j: int| 0 <= j < i ==> a[j] == b[j],
        decreases a.len() - i,
    {
        if a[i] != b[i] {
            return false;
        }
        i += 1;
    }
    assert(a@ =~= b@);
    true
}

/// Copy of a list of extents.
pub fn copy_dims(a: &Vec<usize>) -> (copy: Vec<usize>)
    ensures
        copy@ == a@,
{
    let mut copy: Vec<usize> = Vec::new();
    let mut i: usize = 0;
    while i < a.len()
        invariant
            i <= a.len(),
            copy@ == a@.take(i as int),
        decreases a.len() - i,
    {
        copy.push(a[i]);
        assert(copy@ =~= a@.take(i + 1));
        i += 1;
    }
    assert(a@.take(a.len() as int) =~= a@);
    copy
}

/// Whether an extent of zero occurs.
pub fn has_zero(a: &Vec<usize>) -> (found: bool)
    ensures
        found == a@.contains(0),
{
    let mut i: usize = 0;
    while i < a.len()
        invariant
            i <= a.len(),
            forall|j: int| 0 <= j < i ==> a[j] != 0,
        decreases a.len() - i,
    {
        if a[i] == 0 {
            assert(a@[i as int] == 0);
            return true;
        }
        i += 1;
    }
    false
}

/// Extents of a tensor, outermost first.
#[derive(Clone, Debug)]
pub struct Shape {
    pub dims: Vec<usize>,
}

impl View for Shape {
    type V = Seq<usize>;

    open spec fn view(&self) -> Seq<usize> {
        self.dims@
    }
}

impl Shape {
    pub fn new(dims: Vec<usize>) -> (shape: Self)
        ensures
            shape == (Shape { dims }),
    {
        Shape { dims }
    }

    pub fn dims(&self) -> (dims: &Vec<usize>)
        ensures
            dims == self.dims,
    {
        &self.dims
    }

    /// Number of elements, where a machine word can hold it.
    pub fn numel(&self) -> (count: Option<usize>)
        ensures
            match count {
                Some(n) => n == product(self@),
                None => product(self@) > usize::MAX,
            },
    {
        checked_product(&self.dims)
    }

    /// Copy of the shape.
    pub fn duplicate(&self) -> (copy: Self)
        ensures
            copy@ == self@,
    {
        Shape { dims: copy_dims(&self.dims) }
    }
}

} // verus!
