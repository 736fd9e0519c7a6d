use vstd::prelude::*;

verus! {

/// A fixed-size vector of `N` components.
#[derive(Clone, Copy, Debug, PartialEq, Eq)]
pub struct Vector<T: Default + Copy, const N: usize> {
    data: [T; N],
}

pub type Vector2<T> = Vector<T, 2>;

pub type Vector3<T> = Vector<T, 3>;

pub type Vector4<T> = Vector<T, 4>;

impl<T: Default + Copy, const N: usize> View for Vector<T, N> {
    type V = Seq<T>;

    closed spec fn view(&self) -> Seq<T> {
        self.data@
    }
}

impl<T: Default + Copy, const N: usize> Vector<T, N> {
    /// Borrows the components.
    pub fn as_array(&self) -> (r: &[T; N])
        ensures
            r@ == self@,
    {
        &self.data
    }

    /// Borrows the components mutably; writes through the result are writes
    /// into the vector.
    pub fn as_mut_array(&mut self) -> (r: &mut [T; N])
        ensures
            (*r)@ == old(self)@,
            final(self)@ == (*final(r))@,
    {
        &mut self.data
    }

    /// Copies the components out.
    pub fn to_array(&self) -> (r: [T; N])
        ensures
            r@ == self@,
    {
        self.data
    }

    /// Builds a vector from its components; the inverse of `to_array`.
    pub fn from_array(data: [T; N]) -> (r: Self)
        ensures
            r@ == data@,
    {
        Vector { data }
    }
}

impl<T: Default + Copy> Vector<T, 2> {
    /// Builds a two-component vector.
    pub fn new(x: T, y: T) -> (r: Self)
        ensures
            r@ == seq![x, y],
    {
        let r = Vector { data: [x, y] };
        proof {
            assert(r@ =~= seq![x, y]);
        }
        r
    }

    /// Appends a third component.
    pub fn extend(&self, value: T) -> (r: Vector<T, 3>)
        ensures
            r@ == self@.push(value),
    {
        let r = Vector { data: [self.data[0], self.data[1], value] };
        proof {
            assert(r@ =~= self@.push(value));
        }
        r
    }
}

impl<T: Default + Copy> Vector<T, 3> {
    /// Builds a three-component vector.
    pub fn new(x: T, y: T, z: T) -> (r: Self)
        ensures
            r@ == seq![x, y, z],
    {
        let r = Vector { data: [x, y, z] };
        proof {
            assert(r@ =~= seq![x, y, z]);
        }
        r
    }

    /// Appends a fourth component.
    pub fn extend(&self, value: T) -> (r: Vector<T, 4>)
        ensures
            r@ == self@.push(value),
    {
        let r = Vector { data: [self.data[0], self.data[1], self.data[2], value] };
        proof {
            assert(r@ =~= self@.push(value));
        }
        r
    }
}

impl<T: Default + Copy> Vector<T, 4> {
    /// Builds a four-component vector.
    pub fn new(x: T, y: T, z: T, w: T) -> (r: Self)
        ensures
            r@ == seq![x, y, z, w],
    {
        let r = Vector { data: [x, y, z, w] };
        proof {
            assert(r@ =~= seq![x, y, z, w]);
        }
        r
    }
}

/// Every component is bounded in magnitude, so products and short sums of
/// products stay far inside the machine range.
pub open spec fn components_bounded(s: Seq<int>, bound: int) -> bool {
    forall|k: int| 0 <= k < s.len() ==> -bound <= #[trigger] s[k] <= bound
}

/// The dot product of two integer sequences.
pub open spec fn spec_dot(a: Seq<int>, b: Seq<int>) -> int
    decreases a.len(),
{
    if a.len() == 0 || b.len() == 0 {
        0
    } else {
        spec_dot(a.drop_last(), b.drop_last()) + a.last() * b.last()
    }
}

/// The largest component magnitude the integer vector arithmetic accepts:
/// with at most `COMPONENT_BOUND` in each slot, a product fits in 62 bits.
pub const COMPONENT_BOUND: i64 = 1_000_000_000;

impl<const N: usize> Vector<i64, N> {
    /// The dot product of two vectors.
    pub fn dot(&self, other: &Self) -> (r: i64)
        requires
            N <= 4,
            components_bounded(self@.map_values(|x: i64| x as int), COMPONENT_BOUND as int),
            components_bounded(other@.map_values(|x: i64| x as int), COMPONENT_BOUND as int),
        ensures
            r as int == spec_dot(
                self@.map_values(|x: i64| x as int),
                other@.map_values(|x: i64| x as int),
            ),
    {
        let ghost sa = self@.map_values(|x: i64| x as int);
        let ghost sb = other@.map_values(|x: i64| x as int);
        let mut result: i64 = 0;
        let mut i: usize = 0;
        while i < N
            invariant
                N <= 4,
                i <= N,
                self@.len() == N,
                other@.len() == N,
                sa == self@.map_values(|x: i64| x as int),
                sb == other@.map_values(|x: i64| x as int),
                components_bounded(sa, COMPONENT_BOUND as int),
                components_bounded(sb, COMPONENT_BOUND as int),
                result as int == spec_dot(sa.take(i as int), sb.take(i as int)),
                -(i as int) * (COMPONENT_BOUND as int) * (COMPONENT_BOUND as int) <= result as int
                    <= (i as int) * (COMPONENT_BOUND as int) * (COMPONENT_BOUND as int),
            decreases N - i,
        {
            proof {
                assert(sa[i as int] == self@[i as int] as int);
                assert(sb[i as int] == other@[i as int] as int);
                assert((-(COMPONENT_BOUND as int) * (COMPONENT_BOUND as int)) <= sa[i as int] * sb[
                i as int] <= (COMPONENT_BOUND as int) * (COMPONENT_BOUND as int))
                    by (nonlinear_arith)
                    requires
                        -(COMPONENT_BOUND as int) <= sa[i as int] <= (COMPONENT_BOUND as int),
                        -(COMPONENT_BOUND as int) <= sb[i as int] <= (COMPONENT_BOUND as int),
                ;
            }
            result = result + self.data[i] * other.data[i];
            proof {
                assert(sa.take(i + 1).drop_last() =~= sa.take(i as int));
                assert(sb.take(i + 1).drop_last() =~= sb.take(i as int));
                assert(sa.take(i + 1).last() == sa[i as int]);
                assert(sb.take(i + 1).last() == sb[i as int]);
                assert(spec_dot(sa.take(i + 1), sb.take(i + 1)) == spec_dot(
                    sa.take(i as int),
                    sb.take(i as int),
                ) + sa[i as int] * sb[i as int]);
            }
            i = i + 1;
        }
        proof {
            assert(sa.take(N as int) =~= sa);
            assert(sb.take(N as int) =~= sb);
        }
        result
    }
}

impl Vector<i64, 2> {
    /// The two-dimensional cross product: `x1*y2 - y1*x2`.
    pub fn cross(&self, other: Vector<i64, 2>) -> (r: i64)
        requires
            components_bounded(self@.map_values(|x: i64| x as int), COMPONENT_BOUND as int),
            components_bounded(other@.map_values(|x: i64| x as int), COMPONENT_BOUND as int),
        ensures
            r as int == self@[0] * other@[1] - self@[1] * other@[0],
    {
        let ghost sa = self@.map_values(|x: i64| x as int);
        let ghost sb = other@.map_values(|x: i64| x as int);
        proof {
            assert(sa[0] == self@[0] as int && sa[1] == self@[1] as int);
            assert(sb[0] == other@[0] as int && sb[1] == other@[1] as int);
            assert((-(COMPONENT_BOUND as int) * (COMPONENT_BOUND as int)) <= sa[0] * sb[1] <= (
            COMPONENT_BOUND as int) * (COMPONENT_BOUND as int)) by (nonlinear_arith)
                requires
                    -(COMPONENT_BOUND as int) <= sa[0] <= (COMPONENT_BOUND as int),
                    -(COMPONENT_BOUND as int) <= sb[1] <= (COMPONENT_BOUND as int),
            ;
            assert((-(COMPONENT_BOUND as int) * (COMPONENT_BOUND as int)) <= sa[1] * sb[0] <= (
            COMPONENT_BOUND as int) * (COMPONENT_BOUND as int)) by (nonlinear_arith)
                requires
                    -(COMPONENT_BOUND as int) <= sa[1] <= (COMPONENT_BOUND as int),
                    -(COMPONENT_BOUND as int) <= sb[0] <= (COMPONENT_BOUND as int),
            ;
        }
        self.data[0] * other.data[1] - self.data[1] * other.data[0]
    }
}

impl Vector<i64, 3> {
    /// The three-dimensional cross product.
    pub fn cross(&self, other: Vector<i64, 3>) -> (r: Vector<i64, 3>)
        requires
            components_bounded(self@.map_values(|x: i64| x as int), COMPONENT_BOUND as int),
            components_bounded(other@.map_values(|x: i64| x as int), COMPONENT_BOUND as int),
        ensures
            r@[0] == self@[1] * other@[2] - self@[2] * other@[1],
            r@[1] == self@[2] * other@[0] - self@[0] * other@[2],
            r@[2] == self@[0] * other@[1] - self@[1] * other@[0],
    {
        let ghost sa = self@.map_values(|x: i64| x as int);
        let ghost sb = other@.map_values(|x: i64| x as int);
        proof {
            lemma_cross_term_bounds(sa, sb);
            assert(sa[0] == self@[0] as int && sa[1] == self@[1] as int && sa[2] == self@[2]
                as int);
            assert(sb[0] == other@[0] as int && sb[1] == other@[1] as int && sb[2] == other@[2]
                as int);
            assert((-(COMPONENT_BOUND as int) * (COMPONENT_BOUND as int)) <= sa[1] * sb[2] <= (
            COMPONENT_BOUND as int) * (COMPONENT_BOUND as int));
            assert((-(COMPONENT_BOUND as int) * (COMPONENT_BOUND as int)) <= sa[2] * sb[1] <= (
            COMPONENT_BOUND as int) * (COMPONENT_BOUND as int));
            assert((-(COMPONENT_BOUND as int) * (COMPONENT_BOUND as int)) <= sa[2] * sb[0] <= (
            COMPONENT_BOUND as int) * (COMPONENT_BOUND as int));
            assert((-(COMPONENT_BOUND as int) * (COMPONENT_BOUND as int)) <= sa[0] * sb[2] <= (
            COMPONENT_BOUND as int) * (COMPONENT_BOUND as int));
            assert((-(COMPONENT_BOUND as int) * (COMPONENT_BOUND as int)) <= sa[0] * sb[1] <= (
            COMPONENT_BOUND as int) * (COMPONENT_BOUND as int));
            assert((-(COMPONENT_BOUND as int) * (COMPONENT_BOUND as int)) <= sa[1] * sb[0] <= (
            COMPONENT_BOUND as int) * (COMPONENT_BOUND as int));
        }
        Vector::<i64, 3>::new(
            self.data[1] * other.data[2] - self.data[2] * other.data[1],
            self.data[2] * other.data[0] - self.data[0] * other.data[2],
            self.data[0] * other.data[1] - self.data[1] * other.data[0],
        )
    }
}

proof fn lemma_cross_term_bounds(a: Seq<int>, b: Seq<int>)
    requires
        a.len() == 3,
        b.len() == 3,
        components_bounded(a, COMPONENT_BOUND as int),
        components_bounded(b, COMPONENT_BOUND as int),
    ensures
        forall|i: int, j: int|
            0 <= i < 3 && 0 <= j < 3 ==> (-(COMPONENT_BOUND as int) * (COMPONENT_BOUND as int))
                <= #[trigger] (a[i] * b[j]) <= (COMPONENT_BOUND as int) * (COMPONENT_BOUND as int),
{
    assert forall|i: int, j: int|
        0 <= i < 3 && 0 <= j < 3 implies (-(COMPONENT_BOUND as int) * (COMPONENT_BOUND as int))
        <= #[trigger] (a[i] * b[j]) <= (COMPONENT_BOUND as int) * (COMPONENT_BOUND as int) by {
        assert((-(COMPONENT_BOUND as int) * (COMPONENT_BOUND as int)) <= a[i] * b[j] <= (
        COMPONENT_BOUND as int) * (COMPONENT_BOUND as int)) by (nonlinear_arith)
            requires
                -(COMPONENT_BOUND as int) <= a[i] <= (COMPONENT_BOUND as int),
                -(COMPONENT_BOUND as int) <= b[j] <= (COMPONENT_BOUND as int),
        ;
    }
}

} // verus!
