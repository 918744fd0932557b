use vstd::prelude::*;
use crate::graphics::fixed_point::{abs_spec, magnitude, F16};
use crate::graphics::{cos, cos_spec, fixed12, is_cosine_table, sin, sin_req, sin_spec, Fixed12, Vf, Vi};
use vstd::std_specs::ops::{AddSpecImpl, DivSpecImpl, MulSpec, MulSpecImpl, SubSpecImpl};

verus! {

/// Whether an `int` fits in an `i16`.
pub open spec fn fits_i16(x: int) -> bool {
    i16::MIN <= x <= i16::MAX
}

/// `a / d` rounded toward zero, as integer division on `i16` does.
pub open spec fn trunc_div(a: int, d: int) -> int {
    let q = (if a < 0 {
        -a
    } else {
        a
    }) / (if d < 0 {
        -d
    } else {
        d
    });
    if (a < 0) != (d < 0) {
        -q
    } else {
        q
    }
}

/// `a / d` rounded toward zero.
fn div_trunc(a: i16, d: i16) -> (q: i16)
    requires
        d != 0,
        !(a == i16::MIN && d == -1),
    ensures
        q == trunc_div(a as int, d as int),
{
    let ua: u32 = if a < 0 {
        (-(a as i32)) as u32
    } else {
        a as u32
    };
    let ud: u32 = if d < 0 {
        (-(d as i32)) as u32
    } else {
        d as u32
    };
    let uq = ua / ud;
    proof {
        assert(uq <= ua) by (nonlinear_arith)
            requires
                uq == ua / ud,
                ud >= 1,
        ;
        if ua == 0x8000 && (a < 0) == (d < 0) {
            assert(ud >= 2);
            assert(uq <= 0x4000) by (nonlinear_arith)
                requires
                    uq == ua / ud,
                    ud >= 2,
                    ua == 0x8000,
            ;
        }
    }
    if (a < 0) != (d < 0) {
        -(uq as i32) as i16
    } else {
        uq as i16
    }
}

/// The product of a matrix row with a vector: `m0 * x + m1 * y + m2 * z`,
/// each product as [`F16`] times `i16` computes it.
pub open spec fn row_dot(m0: Fixed12, m1: Fixed12, m2: Fixed12, x: i16, y: i16, z: i16) -> int {
    m0.mul_int(x) + m1.mul_int(y) + m2.mul_int(z)
}

/// A matrix row times a vector can be computed without overflow.
pub open spec fn row_req(m0: Fixed12, m1: Fixed12, m2: Fixed12, x: i16, y: i16, z: i16) -> bool {
    &&& m0.mul_int_req(x)
    &&& m1.mul_int_req(y)
    &&& m2.mul_int_req(z)
    &&& fits_i16(m0.mul_int(x) + m1.mul_int(y))
    &&& fits_i16(row_dot(m0, m1, m2, x, y, z))
}

/// A matrix (row-major, nine entries) applied to a vector.
pub open spec fn apply_spec(v: Vi, m: Seq<Fixed12>) -> Vi {
    Vi(
        row_dot(m[0], m[1], m[2], v.0, v.1, v.2) as i16,
        row_dot(m[3], m[4], m[5], v.0, v.1, v.2) as i16,
        row_dot(m[6], m[7], m[8], v.0, v.1, v.2) as i16,
    )
}

/// A matrix can be applied to a vector without overflow.
pub open spec fn apply_req(v: Vi, m: Seq<Fixed12>) -> bool {
    &&& m.len() == 9
    &&& row_req(m[0], m[1], m[2], v.0, v.1, v.2)
    &&& row_req(m[3], m[4], m[5], v.0, v.1, v.2)
    &&& row_req(m[6], m[7], m[8], v.0, v.1, v.2)
}

/// The bits of one in the 12-bit fraction format.
pub open spec fn one12() -> Fixed12 {
    F16(0x1000)
}

/// The rotation about the x axis by an angle with cosine `c` and sine `s`.
pub open spec fn rot_x(c: Fixed12, s: Fixed12) -> Seq<Fixed12> {
    seq![one12(), F16(0), F16(0), F16(0), c, F16((-s.0) as i16), F16(0), s, c]
}

/// The rotation about the y axis by an angle with cosine `c` and sine `s`.
pub open spec fn rot_y(c: Fixed12, s: Fixed12) -> Seq<Fixed12> {
    seq![c, F16(0), s, F16(0), one12(), F16(0), F16((-s.0) as i16), F16(0), c]
}

/// The rotation about the z axis by an angle with cosine `c` and sine `s`.
pub open spec fn rot_z(c: Fixed12, s: Fixed12) -> Seq<Fixed12> {
    seq![c, F16((-s.0) as i16), F16(0), s, c, F16(0), F16(0), F16(0), one12()]
}

/// `a + b` componentwise.
pub open spec fn vi_add(a: Vi, b: Vi) -> Vi {
    Vi((a.0 + b.0) as i16, (a.1 + b.1) as i16, (a.2 + b.2) as i16)
}

/// `a - b` componentwise.
pub open spec fn vi_sub(a: Vi, b: Vi) -> Vi {
    Vi((a.0 - b.0) as i16, (a.1 - b.1) as i16, (a.2 - b.2) as i16)
}

/// `a + b` fits componentwise.
pub open spec fn vi_add_req(a: Vi, b: Vi) -> bool {
    fits_i16(a.0 + b.0) && fits_i16(a.1 + b.1) && fits_i16(a.2 + b.2)
}

/// `a - b` fits componentwise.
pub open spec fn vi_sub_req(a: Vi, b: Vi) -> bool {
    fits_i16(a.0 - b.0) && fits_i16(a.1 - b.1) && fits_i16(a.2 - b.2)
}

/// Rotating `v` about `center` with matrix `m` can be done without overflow.
pub open spec fn rotate_req(v: Vi, center: Vi, m: Seq<Fixed12>) -> bool {
    &&& vi_sub_req(v, center)
    &&& apply_req(vi_sub(v, center), m)
    &&& vi_add_req(apply_spec(vi_sub(v, center), m), center)
}

/// `v` rotated about `center` with matrix `m`.
pub open spec fn rotate_spec(v: Vi, center: Vi, m: Seq<Fixed12>) -> Vi {
    vi_add(apply_spec(vi_sub(v, center), m), center)
}

/// The integer that the bits of entry `i` of a matrix hold.
pub open spec fn entry(m: Seq<Fixed12>, i: int) -> int {
    m[i].0 as int
}

/// The dot product of rows `i` and `j` of a row-major 3 by 3 matrix, over
/// the entries' bits.
pub open spec fn rows_product(m: Seq<Fixed12>, i: int, j: int) -> int {
    entry(m, 3 * i) * entry(m, 3 * j) + entry(m, 3 * i + 1) * entry(m, 3 * j + 1) + entry(
        m,
        3 * i + 2,
    ) * entry(m, 3 * j + 2)
}

/// The determinant of a row-major 3 by 3 matrix, over the entries' bits.
pub open spec fn det3(m: Seq<Fixed12>) -> int {
    entry(m, 0) * (entry(m, 4) * entry(m, 8) - entry(m, 5) * entry(m, 7)) - entry(m, 1) * (entry(
        m,
        3,
    ) * entry(m, 8) - entry(m, 5) * entry(m, 6)) + entry(m, 2) * (entry(m, 3) * entry(m, 7) - entry(
        m,
        4,
    ) * entry(m, 6))
}

/// A row-major 3 by 3 matrix turns space without mirroring it, its length
/// scale being `k`: its rows are pairwise orthogonal and its determinant is
/// one (`0x1000`) times `k`.
pub open spec fn turns_space(m: Seq<Fixed12>, k: int) -> bool {
    &&& m.len() == 9
    &&& rows_product(m, 0, 1) == 0
    &&& rows_product(m, 0, 2) == 0
    &&& rows_product(m, 1, 2) == 0
    &&& det3(m) == 0x1000 * k
}

/// The matrices of the rotations about the three axes are rotations: they
/// turn space without mirroring it, with scale `c^2 + s^2`, the rows other
/// than the axis's being that long, and the axis's row being one.
pub proof fn lemma_rotation_matrices(c: Fixed12, s: Fixed12)
    requires
        s.0 != i16::MIN,
    ensures
        turns_space(rot_x(c, s), c.0 * c.0 + s.0 * s.0),
        turns_space(rot_y(c, s), c.0 * c.0 + s.0 * s.0),
        turns_space(rot_z(c, s), c.0 * c.0 + s.0 * s.0),
        rows_product(rot_x(c, s), 0, 0) == 0x1000 * 0x1000,
        rows_product(rot_x(c, s), 1, 1) == c.0 * c.0 + s.0 * s.0,
        rows_product(rot_x(c, s), 2, 2) == c.0 * c.0 + s.0 * s.0,
        rows_product(rot_y(c, s), 0, 0) == c.0 * c.0 + s.0 * s.0,
        rows_product(rot_y(c, s), 1, 1) == 0x1000 * 0x1000,
        rows_product(rot_y(c, s), 2, 2) == c.0 * c.0 + s.0 * s.0,
        rows_product(rot_z(c, s), 0, 0) == c.0 * c.0 + s.0 * s.0,
        rows_product(rot_z(c, s), 1, 1) == c.0 * c.0 + s.0 * s.0,
        rows_product(rot_z(c, s), 2, 2) == 0x1000 * 0x1000,
{
    let (a, b) = (c.0 as int, s.0 as int);
    let n = F16::<12>((-s.0) as i16);
    assert(n.0 == -b);
    let (x, y, z) = (rot_x(c, s), rot_y(c, s), rot_z(c, s));
    assert(x == seq![one12(), F16(0), F16(0), F16(0), c, n, F16(0), s, c]);
    assert(y == seq![c, F16(0), s, F16(0), one12(), F16(0), n, F16(0), c]);
    assert(z == seq![c, n, F16(0), s, c, F16(0), F16(0), F16(0), one12()]);
    let (x0, x1, x2, x3, x4) = (entry(x, 0), entry(x, 1), entry(x, 2), entry(x, 3), entry(x, 4));
    let (x5, x6, x7, x8) = (entry(x, 5), entry(x, 6), entry(x, 7), entry(x, 8));
    assert((x0 * x3 + x1 * x4 + x2 * x5 == 0) && (x0 * x6 + x1 * x7 + x2 * x8 == 0) && (x3 * x6 + x4 * x7 + x5 * x8 == 0) && (x0 * (x4 * x8 - x5 * x7) - x1 * (x3 * x8 - x5 * x6) + x2 * (x3 * x7 - x4 * x6) == 0x1000 * (a * a + b * b)) && (x0 * x0 + x1 * x1 + x2 * x2 == 0x1000 * 0x1000) && (x3 * x3 + x4 * x4 + x5 * x5 == a * a + b * b) && (x6 * x6 + x7 * x7 + x8 * x8 == a * a + b * b)) by (nonlinear_arith)
        requires
            x0 == 0x1000,
            x1 == 0,
            x2 == 0,
            x3 == 0,
            x4 == a,
            x5 == -b,
            x6 == 0,
            x7 == b,
            x8 == a,
    ;
    let (y0, y1, y2, y3, y4) = (entry(y, 0), entry(y, 1), entry(y, 2), entry(y, 3), entry(y, 4));
    let (y5, y6, y7, y8) = (entry(y, 5), entry(y, 6), entry(y, 7), entry(y, 8));
    assert((y0 * y3 + y1 * y4 + y2 * y5 == 0) && (y0 * y6 + y1 * y7 + y2 * y8 == 0) && (y3 * y6 + y4 * y7 + y5 * y8 == 0) && (y0 * (y4 * y8 - y5 * y7) - y1 * (y3 * y8 - y5 * y6) + y2 * (y3 * y7 - y4 * y6) == 0x1000 * (a * a + b * b)) && (y0 * y0 + y1 * y1 + y2 * y2 == a * a + b * b) && (y3 * y3 + y4 * y4 + y5 * y5 == 0x1000 * 0x1000) && (y6 * y6 + y7 * y7 + y8 * y8 == a * a + b * b)) by (nonlinear_arith)
        requires
            y0 == a,
            y1 == 0,
            y2 == b,
            y3 == 0,
            y4 == 0x1000,
            y5 == 0,
            y6 == -b,
            y7 == 0,
            y8 == a,
    ;
    let (z0, z1, z2, z3, z4) = (entry(z, 0), entry(z, 1), entry(z, 2), entry(z, 3), entry(z, 4));
    let (z5, z6, z7, z8) = (entry(z, 5), entry(z, 6), entry(z, 7), entry(z, 8));
    assert((z0 * z3 + z1 * z4 + z2 * z5 == 0) && (z0 * z6 + z1 * z7 + z2 * z8 == 0) && (z3 * z6 + z4 * z7 + z5 * z8 == 0) && (z0 * (z4 * z8 - z5 * z7) - z1 * (z3 * z8 - z5 * z6) + z2 * (z3 * z7 - z4 * z6) == 0x1000 * (a * a + b * b)) && (z0 * z0 + z1 * z1 + z2 * z2 == a * a + b * b) && (z3 * z3 + z4 * z4 + z5 * z5 == a * a + b * b) && (z6 * z6 + z7 * z7 + z8 * z8 == 0x1000 * 0x1000)) by (nonlinear_arith)
        requires
            z0 == a,
            z1 == -b,
            z2 == 0,
            z3 == b,
            z4 == a,
            z5 == 0,
            z6 == 0,
            z7 == 0,
            z8 == 0x1000,
    ;
}

/// A fixed-point one, zero or minus one times an integer is the integer,
/// zero or its negation.
proof fn lemma_unit_products(x: i16)
    requires
        x != i16::MIN,
    ensures
        F16::<12>(0x1000).mul_int_req(x),
        F16::<12>(0x1000).mul_int(x) == x,
        F16::<12>(0).mul_int_req(x),
        F16::<12>(0).mul_int(x) == 0,
        F16::<12>(-0x1000i16).mul_int_req(x),
        F16::<12>(-0x1000i16).mul_int(x) == -x,
{
    vstd::arithmetic::power2::lemma2_to64();
    let m = magnitude(x);
    assert((0x1000 * m) / 4096 == m) by (nonlinear_arith);
    assert((0 * m) / 4096 == 0) by (nonlinear_arith);
}

/// A quarter turn, the angle with cosine zero and sine one, turns each axis
/// into the next: about x, y goes to z; about y, z goes to x; about z, x
/// goes to y.
pub proof fn lemma_quarter_turns(v: Vi)
    requires
        v.0 != i16::MIN,
        v.1 != i16::MIN,
        v.2 != i16::MIN,
    ensures
        ({
            let (c, s, o) = (F16::<12>(0), F16::<12>(0x1000), Vi(0, 0, 0));
            &&& rotate_req(v, o, rot_x(c, s))
            &&& rotate_spec(v, o, rot_x(c, s)) == Vi(v.0, (-v.2) as i16, v.1)
            &&& rotate_req(v, o, rot_y(c, s))
            &&& rotate_spec(v, o, rot_y(c, s)) == Vi(v.2, v.1, (-v.0) as i16)
            &&& rotate_req(v, o, rot_z(c, s))
            &&& rotate_spec(v, o, rot_z(c, s)) == Vi((-v.1) as i16, v.0, v.2)
        }),
{
    lemma_unit_products(v.0);
    lemma_unit_products(v.1);
    lemma_unit_products(v.2);
    let o = Vi(0, 0, 0);
    assert(vi_sub(v, o) == v);
}

/// Any fixed-point number times zero is zero.
proof fn lemma_times_zero(f: Fixed12)
    ensures
        f.mul_int_req(0),
        f.mul_int(0) == 0,
{
    vstd::arithmetic::power2::lemma2_to64();
    let m = magnitude(f.0);
    assert((m * 0) / 4096 == 0) by (nonlinear_arith);
}

/// A rotation about a center leaves the center where it is, whatever the
/// matrix.
pub proof fn lemma_center_stays(center: Vi, m: Seq<Fixed12>)
    requires
        m.len() == 9,
    ensures
        rotate_req(center, center, m),
        rotate_spec(center, center, m) == center,
{
    assert forall|i: int| 0 <= i < 9 implies (#[trigger] m[i]).mul_int_req(0) && m[i].mul_int(0)
        == 0 by {
        lemma_times_zero(m[i]);
    }
    assert(vi_sub(center, center) == Vi(0, 0, 0));
}

/// Adding vectors does not depend on the order, and subtracting what was
/// added gives back the first vector.
pub proof fn lemma_vi_add_sub(a: Vi, b: Vi)
    requires
        vi_add_req(a, b),
    ensures
        vi_add(a, b) == vi_add(b, a),
        vi_sub_req(vi_add(a, b), b),
        vi_sub(vi_add(a, b), b) == a,
{
}

/// The identity matrix, ones on its diagonal, leaves every vector as it is.
pub proof fn lemma_identity_matrix(v: Vi)
    requires
        v.0 != i16::MIN,
        v.1 != i16::MIN,
        v.2 != i16::MIN,
    ensures
        ({
            let (o, z) = (one12(), F16::<12>(0));
            let m = seq![o, z, z, z, o, z, z, z, o];
            apply_req(v, m) && apply_spec(v, m) == v
        }),
{
    lemma_unit_products(v.0);
    lemma_unit_products(v.1);
    lemma_unit_products(v.2);
}

fn dot(m0: Fixed12, m1: Fixed12, m2: Fixed12, x: i16, y: i16, z: i16) -> (r: i16)
    requires
        row_req(m0, m1, m2, x, y, z),
    ensures
        r == row_dot(m0, m1, m2, x, y, z),
{
    (m0 * x) + (m1 * y) + (m2 * z)
}

impl Vi {
    /// Multiplies a row-major 3x3 fixed point matrix by this vector.
    pub fn apply_matrix(self, matrix: [Fixed12; 9]) -> (r: Self)
        requires
            apply_req(self, matrix@),
        ensures
            r == apply_spec(self, matrix@),
    {
        let Vi(x, y, z) = self;
        let a = dot(matrix[0], matrix[1], matrix[2], x, y, z);
        let b = dot(matrix[3], matrix[4], matrix[5], x, y, z);
        let c = dot(matrix[6], matrix[7], matrix[8], x, y, z);
        Vi(a, b, c)
    }

    /// Rotates this vector about `center` by `theta` around the x axis.
    pub fn rotate_x(self, theta: Fixed12, center: Self, table: &[i16]) -> (r: Self)
        requires
            is_cosine_table(table@),
            sin_req(theta),
            sin_spec(theta, table@).0 != i16::MIN,
            rotate_req(self, center, rot_x(cos_spec(theta, table@), sin_spec(theta, table@))),
        ensures
            r == rotate_spec(self, center, rot_x(cos_spec(theta, table@), sin_spec(theta, table@))),
    {
        let diff = self - center;
        let c = cos(theta, table);
        let s = sin(theta, table);
        let m = [
            fixed12(0x1000),
            fixed12(0),
            fixed12(0),
            fixed12(0),
            c,
            core::ops::Neg::neg(s),
            fixed12(0),
            s,
            c,
        ];
        assert(m@ =~= rot_x(c, s));
        diff.apply_matrix(m) + center
    }

    /// Rotates this vector about `center` by `theta` around the y axis.
    pub fn rotate_y(self, theta: Fixed12, center: Self, table: &[i16]) -> (r: Self)
        requires
            is_cosine_table(table@),
            sin_req(theta),
            sin_spec(theta, table@).0 != i16::MIN,
            rotate_req(self, center, rot_y(cos_spec(theta, table@), sin_spec(theta, table@))),
        ensures
            r == rotate_spec(self, center, rot_y(cos_spec(theta, table@), sin_spec(theta, table@))),
    {
        let diff = self - center;
        let c = cos(theta, table);
        let s = sin(theta, table);
        let m = [
            c,
            fixed12(0),
            s,
            fixed12(0),
            fixed12(0x1000),
            fixed12(0),
            core::ops::Neg::neg(s),
            fixed12(0),
            c,
        ];
        assert(m@ =~= rot_y(c, s));
        diff.apply_matrix(m) + center
    }

    /// Rotates this vector about `center` by `theta` around the z axis.
    pub fn rotate_z(self, theta: Fixed12, center: Self, table: &[i16]) -> (r: Self)
        requires
            is_cosine_table(table@),
            sin_req(theta),
            sin_spec(theta, table@).0 != i16::MIN,
            rotate_req(self, center, rot_z(cos_spec(theta, table@), sin_spec(theta, table@))),
        ensures
            r == rotate_spec(self, center, rot_z(cos_spec(theta, table@), sin_spec(theta, table@))),
    {
        let diff = self - center;
        let c = cos(theta, table);
        let s = sin(theta, table);
        let m = [
            c,
            core::ops::Neg::neg(s),
            fixed12(0),
            s,
            c,
            fixed12(0),
            fixed12(0),
            fixed12(0),
            fixed12(0x1000),
        ];
        assert(m@ =~= rot_z(c, s));
        diff.apply_matrix(m) + center
    }
}

impl core::ops::Add<Vi> for Vi {
    type Output = Self;

    fn add(self, rhs: Self) -> (r: Self) {
        Vi(self.0 + rhs.0, self.1 + rhs.1, self.2 + rhs.2)
    }
}

impl AddSpecImpl<Vi> for Vi {
    open spec fn obeys_add_spec() -> bool {
        true
    }

    open spec fn add_req(self, rhs: Vi) -> bool {
        vi_add_req(self, rhs)
    }

    open spec fn add_spec(self, rhs: Vi) -> Vi {
        vi_add(self, rhs)
    }
}

impl core::ops::Sub<Vi> for Vi {
    type Output = Self;

    fn sub(self, rhs: Self) -> (r: Self) {
        Vi(self.0 - rhs.0, self.1 - rhs.1, self.2 - rhs.2)
    }
}

impl SubSpecImpl<Vi> for Vi {
    open spec fn obeys_sub_spec() -> bool {
        true
    }

    open spec fn sub_req(self, rhs: Vi) -> bool {
        vi_sub_req(self, rhs)
    }

    open spec fn sub_spec(self, rhs: Vi) -> Vi {
        vi_sub(self, rhs)
    }
}

impl core::ops::Mul<i16> for Vi {
    type Output = Vi;

    fn mul(self, rhs: i16) -> (r: Vi) {
        Vi(self.0 * rhs, self.1 * rhs, self.2 * rhs)
    }
}

impl MulSpecImpl<i16> for Vi {
    open spec fn obeys_mul_spec() -> bool {
        true
    }

    open spec fn mul_req(self, rhs: i16) -> bool {
        fits_i16(self.0 * rhs) && fits_i16(self.1 * rhs) && fits_i16(self.2 * rhs)
    }

    open spec fn mul_spec(self, rhs: i16) -> Vi {
        Vi((self.0 * rhs) as i16, (self.1 * rhs) as i16, (self.2 * rhs) as i16)
    }
}

impl core::ops::Mul<Vi> for i16 {
    type Output = Vi;

    fn mul(self, rhs: Vi) -> (r: Vi) {
        <Vi as core::ops::Mul<i16>>::mul(rhs, self)
    }
}

impl MulSpecImpl<Vi> for i16 {
    open spec fn obeys_mul_spec() -> bool {
        true
    }

    open spec fn mul_req(self, rhs: Vi) -> bool {
        <Vi as MulSpec<i16>>::mul_req(rhs, self)
    }

    open spec fn mul_spec(self, rhs: Vi) -> Vi {
        <Vi as MulSpec<i16>>::mul_spec(rhs, self)
    }
}

/// A component can be divided by `den`: `den` is not zero and the quotient
/// fits.
pub open spec fn div_ok(a: i16, den: i16) -> bool {
    den != 0 && !(a == i16::MIN && den == -1)
}

impl core::ops::Div<i16> for Vi {
    type Output = Vi;

    fn div(self, den: i16) -> (r: Vi) {
        Vi(div_trunc(self.0, den), div_trunc(self.1, den), div_trunc(self.2, den))
    }
}

impl DivSpecImpl<i16> for Vi {
    open spec fn obeys_div_spec() -> bool {
        true
    }

    open spec fn div_req(self, den: i16) -> bool {
        div_ok(self.0, den) && div_ok(self.1, den) && div_ok(self.2, den)
    }

    open spec fn div_spec(self, den: i16) -> Vi {
        Vi(
            trunc_div(self.0 as int, den as int) as i16,
            trunc_div(self.1 as int, den as int) as i16,
            trunc_div(self.2 as int, den as int) as i16,
        )
    }
}

/// The raw bits of `a + b` componentwise.
pub open spec fn vf_add(a: Vf, b: Vf) -> Vf {
    Vf(F16((a.0.0 + b.0.0) as i16), F16((a.1.0 + b.1.0) as i16), F16((a.2.0 + b.2.0) as i16))
}

/// The raw bits of `a - b` componentwise.
pub open spec fn vf_sub(a: Vf, b: Vf) -> Vf {
    Vf(F16((a.0.0 - b.0.0) as i16), F16((a.1.0 - b.1.0) as i16), F16((a.2.0 - b.2.0) as i16))
}

/// A fixed point vector read as raw bits.
pub open spec fn vf_bits(v: Vf) -> Vi {
    Vi(v.0.0, v.1.0, v.2.0)
}

/// The fixed point vector with raw bits `v`.
pub open spec fn vf_of_bits(v: Vi) -> Vf {
    Vf(F16(v.0), F16(v.1), F16(v.2))
}

impl Vf {
    /// Multiplies a row-major 3x3 fixed point matrix by this vector's raw
    /// bits; each product is fixed point times integer, and the sums become
    /// the raw bits of the result.
    pub fn apply_matrix(self, matrix: [Fixed12; 9]) -> (r: Self)
        requires
            apply_req(vf_bits(self), matrix@),
        ensures
            r == vf_of_bits(apply_spec(vf_bits(self), matrix@)),
    {
        let Vf(x, y, z) = self;
        let a = dot(matrix[0], matrix[1], matrix[2], x.0, y.0, z.0);
        let b = dot(matrix[3], matrix[4], matrix[5], x.0, y.0, z.0);
        let c = dot(matrix[6], matrix[7], matrix[8], x.0, y.0, z.0);
        Vf(fixed12(a), fixed12(b), fixed12(c))
    }

    /// Rotates this vector about `center` by `theta` around the x axis.
    pub fn rotate_x(self, theta: Fixed12, center: Self, table: &[i16]) -> (r: Self)
        requires
            is_cosine_table(table@),
            sin_req(theta),
            sin_spec(theta, table@).0 != i16::MIN,
            rotate_req(
                vf_bits(self),
                vf_bits(center),
                rot_x(cos_spec(theta, table@), sin_spec(theta, table@)),
            ),
        ensures
            r == vf_of_bits(
                rotate_spec(
                    vf_bits(self),
                    vf_bits(center),
                    rot_x(cos_spec(theta, table@), sin_spec(theta, table@)),
                ),
            ),
    {
        let diff = self - center;
        let c = cos(theta, table);
        let s = sin(theta, table);
        let m = [
            fixed12(0x1000),
            fixed12(0),
            fixed12(0),
            fixed12(0),
            c,
            core::ops::Neg::neg(s),
            fixed12(0),
            s,
            c,
        ];
        assert(m@ =~= rot_x(c, s));
        diff.apply_matrix(m) + center
    }

    /// Rotates this vector about `center` by `theta` around the y axis.
    pub fn rotate_y(self, theta: Fixed12, center: Self, table: &[i16]) -> (r: Self)
        requires
            is_cosine_table(table@),
            sin_req(theta),
            sin_spec(theta, table@).0 != i16::MIN,
            rotate_req(
                vf_bits(self),
                vf_bits(center),
                rot_y(cos_spec(theta, table@), sin_spec(theta, table@)),
            ),
        ensures
            r == vf_of_bits(
                rotate_spec(
                    vf_bits(self),
                    vf_bits(center),
                    rot_y(cos_spec(theta, table@), sin_spec(theta, table@)),
                ),
            ),
    {
        let diff = self - center;
        let c = cos(theta, table);
        let s = sin(theta, table);
        let m = [
            c,
            fixed12(0),
            s,
            fixed12(0),
            fixed12(0x1000),
            fixed12(0),
            core::ops::Neg::neg(s),
            fixed12(0),
            c,
        ];
        assert(m@ =~= rot_y(c, s));
        diff.apply_matrix(m) + center
    }

    /// Rotates this vector about `center` by `theta` around the z axis.
    pub fn rotate_z(self, theta: Fixed12, center: Self, table: &[i16]) -> (r: Self)
        requires
            is_cosine_table(table@),
            sin_req(theta),
            sin_spec(theta, table@).0 != i16::MIN,
            rotate_req(
                vf_bits(self),
                vf_bits(center),
                rot_z(cos_spec(theta, table@), sin_spec(theta, table@)),
            ),
        ensures
            r == vf_of_bits(
                rotate_spec(
                    vf_bits(self),
                    vf_bits(center),
                    rot_z(cos_spec(theta, table@), sin_spec(theta, table@)),
                ),
            ),
    {
        let diff = self - center;
        let c = cos(theta, table);
        let s = sin(theta, table);
        let m = [
            c,
            core::ops::Neg::neg(s),
            fixed12(0),
            s,
            c,
            fixed12(0),
            fixed12(0),
            fixed12(0),
            fixed12(0x1000),
        ];
        assert(m@ =~= rot_z(c, s));
        diff.apply_matrix(m) + center
    }
}

impl core::ops::Add<Vf> for Vf {
    type Output = Self;

    fn add(self, rhs: Self) -> (r: Self) {
        Vf(self.0 + rhs.0, self.1 + rhs.1, self.2 + rhs.2)
    }
}

impl AddSpecImpl<Vf> for Vf {
    open spec fn obeys_add_spec() -> bool {
        true
    }

    open spec fn add_req(self, rhs: Vf) -> bool {
        vi_add_req(vf_bits(self), vf_bits(rhs))
    }

    open spec fn add_spec(self, rhs: Vf) -> Vf {
        vf_add(self, rhs)
    }
}

impl core::ops::Sub<Vf> for Vf {
    type Output = Self;

    fn sub(self, rhs: Self) -> (r: Self) {
        Vf(self.0 - rhs.0, self.1 - rhs.1, self.2 - rhs.2)
    }
}

impl SubSpecImpl<Vf> for Vf {
    open spec fn obeys_sub_spec() -> bool {
        true
    }

    open spec fn sub_req(self, rhs: Vf) -> bool {
        vi_sub_req(vf_bits(self), vf_bits(rhs))
    }

    open spec fn sub_spec(self, rhs: Vf) -> Vf {
        vf_sub(self, rhs)
    }
}

} // verus!
