//! The orthographic projection that turns logical pixel coordinates into clip
//! coordinates, kept exact: every entry is a fraction over one common
//! denominator.
use vstd::prelude::*;

verus! {

/// A 4×4 matrix in column-major order: entry (column `c`, row `r`) is
/// `cols[c][r] / den`.
#[derive(Clone, Copy, Debug, PartialEq, Eq)]
pub struct Mat4 {
    pub cols: [[i128; 4]; 4],
    pub den: i128,
}

/// Entry (column `c`, row `r`) of the numerator matrix.
pub open spec fn entry(m: Mat4, c: int, r: int) -> int {
    m.cols[c][r] as int
}

/// Column `c` of the numerator matrix.
pub open spec fn column(m: Mat4, c: int) -> Seq<int> {
    seq![entry(m, c, 0), entry(m, c, 1), entry(m, c, 2), entry(m, c, 3)]
}

/// The determinant of a 3×3 matrix given by its rows.
pub open spec fn det3(
    a: int, b: int, c: int,
    d: int, e: int, f: int,
    g: int, h: int, i: int,
) -> int {
    a * (e * i - f * h) - b * (d * i - f * g) + c * (d * h - e * g)
}

/// The determinant of the numerator matrix, by expansion along its first column.
/// Row `r` of the matrix is made of the entries `entry(m, c, r)`.
pub open spec fn det4(m: Mat4) -> int {
    entry(m, 0, 0) * det3(
        entry(m, 1, 1), entry(m, 2, 1), entry(m, 3, 1),
        entry(m, 1, 2), entry(m, 2, 2), entry(m, 3, 2),
        entry(m, 1, 3), entry(m, 2, 3), entry(m, 3, 3),
    ) - entry(m, 0, 1) * det3(
        entry(m, 1, 0), entry(m, 2, 0), entry(m, 3, 0),
        entry(m, 1, 2), entry(m, 2, 2), entry(m, 3, 2),
        entry(m, 1, 3), entry(m, 2, 3), entry(m, 3, 3),
    ) + entry(m, 0, 2) * det3(
        entry(m, 1, 0), entry(m, 2, 0), entry(m, 3, 0),
        entry(m, 1, 1), entry(m, 2, 1), entry(m, 3, 1),
        entry(m, 1, 3), entry(m, 2, 3), entry(m, 3, 3),
    ) - entry(m, 0, 3) * det3(
        entry(m, 1, 0), entry(m, 2, 0), entry(m, 3, 0),
        entry(m, 1, 1), entry(m, 2, 1), entry(m, 3, 1),
        entry(m, 1, 2), entry(m, 2, 2), entry(m, 3, 2),
    )
}

/// The matrix has defined entries and an inverse.
pub open spec fn invertible(m: Mat4) -> bool {
    m.den != 0 && det4(m) != 0
}

/// Row `r` of the matrix applied to the point `(x, y, 0, 1)`, times `den`.
pub open spec fn apply_row(m: Mat4, r: int, x: int, y: int) -> int {
    entry(m, 0, r) * x + entry(m, 1, r) * y + entry(m, 3, r)
}

/// The matrix sends the point `(x, y)` to the clip coordinates `(cx, cy)`, once
/// divided by the homogeneous coordinate.
pub open spec fn maps_point(m: Mat4, x: int, y: int, cx: int, cy: int) -> bool {
    let w = apply_row(m, 3, x, y);
    &&& w != 0
    &&& apply_row(m, 0, x, y) == cx * w
    &&& apply_row(m, 1, x, y) == cy * w
}

/// The arguments of `Mat4::projection` whose entries fit the matrix.
pub open spec fn projection_fits(left: int, right: int, top: int, bottom: int) -> bool {
    let w = right - left;
    let h = top - bottom;
    &&& i128::MIN <= w * h <= i128::MAX
    &&& i128::MIN <= 2 * w <= i128::MAX
    &&& i128::MIN <= 2 * h <= i128::MAX
    &&& i128::MIN <= -(right + left) * h <= i128::MAX
    &&& i128::MIN <= -(top + bottom) * w <= i128::MAX
}

/// The projection matrix of `[left, right] × [bottom, top]`, over the common
/// denominator `(right-left)·(top-bottom)`.
pub open spec fn ortho(left: int, right: int, top: int, bottom: int) -> Mat4 {
    let w = right - left;
    let h = top - bottom;
    let den = (w * h) as i128;
    Mat4 {
        cols: [
            [(2 * h) as i128, 0i128, 0i128, 0i128],
            [0i128, (2 * w) as i128, 0i128, 0i128],
            [0i128, 0i128, den, 0i128],
            [(-(right + left) * h) as i128, (-(top + bottom) * w) as i128, 0i128, den],
        ],
        den,
    }
}

/// The projection of a drawable region `w` wide and `h` high, built as
/// `projection(0, w, 0, h)`, sends x = 0 to -1 and x = w to 1; on the y axis it
/// sends 0, its `top`, to 1 and h, its `bottom`, to -1. It is invertible exactly
/// when neither side is zero.
pub proof fn projection_of_drawable(w: i64, h: i64)
    requires
        projection_fits(0, w as int, 0, h as int),
    ensures
        (w != 0 && h != 0) ==> maps_point(ortho(0, w as int, 0, h as int), 0, 0, -1, 1),
        (w != 0 && h != 0) ==> maps_point(ortho(0, w as int, 0, h as int), w as int, h as int, 1, -1),
        invertible(ortho(0, w as int, 0, h as int)) <==> (w != 0 && h != 0),
{
    let m = ortho(0, w as int, 0, h as int);
    let wi = w as int;
    let hi = -(h as int);
    let den = wi * hi;
    assert(m.den == den);
    assert(entry(m, 0, 0) == 2 * hi);
    assert(entry(m, 1, 1) == 2 * wi);
    assert(entry(m, 2, 2) == den);
    assert(entry(m, 3, 3) == den);
    assert(entry(m, 3, 0) == -wi * hi);
    assert(entry(m, 3, 1) == -(h as int) * wi);
    assert(entry(m, 1, 0) == 0 && entry(m, 2, 0) == 0 && entry(m, 0, 1) == 0);
    assert(entry(m, 2, 1) == 0 && entry(m, 0, 2) == 0 && entry(m, 1, 2) == 0);
    assert(entry(m, 3, 2) == 0 && entry(m, 0, 3) == 0 && entry(m, 1, 3) == 0);
    assert(entry(m, 2, 3) == 0);
    let minor = det3(2 * wi, 0, entry(m, 3, 1), 0, den, 0, 0, 0, den);
    assert(minor == 2 * wi * (den * den)) by (nonlinear_arith)
        requires
            minor == det3(2 * wi, 0, entry(m, 3, 1), 0, den, 0, 0, 0, den),
    ;
    assert(det4(m) == entry(m, 0, 0) * minor);
    assert(det4(m) == 2 * hi * minor);
    if w != 0 && h != 0 {
        assert(den != 0) by (nonlinear_arith)
            requires
                wi != 0,
                hi != 0,
                den == wi * hi,
        ;
        assert(det4(m) != 0) by (nonlinear_arith)
            requires
                wi != 0,
                hi != 0,
                den != 0,
                det4(m) == 2 * hi * minor,
                minor == 2 * wi * (den * den),
        ;
        assert(apply_row(m, 3, 0, 0) == den);
        assert(apply_row(m, 0, 0, 0) == -1 * den) by (nonlinear_arith)
            requires
                apply_row(m, 0, 0, 0) == (2 * hi) * 0 + 0 * 0 + -wi * hi,
                den == wi * hi,
        ;
        assert(apply_row(m, 1, 0, 0) == 1 * den) by (nonlinear_arith)
            requires
                apply_row(m, 1, 0, 0) == 0 * 0 + (2 * wi) * 0 + -(h as int) * wi,
                den == wi * hi,
                hi == -(h as int),
        ;
        assert(apply_row(m, 3, wi, h as int) == den);
        assert(apply_row(m, 0, wi, h as int) == 1 * den) by (nonlinear_arith)
            requires
                apply_row(m, 0, wi, h as int) == (2 * hi) * wi + 0 * (h as int) + -wi * hi,
                den == wi * hi,
        ;
        assert(apply_row(m, 1, wi, h as int) == -1 * den) by (nonlinear_arith)
            requires
                apply_row(m, 1, wi, h as int) == 0 * wi + (2 * wi) * (h as int) + -(h as int) * wi,
                den == wi * hi,
                hi == -(h as int),
        ;
    } else {
        assert(den == 0) by (nonlinear_arith)
            requires
                wi == 0 || hi == 0,
                den == wi * hi,
        ;
    }
}

/// The projection of `[left, right] × [bottom, top]` sends the corner
/// `(left, bottom)` to `(-1, -1)` and the corner `(right, top)` to `(1, 1)`.
pub proof fn projection_maps_region_corners(left: i64, right: i64, top: i64, bottom: i64)
    requires
        projection_fits(left as int, right as int, top as int, bottom as int),
        left != right,
        top != bottom,
    ensures
        maps_point(ortho(left as int, right as int, top as int, bottom as int), left as int, bottom as int, -1, -1),
        maps_point(ortho(left as int, right as int, top as int, bottom as int), right as int, top as int, 1, 1),
{
    let (l, r, t, b) = (left as int, right as int, top as int, bottom as int);
    let m = ortho(l, r, t, b);
    let w = r - l;
    let h = t - b;
    let den = w * h;
    assert(entry(m, 0, 0) == 2 * h);
    assert(entry(m, 1, 0) == 0 && entry(m, 0, 1) == 0 && entry(m, 0, 3) == 0 && entry(m, 1, 3) == 0);
    assert(entry(m, 1, 1) == 2 * w);
    assert(entry(m, 3, 0) == -(r + l) * h);
    assert(entry(m, 3, 1) == -(t + b) * w);
    assert(entry(m, 3, 3) == den);
    assert(den != 0) by (nonlinear_arith)
        requires
            w != 0,
            h != 0,
            den == w * h,
    ;
    assert(apply_row(m, 3, l, b) == den);
    assert(apply_row(m, 3, r, t) == den);
    assert(apply_row(m, 0, l, b) == -1 * den) by (nonlinear_arith)
        requires
            apply_row(m, 0, l, b) == (2 * h) * l + 0 * b + -(r + l) * h,
            den == w * h,
            w == r - l,
    ;
    assert(apply_row(m, 1, l, b) == -1 * den) by (nonlinear_arith)
        requires
            apply_row(m, 1, l, b) == 0 * l + (2 * w) * b + -(t + b) * w,
            den == w * h,
            h == t - b,
    ;
    assert(apply_row(m, 0, r, t) == 1 * den) by (nonlinear_arith)
        requires
            apply_row(m, 0, r, t) == (2 * h) * r + 0 * t + -(r + l) * h,
            den == w * h,
            w == r - l,
    ;
    assert(apply_row(m, 1, r, t) == 1 * den) by (nonlinear_arith)
        requires
            apply_row(m, 1, r, t) == 0 * r + (2 * w) * t + -(t + b) * w,
            den == w * h,
            h == t - b,
    ;
}

impl Mat4 {
    /// The orthographic projection of `[left, right] × [bottom, top]` onto
    /// `[-1, 1]²`, z passed through:
    /// `sx = 2/(right-left)`, `sy = 2/(top-bottom)`,
    /// `tx = -(right+left)/(right-left)`, `ty = -(top+bottom)/(top-bottom)`,
    /// held over the common denominator `(right-left)·(top-bottom)`.
    pub fn projection(left: i64, right: i64, top: i64, bottom: i64) -> (m: Mat4)
        requires
            projection_fits(left as int, right as int, top as int, bottom as int),
        ensures
            m == ortho(left as int, right as int, top as int, bottom as int),
            m.den == (right - left) * (top - bottom),
            column(m, 0) == seq![2 * (top - bottom), 0, 0, 0],
            column(m, 1) == seq![0, 2 * (right - left), 0, 0],
            column(m, 2) == seq![0, 0, m.den as int, 0],
            column(m, 3) == seq![-(right + left) * (top - bottom), -(top + bottom) * (right - left), 0, m.den as int],
    {
        let w: i128 = right as i128 - left as i128;
        let h: i128 = top as i128 - bottom as i128;
        let den: i128 = w * h;
        let tx: i128 = -(right as i128 + left as i128) * h;
        let ty: i128 = -(top as i128 + bottom as i128) * w;
        let m = Mat4 {
            cols: [[2 * h, 0, 0, 0], [0, 2 * w, 0, 0], [0, 0, den, 0], [tx, ty, 0, den]],
            den,
        };
        assert(column(m, 0) =~= seq![2 * (top - bottom), 0, 0, 0]);
        assert(column(m, 1) =~= seq![0, 2 * (right - left), 0, 0]);
        assert(column(m, 2) =~= seq![0, 0, m.den as int, 0]);
        assert(column(m, 3) =~= seq![-(right + left) * (top - bottom), -(top + bottom) * (right - left), 0, m.den as int]);
        m
    }
}

} // verus!
