use vstd::prelude::*;

verus! {

/// Quotient of `a` by `b`, rounded toward zero, as Rust's integer `/` does.
pub open spec fn trunc_div(a: int, b: int) -> int {
    if a >= 0 {
        if b > 0 {
            a / b
        } else {
            -(a / (-b))
        }
    } else {
        if b > 0 {
            -((-a) / b)
        } else {
            (-a) / (-b)
        }
    }
}

/// Remainder that goes with `trunc_div`, as Rust's integer `%` does.
pub open spec fn trunc_rem(a: int, b: int) -> int {
    a - b * trunc_div(a, b)
}

/// The larger of two integers.
pub open spec fn max_int(a: int, b: int) -> int {
    if a < b {
        b
    } else {
        a
    }
}

/// The smaller of two integers.
pub open spec fn min_int(a: int, b: int) -> int {
    if a < b {
        a
    } else {
        b
    }
}

/// `v` moved into the closed range `[lo, hi]`.
pub open spec fn clamp_int(v: int, lo: int, hi: int) -> int {
    if v < lo {
        lo
    } else if v > hi {
        hi
    } else {
        v
    }
}

/// A fixed-width integer type that the shapes can be made of.
///
/// Each value stands for the mathematical integer `val()`, which lies in
/// `[min_val(), max_val()]`; every such range lies within the range of `i64`
/// and `u64` together, and holds `0..=255`, so that the arithmetic below can be
/// carried out in `i128` without overflow.
pub trait Num: Copy + Sized {
    spec fn val(self) -> int;

    spec fn min_val() -> int;

    spec fn max_val() -> int;

    /// The value that stands for `v`, where `v` is in range.
    spec fn from_val(v: int) -> Self;

    proof fn lemma_val(x: Self)
        ensures
            Self::min_val() <= x.val() <= Self::max_val(),
            Self::from_val(x.val()) == x,
    ;

    proof fn lemma_from_val(v: int)
        requires
            Self::min_val() <= v <= Self::max_val(),
        ensures
            Self::from_val(v).val() == v,
    ;

    proof fn lemma_bounds()
        ensures
            i64::MIN <= Self::min_val() <= 0,
            255 <= Self::max_val() <= u64::MAX,
    ;

    fn to_i128(self) -> (r: i128)
        ensures
            r == self.val(),
    ;

    fn from_i128(v: i128) -> (r: Self)
        requires
            Self::min_val() <= v <= Self::max_val(),
        ensures
            r.val() == v,
            r == Self::from_val(v as int),
    ;

    fn lowest() -> (r: Self)
        ensures
            r.val() == Self::min_val(),
    ;

    fn highest() -> (r: Self)
        ensures
            r.val() == Self::max_val(),
    ;
}

impl Num for u8 {
    open spec fn val(self) -> int {
        self as int
    }

    open spec fn min_val() -> int {
        u8::MIN as int
    }

    open spec fn max_val() -> int {
        u8::MAX as int
    }

    open spec fn from_val(v: int) -> Self {
        v as u8
    }

    proof fn lemma_val(x: Self) {
    }

    proof fn lemma_from_val(v: int) {
    }

    proof fn lemma_bounds() {
    }

    fn to_i128(self) -> (r: i128) {
        self as i128
    }

    fn from_i128(v: i128) -> (r: Self) {
        v as u8
    }

    fn lowest() -> (r: Self) {
        u8::MIN
    }

    fn highest() -> (r: Self) {
        u8::MAX
    }
}

impl Num for u16 {
    open spec fn val(self) -> int {
        self as int
    }

    open spec fn min_val() -> int {
        u16::MIN as int
    }

    open spec fn max_val() -> int {
        u16::MAX as int
    }

    open spec fn from_val(v: int) -> Self {
        v as u16
    }

    proof fn lemma_val(x: Self) {
    }

    proof fn lemma_from_val(v: int) {
    }

    proof fn lemma_bounds() {
    }

    fn to_i128(self) -> (r: i128) {
        self as i128
    }

    fn from_i128(v: i128) -> (r: Self) {
        v as u16
    }

    fn lowest() -> (r: Self) {
        u16::MIN
    }

    fn highest() -> (r: Self) {
        u16::MAX
    }
}

impl Num for i16 {
    open spec fn val(self) -> int {
        self as int
    }

    open spec fn min_val() -> int {
        i16::MIN as int
    }

    open spec fn max_val() -> int {
        i16::MAX as int
    }

    open spec fn from_val(v: int) -> Self {
        v as i16
    }

    proof fn lemma_val(x: Self) {
    }

    proof fn lemma_from_val(v: int) {
    }

    proof fn lemma_bounds() {
    }

    fn to_i128(self) -> (r: i128) {
        self as i128
    }

    fn from_i128(v: i128) -> (r: Self) {
        v as i16
    }

    fn lowest() -> (r: Self) {
        i16::MIN
    }

    fn highest() -> (r: Self) {
        i16::MAX
    }
}

impl Num for u32 {
    open spec fn val(self) -> int {
        self as int
    }

    open spec fn min_val() -> int {
        u32::MIN as int
    }

    open spec fn max_val() -> int {
        u32::MAX as int
    }

    open spec fn from_val(v: int) -> Self {
        v as u32
    }

    proof fn lemma_val(x: Self) {
    }

    proof fn lemma_from_val(v: int) {
    }

    proof fn lemma_bounds() {
    }

    fn to_i128(self) -> (r: i128) {
        self as i128
    }

    fn from_i128(v: i128) -> (r: Self) {
        v as u32
    }

    fn lowest() -> (r: Self) {
        u32::MIN
    }

    fn highest() -> (r: Self) {
        u32::MAX
    }
}

impl Num for i32 {
    open spec fn val(self) -> int {
        self as int
    }

    open spec fn min_val() -> int {
        i32::MIN as int
    }

    open spec fn max_val() -> int {
        i32::MAX as int
    }

    open spec fn from_val(v: int) -> Self {
        v as i32
    }

    proof fn lemma_val(x: Self) {
    }

    proof fn lemma_from_val(v: int) {
    }

    proof fn lemma_bounds() {
    }

    fn to_i128(self) -> (r: i128) {
        self as i128
    }

    fn from_i128(v: i128) -> (r: Self) {
        v as i32
    }

    fn lowest() -> (r: Self) {
        i32::MIN
    }

    fn highest() -> (r: Self) {
        i32::MAX
    }
}

impl Num for u64 {
    open spec fn val(self) -> int {
        self as int
    }

    open spec fn min_val() -> int {
        u64::MIN as int
    }

    open spec fn max_val() -> int {
        u64::MAX as int
    }

    open spec fn from_val(v: int) -> Self {
        v as u64
    }

    proof fn lemma_val(x: Self) {
    }

    proof fn lemma_from_val(v: int) {
    }

    proof fn lemma_bounds() {
    }

    fn to_i128(self) -> (r: i128) {
        self as i128
    }

    fn from_i128(v: i128) -> (r: Self) {
        v as u64
    }

    fn lowest() -> (r: Self) {
        u64::MIN
    }

    fn highest() -> (r: Self) {
        u64::MAX
    }
}

impl Num for i64 {
    open spec fn val(self) -> int {
        self as int
    }

    open spec fn min_val() -> int {
        i64::MIN as int
    }

    open spec fn max_val() -> int {
        i64::MAX as int
    }

    open spec fn from_val(v: int) -> Self {
        v as i64
    }

    proof fn lemma_val(x: Self) {
    }

    proof fn lemma_from_val(v: int) {
    }

    proof fn lemma_bounds() {
    }

    fn to_i128(self) -> (r: i128) {
        self as i128
    }

    fn from_i128(v: i128) -> (r: Self) {
        v as i64
    }

    fn lowest() -> (r: Self) {
        i64::MIN
    }

    fn highest() -> (r: Self) {
        i64::MAX
    }
}

impl Num for usize {
    open spec fn val(self) -> int {
        self as int
    }

    open spec fn min_val() -> int {
        usize::MIN as int
    }

    open spec fn max_val() -> int {
        usize::MAX as int
    }

    open spec fn from_val(v: int) -> Self {
        v as usize
    }

    proof fn lemma_val(x: Self) {
    }

    proof fn lemma_from_val(v: int) {
    }

    proof fn lemma_bounds() {
    }

    fn to_i128(self) -> (r: i128) {
        self as i128
    }

    fn from_i128(v: i128) -> (r: Self) {
        v as usize
    }

    fn lowest() -> (r: Self) {
        usize::MIN
    }

    fn highest() -> (r: Self) {
        usize::MAX
    }
}

/// Whether `v` can be held by `N`.
pub open spec fn in_range<N: Num>(v: int) -> bool {
    N::min_val() <= v <= N::max_val()
}

/// `a + b`, which must fit in `N`.
pub fn num_add<N: Num>(a: N, b: N) -> (r: N)
    requires
        in_range::<N>(a.val() + b.val()),
    ensures
        r.val() == a.val() + b.val(),
        r == N::from_val(a.val() + b.val()),
{
    proof {
        N::lemma_bounds();
    }
    N::from_i128(a.to_i128() + b.to_i128())
}

/// `a - b`, which must fit in `N`.
pub fn num_sub<N: Num>(a: N, b: N) -> (r: N)
    requires
        in_range::<N>(a.val() - b.val()),
    ensures
        r.val() == a.val() - b.val(),
        r == N::from_val(a.val() - b.val()),
{
    proof {
        N::lemma_bounds();
    }
    N::from_i128(a.to_i128() - b.to_i128())
}

/// `a * b`, which must fit in `N`.
pub fn num_mul<N: Num>(a: N, b: N) -> (r: N)
    requires
        in_range::<N>(a.val() * b.val()),
    ensures
        r.val() == a.val() * b.val(),
        r == N::from_val(a.val() * b.val()),
{
    proof {
        N::lemma_bounds();
    }
    N::from_i128(a.to_i128() * b.to_i128())
}

/// `a / b` rounded toward zero; `b` is not zero and the quotient fits in `N`.
pub fn num_div<N: Num>(a: N, b: N) -> (r: N)
    requires
        b.val() != 0,
        in_range::<N>(trunc_div(a.val(), b.val())),
    ensures
        r.val() == trunc_div(a.val(), b.val()),
        r == N::from_val(trunc_div(a.val(), b.val())),
{
    proof {
        N::lemma_bounds();
        N::lemma_val(a);
        N::lemma_val(b);
    }
    let x = a.to_i128();
    let y = b.to_i128();
    N::from_i128(i128_div(x, y))
}

/// `a % b` with the sign of `a`; `b` is not zero.
pub fn num_rem<N: Num>(a: N, b: N) -> (r: N)
    requires
        b.val() != 0,
        in_range::<N>(trunc_rem(a.val(), b.val())),
    ensures
        r.val() == trunc_rem(a.val(), b.val()),
        r == N::from_val(trunc_rem(a.val(), b.val())),
{
    proof {
        N::lemma_bounds();
        N::lemma_val(a);
        N::lemma_val(b);
    }
    let x = a.to_i128();
    let y = b.to_i128();
    let q = i128_div(x, y);
    proof {
        lemma_trunc_div_bound(x as int, y as int);
    }
    N::from_i128(x - y * q)
}

proof fn lemma_trunc_div_bound(a: int, b: int)
    requires
        b != 0,
    ensures
        -abs(a) <= b * trunc_div(a, b) <= abs(a),
{
    let p = abs(a);
    let d = abs(b);
    assert(0 <= d * (p / d) <= p) by (nonlinear_arith)
        requires
            p >= 0,
            d > 0,
    ;
    if (a >= 0) == (b > 0) {
        assert(trunc_div(a, b) == p / d);
        assert(b * trunc_div(a, b) == if b > 0 { d * (p / d) } else { -(d * (p / d)) }) by (nonlinear_arith)
            requires
                trunc_div(a, b) == p / d,
                d == abs(b),
                b != 0,
        ;
    } else {
        assert(trunc_div(a, b) == -(p / d));
        assert(b * trunc_div(a, b) == if b > 0 { -(d * (p / d)) } else { d * (p / d) }) by (nonlinear_arith)
            requires
                trunc_div(a, b) == -(p / d),
                d == abs(b),
                b != 0,
        ;
    }
}

/// `x / y` rounded toward zero, taken from divisions of non-negative values.
fn i128_div(x: i128, y: i128) -> (q: i128)
    requires
        y != 0,
        i64::MIN <= x <= u64::MAX,
        i64::MIN <= y <= u64::MAX,
    ensures
        q == trunc_div(x as int, y as int),
{
    if x >= 0 {
        if y > 0 {
            x / y
        } else {
            -(x / (-y))
        }
    } else {
        if y > 0 {
            -((-x) / y)
        } else {
            (-x) / (-y)
        }
    }
}

/// The absolute value of an integer.
pub open spec fn abs(a: int) -> int {
    if a < 0 {
        -a
    } else {
        a
    }
}

/// Whether `a < b`.
pub fn num_lt<N: Num>(a: N, b: N) -> (r: bool)
    ensures
        r == (a.val() < b.val()),
{
    a.to_i128() < b.to_i128()
}

/// Whether `a` and `b` are the same value.
pub fn num_eq<N: Num>(a: N, b: N) -> (r: bool)
    ensures
        r == (a.val() == b.val()),
        r == (a == b),
{
    proof {
        N::lemma_val(a);
        N::lemma_val(b);
    }
    a.to_i128() == b.to_i128()
}

/// `a + b`, clamped to the range of `N` instead of overflowing.
pub fn saturating_add<N: Num>(a: N, b: N) -> (r: N)
    ensures
        r.val() == clamp_int(a.val() + b.val(), N::min_val(), N::max_val()),
{
    proof {
        N::lemma_bounds();
        N::lemma_val(a);
        N::lemma_val(b);
    }
    let s = a.to_i128() + b.to_i128();
    let lo = N::lowest();
    let hi = N::highest();
    if s < lo.to_i128() {
        lo
    } else if s > hi.to_i128() {
        hi
    } else {
        N::from_i128(s)
    }
}

/// A small constant as a value of `N`.
pub fn from_u8<N: Num>(v: u8) -> (r: N)
    ensures
        r.val() == v,
{
    proof {
        N::lemma_bounds();
    }
    N::from_i128(v as i128)
}

/// `v` as a value of `M`; it must fit.
pub fn convert<N: Num, M: Num>(v: N) -> (r: M)
    requires
        in_range::<M>(v.val()),
    ensures
        r.val() == v.val(),
{
    M::from_i128(v.to_i128())
}

/// `v` as a value of `M`, clamped to the range of `M`.
pub fn convert_clamped<N: Num, M: Num>(v: N) -> (r: M)
    ensures
        r.val() == clamp_int(v.val(), M::min_val(), M::max_val()),
{
    proof {
        M::lemma_bounds();
    }
    let x = v.to_i128();
    let lo = M::lowest();
    let hi = M::highest();
    if x < lo.to_i128() {
        lo
    } else if x > hi.to_i128() {
        hi
    } else {
        M::from_i128(x)
    }
}

} // verus!
