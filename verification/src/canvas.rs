use vstd::prelude::*;

verus! {

/// `true` when `(x, y)` lies strictly inside the circle of radius `radius`
/// around `(cx, cy)`.
pub open spec fn in_circle(x: int, y: int, cx: int, cy: int, radius: int) -> bool {
    (cx - x) * (cx - x) + (cy - y) * (cy - y) < radius * radius
}

/// `true` when every intermediate value of the circle test fits in an `i16`.
pub open spec fn circle_test_fits(x: int, y: int, cx: int, cy: int, radius: int) -> bool {
    let dx = cx - x;
    let dy = cy - y;
    &&& i16::MIN <= dx <= i16::MAX
    &&& i16::MIN <= dy <= i16::MAX
    &&& dx * dx <= i16::MAX
    &&& dy * dy <= i16::MAX
    &&& dx * dx + dy * dy <= i16::MAX
    &&& i16::MIN <= radius * radius <= i16::MAX
}

/// `true` when `(x, y)` lies strictly inside the box whose open interior runs
/// from `(left, top)` to `(left + width, top + height)`.
pub open spec fn in_box(x: int, y: int, left: int, top: int, width: int, height: int) -> bool {
    left < x && x < left + width && top < y && y < top + height
}

/// Copies `color` over `pixel`.
pub(crate) fn fill(pixel: &mut [u8], color: &[u8])
    requires
        old(pixel)@.len() == color@.len(),
    ensures
        final(pixel)@ == color@,
{
    let n = pixel.len();
    let mut i: usize = 0;
    while i < n
        invariant
            n == pixel@.len(),
            n == color@.len(),
            i <= n,
            forall|j: int| 0 <= j < i ==> pixel@[j] == color@[j],
        decreases n - i,
    {
        pixel[i] = color[i];
        i = i + 1;
    }
    assert(pixel@ =~= color@);
}

/// Paints `pixel` with `color` when `(x, y)` lies inside the circle around
/// `(point_x, point_y)`, and says whether it did.
pub fn draw_circle(
    pixel: &mut [u8],
    color: &[u8],
    x: i16,
    y: i16,
    point_x: i16,
    point_y: i16,
    raduis: i16,
) -> (drawn: bool)
    requires
        circle_test_fits(x as int, y as int, point_x as int, point_y as int, raduis as int),
        in_circle(x as int, y as int, point_x as int, point_y as int, raduis as int)
            ==> old(pixel)@.len() == color@.len(),
    ensures
        drawn == in_circle(x as int, y as int, point_x as int, point_y as int, raduis as int),
        drawn ==> final(pixel)@ == color@,
        !drawn ==> final(pixel)@ == old(pixel)@,
{
    let dx = point_x - x;
    let dy = point_y - y;
    proof {
        assert(0 <= dx * dx) by (nonlinear_arith);
        assert(0 <= dy * dy) by (nonlinear_arith);
    }
    let len = dx * dx + dy * dy;
    if len < raduis * raduis {
        fill(pixel, color);
        true
    } else {
        false
    }
}

/// Paints `pixel` with `color` when `(x, y)` lies strictly inside the box at
/// `(point_x, point_y)` of the given size, and says whether it did.
pub fn draw_box(
    pixel: &mut [u8],
    color: &[u8],
    x: i16,
    y: i16,
    point_x: i16,
    point_y: i16,
    width: i16,
    height: i16,
) -> (drawn: bool)
    requires
        point_x < x ==> i16::MIN <= point_x + width <= i16::MAX,
        point_x < x && x < point_x + width && point_y < y ==> i16::MIN <= point_y + height
            <= i16::MAX,
        in_box(x as int, y as int, point_x as int, point_y as int, width as int, height as int)
            ==> old(pixel)@.len() == color@.len(),
    ensures
        drawn == in_box(x as int, y as int, point_x as int, point_y as int, width as int, height as int),
        drawn ==> final(pixel)@ == color@,
        !drawn ==> final(pixel)@ == old(pixel)@,
{
    if (point_x < x) && (x < point_x + width) && (point_y < y) && (y < point_y + height) {
        fill(pixel, color);
        true
    } else {
        false
    }
}

} // verus!

verus! {

proof fn lemma_square_nonneg(a: int)
    ensures
        0 <= a * a,
{
    assert(0 <= a * a) by (nonlinear_arith);
}

proof fn lemma_square_neg(a: int)
    ensures
        a * a == (-a) * (-a),
{
    assert(a * a == (-a) * (-a)) by (nonlinear_arith);
}

/// The circle test depends only on the offset between the point and the
/// centre: moving both by the same amount changes nothing, and neither does
/// swapping the point with the centre.
pub proof fn lemma_circle_offset_only(x: int, y: int, cx: int, cy: int, radius: int, dx: int, dy: int)
    ensures
        in_circle(x + dx, y + dy, cx + dx, cy + dy, radius) == in_circle(x, y, cx, cy, radius),
        in_circle(cx, cy, x, y, radius) == in_circle(x, y, cx, cy, radius),
{
    lemma_square_neg(cx - x);
    lemma_square_neg(cy - y);
    assert((cx + dx) - (x + dx) == cx - x);
    assert((cy + dy) - (y + dy) == cy - y);
    assert(x - cx == -(cx - x));
    assert(y - cy == -(cy - y));
}

/// A larger radius covers every point that a smaller one covers; the sign of
/// the radius does not matter; a radius of zero covers nothing.
pub proof fn lemma_circle_radius(x: int, y: int, cx: int, cy: int, r1: int, r2: int)
    requires
        0 <= r1 <= r2,
    ensures
        in_circle(x, y, cx, cy, r1) ==> in_circle(x, y, cx, cy, r2),
        in_circle(x, y, cx, cy, -r2) == in_circle(x, y, cx, cy, r2),
        !in_circle(x, y, cx, cy, 0),
{
    assert(r1 * r1 <= r2 * r2) by (nonlinear_arith)
        requires
            0 <= r1 <= r2,
    ;
    lemma_square_neg(r2);
    assert(-r2 == -(r2));
    lemma_square_nonneg(cx - x);
    lemma_square_nonneg(cy - y);
}

/// The box test depends only on the offset between the point and the box:
/// moving both by the same amount changes nothing.
pub proof fn lemma_box_offset_only(
    x: int,
    y: int,
    left: int,
    top: int,
    width: int,
    height: int,
    dx: int,
    dy: int,
)
    ensures
        in_box(x + dx, y + dy, left + dx, top + dy, width, height) == in_box(x, y, left, top, width, height),
{
}

} // verus!

verus! {

/// A point is inside a circle exactly when the squares of its distances to
/// the centre along the two axes add up to less than the square of the
/// radius; the rim itself is outside.
pub proof fn lemma_circle_distance(x: int, y: int, cx: int, cy: int, radius: int)
    ensures
        in_circle(x, y, cx, cy, radius) <==> (x - cx) * (x - cx) + (y - cy) * (y - cy) < radius
            * radius,
        (x - cx) * (x - cx) + (y - cy) * (y - cy) == radius * radius ==> !in_circle(x, y, cx, cy, radius),
{
    lemma_square_neg(x - cx);
    lemma_square_neg(y - cy);
    assert(cx - x == -(x - cx));
    assert(cy - y == -(y - cy));
}

/// A point is inside a box exactly when it lies strictly between its left
/// and right edges and strictly between its top and bottom edges; points on
/// an edge are outside.
pub proof fn lemma_box_edges(x: int, y: int, left: int, top: int, width: int, height: int)
    ensures
        x <= left || x >= left + width || y <= top || y >= top + height ==> !in_box(
            x,
            y,
            left,
            top,
            width,
            height,
        ),
        left < x < left + width && top < y < top + height ==> in_box(x, y, left, top, width, height),
{
}

} // verus!
