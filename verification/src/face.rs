use vstd::prelude::*;
use crate::canvas::{draw_box, draw_circle, fill, in_box, in_circle};

verus! {

/// Width of the face in art pixels.
pub const PIXEL_WIDTH: u32 = 80;

/// Height of the face in art pixels.
pub const PIXEL_HEIGHT: u32 = 60;

/// Bytes in one RGBA frame of the face.
pub const FRAME_LEN: usize = 19200;

/// Bytes per art pixel.
pub const PIXEL_BYTES: usize = 4;

/// The translucent grey behind the face.
pub open spec fn background_rgba() -> Seq<u8> {
    seq![0xB8u8, 0xB8u8, 0xB8u8, 0x80u8]
}

/// The eye colour while the creature runs away.
pub open spec fn dark_blue_rgba() -> Seq<u8> {
    seq![0x06u8, 0x00u8, 0x77u8, 0xFFu8]
}

/// The eye colour while the creature hunts the cursor.
pub open spec fn dark_red_rgba() -> Seq<u8> {
    seq![0x77u8, 0x00u8, 0x06u8, 0xFFu8]
}

/// The eye colour in the frame in which a click lands.
pub open spec fn white_red_rgba() -> Seq<u8> {
    seq![0xFFu8, 0xF0u8, 0xF0u8, 0xFFu8]
}

/// The colour of the rows below the escape gauge.
pub open spec fn pink_rgba() -> Seq<u8> {
    seq![0xFFu8, 0x30u8, 0x60u8, 0xFFu8]
}

/// The translucent grey behind the face.
pub fn background() -> (c: [u8; 4])
    ensures
        c@ == background_rgba(),
{
    let c: [u8; 4] = [0xB8, 0xB8, 0xB8, 0x80];
    assert(c@ =~= background_rgba());
    c
}

/// The eye colour while the creature runs away.
pub fn dark_blue() -> (c: [u8; 4])
    ensures
        c@ == dark_blue_rgba(),
{
    let c: [u8; 4] = [0x06, 0x00, 0x77, 0xFF];
    assert(c@ =~= dark_blue_rgba());
    c
}

/// The eye colour while the creature hunts the cursor.
pub fn dark_red() -> (c: [u8; 4])
    ensures
        c@ == dark_red_rgba(),
{
    let c: [u8; 4] = [0x77, 0x00, 0x06, 0xFF];
    assert(c@ =~= dark_red_rgba());
    c
}

/// The eye colour in the frame in which a click lands.
pub fn white_red() -> (c: [u8; 4])
    ensures
        c@ == white_red_rgba(),
{
    let c: [u8; 4] = [0xFF, 0xF0, 0xF0, 0xFF];
    assert(c@ =~= white_red_rgba());
    c
}

/// The colour of the rows below the escape gauge.
pub fn pink() -> (c: [u8; 4])
    ensures
        c@ == pink_rgba(),
{
    let c: [u8; 4] = [0xFF, 0x30, 0x60, 0xFF];
    assert(c@ =~= pink_rgba());
    c
}

/// The eyes look from the middle of the face by at most five art pixels each
/// way: this is where a gaze point may lie.
pub open spec fn gaze_in_reach(eye_x: int, eye_y: int) -> bool {
    35 <= eye_x <= 45 && 25 <= eye_y <= 35
}

/// `true` when the art pixel `(x, y)` belongs to an eye or a brow, the eyes
/// being circles of radius 5 twenty pixels left and right of the gaze point
/// and the brows two fixed 20 by 4 boxes above them.
pub open spec fn face_covers(x: int, y: int, eye_x: int, eye_y: int) -> bool {
    ||| in_circle(x, y, eye_x - 20, eye_y, 5)
    ||| in_circle(x, y, eye_x + 20, eye_y, 5)
    ||| in_box(x, y, 10, 18, 20, 4)
    ||| in_box(x, y, 50, 18, 20, 4)
}

/// The colour of art pixel number `p` (row-major, `PIXEL_WIDTH` per row):
/// the feature colour on eyes and brows, pink on rows below the waterline,
/// and the background elsewhere.
pub open spec fn face_pixel(p: int, color: Seq<u8>, eye_x: int, eye_y: int, waterline: int) -> Seq<u8> {
    let x = p % 80;
    let y = p / 80;
    if face_covers(x, y, eye_x, eye_y) {
        color
    } else if y > waterline {
        pink_rgba()
    } else {
        background_rgba()
    }
}

/// Byte number `i` of the face frame.
pub open spec fn face_byte(i: int, color: Seq<u8>, eye_x: int, eye_y: int, waterline: int) -> u8 {
    face_pixel(i / 4, color, eye_x, eye_y, waterline)[i % 4]
}

proof fn lemma_eye_test_fits(x: int, y: int, cx: int, cy: int)
    requires
        0 <= x < 80,
        0 <= y < 60,
        15 <= cx <= 65,
        25 <= cy <= 35,
    ensures
        crate::canvas::circle_test_fits(x, y, cx, cy, 5),
{
    let dx = cx - x;
    let dy = cy - y;
    assert(dx * dx <= 65 * 65) by (nonlinear_arith)
        requires
            -65 <= dx <= 65,
    ;
    assert(dy * dy <= 60 * 60) by (nonlinear_arith)
        requires
            -60 <= dy <= 60,
    ;
}

/// Paints the face into `frame`, one RGBA art pixel after another: eyes and
/// brows in `color`, the eyes centred twenty pixels either side of the gaze
/// point `(eye_center_x, eye_center_y)`, and every other pixel in pink when
/// its row lies below `waterline`, else in the background grey.
pub fn draw_face(frame: &mut [u8], color: &[u8], eye_center_x: i16, eye_center_y: i16, waterline: i32)
    requires
        old(frame)@.len() == FRAME_LEN,
        color@.len() == PIXEL_BYTES,
        gaze_in_reach(eye_center_x as int, eye_center_y as int),
    ensures
        final(frame)@.len() == FRAME_LEN,
        forall|i: int|
            0 <= i < FRAME_LEN ==> #[trigger] final(frame)@[i] == face_byte(
                i,
                color@,
                eye_center_x as int,
                eye_center_y as int,
                waterline as int,
            ),
{
    let center_x = (PIXEL_WIDTH / 2) as i16;
    let center_y = (PIXEL_HEIGHT / 2) as i16;
    let pink = pink();
    let background = background();
    let pixels: usize = FRAME_LEN / PIXEL_BYTES;
    let mut p: usize = 0;
    while p < pixels
        invariant
            pixels == 4800,
            center_x == 40,
            center_y == 30,
            pink@ == pink_rgba(),
            background@ == background_rgba(),
            frame@.len() == FRAME_LEN,
            color@.len() == PIXEL_BYTES,
            gaze_in_reach(eye_center_x as int, eye_center_y as int),
            p <= pixels,
            forall|i: int|
                0 <= i < 4 * p ==> #[trigger] frame@[i] == face_byte(
                    i,
                    color@,
                    eye_center_x as int,
                    eye_center_y as int,
                    waterline as int,
                ),
        decreases pixels - p,
    {
        let x = (p % (PIXEL_WIDTH as usize)) as i16;
        let y = (p / (PIXEL_WIDTH as usize)) as i16;
        assert(0 <= y < 60);
        let mut px: Vec<u8> = vec![0, 0, 0, 0];
        proof {
            lemma_eye_test_fits(x as int, y as int, eye_center_x - 20, eye_center_y as int);
            lemma_eye_test_fits(x as int, y as int, eye_center_x + 20, eye_center_y as int);
        }
        let draw = draw_circle(px.as_mut_slice(), color, x, y, eye_center_x - 20, eye_center_y, 5)
            || draw_circle(px.as_mut_slice(), color, x, y, eye_center_x + 20, eye_center_y, 5)
            || draw_box(px.as_mut_slice(), color, x, y, center_x - 30, center_y - 12, 20, 4)
            || draw_box(px.as_mut_slice(), color, x, y, center_x + 10, center_y - 12, 20, 4);
        if !draw {
            let shade: &[u8] = if y as i32 > waterline {
                pink.as_slice()
            } else {
                background.as_slice()
            };
            fill(px.as_mut_slice(), shade);
        }
        assert(px@ == face_pixel(p as int, color@, eye_center_x as int, eye_center_y as int, waterline as int));
        let base = p * PIXEL_BYTES;
        let mut k: usize = 0;
        while k < PIXEL_BYTES
            invariant
                base == 4 * p,
                p < 4800,
                k <= 4,
                frame@.len() == FRAME_LEN,
                px@.len() == 4,
                px@ == face_pixel(p as int, color@, eye_center_x as int, eye_center_y as int, waterline as int),
                forall|i: int|
                    0 <= i < base + k ==> #[trigger] frame@[i] == face_byte(
                        i,
                        color@,
                        eye_center_x as int,
                        eye_center_y as int,
                        waterline as int,
                    ),
            decreases 4 - k,
        {
            frame[base + k] = px[k];
            assert((base + k) / 4 == p as int && (base + k) % 4 == k as int);
            k = k + 1;
        }
        p = p + 1;
    }
}

} // verus!

verus! {

proof fn lemma_pixel_position(x: int, y: int)
    requires
        0 <= x < 80,
        0 <= y,
    ensures
        (80 * y + x) % 80 == x,
        (80 * y + x) / 80 == y,
{
    assert((80 * y + x) % 80 == x && (80 * y + x) / 80 == y) by (nonlinear_arith)
        requires
            0 <= x < 80,
            0 <= y,
    ;
}

proof fn lemma_square_mirror(a: int)
    ensures
        a * a == (-a) * (-a),
{
    assert(a * a == (-a) * (-a)) by (nonlinear_arith);
}

/// With the gaze straight ahead, the face is mirror-symmetric: the pixel at
/// column `x` of a row has the colour of the pixel at column `80 - x`.
pub proof fn lemma_face_mirror(x: int, y: int, color: Seq<u8>, eye_y: int, waterline: int)
    requires
        1 <= x <= 79,
        0 <= y < 60,
    ensures
        face_pixel(80 * y + x, color, 40, eye_y, waterline) == face_pixel(
            80 * y + (80 - x),
            color,
            40,
            eye_y,
            waterline,
        ),
{
    lemma_pixel_position(x, y);
    lemma_pixel_position(80 - x, y);
    lemma_square_mirror(20 - x);
    lemma_square_mirror(60 - x);
    assert((20 - (80 - x)) == -(60 - x));
    assert((60 - (80 - x)) == -(20 - x));
}

/// `draw_face` leaves nothing of the frame it draws over: two frames that it
/// produced from the same colour, gaze and waterline are equal.
pub proof fn lemma_frame_determined(
    a: Seq<u8>,
    b: Seq<u8>,
    color: Seq<u8>,
    eye_x: int,
    eye_y: int,
    waterline: int,
)
    requires
        a.len() == FRAME_LEN,
        b.len() == FRAME_LEN,
        forall|i: int| 0 <= i < FRAME_LEN ==> #[trigger] a[i] == face_byte(i, color, eye_x, eye_y, waterline),
        forall|i: int| 0 <= i < FRAME_LEN ==> #[trigger] b[i] == face_byte(i, color, eye_x, eye_y, waterline),
    ensures
        a == b,
{
    assert(a =~= b);
}

/// Every pixel of the face is the feature colour, pink, or the background.
pub proof fn lemma_face_palette(p: int, color: Seq<u8>, eye_x: int, eye_y: int, waterline: int)
    ensures
        ({
            let c = face_pixel(p, color, eye_x, eye_y, waterline);
            c == color || c == pink_rgba() || c == background_rgba()
        }),
{
}

} // verus!

verus! {

proof fn lemma_byte_position(x: int, y: int, k: int)
    requires
        0 <= x < 80,
        0 <= y < 60,
        0 <= k < 4,
    ensures
        (4 * (80 * y + x) + k) / 4 == 80 * y + x,
        (4 * (80 * y + x) + k) % 4 == k,
        0 <= 4 * (80 * y + x) + k < FRAME_LEN,
{
    lemma_pixel_position(x, y);
    assert((4 * (80 * y + x) + k) / 4 == 80 * y + x && (4 * (80 * y + x) + k) % 4 == k)
        by (nonlinear_arith)
        requires
            0 <= x < 80,
            0 <= y < 60,
            0 <= k < 4,
    ;
}

/// The eyes follow the gaze: byte `k` of every art pixel `(x, y)` that lies
/// strictly within distance 5 of `(eye_x - 20, eye_y)` or of
/// `(eye_x + 20, eye_y)` is byte `k` of the feature colour. In particular
/// both eye centres always have the feature colour.
pub proof fn lemma_eyes_follow_gaze(x: int, y: int, k: int, color: Seq<u8>, eye_x: int, eye_y: int, waterline: int)
    requires
        0 <= x < 80,
        0 <= y < 60,
        0 <= k < 4,
        gaze_in_reach(eye_x, eye_y),
        (x - (eye_x - 20)) * (x - (eye_x - 20)) + (y - eye_y) * (y - eye_y) < 25
            || (x - (eye_x + 20)) * (x - (eye_x + 20)) + (y - eye_y) * (y - eye_y) < 25,
    ensures
        face_byte(4 * (80 * y + x) + k, color, eye_x, eye_y, waterline) == color[k],
{
    lemma_byte_position(x, y, k);
    lemma_pixel_position(x, y);
    crate::canvas::lemma_circle_offset_only(x, y, eye_x - 20, eye_y, 5, 0, 0);
    crate::canvas::lemma_circle_offset_only(x, y, eye_x + 20, eye_y, 5, 0, 0);
    assert((eye_x - 20 - x) * (eye_x - 20 - x) == (x - (eye_x - 20)) * (x - (eye_x - 20))) by (nonlinear_arith);
    assert((eye_x + 20 - x) * (eye_x + 20 - x) == (x - (eye_x + 20)) * (x - (eye_x + 20))) by (nonlinear_arith);
    assert((eye_y - y) * (eye_y - y) == (y - eye_y) * (y - eye_y)) by (nonlinear_arith);
}

/// Shifting the gaze shifts the eyes with it: a pixel on an eye for one gaze
/// is, moved by the same amount, on an eye for the shifted gaze.
pub proof fn lemma_gaze_shift(
    x: int,
    y: int,
    k: int,
    color: Seq<u8>,
    eye_x: int,
    eye_y: int,
    dx: int,
    dy: int,
    waterline: int,
)
    requires
        0 <= x < 80,
        0 <= y < 60,
        0 <= x + dx < 80,
        0 <= y + dy < 60,
        0 <= k < 4,
        gaze_in_reach(eye_x, eye_y),
        gaze_in_reach(eye_x + dx, eye_y + dy),
        (x - (eye_x - 20)) * (x - (eye_x - 20)) + (y - eye_y) * (y - eye_y) < 25
            || (x - (eye_x + 20)) * (x - (eye_x + 20)) + (y - eye_y) * (y - eye_y) < 25,
    ensures
        face_byte(4 * (80 * (y + dy) + (x + dx)) + k, color, eye_x + dx, eye_y + dy, waterline)
            == color[k],
{
    assert((x + dx) - (eye_x + dx - 20) == x - (eye_x - 20));
    assert((x + dx) - (eye_x + dx + 20) == x - (eye_x + 20));
    assert((y + dy) - (eye_y + dy) == y - eye_y);
    lemma_eyes_follow_gaze(x + dx, y + dy, k, color, eye_x + dx, eye_y + dy, waterline);
}

/// The brows stay put: byte `k` of every art pixel strictly inside
/// `10 < x < 30, 18 < y < 22` or `50 < x < 70, 18 < y < 22` is byte `k`
/// of the feature colour, wherever the gaze is.
pub proof fn lemma_brows_fixed(x: int, y: int, k: int, color: Seq<u8>, eye_x: int, eye_y: int, waterline: int)
    requires
        0 <= x < 80,
        0 <= y < 60,
        0 <= k < 4,
        (10 < x < 30 || 50 < x < 70) && 18 < y < 22,
    ensures
        face_byte(4 * (80 * y + x) + k, color, eye_x, eye_y, waterline) == color[k],
{
    lemma_byte_position(x, y, k);
    lemma_pixel_position(x, y);
}

/// Away from eyes and brows, a pixel shows the escape gauge: byte `k` of the
/// pink `FF 30 60 FF` on rows below the waterline, and of the grey
/// `B8 B8 B8 80` on the others.
pub proof fn lemma_rest_by_waterline(x: int, y: int, k: int, color: Seq<u8>, eye_x: int, eye_y: int, waterline: int)
    requires
        0 <= x < 80,
        0 <= y < 60,
        0 <= k < 4,
        gaze_in_reach(eye_x, eye_y),
        (x - (eye_x - 20)) * (x - (eye_x - 20)) + (y - eye_y) * (y - eye_y) >= 25,
        (x - (eye_x + 20)) * (x - (eye_x + 20)) + (y - eye_y) * (y - eye_y) >= 25,
        !((10 < x < 30 || 50 < x < 70) && 18 < y < 22),
    ensures
        y > waterline ==> face_byte(4 * (80 * y + x) + k, color, eye_x, eye_y, waterline)
            == seq![0xFFu8, 0x30u8, 0x60u8, 0xFFu8][k],
        y <= waterline ==> face_byte(4 * (80 * y + x) + k, color, eye_x, eye_y, waterline)
            == seq![0xB8u8, 0xB8u8, 0xB8u8, 0x80u8][k],
{
    lemma_byte_position(x, y, k);
    lemma_pixel_position(x, y);
    assert((eye_x - 20 - x) * (eye_x - 20 - x) == (x - (eye_x - 20)) * (x - (eye_x - 20))) by (nonlinear_arith);
    assert((eye_x + 20 - x) * (eye_x + 20 - x) == (x - (eye_x + 20)) * (x - (eye_x + 20))) by (nonlinear_arith);
    assert((eye_y - y) * (eye_y - y) == (y - eye_y) * (y - eye_y)) by (nonlinear_arith);
}

} // verus!
