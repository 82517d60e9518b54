use vstd::prelude::*;

verus! {

/// `true` when the cursor at `(mouse_x, mouse_y)` lies on the window whose
/// top-left corner is `(window_x, window_y)`, edges included.
pub open spec fn spec_cursor_on_window(
    mouse_x: int,
    mouse_y: int,
    window_x: int,
    window_y: int,
    width: int,
    height: int,
) -> bool {
    mouse_x >= window_x && mouse_x <= window_x + width && mouse_y >= window_y && mouse_y
        <= window_y + height
}

/// Says whether the cursor lies on the window, edges included. The window's
/// size is read as an `i32`, as the window system's coordinates are.
pub fn cursor_on_window(
    mouse_x: i32,
    mouse_y: i32,
    window_x: i32,
    window_y: i32,
    width: u32,
    height: u32,
) -> (on: bool)
    requires
        mouse_x >= window_x ==> i32::MIN <= window_x + (width as i32) <= i32::MAX,
        mouse_x >= window_x && mouse_x <= window_x + (width as i32) && mouse_y >= window_y
            ==> i32::MIN <= window_y + (height as i32) <= i32::MAX,
    ensures
        on == spec_cursor_on_window(
            mouse_x as int,
            mouse_y as int,
            window_x as int,
            window_y as int,
            (width as i32) as int,
            (height as i32) as int,
        ),
{
    mouse_x >= window_x && mouse_x <= window_x + width as i32 && mouse_y >= window_y && mouse_y
        <= window_y + height as i32
}

/// Half of `v`, rounded towards zero as integer division does.
pub open spec fn half_toward_zero(v: int) -> int {
    if v >= 0 {
        v / 2
    } else {
        -((-v) / 2)
    }
}

/// The middle of the window: its corner plus half its size, each half
/// rounded towards zero.
pub fn window_center(window_x: i32, window_y: i32, width: u32, height: u32) -> (center: (i32, i32))
    requires
        i32::MIN <= window_x + half_toward_zero((width as i32) as int) <= i32::MAX,
        i32::MIN <= window_y + half_toward_zero((height as i32) as int) <= i32::MAX,
    ensures
        center.0 == window_x + half_toward_zero((width as i32) as int),
        center.1 == window_y + half_toward_zero((height as i32) as int),
{
    (window_x + width as i32 / 2, window_y + height as i32 / 2)
}

} // verus!

verus! {

/// The cursor's position relative to the window's middle.
pub fn cursor_offset(mouse_x: i32, mouse_y: i32, center_x: i32, center_y: i32) -> (offset: (i32, i32))
    requires
        i32::MIN <= mouse_x - center_x <= i32::MAX,
        i32::MIN <= mouse_y - center_y <= i32::MAX,
    ensures
        offset.0 == mouse_x - center_x,
        offset.1 == mouse_y - center_y,
{
    (mouse_x - center_x, mouse_y - center_y)
}

/// `true` when coordinate `c` of the window's middle lies outside `0..=extent`.
pub open spec fn off_monitor(c: int, extent: int) -> bool {
    c < 0 || c > extent
}

/// How the window flees from a nearby cursor: it moves against
/// `(move_x, move_y)`, and starts a dash when both are zero.
#[derive(Clone, Copy, Debug, PartialEq, Eq, Structural)]
pub struct FleePlan {
    pub move_x: i32,
    pub move_y: i32,
    pub start_dash: bool,
}

/// Plans a flight from the cursor. Along each axis on which the window's
/// middle has left the monitor, the cursor no longer pushes the window; when
/// it pushes along neither axis, the window dashes instead.
pub fn plan_flee(
    offset_x: i32,
    offset_y: i32,
    center_x: i32,
    center_y: i32,
    monitor_width: u32,
    monitor_height: u32,
) -> (plan: FleePlan)
    ensures
        plan.move_x == if off_monitor(center_x as int, (monitor_width as i32) as int) {
            0
        } else {
            offset_x as int
        },
        plan.move_y == if off_monitor(center_y as int, (monitor_height as i32) as int) {
            0
        } else {
            offset_y as int
        },
        plan.start_dash == (plan.move_x == 0 && plan.move_y == 0),
{
    let mut move_x = offset_x;
    let mut move_y = offset_y;
    if center_x < 0 || center_x > monitor_width as i32 {
        move_x = 0;
    }
    if center_y < 0 || center_y > monitor_height as i32 {
        move_y = 0;
    }
    FleePlan { move_x, move_y, start_dash: move_x == 0 && move_y == 0 }
}

/// Which axes of a wandering heading turn round.
#[derive(Clone, Copy, Debug, PartialEq, Eq, Structural)]
pub struct Bounce {
    pub flip_x: bool,
    pub flip_y: bool,
    /// Whether the heading has turned once, this time included.
    pub turned: bool,
}

/// `true` when coordinate `c` of the window's middle is more than 200 pixels
/// beyond either side of `0..=extent`.
pub open spec fn far_off_monitor(c: int, extent: int) -> bool {
    c < -200 || c > extent + 200
}

/// Decides whether a wanderer that may leave the screen turns round: along
/// each axis on which its middle is more than 200 pixels off the monitor,
/// unless its current heading has already turned once. A heading turns at
/// most once: a turned heading never bounces again.
pub fn offscreen_bounce(
    turned: bool,
    center_x: i32,
    center_y: i32,
    monitor_width: u32,
    monitor_height: u32,
) -> (bounce: Bounce)
    requires
        !turned && center_x >= -200 ==> (monitor_width as i32) + 200 <= i32::MAX,
        !turned && center_y >= -200 ==> (monitor_height as i32) + 200 <= i32::MAX,
    ensures
        bounce.flip_x == (!turned && far_off_monitor(center_x as int, (monitor_width as i32) as int)),
        bounce.flip_y == (!turned && far_off_monitor(center_y as int, (monitor_height as i32) as int)),
        bounce.turned == (turned || bounce.flip_x || bounce.flip_y),
{
    let flip_x = turned == false && (center_x < -200 || center_x > monitor_width as i32 + 200);
    let flip_y = turned == false && (center_y < -200 || center_y > monitor_height as i32 + 200);
    Bounce { flip_x, flip_y, turned: turned || flip_x || flip_y }
}

/// A key that matters to the creature.
#[derive(Clone, Copy, Debug, PartialEq, Eq, Structural)]
pub enum Key {
    LeftAlt,
    RightAlt,
    Other,
}

/// `true` when `key` is either Alt key.
pub open spec fn is_alt(key: Key) -> bool {
    key is LeftAlt || key is RightAlt
}

/// Says whether either Alt key is among the keys held down.
pub fn alt_held(keys: &[Key]) -> (held: bool)
    ensures
        held == exists|i: int| 0 <= i < keys@.len() && is_alt(#[trigger] keys@[i]),
{
    let n = keys.len();
    let mut i: usize = 0;
    while i < n
        invariant
            n == keys@.len(),
            i <= n,
            forall|j: int| 0 <= j < i ==> !is_alt(#[trigger] keys@[j]),
        decreases n - i,
    {
        match keys[i] {
            Key::LeftAlt | Key::RightAlt => {
                assert(is_alt(keys@[i as int]));
                return true;
            },
            Key::Other => {},
        }
        i = i + 1;
    }
    false
}

/// Size in screen pixels of a window that shows every art pixel as a
/// `pixel_scale` by `pixel_scale` square.
pub fn window_extent(pixel_scale: u32) -> (extent: (u32, u32))
    requires
        crate::face::PIXEL_WIDTH * pixel_scale <= u32::MAX,
    ensures
        extent.0 == crate::face::PIXEL_WIDTH * pixel_scale,
        extent.1 == crate::face::PIXEL_HEIGHT * pixel_scale,
{
    (crate::face::PIXEL_WIDTH * pixel_scale, crate::face::PIXEL_HEIGHT * pixel_scale)
}

/// First build number of Windows 11.
pub const WINDOWS_11_BUILD: u32 = 22000;

/// Says whether an operating system build number is one of Windows 11.
pub fn is_windows_11_build(build_number: u32) -> (w11: bool)
    ensures
        w11 == (build_number >= WINDOWS_11_BUILD),
{
    build_number >= WINDOWS_11_BUILD
}

} // verus!

verus! {

/// The middle of a window lies on that window: a cursor at the point that
/// `window_center` gives counts as on the window for `cursor_on_window`.
pub proof fn lemma_center_on_window(window_x: int, window_y: int, width: int, height: int)
    requires
        0 <= width,
        0 <= height,
    ensures
        spec_cursor_on_window(
            window_x + half_toward_zero(width),
            window_y + half_toward_zero(height),
            window_x,
            window_y,
            width,
            height,
        ),
{
}

} // verus!

verus! {

/// The cursor is on the window exactly when it lies within the window's
/// columns and rows, edges included: a cursor left of, right of, above or
/// below the window is not on it.
pub proof fn lemma_cursor_on_window_sides(
    mouse_x: int,
    mouse_y: int,
    window_x: int,
    window_y: int,
    width: int,
    height: int,
)
    ensures
        mouse_x < window_x ==> !spec_cursor_on_window(mouse_x, mouse_y, window_x, window_y, width, height),
        mouse_x > window_x + width ==> !spec_cursor_on_window(mouse_x, mouse_y, window_x, window_y, width, height),
        mouse_y < window_y ==> !spec_cursor_on_window(mouse_x, mouse_y, window_x, window_y, width, height),
        mouse_y > window_y + height ==> !spec_cursor_on_window(mouse_x, mouse_y, window_x, window_y, width, height),
        window_x <= mouse_x <= window_x + width && window_y <= mouse_y <= window_y + height
            ==> spec_cursor_on_window(mouse_x, mouse_y, window_x, window_y, width, height),
{
}

/// Half rounded towards zero: twice the half is `v` itself or one nearer to
/// zero, with the sign of `v`.
pub proof fn lemma_half_toward_zero(v: int)
    ensures
        v >= 0 ==> 0 <= v - 2 * half_toward_zero(v) <= 1,
        v < 0 ==> 0 <= 2 * half_toward_zero(v) - v <= 1,
{
}

/// A coordinate of the window's middle counts as off the monitor exactly
/// when it is negative or beyond the monitor's extent; as far off it exactly
/// when it is more than 200 pixels beyond either side.
pub proof fn lemma_monitor_margins(c: int, extent: int)
    ensures
        off_monitor(c, extent) <==> !(0 <= c <= extent),
        far_off_monitor(c, extent) <==> !(-200 <= c <= extent + 200),
{
}

/// Only the two Alt keys count as Alt.
pub proof fn lemma_alt_keys(key: Key)
    ensures
        is_alt(key) <==> (key == Key::LeftAlt || key == Key::RightAlt),
{
}

} // verus!
