//! Which popups are drawn, and whether a frame can skip composition.
use vstd::prelude::*;

verus! {

/// For how long the cursor stays visible after it was moved, in nanoseconds.
pub const CURSOR_IDLE_NANOS: u64 = 3_000_000_000;

/// A popup of a window.
#[derive(Clone, Copy, Debug, PartialEq, Eq, Structural)]
pub struct ScenePopup {
    /// Its surface.
    pub surface: u64,
    /// Its place relative to the window.
    pub offset_x: i32,
    pub offset_y: i32,
    /// Where its window geometry begins within its buffer.
    pub geometry_x: i32,
    pub geometry_y: i32,
    /// It has a buffer.
    pub mapped: bool,
}

/// A window with its popups, topmost first.
pub struct SceneWindow {
    pub handle: u64,
    pub x: i32,
    pub y: i32,
    /// The window is an XDG toplevel; others have no popups.
    pub toplevel: bool,
    pub popups: Vec<ScenePopup>,
}

/// The place of a popup's buffer.
pub open spec fn popup_origin(x: i32, y: i32, p: ScenePopup) -> (int, int) {
    (x + p.offset_x - p.geometry_x, y + p.offset_y - p.geometry_y)
}

/// The sums that give a popup's place fit 32 bits.
pub open spec fn popup_in_range(x: i32, y: i32, p: ScenePopup) -> bool {
    &&& i32::MIN <= x + p.offset_x <= i32::MAX
    &&& i32::MIN <= y + p.offset_y <= i32::MAX
    &&& i32::MIN <= popup_origin(x, y, p).0 <= i32::MAX
    &&& i32::MIN <= popup_origin(x, y, p).1 <= i32::MAX
}

/// The popups of a window that have a buffer, with their places.
pub open spec fn drawn_popups(x: i32, y: i32, popups: Seq<ScenePopup>) -> Seq<(u64, (i32, i32))>
    decreases popups.len(),
{
    if popups.len() == 0 {
        Seq::empty()
    } else {
        let before = drawn_popups(x, y, popups.drop_last());
        let p = popups.last();
        if p.mapped {
            before.push(
                (p.surface, (popup_origin(x, y, p).0 as i32, popup_origin(x, y, p).1 as i32)),
            )
        } else {
            before
        }
    }
}

/// A window whose popups are drawn: any toplevel, or while the scene is
/// replaced by one surface only the focused window.
pub open spec fn window_drawn(w: SceneWindow, override_active: bool, focused: Option<u64>) -> bool {
    w.toplevel && (!override_active || focused == Some(w.handle))
}

/// The popups that are drawn, front to back: of the topmost window first.
pub open spec fn scene_popups(
    windows: Seq<SceneWindow>,
    override_active: bool,
    focused: Option<u64>,
) -> Seq<(u64, (i32, i32))>
    decreases windows.len(),
{
    if windows.len() == 0 {
        Seq::empty()
    } else {
        let w = windows.last();
        (if window_drawn(w, override_active, focused) {
            drawn_popups(w.x, w.y, w.popups@)
        } else {
            Seq::empty()
        }) + scene_popups(windows.drop_last(), override_active, focused)
    }
}

/// All places fit 32 bits.
pub open spec fn scene_in_range(windows: Seq<SceneWindow>) -> bool {
    forall|i: int, j: int|
        0 <= i < windows.len() && 0 <= j < windows[i].popups@.len() ==> popup_in_range(
            windows[i].x,
            windows[i].y,
            #[trigger] windows[i].popups@[j],
        )
}

/// The popups of one window that are drawn; see [`drawn_popups`].
fn collect_popups(w: &SceneWindow) -> (r: Vec<(u64, (i32, i32))>)
    requires
        forall|j: int| 0 <= j < w.popups@.len() ==> popup_in_range(w.x, w.y, #[trigger] w.popups@[j]),
    ensures
        r@ == drawn_popups(w.x, w.y, w.popups@),
{
    let mut r: Vec<(u64, (i32, i32))> = Vec::new();
    let mut i: usize = 0;
    while i < w.popups.len()
        invariant
            i <= w.popups@.len(),
            forall|j: int|
                0 <= j < w.popups@.len() ==> popup_in_range(w.x, w.y, #[trigger] w.popups@[j]),
            r@ == drawn_popups(w.x, w.y, w.popups@.take(i as int)),
        decreases w.popups@.len() - i,
    {
        proof {
            assert(w.popups@.take(i + 1).drop_last() == w.popups@.take(i as int));
        }
        let p = w.popups[i];
        if p.mapped {
            r.push(
                (p.surface, (w.x + p.offset_x - p.geometry_x, w.y + p.offset_y - p.geometry_y)),
            );
        }
        i += 1;
    }
    proof {
        assert(w.popups@.take(w.popups@.len() as int) == w.popups@);
    }
    r
}

/// The popups that are drawn, front to back; see [`scene_popups`]. `windows`
/// are bottom first.
pub fn popup_surfaces_for_render(
    windows: &[SceneWindow],
    override_active: bool,
    focused: Option<u64>,
) -> (r: Vec<(u64, (i32, i32))>)
    requires
        scene_in_range(windows@),
    ensures
        r@ == scene_popups(windows@, override_active, focused),
{
    let mut r: Vec<(u64, (i32, i32))> = Vec::new();
    let mut i: usize = windows.len();
    proof {
        assert(windows@.take(windows@.len() as int) == windows@);
        assert(r@ + scene_popups(windows@, override_active, focused) =~= scene_popups(
            windows@,
            override_active,
            focused,
        ));
    }
    while i > 0
        invariant
            i <= windows@.len(),
            scene_in_range(windows@),
            r@ + scene_popups(windows@.take(i as int), override_active, focused) == scene_popups(
                windows@,
                override_active,
                focused,
            ),
        decreases i,
    {
        i -= 1;
        proof {
            assert(windows@.take(i + 1).drop_last() == windows@.take(i as int));
            assert(windows@.take(i + 1).last() == windows@[i as int]);
        }
        let ghost before = r@;
        let w = &windows[i];
        let drawn = w.toplevel && (!override_active || focused == Some(w.handle));
        if drawn {
            let mut own = collect_popups(w);
            r.append(&mut own);
        }
        proof {
            assert(r@ + scene_popups(windows@.take(i as int), override_active, focused) =~= before
                + scene_popups(windows@.take(i + 1), override_active, focused));
        }
    }
    proof {
        assert(r@ + Seq::<(u64, (i32, i32))>::empty() =~= r@);
    }
    r
}

/// Whether one buffer can go to the encoder as it is: the cursor was not
/// moved for long enough, or never, and no popup is drawn. `idle_nanos` is
/// how long ago the pointer was last active.
pub fn can_direct_scanout_scene(idle_nanos: Option<u64>, drawn: &[(u64, (i32, i32))]) -> (r: bool)
    ensures
        r == ((idle_nanos matches Some(n) ==> n > CURSOR_IDLE_NANOS) && drawn@.len() == 0),
{
    let cursor_hidden = match idle_nanos {
        Some(n) => n > CURSOR_IDLE_NANOS,
        None => true,
    };
    cursor_hidden && drawn.len() == 0
}

/// What is drawn while one surface stands for the game, front to back: the
/// popups where they are, and behind them the surface at the origin. Only the
/// game's own content is replaced.
pub fn override_render_elements(override_surface: u64, popups: &Vec<(u64, (i32, i32))>) -> (r: Vec<
    (u64, (i32, i32)),
>)
    ensures
        r@ == popups@.push((override_surface, (0i32, 0i32))),
{
    let mut r: Vec<(u64, (i32, i32))> = Vec::new();
    let mut i: usize = 0;
    while i < popups.len()
        invariant
            i <= popups@.len(),
            r@ == popups@.take(i as int),
        decreases popups@.len() - i,
    {
        r.push(popups[i]);
        i = i + 1;
    }
    assert(popups@.take(popups@.len() as int) == popups@);
    r.push((override_surface, (0, 0)));
    r
}

/// Whom to tell that a composed frame was shown.
#[derive(Debug)]
pub struct FrameCallbacks {
    /// Surface trees that may draw their next frame.
    pub frames: Vec<u64>,
    /// Surface trees that are told when their content was presented, as far
    /// as they were drawn.
    pub presented: Vec<u64>,
}

/// The surfaces of popups that are drawn.
pub open spec fn popup_surfaces(popups: Seq<(u64, (i32, i32))>) -> Seq<u64> {
    popups.map_values(|p: (u64, (i32, i32))| p.0)
}

/// Every window may draw its next frame, and so may the surface that stands
/// for the game while it does.
pub open spec fn frame_surfaces(
    windows: Seq<u64>,
    override_active: bool,
    override_surface: Option<u64>,
) -> Seq<u64> {
    match override_surface {
        Some(surface) if override_active => windows.push(surface),
        _ => windows,
    }
}

/// Every window was presented. While one surface stands for the game, only it
/// and the popups that are drawn were.
pub open spec fn presented_surfaces(
    windows: Seq<u64>,
    override_active: bool,
    override_surface: Option<u64>,
    popups: Seq<(u64, (i32, i32))>,
) -> Seq<u64> {
    if !override_active {
        windows
    } else {
        match override_surface {
            Some(surface) => seq![surface] + popup_surfaces(popups),
            None => Seq::empty(),
        }
    }
}

/// A copy of some handles.
fn copy_handles(handles: &Vec<u64>) -> (r: Vec<u64>)
    ensures
        r@ == handles@,
{
    let mut r: Vec<u64> = Vec::new();
    let mut i: usize = 0;
    while i < handles.len()
        invariant
            i <= handles@.len(),
            r@ == handles@.take(i as int),
        decreases handles@.len() - i,
    {
        r.push(handles[i]);
        i = i + 1;
    }
    assert(handles@.take(handles@.len() as int) == handles@);
    r
}

/// Whom to tell that a composed frame was shown; see [`frame_surfaces`] and
/// [`presented_surfaces`].
pub fn send_composited_frame_callbacks(
    windows: &Vec<u64>,
    override_active: bool,
    override_surface: Option<u64>,
    popups: &Vec<(u64, (i32, i32))>,
) -> (r: FrameCallbacks)
    ensures
        r.frames@ == frame_surfaces(windows@, override_active, override_surface),
        r.presented@ == presented_surfaces(windows@, override_active, override_surface, popups@),
{
    let mut frames = copy_handles(windows);
    if !override_active {
        return FrameCallbacks { frames, presented: copy_handles(windows) };
    }
    let mut presented: Vec<u64> = Vec::new();
    if let Some(surface) = override_surface {
        frames.push(surface);
        presented.push(surface);
        let mut i: usize = 0;
        assert(presented@ == seq![surface] + popup_surfaces(popups@.take(0)));
        while i < popups.len()
            invariant
                i <= popups@.len(),
                presented@ == seq![surface] + popup_surfaces(popups@.take(i as int)),
            decreases popups@.len() - i,
        {
            presented.push(popups[i].0);
            i = i + 1;
            assert(presented@ == seq![surface] + popup_surfaces(popups@.take(i as int)));
        }
        assert(popups@.take(popups@.len() as int) == popups@);
    }
    FrameCallbacks { frames, presented }
}

/// A surface that stands for no game is not told that it was presented.
pub proof fn hidden_surface_is_not_presented(
    windows: Seq<u64>,
    surface: u64,
    popups: Seq<(u64, (i32, i32))>,
)
    requires
        !windows.contains(surface),
    ensures
        !frame_surfaces(windows, false, Some(surface)).contains(surface),
        !presented_surfaces(windows, false, Some(surface), popups).contains(surface),
{
}

/// The time that a frame is shown for, in nanoseconds. `refresh` is the
/// output's rate in millihertz, where it is known; 11 ms is taken otherwise.
pub fn frame_period_nanos(refresh: Option<i32>) -> (r: u64)
    ensures
        r == match refresh {
            Some(rate) => (1_000_000_000_000int / (if rate > 1 { rate as int } else { 1 })) as u64,
            None => 11_000_000,
        },
{
    match refresh {
        Some(rate) => {
            let rate: u64 = if rate > 1 {
                rate as u64
            } else {
                1
            };
            1_000_000_000_000u64 / rate
        },
        None => 11_000_000,
    }
}

/// A popup without a buffer is not drawn.
pub proof fn only_mapped_popups_are_drawn(x: i32, y: i32, popups: Seq<ScenePopup>)
    requires
        forall|i: int| 0 <= i < popups.len() ==> !(#[trigger] popups[i]).mapped,
    ensures
        drawn_popups(x, y, popups).len() == 0,
    decreases popups.len(),
{
    if popups.len() > 0 {
        assert(!popups[popups.len() - 1].mapped);
        assert forall|i: int| 0 <= i < popups.drop_last().len() implies !(
        #[trigger] popups.drop_last()[i]).mapped by {
            assert(popups.drop_last()[i] == popups[i]);
        }
        only_mapped_popups_are_drawn(x, y, popups.drop_last());
    }
}

/// While the scene is replaced by one surface, no popup is drawn unless the
/// focused window is there.
pub proof fn replaced_scene_draws_focused_popups_only(windows: Seq<SceneWindow>, focused: Option<u64>)
    requires
        forall|i: int| 0 <= i < windows.len() ==> focused != Some((#[trigger] windows[i]).handle),
    ensures
        scene_popups(windows, true, focused).len() == 0,
    decreases windows.len(),
{
    if windows.len() > 0 {
        assert(focused != Some(windows[windows.len() - 1].handle));
        assert forall|i: int| 0 <= i < windows.drop_last().len() implies focused != Some(
            (#[trigger] windows.drop_last()[i]).handle,
        ) by {
            assert(windows.drop_last()[i] == windows[i]);
        }
        replaced_scene_draws_focused_popups_only(windows.drop_last(), focused);
    }
}

/// A popup of a window is drawn exactly if it has a buffer, at the place of
/// the window and its own in it, less where its geometry begins.
pub proof fn popups_with_a_buffer_are_drawn(x: i32, y: i32, popups: Seq<ScenePopup>, surface: u64, at: (i32, i32))
    requires
        forall|i: int| 0 <= i < popups.len() ==> popup_in_range(x, y, #[trigger] popups[i]),
    ensures
        drawn_popups(x, y, popups).contains((surface, at)) <==> exists|i: int|
            0 <= i < popups.len() && (#[trigger] popups[i]).mapped && popups[i].surface == surface && at.0 == x
                + popups[i].offset_x - popups[i].geometry_x && at.1 == y + popups[i].offset_y
                - popups[i].geometry_y,
    decreases popups.len(),
{
    if popups.len() > 0 {
        let rest = popups.drop_last();
        let last = popups.len() - 1;
        assert(forall|i: int| 0 <= i < last ==> rest[i] == popups[i]);
        popups_with_a_buffer_are_drawn(x, y, rest, surface, at);
        let all = drawn_popups(x, y, popups);
        let before = drawn_popups(x, y, rest);
        let p = popups[last];
        assert(popup_in_range(x, y, p));
        if before.contains((surface, at)) {
            let k = choose|k: int| 0 <= k < before.len() && before[k] == (surface, at);
            assert(all[k] == (surface, at));
            let i = choose|i: int|
                0 <= i < rest.len() && (#[trigger] rest[i]).mapped && rest[i].surface == surface && at.0 == x
                    + rest[i].offset_x - rest[i].geometry_x && at.1 == y + rest[i].offset_y
                    - rest[i].geometry_y;
            assert(popups[i] == rest[i]);
        }
        if p.mapped {
            assert(all[all.len() - 1].0 == p.surface);
            if p.surface == surface && at.0 == x + p.offset_x - p.geometry_x && at.1 == y + p.offset_y
                - p.geometry_y {
                assert(all[all.len() - 1] == (surface, at));
            }
        }
        if all.contains((surface, at)) {
            let k = choose|k: int| 0 <= k < all.len() && all[k] == (surface, at);
            if k < before.len() {
                assert(before[k] == (surface, at));
            } else {
                assert(p.mapped);
            }
        }
        if exists|i: int|
            0 <= i < popups.len() && (#[trigger] popups[i]).mapped && popups[i].surface == surface && at.0 == x
                + popups[i].offset_x - popups[i].geometry_x && at.1 == y + popups[i].offset_y
                - popups[i].geometry_y {
            let i = choose|i: int|
                0 <= i < popups.len() && (#[trigger] popups[i]).mapped && popups[i].surface == surface && at.0
                    == x + popups[i].offset_x - popups[i].geometry_x && at.1 == y + popups[i].offset_y
                    - popups[i].geometry_y;
            if i < last {
                assert(rest[i] == popups[i]);
            }
        }
    }
}

/// The popups of the topmost window are drawn in front of those of the windows
/// below it: of every toplevel, or of the focused one alone while the scene is
/// replaced. Popups of one window keep their order.
pub proof fn topmost_popups_come_first(
    windows: Seq<SceneWindow>,
    w: SceneWindow,
    override_active: bool,
    focused: Option<u64>,
    popups: Seq<ScenePopup>,
    p: ScenePopup,
)
    ensures
        scene_popups(windows.push(w), override_active, focused) == if w.toplevel && (!override_active || focused
            == Some(w.handle)) {
            drawn_popups(w.x, w.y, w.popups@) + scene_popups(windows, override_active, focused)
        } else {
            scene_popups(windows, override_active, focused)
        },
        scene_popups(Seq::empty(), override_active, focused).len() == 0,
        drawn_popups(w.x, w.y, popups.push(p)).len() == drawn_popups(w.x, w.y, popups).len() + (if p.mapped {
            1int
        } else {
            0
        }),
        drawn_popups(w.x, w.y, popups.push(p)).take(drawn_popups(w.x, w.y, popups).len() as int)
            == drawn_popups(w.x, w.y, popups),
{
    assert(windows.push(w).drop_last() == windows);
    let none = Seq::<(u64, (i32, i32))>::empty();
    assert(none + scene_popups(windows, override_active, focused) == scene_popups(
        windows,
        override_active,
        focused,
    ));
    assert(popups.push(p).drop_last() == popups);
}

/// Every window may draw its next frame and is told that it was presented;
/// while one surface stands for the game, that surface may draw too, and it
/// and the popups that are drawn are told instead of the windows.
pub proof fn who_is_told_of_a_frame(
    windows: Seq<u64>,
    surface: u64,
    popups: Seq<(u64, (i32, i32))>,
    who: u64,
)
    ensures
        windows.contains(who) ==> frame_surfaces(windows, true, Some(surface)).contains(who),
        frame_surfaces(windows, true, Some(surface)).contains(surface),
        frame_surfaces(windows, false, Some(surface)) == windows,
        frame_surfaces(windows, true, None) == windows,
        presented_surfaces(windows, false, Some(surface), popups) == windows,
        presented_surfaces(windows, true, Some(surface), popups).contains(who) <==> who == surface || exists|
            k: int,
        | 0 <= k < popups.len() && (#[trigger] popups[k]).0 == who,
        presented_surfaces(windows, true, None, popups).len() == 0,
{
    let frames = frame_surfaces(windows, true, Some(surface));
    assert(frames[frames.len() - 1] == surface);
    if windows.contains(who) {
        let k = choose|k: int| 0 <= k < windows.len() && windows[k] == who;
        assert(frames[k] == who);
    }
    let told = presented_surfaces(windows, true, Some(surface), popups);
    assert(told[0] == surface);
    if exists|k: int| 0 <= k < popups.len() && (#[trigger] popups[k]).0 == who {
        let k = choose|k: int| 0 <= k < popups.len() && (#[trigger] popups[k]).0 == who;
        assert(told[k + 1] == who);
    }
    if told.contains(who) && who != surface {
        let k = choose|k: int| 0 <= k < told.len() && told[k] == who;
        assert(popups[k - 1].0 == who);
    }
}

} // verus!
