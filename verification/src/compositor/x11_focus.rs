//! Window properties of the X server: what a reply means, and what to write.
//!
//! Talking to the X server is left to the caller. A property is asked for,
//! the reply comes in as a [`PropertyReply`], and what is to be written goes
//! out as a [`PropertyChange`].
use vstd::prelude::*;

use crate::compositor::policy::FocusControl;

verus! {

/// The predefined atom `CARDINAL`.
pub const XA_CARDINAL: u64 = 6;

/// How many app ids are read at most.
pub const MAX_APP_IDS: usize = 1024;

/// Reply to a request for a window property.
pub struct PropertyReply {
    /// 0 on success.
    pub status: i32,
    /// Bits per item.
    pub format: i32,
    /// The items, each as a C `long`; `None` when no data came.
    pub items: Option<Vec<i64>>,
}

impl PropertyReply {
    /// The items of a reply that succeeded with 32-bit items; none otherwise.
    pub open spec fn longs(self) -> Seq<i64> {
        match self.items {
            Some(items) if self.status == 0 && self.format == 32 => items@,
            _ => Seq::empty(),
        }
    }
}

/// The property's first value, or `default` where it has none.
pub open spec fn cardinal(reply: PropertyReply, default: u32) -> u32 {
    if reply.longs().len() > 0 {
        reply.longs()[0] as u32
    } else {
        default
    }
}

/// Reads the first value of a property; see [`cardinal`].
pub fn read_cardinal(reply: &PropertyReply, default_val: u32) -> (r: u32)
    ensures
        r == cardinal(*reply, default_val),
{
    match &reply.items {
        Some(items) => {
            if reply.status == 0 && items.len() > 0 && reply.format == 32 {
                #[verifier::truncate]
                let low: u32 = items[0] as u32;
                low
            } else {
                default_val
            }
        },
        None => default_val,
    }
}

/// The first `max` values of a property.
pub open spec fn cardinals(reply: PropertyReply, max: nat) -> Seq<u32> {
    let n = if reply.longs().len() < max { reply.longs().len() } else { max };
    Seq::new(n, |i: int| reply.longs()[i] as u32)
}

/// Reads the values of a property, at most `max_items`; see [`cardinals`].
pub fn read_cardinal_array(reply: &PropertyReply, max_items: usize) -> (r: Vec<u32>)
    ensures
        r@ == cardinals(*reply, max_items as nat),
{
    let mut r: Vec<u32> = Vec::new();
    if let Some(items) = &reply.items {
        if reply.status == 0 && reply.format == 32 {
            let mut i: usize = 0;
            while i < items.len() && i < max_items
                invariant
                    i <= items@.len(),
                    i <= max_items,
                    items@ == reply.longs(),
                    r@ =~= Seq::new(i as nat, |j: int| items@[j] as u32),
                decreases items@.len() - i,
            {
                #[verifier::truncate]
                let low: u32 = items[i] as u32;
                r.push(low);
                i += 1;
            }
        }
    }
    proof {
        assert(r@ =~= cardinals(*reply, max_items as nat));
    }
    r
}

/// Encodes a display number as an XWayland server id.
pub fn display_id_to_server_id(display_number: u32) -> (r: u32)
    requires
        display_number + 100 <= u32::MAX,
    ensures
        r == (((display_number + 100) as u32) << 8) | display_number,
{
    ((display_number + 100) << 8) | display_number
}

/// The number of a display with at most 256 displays can be read back from
/// its server id.
pub proof fn server_id_holds_display(display_number: u32)
    requires
        display_number < 256,
    ensures
        ((((display_number + 100) as u32) << 8) | display_number) & 0xff == display_number,
        ((((display_number + 100) as u32) << 8) | display_number) >> 8 == display_number + 100,
{
    let d = display_number;
    let e = (display_number + 100) as u32;
    assert(d < 256 && e < 356 ==> ((e << 8) | d) & 0xff == d) by (bit_vector);
    assert(d < 256 && e < 356 ==> ((e << 8) | d) >> 8 == e) by (bit_vector);
}

/// Scales an opacity of 32 bits to 8 bits.
pub open spec fn scaled_opacity(raw: u32) -> int {
    raw as int * 255 / 0xFFFF_FFFF
}

/// Scaling keeps the ends and the order of opacities.
pub proof fn opacity_scale_is_monotone(a: u32, b: u32)
    ensures
        scaled_opacity(0) == 0,
        scaled_opacity(0xFFFF_FFFF) == 255,
        0 <= scaled_opacity(a) <= 255,
        a <= b ==> scaled_opacity(a) <= scaled_opacity(b),
{
    if a <= b {
        assert(a as int * 255 / 0xFFFF_FFFF <= b as int * 255 / 0xFFFF_FFFF) by (nonlinear_arith)
            requires
                a <= b,
        ;
    }
}

/// The atoms in use, 0 for one that could not be had.
#[derive(Clone, Copy, Debug, PartialEq, Eq, Structural)]
pub struct CachedAtoms {
    pub net_wm_state_skip_taskbar: u64,
    pub net_wm_state_skip_pager: u64,
    pub gamescope_focused_app: u64,
    pub gamescope_focusable_apps: u64,
    pub gamescope_focusable_windows: u64,
}

/// Something to be written to the X server.
pub enum PropertyChange {
    /// Replace a property of a window by these values, of type
    /// [`XA_CARDINAL`].
    Write { window: u64, atom: u64, values: Vec<u32> },
    /// Delete a property of a window.
    Delete { window: u64, atom: u64 },
}

/// A write of `values`.
pub open spec fn writes(change: Option<PropertyChange>, root: u64, property: u64, data: Seq<u32>) -> bool {
    match change {
        Some(PropertyChange::Write { window, atom, values }) => window == root && atom == property
            && values@ == data,
        _ => false,
    }
}

/// A deletion.
pub open spec fn deletes(change: Option<PropertyChange>, root: u64, property: u64) -> bool {
    change == Some(PropertyChange::Delete { window: root, atom: property })
}

/// The values of the triplets, one after the other.
pub open spec fn flattened(triplets: Seq<(u32, u32, u32)>) -> Seq<u32>
    decreases triplets.len(),
{
    if triplets.len() == 0 {
        Seq::empty()
    } else {
        let t = triplets.last();
        flattened(triplets.drop_last()).push(t.0).push(t.1).push(t.2)
    }
}

/// The atoms in a reply for `_NET_WM_STATE`.
pub open spec fn state_atoms(reply: PropertyReply) -> Seq<u64> {
    Seq::new(reply.longs().len(), |i: int| reply.longs()[i] as u64)
}

/// A connection to the X server: its root window and its atoms.
#[derive(Clone, Copy, Debug, PartialEq, Eq, Structural)]
pub struct X11Focus {
    pub root: u64,
    pub atoms: CachedAtoms,
}

impl X11Focus {
    /// What Steam asks for: the window, where the reply names one other than
    /// 0, and the app ids.
    pub fn read_focus_control(window: &PropertyReply, app_ids: &PropertyReply) -> (r: FocusControl)
        ensures
            r.window == if cardinal(*window, 0) != 0 {
                Some(cardinal(*window, 0))
            } else {
                None
            },
            r.app_ids@ == cardinals(*app_ids, MAX_APP_IDS as nat),
    {
        let id = read_cardinal(window, 0);
        FocusControl {
            window: if id != 0 {
                Some(id)
            } else {
                None
            },
            app_ids: read_cardinal_array(app_ids, MAX_APP_IDS),
        }
    }

    /// The process that owns a window: what the window says, else what the
    /// server's resource extension says (0 when it does not know either).
    pub fn get_window_pid(net_wm_pid: &PropertyReply, xres_pid: u32) -> (r: u32)
        ensures
            r == if cardinal(*net_wm_pid, 0) != 0 {
                cardinal(*net_wm_pid, 0)
            } else {
                xres_pid
            },
    {
        let pid = read_cardinal(net_wm_pid, 0);
        if pid != 0 {
            pid
        } else {
            xres_pid
        }
    }

    /// The `STEAM_INPUT_FOCUS` of a window, 0 when unset.
    pub fn get_input_focus_mode(reply: &PropertyReply) -> (r: u32)
        ensures
            r == cardinal(*reply, 0),
    {
        read_cardinal(reply, 0)
    }

    /// The `STEAM_OVERLAY` of a window, 0 when unset.
    pub fn get_steam_overlay_value(reply: &PropertyReply) -> (r: u32)
        ensures
            r == cardinal(*reply, 0),
    {
        read_cardinal(reply, 0)
    }

    /// The opacity of a window, 0 to 255; opaque when unset.
    pub fn get_window_opacity(reply: &PropertyReply) -> (r: u32)
        ensures
            r as int == scaled_opacity(cardinal(*reply, 0xFFFF_FFFF)),
    {
        let raw = read_cardinal(reply, 0xFFFF_FFFF);
        proof {
            opacity_scale_is_monotone(raw, raw);
        }
        ((raw as u64 * 255) / 0xFFFF_FFFF) as u32
    }

    /// Whether a window is a Steam streaming client.
    pub fn is_steam_streaming_client(reply: &PropertyReply) -> (r: bool)
        ensures
            r == (cardinal(*reply, 0) != 0),
    {
        read_cardinal(reply, 0) != 0
    }

    /// Whether a window shows the video of a Steam streaming client.
    pub fn is_steam_streaming_client_video(reply: &PropertyReply) -> (r: bool)
        ensures
            r == (cardinal(*reply, 0) != 0),
    {
        read_cardinal(reply, 0) != 0
    }

    /// Whether a window is an external overlay.
    pub fn is_gamescope_external_overlay(reply: &PropertyReply) -> (r: bool)
        ensures
            r == (cardinal(*reply, 0) != 0),
    {
        read_cardinal(reply, 0) != 0
    }

    /// The VR overlay that a window is the target of: two values, the low one
    /// first; 0 when unset.
    pub fn get_vr_overlay_target(reply: &PropertyReply) -> (r: u64)
        ensures
            r == if reply.longs().len() >= 2 {
                ((reply.longs()[1] as u64) << 32) | (reply.longs()[0] as u64)
            } else {
                0
            },
    {
        match &reply.items {
            Some(items) => {
                if reply.status == 0 && items.len() >= 2 && reply.format == 32 {
                    #[verifier::truncate]
                    let high: u64 = items[1] as u64;
                    #[verifier::truncate]
                    let low: u64 = items[0] as u64;
                    (high << 32) | low
                } else {
                    0
                }
            },
            None => 0,
        }
    }

    /// Whether a window is the legacy Big Picture one.
    pub fn is_steam_big_picture(reply: &PropertyReply) -> (r: bool)
        ensures
            r == (cardinal(*reply, 0) != 0),
    {
        read_cardinal(reply, 0) != 0
    }

    /// The Wine style of a window, 0 when unset.
    pub fn get_window_style(reply: &PropertyReply) -> (r: u32)
        ensures
            r == cardinal(*reply, 0),
    {
        read_cardinal(reply, 0)
    }

    /// What tells Steam the focused app.
    pub fn set_focused_app(&self, app_id: u32) -> (r: Option<PropertyChange>)
        ensures
            self.atoms.gamescope_focused_app == 0 ==> r is None,
            self.atoms.gamescope_focused_app != 0 ==> writes(
                r,
                self.root,
                self.atoms.gamescope_focused_app,
                seq![app_id],
            ),
    {
        if self.atoms.gamescope_focused_app == 0 {
            return None;
        }
        let mut values: Vec<u32> = Vec::new();
        values.push(app_id);
        Some(PropertyChange::Write { window: self.root, atom: self.atoms.gamescope_focused_app, values })
    }

    /// What tells Steam that no app is focused.
    pub fn clear_focused_app(&self) -> (r: Option<PropertyChange>)
        ensures
            self.atoms.gamescope_focused_app == 0 ==> r is None,
            self.atoms.gamescope_focused_app != 0 ==> deletes(
                r,
                self.root,
                self.atoms.gamescope_focused_app,
            ),
    {
        if self.atoms.gamescope_focused_app == 0 {
            return None;
        }
        Some(PropertyChange::Delete { window: self.root, atom: self.atoms.gamescope_focused_app })
    }

    /// What tells Steam the apps that can be focused; nothing for none.
    pub fn set_focusable_apps(&self, app_ids: &[u32]) -> (r: Option<PropertyChange>)
        ensures
            self.atoms.gamescope_focusable_apps == 0 || app_ids@.len() == 0 ==> r is None,
            self.atoms.gamescope_focusable_apps != 0 && app_ids@.len() > 0 ==> writes(
                r,
                self.root,
                self.atoms.gamescope_focusable_apps,
                app_ids@,
            ),
    {
        if self.atoms.gamescope_focusable_apps == 0 || app_ids.len() == 0 {
            return None;
        }
        let mut values: Vec<u32> = Vec::new();
        let mut i: usize = 0;
        while i < app_ids.len()
            invariant
                i <= app_ids@.len(),
                values@ == app_ids@.take(i as int),
            decreases app_ids@.len() - i,
        {
            values.push(app_ids[i]);
            i += 1;
        }
        proof {
            assert(app_ids@.take(app_ids@.len() as int) == app_ids@);
        }
        Some(
            PropertyChange::Write {
                window: self.root,
                atom: self.atoms.gamescope_focusable_apps,
                values,
            },
        )
    }

    /// What tells Steam that no app can be focused.
    pub fn clear_focusable_apps(&self) -> (r: Option<PropertyChange>)
        ensures
            self.atoms.gamescope_focusable_apps == 0 ==> r is None,
            self.atoms.gamescope_focusable_apps != 0 ==> deletes(
                r,
                self.root,
                self.atoms.gamescope_focusable_apps,
            ),
    {
        if self.atoms.gamescope_focusable_apps == 0 {
            return None;
        }
        Some(PropertyChange::Delete { window: self.root, atom: self.atoms.gamescope_focusable_apps })
    }

    /// What tells Steam the windows that can be focused, each as window, app
    /// id and process id; nothing for none.
    pub fn set_focusable_windows(&self, triplets: &[(u32, u32, u32)]) -> (r: Option<PropertyChange>)
        ensures
            self.atoms.gamescope_focusable_windows == 0 || triplets@.len() == 0 ==> r is None,
            self.atoms.gamescope_focusable_windows != 0 && triplets@.len() > 0 ==> writes(
                r,
                self.root,
                self.atoms.gamescope_focusable_windows,
                flattened(triplets@),
            ),
    {
        if self.atoms.gamescope_focusable_windows == 0 || triplets.len() == 0 {
            return None;
        }
        let mut values: Vec<u32> = Vec::new();
        let mut i: usize = 0;
        while i < triplets.len()
            invariant
                i <= triplets@.len(),
                values@ == flattened(triplets@.take(i as int)),
            decreases triplets@.len() - i,
        {
            proof {
                assert(triplets@.take(i + 1).drop_last() == triplets@.take(i as int));
            }
            let t = triplets[i];
            values.push(t.0);
            values.push(t.1);
            values.push(t.2);
            i += 1;
        }
        proof {
            assert(triplets@.take(triplets@.len() as int) == triplets@);
        }
        Some(
            PropertyChange::Write {
                window: self.root,
                atom: self.atoms.gamescope_focusable_windows,
                values,
            },
        )
    }

    /// What tells Steam that no window can be focused.
    pub fn clear_focusable_windows(&self) -> (r: Option<PropertyChange>)
        ensures
            self.atoms.gamescope_focusable_windows == 0 ==> r is None,
            self.atoms.gamescope_focusable_windows != 0 ==> deletes(
                r,
                self.root,
                self.atoms.gamescope_focusable_windows,
            ),
    {
        if self.atoms.gamescope_focusable_windows == 0 {
            return None;
        }
        Some(PropertyChange::Delete { window: self.root, atom: self.atoms.gamescope_focusable_windows })
    }

    /// The atoms of a window's `_NET_WM_STATE`; `None` where it has none.
    pub fn get_net_wm_state(reply: &PropertyReply) -> (r: Option<Vec<u64>>)
        ensures
            r is None <==> reply.longs().len() == 0,
            r matches Some(atoms) ==> atoms@ == state_atoms(*reply),
    {
        match &reply.items {
            Some(items) => {
                if reply.status != 0 || items.len() == 0 || reply.format != 32 {
                    return None;
                }
                let mut atoms: Vec<u64> = Vec::new();
                let mut i: usize = 0;
                while i < items.len()
                    invariant
                        i <= items@.len(),
                        atoms@ =~= Seq::new(i as nat, |j: int| items@[j] as u64),
                    decreases items@.len() - i,
                {
                    #[verifier::truncate]
                    let atom: u64 = items[i] as u64;
                    atoms.push(atom);
                    i += 1;
                }
                Some(atoms)
            },
            None => None,
        }
    }

    /// Whether a window skips the taskbar and whether it skips the pager; an
    /// atom that could not be had counts as not set.
    pub fn get_net_wm_state_skip_flags(&self, reply: &PropertyReply) -> (r: (bool, bool))
        ensures
            r.0 == (self.atoms.net_wm_state_skip_taskbar != 0 && state_atoms(*reply).contains(
                self.atoms.net_wm_state_skip_taskbar,
            )),
            r.1 == (self.atoms.net_wm_state_skip_pager != 0 && state_atoms(*reply).contains(
                self.atoms.net_wm_state_skip_pager,
            )),
    {
        match Self::get_net_wm_state(reply) {
            Some(atoms) => {
                let taskbar = has_atom(&atoms, self.atoms.net_wm_state_skip_taskbar);
                let pager = has_atom(&atoms, self.atoms.net_wm_state_skip_pager);
                (
                    self.atoms.net_wm_state_skip_taskbar != 0 && taskbar,
                    self.atoms.net_wm_state_skip_pager != 0 && pager,
                )
            },
            None => (false, false),
        }
    }
}

/// Whether `atoms` holds `atom`.
fn has_atom(atoms: &[u64], atom: u64) -> (r: bool)
    ensures
        r == atoms@.contains(atom),
{
    let mut i: usize = 0;
    while i < atoms.len()
        invariant
            i <= atoms@.len(),
            forall|j: int| 0 <= j < i ==> atoms@[j] != atom,
        decreases atoms@.len() - i,
    {
        if atoms[i] == atom {
            return true;
        }
        i += 1;
    }
    false
}

/// A reply that failed, has items of another size or none gives the default;
/// any other gives its first item, and as many of its items as are asked for.
pub proof fn replies_give_their_items(reply: PropertyReply, default: u32, max: nat, i: int)
    ensures
        reply.status != 0 || reply.format != 32 || reply.items is None ==> cardinal(reply, default) == default
            && cardinals(reply, max).len() == 0 && state_atoms(reply).len() == 0,
        reply.items matches Some(v) && reply.status == 0 && reply.format == 32 && v@.len() == 0 ==> cardinal(
            reply,
            default,
        ) == default,
        reply.items matches Some(v) ==> (reply.status == 0 && reply.format == 32 && v@.len() > 0 ==> cardinal(
            reply,
            default,
        ) == v@[0] as u32),
        reply.items matches Some(v) ==> (reply.status == 0 && reply.format == 32 ==> {
            &&& cardinals(reply, max).len() <= max
            &&& cardinals(reply, max).len() <= v@.len()
            &&& cardinals(reply, max).len() == max || cardinals(reply, max).len() == v@.len()
            &&& 0 <= i < cardinals(reply, max).len() ==> cardinals(reply, max)[i] == v@[i] as u32
            &&& state_atoms(reply).len() == v@.len()
            &&& 0 <= i < v@.len() ==> state_atoms(reply)[i] == v@[i] as u64
        }),
{
}

/// Windows are written three values each: window, app id and process id.
pub proof fn three_values_for_each_window(triplets: Seq<(u32, u32, u32)>, i: int)
    ensures
        flattened(triplets).len() == 3 * triplets.len(),
        0 <= i < triplets.len() ==> flattened(triplets)[3 * i] == triplets[i].0 && flattened(triplets)[3 * i
            + 1] == triplets[i].1 && flattened(triplets)[3 * i + 2] == triplets[i].2,
    decreases triplets.len(),
{
    if triplets.len() > 0 {
        three_values_for_each_window(triplets.drop_last(), i);
    }
}

/// What is written is one property of one window, with exactly these values;
/// what is deleted is one property of one window; and nothing does both.
pub proof fn changes_touch_one_property(change: PropertyChange, root: u64, property: u64, data: Seq<u32>)
    ensures
        writes(Some(change), root, property, data) <==> (change matches PropertyChange::Write {
            window,
            atom,
            values,
        } && window == root && atom == property && values@ == data),
        deletes(Some(change), root, property) <==> (change matches PropertyChange::Delete { window, atom }
            && window == root && atom == property),
        !writes(None, root, property, data) && !deletes(None, root, property),
        !(writes(Some(change), root, property, data) && deletes(Some(change), root, property)),
{
}

} // verus!
