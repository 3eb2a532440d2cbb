//! Gamepads: which are connected, what they emit and when they rumble.
//!
//! Creating a virtual gamepad and driving it is left to the caller; this
//! module keeps the slots and says what to do with them.
use vstd::prelude::*;

use crate::control::remap;
use crate::control::remap::{HoldToHome, HoldTransition, HomeButtonConfig, NANOS_PER_MILLI};

verus! {

/// How many gamepads there can be.
pub const SLOTS: usize = 16;

/// A time that leaves room for every deadline.
pub open spec fn time_in_range(now: u128) -> bool {
    now <= u128::MAX - 0x1_0000_0000_0000_0000 * NANOS_PER_MILLI
}

/// A connected gamepad.
#[derive(Clone, Copy, Debug, PartialEq, Eq, Structural)]
pub struct GamepadSlot {
    /// Holding Back for Home.
    pub remap: HoldToHome,
    /// How the Home button is set up.
    pub config: HomeButtonConfig,
    /// When the rumble ends, if there is one.
    pub home_rumble_off_at: Option<u128>,
}

/// What a gamepad is to do.
#[derive(Clone, Copy, Debug, PartialEq, Eq, Structural)]
pub struct SlotOutput {
    /// The buttons to emit, where they change.
    pub pressed: Option<u32>,
    /// End the rumble.
    pub rumble_off: bool,
    /// Begin a rumble of this strength.
    pub rumble_on: Option<u16>,
}

/// A gamepad just connected: at rest.
pub open spec fn fresh_slot(config: HomeButtonConfig) -> GamepadSlot {
    GamepadSlot {
        remap: HoldToHome {
            source_mask: if config.hold_ms != 0 { Some(remap::BACK_FLAG) } else { None },
            hold: (config.hold_ms * NANOS_PER_MILLI) as u128,
            state: remap::HoldState::Inactive,
            source_pressed: false,
            suppress_home: config.suppress_home,
            last_passthrough: 0,
        },
        config,
        home_rumble_off_at: None,
    }
}

/// The earlier of two deadlines that may be none.
pub open spec fn earlier(a: Option<u128>, b: Option<u128>) -> Option<u128> {
    match (a, b) {
        (Some(x), Some(y)) => Some(if x <= y { x } else { y }),
        (Some(x), None) => Some(x),
        (None, y) => y,
    }
}

impl GamepadSlot {
    /// The rumble is over at `now`.
    pub open spec fn rumble_over(self, now: u128) -> bool {
        self.home_rumble_off_at matches Some(t) && now >= t
    }

    /// When the rumble ends, once it was looked at.
    pub open spec fn rumble_left(self, now: u128) -> Option<u128> {
        if self.rumble_over(now) {
            None
        } else {
            self.home_rumble_off_at
        }
    }

    /// A transition at `now` begins a rumble: Home was activated, none is
    /// going on, and one is set up.
    pub open spec fn rumbles(self, transition: HoldTransition, now: u128) -> bool {
        transition == HoldTransition::HomeActivated && self.rumble_left(now) is None && self.config.rumble
            && self.config.rumble_duration_ms != 0
    }

    /// When the rumble ends after a transition at `now`.
    pub open spec fn rumble_after(self, transition: HoldTransition, now: u128) -> Option<u128> {
        if self.rumbles(transition, now) {
            Some((now + self.config.rumble_duration_ms * NANOS_PER_MILLI) as u128)
        } else {
            self.rumble_left(now)
        }
    }

    /// The hold goes with the setup.
    pub open spec fn well_formed(self) -> bool {
        self.remap.hold == self.config.hold_ms * NANOS_PER_MILLI
    }

    /// When `advance` is next due.
    pub open spec fn due(self) -> Option<u128> {
        earlier(self.remap.due(), self.home_rumble_off_at)
    }

    /// What buttons that came in at `now` do to Home.
    pub open spec fn apply_transition(self, flags: u32, now: u128) -> HoldTransition {
        if self.remap.source_mask is Some {
            HoldToHome::transition(self.remap.state, self.remap.state_after(flags, now))
        } else {
            HoldTransition::Unchanged
        }
    }

    /// The gamepad after buttons came in at `now`.
    pub open spec fn applied(self, flags: u32, now: u128) -> GamepadSlot {
        GamepadSlot {
            remap: if self.remap.source_mask is Some {
                HoldToHome {
                    state: self.remap.state_after(flags, now),
                    source_pressed: self.remap.down(flags),
                    last_passthrough: self.remap.passed(flags),
                    ..self.remap
                }
            } else {
                self.remap
            },
            home_rumble_off_at: self.rumble_after(self.apply_transition(flags, now), now),
            ..self
        }
    }

    /// What the gamepad is to do after buttons came in at `now`.
    pub open spec fn applied_output(self, flags: u32, now: u128) -> SlotOutput {
        SlotOutput {
            pressed: Some(
                if self.remap.source_mask is Some {
                    self.remap.passed(flags) | self.remap.added(self.remap.state_after(flags, now))
                } else {
                    flags
                },
            ),
            rumble_off: self.rumble_over(now),
            rumble_on: if self.rumbles(self.apply_transition(flags, now), now) {
                Some(self.config.rumble_strength)
            } else {
                None
            },
        }
    }

    /// The hold is due at `now`.
    pub open spec fn hold_due(self, now: u128) -> bool {
        self.remap.source_mask is Some && self.remap.due() is Some && now >= self.remap.due()->0
    }

    /// What time that passed up to `now` does to Home.
    pub open spec fn advance_transition(self, now: u128) -> HoldTransition {
        if self.hold_due(now) {
            HoldToHome::transition(self.remap.state, self.remap.state_at(now))
        } else {
            HoldTransition::Unchanged
        }
    }

    /// The gamepad after time passed up to `now`.
    pub open spec fn advanced(self, now: u128) -> GamepadSlot {
        GamepadSlot {
            remap: if self.hold_due(now) {
                HoldToHome { state: self.remap.state_at(now), ..self.remap }
            } else {
                self.remap
            },
            home_rumble_off_at: self.rumble_after(self.advance_transition(now), now),
            ..self
        }
    }

    /// What the gamepad is to do after time passed up to `now`.
    pub open spec fn advanced_output(self, now: u128) -> SlotOutput {
        let h = self.remap;
        SlotOutput {
            pressed: if self.hold_due(now) {
                Some(h.last_passthrough | h.added(h.state_at(now)))
            } else {
                None
            },
            rumble_off: self.rumble_over(now),
            rumble_on: if self.rumbles(self.advance_transition(now), now) {
                Some(self.config.rumble_strength)
            } else {
                None
            },
        }
    }

    /// A gamepad just connected.
    pub fn new(config: &HomeButtonConfig) -> (r: Self)
        ensures
            r.well_formed(),
            r == fresh_slot(*config),
    {
        GamepadSlot { remap: HoldToHome::new(config), config: *config, home_rumble_off_at: None }
    }

    /// Takes the buttons that came in at `now`.
    pub fn apply_buttons(&mut self, flags: u32, now: u128) -> (r: SlotOutput)
        requires
            old(self).well_formed(),
            time_in_range(now),
        ensures
            final(self).well_formed(),
            *final(self) == old(self).applied(flags, now),
            r == old(self).applied_output(flags, now),
    {
        let (remapped, transition) = self.remap.apply(flags, now);
        let rumble_off = self.check_rumble(now);
        let rumble_on = self.maybe_fire_rumble(transition, now);
        SlotOutput { pressed: Some(remapped), rumble_off, rumble_on }
    }

    /// Lets time pass up to `now`. The buttons change only if the hold was
    /// due: a rumble that ends leaves them as they are.
    pub fn advance(&mut self, now: u128) -> (r: SlotOutput)
        requires
            old(self).well_formed(),
            time_in_range(now),
        ensures
            final(self).well_formed(),
            *final(self) == old(self).advanced(now),
            r == old(self).advanced_output(now),
    {
        let rumble_off = self.check_rumble(now);
        let due = match self.remap.next_deadline() {
            Some(t) => now >= t,
            None => false,
        };
        if !due || self.remap.source_mask.is_none() {
            return SlotOutput { pressed: None, rumble_off, rumble_on: None };
        }
        let (remapped, transition) = self.remap.advance(now);
        let rumble_on = self.maybe_fire_rumble(transition, now);
        SlotOutput { pressed: Some(remapped), rumble_off, rumble_on }
    }

    /// When `advance` is next due: for the hold or for the rumble.
    pub fn next_deadline(&self) -> (r: Option<u128>)
        ensures
            r == self.due(),
    {
        match (self.remap.next_deadline(), self.home_rumble_off_at) {
            (Some(a), Some(b)) => if a <= b {
                Some(a)
            } else {
                Some(b)
            },
            (Some(a), None) => Some(a),
            (None, b) => b,
        }
    }

    /// Ends a rumble that is over.
    fn check_rumble(&mut self, now: u128) -> (r: bool)
        ensures
            r == old(self).rumble_over(now),
            *final(self) == (GamepadSlot {
                home_rumble_off_at: old(self).rumble_left(now),
                ..*old(self)
            }),
    {
        if let Some(t) = self.home_rumble_off_at {
            if now >= t {
                self.home_rumble_off_at = None;
                return true;
            }
        }
        false
    }

    /// Begins a rumble if a transition calls for one.
    fn maybe_fire_rumble(&mut self, transition: HoldTransition, now: u128) -> (r: Option<u16>)
        requires
            time_in_range(now),
        ensures
            ({
                let fires = transition == HoldTransition::HomeActivated && old(self).home_rumble_off_at
                    is None && old(self).config.rumble && old(self).config.rumble_duration_ms != 0;
                &&& r == if fires {
                    Some(old(self).config.rumble_strength)
                } else {
                    None
                }
                &&& *final(self) == (GamepadSlot {
                    home_rumble_off_at: if fires {
                        Some((now + old(self).config.rumble_duration_ms * NANOS_PER_MILLI) as u128)
                    } else {
                        old(self).home_rumble_off_at
                    },
                    ..*old(self)
                })
            }),
    {
        if transition == HoldTransition::HomeActivated && self.home_rumble_off_at.is_none()
            && self.config.rumble && self.config.rumble_duration_ms != 0 {
            self.home_rumble_off_at =
                Some(now + self.config.rumble_duration_ms as u128 * NANOS_PER_MILLI);
            return Some(self.config.rumble_strength);
        }
        None
    }
}

// ---------------------------------------------------------------------------
// All gamepads
// ---------------------------------------------------------------------------

/// What is to be done for a gamepad that announced itself.
#[derive(Clone, Copy, Debug, PartialEq, Eq, Structural)]
pub enum Announced {
    /// There is no such slot.
    NoSlot,
    /// Create a gamepad for the slot.
    Create,
    /// It is connected already.
    Known,
}

/// What an update calls for.
pub struct UpdateOutcome {
    /// What the gamepad is to do; `None` where none is connected.
    pub output: Option<SlotOutput>,
    /// The gamepads that were disconnected, in order.
    pub disconnected: Vec<u8>,
}

/// A gamepad that a timer reached, and what it is to do.
#[derive(Clone, Copy, Debug, PartialEq, Eq, Structural)]
pub struct Timed {
    pub index: u8,
    pub output: SlotOutput,
}

/// The gamepads, one slot each.
pub struct Gamepads {
    pub slots: Vec<Option<GamepadSlot>>,
    pub config: HomeButtonConfig,
}

/// Bit `i` of `mask` is set.
pub open spec fn bit_set(mask: u16, i: int) -> bool {
    mask & (1u16 << (i as u16)) != 0
}

/// The slots that stay: those whose bit is set.
pub open spec fn kept(slots: Seq<Option<GamepadSlot>>, mask: u16) -> Seq<Option<GamepadSlot>> {
    Seq::new(
        slots.len(),
        |i: int|
            if bit_set(mask, i) {
                slots[i]
            } else {
                None
            },
    )
}

/// The slots after buttons for slot `i` came in at `now`.
pub open spec fn updated(
    slots: Seq<Option<GamepadSlot>>,
    i: int,
    flags: u32,
    now: u128,
) -> Seq<Option<GamepadSlot>> {
    match slots[i] {
        Some(slot) => slots.update(i, Some(slot.applied(flags, now))),
        None => slots,
    }
}

/// The indices of connected gamepads below `n` whose bit is not set.
pub open spec fn dropped(slots: Seq<Option<GamepadSlot>>, mask: u16, n: nat) -> Seq<u8>
    decreases n,
{
    if n == 0 {
        Seq::empty()
    } else {
        let before = dropped(slots, mask, (n - 1) as nat);
        if slots[n - 1] is Some && !bit_set(mask, n - 1) {
            before.push((n - 1) as u8)
        } else {
            before
        }
    }
}

/// The earliest deadline of the first `n` slots.
pub open spec fn earliest(slots: Seq<Option<GamepadSlot>>, n: nat) -> Option<u128>
    decreases n,
{
    if n == 0 {
        None
    } else {
        earlier(
            earliest(slots, (n - 1) as nat),
            match slots[n - 1] {
                Some(slot) => slot.due(),
                None => None,
            },
        )
    }
}

/// The slot is due at `now`.
pub open spec fn slot_due(slot: Option<GamepadSlot>, now: u128) -> bool {
    slot is Some && slot->0.due() is Some && now >= slot->0.due()->0
}

impl Gamepads {
    /// There are as many slots as there can be gamepads, each in order.
    pub open spec fn well_formed(self) -> bool {
        self.slots@.len() == SLOTS && forall|i: int|
            0 <= i < SLOTS && (#[trigger] self.slots@[i]) is Some ==> self.slots@[i]->0.well_formed()
    }

    /// No gamepad.
    pub fn new(config: HomeButtonConfig) -> (r: Self)
        ensures
            r.well_formed(),
            r.config == config,
            forall|i: int| 0 <= i < SLOTS ==> r.slots@[i] is None,
    {
        let mut slots: Vec<Option<GamepadSlot>> = Vec::new();
        let mut i: usize = 0;
        while i < SLOTS
            invariant
                i <= SLOTS,
                slots@.len() == i,
                forall|j: int| 0 <= j < i ==> slots@[j] is None,
            decreases SLOTS - i,
        {
            slots.push(None);
            i += 1;
        }
        Gamepads { slots, config }
    }

    /// A gamepad announced itself: one is to be created if its slot is there
    /// and free.
    pub fn announce(&self, index: u16) -> (r: Announced)
        requires
            self.well_formed(),
        ensures
            r == if index >= SLOTS {
                Announced::NoSlot
            } else if self.slots@[index as int] is Some {
                Announced::Known
            } else {
                Announced::Create
            },
    {
        if index as usize >= SLOTS {
            return Announced::NoSlot;
        }
        if self.slots[index as usize].is_some() {
            Announced::Known
        } else {
            Announced::Create
        }
    }

    /// A gamepad was created for a slot.
    pub fn connect(&mut self, index: u16)
        requires
            old(self).well_formed(),
            index < SLOTS,
        ensures
            final(self).well_formed(),
            final(self).config == old(self).config,
            final(self).slots@ == old(self).slots@.update(
                index as int,
                Some(fresh_slot(old(self).config)),
            ),
    {
        let slot = GamepadSlot::new(&self.config);
        self.slots.set(index as usize, Some(slot));
    }

    /// Whether touch, motion or battery of a gamepad can be passed on to it.
    pub fn is_connected(&self, index: u16) -> (r: bool)
        requires
            self.well_formed(),
        ensures
            r == (index < SLOTS && self.slots@[index as int] is Some),
    {
        (index as usize) < SLOTS && self.slots[index as usize].is_some()
    }

    /// Whether a gamepad has to be created before an update is taken: some
    /// clients send updates for gamepads that they never announced.
    pub fn update_needs_gamepad(&self, index: u16, active_mask: u16) -> (r: bool)
        requires
            self.well_formed(),
        ensures
            r == (index < SLOTS && self.slots@[index as int] is None && bit_set(active_mask, index as int)),
    {
        (index as usize) < SLOTS && self.slots[index as usize].is_none() && active_mask & (1u16 << index)
            != 0
    }

    /// Takes an update: the gamepad gets its buttons, then all gamepads that
    /// are no longer active are disconnected. An update for a slot that is not
    /// there changes nothing.
    pub fn update(&mut self, index: u16, active_mask: u16, flags: u32, now: u128) -> (r: Option<UpdateOutcome>)
        requires
            old(self).well_formed(),
            time_in_range(now),
        ensures
            final(self).well_formed(),
            final(self).config == old(self).config,
            r is None <==> index >= SLOTS,
            r is None ==> final(self).slots@ == old(self).slots@,
            r matches Some(out) ==> {
                let before = old(self).slots@;
                &&& final(self).slots@ == kept(
                    updated(before, index as int, flags, now),
                    active_mask,
                )
                &&& out.output == match before[index as int] {
                    Some(slot) => Some(slot.applied_output(flags, now)),
                    None => None,
                }
                &&& out.disconnected@ == dropped(before, active_mask, SLOTS as nat)
            },
    {
        if index as usize >= SLOTS {
            return None;
        }
        let ghost before = self.slots@;
        let at = index as usize;
        let mut output: Option<SlotOutput> = None;
        if let Some(slot) = self.slots[at] {
            let mut slot = slot;
            output = Some(slot.apply_buttons(flags, now));
            self.slots.set(at, Some(slot));
        }
        let ghost applied = self.slots@;
        let mut disconnected: Vec<u8> = Vec::new();
        let mut i: usize = 0;
        proof {
            dropped_same(before, applied, active_mask, SLOTS as nat);
        }
        while i < SLOTS
            invariant
                i <= SLOTS,
                self.slots@.len() == SLOTS,
                applied.len() == SLOTS,
                self.config == old(self).config,
                forall|j: int| 0 <= j < i ==> (#[trigger] self.slots@[j]) == kept(applied, active_mask)[j],
                forall|j: int| i <= j < SLOTS ==> (#[trigger] self.slots@[j]) == applied[j],
                disconnected@ == dropped(applied, active_mask, i as nat),
            decreases SLOTS - i,
        {
            if self.slots[i].is_some() && active_mask & (1u16 << (i as u16)) == 0 {
                self.slots.set(i, None);
                disconnected.push(i as u8);
            }
            i += 1;
        }
        proof {
            assert(applied =~= updated(before, index as int, flags, now));
            assert(self.slots@ =~= kept(applied, active_mask));
        }
        Some(UpdateOutcome { output, disconnected })
    }

    /// When a gamepad is next due.
    pub fn next_deadline(&self) -> (r: Option<u128>)
        requires
            self.well_formed(),
        ensures
            r == earliest(self.slots@, SLOTS as nat),
    {
        let mut best: Option<u128> = None;
        let mut i: usize = 0;
        while i < SLOTS
            invariant
                i <= SLOTS,
                self.slots@.len() == SLOTS,
                best == earliest(self.slots@, i as nat),
            decreases SLOTS - i,
        {
            let due = match &self.slots[i] {
                Some(slot) => slot.next_deadline(),
                None => None,
            };
            best = match (best, due) {
                (Some(a), Some(b)) => if a <= b {
                    Some(a)
                } else {
                    Some(b)
                },
                (Some(a), None) => Some(a),
                (None, b) => b,
            };
            i += 1;
        }
        best
    }

    /// Lets time pass up to `now` for all gamepads that are due.
    pub fn advance_due(&mut self, now: u128) -> (r: Vec<Timed>)
        requires
            old(self).well_formed(),
            time_in_range(now),
        ensures
            final(self).well_formed(),
            final(self).config == old(self).config,
            final(self).slots@ == timed_slots(old(self).slots@, now),
            r@ == timed_outputs(old(self).slots@, now, SLOTS as nat),
    {
        let ghost before = self.slots@;
        let mut r: Vec<Timed> = Vec::new();
        let mut i: usize = 0;
        while i < SLOTS
            invariant
                i <= SLOTS,
                self.well_formed(),
                time_in_range(now),
                before.len() == SLOTS,
                self.config == old(self).config,
                forall|j: int| i <= j < SLOTS ==> (#[trigger] self.slots@[j]) == before[j],
                forall|j: int| 0 <= j < i ==> (#[trigger] self.slots@[j]) == timed_slots(before, now)[j],
                r@ == timed_outputs(before, now, i as nat),
            decreases SLOTS - i,
        {
            assert(self.slots@[i as int] == before[i as int]);
            if let Some(slot) = self.slots[i] {
                let mut slot = slot;
                let due = match slot.next_deadline() {
                    Some(t) => now >= t,
                    None => false,
                };
                if due {
                    let output = slot.advance(now);
                    self.slots.set(i, Some(slot));
                    r.push(Timed { index: i as u8, output });
                }
            }
            i += 1;
        }
        proof {
            assert(self.slots@ =~= timed_slots(before, now));
        }
        r
    }
}

/// The slots after time passed up to `now` for those that are due.
pub open spec fn timed_slots(slots: Seq<Option<GamepadSlot>>, now: u128) -> Seq<Option<GamepadSlot>> {
    Seq::new(
        slots.len(),
        |i: int|
            if slot_due(slots[i], now) {
                Some(slots[i]->0.advanced(now))
            } else {
                slots[i]
            },
    )
}

/// What the gamepads below `n` that are due at `now` are to do, in order.
pub open spec fn timed_outputs(slots: Seq<Option<GamepadSlot>>, now: u128, n: nat) -> Seq<Timed>
    decreases n,
{
    if n == 0 {
        Seq::empty()
    } else {
        let before = timed_outputs(slots, now, (n - 1) as nat);
        if slot_due(slots[n - 1], now) {
            before.push(
                Timed { index: (n - 1) as u8, output: slots[n - 1]->0.advanced_output(now) },
            )
        } else {
            before
        }
    }
}

/// A gamepad that holds Home goes on doing so while time passes: only its
/// rumble can end.
pub proof fn home_is_held_while_time_passes(slot: GamepadSlot, now: u128)
    requires
        slot.remap.state == remap::HoldState::HomeHeld,
    ensures
        slot.advanced(now).remap == slot.remap,
        slot.advanced_output(now).pressed is None,
{
}

/// Which gamepads are dropped depends only on which are connected.
proof fn dropped_same(
    a: Seq<Option<GamepadSlot>>,
    b: Seq<Option<GamepadSlot>>,
    mask: u16,
    n: nat,
)
    requires
        n <= a.len() == b.len(),
        forall|i: int| 0 <= i < a.len() ==> ((#[trigger] a[i]) is Some <==> b[i] is Some),
    ensures
        dropped(a, mask, n) == dropped(b, mask, n),
    decreases n,
{
    if n > 0 {
        assert(a[n - 1] is Some <==> b[n - 1] is Some);
        dropped_same(a, b, mask, (n - 1) as nat);
    }
}

/// The earliest deadline is a deadline of a connected gamepad, and none is
/// earlier; so a timer set to it misses none.
pub proof fn earliest_misses_none(slots: Seq<Option<GamepadSlot>>, n: nat, i: int)
    requires
        n <= slots.len(),
        0 <= i < n,
        slots[i] is Some,
        slots[i]->0.due() is Some,
    ensures
        earliest(slots, n) is Some,
        earliest(slots, n)->0 <= slots[i]->0.due()->0,
    decreases n,
{
    if i < n - 1 {
        earliest_misses_none(slots, (n - 1) as nat, i);
    }
}

/// A gamepad without the remap emits the buttons as they come in, and time
/// changes nothing about them.
pub proof fn buttons_pass_without_remap(slot: GamepadSlot, flags: u32, now: u128)
    requires
        slot.remap.source_mask is None,
    ensures
        slot.applied_output(flags, now).pressed == Some(flags),
        slot.applied_output(flags, now).rumble_on is None,
        slot.applied(flags, now).remap == slot.remap,
        slot.advanced_output(now).pressed is None,
        slot.advanced(now).remap == slot.remap,
{
}

/// A gamepad with the remap emits all buttons but Back and Home as they come
/// in, and goes on emitting them when time alone changes what is emitted.
pub proof fn remapped_buttons_pass(slot: GamepadSlot, flags: u32, now: u128, later: u128)
    requires
        slot.remap.source_mask == Some(0x20u32),
    ensures
        slot.applied_output(flags, now).pressed matches Some(b) && b & !0x420u32 == flags & !0x420u32,
        slot.applied(flags, now).advanced_output(later).pressed matches Some(b) ==> b & !0x420u32 == flags
            & !0x420u32,
{
    remap::other_buttons_pass_through(slot.remap, flags, now, later);
}

/// A rumble comes with Home and with nothing else: it begins when Home is
/// activated, where one is set up and none is going on, as strong as it is set
/// up. It ends once it has lasted as long as it is set up, and not before.
pub proof fn rumble_comes_with_home(slot: GamepadSlot, flags: u32, now: u128, later: u128)
    requires
        slot.remap.source_mask is Some,
        time_in_range(now),
        now <= later,
    ensures
        ({
            let activated = slot.remap.state is Pending && slot.remap.state_after(flags, now) is HomeHeld;
            let free = slot.home_rumble_off_at is None || slot.home_rumble_off_at->0 <= now;
            let wanted = slot.config.rumble && slot.config.rumble_duration_ms > 0;
            let out = slot.applied_output(flags, now);
            let after = slot.applied(flags, now);
            &&& out.rumble_on == if activated && free && wanted {
                Some(slot.config.rumble_strength)
            } else {
                None
            }
            &&& out.rumble_off == (slot.home_rumble_off_at is Some && slot.home_rumble_off_at->0 <= now)
            &&& out.rumble_on is Some ==> after.advanced_output(later).rumble_off == (later >= now
                + slot.config.rumble_duration_ms * 1_000_000)
            &&& out.rumble_on is None && slot.home_rumble_off_at is Some && slot.home_rumble_off_at->0 > now
                ==> after.home_rumble_off_at == slot.home_rumble_off_at
        }),
        ({
            let activated = slot.hold_due(now) && slot.remap.state is Pending && slot.remap.state_at(now)
                is HomeHeld;
            let free = slot.home_rumble_off_at is None || slot.home_rumble_off_at->0 <= now;
            let wanted = slot.config.rumble && slot.config.rumble_duration_ms > 0;
            let out = slot.advanced_output(now);
            &&& out.rumble_on == if activated && free && wanted {
                Some(slot.config.rumble_strength)
            } else {
                None
            }
            &&& out.rumble_on is Some ==> slot.advanced(now).advanced_output(later).rumble_off == (later
                >= now + slot.config.rumble_duration_ms * 1_000_000)
        }),
{
    assert(slot.config.rumble_duration_ms * 1_000_000 < 0x1_0000_0000_0000_0000 * 1_000_000);
}

/// Which gamepads stay and which go is told by the mask alone: bit by bit, a
/// gamepad whose bit is set stays as it is, one whose bit is not set goes and
/// is reported, in order and once.
pub proof fn mask_tells_who_stays(slots: Seq<Option<GamepadSlot>>, mask: u16, n: nat)
    requires
        n <= slots.len() <= 16,
    ensures
        kept(slots, mask).len() == slots.len(),
        forall|i: int|
            0 <= i < slots.len() ==> #[trigger] kept(slots, mask)[i] == if mask & (1u16 << (i as u16)) != 0 {
                slots[i]
            } else {
                None
            },
        forall|i: int|
            0 <= i < n ==> (dropped(slots, mask, n).contains(i as u8) <==> (#[trigger] slots[i]) is Some
                && mask & (1u16 << (i as u16)) == 0),
        forall|k: int| 0 <= k < dropped(slots, mask, n).len() ==> (#[trigger] dropped(slots, mask, n)[k]) < n,
        forall|j: int, k: int|
            0 <= j < k < dropped(slots, mask, n).len() ==> #[trigger] dropped(slots, mask, n)[j]
                < #[trigger] dropped(slots, mask, n)[k],
    decreases n,
{
    if n > 0 {
        let m = (n - 1) as nat;
        mask_tells_who_stays(slots, mask, m);
        let before = dropped(slots, mask, m);
        let all = dropped(slots, mask, n);
        let gone = slots[m as int] is Some && mask & (1u16 << (m as u16)) == 0;
        assert forall|i: int| 0 <= i < n implies (all.contains(i as u8) <==> (#[trigger] slots[i]) is Some
            && mask & (1u16 << (i as u16)) == 0) by {
            if i < m {
                if before.contains(i as u8) {
                    let k = choose|k: int| 0 <= k < before.len() && before[k] == i as u8;
                    assert(all[k] == i as u8);
                }
                if all.contains(i as u8) {
                    let k = choose|k: int| 0 <= k < all.len() && all[k] == i as u8;
                    if k < before.len() {
                        assert(before[k] == i as u8);
                    }
                }
            } else {
                if gone {
                    assert(all[all.len() - 1] == i as u8);
                }
                if all.contains(i as u8) && !gone {
                    let k = choose|k: int| 0 <= k < before.len() && before[k] == i as u8;
                    assert(before[k] < m);
                }
            }
        }
    }
}

/// Buttons for one gamepad leave the others as they are.
pub proof fn updates_touch_one_gamepad(slots: Seq<Option<GamepadSlot>>, i: int, flags: u32, now: u128, j: int)
    requires
        0 <= i < slots.len(),
        0 <= j < slots.len(),
    ensures
        updated(slots, i, flags, now).len() == slots.len(),
        j != i ==> updated(slots, i, flags, now)[j] == slots[j],
        (updated(slots, i, flags, now)[i] is Some) == (slots[i] is Some),
        slots[i] matches Some(s) ==> updated(slots, i, flags, now)[i] == Some(s.applied(flags, now)),
{
}

/// Time reaches exactly the gamepads that are due: each of them is let on and
/// reported, in order, and the others stay as they are.
pub proof fn time_reaches_who_is_due(slots: Seq<Option<GamepadSlot>>, now: u128, n: nat)
    requires
        n <= slots.len() <= 16,
    ensures
        forall|i: int|
            0 <= i < n ==> (slots[i] is Some && slots[i]->0.due() is Some && slots[i]->0.due()->0 <= now <==>
            timed_outputs(slots, now, n).contains(
                Timed { index: i as u8, output: (#[trigger] slots[i])->0.advanced_output(now) },
            )),
        forall|k: int|
            0 <= k < timed_outputs(slots, now, n).len() ==> (#[trigger] timed_outputs(slots, now, n)[k]).index
                < n,
        forall|j: int, k: int|
            0 <= j < k < timed_outputs(slots, now, n).len() ==> (#[trigger] timed_outputs(slots, now, n)[j]).index
                < (#[trigger] timed_outputs(slots, now, n)[k]).index,
        forall|i: int|
            0 <= i < slots.len() ==> #[trigger] timed_slots(slots, now)[i] == if slots[i] is Some
                && slots[i]->0.due() is Some && slots[i]->0.due()->0 <= now {
                Some(slots[i]->0.advanced(now))
            } else {
                slots[i]
            },
    decreases n,
{
    if n > 0 {
        let m = (n - 1) as nat;
        time_reaches_who_is_due(slots, now, m);
        let before = timed_outputs(slots, now, m);
        let all = timed_outputs(slots, now, n);
        assert forall|i: int| 0 <= i < n implies (slots[i] is Some && slots[i]->0.due() is Some
            && slots[i]->0.due()->0 <= now <==> all.contains(
            Timed { index: i as u8, output: (#[trigger] slots[i])->0.advanced_output(now) },
        )) by {
            let t = Timed { index: i as u8, output: slots[i]->0.advanced_output(now) };
            if i < m {
                if before.contains(t) {
                    let k = choose|k: int| 0 <= k < before.len() && before[k] == t;
                    assert(all[k] == t);
                }
                if all.contains(t) {
                    let k = choose|k: int| 0 <= k < all.len() && all[k] == t;
                    if k < before.len() {
                        assert(before[k] == t);
                    }
                }
            } else {
                if slot_due(slots[i], now) {
                    assert(all[all.len() - 1] == t);
                } else if all.contains(t) {
                    let k = choose|k: int| 0 <= k < before.len() && before[k] == t;
                    assert(before[k].index < m);
                }
            }
        }
    }
}

/// A gamepad is due as soon as its hold or its rumble is.
pub proof fn due_for_hold_or_rumble(slot: GamepadSlot)
    ensures
        match slot.due() {
            None => slot.remap.due() is None && slot.home_rumble_off_at is None,
            Some(t) => {
                &&& slot.remap.due() == Some(t) || slot.home_rumble_off_at == Some(t)
                &&& slot.remap.due() matches Some(a) ==> t <= a
                &&& slot.home_rumble_off_at matches Some(b) ==> t <= b
            },
        },
{
}

/// A rumble begins exactly when Home is activated, none is going on and one of
/// some length is set up.
pub proof fn rumbles_begin_with_home(slot: GamepadSlot, transition: HoldTransition, now: u128)
    ensures
        slot.rumbles(transition, now) <==> {
            &&& transition == HoldTransition::HomeActivated
            &&& slot.home_rumble_off_at is None || slot.home_rumble_off_at->0 <= now
            &&& slot.config.rumble
            &&& slot.config.rumble_duration_ms > 0
        },
{
}

/// A gamepad just connected is at rest, with Back up and no rumble, and holds
/// Back for Home exactly if a time for that is set up.
pub proof fn gamepads_begin_at_rest(config: HomeButtonConfig)
    ensures
        ({
            let slot = fresh_slot(config);
            &&& slot.config == config
            &&& slot.home_rumble_off_at is None
            &&& config.hold_ms == 0 ==> slot.remap.source_mask is None
            &&& config.hold_ms != 0 ==> slot.remap.source_mask == Some(0x20u32)
            &&& slot.remap.hold == config.hold_ms * 1_000_000
            &&& slot.remap.state is Inactive
            &&& !slot.remap.source_pressed
            &&& slot.remap.suppress_home == config.suppress_home
            &&& slot.remap.last_passthrough == 0
        }),
{
}

/// The earlier of two deadlines is one of them and neither is before it; none
/// is the later one.
pub proof fn earlier_deadline_counts(a: Option<u128>, b: Option<u128>)
    ensures
        earlier(a, b) is None <==> a is None && b is None,
        earlier(a, b) is Some ==> earlier(a, b) == a || earlier(a, b) == b,
        earlier(a, b) matches Some(t) ==> (a matches Some(x) ==> t <= x) && (b matches Some(y) ==> t <= y),
{
}

} // verus!
