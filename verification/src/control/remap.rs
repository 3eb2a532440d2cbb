//! Holding Back for Home.
//!
//! When enabled, holding the Back button for a given time emits the Home
//! button instead of Back. A short tap still emits Back. Since Back is
//! withheld until it is released or the time is over, Back cannot be held.
//!
//! Times are in nanoseconds.
use vstd::prelude::*;

verus! {

/// What happened to Home.
#[derive(Clone, Copy, Debug, PartialEq, Eq, Structural)]
pub enum HoldTransition {
    /// Nothing of note.
    Unchanged,
    /// Home was just activated.
    HomeActivated,
}

/// The Back button.
pub const BACK_FLAG: u32 = 0x0020;

/// The Home button.
pub const SPECIAL_FLAG: u32 = 0x0400;

/// How long a tap of Back is emitted for.
pub const TAP_NANOS: u128 = 100_000_000;

/// Nanoseconds in a millisecond.
pub const NANOS_PER_MILLI: u128 = 1_000_000;

/// How the Home button of a gamepad is set up.
#[derive(Clone, Copy, Debug, PartialEq, Eq, Structural)]
pub struct HomeButtonConfig {
    /// For how long Back is held for Home, in milliseconds; 0 turns it off.
    pub hold_ms: u64,
    /// Drop the physical Home button.
    pub suppress_home: bool,
    /// A rumble is wanted when Home is activated.
    pub rumble: bool,
    /// How strong the rumble is.
    pub rumble_strength: u16,
    /// How long the rumble is, in milliseconds.
    pub rumble_duration_ms: u64,
}

/// Where a hold stands.
#[derive(Clone, Copy, Debug, PartialEq, Eq, Structural)]
pub enum HoldState {
    /// Back is up.
    Inactive,
    /// Back is down and withheld; at `deadline` it becomes Home.
    Pending { deadline: u128 },
    /// Home is emitted until Back is released.
    HomeHeld,
    /// Back was released early and is emitted until `release_at`.
    Tapping { release_at: u128 },
}

/// The state of one gamepad's hold.
#[derive(Clone, Copy, Debug, PartialEq, Eq, Structural)]
pub struct HoldToHome {
    /// The button that is held, `None` when the remap is off.
    pub source_mask: Option<u32>,
    /// For how long it is held.
    pub hold: u128,
    /// Where the hold stands.
    pub state: HoldState,
    /// The button was last seen down.
    pub source_pressed: bool,
    /// Drop the physical Home button.
    pub suppress_home: bool,
    /// The other buttons as last seen.
    pub last_passthrough: u32,
}

impl HoldToHome {
    /// The other buttons that are passed on.
    pub open spec fn passed(self, flags: u32) -> u32 {
        if self.source_mask is None {
            flags
        } else if self.suppress_home {
            flags & !self.source_mask->0 & !SPECIAL_FLAG
        } else {
            flags & !self.source_mask->0
        }
    }

    /// Back is down in `flags`.
    pub open spec fn down(self, flags: u32) -> bool {
        flags & self.source_mask->0 != 0
    }

    /// Where the hold stands after `flags` came in at `now`.
    pub open spec fn state_after(self, flags: u32, now: u128) -> HoldState {
        match self.state {
            HoldState::Inactive => if self.down(flags) {
                HoldState::Pending { deadline: (now + self.hold) as u128 }
            } else {
                HoldState::Inactive
            },
            HoldState::Pending { deadline } => if !self.down(flags) {
                HoldState::Tapping { release_at: (now + TAP_NANOS) as u128 }
            } else if now >= deadline {
                HoldState::HomeHeld
            } else {
                self.state
            },
            HoldState::HomeHeld => if self.down(flags) {
                HoldState::HomeHeld
            } else {
                HoldState::Inactive
            },
            HoldState::Tapping { release_at } => if now >= release_at {
                HoldState::Inactive
            } else {
                self.state
            },
        }
    }

    /// What is added to the other buttons in a state: Home while it is held,
    /// Back while it is tapped.
    pub open spec fn added(self, state: HoldState) -> u32 {
        match state {
            HoldState::HomeHeld => SPECIAL_FLAG,
            HoldState::Tapping { .. } => self.source_mask->0,
            _ => 0,
        }
    }

    /// Home is activated by going from one state to the other.
    pub open spec fn transition(from: HoldState, to: HoldState) -> HoldTransition {
        if from is Pending && to is HomeHeld {
            HoldTransition::HomeActivated
        } else {
            HoldTransition::Unchanged
        }
    }

    /// The hold of a gamepad set up by `config`, with Back up.
    pub fn new(config: &HomeButtonConfig) -> (r: Self)
        ensures
            r == (HoldToHome {
                source_mask: if config.hold_ms != 0 { Some(BACK_FLAG) } else { None },
                hold: (config.hold_ms * NANOS_PER_MILLI) as u128,
                state: HoldState::Inactive,
                source_pressed: false,
                suppress_home: config.suppress_home,
                last_passthrough: 0,
            }),
    {
        HoldToHome {
            source_mask: if config.hold_ms != 0 {
                Some(BACK_FLAG)
            } else {
                None
            },
            hold: config.hold_ms as u128 * NANOS_PER_MILLI,
            state: HoldState::Inactive,
            source_pressed: false,
            suppress_home: config.suppress_home,
            last_passthrough: 0,
        }
    }

    /// Takes the buttons that came in at `now`; returns the buttons to emit.
    pub fn apply(&mut self, flags: u32, now: u128) -> (r: (u32, HoldTransition))
        requires
            now + old(self).hold <= u128::MAX,
            now + TAP_NANOS <= u128::MAX,
        ensures
            old(self).source_mask is None ==> r == (flags, HoldTransition::Unchanged) && *final(self) == *old(
                self,
            ),
            old(self).source_mask is Some ==> {
                let next = old(self).state_after(flags, now);
                &&& *final(self) == (HoldToHome {
                    state: next,
                    source_pressed: old(self).down(flags),
                    last_passthrough: old(self).passed(flags),
                    ..*old(self)
                })
                &&& r.0 == old(self).passed(flags) | old(self).added(next)
                &&& r.1 == Self::transition(old(self).state, next)
            },
    {
        let source_mask = match self.source_mask {
            Some(mask) => mask,
            None => return (flags, HoldTransition::Unchanged),
        };
        let source_pressed = flags & source_mask != 0;
        self.source_pressed = source_pressed;
        let passthrough = if self.suppress_home {
            flags & !source_mask & !SPECIAL_FLAG
        } else {
            flags & !source_mask
        };
        self.last_passthrough = passthrough;
        assert(passthrough | 0 == passthrough) by (bit_vector);
        match self.state {
            HoldState::Inactive => {
                if source_pressed {
                    self.state = HoldState::Pending { deadline: now + self.hold };
                }
                (passthrough, HoldTransition::Unchanged)
            },
            HoldState::Pending { deadline } => {
                if !source_pressed {
                    self.state = HoldState::Tapping { release_at: now + TAP_NANOS };
                    (passthrough | source_mask, HoldTransition::Unchanged)
                } else if now >= deadline {
                    self.state = HoldState::HomeHeld;
                    (passthrough | SPECIAL_FLAG, HoldTransition::HomeActivated)
                } else {
                    (passthrough, HoldTransition::Unchanged)
                }
            },
            HoldState::HomeHeld => {
                if source_pressed {
                    (passthrough | SPECIAL_FLAG, HoldTransition::Unchanged)
                } else {
                    self.state = HoldState::Inactive;
                    (passthrough, HoldTransition::Unchanged)
                }
            },
            HoldState::Tapping { release_at } => {
                if now >= release_at {
                    self.state = HoldState::Inactive;
                    (passthrough, HoldTransition::Unchanged)
                } else {
                    (passthrough | source_mask, HoldTransition::Unchanged)
                }
            },
        }
    }

    /// Where the hold stands when the time is `now` and nothing came in.
    pub open spec fn state_at(self, now: u128) -> HoldState {
        match self.state {
            HoldState::Pending { deadline } if now >= deadline && self.source_pressed => HoldState::HomeHeld,
            HoldState::Tapping { release_at } if now >= release_at => HoldState::Inactive,
            _ => self.state,
        }
    }

    /// Lets time pass up to `now`. Returns the buttons to emit: the other
    /// buttons as last seen, with Home for as long as it is held and Back for
    /// as long as it is tapped. Without the remap nothing is kept, and the
    /// result is 0.
    pub fn advance(&mut self, now: u128) -> (r: (u32, HoldTransition))
        ensures
            old(self).source_mask is None ==> r == (0u32, HoldTransition::Unchanged) && *final(self) == *old(
                self,
            ),
            old(self).source_mask is Some ==> {
                let next = old(self).state_at(now);
                &&& *final(self) == (HoldToHome { state: next, ..*old(self) })
                &&& r.0 == old(self).last_passthrough | old(self).added(next)
                &&& r.1 == Self::transition(old(self).state, next)
            },
    {
        let source_mask = match self.source_mask {
            Some(mask) => mask,
            None => return (0, HoldTransition::Unchanged),
        };
        let passthrough = self.last_passthrough;
        assert(passthrough | 0 == passthrough) by (bit_vector);
        match self.state {
            HoldState::Pending { deadline } => {
                if now >= deadline && self.source_pressed {
                    self.state = HoldState::HomeHeld;
                    (passthrough | SPECIAL_FLAG, HoldTransition::HomeActivated)
                } else {
                    (passthrough, HoldTransition::Unchanged)
                }
            },
            HoldState::Tapping { release_at } => {
                if now >= release_at {
                    self.state = HoldState::Inactive;
                    (passthrough, HoldTransition::Unchanged)
                } else {
                    (passthrough | source_mask, HoldTransition::Unchanged)
                }
            },
            HoldState::HomeHeld => (passthrough | SPECIAL_FLAG, HoldTransition::Unchanged),
            HoldState::Inactive => (passthrough, HoldTransition::Unchanged),
        }
    }

    /// When `advance` is next due, in a state.
    pub open spec fn due(self) -> Option<u128> {
        match self.state {
            HoldState::Pending { deadline } => Some(deadline),
            HoldState::Tapping { release_at } => Some(release_at),
            _ => None,
        }
    }

    /// When `advance` is next due, `None` if nothing is pending.
    pub fn next_deadline(&self) -> (r: Option<u128>)
        ensures
            r == self.due(),
    {
        match self.state {
            HoldState::Pending { deadline } => Some(deadline),
            HoldState::Tapping { release_at } => Some(release_at),
            HoldState::Inactive => None,
            HoldState::HomeHeld => None,
        }
    }
}

/// Back held for the time set up becomes Home: pressed at `t` on a gamepad at
/// rest, it is withheld before `t + hold`, and from then on Home is emitted
/// in its place, as long as Back stays down.
pub proof fn held_back_becomes_home(h: HoldToHome, flags: u32, t: u128, flags2: u32, now: u128)
    requires
        h.source_mask == Some(BACK_FLAG),
        h.state == HoldState::Inactive,
        h.down(flags),
        h.down(flags2),
        t + h.hold <= u128::MAX,
        t <= now,
    ensures
        ({
            let pressed = HoldToHome {
                state: h.state_after(flags, t),
                source_pressed: true,
                last_passthrough: h.passed(flags),
                ..h
            };
            let first = h.passed(flags) | h.added(pressed.state);
            let later = pressed.state_after(flags2, now);
            let emitted = h.passed(flags2) | h.added(later);
            &&& first & BACK_FLAG == 0
            &&& emitted & BACK_FLAG == 0
            &&& now < t + h.hold ==> later == pressed.state
            &&& now >= t + h.hold ==> later == HoldState::HomeHeld && emitted & SPECIAL_FLAG
                == SPECIAL_FLAG && pressed.state_at(now) == HoldState::HomeHeld && HoldToHome::transition(
                pressed.state,
                later,
            ) == HoldTransition::HomeActivated
        }),
{
    assert((flags & !0x20u32 | 0) & 0x20 == 0) by (bit_vector);
    assert((flags & !0x20u32 & !0x400u32 | 0) & 0x20 == 0) by (bit_vector);
    assert((flags2 & !0x20u32 | 0) & 0x20 == 0) by (bit_vector);
    assert((flags2 & !0x20u32 & !0x400u32 | 0) & 0x20 == 0) by (bit_vector);
    assert((flags2 & !0x20u32 | 0x400u32) & 0x20 == 0) by (bit_vector);
    assert((flags2 & !0x20u32 & !0x400u32 | 0x400u32) & 0x20 == 0) by (bit_vector);
    assert((flags2 & !0x20u32 | 0x400u32) & 0x400 == 0x400) by (bit_vector);
    assert((flags2 & !0x20u32 & !0x400u32 | 0x400u32) & 0x400 == 0x400) by (bit_vector);
}

/// Home is emitted until Back is released: while it is held, time alone changes
/// nothing and takes no other button away, buttons that come in with Back down
/// keep it, and those without end it.
pub proof fn home_is_emitted_until_back_is_released(h: HoldToHome, flags: u32, now: u128)
    requires
        h.source_mask is Some,
        h.state == HoldState::HomeHeld,
    ensures
        ({
            let emitted = h.last_passthrough | h.added(h.state_at(now));
            &&& h.state_at(now) == HoldState::HomeHeld
            &&& emitted & SPECIAL_FLAG == SPECIAL_FLAG
            &&& emitted & h.last_passthrough == h.last_passthrough
        }),
        h.state_after(flags, now) == if h.down(flags) {
            HoldState::HomeHeld
        } else {
            HoldState::Inactive
        },
{
    let p = h.last_passthrough;
    assert((p | 0x400u32) & 0x400 == 0x400 && (p | 0x400u32) & p == p) by (bit_vector);
}

/// A short tap still emits Back: released before the time is over, Back is
/// emitted for the length of a tap, and Home is not activated.
pub proof fn tapped_back_stays_back(h: HoldToHome, deadline: u128, flags: u32, now: u128, later: u128)
    requires
        h.source_mask == Some(BACK_FLAG),
        h.state == (HoldState::Pending { deadline }),
        !h.down(flags),
        now + TAP_NANOS <= u128::MAX,
        now <= later,
    ensures
        ({
            let released = HoldToHome {
                state: h.state_after(flags, now),
                source_pressed: false,
                last_passthrough: h.passed(flags),
                ..h
            };
            &&& (h.passed(flags) | h.added(released.state)) & BACK_FLAG == BACK_FLAG
            &&& HoldToHome::transition(h.state, released.state) == HoldTransition::Unchanged
            &&& released.due() == Some((now + TAP_NANOS) as u128)
            &&& released.state_at(later) == if later >= now + TAP_NANOS {
                HoldState::Inactive
            } else {
                released.state
            }
        }),
{
    let p = h.passed(flags);
    assert((p | 0x20u32) & 0x20 == 0x20) by (bit_vector);
}

/// Buttons other than Back and Home pass through, none added and none dropped,
/// when they come in and also later while time passes. Back is emitted exactly
/// while it is tapped; Home exactly while it is held, or where the physical
/// Home button is down and not to be dropped.
pub proof fn other_buttons_pass_through(h: HoldToHome, flags: u32, now: u128, later: u128)
    requires
        h.source_mask == Some(0x20u32),
    ensures
        ({
            let next = h.state_after(flags, now);
            let emitted = h.passed(flags) | h.added(next);
            let after = HoldToHome {
                state: next,
                source_pressed: h.down(flags),
                last_passthrough: h.passed(flags),
                ..h
            };
            let then_state = after.state_at(later);
            let then_emitted = after.last_passthrough | after.added(then_state);
            &&& emitted & !0x420u32 == flags & !0x420u32
            &&& (emitted & 0x20 != 0) == (next is Tapping)
            &&& (emitted & 0x400 != 0) == (next is HomeHeld || (!h.suppress_home && flags & 0x400 != 0))
            &&& then_emitted & !0x420u32 == flags & !0x420u32
            &&& (then_emitted & 0x20 != 0) == (then_state is Tapping)
            &&& (then_emitted & 0x400 != 0) == (then_state is HomeHeld || (!h.suppress_home && flags & 0x400
                != 0))
            &&& h.down(flags) == (flags & 0x20 != 0)
        }),
{
    let next = h.state_after(flags, now);
    let after = HoldToHome {
        state: next,
        source_pressed: h.down(flags),
        last_passthrough: h.passed(flags),
        ..h
    };
    emitted_bits(flags, h.suppress_home, h.added(next));
    emitted_bits(flags, h.suppress_home, after.added(after.state_at(later)));
}

/// What is emitted, bit by bit.
proof fn emitted_bits(flags: u32, suppress: bool, more: u32)
    requires
        more == 0 || more == 0x20 || more == 0x400,
    ensures
        ({
            let passed = if suppress {
                flags & !0x20u32 & !0x400u32
            } else {
                flags & !0x20u32
            };
            &&& (passed | more) & !0x420u32 == flags & !0x420u32
            &&& ((passed | more) & 0x20 != 0) == (more == 0x20)
            &&& ((passed | more) & 0x400 != 0) == (more == 0x400 || (!suppress && flags & 0x400 != 0))
        }),
{
    assert(more == 0 || more == 0x20 || more == 0x400 ==> {
        let a = flags & !0x20u32 & !0x400u32;
        let b = flags & !0x20u32;
        &&& (a | more) & !0x420u32 == flags & !0x420u32
        &&& (b | more) & !0x420u32 == flags & !0x420u32
        &&& ((a | more) & 0x20 != 0) == (more == 0x20)
        &&& ((b | more) & 0x20 != 0) == (more == 0x20)
        &&& ((a | more) & 0x400 != 0) == (more == 0x400)
        &&& ((b | more) & 0x400 != 0) == (more == 0x400 || flags & 0x400 != 0)
    }) by (bit_vector);
}

/// A hold goes through its states as Back goes down and up: pressed it waits
/// for its time, released in time it is a tap, held for that time it is Home
/// until it is released, and a tap is over after its length.
pub proof fn back_goes_through_its_states(h: HoldToHome, flags: u32, now: u128)
    requires
        h.source_mask == Some(0x20u32),
        now + h.hold <= u128::MAX,
        now + 100_000_000 <= u128::MAX,
    ensures
        ({
            let down = flags & 0x20 != 0;
            let next = h.state_after(flags, now);
            match h.state {
                HoldState::Inactive => if down {
                    next matches HoldState::Pending { deadline } && deadline == now + h.hold
                } else {
                    next is Inactive
                },
                HoldState::Pending { deadline } => if !down {
                    next matches HoldState::Tapping { release_at } && release_at == now + 100_000_000
                } else if now >= deadline {
                    next is HomeHeld
                } else {
                    next == h.state
                },
                HoldState::HomeHeld => if down {
                    next is HomeHeld
                } else {
                    next is Inactive
                },
                HoldState::Tapping { release_at } => if now >= release_at {
                    next is Inactive
                } else {
                    next == h.state
                },
            }
        }),
        ({
            let next = h.state_at(now);
            match h.state {
                HoldState::Pending { deadline } => if now >= deadline && h.source_pressed {
                    next is HomeHeld
                } else {
                    next == h.state
                },
                HoldState::Tapping { release_at } => if now >= release_at {
                    next is Inactive
                } else {
                    next == h.state
                },
                _ => next == h.state,
            }
        }),
        h.due() == match h.state {
            HoldState::Pending { deadline } => Some(deadline),
            HoldState::Tapping { release_at } => Some(release_at),
            _ => None,
        },
        forall|a: HoldState, b: HoldState|
            (#[trigger] HoldToHome::transition(a, b) == HoldTransition::HomeActivated) == (a is Pending && b
                is HomeHeld),
{
}

} // verus!
