//! Recent user actions, each with the client that got it.
//!
//! A popup may grab the seat only with the serial of a press or touch that
//! was delivered to its own client. A bounded history allows for menus that
//! open late and for submenus that use the serial of their parent.
use std::collections::VecDeque;
use vstd::prelude::*;
use vstd::std_specs::cmp::PartialEqSpec;

verus! {

/// How many actions are kept.
pub const CAPACITY: usize = 64;

/// The most recent actions, oldest first.
pub struct InputSerials<Client> {
    pub entries: VecDeque<(u32, Client)>,
}

impl<Client> Default for InputSerials<Client> {
    fn default() -> (r: Self)
        ensures
            r.entries@ == Seq::<(u32, Client)>::empty(),
    {
        InputSerials { entries: VecDeque::new() }
    }
}

/// The actions after one more; the oldest goes if there is no room.
pub open spec fn recorded<Client>(entries: Seq<(u32, Client)>, serial: u32, client: Client) -> Seq<(
    u32,
    Client,
)> {
    (if entries.len() == CAPACITY {
        entries.skip(1)
    } else {
        entries
    }).push((serial, client))
}

/// Action `i` has this serial and went to this client.
pub open spec fn is_action<Client: PartialEq>(
    entries: Seq<(u32, Client)>,
    serial: u32,
    client: Client,
    i: int,
) -> bool {
    0 <= i < entries.len() && entries[i].0 == serial && entries[i].1.eq_spec(&client)
}

impl<Client: PartialEq> InputSerials<Client> {
    /// Records an action that was delivered to `client`.
    pub fn record(&mut self, serial: u32, client: Client)
        ensures
            final(self).entries@ == recorded(old(self).entries@, serial, client),
    {
        if self.entries.len() == CAPACITY {
            self.entries.pop_front();
            proof {
                assert(self.entries@ =~= old(self).entries@.skip(1));
            }
        }
        self.entries.push_back((serial, client));
    }

    /// Whether an action with this serial was delivered to `client`.
    pub fn contains(&self, serial: u32, client: &Client) -> (r: bool)
        ensures
            Client::obeys_eq_spec() ==> r == (exists|i: int| is_action(self.entries@, serial, *client, i)),
            self.entries@.len() == 0 ==> !r,
    {
        let mut i: usize = 0;
        while i < self.entries.len()
            invariant
                i <= self.entries@.len(),
                Client::obeys_eq_spec() ==> forall|j: int|
                    0 <= j < i ==> !is_action(self.entries@, serial, *client, j),
            decreases self.entries@.len() - i,
        {
            let entry = &self.entries[i];
            if entry.0 == serial && entry.1 == *client {
                proof {
                    if Client::obeys_eq_spec() {
                        assert(is_action(self.entries@, serial, *client, i as int));
                    }
                }
                return true;
            }
            i += 1;
        }
        false
    }

    /// Forgets all actions.
    pub fn clear(&mut self)
        ensures
            final(self).entries@ == Seq::<(u32, Client)>::empty(),
    {
        self.entries.clear();
    }
}

/// The history never grows beyond its capacity, the newest action is always
/// in it, and an action older than the capacity is not.
pub proof fn history_is_bounded<Client>(entries: Seq<(u32, Client)>, serial: u32, client: Client)
    requires
        entries.len() <= CAPACITY,
    ensures
        recorded(entries, serial, client).len() <= CAPACITY,
        recorded(entries, serial, client).last() == (serial, client),
        entries.len() == CAPACITY ==> forall|i: int|
            0 <= i < CAPACITY - 1 ==> recorded(entries, serial, client)[i] == entries[i + 1],
        entries.len() < CAPACITY ==> forall|i: int|
            0 <= i < entries.len() ==> recorded(entries, serial, client)[i] == entries[i],
{
}

/// The last 64 actions are kept, in order; an action is found by its serial and
/// its client together.
pub proof fn last_actions_are_kept<Client: PartialEq>(
    entries: Seq<(u32, Client)>,
    serial: u32,
    client: Client,
    i: int,
)
    requires
        entries.len() <= 64,
    ensures
        recorded(entries, serial, client).len() == if entries.len() < 64 {
            entries.len() + 1
        } else {
            64
        },
        0 <= i < entries.len() && (i > 0 || entries.len() < 64) ==> recorded(entries, serial, client)[if entries.len()
            < 64 {
            i
        } else {
            i - 1
        }] == entries[i],
        recorded(entries, serial, client).last() == (serial, client),
        0 <= i < entries.len() ==> (is_action(entries, serial, client, i) <==> entries[i].0 == serial
            && entries[i].1.eq_spec(&client)),
{
}

} // verus!
