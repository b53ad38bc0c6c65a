//! The status extractor: one full, self-consistent status record per
//! poll of the foreign process.
//!
//! Each call of [`Mhp3rdStatus::update`] re-reads foreign memory from
//! scratch, classifies the execution context, and decodes the fields
//! that context makes meaningful. A failed read at any offset aborts
//! the whole cycle and leaves the previous record untouched, so no
//! partially populated record is ever observable.

use vstd::prelude::*;

verus! {

use read_process_memory::ProcessHandle;
use crate::mem::{MemError, foreign_addr, read_byte, read_bool, read_int, read_string};
use crate::task::{Task, ReadableTask, classify};
use crate::scan::{is_target_id, scan_targets};

/// Base-relative offset of the task-name string.
pub const TASK_NAME_OFFSET: usize = 0x09C57CA0;

/// Base-relative offset of the zone id byte.
pub const LOCATION_OFFSET: usize = 0x08B2495D;

/// Base-relative offset of the zone-local room id byte.
pub const ROOM_OFFSET: usize = 0x09BA8DCE;

/// Base-relative offset of the weapon class byte.
pub const WEAPON_OFFSET: usize = 0x09B49235;

/// Base-relative offset of the online flag byte.
pub const ONLINE_OFFSET: usize = 0x08A2991C;

/// Base-relative offset of the room occupancy byte.
pub const PLAYERS_OFFSET: usize = 0x09B4684F;

/// Base-relative offset of the secondary session status byte.
pub const SESSION_PHASE_OFFSET: usize = 0x09BAC044;

/// Base-relative offset of the session label string.
pub const QUEST_NAME_OFFSET: usize = 0x08A33F4C;

/// Base-relative offset of the current 30Hz tick counter.
pub const TICK_NOW_OFFSET: usize = 0x09BAE1D4;

/// Base-relative offset of the session-start tick counter.
pub const TICK_START_OFFSET: usize = 0x09BAE1D8;

/// The sentinel zone id shown while no context is recognized.
pub const LOC_MENU: u8 = 4;

/// The sentinel zone id shown while a session is live.
pub const LOC_IN_QUEST: u8 = 5;

/// The sentinel zone id shown while returning from an ended session.
pub const LOC_RETURNING: u8 = 6;

/// The sentinel weapon class shown while no context is recognized.
pub const WEAPON_NONE: u8 = 5;

/// The live status of the observed game, rebuilt wholesale on every
/// poll.
pub struct Mhp3rdStatus {
    /// The capability to read the foreign process's memory.
    pub handle: ProcessHandle,
    /// The base address of the emulated address space inside the
    /// foreign process.
    pub base_address: usize,
    /// The current zone id, a sentinel outside the lobby contexts.
    pub location: u8,
    /// The zone-local room id.
    pub room: u8,
    /// The equipped weapon class id.
    pub weapon: u8,
    /// Whether the player is in an online room.
    pub online: bool,
    /// How many players share the room; zero whenever offline.
    pub players_in_room: u8,
    /// Whether a session is live right now.
    pub in_quest: bool,
    /// The identity of the active hunt target, while one is found.
    pub hunting: Option<u8>,
    /// Whole seconds since the session started; zero outside a session.
    pub elapsed_time: u32,
    /// The session label, present exactly while a session is live.
    pub quest_name: Option<String>,
}

/// Elapsed whole seconds between two 30Hz tick counters, truncating;
/// a start counter ahead of the current one clamps to zero instead of
/// wrapping.
pub open spec fn elapsed_spec(tick_now: u32, tick_start: u32) -> int {
    if tick_start <= tick_now {
        (tick_now - tick_start) / 30
    } else {
        0
    }
}

/// Computes elapsed whole seconds from the two tick counters.
pub fn elapsed_seconds(tick_now: u32, tick_start: u32) -> (r: u32)
    ensures
        r == elapsed_spec(tick_now, tick_start),
{
    if tick_start <= tick_now {
        (tick_now - tick_start) / 30
    } else {
        0
    }
}

/// Whether a secondary session status byte marks a live session; a
/// value above 3 marks the post-session return phase instead.
pub fn session_live(phase: u8) -> (r: bool)
    ensures
        r == (phase <= 3),
{
    phase <= 3
}

impl Mhp3rdStatus {
    /// The record's self-consistency invariant: no occupancy while
    /// offline, and the session fields all present or all cleared
    /// together with the session flag.
    pub open spec fn status_inv(self) -> bool {
        &&& !self.online ==> self.players_in_room == 0
        &&& !self.in_quest ==> self.hunting is None && self.elapsed_time == 0
            && self.quest_name is None
        &&& self.in_quest ==> self.location == LOC_IN_QUEST && self.quest_name is Some
        &&& self.hunting matches Some(id) ==> is_target_id(id)
    }

    /// The menu sentinel record: the safe fallback decoded whenever the
    /// foreign context string is unrecognized — offline, empty, and
    /// without any session field, whatever the other foreign bytes held.
    pub open spec fn menu_record(self) -> bool {
        &&& self.location == LOC_MENU
        &&& self.room == 0
        &&& self.weapon == WEAPON_NONE
        &&& !self.online
        &&& self.players_in_room == 0
        &&& !self.in_quest
        &&& self.hunting is None
        &&& self.elapsed_time == 0
        &&& self.quest_name is None
    }

    /// Whether two records observe the same foreign process at the same
    /// base address.
    pub open spec fn same_process(self, other: Mhp3rdStatus) -> bool {
        self.handle == other.handle && self.base_address == other.base_address
    }

    /// Binds a fresh status record to one foreign process, with every
    /// field at its cleared default.
    pub fn new(base_address: usize, handle: ProcessHandle) -> (r: Mhp3rdStatus)
        ensures
            r.handle == handle,
            r.base_address == base_address,
            r.location == 0,
            r.room == 0,
            r.weapon == WEAPON_NONE,
            !r.online,
            r.players_in_room == 0,
            !r.in_quest,
            r.hunting is None,
            r.elapsed_time == 0,
            r.quest_name is None,
            r.status_inv(),
    {
        Mhp3rdStatus {
            handle,
            base_address,
            location: 0,
            room: 0,
            weapon: WEAPON_NONE,
            online: false,
            players_in_room: 0,
            in_quest: false,
            hunting: None,
            elapsed_time: 0,
            quest_name: None,
        }
    }

    /// Decode for an unrecognized context: the menu sentinel record.
    /// Legitimate menu time, not an error — offline, empty, no session
    /// fields, whatever the other foreign bytes held.
    pub fn apply_unclassified(&mut self)
        ensures
            final(self).menu_record(),
            final(self).status_inv(),
            final(self).same_process(*old(self)),
    {
        self.location = LOC_MENU;
        self.room = 0;
        self.weapon = WEAPON_NONE;
        self.online = false;
        self.players_in_room = 0;
        self.in_quest = false;
        self.hunting = None;
        self.elapsed_time = 0;
        self.quest_name = None;
    }

    /// Decode for the lobby context: the ambient fields as read, the
    /// session fields cleared, and occupancy forced to zero while
    /// offline.
    pub fn apply_lobby(&mut self, location: u8, room: u8, weapon: u8, online: bool, players: u8)
        ensures
            final(self).location == location,
            final(self).room == room,
            final(self).weapon == weapon,
            final(self).online == online,
            final(self).players_in_room == (if online {
                players
            } else {
                0
            }),
            !final(self).in_quest,
            final(self).hunting is None,
            final(self).elapsed_time == 0,
            final(self).quest_name is None,
            final(self).status_inv(),
            final(self).same_process(*old(self)),
    {
        self.location = location;
        self.room = room;
        self.weapon = weapon;
        self.online = online;
        self.players_in_room = if online {
            players
        } else {
            0
        };
        self.in_quest = false;
        self.hunting = None;
        self.elapsed_time = 0;
        self.quest_name = None;
    }

    /// Decode for an ended session whose context string has not yet
    /// flipped back: the returning sentinel zone, the session fields
    /// cleared.
    pub fn apply_returning(&mut self, room: u8, weapon: u8, online: bool, players: u8)
        ensures
            final(self).location == LOC_RETURNING,
            final(self).room == room,
            final(self).weapon == weapon,
            final(self).online == online,
            final(self).players_in_room == (if online {
                players
            } else {
                0
            }),
            !final(self).in_quest,
            final(self).hunting is None,
            final(self).elapsed_time == 0,
            final(self).quest_name is None,
            final(self).status_inv(),
            final(self).same_process(*old(self)),
    {
        self.location = LOC_RETURNING;
        self.room = room;
        self.weapon = weapon;
        self.online = online;
        self.players_in_room = if online {
            players
        } else {
            0
        };
        self.in_quest = false;
        self.hunting = None;
        self.elapsed_time = 0;
        self.quest_name = None;
    }

    /// Decode for a live session: the in-quest sentinel zone, the
    /// session label, elapsed seconds from the two tick counters, and
    /// the scanned target identity.
    pub fn apply_in_quest(
        &mut self,
        room: u8,
        weapon: u8,
        online: bool,
        players: u8,
        label: String,
        tick_now: u32,
        tick_start: u32,
        target: Option<u8>,
    )
        requires
            target matches Some(id) ==> is_target_id(id),
        ensures
            final(self).location == LOC_IN_QUEST,
            final(self).room == room,
            final(self).weapon == weapon,
            final(self).online == online,
            final(self).players_in_room == (if online {
                players
            } else {
                0
            }),
            final(self).in_quest,
            final(self).hunting == target,
            final(self).elapsed_time == elapsed_spec(tick_now, tick_start),
            final(self).quest_name == Some(label),
            final(self).status_inv(),
            final(self).same_process(*old(self)),
    {
        self.location = LOC_IN_QUEST;
        self.room = room;
        self.weapon = weapon;
        self.online = online;
        self.players_in_room = if online {
            players
        } else {
            0
        };
        self.in_quest = true;
        self.hunting = target;
        self.elapsed_time = elapsed_seconds(tick_now, tick_start);
        self.quest_name = Some(label);
    }

    /// Reads and classifies the foreign task-name string.
    fn get_task(&self) -> (r: Result<Task, MemError>)
        ensures
            self.base_address + TASK_NAME_OFFSET > usize::MAX ==> r is Err,
    {
        let addr = foreign_addr(self.base_address, TASK_NAME_OFFSET)?;
        let name = read_string(addr, &self.handle)?;
        Ok(classify(&name))
    }

    /// Runs one full extraction cycle: classify the context, decode the
    /// fields that context makes meaningful, and replace the record
    /// wholesale. A failed read at any offset aborts the cycle and
    /// leaves the record exactly as it was.
    pub fn update(&mut self) -> (r: Result<(), MemError>)
        ensures
            r is Err ==> *final(self) == *old(self),
            r is Ok ==> final(self).status_inv(),
            old(self).base_address + TASK_NAME_OFFSET > usize::MAX ==> r is Err,
            final(self).same_process(*old(self)),
    {
        let task = self.get_task()?;
        match task {
            Task::Unknown => {
                self.apply_unclassified();
                Ok(())
            },
            Task::Readable(readable) => {
                let location = read_byte(
                    foreign_addr(self.base_address, LOCATION_OFFSET)?,
                    &self.handle,
                )?;
                let room = read_byte(foreign_addr(self.base_address, ROOM_OFFSET)?, &self.handle)?;
                let weapon = read_byte(
                    foreign_addr(self.base_address, WEAPON_OFFSET)?,
                    &self.handle,
                )?;
                let online = read_bool(
                    foreign_addr(self.base_address, ONLINE_OFFSET)?,
                    &self.handle,
                )?;
                let players = if online {
                    read_byte(foreign_addr(self.base_address, PLAYERS_OFFSET)?, &self.handle)?
                } else {
                    0
                };
                match readable {
                    ReadableTask::Lobby => {
                        self.apply_lobby(location, room, weapon, online, players);
                        Ok(())
                    },
                    ReadableTask::Game => {
                        let phase = read_byte(
                            foreign_addr(self.base_address, SESSION_PHASE_OFFSET)?,
                            &self.handle,
                        )?;
                        if session_live(phase) {
                            let label = read_string(
                                foreign_addr(self.base_address, QUEST_NAME_OFFSET)?,
                                &self.handle,
                            )?;
                            let tick_now = read_int(
                                foreign_addr(self.base_address, TICK_NOW_OFFSET)?,
                                &self.handle,
                            )?;
                            let tick_start = read_int(
                                foreign_addr(self.base_address, TICK_START_OFFSET)?,
                                &self.handle,
                            )?;
                            let target = scan_targets(self.base_address, &self.handle)?;
                            self.apply_in_quest(
                                room,
                                weapon,
                                online,
                                players,
                                label,
                                tick_now,
                                tick_start,
                                target,
                            );
                            Ok(())
                        } else {
                            self.apply_returning(room, weapon, online, players);
                            Ok(())
                        }
                    },
                }
            },
        }
    }
}

/// An unrecognized context string always yields the menu sentinel,
/// regardless of any other foreign byte values: the string classifies
/// as `Unknown`, and the record decoded for `Unknown` — the menu record
/// that `update` installs through `apply_unclassified` — is offline with
/// zero occupancy, no active target, no elapsed time, and the menu zone.
pub proof fn lemma_unrecognized_yields_menu(s: Seq<char>, r: Mhp3rdStatus)
    requires
        s != crate::task::lobby_ident(),
        s != crate::task::game_ident(),
        r.menu_record(),
    ensures
        crate::task::classify_spec(s) is Unknown,
        !r.online,
        r.players_in_room == 0,
        r.hunting is None,
        r.elapsed_time == 0,
        r.location == LOC_MENU,
{
}

/// In every context the occupancy count is zero whenever the player is
/// offline: the record invariant carries no exception for any decode
/// path.
pub proof fn lemma_offline_empty(s: Mhp3rdStatus)
    requires
        s.status_inv(),
        !s.online,
    ensures
        s.players_in_room == 0,
{
}

/// The session fields stand or fall together: whenever no session is
/// live, the target identity, the elapsed time and the session label
/// are all cleared at once, and whenever one is live, the record shows
/// the in-quest zone with its label present.
pub proof fn lemma_session_fields_together(s: Mhp3rdStatus)
    requires
        s.status_inv(),
    ensures
        !s.in_quest ==> s.hunting is None && s.elapsed_time == 0 && s.quest_name is None,
        s.in_quest ==> s.location == LOC_IN_QUEST && s.quest_name is Some,
{
}

} // verus!
