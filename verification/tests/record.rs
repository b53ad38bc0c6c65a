use mhp3rd_status::interface::Mhp3rdStatus;
use mhp3rd_status::mem::MemError;
use read_process_memory::{Pid, ProcessHandle};

// A handle bound to a pid no live process can have, so that every read
// of it fails.
fn dead_handle() -> ProcessHandle {
    ProcessHandle::try_from(i32::MAX as Pid).unwrap()
}

#[test]
fn new_record_starts_cleared() {
    let s = Mhp3rdStatus::new(0x1000, dead_handle());
    assert_eq!(s.location, 0);
    assert_eq!(s.room, 0);
    assert_eq!(s.weapon, 5);
    assert!(!s.online);
    assert_eq!(s.players_in_room, 0);
    assert!(!s.in_quest);
    assert_eq!(s.hunting, None);
    assert_eq!(s.elapsed_time, 0);
    assert_eq!(s.quest_name, None);
}

#[test]
fn failed_read_aborts_cycle_and_keeps_record() {
    let mut s = Mhp3rdStatus::new(0x1000, dead_handle());
    s.location = 1;
    s.room = 7;
    s.weapon = 12;
    s.online = true;
    s.players_in_room = 3;
    s.in_quest = true;
    s.hunting = Some(0x13);
    s.elapsed_time = 42;
    s.quest_name = Some(String::from("Harvest Tour"));

    let r = s.update();
    assert_eq!(r, Err(MemError::Unreadable));
    assert_eq!(s.location, 1);
    assert_eq!(s.room, 7);
    assert_eq!(s.weapon, 12);
    assert!(s.online);
    assert_eq!(s.players_in_room, 3);
    assert!(s.in_quest);
    assert_eq!(s.hunting, Some(0x13));
    assert_eq!(s.elapsed_time, 42);
    assert_eq!(s.quest_name, Some(String::from("Harvest Tour")));
}

#[test]
fn unclassified_decode_is_the_menu_sentinel() {
    let mut s = Mhp3rdStatus::new(0, dead_handle());
    s.location = 1;
    s.room = 9;
    s.weapon = 13;
    s.online = true;
    s.players_in_room = 4;
    s.in_quest = true;
    s.hunting = Some(0x13);
    s.elapsed_time = 99;
    s.quest_name = Some(String::from("x"));

    s.apply_unclassified();
    assert_eq!(s.location, 4);
    assert_eq!(s.room, 0);
    assert_eq!(s.weapon, 5);
    assert!(!s.online);
    assert_eq!(s.players_in_room, 0);
    assert!(!s.in_quest);
    assert_eq!(s.hunting, None);
    assert_eq!(s.elapsed_time, 0);
    assert_eq!(s.quest_name, None);
}

#[test]
fn lobby_decode_keeps_ambient_fields_and_clears_session() {
    let mut s = Mhp3rdStatus::new(0, dead_handle());
    s.hunting = Some(0x13);
    s.elapsed_time = 10;
    s.quest_name = Some(String::from("x"));
    s.in_quest = true;

    s.apply_lobby(1, 2, 12, true, 3);
    assert_eq!(s.location, 1);
    assert_eq!(s.room, 2);
    assert_eq!(s.weapon, 12);
    assert!(s.online);
    assert_eq!(s.players_in_room, 3);
    assert!(!s.in_quest);
    assert_eq!(s.hunting, None);
    assert_eq!(s.elapsed_time, 0);
    assert_eq!(s.quest_name, None);
}

#[test]
fn occupancy_is_zero_whenever_offline() {
    let mut s = Mhp3rdStatus::new(0, dead_handle());
    s.apply_lobby(1, 2, 12, false, 9);
    assert!(!s.online);
    assert_eq!(s.players_in_room, 0);

    s.apply_returning(2, 12, false, 9);
    assert_eq!(s.players_in_room, 0);

    s.apply_in_quest(2, 12, false, 9, String::from("q"), 60, 0, None);
    assert_eq!(s.players_in_room, 0);

    s.apply_unclassified();
    assert_eq!(s.players_in_room, 0);
}

#[test]
fn returning_decode_clears_session_fields_together() {
    let mut s = Mhp3rdStatus::new(0, dead_handle());
    s.hunting = Some(0x13);
    s.elapsed_time = 77;
    s.quest_name = Some(String::from("x"));
    s.in_quest = true;

    s.apply_returning(3, 7, true, 2);
    assert_eq!(s.location, 6);
    assert_eq!(s.room, 3);
    assert_eq!(s.weapon, 7);
    assert!(s.online);
    assert_eq!(s.players_in_room, 2);
    assert!(!s.in_quest);
    assert_eq!(s.hunting, None);
    assert_eq!(s.elapsed_time, 0);
    assert_eq!(s.quest_name, None);
}

#[test]
fn in_quest_decode_populates_session_fields_together() {
    let mut s = Mhp3rdStatus::new(0, dead_handle());
    s.apply_in_quest(3, 7, true, 2, String::from("Hunt an Agnaktor!"), 1800, 900, Some(0x13));
    assert_eq!(s.location, 5);
    assert_eq!(s.room, 3);
    assert_eq!(s.weapon, 7);
    assert!(s.online);
    assert_eq!(s.players_in_room, 2);
    assert!(s.in_quest);
    assert_eq!(s.hunting, Some(0x13));
    assert_eq!(s.elapsed_time, 30);
    assert_eq!(s.quest_name, Some(String::from("Hunt an Agnaktor!")));
}

#[test]
fn in_quest_decode_without_target() {
    let mut s = Mhp3rdStatus::new(0, dead_handle());
    s.apply_in_quest(0, 5, false, 0, String::new(), 29, 0, None);
    assert!(s.in_quest);
    assert_eq!(s.hunting, None);
    assert_eq!(s.elapsed_time, 0);
    assert_eq!(s.quest_name, Some(String::new()));
}
