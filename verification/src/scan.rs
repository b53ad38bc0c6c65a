//! The target scanner: a bounded linear scan over the foreign entity
//! table for the first slot holding a live, allow-listed target.
//!
//! The table holds at most five pointer-sized slots. A zero pointer ends
//! the table; a slot counts as the active target when its status field
//! is nonzero and its identity byte is on the fixed allow-list. The
//! allow-list and the bound are closed constants of one known build of
//! the foreign game, not configuration.

use vstd::prelude::*;

verus! {

use read_process_memory::ProcessHandle;
use crate::mem::{MemError, foreign_addr, read_byte, read_int, read_short};

/// Base-relative offset of the entity slot table.
pub const ENTITY_TABLE_OFFSET: usize = 0x9DA9860;

/// Offset of the identity byte inside an entity record.
pub const ENTITY_ID_OFFSET: usize = 0x62;

/// Offset of the 16-bit status field inside an entity record.
pub const ENTITY_STATUS_OFFSET: usize = 0x246;

/// Whether an identity byte is on the closed allow-list of valid hunt
/// targets.
pub open spec fn is_target_id(id: u8) -> bool {
    ||| id == 1
    ||| id == 2
    ||| id == 3
    ||| id == 4
    ||| id == 5
    ||| id == 6
    ||| id == 7
    ||| id == 8
    ||| id == 9
    ||| id == 12
    ||| id == 14
    ||| id == 15
    ||| id == 16
    ||| id == 18
    ||| id == 19
    ||| id == 20
    ||| id == 23
    ||| id == 24
    ||| id == 25
    ||| id == 32
    ||| id == 40
    ||| id == 41
    ||| id == 42
    ||| id == 43
    ||| id == 44
    ||| id == 45
    ||| id == 46
    ||| id == 47
    ||| id == 51
    ||| id == 52
    ||| id == 53
    ||| id == 54
    ||| id == 55
    ||| id == 56
    ||| id == 57
    ||| id == 58
    ||| id == 59
    ||| id == 60
    ||| id == 61
    ||| id == 62
}

/// Decides allow-list membership of an identity byte.
pub fn is_allowed_target(id: u8) -> (r: bool)
    ensures
        r == is_target_id(id),
{
    id == 1 || id == 2 || id == 3 || id == 4 || id == 5 || id == 6 || id == 7 || id == 8 || id == 9
        || id == 12 || id == 14 || id == 15 || id == 16 || id == 18 || id == 19 || id == 20 || id
        == 23 || id == 24 || id == 25 || id == 32 || id == 40 || id == 41 || id == 42 || id == 43
        || id == 44 || id == 45 || id == 46 || id == 47 || id == 51 || id == 52 || id == 53 || id
        == 54 || id == 55 || id == 56 || id == 57 || id == 58 || id == 59 || id == 60 || id == 61
        || id == 62
}

/// One entity slot as observed during a scan: the table pointer, and the
/// identity and status fields the pointer resolves to.
#[derive(Clone, Copy, PartialEq, Eq, Structural, Debug)]
pub struct SlotEntry {
    /// The base-relative pointer held in the table slot; zero ends the
    /// table.
    pub pointer: u32,
    /// The identity byte of the entity the slot points to.
    pub id: u8,
    /// The entity's 16-bit status field; zero means not alive.
    pub status: u16,
}

/// The identity the scan yields on a sequence of observed slots: that of
/// the first slot which is live and allow-listed, unless a zero pointer
/// or the end of the table comes first.
pub open spec fn scan_spec(slots: Seq<SlotEntry>) -> Option<u8>
    decreases slots.len(),
{
    if slots.len() == 0 {
        None
    } else if slots[0].pointer == 0 {
        None
    } else if slots[0].status > 0 && is_target_id(slots[0].id) {
        Some(slots[0].id)
    } else {
        scan_spec(slots.skip(1))
    }
}

/// Whatever identity a scan yields was drawn from the allow-list and was
/// live in its slot.
pub proof fn lemma_scan_allowed(slots: Seq<SlotEntry>)
    ensures
        scan_spec(slots) matches Some(id) ==> is_target_id(id),
    decreases slots.len(),
{
    if slots.len() > 0 && slots[0].pointer != 0 && !(slots[0].status > 0 && is_target_id(
        slots[0].id,
    )) {
        lemma_scan_allowed(slots.skip(1));
    }
}

/// Scans a table of observed slots for the first live, allow-listed
/// target.
pub fn scan_table(slots: &Vec<SlotEntry>) -> (r: Option<u8>)
    ensures
        r == scan_spec(slots@),
{
    let n = slots.len();
    let mut i: usize = 0;
    proof {
        assert(slots@.skip(0) =~= slots@);
    }
    while i < n
        invariant
            i <= n,
            n == slots@.len(),
            scan_spec(slots@) == scan_spec(slots@.skip(i as int)),
        decreases n - i,
    {
        let e = slots[i];
        proof {
            assert(slots@.skip(i as int)[0] == slots@[i as int]);
        }
        if e.pointer == 0 {
            return None;
        }
        if e.status > 0 && is_allowed_target(e.id) {
            return Some(e.id);
        }
        proof {
            assert(slots@.skip(i as int).skip(1) =~= slots@.skip(i as int + 1));
        }
        i = i + 1;
    }
    proof {
        assert(slots@.skip(n as int) =~= Seq::<SlotEntry>::empty());
    }
    None
}

/// Walks the foreign entity table, reading each slot until a live,
/// allow-listed target, a zero pointer, or the table bound, and yields
/// the identity found, if any. A failed read at any offset aborts the
/// whole scan.
pub fn scan_targets(base: usize, handle: &ProcessHandle) -> (r: Result<Option<u8>, MemError>)
    ensures
        r matches Ok(Some(id)) ==> is_target_id(id),
        base + ENTITY_TABLE_OFFSET > usize::MAX ==> r is Err,
{
    let table = foreign_addr(base, ENTITY_TABLE_OFFSET)?;
    let mut slots: Vec<SlotEntry> = Vec::new();
    let mut i: usize = 0;
    while i < 5
        invariant
            i <= 5,
        decreases 5 - i,
    {
        let slot_addr = foreign_addr(table, 4 * i)?;
        let pointer = read_int(slot_addr, handle)?;
        if pointer == 0 {
            slots.push(SlotEntry { pointer: 0, id: 0, status: 0 });
            break ;
        }
        let entity = foreign_addr(base, pointer as usize)?;
        let id = read_byte(foreign_addr(entity, ENTITY_ID_OFFSET)?, handle)?;
        let status_wide = read_short(foreign_addr(entity, ENTITY_STATUS_OFFSET)?, handle)?;
        let status = status_wide as u16;
        slots.push(SlotEntry { pointer, id, status });
        if status > 0 && is_allowed_target(id) {
            break ;
        }
        i = i + 1;
    }
    let found = scan_table(&slots);
    proof {
        lemma_scan_allowed(slots@);
    }
    Ok(found)
}

} // verus!
