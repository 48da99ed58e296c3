use vstd::prelude::*;
use vstd::slice::slice_subrange;
use crate::error::DecodeError;
use crate::field::{decode_u16, u16_at, Endian};
use crate::save::gen3::gen3_save::SaveGen3;
use crate::save::gen3::gen3_utils::{
    game_of, is_trainer_record_of, parse_trainer_data_from_byte_array, SECTION_ID_OFFSET,
    SECTION_LEN,
};

verus! {

/// Sections in one save slot.
pub const SECTION_COUNT: usize = 14;

/// Bytes in one save slot.
pub const SLOT_LEN: usize = 57344;

/// Where the first save slot starts in a save file.
pub const SLOT_A_OFFSET: usize = 0x000000;

/// Where the second save slot starts in a save file.
pub const SLOT_B_OFFSET: usize = 0x00E000;

/// The section id that marks the trainer section.
pub const TRAINER_SECTION_ID: u16 = 0;

/// Whether a file of `len` bytes holds a whole save slot from `start` on.
pub open spec fn holds_slot(len: nat, start: int) -> bool {
    0 <= start && start + SLOT_LEN <= len
}

/// The bytes of the save slot that starts at `start` in `file`.
pub open spec fn slot_of(file: Seq<u8>, start: int) -> Seq<u8> {
    file.subrange(start, start + SLOT_LEN)
}

/// The bytes of the section at position `index` of a slot.
pub open spec fn window(slot: Seq<u8>, index: int) -> Seq<u8> {
    slot.subrange(index * SECTION_LEN, index * SECTION_LEN + SECTION_LEN)
}

/// The id that a section's footer carries.
pub open spec fn section_id_of(section: Seq<u8>) -> u16 {
    u16_at(section, SECTION_ID_OFFSET as int, Endian::Little)
}

/// The position of the last trainer section among the first `n` sections of
/// a slot, if there is one.
pub open spec fn last_trainer_window(slot: Seq<u8>, n: nat) -> Option<int>
    decreases n,
{
    if n == 0 {
        None
    } else if section_id_of(window(slot, n - 1)) == TRAINER_SECTION_ID {
        Some(n - 1)
    } else {
        last_trainer_window(slot, (n - 1) as nat)
    }
}

/// The ids of those among the first `n` sections of a slot that are not the
/// trainer section, in the order of the sections.
pub open spec fn skipped_ids(slot: Seq<u8>, n: nat) -> Seq<u16>
    decreases n,
{
    if n == 0 {
        Seq::empty()
    } else {
        let id = section_id_of(window(slot, n - 1));
        if id == TRAINER_SECTION_ID {
            skipped_ids(slot, (n - 1) as nat)
        } else {
            skipped_ids(slot, (n - 1) as nat).push(id)
        }
    }
}

/// Whether `after` is what scanning the first `n` sections of `slot` makes of
/// `before`: the record and game variant of the last trainer section among
/// them, or `before` itself where there is none.
pub open spec fn is_scan_result(before: SaveGen3, after: SaveGen3, slot: Seq<u8>, n: nat) -> bool {
    match last_trainer_window(slot, n) {
        Some(k) => {
            &&& after.game_ver == game_of(window(slot, k))
            &&& after.trainer_section is Some
            &&& is_trainer_record_of(after.trainer_section->Some_0, window(slot, k))
            &&& after.trainer_section->Some_0.wf()
        },
        None => after == before,
    }
}

/// Scans the fourteen sections of the save slot that starts at `start` in
/// `file`, in order. Each section that carries the trainer id is decoded into
/// `save`, with the game variant it reveals; the ids of the others are
/// returned. A file that does not hold a whole slot there is refused and
/// `save` is left as it was.
pub fn scan_slot(file: &[u8], start: usize, save: &mut SaveGen3) -> (r: Result<
    Vec<u16>,
    DecodeError,
>)
    ensures
        holds_slot(file@.len(), start as int) ==> r is Ok && r->Ok_0@ == skipped_ids(
            slot_of(file@, start as int),
            SECTION_COUNT as nat,
        ) && is_scan_result(
            *old(save),
            *final(save),
            slot_of(file@, start as int),
            SECTION_COUNT as nat,
        ),
        !holds_slot(file@.len(), start as int) ==> r == Err::<Vec<u16>, DecodeError>(
            DecodeError::TruncatedInput,
        ) && *final(save) == *old(save),
{
    if file.len() < SLOT_LEN || start > file.len() - SLOT_LEN {
        return Err(DecodeError::TruncatedInput);
    }
    let ghost slot = slot_of(file@, start as int);
    let ghost before = *save;
    let mut skipped: Vec<u16> = Vec::new();
    let mut i: usize = 0;
    while i < SECTION_COUNT
        invariant
            i <= SECTION_COUNT,
            start + SLOT_LEN <= file@.len() <= usize::MAX,
            slot == slot_of(file@, start as int),
            skipped@ == skipped_ids(slot, i as nat),
            is_scan_result(before, *save, slot, i as nat),
        decreases SECTION_COUNT - i,
    {
        let from: usize = start + SECTION_LEN * i;
        let section = slice_subrange(file, from, from + SECTION_LEN);
        assert(section@ == window(slot, i as int));
        let id = match decode_u16(section, SECTION_ID_OFFSET, Endian::Little) {
            Ok(v) => v,
            Err(e) => { return Err(e); },
        };
        if id == TRAINER_SECTION_ID {
            match parse_trainer_data_from_byte_array(section, save) {
                Ok(trainer) => { save.trainer_section = Some(trainer); },
                Err(e) => { return Err(e); },
            }
        } else {
            skipped.push(id);
        }
        i += 1;
    }
    Ok(skipped)
}

/// When exactly one section of a slot carries the trainer id, a scan finds
/// that section wherever it stands: whatever the save held before, it then
/// holds the record and the game variant of that section, and the thirteen
/// other sections are skipped.
pub proof fn lemma_scan_finds_the_trainer_section(slot: Seq<u8>, k: int)
    requires
        0 <= k < SECTION_COUNT,
        section_id_of(window(slot, k)) == TRAINER_SECTION_ID,
        forall|j: int|
            0 <= j < SECTION_COUNT && j != k ==> section_id_of(#[trigger] window(slot, j))
                != TRAINER_SECTION_ID,
    ensures
        last_trainer_window(slot, SECTION_COUNT as nat) == Some(k),
        skipped_ids(slot, SECTION_COUNT as nat).len() == SECTION_COUNT - 1,
        forall|before: SaveGen3, after: SaveGen3| #[trigger]
            is_scan_result(before, after, slot, SECTION_COUNT as nat) ==> {
                &&& after.trainer_section is Some
                &&& is_trainer_record_of(after.trainer_section->Some_0, window(slot, k))
                &&& after.game_ver == game_of(window(slot, k))
            },
{
    lemma_scan_prefix(slot, k, SECTION_COUNT as nat);
}

proof fn lemma_scan_prefix(slot: Seq<u8>, k: int, n: nat)
    requires
        0 <= k < SECTION_COUNT,
        n <= SECTION_COUNT,
        section_id_of(window(slot, k)) == TRAINER_SECTION_ID,
        forall|j: int|
            0 <= j < SECTION_COUNT && j != k ==> section_id_of(#[trigger] window(slot, j))
                != TRAINER_SECTION_ID,
    ensures
        n <= k ==> last_trainer_window(slot, n) is None && skipped_ids(slot, n).len() == n,
        n > k ==> last_trainer_window(slot, n) == Some(k) && skipped_ids(slot, n).len() == n - 1,
    decreases n,
{
    if n > 0 {
        lemma_scan_prefix(slot, k, (n - 1) as nat);
        if n - 1 != k {
            assert(section_id_of(window(slot, n - 1)) != TRAINER_SECTION_ID);
        }
    }
}

} // verus!
