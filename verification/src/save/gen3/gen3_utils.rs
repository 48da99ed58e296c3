use vstd::prelude::*;
use crate::error::DecodeError;
use crate::field::{
    decode_u16, decode_u32, decode_u8, encode_u16, encode_u32, encode_u8, in_bounds, join_u16, le16,
    overwrite, read_bytes, u16_at, u16_bytes, u32_at, u32_bytes, Endian,
};
use crate::save::gen3::gen3_save::{
    Gen3Game, KeyCode, PlayedTime, SaveGen3, SectionData, TrainerData, TrainerId,
};

verus! {

/// Bytes in one section.
pub const SECTION_LEN: usize = 4096;

/// Where the trainer's name, seven bytes, starts in the trainer section.
pub const NAME_OFFSET: usize = 0x0000;

/// Where the trainer's gender byte lies.
pub const GENDER_OFFSET: usize = 0x0008;

/// Where the whole trainer identifier, four bytes, starts.
pub const TRAINER_ID_OFFSET: usize = 0x000A;

/// Where the secret half of the trainer identifier starts: its low two bytes.
pub const SECRET_ID_OFFSET: usize = 0x000A;

/// Where the public half of the trainer identifier starts: its high two bytes.
pub const PUBLIC_ID_OFFSET: usize = 0x000C;

/// Where the five raw bytes of the played time start.
pub const TIME_OFFSET: usize = 0x000E;

/// Where the hours played, two bytes, start.
pub const HOURS_OFFSET: usize = 0x000E;

/// Where the minutes played lie.
pub const MINUTES_OFFSET: usize = 0x0010;

/// Where the seconds played lie.
pub const SECONDS_OFFSET: usize = 0x0011;

/// Where the frames played lie.
pub const FRAMES_OFFSET: usize = 0x0012;

/// Where the first key block, four bytes, starts.
pub const KEY_BLOCK_A_OFFSET: usize = 0x00AC;

/// Where the second key block, four bytes, starts.
pub const KEY_BLOCK_B_OFFSET: usize = 0x0AF8;

/// Where the section id, two bytes, starts in every section.
pub const SECTION_ID_OFFSET: usize = 0x0FF4;

/// Where the stored checksum, two bytes, starts in every section.
pub const CHECKSUM_OFFSET: usize = 0x0FF6;

/// Where the signature, four bytes, starts in every section.
pub const SIGNATURE_OFFSET: usize = 0x0FF8;

/// Where the save index, four bytes, starts in every section.
pub const SAVE_INDEX_OFFSET: usize = 0x0FFC;

/// The game variant and key material that two key blocks stand for. A first
/// block of 0 means Ruby/Sapphire, of 1 FireRed/LeafGreen with the second
/// block as security key; any other first block is itself the security key
/// of an Emerald save.
pub open spec fn resolve_spec(block_a: u32, block_b: u32) -> (Gen3Game, KeyCode) {
    if block_a == 0 {
        (Gen3Game::RubySapphire, KeyCode { game_code: Some(0u32), security_key: None })
    } else if block_a == 1 {
        (Gen3Game::FireRedLeafGreen, KeyCode { game_code: Some(1u32), security_key: Some(block_b) })
    } else {
        (Gen3Game::Emerald, KeyCode { game_code: None, security_key: Some(block_a) })
    }
}

/// Infers the game variant and key material from the two key blocks.
pub fn resolve(block_a: u32, block_b: u32) -> (r: (Gen3Game, KeyCode))
    ensures
        r == resolve_spec(block_a, block_b),
        block_a == 0 ==> r == (
            Gen3Game::RubySapphire,
            KeyCode { game_code: Some(0u32), security_key: None },
        ),
        block_a == 1 ==> r == (
            Gen3Game::FireRedLeafGreen,
            KeyCode { game_code: Some(1u32), security_key: Some(block_b) },
        ),
        block_a != 0 && block_a != 1 ==> r == (
            Gen3Game::Emerald,
            KeyCode { game_code: None, security_key: Some(block_a) },
        ),
        r.1.wf(),
{
    if block_a == 0x00000000 {
        (Gen3Game::RubySapphire, KeyCode { game_code: Some(0x00000000), security_key: None })
    } else if block_a == 0x00000001 {
        (
            Gen3Game::FireRedLeafGreen,
            KeyCode { game_code: Some(0x00000001), security_key: Some(block_b) },
        )
    } else {
        (Gen3Game::Emerald, KeyCode { game_code: None, security_key: Some(block_a) })
    }
}

/// Infers the key material from the two key blocks and records the game
/// variant they stand for in `save`.
pub fn get_security_key_or_game_code(block_a: u32, block_b: u32, save: &mut SaveGen3) -> (key:
    KeyCode)
    ensures
        key == resolve_spec(block_a, block_b).1,
        final(save).game_ver == resolve_spec(block_a, block_b).0,
        final(save).trainer_section == old(save).trainer_section,
{
    let (game, key) = resolve(block_a, block_b);
    save.game_ver = game;
    key
}

/// The footer that a section's bytes hold.
pub open spec fn section_data_of(section: Seq<u8>) -> SectionData {
    SectionData {
        section_id: u16_at(section, SECTION_ID_OFFSET as int, Endian::Little),
        checksum: u16_at(section, CHECKSUM_OFFSET as int, Endian::Little),
        signature: u32_at(section, SIGNATURE_OFFSET as int, Endian::Little),
        save_index: u32_at(section, SAVE_INDEX_OFFSET as int, Endian::Little),
    }
}

/// The trainer's identifier that a section's bytes hold.
pub open spec fn trainer_id_of(section: Seq<u8>) -> TrainerId {
    TrainerId {
        trainer_id: u32_at(section, TRAINER_ID_OFFSET as int, Endian::Little),
        secret_id: u16_at(section, SECRET_ID_OFFSET as int, Endian::Little),
        public_id: u16_at(section, PUBLIC_ID_OFFSET as int, Endian::Little),
    }
}

/// The first key block that a section's bytes hold.
pub open spec fn key_block_a_of(section: Seq<u8>) -> u32 {
    u32_at(section, KEY_BLOCK_A_OFFSET as int, Endian::Little)
}

/// The second key block that a section's bytes hold.
pub open spec fn key_block_b_of(section: Seq<u8>) -> u32 {
    u32_at(section, KEY_BLOCK_B_OFFSET as int, Endian::Little)
}

/// The game variant that a trainer section's key blocks stand for.
pub open spec fn game_of(section: Seq<u8>) -> Gen3Game {
    resolve_spec(key_block_a_of(section), key_block_b_of(section)).0
}

/// Whether `time` is the played time that a section's bytes hold.
pub open spec fn is_played_time_of(time: PlayedTime, section: Seq<u8>) -> bool {
    &&& time.time@ == section.subrange(TIME_OFFSET as int, TIME_OFFSET + 5)
    &&& time.hours == u16_at(section, HOURS_OFFSET as int, Endian::Little)
    &&& time.minutes == section[MINUTES_OFFSET as int]
    &&& time.seconds == section[SECONDS_OFFSET as int]
    &&& time.frames == section[FRAMES_OFFSET as int]
}

/// Whether `trainer` is the record that a trainer section's bytes hold:
/// every field is the value stored at its offset.
pub open spec fn is_trainer_record_of(trainer: TrainerData, section: Seq<u8>) -> bool {
    &&& trainer.section_info == Some(section_data_of(section))
    &&& trainer.name@ == section.subrange(NAME_OFFSET as int, NAME_OFFSET + 7)
    &&& trainer.gender == section[GENDER_OFFSET as int]
    &&& trainer.id == trainer_id_of(section)
    &&& is_played_time_of(trainer.time, section)
    &&& trainer.security == resolve_spec(key_block_a_of(section), key_block_b_of(section)).1
}

/// The whole trainer identifier of a section is its secret identifier in the
/// low half and its public identifier in the high half.
pub proof fn lemma_trainer_id_halves(section: Seq<u8>)
    requires
        section.len() >= SECTION_LEN,
    ensures
        u32_at(section, TRAINER_ID_OFFSET as int, Endian::Little) == (u16_at(
            section,
            SECRET_ID_OFFSET as int,
            Endian::Little,
        ) as u32) | ((u16_at(section, PUBLIC_ID_OFFSET as int, Endian::Little) as u32) << 16),
        trainer_id_of(section).wf(),
{
    let b0 = section[0x0A];
    let b1 = section[0x0B];
    let b2 = section[0x0C];
    let b3 = section[0x0D];
    let low: u16 = le16(b0, b1);
    let high: u16 = le16(b2, b3);
    let whole: u32 = u32_at(section, TRAINER_ID_OFFSET as int, Endian::Little);
    assert(whole == low + 0x1_0000 * high);
    assert(whole == (low as u32) | ((high as u32) << 16)) by (bit_vector)
        requires
            whole == low + 0x1_0000 * high,
    ;
}

/// A record that holds what a section's bytes hold is consistent.
pub proof fn lemma_trainer_record_wf(trainer: TrainerData, section: Seq<u8>)
    requires
        section.len() >= SECTION_LEN,
        is_trainer_record_of(trainer, section),
    ensures
        trainer.wf(),
{
    lemma_trainer_id_halves(section);
}

/// Two records that hold what the same section's bytes hold are equal.
pub proof fn lemma_trainer_record_unique(a: TrainerData, b: TrainerData, section: Seq<u8>)
    requires
        is_trainer_record_of(a, section),
        is_trainer_record_of(b, section),
    ensures
        a == b,
{
    assert(a.name =~= b.name);
    assert(a.time.time =~= b.time.time);
}

/// Decodes every field of a trainer section and infers the game variant from
/// its key blocks. Nothing is returned unless the whole section is there.
pub fn build_trainer_record(section: &[u8]) -> (r: Result<(TrainerData, Gen3Game), DecodeError>)
    ensures
        section@.len() >= SECTION_LEN ==> r is Ok && is_trainer_record_of(r->Ok_0.0, section@)
            && r->Ok_0.0.wf() && r->Ok_0.1 == game_of(section@),
        section@.len() < SECTION_LEN ==> r == Err::<(TrainerData, Gen3Game), DecodeError>(
            DecodeError::Bounds,
        ),
{
    let section_info = match SectionData::new(section) {
        Ok(v) => v,
        Err(e) => { return Err(e); },
    };
    let name = match read_bytes::<7>(section, NAME_OFFSET) {
        Ok(v) => v,
        Err(e) => { return Err(e); },
    };
    let trainer_id = match decode_u32(section, TRAINER_ID_OFFSET, Endian::Little) {
        Ok(v) => v,
        Err(e) => { return Err(e); },
    };
    let secret_id = match decode_u16(section, SECRET_ID_OFFSET, Endian::Little) {
        Ok(v) => v,
        Err(e) => { return Err(e); },
    };
    let public_id = match decode_u16(section, PUBLIC_ID_OFFSET, Endian::Little) {
        Ok(v) => v,
        Err(e) => { return Err(e); },
    };
    let time = match read_bytes::<5>(section, TIME_OFFSET) {
        Ok(v) => v,
        Err(e) => { return Err(e); },
    };
    let hours = match decode_u16(section, HOURS_OFFSET, Endian::Little) {
        Ok(v) => v,
        Err(e) => { return Err(e); },
    };
    let block_a = match decode_u32(section, KEY_BLOCK_A_OFFSET, Endian::Little) {
        Ok(v) => v,
        Err(e) => { return Err(e); },
    };
    let block_b = match decode_u32(section, KEY_BLOCK_B_OFFSET, Endian::Little) {
        Ok(v) => v,
        Err(e) => { return Err(e); },
    };
    let (game, security) = resolve(block_a, block_b);
    let trainer = TrainerData {
        section_info: Some(section_info),
        name,
        gender: section[GENDER_OFFSET],
        id: TrainerId { trainer_id, secret_id, public_id },
        time: PlayedTime {
            time,
            hours,
            minutes: section[MINUTES_OFFSET],
            seconds: section[SECONDS_OFFSET],
            frames: section[FRAMES_OFFSET],
        },
        security,
    };
    proof {
        lemma_trainer_record_wf(trainer, section@);
    }
    Ok((trainer, game))
}

/// Decodes a trainer section and records the game variant it reveals in
/// `save`. When the section is too short, `save` is left as it was.
pub fn parse_trainer_data_from_byte_array(section_bytes: &[u8], save: &mut SaveGen3) -> (r: Result<
    TrainerData,
    DecodeError,
>)
    ensures
        section_bytes@.len() >= SECTION_LEN ==> r is Ok && is_trainer_record_of(
            r->Ok_0,
            section_bytes@,
        ) && r->Ok_0.wf() && final(save).game_ver == game_of(section_bytes@),
        section_bytes@.len() < SECTION_LEN ==> r == Err::<TrainerData, DecodeError>(
            DecodeError::Bounds,
        ) && final(save).game_ver == old(save).game_ver,
        final(save).trainer_section == old(save).trainer_section,
{
    match build_trainer_record(section_bytes) {
        Ok((trainer, game)) => {
            save.game_ver = game;
            Ok(trainer)
        },
        Err(e) => Err(e),
    }
}

impl TrainerId {
    /// Reads the whole trainer identifier from a trainer section, or reports that the section is
    /// too short to hold it.
    pub fn get_trainer_id_from_bytes(data: &[u8]) -> (r: Result<u32, DecodeError>)
        ensures
            in_bounds(data@.len(), TRAINER_ID_OFFSET as int, 4) ==> r == Ok::<u32, DecodeError>(
                u32_at(data@, TRAINER_ID_OFFSET as int, Endian::Little),
            ),
            !in_bounds(data@.len(), TRAINER_ID_OFFSET as int, 4) ==> r == Err::<u32, DecodeError>(
                DecodeError::Bounds,
            ),
    {
        decode_u32(data, TRAINER_ID_OFFSET, Endian::Little)
    }

    /// Writes the whole trainer identifier into a trainer section, or reports that the section is
    /// too short to hold it and changes nothing.
    pub fn set_trainer_id_from_bytes(data: &mut [u8], value: u32) -> (r: Result<(), DecodeError>)
        ensures
            in_bounds(old(data)@.len(), TRAINER_ID_OFFSET as int, 4) ==> r is Ok && final(data)@
                == overwrite(old(data)@, TRAINER_ID_OFFSET as int, u32_bytes(value, Endian::Little)),
            !in_bounds(old(data)@.len(), TRAINER_ID_OFFSET as int, 4) ==> r == Err::<(), DecodeError>(
                DecodeError::Bounds,
            ) && final(data)@ == old(data)@,
    {
        encode_u32(data, TRAINER_ID_OFFSET, value, Endian::Little)
    }

    /// Reads the secret half of the trainer identifier from a trainer section, or reports that the section is
    /// too short to hold it.
    pub fn get_secret_id_from_bytes(data: &[u8]) -> (r: Result<u16, DecodeError>)
        ensures
            in_bounds(data@.len(), SECRET_ID_OFFSET as int, 2) ==> r == Ok::<u16, DecodeError>(
                u16_at(data@, SECRET_ID_OFFSET as int, Endian::Little),
            ),
            !in_bounds(data@.len(), SECRET_ID_OFFSET as int, 2) ==> r == Err::<u16, DecodeError>(
                DecodeError::Bounds,
            ),
    {
        decode_u16(data, SECRET_ID_OFFSET, Endian::Little)
    }

    /// Writes the secret half of the trainer identifier into a trainer section, or reports that the section is
    /// too short to hold it and changes nothing.
    pub fn set_secret_id_from_bytes(data: &mut [u8], value: u16) -> (r: Result<(), DecodeError>)
        ensures
            in_bounds(old(data)@.len(), SECRET_ID_OFFSET as int, 2) ==> r is Ok && final(data)@
                == overwrite(old(data)@, SECRET_ID_OFFSET as int, u16_bytes(value, Endian::Little)),
            !in_bounds(old(data)@.len(), SECRET_ID_OFFSET as int, 2) ==> r == Err::<(), DecodeError>(
                DecodeError::Bounds,
            ) && final(data)@ == old(data)@,
    {
        encode_u16(data, SECRET_ID_OFFSET, value, Endian::Little)
    }

    /// Reads the public half of the trainer identifier from a trainer section, or reports that the section is
    /// too short to hold it.
    pub fn get_public_id_from_bytes(data: &[u8]) -> (r: Result<u16, DecodeError>)
        ensures
            in_bounds(data@.len(), PUBLIC_ID_OFFSET as int, 2) ==> r == Ok::<u16, DecodeError>(
                u16_at(data@, PUBLIC_ID_OFFSET as int, Endian::Little),
            ),
            !in_bounds(data@.len(), PUBLIC_ID_OFFSET as int, 2) ==> r == Err::<u16, DecodeError>(
                DecodeError::Bounds,
            ),
    {
        decode_u16(data, PUBLIC_ID_OFFSET, Endian::Little)
    }

    /// Writes the public half of the trainer identifier into a trainer section, or reports that the section is
    /// too short to hold it and changes nothing.
    pub fn set_public_id_from_bytes(data: &mut [u8], value: u16) -> (r: Result<(), DecodeError>)
        ensures
            in_bounds(old(data)@.len(), PUBLIC_ID_OFFSET as int, 2) ==> r is Ok && final(data)@
                == overwrite(old(data)@, PUBLIC_ID_OFFSET as int, u16_bytes(value, Endian::Little)),
            !in_bounds(old(data)@.len(), PUBLIC_ID_OFFSET as int, 2) ==> r == Err::<(), DecodeError>(
                DecodeError::Bounds,
            ) && final(data)@ == old(data)@,
    {
        encode_u16(data, PUBLIC_ID_OFFSET, value, Endian::Little)
    }
}

impl PlayedTime {
    /// Reads the hours played from a trainer section, or reports that the section is
    /// too short to hold them.
    pub fn get_hours(data: &[u8]) -> (r: Result<u16, DecodeError>)
        ensures
            in_bounds(data@.len(), HOURS_OFFSET as int, 2) ==> r == Ok::<u16, DecodeError>(
                u16_at(data@, HOURS_OFFSET as int, Endian::Little),
            ),
            !in_bounds(data@.len(), HOURS_OFFSET as int, 2) ==> r == Err::<u16, DecodeError>(
                DecodeError::Bounds,
            ),
    {
        decode_u16(data, HOURS_OFFSET, Endian::Little)
    }

    /// Writes the hours played into a trainer section, or reports that the section is
    /// too short to hold them and changes nothing.
    pub fn set_hours(data: &mut [u8], value: u16) -> (r: Result<(), DecodeError>)
        ensures
            in_bounds(old(data)@.len(), HOURS_OFFSET as int, 2) ==> r is Ok && final(data)@ == overwrite(
                old(data)@,
                HOURS_OFFSET as int,
                u16_bytes(value, Endian::Little),
            ),
            !in_bounds(old(data)@.len(), HOURS_OFFSET as int, 2) ==> r == Err::<(), DecodeError>(
                DecodeError::Bounds,
            ) && final(data)@ == old(data)@,
    {
        encode_u16(data, HOURS_OFFSET, value, Endian::Little)
    }

    /// Reads the minutes played from a trainer section, or reports that the section is
    /// too short to hold them.
    pub fn get_minutes(data: &[u8]) -> (r: Result<u8, DecodeError>)
        ensures
            in_bounds(data@.len(), MINUTES_OFFSET as int, 1) ==> r == Ok::<u8, DecodeError>(
                data@[MINUTES_OFFSET as int],
            ),
            !in_bounds(data@.len(), MINUTES_OFFSET as int, 1) ==> r == Err::<u8, DecodeError>(
                DecodeError::Bounds,
            ),
    {
        decode_u8(data, MINUTES_OFFSET)
    }

    /// Writes the minutes played into a trainer section, or reports that the section is
    /// too short to hold them and changes nothing.
    pub fn set_minutes(data: &mut [u8], value: u8) -> (r: Result<(), DecodeError>)
        ensures
            in_bounds(old(data)@.len(), MINUTES_OFFSET as int, 1) ==> r is Ok && final(data)@ == overwrite(
                old(data)@,
                MINUTES_OFFSET as int,
                seq![value],
            ),
            !in_bounds(old(data)@.len(), MINUTES_OFFSET as int, 1) ==> r == Err::<(), DecodeError>(
                DecodeError::Bounds,
            ) && final(data)@ == old(data)@,
    {
        encode_u8(data, MINUTES_OFFSET, value)
    }

    /// Reads the seconds played from a trainer section, or reports that the section is
    /// too short to hold them.
    pub fn get_seconds(data: &[u8]) -> (r: Result<u8, DecodeError>)
        ensures
            in_bounds(data@.len(), SECONDS_OFFSET as int, 1) ==> r == Ok::<u8, DecodeError>(
                data@[SECONDS_OFFSET as int],
            ),
            !in_bounds(data@.len(), SECONDS_OFFSET as int, 1) ==> r == Err::<u8, DecodeError>(
                DecodeError::Bounds,
            ),
    {
        decode_u8(data, SECONDS_OFFSET)
    }

    /// Writes the seconds played into a trainer section, or reports that the section is
    /// too short to hold them and changes nothing.
    pub fn set_seconds(data: &mut [u8], value: u8) -> (r: Result<(), DecodeError>)
        ensures
            in_bounds(old(data)@.len(), SECONDS_OFFSET as int, 1) ==> r is Ok && final(data)@ == overwrite(
                old(data)@,
                SECONDS_OFFSET as int,
                seq![value],
            ),
            !in_bounds(old(data)@.len(), SECONDS_OFFSET as int, 1) ==> r == Err::<(), DecodeError>(
                DecodeError::Bounds,
            ) && final(data)@ == old(data)@,
    {
        encode_u8(data, SECONDS_OFFSET, value)
    }

    /// Reads the frames played from a trainer section, or reports that the section is
    /// too short to hold them.
    pub fn get_frames(data: &[u8]) -> (r: Result<u8, DecodeError>)
        ensures
            in_bounds(data@.len(), FRAMES_OFFSET as int, 1) ==> r == Ok::<u8, DecodeError>(
                data@[FRAMES_OFFSET as int],
            ),
            !in_bounds(data@.len(), FRAMES_OFFSET as int, 1) ==> r == Err::<u8, DecodeError>(
                DecodeError::Bounds,
            ),
    {
        decode_u8(data, FRAMES_OFFSET)
    }

    /// Writes the frames played into a trainer section, or reports that the section is
    /// too short to hold them and changes nothing.
    pub fn set_frames(data: &mut [u8], value: u8) -> (r: Result<(), DecodeError>)
        ensures
            in_bounds(old(data)@.len(), FRAMES_OFFSET as int, 1) ==> r is Ok && final(data)@ == overwrite(
                old(data)@,
                FRAMES_OFFSET as int,
                seq![value],
            ),
            !in_bounds(old(data)@.len(), FRAMES_OFFSET as int, 1) ==> r == Err::<(), DecodeError>(
                DecodeError::Bounds,
            ) && final(data)@ == old(data)@,
    {
        encode_u8(data, FRAMES_OFFSET, value)
    }

    /// Copies the five raw bytes of the played time out of a trainer section,
    /// or reports that the section is too short to hold them.
    pub fn get_time_from_bytes(data: &[u8]) -> (r: Result<[u8; 5], DecodeError>)
        ensures
            in_bounds(data@.len(), TIME_OFFSET as int, 5) ==> r is Ok && r->Ok_0@
                == data@.subrange(TIME_OFFSET as int, TIME_OFFSET + 5),
            !in_bounds(data@.len(), TIME_OFFSET as int, 5) ==> r == Err::<[u8; 5], DecodeError>(
                DecodeError::Bounds,
            ),
    {
        read_bytes::<5>(data, TIME_OFFSET)
    }

    /// The raw bytes of the played time.
    pub fn get_time(&self) -> (time: &[u8; 5])
        ensures
            *time == self.time,
    {
        &self.time
    }

    /// Replaces the raw bytes of the played time, and with them the parts
    /// that they hold.
    pub fn set_time(&mut self, value: [u8; 5])
        ensures
            final(self).time == value,
            final(self).wf(),
    {
        self.hours = join_u16(value[0], value[1]);
        self.minutes = value[2];
        self.seconds = value[3];
        self.frames = value[4];
        self.time = value;
    }
}

impl SectionData {
    /// Decodes the footer of a section, or reports that the section is too
    /// short to hold one.
    pub fn new(data: &[u8]) -> (r: Result<SectionData, DecodeError>)
        ensures
            data@.len() >= SECTION_LEN ==> r == Ok::<SectionData, DecodeError>(
                section_data_of(data@),
            ),
            data@.len() < SECTION_LEN ==> r == Err::<SectionData, DecodeError>(
                DecodeError::Bounds,
            ),
    {
        let save_index = match SectionData::get_save_index(data) {
            Ok(v) => v,
            Err(e) => { return Err(e); },
        };
        let signature = match SectionData::get_signature(data) {
            Ok(v) => v,
            Err(e) => { return Err(e); },
        };
        let checksum = match SectionData::get_checksum(data) {
            Ok(v) => v,
            Err(e) => { return Err(e); },
        };
        let section_id = match SectionData::get_section_id(data) {
            Ok(v) => v,
            Err(e) => { return Err(e); },
        };
        Ok(SectionData { section_id, checksum, signature, save_index })
    }

    /// Reads the section id from a section, or reports that the section is too short
    /// to hold it.
    pub fn get_section_id(data: &[u8]) -> (r: Result<u16, DecodeError>)
        ensures
            in_bounds(data@.len(), SECTION_ID_OFFSET as int, 2) ==> r == Ok::<u16, DecodeError>(
                u16_at(data@, SECTION_ID_OFFSET as int, Endian::Little),
            ),
            !in_bounds(data@.len(), SECTION_ID_OFFSET as int, 2) ==> r == Err::<u16, DecodeError>(
                DecodeError::Bounds,
            ),
    {
        decode_u16(data, SECTION_ID_OFFSET, Endian::Little)
    }

    /// Reads the stored checksum from a section, or reports that the section is too short
    /// to hold it.
    pub fn get_checksum(data: &[u8]) -> (r: Result<u16, DecodeError>)
        ensures
            in_bounds(data@.len(), CHECKSUM_OFFSET as int, 2) ==> r == Ok::<u16, DecodeError>(
                u16_at(data@, CHECKSUM_OFFSET as int, Endian::Little),
            ),
            !in_bounds(data@.len(), CHECKSUM_OFFSET as int, 2) ==> r == Err::<u16, DecodeError>(
                DecodeError::Bounds,
            ),
    {
        decode_u16(data, CHECKSUM_OFFSET, Endian::Little)
    }

    /// Reads the signature from a section, or reports that the section is too short
    /// to hold it.
    pub fn get_signature(data: &[u8]) -> (r: Result<u32, DecodeError>)
        ensures
            in_bounds(data@.len(), SIGNATURE_OFFSET as int, 4) ==> r == Ok::<u32, DecodeError>(
                u32_at(data@, SIGNATURE_OFFSET as int, Endian::Little),
            ),
            !in_bounds(data@.len(), SIGNATURE_OFFSET as int, 4) ==> r == Err::<u32, DecodeError>(
                DecodeError::Bounds,
            ),
    {
        decode_u32(data, SIGNATURE_OFFSET, Endian::Little)
    }

    /// Reads the save index from a section, or reports that the section is too short
    /// to hold it.
    pub fn get_save_index(data: &[u8]) -> (r: Result<u32, DecodeError>)
        ensures
            in_bounds(data@.len(), SAVE_INDEX_OFFSET as int, 4) ==> r == Ok::<u32, DecodeError>(
                u32_at(data@, SAVE_INDEX_OFFSET as int, Endian::Little),
            ),
            !in_bounds(data@.len(), SAVE_INDEX_OFFSET as int, 4) ==> r == Err::<u32, DecodeError>(
                DecodeError::Bounds,
            ),
    {
        decode_u32(data, SAVE_INDEX_OFFSET, Endian::Little)
    }
}

} // verus!
