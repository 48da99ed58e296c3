use pkhex_rs::error::DecodeError;
use pkhex_rs::save::gen3::gen3_save::{
    Gen3Game, KeyCode, PlayedTime, SaveGen3, SectionData, TrainerData, TrainerId,
};
use pkhex_rs::save::gen3::gen3_utils::{
    build_trainer_record, get_security_key_or_game_code, parse_trainer_data_from_byte_array,
    resolve, SECTION_LEN,
};

fn sample_section() -> Vec<u8> {
    let mut s = vec![0u8; 4096];
    s[0..7].copy_from_slice(&[0xBB, 0xBC, 0xBD, 0xBE, 0xBF, 0xC0, 0xFF]);
    s[0x08] = 1;
    s[0x0A..0x0E].copy_from_slice(&[0x39, 0x30, 0xD2, 0x04]);
    s[0x0E..0x13].copy_from_slice(&[0x2C, 0x01, 59, 58, 57]);
    s[0xAC..0xB0].copy_from_slice(&[0x01, 0, 0, 0]);
    s[0xAF8..0xAFC].copy_from_slice(&[0xEF, 0xBE, 0xAD, 0xDE]);
    s[0xFF4..0xFF6].copy_from_slice(&[0x00, 0x00]);
    s[0xFF6..0xFF8].copy_from_slice(&[0xCD, 0xAB]);
    s[0xFF8..0xFFC].copy_from_slice(&[0x25, 0x20, 0x01, 0x08]);
    s[0xFFC..0x1000].copy_from_slice(&[0x07, 0x00, 0x00, 0x00]);
    s
}

#[test]
fn a_zero_first_block_is_ruby_sapphire() {
    for x in [0u32, 1, 5, 0xFF, 0xFFFF_FFFF] {
        assert_eq!(
            resolve(0, x),
            (Gen3Game::RubySapphire, KeyCode { game_code: Some(0), security_key: None })
        );
    }
}

#[test]
fn a_first_block_of_one_is_fire_red_leaf_green() {
    for x in [0u32, 1, 5, 0xFF, 0xFFFF_FFFF] {
        assert_eq!(
            resolve(1, x),
            (Gen3Game::FireRedLeafGreen, KeyCode { game_code: Some(1), security_key: Some(x) })
        );
    }
}

#[test]
fn any_other_first_block_is_an_emerald_key() {
    for y in [2u32, 5, 0x100, 0x8000_0000, 0xFFFF_FFFF] {
        for x in [0u32, 1, y, 0xFFFF_FFFF] {
            assert_eq!(
                resolve(y, x),
                (Gen3Game::Emerald, KeyCode { game_code: None, security_key: Some(y) })
            );
        }
    }
}

#[test]
fn the_game_is_recorded_in_the_save() {
    let mut save = SaveGen3::new();
    assert_eq!(save.game_ver, Gen3Game::RubySapphire);
    assert_eq!(save.trainer_section, None);
    let key = get_security_key_or_game_code(5, 9, &mut save);
    assert_eq!(key, KeyCode { game_code: None, security_key: Some(5) });
    assert_eq!(save.game_ver, Gen3Game::Emerald);
    assert_eq!(save.trainer_section, None);
    let key = get_security_key_or_game_code(1, 9, &mut save);
    assert_eq!(key, KeyCode { game_code: Some(1), security_key: Some(9) });
    assert_eq!(save.game_ver, Gen3Game::FireRedLeafGreen);
    let key = get_security_key_or_game_code(0, 9, &mut save);
    assert_eq!(key, KeyCode { game_code: Some(0), security_key: None });
    assert_eq!(save.game_ver, Gen3Game::RubySapphire);
}

#[test]
fn every_field_is_read_at_its_offset() {
    let section = sample_section();
    let mut save = SaveGen3::new();
    let trainer = parse_trainer_data_from_byte_array(&section, &mut save).unwrap();
    let expected = TrainerData {
        section_info: Some(SectionData {
            section_id: 0,
            checksum: 0xABCD,
            signature: 0x0801_2025,
            save_index: 7,
        }),
        name: [0xBB, 0xBC, 0xBD, 0xBE, 0xBF, 0xC0, 0xFF],
        gender: 1,
        id: TrainerId { trainer_id: 0x04D2_3039, secret_id: 12345, public_id: 1234 },
        time: PlayedTime { time: [0x2C, 0x01, 59, 58, 57], hours: 300, minutes: 59, seconds: 58, frames: 57 },
        security: KeyCode { game_code: Some(1), security_key: Some(0xDEAD_BEEF) },
    };
    assert_eq!(trainer, expected);
    assert_eq!(save.game_ver, Gen3Game::FireRedLeafGreen);
    assert_eq!(save.trainer_section, None);
    assert_eq!(build_trainer_record(&section), Ok((expected, Gen3Game::FireRedLeafGreen)));
}

#[test]
fn the_identifier_is_made_of_its_halves() {
    let mut section = sample_section();
    for bytes in [[0u8, 0, 0, 0], [0x2A, 0, 0, 0], [0xFF, 0xFF, 0xFF, 0xFF], [1, 2, 3, 4], [0, 0, 0, 0x80]] {
        section[0x0A..0x0E].copy_from_slice(&bytes);
        let (trainer, _) = build_trainer_record(&section).unwrap();
        let id = trainer.id;
        assert_eq!(id.trainer_id, (id.secret_id as u32) | ((id.public_id as u32) << 16));
        assert_eq!(id.trainer_id, u32::from_le_bytes(bytes));
        assert_eq!(TrainerId::get_trainer_id_from_bytes(&section), Ok(id.trainer_id));
        assert_eq!(TrainerId::get_secret_id_from_bytes(&section), Ok(id.secret_id));
        assert_eq!(TrainerId::get_public_id_from_bytes(&section), Ok(id.public_id));
    }
}

#[test]
fn the_played_time_agrees_with_its_raw_bytes() {
    let section = sample_section();
    let (trainer, _) = build_trainer_record(&section).unwrap();
    let t = trainer.time;
    assert_eq!(u16::from_le_bytes([t.time[0], t.time[1]]), t.hours);
    assert_eq!(t.time[2], t.minutes);
    assert_eq!(t.time[3], t.seconds);
    assert_eq!(t.time[4], t.frames);
    assert_eq!(PlayedTime::get_time_from_bytes(&section), Ok(t.time));
    assert_eq!(PlayedTime::get_hours(&section), Ok(300));
    assert_eq!(PlayedTime::get_minutes(&section), Ok(59));
    assert_eq!(PlayedTime::get_seconds(&section), Ok(58));
    assert_eq!(PlayedTime::get_frames(&section), Ok(57));
    assert_eq!(t.get_time(), &[0x2C, 0x01, 59, 58, 57]);
}

#[test]
fn set_time_keeps_the_parts_in_step() {
    let section = sample_section();
    let (trainer, _) = build_trainer_record(&section).unwrap();
    let mut t = trainer.time;
    t.set_time([0x10, 0x27, 1, 2, 3]);
    assert_eq!(
        t,
        PlayedTime { time: [0x10, 0x27, 1, 2, 3], hours: 10000, minutes: 1, seconds: 2, frames: 3 }
    );
}

#[test]
fn a_short_section_is_a_bounds_error() {
    let section = sample_section();
    for len in [0usize, 1, 7, 0x13, 0xB0, 0xAFC, 0xFF6, 4095] {
        let mut save = SaveGen3::new();
        save.game_ver = Gen3Game::Emerald;
        assert_eq!(
            parse_trainer_data_from_byte_array(&section[..len], &mut save),
            Err(DecodeError::Bounds)
        );
        assert_eq!(save.game_ver, Gen3Game::Emerald);
        assert_eq!(save.trainer_section, None);
        assert_eq!(build_trainer_record(&section[..len]), Err(DecodeError::Bounds));
        assert_eq!(SectionData::new(&section[..len]), Err(DecodeError::Bounds));
    }
    assert_eq!(SECTION_LEN, 4096);
}

#[test]
fn a_longer_window_is_read_from_its_front() {
    let mut long = sample_section();
    long.extend_from_slice(&[0xEE; 100]);
    let short = sample_section();
    assert_eq!(build_trainer_record(&long), build_trainer_record(&short));
}

#[test]
fn the_footer_is_read_field_by_field() {
    let section = sample_section();
    let footer = SectionData::new(&section).unwrap();
    assert_eq!(SectionData::get_section_id(&section), Ok(footer.section_id));
    assert_eq!(SectionData::get_checksum(&section), Ok(footer.checksum));
    assert_eq!(SectionData::get_signature(&section), Ok(footer.signature));
    assert_eq!(SectionData::get_save_index(&section), Ok(footer.save_index));
    assert_eq!(SectionData::get_checksum(&section), Ok(0xABCD));
    assert_eq!(SectionData::get_save_index(&section[..0xFFF]), Err(DecodeError::Bounds));
    assert_eq!(SectionData::get_section_id(&section[..0xFF5]), Err(DecodeError::Bounds));
    assert_eq!(SectionData::get_section_id(&section[..0xFF6]), Ok(0));
}

#[test]
fn setters_write_what_getters_read() {
    let mut section = vec![0u8; 4096];
    TrainerId::set_trainer_id_from_bytes(&mut section, 0x1234_5678).unwrap();
    assert_eq!(&section[0x0A..0x0E], &[0x78, 0x56, 0x34, 0x12]);
    assert_eq!(TrainerId::get_trainer_id_from_bytes(&section), Ok(0x1234_5678));
    assert_eq!(TrainerId::get_secret_id_from_bytes(&section), Ok(0x5678));
    assert_eq!(TrainerId::get_public_id_from_bytes(&section), Ok(0x1234));
    TrainerId::set_secret_id_from_bytes(&mut section, 0xAAAA).unwrap();
    TrainerId::set_public_id_from_bytes(&mut section, 0xBBBB).unwrap();
    assert_eq!(TrainerId::get_trainer_id_from_bytes(&section), Ok(0xBBBB_AAAA));
    PlayedTime::set_hours(&mut section, 999).unwrap();
    PlayedTime::set_minutes(&mut section, 11).unwrap();
    PlayedTime::set_seconds(&mut section, 22).unwrap();
    PlayedTime::set_frames(&mut section, 33).unwrap();
    assert_eq!(PlayedTime::get_time_from_bytes(&section), Ok([0xE7, 0x03, 11, 22, 33]));
    assert_eq!(PlayedTime::get_hours(&section), Ok(999));
    let mut short = vec![0u8; 0x0C];
    assert_eq!(TrainerId::set_trainer_id_from_bytes(&mut short, 1), Err(DecodeError::Bounds));
    assert_eq!(TrainerId::set_public_id_from_bytes(&mut short, 1), Err(DecodeError::Bounds));
    assert_eq!(PlayedTime::set_frames(&mut short, 1), Err(DecodeError::Bounds));
    assert_eq!(short, vec![0u8; 0x0C]);
    TrainerId::set_secret_id_from_bytes(&mut short, 0x0102).unwrap();
    assert_eq!(&short[0x0A..], &[0x02, 0x01]);
}

#[test]
fn games_are_shown_by_name() {
    assert_eq!(Gen3Game::RubySapphire.name(), "Ruby/Sapphire");
    assert_eq!(Gen3Game::FireRedLeafGreen.name(), "FireRed/LeafGreen");
    assert_eq!(Gen3Game::Emerald.name(), "Emerald");
}

#[test]
fn a_save_without_trainer_reports_it() {
    let mut save = SaveGen3::new();
    assert_eq!(save.trainer(), Err(DecodeError::SectionNotFound));
    let (trainer, _) = build_trainer_record(&sample_section()).unwrap();
    save.trainer_section = Some(trainer);
    assert_eq!(save.trainer(), Ok(&trainer));
}
