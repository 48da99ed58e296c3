use vstd::prelude::*;
use crate::error::DecodeError;
use crate::field::le16;

verus! {

/// The game variants that write this save layout.
#[derive(Clone, Copy, Debug, PartialEq, Eq, Structural)]
pub enum Gen3Game {
    RubySapphire,
    FireRedLeafGreen,
    Emerald,
}

impl Gen3Game {
    /// The name under which the variant is shown.
    pub open spec fn name_spec(self) -> Seq<char> {
        match self {
            Gen3Game::RubySapphire => "Ruby/Sapphire"@,
            Gen3Game::FireRedLeafGreen => "FireRed/LeafGreen"@,
            Gen3Game::Emerald => "Emerald"@,
        }
    }

    /// The name under which the variant is shown.
    pub fn name(&self) -> (s: String)
        ensures
            s@ == self.name_spec(),
    {
        match self {
            Gen3Game::RubySapphire => "Ruby/Sapphire".to_owned(),
            Gen3Game::FireRedLeafGreen => "FireRed/LeafGreen".to_owned(),
            Gen3Game::Emerald => "Emerald".to_owned(),
        }
    }
}

/// Key material of a save. Which of the two fields is set depends on the
/// game variant.
#[derive(Clone, Copy, Debug, PartialEq, Eq, Structural)]
pub struct KeyCode {
    pub game_code: Option<u32>,
    pub security_key: Option<u32>,
}

impl KeyCode {
    /// At least one of the two fields is set.
    pub open spec fn wf(&self) -> bool {
        self.game_code is Some || self.security_key is Some
    }
}

/// Time played, as the five raw bytes and as their parts.
#[derive(Clone, Copy, Debug, PartialEq, Eq)]
pub struct PlayedTime {
    pub time: [u8; 5],
    pub hours: u16,
    pub minutes: u8,
    pub seconds: u8,
    pub frames: u8,
}

/// The trainer's identifier, whole and as its two halves.
#[derive(Clone, Copy, Debug, PartialEq, Eq, Structural)]
pub struct TrainerId {
    pub trainer_id: u32,
    pub secret_id: u16,
    pub public_id: u16,
}

impl TrainerId {
    /// The whole identifier is made of its two halves, the secret one low.
    pub open spec fn wf(&self) -> bool {
        self.trainer_id == (self.secret_id as u32) | ((self.public_id as u32) << 16)
    }
}

impl PlayedTime {
    /// The parts are what the raw bytes hold.
    pub open spec fn wf(&self) -> bool {
        &&& self.hours == le16(self.time@[0], self.time@[1])
        &&& self.minutes == self.time@[2]
        &&& self.seconds == self.time@[3]
        &&& self.frames == self.time@[4]
    }
}

/// The footer that closes every section.
#[derive(Clone, Copy, Debug, PartialEq, Eq, Structural)]
pub struct SectionData {
    pub section_id: u16,
    pub checksum: u16,
    pub signature: u32,
    pub save_index: u32,
}

/// The decoded trainer section.
#[derive(Clone, Copy, Debug, PartialEq, Eq)]
pub struct TrainerData {
    pub section_info: Option<SectionData>,
    pub name: [u8; 7],
    pub gender: u8,
    pub id: TrainerId,
    pub time: PlayedTime,
    pub security: KeyCode,
}

impl TrainerData {
    /// The identifier, the time and the key material are each consistent.
    pub open spec fn wf(&self) -> bool {
        &&& self.id.wf()
        &&& self.time.wf()
        &&& self.security.wf()
    }
}

/// What is known of a save after its sections were scanned.
#[derive(Clone, Copy, Debug, PartialEq, Eq)]
pub struct SaveGen3 {
    pub game_ver: Gen3Game,
    pub trainer_section: Option<TrainerData>,
}

impl SaveGen3 {
    /// A save of which nothing is known yet: no trainer section, and
    /// Ruby/Sapphire as the game until a trainer section says otherwise.
    pub fn new() -> (save: SaveGen3)
        ensures
            save.game_ver == Gen3Game::RubySapphire,
            save.trainer_section is None,
    {
        SaveGen3 { game_ver: Gen3Game::RubySapphire, trainer_section: None }
    }

    /// The trainer section, or the report that none was found.
    pub fn trainer(&self) -> (r: Result<&TrainerData, DecodeError>)
        ensures
            self.trainer_section is Some ==> r is Ok && *r->Ok_0 == self.trainer_section->Some_0,
            self.trainer_section is None ==> r is Err && r->Err_0 == DecodeError::SectionNotFound,
    {
        match &self.trainer_section {
            Some(trainer) => Ok(trainer),
            None => Err(DecodeError::SectionNotFound),
        }
    }
}

} // verus!
