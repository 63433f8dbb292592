//! Bit-flag category sets for the search query (language, genre, approval
//! class, game mode, text-match sub-type) and the list request type.
//!
//! Each flag type is a fixed-width unsigned integer in which every set bit
//! enables one category; the "include everything" value is the bitwise
//! union of all defined bits.

use vstd::prelude::*;

verus! {

/// The language categories a search can be restricted to.
#[derive(Debug, Clone, Copy, PartialEq, Eq, Structural)]
pub struct Language {
    pub bits: u32,
}

impl Language {
    pub const ANY: u32 = 0b00000001;

    pub const OTHER: u32 = 0b00000010;

    pub const ENGLISH: u32 = 0b00000100;

    pub const JAPANESE: u32 = 0b00001000;

    pub const CHINESE: u32 = 0b00010000;

    pub const INSTRUMENTAL: u32 = 0b00100000;

    pub const KOREAN: u32 = 0b01000000;

    pub const FRENCH: u32 = 0b10000000;

    pub const GERMAN: u32 = 0b100000000;

    pub const SWEDISH: u32 = 0b1000000000;

    pub const SPANISH: u32 = 0b10000000000;

    pub const ITALIAN: u32 = 0b100000000000;

    /// The union of every defined language category.
    pub fn all() -> (r: Self)
        ensures
            r.bits == Self::ANY | Self::OTHER | Self::ENGLISH
                | Self::JAPANESE | Self::CHINESE | Self::INSTRUMENTAL
                | Self::KOREAN | Self::FRENCH | Self::GERMAN
                | Self::SWEDISH | Self::SPANISH | Self::ITALIAN,
    {
        Language {
            bits: Self::ANY | Self::OTHER | Self::ENGLISH | Self::JAPANESE
                | Self::CHINESE | Self::INSTRUMENTAL | Self::KOREAN
                | Self::FRENCH | Self::GERMAN | Self::SWEDISH | Self::SPANISH
                | Self::ITALIAN,
        }
    }

    /// The underlying bit pattern.
    pub fn bits(&self) -> (r: u32)
        ensures
            r == self.bits,
    {
        self.bits
    }

    /// The set holding every category of either operand.
    pub fn union(self, other: Self) -> (r: Self)
        ensures
            r.bits == self.bits | other.bits,
    {
        Language { bits: self.bits | other.bits }
    }
}

/// The genre categories a search can be restricted to.
#[derive(Debug, Clone, Copy, PartialEq, Eq, Structural)]
pub struct Genre {
    pub bits: u32,
}

impl Genre {
    pub const ANY: u32 = 0b00000001;

    pub const UNSPECIFIED: u32 = 0b00000010;

    pub const VIDEO_GAME: u32 = 0b00000100;

    pub const ANIME: u32 = 0b00001000;

    pub const ROCK: u32 = 0b00010000;

    pub const POP: u32 = 0b00100000;

    pub const OTHER: u32 = 0b01000000;

    pub const NOVELTY: u32 = 0b10000000;

    pub const HIPHOP: u32 = 0b100000000;

    pub const ELECTRONIC: u32 = 0b1000000000;

    /// The union of every defined genre category.
    pub fn all() -> (r: Self)
        ensures
            r.bits == Self::ANY | Self::UNSPECIFIED | Self::VIDEO_GAME
                | Self::ANIME | Self::ROCK | Self::POP | Self::OTHER
                | Self::NOVELTY | Self::HIPHOP | Self::ELECTRONIC,
    {
        Genre {
            bits: Self::ANY | Self::UNSPECIFIED | Self::VIDEO_GAME
                | Self::ANIME | Self::ROCK | Self::POP | Self::OTHER
                | Self::NOVELTY | Self::HIPHOP | Self::ELECTRONIC,
        }
    }

    /// The underlying bit pattern.
    pub fn bits(&self) -> (r: u32)
        ensures
            r == self.bits,
    {
        self.bits
    }

    /// The set holding every category of either operand.
    pub fn union(self, other: Self) -> (r: Self)
        ensures
            r.bits == self.bits | other.bits,
    {
        Genre { bits: self.bits | other.bits }
    }
}

/// The approval classes a search can be restricted to.
#[derive(Debug, Clone, Copy, PartialEq, Eq, Structural)]
pub struct Class {
    pub bits: u32,
}

impl Class {
    pub const RANKED_APPROVED: u32 = 0b0001;

    pub const QUALIFIED: u32 = 0b0010;

    pub const LOVED: u32 = 0b0100;

    pub const PENDING_WIP: u32 = 0b1000;

    pub const GRAVEYARD: u32 = 0b10000;

    /// The union of every defined approval class.
    pub fn all() -> (r: Self)
        ensures
            r.bits == Self::RANKED_APPROVED | Self::QUALIFIED | Self::LOVED
                | Self::PENDING_WIP | Self::GRAVEYARD,
    {
        Class {
            bits: Self::RANKED_APPROVED | Self::QUALIFIED | Self::LOVED
                | Self::PENDING_WIP | Self::GRAVEYARD,
        }
    }

    /// The underlying bit pattern.
    pub fn bits(&self) -> (r: u32)
        ensures
            r == self.bits,
    {
        self.bits
    }

    /// The set holding every category of either operand.
    pub fn union(self, other: Self) -> (r: Self)
        ensures
            r.bits == self.bits | other.bits,
    {
        Class { bits: self.bits | other.bits }
    }
}

/// The game modes a search can be restricted to.
#[derive(Debug, Clone, Copy, PartialEq, Eq, Structural)]
pub struct GameMode {
    pub bits: u32,
}

impl GameMode {
    pub const STD: u32 = 0b0001;

    pub const TAIKO: u32 = 0b0010;

    pub const CTB: u32 = 0b0100;

    pub const MANIA: u32 = 0b1000;

    /// The union of every defined game mode.
    pub fn all() -> (r: Self)
        ensures
            r.bits == Self::STD | Self::TAIKO | Self::CTB | Self::MANIA,
    {
        GameMode {
            bits: Self::STD | Self::TAIKO | Self::CTB | Self::MANIA,
        }
    }

    /// The underlying bit pattern.
    pub fn bits(&self) -> (r: u32)
        ensures
            r == self.bits,
    {
        self.bits
    }

    /// The set holding every category of either operand.
    pub fn union(self, other: Self) -> (r: Self)
        ensures
            r.bits == self.bits | other.bits,
    {
        GameMode { bits: self.bits | other.bits }
    }
}

/// The metadata fields a free-text keyword is matched against.
#[derive(Debug, Clone, Copy, PartialEq, Eq, Structural)]
pub struct SubType {
    pub bits: u32,
}

impl SubType {
    pub const TITLE: u32 = 0b00000001;

    pub const ARTIST: u32 = 0b00000010;

    pub const CREATOR: u32 = 0b00000100;

    pub const VERSION: u32 = 0b00001000;

    pub const TAGS: u32 = 0b00010000;

    pub const SOURCE: u32 = 0b00100000;

    /// The union of every defined match field.
    pub fn all() -> (r: Self)
        ensures
            r.bits == Self::TITLE | Self::ARTIST | Self::CREATOR
                | Self::VERSION | Self::TAGS | Self::SOURCE,
    {
        SubType {
            bits: Self::TITLE | Self::ARTIST | Self::CREATOR | Self::VERSION
                | Self::TAGS | Self::SOURCE,
        }
    }

    /// The underlying bit pattern.
    pub fn bits(&self) -> (r: u32)
        ensures
            r == self.bits,
    {
        self.bits
    }

    /// The set holding every category of either operand.
    pub fn union(self, other: Self) -> (r: Self)
        ensures
            r.bits == self.bits | other.bits,
    {
        SubType { bits: self.bits | other.bits }
    }
}

/// Which list endpoint behaviour a search request asks for.
#[derive(Debug, Clone, Copy, PartialEq, Eq, Structural)]
pub enum RequestType {
    Hot,
    New,
    Packs,
    Search,
}

impl RequestType {
    /// The single-digit code this request type is written as on the wire.
    pub open spec fn spec_code(self) -> Seq<char> {
        match self {
            RequestType::Hot => "1"@,
            RequestType::New => "2"@,
            RequestType::Packs => "3"@,
            RequestType::Search => "4"@,
        }
    }

    /// The wire form of the request type.
    pub fn code(&self) -> (r: &'static str)
        ensures
            r@ == self.spec_code(),
    {
        match self {
            RequestType::Hot => "1",
            RequestType::New => "2",
            RequestType::Packs => "3",
            RequestType::Search => "4",
        }
    }
}

} // verus!
