//! The accounts that the program owns, and the space each one is given.
use vstd::prelude::*;

use crate::keys::Pubkey;

verus! {

/// The program configuration: who administers it, where fees go, and how
/// many events have been created.
#[derive(Clone, Copy, Debug)]
pub struct Config {
    pub authority: Pubkey,
    pub treasury: Pubkey,
    pub event_count: u64,
    pub treasury_bump: u8,
    pub bump: u8,
}

/// Bytes that a `Config` takes once serialized.
pub const CONFIG_INIT_SPACE: usize = 74;

/// Bytes reserved for an `Event`: the fixed-size fields, and each text at
/// its longest (a name of 24 bytes, a description of 80) with its 4-byte
/// length.
pub const EVENT_INIT_SPACE: usize = 202;

/// An event: its creator, its collection, and the counters of the tickets
/// minted and of the digital access tiers added.
#[derive(Debug)]
pub struct Event {
    pub creator: Pubkey,
    pub collection_mint_account: Pubkey,
    pub current_nft_count: u64,
    pub current_digital_access_count: u8,
    pub date: i64,
    pub ticket_price: u64,
    pub name: Vec<u8>,
    pub description: Vec<u8>,
    pub bump: u8,
}

pub struct EventView {
    pub creator: Pubkey,
    pub collection_mint_account: Pubkey,
    pub current_nft_count: u64,
    pub current_digital_access_count: u8,
    pub date: i64,
    pub ticket_price: u64,
    pub name: Seq<u8>,
    pub description: Seq<u8>,
    pub bump: u8,
}

impl View for Event {
    type V = EventView;

    open spec fn view(&self) -> EventView {
        EventView {
            creator: self.creator,
            collection_mint_account: self.collection_mint_account,
            current_nft_count: self.current_nft_count,
            current_digital_access_count: self.current_digital_access_count,
            date: self.date,
            ticket_price: self.ticket_price,
            name: self.name@,
            description: self.description@,
            bump: self.bump,
        }
    }
}

/// Whether an event with these texts, serialized, fits in the space of an
/// event account: the fixed-size fields take 98 bytes, and each text its
/// length and 4 bytes more.
pub open spec fn event_fits(name: Seq<u8>, description: Seq<u8>) -> bool {
    98 + name.len() + description.len() <= EVENT_INIT_SPACE
}

impl EventView {
    /// The serialized event fits in the space that the account was given.
    pub open spec fn fits(self) -> bool {
        event_fits(self.name, self.description)
    }
}

impl Event {
    /// Whether the event, serialized, fits in its account.
    pub fn fits(&self) -> (res: bool)
        ensures
            res == self@.fits(),
    {
        self.name.len() <= 104 && self.description.len() <= 104 - self.name.len()
    }
}

/// Bytes reserved for a `DigitalAccess`: the fixed-size fields, and each
/// text at its longest (name 32 bytes, symbol 8, description 240, URI 160)
/// with its 4-byte length.
pub const DIGITAL_ACCESS_INIT_SPACE: usize = 514;

/// A tier of access to an event: its price, its supply and its texts.
#[derive(Debug)]
pub struct DigitalAccess {
    pub event: Pubkey,
    pub id: u8,
    pub price: u64,
    pub max_supply: u64,
    pub current_minted: u64,
    pub name: Vec<u8>,
    pub symbol: Vec<u8>,
    pub description: Vec<u8>,
    pub uri: Vec<u8>,
    pub bump: u8,
}

pub struct DigitalAccessView {
    pub event: Pubkey,
    pub id: u8,
    pub price: u64,
    pub max_supply: u64,
    pub current_minted: u64,
    pub name: Seq<u8>,
    pub symbol: Seq<u8>,
    pub description: Seq<u8>,
    pub uri: Seq<u8>,
    pub bump: u8,
}

impl View for DigitalAccess {
    type V = DigitalAccessView;

    open spec fn view(&self) -> DigitalAccessView {
        DigitalAccessView {
            event: self.event,
            id: self.id,
            price: self.price,
            max_supply: self.max_supply,
            current_minted: self.current_minted,
            name: self.name@,
            symbol: self.symbol@,
            description: self.description@,
            uri: self.uri@,
            bump: self.bump,
        }
    }
}

/// Whether a tier with these texts, serialized, fits in the space of a
/// tier account: the fixed-size fields take 74 bytes, and each text its
/// length and 4 bytes more.
pub open spec fn digital_access_fits(name: Seq<u8>, symbol: Seq<u8>, description: Seq<u8>, uri: Seq<u8>) -> bool {
    74 + name.len() + symbol.len() + description.len() + uri.len() <= DIGITAL_ACCESS_INIT_SPACE
}

impl DigitalAccessView {
    /// The serialized tier fits in the space that the account was given.
    pub open spec fn fits(self) -> bool {
        digital_access_fits(self.name, self.symbol, self.description, self.uri)
    }
}

impl DigitalAccess {
    /// Whether the tier, serialized, fits in its account.
    pub fn fits(&self) -> (res: bool)
        ensures
            res == self@.fits(),
    {
        let room: usize = 440;
        if self.name.len() > room {
            return false;
        }
        let room = room - self.name.len();
        if self.symbol.len() > room {
            return false;
        }
        let room = room - self.symbol.len();
        if self.description.len() > room {
            return false;
        }
        let room = room - self.description.len();
        self.uri.len() <= room
    }
}

} // verus!
