//! The platforms a transaction can be handed to, and which of them are in use.

use vstd::prelude::*;

verus! {

/// A sending platform.
#[derive(Debug, Clone, Copy, PartialEq, Eq, Structural)]
pub enum Platform {
    Astralane,
    AstralaneQuic,
    Everstake,
    EverstakeQuic,
    FlashBlock,
    NodeOne,
    Blockrazor,
    Temporal,
    HeliusMax,
    HeliusSwqos,
    ZeroSlot,
    NextBlock,
    Stellium,
    Jito,
    Harmonic,
}

/// A platform's client, as far as planning goes.
#[derive(Debug, Clone, Copy, PartialEq, Eq, Structural)]
pub struct Client {
    /// The least tip that the platform accepts, in lamports.
    pub min_tip: u64,
}

/// The QUIC transports that are built in. Where one is, the HTTP transport of
/// the same provider stands back.
#[derive(Debug, Clone, Copy, PartialEq, Eq, Structural)]
pub struct QuicFeatures {
    pub astralane_quic: bool,
    pub everstake_quic: bool,
}

/// The registered clients, at most one per platform.
#[derive(Debug, Clone, Copy)]
pub struct Roster {
    pub quic: QuicFeatures,
    pub astralane: Option<Client>,
    pub astralane_quic: Option<Client>,
    pub everstake: Option<Client>,
    pub everstake_quic: Option<Client>,
    pub flash_block: Option<Client>,
    pub nodeone: Option<Client>,
    pub blockrazor: Option<Client>,
    pub temporal: Option<Client>,
    pub helius_max: Option<Client>,
    pub helius_swqos: Option<Client>,
    pub zeroslot: Option<Client>,
    pub nextblock: Option<Client>,
    pub stellium: Option<Client>,
    pub jito: Option<Client>,
    pub harmonic: Option<Client>,
}

impl Roster {
    /// The client registered for a platform.
    pub open spec fn registered(self, platform: Platform) -> Option<Client> {
        match platform {
            Platform::Astralane => self.astralane,
            Platform::AstralaneQuic => self.astralane_quic,
            Platform::Everstake => self.everstake,
            Platform::EverstakeQuic => self.everstake_quic,
            Platform::FlashBlock => self.flash_block,
            Platform::NodeOne => self.nodeone,
            Platform::Blockrazor => self.blockrazor,
            Platform::Temporal => self.temporal,
            Platform::HeliusMax => self.helius_max,
            Platform::HeliusSwqos => self.helius_swqos,
            Platform::ZeroSlot => self.zeroslot,
            Platform::NextBlock => self.nextblock,
            Platform::Stellium => self.stellium,
            Platform::Jito => self.jito,
            Platform::Harmonic => self.harmonic,
        }
    }

    /// Whether a platform is an HTTP transport whose QUIC counterpart is built in.
    pub open spec fn superseded(self, platform: Platform) -> bool {
        ||| platform is Astralane && self.quic.astralane_quic
        ||| platform is Everstake && self.quic.everstake_quic
    }

    /// The client registered for a platform, unless its QUIC counterpart
    /// supersedes it.
    pub open spec fn preferred(self, platform: Platform) -> Option<Client> {
        if self.superseded(platform) {
            None
        } else {
            self.registered(platform)
        }
    }

    /// A QUIC client is registered only where its transport is built in.
    pub open spec fn wf(self) -> bool {
        &&& self.astralane_quic is Some ==> self.quic.astralane_quic
        &&& self.everstake_quic is Some ==> self.quic.everstake_quic
    }

    /// The client registered for a platform.
    pub fn client(&self, platform: Platform) -> (r: Option<Client>)
        ensures
            r == self.registered(platform),
    {
        match platform {
            Platform::Astralane => self.astralane,
            Platform::AstralaneQuic => self.astralane_quic,
            Platform::Everstake => self.everstake,
            Platform::EverstakeQuic => self.everstake_quic,
            Platform::FlashBlock => self.flash_block,
            Platform::NodeOne => self.nodeone,
            Platform::Blockrazor => self.blockrazor,
            Platform::Temporal => self.temporal,
            Platform::HeliusMax => self.helius_max,
            Platform::HeliusSwqos => self.helius_swqos,
            Platform::ZeroSlot => self.zeroslot,
            Platform::NextBlock => self.nextblock,
            Platform::Stellium => self.stellium,
            Platform::Jito => self.jito,
            Platform::Harmonic => self.harmonic,
        }
    }

    /// The client registered for a platform, unless its QUIC counterpart
    /// supersedes it.
    pub fn preferred_client(&self, platform: Platform) -> (r: Option<Client>)
        ensures
            r == self.preferred(platform),
    {
        let superseded: bool = match platform {
            Platform::Astralane => self.quic.astralane_quic,
            Platform::Everstake => self.quic.everstake_quic,
            _ => false,
        };
        if superseded {
            None
        } else {
            self.client(platform)
        }
    }
}

} // verus!
