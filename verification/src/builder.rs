//! Registering clients, one platform at a time, and building the dispatcher.

use crate::dispatcher::TxDispacher;
use crate::leader::SlotOracle;
use crate::platform::{Client, QuicFeatures, Roster};
use vstd::prelude::*;

verus! {

/// A dispatcher in the making: an oracle and the clients registered so far.
pub struct TxDispacherBuilder<O: SlotOracle> {
    pub oracle: O,
    pub roster: Roster,
}

/// A roster without clients and without QUIC transports.
pub open spec fn empty_roster() -> Roster {
    Roster {
        quic: QuicFeatures { astralane_quic: false, everstake_quic: false },
        astralane: None,
        astralane_quic: None,
        everstake: None,
        everstake_quic: None,
        flash_block: None,
        nodeone: None,
        blockrazor: None,
        temporal: None,
        helius_max: None,
        helius_swqos: None,
        zeroslot: None,
        nextblock: None,
        stellium: None,
        jito: None,
        harmonic: None,
    }
}

impl<O: SlotOracle> TxDispacherBuilder<O> {
    /// Whether the clients registered so far fit the transports.
    pub open spec fn wf(self) -> bool {
        self.roster.wf()
    }

    /// Starts from an oracle, with no client and no QUIC transport.
    pub fn new(oracle: O) -> (r: Self)
        ensures
            r.oracle == oracle,
            r.roster == empty_roster(),
            r.wf(),
    {
        TxDispacherBuilder {
            oracle,
            roster: Roster {
                quic: QuicFeatures { astralane_quic: false, everstake_quic: false },
                astralane: None,
                astralane_quic: None,
                everstake: None,
                everstake_quic: None,
                flash_block: None,
                nodeone: None,
                blockrazor: None,
                temporal: None,
                helius_max: None,
                helius_swqos: None,
                zeroslot: None,
                nextblock: None,
                stellium: None,
                jito: None,
                harmonic: None,
            },
        }
    }

    /// Says which QUIC transports are built in. A transport that has a client
    /// already has to stay.
    pub fn transports(self, quic: QuicFeatures) -> (r: Self)
        requires
            self.roster.astralane_quic is Some ==> quic.astralane_quic,
            self.roster.everstake_quic is Some ==> quic.everstake_quic,
        ensures
            r.oracle == self.oracle,
            r.roster == (Roster { quic, ..self.roster }),
            r.wf(),
    {
        TxDispacherBuilder { oracle: self.oracle, roster: Roster { quic, ..self.roster } }
    }

    /// Registers Astralane over HTTP.
    pub fn astralane(self, c: Client) -> (r: Self)
        ensures
            r.oracle == self.oracle,
            r.roster == (Roster { astralane: Some(c), ..self.roster }),
            self.wf() ==> r.wf(),
    {
        TxDispacherBuilder {
            oracle: self.oracle,
            roster: Roster { astralane: Some(c), ..self.roster },
        }
    }

    /// Registers Astralane over QUIC, which has to be built in.
    pub fn astralane_quic(self, c: Client) -> (r: Self)
        requires
            self.roster.quic.astralane_quic,
        ensures
            r.oracle == self.oracle,
            r.roster == (Roster { astralane_quic: Some(c), ..self.roster }),
            self.wf() ==> r.wf(),
    {
        TxDispacherBuilder {
            oracle: self.oracle,
            roster: Roster { astralane_quic: Some(c), ..self.roster },
        }
    }

    /// Registers Everstake over HTTP.
    pub fn everstake(self, c: Client) -> (r: Self)
        ensures
            r.oracle == self.oracle,
            r.roster == (Roster { everstake: Some(c), ..self.roster }),
            self.wf() ==> r.wf(),
    {
        TxDispacherBuilder {
            oracle: self.oracle,
            roster: Roster { everstake: Some(c), ..self.roster },
        }
    }

    /// Registers Everstake over QUIC, which has to be built in.
    pub fn everstake_quic(self, c: Client) -> (r: Self)
        requires
            self.roster.quic.everstake_quic,
        ensures
            r.oracle == self.oracle,
            r.roster == (Roster { everstake_quic: Some(c), ..self.roster }),
            self.wf() ==> r.wf(),
    {
        TxDispacherBuilder {
            oracle: self.oracle,
            roster: Roster { everstake_quic: Some(c), ..self.roster },
        }
    }

    /// Registers FlashBlock.
    pub fn flash_block(self, c: Client) -> (r: Self)
        ensures
            r.oracle == self.oracle,
            r.roster == (Roster { flash_block: Some(c), ..self.roster }),
            self.wf() ==> r.wf(),
    {
        TxDispacherBuilder {
            oracle: self.oracle,
            roster: Roster { flash_block: Some(c), ..self.roster },
        }
    }

    /// Registers NodeOne.
    pub fn nodeone(self, c: Client) -> (r: Self)
        ensures
            r.oracle == self.oracle,
            r.roster == (Roster { nodeone: Some(c), ..self.roster }),
            self.wf() ==> r.wf(),
    {
        TxDispacherBuilder {
            oracle: self.oracle,
            roster: Roster { nodeone: Some(c), ..self.roster },
        }
    }

    /// Registers Blockrazor.
    pub fn blockrazor(self, c: Client) -> (r: Self)
        ensures
            r.oracle == self.oracle,
            r.roster == (Roster { blockrazor: Some(c), ..self.roster }),
            self.wf() ==> r.wf(),
    {
        TxDispacherBuilder {
            oracle: self.oracle,
            roster: Roster { blockrazor: Some(c), ..self.roster },
        }
    }

    /// Registers Temporal.
    pub fn temporal(self, c: Client) -> (r: Self)
        ensures
            r.oracle == self.oracle,
            r.roster == (Roster { temporal: Some(c), ..self.roster }),
            self.wf() ==> r.wf(),
    {
        TxDispacherBuilder {
            oracle: self.oracle,
            roster: Roster { temporal: Some(c), ..self.roster },
        }
    }

    /// Registers the two tiers of Helius, as far as they are in use.
    pub fn helius(self, max: Option<Client>, swqos: Option<Client>) -> (r: Self)
        ensures
            r.oracle == self.oracle,
            r.roster == (Roster { helius_max: max, helius_swqos: swqos, ..self.roster }),
            self.wf() ==> r.wf(),
    {
        TxDispacherBuilder {
            oracle: self.oracle,
            roster: Roster { helius_max: max, helius_swqos: swqos, ..self.roster },
        }
    }

    /// Registers ZeroSlot.
    pub fn zeroslot(self, c: Client) -> (r: Self)
        ensures
            r.oracle == self.oracle,
            r.roster == (Roster { zeroslot: Some(c), ..self.roster }),
            self.wf() ==> r.wf(),
    {
        TxDispacherBuilder {
            oracle: self.oracle,
            roster: Roster { zeroslot: Some(c), ..self.roster },
        }
    }

    /// Registers NextBlock.
    pub fn nextblock(self, c: Client) -> (r: Self)
        ensures
            r.oracle == self.oracle,
            r.roster == (Roster { nextblock: Some(c), ..self.roster }),
            self.wf() ==> r.wf(),
    {
        TxDispacherBuilder {
            oracle: self.oracle,
            roster: Roster { nextblock: Some(c), ..self.roster },
        }
    }

    /// Registers Stellium.
    pub fn stellium(self, c: Client) -> (r: Self)
        ensures
            r.oracle == self.oracle,
            r.roster == (Roster { stellium: Some(c), ..self.roster }),
            self.wf() ==> r.wf(),
    {
        TxDispacherBuilder {
            oracle: self.oracle,
            roster: Roster { stellium: Some(c), ..self.roster },
        }
    }

    /// Registers Jito.
    pub fn jito(self, c: Client) -> (r: Self)
        ensures
            r.oracle == self.oracle,
            r.roster == (Roster { jito: Some(c), ..self.roster }),
            self.wf() ==> r.wf(),
    {
        TxDispacherBuilder {
            oracle: self.oracle,
            roster: Roster { jito: Some(c), ..self.roster },
        }
    }

    /// Registers Harmonic.
    pub fn harmonic(self, c: Client) -> (r: Self)
        ensures
            r.oracle == self.oracle,
            r.roster == (Roster { harmonic: Some(c), ..self.roster }),
            self.wf() ==> r.wf(),
    {
        TxDispacherBuilder {
            oracle: self.oracle,
            roster: Roster { harmonic: Some(c), ..self.roster },
        }
    }

    /// The dispatcher with this oracle and these clients.
    pub fn build(self) -> (r: TxDispacher<O>)
        ensures
            r.oracle == self.oracle,
            r.roster == self.roster,
            self.wf() ==> r.wf(),
    {
        TxDispacher { oracle: self.oracle, roster: self.roster }
    }
}

} // verus!
