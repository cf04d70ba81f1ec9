use sol_tx_dispacher::fifo::FIFO_LEADERS;
use sol_tx_dispacher::key::Pubkey;
use sol_tx_dispacher::leader::{
    first_come_for, route_for, LeaderInfo, NoopOracle, SlotOracle, TIP_ONLY_LEADERS,
};
use sol_tx_dispacher::{SendRoute, TxDispacher};
use std::str::FromStr;
use std::sync::Arc;

/// An oracle with one answer. A node is a Harmonic one by its client type or by
/// its name.
struct MockOracle {
    harmonic: bool,
    name: Option<&'static str>,
}

impl SlotOracle for MockOracle {
    fn leader_at(&self, _slot: u64) -> Option<LeaderInfo> {
        let by_name = match self.name {
            Some(n) => n.to_lowercase().contains("harmonic"),
            None => false,
        };
        Some(LeaderInfo {
            leader_pubkey: None,
            is_harmonic: self.harmonic || by_name,
            is_jito: false,
            client_type_id: None,
        })
    }
}

fn unknown() -> LeaderInfo {
    LeaderInfo {
        leader_pubkey: None,
        is_harmonic: false,
        is_jito: false,
        client_type_id: None,
    }
}

fn key(base58: &str) -> [u8; 32] {
    solana_sdk::pubkey::Pubkey::from_str(base58).unwrap().to_bytes()
}

#[test]
fn noop_oracle_always_fallback() {
    let d = TxDispacher::builder(Arc::new(NoopOracle)).build();
    assert_eq!(d.resolve_route(422_000_000), SendRoute::Fallback);
}

#[test]
fn harmonic_client_type_routes_to_harmonic() {
    let d = TxDispacher::builder(Arc::new(MockOracle {
        harmonic: true,
        name: None,
    }))
    .build();
    assert_eq!(d.resolve_route(100), SendRoute::Harmonic);
}

#[test]
fn non_harmonic_client_type_routes_to_fallback() {
    let d = TxDispacher::builder(Arc::new(MockOracle {
        harmonic: false,
        name: None,
    }))
    .build();
    assert_eq!(d.resolve_route(100), SendRoute::Fallback);
}

#[test]
fn harmonic_in_name_routes_to_harmonic_even_if_type_is_other() {
    let oracle = MockOracle {
        harmonic: false,
        name: Some("Harmonic-SG"),
    };
    let d = TxDispacher::builder(oracle).build();
    assert_eq!(d.resolve_route(100), SendRoute::Harmonic);
}

#[test]
fn jito_client_type_routes_to_jito() {
    let info = LeaderInfo {
        is_jito: true,
        ..unknown()
    };
    assert_eq!(route_for(&Some(info)), SendRoute::Jito);
}

#[test]
fn harmonic_goes_before_jito() {
    let info = LeaderInfo {
        is_jito: true,
        is_harmonic: true,
        ..unknown()
    };
    assert_eq!(route_for(&Some(info)), SendRoute::Harmonic);
}

#[test]
fn the_tip_only_list_goes_before_the_client_type() {
    for bytes in TIP_ONLY_LEADERS {
        let info = LeaderInfo {
            leader_pubkey: Some(Pubkey { bytes }),
            is_harmonic: true,
            is_jito: true,
            client_type_id: None,
        };
        assert_eq!(route_for(&Some(info)), SendRoute::TipOnly);
    }
    let mut bytes = TIP_ONLY_LEADERS[0];
    bytes[31] ^= 1;
    let near = LeaderInfo {
        leader_pubkey: Some(Pubkey { bytes }),
        ..unknown()
    };
    assert_eq!(route_for(&Some(near)), SendRoute::Fallback);
}

#[test]
fn the_tip_only_list_holds_the_ten_accounts() {
    let accounts = [
        "HEL1USMZKAL2odpNBj2oCjffnFGaYwmbGmyewGv1e2TU",
        "E1r4Psq84tHfQ6aPTvvDka4U3u8zPVD7gEUrH25RdxHL",
        "Fd7btgySsrjuo25CJCj7oE7VPMyezDhnx7pZkj2v69Nk",
        "5pPRHniefFjkiaArbGX3Y8NUysJmQ9tMZg3FrFGwHzSm",
        "ACvL73V4GNnxPVfZ7K89jCrYurLyzpEuE9qirjvh2Xmi",
        "8tjFeSApQ85ThoQXT28acfF2KUfQr3TvTdirSkzNnYC7",
        "HH5dA42XF1HxNk1TRpG6LuKfLViMYNdAz5iWrFM4hWFi",
        "Gv9gguvrAkgQtB5g5a3Un7trcHCxLYsk8vSojLmQMsWV",
        "H8fHToVcZPi5bupGZohGPX2SWs8NHzgFKQ31wi5n6oux",
        "ChorusmmK7i1AxXeiTtQgQZhQNiXYU84ULeaYF1EH15n",
    ];
    assert_eq!(TIP_ONLY_LEADERS.len(), accounts.len());
    for (i, account) in accounts.iter().enumerate() {
        assert_eq!(TIP_ONLY_LEADERS[i], key(account), "entry {i}");
    }
}

#[test]
fn the_first_come_list_holds_the_accounts_with_their_client_types() {
    let entries = [
        ("Fd7btgySsrjuo25CJCj7oE7VPMyezDhnx7pZkj2v69Nk", 8u16),
        ("Fd7btgySsrjuo25CJCj7oE7VPMyezDhnx7pZkj2v69Nk", 1u16),
        ("q9XWcZ7T1wP4bW9SB4XgNNwjnFEJ982nE8aVbbNuwot", 1u16),
        ("q9XWcZ7T1wP4bW9SB4XgNNwjnFEJ982nE8aVbbNuwot", 8u16),
        ("Awes4Tr6TX8JDzEhCZY2QVNimT6iD1zWHzf1vNyGvpLM", 2u16),
        ("9jxgosAfHgHzwnxsHw4RAZYaLVokMbnYtmiZBreynGFP", 5u16),
        ("E1r4Psq84tHfQ6aPTvvDka4U3u8zPVD7gEUrH25RdxHL", 1u16),
        ("JupmVLmA8RoyTUbTMMuTtoPWHEiNQobxgTeGTrPNkzT", 1u16),
        ("JD549HsbJHeEKKUrKgg4Fj2iyv2RGjsV7NTZjZUrHybB", 2u16),
        ("9rkJMARqK6VBkcxGfKBAwnA44gPAfGxPbPsfsggFNDSQ", 1u16),
        ("5Cchr1XGEg7dbBXByV5NY2ad8jfxAM7HA3x8D56rq9Ux", 3u16),
        ("5pPRHniefFjkiaArbGX3Y8NUysJmQ9tMZg3FrFGwHzSm", 1u16),
        ("BkoS26vBuaXnSowACdChi4WKid8UwmuPNhEJWa8KsLHd", 1u16),
        ("Aw5wEMXhbygFLR7jHtHpih8QvxVBGAMTqsQ2SjWPk1ex", 1u16),
        ("AEHqTB2RtJjegsR2ePjvoJSm6AA5pnYKWVbcsn6kqTBD", 1u16),
        ("DNVZMSqeRH18Xa4MCTrb1MndNf3Npg4MEwqswo23eWkf", 5u16),
        ("FBbqKvwLfKGZrKrfSbPJz4ymQ7zMarhRyZtu1RBkSe89", 5u16),
        ("FBKFWadXZJahGtFitAsBvbqh5968gLY7dMBBJUoUjeNi", 1u16),
        ("FBKFWadXZJahGtFitAsBvbqh5968gLY7dMBBJUoUjeNi", 10u16),
        ("EUcJwf7jXskRE6NZBtFPVH2EedNvNYko8LL2WT62XctB", 1u16),
        ("anza1rXDVhy1NfVNtsbT3kSBh2jgB1BGZUKuUibSAJd", 1u16),
        ("UPSCQNqdbiaqrQou9X9y8mr43ZHzvoNpKC26Mo7GubF", 1u16),
        ("5Us18hLZPXJTS4QVuGSsUw137Dyd2tgBaem24Xsf5nBS", 3u16),
        ("8tjFeSApQ85ThoQXT28acfF2KUfQr3TvTdirSkzNnYC7", 8u16),
        ("7PdKhpKz7T39vZHFL1UfcYNDsLvay6hp4KPQq1aUckFf", 2u16),
        ("7PdKhpKz7T39vZHFL1UfcYNDsLvay6hp4KPQq1aUckFf", 8u16),
        ("2Wf9V9rPeVRUTfmWdPedCJuWVr6MFfyLuigEq42DuMDc", 1u16),
        ("HH5dA42XF1HxNk1TRpG6LuKfLViMYNdAz5iWrFM4hWFi", 1u16),
        ("Gv9gguvrAkgQtB5g5a3Un7trcHCxLYsk8vSojLmQMsWV", 1u16),
        ("H8fHToVcZPi5bupGZohGPX2SWs8NHzgFKQ31wi5n6oux", 8u16),
        ("ChorusmmK7i1AxXeiTtQgQZhQNiXYU84ULeaYF1EH15n", 1u16),
        ("HEL1USMZKAL2odpNBj2oCjffnFGaYwmbGmyewGv1e2TU", 1u16),
        ("GQzMeEMwAR44ugoNCifTb5NdRKos1GduDUPeNh6AgV46", 1u16),
        ("ACvL73V4GNnxPVfZ7K89jCrYurLyzpEuE9qirjvh2Xmi", 1u16),
    ];
    assert_eq!(FIFO_LEADERS.len(), entries.len());
    for (i, (account, id)) in entries.iter().enumerate() {
        assert_eq!(FIFO_LEADERS[i], (key(account), *id), "entry {i}");
    }
}

#[test]
fn first_come_needs_account_and_client_type() {
    let (bytes, id) = FIFO_LEADERS[0];
    let account = Some(Pubkey { bytes });
    let hit = LeaderInfo {
        leader_pubkey: account,
        client_type_id: Some(id),
        ..unknown()
    };
    assert!(first_come_for(&Some(hit)));
    let other_type = LeaderInfo {
        leader_pubkey: account,
        client_type_id: Some(60_000),
        ..unknown()
    };
    assert!(!first_come_for(&Some(other_type)));
    let no_type = LeaderInfo {
        leader_pubkey: account,
        ..unknown()
    };
    assert!(!first_come_for(&Some(no_type)));
    let no_account = LeaderInfo {
        client_type_id: Some(id),
        ..unknown()
    };
    assert!(!first_come_for(&Some(no_account)));
    assert!(!first_come_for(&None));
}

#[test]
fn an_account_may_be_first_come_with_two_client_types() {
    let bytes = key("Fd7btgySsrjuo25CJCj7oE7VPMyezDhnx7pZkj2v69Nk");
    for (id, expected) in [(8, true), (1, true), (2, false)] {
        let info = LeaderInfo {
            leader_pubkey: Some(Pubkey { bytes }),
            client_type_id: Some(id),
            ..unknown()
        };
        assert_eq!(first_come_for(&Some(info)), expected);
    }
}

#[test]
fn a_dispatcher_asks_its_oracle_about_the_slot() {
    struct Schedule;
    impl SlotOracle for Schedule {
        fn leader_at(&self, slot: u64) -> Option<LeaderInfo> {
            let (bytes, id) = FIFO_LEADERS[2];
            match slot {
                1 => Some(LeaderInfo {
                    leader_pubkey: Some(Pubkey { bytes }),
                    client_type_id: Some(id),
                    ..unknown()
                }),
                2 => Some(LeaderInfo {
                    is_jito: true,
                    ..unknown()
                }),
                _ => None,
            }
        }
    }
    let d = TxDispacher::builder(Schedule).build();
    assert!(d.is_fifo_leader(1));
    assert!(!d.is_fifo_leader(2));
    assert_eq!(d.resolve_route(1), SendRoute::Fallback);
    assert_eq!(d.resolve_route(2), SendRoute::Jito);
    assert_eq!(d.resolve_route(3), SendRoute::Fallback);
}
