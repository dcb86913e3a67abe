use spectrum_lookup::errors::{IdentityError, LiveError, StoreError};
use spectrum_lookup::identity::{
    resolve, ProviderOutcome, SteamResponse, SteamResponseInner, SteamResponsePlayer, SteamUser,
};
use spectrum_lookup::live::{fetch_session, LiveOutcome, ServerPlayer, ServerPlayerMoney};
use spectrum_lookup::store::{
    get_bans, get_economy, get_inventory, get_warnings, Ban, RowOutcome, RowsOutcome, User,
    Warning,
};

fn one_player_response() -> SteamResponse {
    SteamResponse {
        response: SteamResponseInner {
            players: vec![
                SteamResponsePlayer {
                    steamid: String::from("110000112345678"),
                    personaname: String::from("Alice"),
                    avatarfull: String::from("http://x/a.png"),
                },
                SteamResponsePlayer {
                    steamid: String::from("2"),
                    personaname: String::from("Bob"),
                    avatarfull: String::from("http://x/b.png"),
                },
            ],
        },
    }
}

fn snapshot() -> ServerPlayer {
    ServerPlayer {
        id: String::from("steam:1f"),
        active: true,
        name: String::from("Alice"),
        staff: 0,
        money: ServerPlayerMoney { clean: 1, dirty: 2, bank: 3 },
        items: vec![],
        weapons: vec![],
        ammo: vec![],
    }
}

#[test]
fn resolve_empty_list_is_not_found() {
    let outcome = ProviderOutcome::Response(SteamResponse {
        response: SteamResponseInner { players: vec![] },
    });
    let r = resolve(outcome);
    assert!(matches!(r, Err(IdentityError::NotFound)));
}

#[test]
fn resolve_transport_failure_is_unavailable() {
    let r = resolve(ProviderOutcome::TransportFailure);
    assert!(matches!(r, Err(IdentityError::Unavailable)));
}

#[test]
fn resolve_takes_first_profile() {
    let r = resolve(ProviderOutcome::Response(one_player_response())).unwrap();
    assert_eq!(r.id, "110000112345678");
    assert_eq!(r.name, "Alice");
    assert_eq!(r.avatar, "http://x/a.png");
}

#[test]
fn steam_user_new_takes_first_entry() {
    let u = SteamUser::new(one_player_response());
    assert_eq!(u.name, "Alice");
    assert_eq!(u.id, "110000112345678");
}

#[test]
fn get_economy_row_passes_through() {
    let row = User {
        id: String::from("steam:1f"),
        bank: 10,
        clean_money: 20,
        dirty_money: 30,
        staff: 1,
    };
    let r = get_economy(RowOutcome::Row(row)).unwrap();
    assert_eq!(r.bank, 10);
    assert_eq!(r.staff, 1);
}

#[test]
fn get_economy_no_rows_is_player_not_found() {
    let r = get_economy(RowOutcome::NoRows);
    assert!(matches!(r, Err(StoreError::PlayerNotFound)));
}

#[test]
fn get_economy_failure_is_store_unavailable() {
    let r = get_economy(RowOutcome::Failure);
    assert!(matches!(r, Err(StoreError::StoreUnavailable)));
}

#[test]
fn get_inventory_no_rows_is_player_not_found() {
    let r = get_inventory(RowOutcome::NoRows);
    assert!(matches!(r, Err(StoreError::PlayerNotFound)));
}

#[test]
fn get_inventory_row_passes_through() {
    let r = get_inventory(RowOutcome::Row(vec![(String::from("water"), 4)])).unwrap();
    assert_eq!(r, vec![(String::from("water"), 4)]);
}

#[test]
fn get_bans_empty_list_is_not_an_error() {
    let r = get_bans(RowsOutcome::Rows(Vec::<Ban>::new())).unwrap();
    assert!(r.is_empty());
}

#[test]
fn get_warnings_empty_list_is_not_an_error() {
    let r = get_warnings(RowsOutcome::Rows(Vec::<Warning>::new())).unwrap();
    assert!(r.is_empty());
}

#[test]
fn get_bans_failure_is_store_unavailable() {
    let r = get_bans(RowsOutcome::Failure);
    assert!(matches!(r, Err(StoreError::StoreUnavailable)));
}

#[test]
fn get_warnings_failure_is_store_unavailable() {
    let r = get_warnings(RowsOutcome::Failure);
    assert!(matches!(r, Err(StoreError::StoreUnavailable)));
}

#[test]
fn fetch_session_success() {
    let r = fetch_session(LiveOutcome::Response { status: 200, body: Some(snapshot()) }).unwrap();
    assert_eq!(r.name, "Alice");
    assert_eq!(r.money.bank, 3);
}

#[test]
fn fetch_session_non_200_is_player_not_found() {
    let r = fetch_session(LiveOutcome::Response { status: 404, body: None });
    assert!(matches!(r, Err(LiveError::PlayerNotFound)));
}

#[test]
fn fetch_session_unreadable_body_is_player_not_found() {
    let r = fetch_session(LiveOutcome::Response { status: 200, body: None });
    assert!(matches!(r, Err(LiveError::PlayerNotFound)));
}

#[test]
fn fetch_session_transport_failure_is_service_unavailable() {
    let r = fetch_session(LiveOutcome::TransportFailure);
    assert!(matches!(r, Err(LiveError::ServiceUnavailable)));
}
