use spectrum_lookup::decimal::i64_to_string;
use spectrum_lookup::identity::SteamUser;
use spectrum_lookup::live::{ServerPlayer, ServerPlayerMoney};
use spectrum_lookup::money::money_text;
use spectrum_lookup::store::{Ban, User, Warning};
use spectrum_lookup::views::{
    basic_embed, inventory_embed, live_embed, record_embed, record_unavailable_embed,
};

fn alice() -> SteamUser {
    SteamUser {
        id: String::from("110000112345678"),
        name: String::from("Alice"),
        avatar: String::from("http://x/a.png"),
    }
}

#[test]
fn money_text_groups_thousands() {
    assert_eq!(money_text(1000000), "$1,000,000");
    assert_eq!(money_text(1234567), "$1,234,567");
}

#[test]
fn money_text_small_values() {
    assert_eq!(money_text(0), "$0");
    assert_eq!(money_text(999), "$999");
    assert_eq!(money_text(1000), "$1,000");
}

#[test]
fn money_text_negative_values() {
    assert_eq!(money_text(-1234), "$-1,234");
    assert_eq!(money_text(-5), "$-5");
}

#[test]
fn decimal_renders_extremes() {
    assert_eq!(i64_to_string(0), "0");
    assert_eq!(i64_to_string(-1), "-1");
    assert_eq!(i64_to_string(i64::MIN), "-9223372036854775808");
    assert_eq!(i64_to_string(i64::MAX), "9223372036854775807");
}

#[test]
fn basic_embed_without_staff_annotation() {
    let raw = String::from("steam:110000112345678");
    let row = User {
        id: raw.clone(),
        bank: 1000000,
        clean_money: 500,
        dirty_money: 0,
        staff: 0,
    };
    let e = basic_embed(&alice(), &raw, &row);
    assert_eq!(e.title, "User Lookup");
    assert_eq!(e.description, "**Alice** (`steam:110000112345678`)");
    assert_eq!(e.fields.len(), 3);
    assert_eq!(e.fields[0], (String::from("Bank"), String::from("$1,000,000"), true));
    assert_eq!(e.fields[1], (String::from("Cash (Clean)"), String::from("$500"), true));
    assert_eq!(e.fields[2], (String::from("Cash (Dirty)"), String::from("$0"), true));
    assert_eq!(e.thumbnail.as_deref(), Some("http://x/a.png"));
}

#[test]
fn basic_embed_with_staff_annotation() {
    let raw = String::from("steam:1f");
    let row = User {
        id: raw.clone(),
        bank: 1,
        clean_money: 2,
        dirty_money: 3,
        staff: 4,
    };
    let e = basic_embed(&alice(), &raw, &row);
    assert_eq!(e.description, "**Alice** (`steam:1f`) - Staff (4)");
}

#[test]
fn inventory_embed_keeps_every_item_in_order() {
    let raw = String::from("steam:1f");
    let items = vec![
        (String::from("water"), 3_i64),
        (String::from("bread"), -1_i64),
    ];
    let e = inventory_embed(&alice(), &raw, &items);
    assert_eq!(e.title, "Inventory Lookup");
    assert_eq!(e.description, "**Alice** (`steam:1f`)");
    assert_eq!(e.fields.len(), 2);
    assert_eq!(e.fields[0], (String::from("water"), String::from("3"), true));
    assert_eq!(e.fields[1], (String::from("bread"), String::from("-1"), true));
    assert_eq!(e.thumbnail, None);
}

#[test]
fn record_embed_shows_every_ban_and_warning() {
    let raw = String::from("steam:1f");
    let bans = vec![
        Ban {
            id: 3,
            expiry: 1700000000,
            reason: String::from("rdm"),
            staff: String::from("Sam"),
            user: raw.clone(),
            active: true,
        },
        Ban {
            id: 4,
            expiry: 1600000000,
            reason: String::from("vdm"),
            staff: String::from("Kim"),
            user: raw.clone(),
            active: false,
        },
    ];
    let warnings = vec![Warning {
        id: 9,
        reason: String::from("language"),
        staff: String::from("Sam"),
        user: raw.clone(),
    }];
    let e = record_embed(&alice(), &raw, &bans, &warnings);
    assert_eq!(e.title, "Record Lookup");
    assert_eq!(e.fields.len(), 3);
    assert_eq!(e.fields[0].0, "Banned By: Sam");
    assert_eq!(
        e.fields[0].1,
        "ID: 3\nReason: rdm\nExpires: <t:1700000000>"
    );
    assert_eq!(e.fields[1].0, "Banned By: Kim");
    assert_eq!(
        e.fields[1].1,
        "ID: 4 (Lifted)\nReason: vdm\nExpires: <t:1600000000>"
    );
    assert_eq!(e.fields[2].0, "Warned By: Sam");
    assert_eq!(e.fields[2].1, "ID: 9\nReason: language");
    assert!(!e.fields[0].2 && !e.fields[1].2 && !e.fields[2].2);
    assert_eq!(e.thumbnail.as_deref(), Some("http://x/a.png"));
}

#[test]
fn record_embed_with_no_records_is_clean() {
    let raw = String::from("steam:1f");
    let e = record_embed(&alice(), &raw, &vec![], &vec![]);
    assert_eq!(e.title, "Clean Record");
    assert_eq!(e.fields.len(), 0);
}

#[test]
fn record_unavailable_embed_reads_as_clean() {
    let raw = String::from("steam:1f");
    let e = record_unavailable_embed(&alice(), &raw);
    assert_eq!(e.title, "Record Lookup");
    assert_eq!(
        e.description,
        "**Alice** (`steam:1f`)\n\nThis player has a squeaky clean record"
    );
    assert_eq!(e.fields.len(), 0);
}

#[test]
fn live_embed_shows_session_state() {
    let p = ServerPlayer {
        id: String::from("steam:1f"),
        active: false,
        name: String::from("Alice"),
        staff: 2,
        money: ServerPlayerMoney { clean: 500, dirty: 0, bank: 1000000 },
        items: vec![
            (String::from("water"), 2_i64),
            (String::from("bread"), 1_i64),
        ],
        weapons: vec![(String::from("w_pistol"), String::from("Pistol"))],
        ammo: vec![(String::from("9mm"), 64_i64)],
    };
    let e = live_embed(&p);
    assert_eq!(e.title, "User Lookup (Server) - Offline");
    assert_eq!(e.description, "**Alice** (`steam:1f`) - Staff (2)");
    assert_eq!(e.fields.len(), 6);
    assert_eq!(e.fields[0], (String::from("Bank"), String::from("$1,000,000"), true));
    assert_eq!(e.fields[1], (String::from("Cash (Clean)"), String::from("$500"), true));
    assert_eq!(e.fields[2], (String::from("Cash (Dirty)"), String::from("$0"), true));
    assert_eq!(e.fields[3], (String::from("Inventory"), String::from("x2 water\nx1 bread"), false));
    assert_eq!(e.fields[4], (String::from("Weapons"), String::from("Pistol (w_pistol)"), false));
    assert_eq!(e.fields[5], (String::from("Ammo"), String::from("9mm: 64"), false));
    assert_eq!(e.thumbnail, None);
}

#[test]
fn live_embed_online_title_has_no_suffix() {
    let p = ServerPlayer {
        id: String::from("steam:1f"),
        active: true,
        name: String::from("Bob"),
        staff: 0,
        money: ServerPlayerMoney { clean: 0, dirty: 0, bank: 0 },
        items: vec![],
        weapons: vec![],
        ammo: vec![],
    };
    let e = live_embed(&p);
    assert_eq!(e.title, "User Lookup (Server)");
    assert_eq!(e.description, "**Bob** (`steam:1f`)");
    assert_eq!(e.fields[3].1, "");
}
