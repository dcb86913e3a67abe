//! The command-specific views: embeds assembled from resolved profiles,
//! store rows and session snapshots, with every string pinned by a spec.

use crate::decimal::{dec_seq, dec_signed, i64_to_string};
use crate::identity::SteamUser;
use crate::live::ServerPlayer;
use crate::money::{money_seq, money_text};
use crate::store::{Ban, User, Warning};
use vstd::prelude::*;
use vstd::string::*;

verus! {

/// A view payload ready for the front-end to render: a title, a
/// description, named fields with an inline flag, and an optional
/// thumbnail address.
pub struct Embed {
    pub title: String,
    pub description: String,
    pub fields: Vec<(String, String, bool)>,
    pub thumbnail: Option<String>,
}

/// The staff annotation behind a player line: empty at staff level zero.
pub open spec fn staff_suffix(staff: int) -> Seq<char> {
    if staff > 0 {
        " - Staff ("@ + dec_seq(staff) + ")"@
    } else {
        Seq::<char>::empty()
    }
}

/// The player line of a view: bold display name, the raw identifier in
/// backticks, and the staff annotation.
pub open spec fn player_description(name: Seq<char>, raw: Seq<char>, staff: int) -> Seq<char> {
    "**"@ + name + "** (`"@ + raw + "`)"@ + staff_suffix(staff)
}

fn staff_suffix_text(staff: i16) -> (s: String)
    ensures
        s@ == staff_suffix(staff as int),
{
    if staff > 0 {
        proof {
            reveal_strlit(" - Staff (");
            reveal_strlit(")");
        }
        let mut s = " - Staff (".to_owned();
        let digits = i64_to_string(staff as i64);
        s.append(digits.as_str());
        s.append(")");
        proof {
            assert(s@ =~= staff_suffix(staff as int));
        }
        s
    } else {
        let s = String::new();
        proof {
            assert(s@ =~= staff_suffix(staff as int));
        }
        s
    }
}

fn player_description_text(name: &String, raw: &String, staff: i16) -> (s: String)
    ensures
        s@ == player_description(name@, raw@, staff as int),
{
    proof {
        reveal_strlit("**");
        reveal_strlit("** (`");
        reveal_strlit("`)");
    }
    let mut s = "**".to_owned();
    s.append(name.as_str());
    s.append("** (`");
    s.append(raw.as_str());
    s.append("`)");
    let suffix = staff_suffix_text(staff);
    s.append(suffix.as_str());
    proof {
        assert(s@ =~= player_description(name@, raw@, staff as int));
    }
    s
}

/// The three balance fields every economy view shows, in order: bank,
/// clean cash, dirty cash, each inline.
pub open spec fn money_fields(
    fields: Seq<(String, String, bool)>,
    bank: int,
    clean: int,
    dirty: int,
) -> bool {
    &&& fields.len() == 3
    &&& fields[0].0@ == "Bank"@
    &&& fields[0].1@ == money_seq(bank)
    &&& fields[0].2 == true
    &&& fields[1].0@ == "Cash (Clean)"@
    &&& fields[1].1@ == money_seq(clean)
    &&& fields[1].2 == true
    &&& fields[2].0@ == "Cash (Dirty)"@
    &&& fields[2].1@ == money_seq(dirty)
    &&& fields[2].2 == true
}

fn push_money_fields(fields: &mut Vec<(String, String, bool)>, bank: i32, clean: i32, dirty: i32)
    requires
        old(fields)@.len() == 0,
    ensures
        money_fields(final(fields)@, bank as int, clean as int, dirty as int),
{
    proof {
        reveal_strlit("Bank");
        reveal_strlit("Cash (Clean)");
        reveal_strlit("Cash (Dirty)");
    }
    fields.push(("Bank".to_owned(), money_text(bank), true));
    fields.push(("Cash (Clean)".to_owned(), money_text(clean), true));
    fields.push(("Cash (Dirty)".to_owned(), money_text(dirty), true));
}

/// What the basic lookup view shows for a resolved profile and economy row.
pub open spec fn basic_embed_ok(
    e: Embed,
    name: Seq<char>,
    avatar: Seq<char>,
    raw: Seq<char>,
    u: User,
) -> bool {
    &&& e.title@ == "User Lookup"@
    &&& e.description@ == player_description(name, raw, u.staff as int)
    &&& money_fields(e.fields@, u.bank as int, u.clean_money as int, u.dirty_money as int)
    &&& e.thumbnail is Some
    &&& (e.thumbnail->0)@ == avatar
}

/// Assembles the basic lookup view.
pub fn basic_embed(user: &SteamUser, raw: &String, economy: &User) -> (e: Embed)
    ensures
        basic_embed_ok(e, user.name@, user.avatar@, raw@, *economy),
{
    proof {
        reveal_strlit("User Lookup");
    }
    let mut fields: Vec<(String, String, bool)> = Vec::new();
    push_money_fields(&mut fields, economy.bank, economy.clean_money, economy.dirty_money);
    Embed {
        title: "User Lookup".to_owned(),
        description: player_description_text(&user.name, raw, economy.staff),
        fields,
        thumbnail: Some(user.avatar.clone()),
    }
}

/// The fields of the inventory view: one inline field per item, named by
/// the item, valued by its count, in the order handed in.
pub open spec fn inventory_fields(
    fields: Seq<(String, String, bool)>,
    items: Seq<(String, i64)>,
) -> bool {
    &&& fields.len() == items.len()
    &&& forall|i: int|
        0 <= i < items.len() ==> {
            &&& (#[trigger] fields[i]).0 == items[i].0
            &&& fields[i].1@ == dec_signed(items[i].1 as int)
            &&& fields[i].2 == true
        }
}

/// What the inventory view shows.
pub open spec fn inventory_embed_ok(
    e: Embed,
    name: Seq<char>,
    raw: Seq<char>,
    items: Seq<(String, i64)>,
) -> bool {
    &&& e.title@ == "Inventory Lookup"@
    &&& e.description@ == player_description(name, raw, 0)
    &&& inventory_fields(e.fields@, items)
    &&& e.thumbnail is None
}

/// Assembles the inventory view.
pub fn inventory_embed(user: &SteamUser, raw: &String, items: &Vec<(String, i64)>) -> (e: Embed)
    ensures
        inventory_embed_ok(e, user.name@, raw@, items@),
{
    proof {
        reveal_strlit("Inventory Lookup");
    }
    let mut fields: Vec<(String, String, bool)> = Vec::new();
    let mut i: usize = 0;
    while i < items.len()
        invariant
            i <= items@.len(),
            inventory_fields(fields@, items@.take(i as int)),
        decreases items@.len() - i,
    {
        let pair = &items[i];
        fields.push((pair.0.clone(), i64_to_string(pair.1), true));
        i = i + 1;
    }
    proof {
        assert(items@.take(items@.len() as int) =~= items@);
    }
    Embed {
        title: "Inventory Lookup".to_owned(),
        description: player_description_text(&user.name, raw, 0),
        fields,
        thumbnail: None,
    }
}

/// The annotation behind a lifted ban's id; empty while the ban is active.
pub open spec fn lifted_mark(active: bool) -> Seq<char> {
    if active {
        Seq::<char>::empty()
    } else {
        " (Lifted)"@
    }
}

/// The name of a ban field: the staff member who issued it.
pub open spec fn ban_field_name(b: Ban) -> Seq<char> {
    "Banned By: "@ + b.staff@
}

/// The value of a ban field: id with the lifted annotation, reason, expiry.
pub open spec fn ban_field_value(b: Ban) -> Seq<char> {
    "ID: "@ + dec_signed(b.id as int) + lifted_mark(b.active) + "\nReason: "@ + b.reason@
        + "\nExpires: <t:"@ + dec_signed(b.expiry as int) + ">"@
}

/// The name of a warning field: the staff member who issued it.
pub open spec fn warning_field_name(w: Warning) -> Seq<char> {
    "Warned By: "@ + w.staff@
}

/// The value of a warning field: id and reason.
pub open spec fn warning_field_value(w: Warning) -> Seq<char> {
    "ID: "@ + dec_signed(w.id as int) + "\nReason: "@ + w.reason@
}

fn ban_field(b: &Ban) -> (f: (String, String, bool))
    ensures
        f.0@ == ban_field_name(*b),
        f.1@ == ban_field_value(*b),
        f.2 == false,
{
    proof {
        reveal_strlit("Banned By: ");
        reveal_strlit("ID: ");
        reveal_strlit(" (Lifted)");
        reveal_strlit("\nReason: ");
        reveal_strlit("\nExpires: <t:");
        reveal_strlit(">");
    }
    let mut name = "Banned By: ".to_owned();
    name.append(b.staff.as_str());
    let mut value = "ID: ".to_owned();
    let id_digits = i64_to_string(b.id as i64);
    value.append(id_digits.as_str());
    if !b.active {
        value.append(" (Lifted)");
    }
    value.append("\nReason: ");
    value.append(b.reason.as_str());
    value.append("\nExpires: <t:");
    let expiry_digits = i64_to_string(b.expiry);
    value.append(expiry_digits.as_str());
    value.append(">");
    proof {
        assert(name@ =~= ban_field_name(*b));
        assert(value@ =~= ban_field_value(*b));
    }
    (name, value, false)
}

fn warning_field(w: &Warning) -> (f: (String, String, bool))
    ensures
        f.0@ == warning_field_name(*w),
        f.1@ == warning_field_value(*w),
        f.2 == false,
{
    proof {
        reveal_strlit("Warned By: ");
        reveal_strlit("ID: ");
        reveal_strlit("\nReason: ");
    }
    let mut name = "Warned By: ".to_owned();
    name.append(w.staff.as_str());
    let mut value = "ID: ".to_owned();
    let id_digits = i64_to_string(w.id as i64);
    value.append(id_digits.as_str());
    value.append("\nReason: ");
    value.append(w.reason.as_str());
    proof {
        assert(name@ =~= warning_field_name(*w));
        assert(value@ =~= warning_field_value(*w));
    }
    (name, value, false)
}

/// The fields of the record view: every ban, then every warning, none
/// inline and none left out.
pub open spec fn record_fields(
    fields: Seq<(String, String, bool)>,
    bans: Seq<Ban>,
    warnings: Seq<Warning>,
) -> bool {
    &&& fields.len() == bans.len() + warnings.len()
    &&& forall|i: int|
        0 <= i < bans.len() ==> {
            &&& (#[trigger] fields[i]).0@ == ban_field_name(bans[i])
            &&& fields[i].1@ == ban_field_value(bans[i])
            &&& fields[i].2 == false
        }
    &&& forall|i: int|
        0 <= i < warnings.len() ==> {
            &&& (#[trigger] fields[bans.len() + i]).0@ == warning_field_name(warnings[i])
            &&& fields[bans.len() + i].1@ == warning_field_value(warnings[i])
            &&& fields[bans.len() + i].2 == false
        }
}

/// What the record view shows when both record queries answered: every
/// ban and warning, under a title that says whether the record is clean.
pub open spec fn record_embed_ok(
    e: Embed,
    name: Seq<char>,
    avatar: Seq<char>,
    raw: Seq<char>,
    bans: Seq<Ban>,
    warnings: Seq<Warning>,
) -> bool {
    &&& (bans.len() + warnings.len() > 0 ==> e.title@ == "Record Lookup"@)
    &&& (bans.len() + warnings.len() == 0 ==> e.title@ == "Clean Record"@)
    &&& e.description@ == player_description(name, raw, 0)
    &&& record_fields(e.fields@, bans, warnings)
    &&& e.thumbnail is Some
    &&& (e.thumbnail->0)@ == avatar
}

/// Assembles the record view from the answers of both record queries.
pub fn record_embed(
    user: &SteamUser,
    raw: &String,
    bans: &Vec<Ban>,
    warnings: &Vec<Warning>,
) -> (e: Embed)
    ensures
        record_embed_ok(e, user.name@, user.avatar@, raw@, bans@, warnings@),
{
    proof {
        reveal_strlit("Record Lookup");
        reveal_strlit("Clean Record");
    }
    let title: &'static str = if bans.len() > 0 || warnings.len() > 0 {
        "Record Lookup"
    } else {
        "Clean Record"
    };
    let mut fields: Vec<(String, String, bool)> = Vec::new();
    let mut i: usize = 0;
    while i < bans.len()
        invariant
            i <= bans@.len(),
            fields@.len() == i,
            record_fields(fields@, bans@.take(i as int), Seq::<Warning>::empty()),
        decreases bans@.len() - i,
    {
        fields.push(ban_field(&bans[i]));
        i = i + 1;
    }
    proof {
        assert(bans@.take(bans@.len() as int) =~= bans@);
    }
    let mut j: usize = 0;
    while j < warnings.len()
        invariant
            j <= warnings@.len(),
            fields@.len() == bans@.len() + j,
            record_fields(fields@, bans@, warnings@.take(j as int)),
        decreases warnings@.len() - j,
    {
        fields.push(warning_field(&warnings[j]));
        j = j + 1;
    }
    proof {
        assert(warnings@.take(warnings@.len() as int) =~= warnings@);
    }
    Embed {
        title: title.to_owned(),
        description: player_description_text(&user.name, raw, 0),
        fields,
        thumbnail: Some(user.avatar.clone()),
    }
}

/// What the record view shows when a record query failed: the same view
/// as a clean record, with an explicit line in the description.
///
/// A failed bans or warnings read is folded into the clean-record
/// outcome here, which hides a backend failure behind "no records".
pub open spec fn record_unavailable_embed_ok(
    e: Embed,
    name: Seq<char>,
    avatar: Seq<char>,
    raw: Seq<char>,
) -> bool {
    &&& e.title@ == "Record Lookup"@
    &&& e.description@ == player_description(name, raw, 0)
        + "\n\nThis player has a squeaky clean record"@
    &&& e.fields@.len() == 0
    &&& e.thumbnail is Some
    &&& (e.thumbnail->0)@ == avatar
}

/// Assembles the record view used when a record query failed.
pub fn record_unavailable_embed(user: &SteamUser, raw: &String) -> (e: Embed)
    ensures
        record_unavailable_embed_ok(e, user.name@, user.avatar@, raw@),
{
    proof {
        reveal_strlit("Record Lookup");
        reveal_strlit("\n\nThis player has a squeaky clean record");
    }
    let mut description = player_description_text(&user.name, raw, 0);
    description.append("\n\nThis player has a squeaky clean record");
    Embed {
        title: "Record Lookup".to_owned(),
        description,
        fields: Vec::new(),
        thumbnail: Some(user.avatar.clone()),
    }
}

/// The offline annotation behind the live view's title; empty while the
/// session is active.
pub open spec fn offline_suffix(active: bool) -> Seq<char> {
    if active {
        Seq::<char>::empty()
    } else {
        " - Offline"@
    }
}

/// One line of the live inventory listing: `x<count> <item>`.
pub open spec fn item_line(name: Seq<char>, count: int) -> Seq<char> {
    "x"@ + dec_signed(count) + " "@ + name
}

/// One line of the live weapon listing: `<weapon> (<slot>)`.
pub open spec fn weapon_line(slot: Seq<char>, weapon: Seq<char>) -> Seq<char> {
    weapon + " ("@ + slot + ")"@
}

/// One line of the live ammo listing: `<kind>: <count>`.
pub open spec fn ammo_line(kind: Seq<char>, count: int) -> Seq<char> {
    kind + ": "@ + dec_signed(count)
}

/// The given lines joined by single newlines, in order.
pub open spec fn joined_lines(lines: Seq<Seq<char>>) -> Seq<char>
    decreases lines.len(),
{
    if lines.len() == 0 {
        Seq::<char>::empty()
    } else if lines.len() == 1 {
        lines[0]
    } else {
        joined_lines(lines.drop_last()) + "\n"@ + lines.last()
    }
}

/// The views of a sequence of strings.
pub open spec fn views_of(lines: Seq<String>) -> Seq<Seq<char>> {
    lines.map_values(|l: String| l@)
}

/// The lines of the live inventory listing.
pub open spec fn item_lines(items: Seq<(String, i64)>) -> Seq<Seq<char>> {
    items.map_values(|p: (String, i64)| item_line(p.0@, p.1 as int))
}

/// The lines of the live weapon listing.
pub open spec fn weapon_lines(weapons: Seq<(String, String)>) -> Seq<Seq<char>> {
    weapons.map_values(|p: (String, String)| weapon_line(p.0@, p.1@))
}

/// The lines of the live ammo listing.
pub open spec fn ammo_lines(ammo: Seq<(String, i64)>) -> Seq<Seq<char>> {
    ammo.map_values(|p: (String, i64)| ammo_line(p.0@, p.1 as int))
}

fn join_lines(lines: &Vec<String>) -> (s: String)
    ensures
        s@ == joined_lines(views_of(lines@)),
{
    proof {
        reveal_strlit("\n");
    }
    let mut s = String::new();
    let mut i: usize = 0;
    while i < lines.len()
        invariant
            i <= lines@.len(),
            s@ == joined_lines(views_of(lines@).take(i as int)),
        decreases lines@.len() - i,
    {
        if i > 0 {
            s.append("\n");
        }
        s.append(lines[i].as_str());
        proof {
            let ls = views_of(lines@);
            assert(ls.take(i as int + 1).drop_last() =~= ls.take(i as int));
            assert(ls.take(i as int + 1).last() == ls[i as int]);
            if i == 0 {
                assert(s@ =~= joined_lines(ls.take(1)));
            } else {
                assert(s@ =~= joined_lines(ls.take(i as int + 1)));
            }
        }
        i = i + 1;
    }
    proof {
        assert(views_of(lines@).take(lines@.len() as int) =~= views_of(lines@));
    }
    s
}

fn item_line_text(name: &String, count: i64) -> (s: String)
    ensures
        s@ == item_line(name@, count as int),
{
    proof {
        reveal_strlit("x");
        reveal_strlit(" ");
    }
    let mut s = "x".to_owned();
    let digits = i64_to_string(count);
    s.append(digits.as_str());
    s.append(" ");
    s.append(name.as_str());
    proof {
        assert(s@ =~= item_line(name@, count as int));
    }
    s
}

fn weapon_line_text(slot: &String, weapon: &String) -> (s: String)
    ensures
        s@ == weapon_line(slot@, weapon@),
{
    proof {
        reveal_strlit(" (");
        reveal_strlit(")");
    }
    let mut s = weapon.clone();
    s.append(" (");
    s.append(slot.as_str());
    s.append(")");
    proof {
        assert(s@ =~= weapon_line(slot@, weapon@));
    }
    s
}

fn ammo_line_text(kind: &String, count: i64) -> (s: String)
    ensures
        s@ == ammo_line(kind@, count as int),
{
    proof {
        reveal_strlit(": ");
    }
    let mut s = kind.clone();
    s.append(": ");
    let digits = i64_to_string(count);
    s.append(digits.as_str());
    proof {
        assert(s@ =~= ammo_line(kind@, count as int));
    }
    s
}

fn items_text(items: &Vec<(String, i64)>) -> (s: String)
    ensures
        s@ == joined_lines(item_lines(items@)),
{
    let mut lines: Vec<String> = Vec::new();
    let mut i: usize = 0;
    while i < items.len()
        invariant
            i <= items@.len(),
            lines@.len() == i,
            forall|j: int| 0 <= j < i ==> (#[trigger] lines@[j])@ == item_lines(items@)[j],
        decreases items@.len() - i,
    {
        let pair = &items[i];
        lines.push(item_line_text(&pair.0, pair.1));
        i = i + 1;
    }
    let s = join_lines(&lines);
    proof {
        assert(views_of(lines@) =~= item_lines(items@));
    }
    s
}

fn weapons_text(weapons: &Vec<(String, String)>) -> (s: String)
    ensures
        s@ == joined_lines(weapon_lines(weapons@)),
{
    let mut lines: Vec<String> = Vec::new();
    let mut i: usize = 0;
    while i < weapons.len()
        invariant
            i <= weapons@.len(),
            lines@.len() == i,
            forall|j: int| 0 <= j < i ==> (#[trigger] lines@[j])@ == weapon_lines(weapons@)[j],
        decreases weapons@.len() - i,
    {
        let pair = &weapons[i];
        lines.push(weapon_line_text(&pair.0, &pair.1));
        i = i + 1;
    }
    let s = join_lines(&lines);
    proof {
        assert(views_of(lines@) =~= weapon_lines(weapons@));
    }
    s
}

fn ammo_text(ammo: &Vec<(String, i64)>) -> (s: String)
    ensures
        s@ == joined_lines(ammo_lines(ammo@)),
{
    let mut lines: Vec<String> = Vec::new();
    let mut i: usize = 0;
    while i < ammo.len()
        invariant
            i <= ammo@.len(),
            lines@.len() == i,
            forall|j: int| 0 <= j < i ==> (#[trigger] lines@[j])@ == ammo_lines(ammo@)[j],
        decreases ammo@.len() - i,
    {
        let pair = &ammo[i];
        lines.push(ammo_line_text(&pair.0, pair.1));
        i = i + 1;
    }
    let s = join_lines(&lines);
    proof {
        assert(views_of(lines@) =~= ammo_lines(ammo@));
    }
    s
}

/// What the live view shows for a session snapshot: the offline-annotated
/// title, the player line, the three balances, and the item, weapon and
/// ammo listings.
pub open spec fn live_embed_ok(e: Embed, p: ServerPlayer) -> bool {
    &&& e.title@ == "User Lookup (Server)"@ + offline_suffix(p.active)
    &&& e.description@ == player_description(p.name@, p.id@, p.staff as int)
    &&& e.fields@.len() == 6
    &&& e.fields@[0].0@ == "Bank"@
    &&& e.fields@[0].1@ == money_seq(p.money.bank as int)
    &&& e.fields@[0].2 == true
    &&& e.fields@[1].0@ == "Cash (Clean)"@
    &&& e.fields@[1].1@ == money_seq(p.money.clean as int)
    &&& e.fields@[1].2 == true
    &&& e.fields@[2].0@ == "Cash (Dirty)"@
    &&& e.fields@[2].1@ == money_seq(p.money.dirty as int)
    &&& e.fields@[2].2 == true
    &&& e.fields@[3].0@ == "Inventory"@
    &&& e.fields@[3].1@ == joined_lines(item_lines(p.items@))
    &&& e.fields@[3].2 == false
    &&& e.fields@[4].0@ == "Weapons"@
    &&& e.fields@[4].1@ == joined_lines(weapon_lines(p.weapons@))
    &&& e.fields@[4].2 == false
    &&& e.fields@[5].0@ == "Ammo"@
    &&& e.fields@[5].1@ == joined_lines(ammo_lines(p.ammo@))
    &&& e.fields@[5].2 == false
    &&& e.thumbnail is None
}

/// Assembles the live view from a session snapshot.
pub fn live_embed(p: &ServerPlayer) -> (e: Embed)
    ensures
        live_embed_ok(e, *p),
{
    proof {
        reveal_strlit("User Lookup (Server)");
        reveal_strlit(" - Offline");
        reveal_strlit("Inventory");
        reveal_strlit("Weapons");
        reveal_strlit("Ammo");
    }
    let mut title = "User Lookup (Server)".to_owned();
    if !p.active {
        title.append(" - Offline");
    }
    proof {
        assert(title@ =~= "User Lookup (Server)"@ + offline_suffix(p.active));
    }
    let mut fields: Vec<(String, String, bool)> = Vec::new();
    push_money_fields(&mut fields, p.money.bank, p.money.clean, p.money.dirty);
    fields.push(("Inventory".to_owned(), items_text(&p.items), false));
    fields.push(("Weapons".to_owned(), weapons_text(&p.weapons), false));
    fields.push(("Ammo".to_owned(), ammo_text(&p.ammo), false));
    Embed {
        title,
        description: player_description_text(&p.name, &p.id, p.staff),
        fields,
        thumbnail: None,
    }
}

} // verus!
