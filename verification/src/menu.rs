//! The application's side of the tray: the menu it installs, how it reacts
//! to clicks, and the addresses it opens and binds.

use vstd::prelude::*;
use crate::text::{decimal, decimal_string, law_framed_decimal_injective};
use crate::tray::{Action, Item, Menu};

verus! {

/// The character of the standard base64 alphabet for a six-bit value:
/// `A`-`Z`, `a`-`z`, `0`-`9`, `+` and `/`.
pub open spec fn base64_char(v: int) -> char {
    if v < 26 {
        (v + 65) as char
    } else if v < 52 {
        (v + 71) as char
    } else if v < 62 {
        (v - 4) as char
    } else if v == 62 {
        '+'
    } else {
        '/'
    }
}

/// The standard base64 encoding of `bytes`, padded with `=`: every group
/// of three bytes becomes four characters of six bits each; a last group
/// of one or two bytes becomes two or three characters and padding.
pub open spec fn base64_standard(bytes: Seq<u8>) -> Seq<char>
    decreases bytes.len(),
{
    if bytes.len() == 0 {
        Seq::<char>::empty()
    } else {
        let b0 = bytes[0] as int;
        if bytes.len() == 1 {
            seq![base64_char(b0 / 4), base64_char((b0 % 4) * 16), '=', '=']
        } else {
            let b1 = bytes[1] as int;
            if bytes.len() == 2 {
                seq![
                    base64_char(b0 / 4),
                    base64_char((b0 % 4) * 16 + b1 / 16),
                    base64_char((b1 % 16) * 4),
                    '=',
                ]
            } else {
                let b2 = bytes[2] as int;
                seq![
                    base64_char(b0 / 4),
                    base64_char((b0 % 4) * 16 + b1 / 16),
                    base64_char((b1 % 16) * 4 + b2 / 64),
                    base64_char(b2 % 64),
                ] + base64_standard(bytes.subrange(3, bytes.len() as int))
            }
        }
    }
}

/// The six-bit value of a character of the base64 alphabet.
pub open spec fn base64_value(c: char) -> int {
    let x = c as int;
    if 65 <= x <= 90 {
        x - 65
    } else if 97 <= x <= 122 {
        x - 71
    } else if 48 <= x <= 57 {
        x + 4
    } else if x == 43 {
        62
    } else {
        63
    }
}

/// Decodes padded standard base64, four characters at a time.
pub open spec fn base64_decode(chars: Seq<char>) -> Seq<u8>
    decreases chars.len(),
{
    if chars.len() < 4 {
        Seq::<u8>::empty()
    } else {
        let v0 = base64_value(chars[0]);
        let v1 = base64_value(chars[1]);
        let v2 = base64_value(chars[2]);
        let v3 = base64_value(chars[3]);
        let first = (v0 * 4 + v1 / 16) as u8;
        let second = ((v1 % 16) * 16 + v2 / 4) as u8;
        let third = ((v2 % 4) * 64 + v3) as u8;
        if chars[2] == '=' {
            seq![first]
        } else if chars[3] == '=' {
            seq![first, second]
        } else {
            seq![first, second, third] + base64_decode(chars.subrange(4, chars.len() as int))
        }
    }
}

proof fn lemma_base64_char(v: int)
    requires
        0 <= v < 64,
    ensures
        base64_value(base64_char(v)) == v,
        base64_char(v) != '=',
{
}

proof fn lemma_byte_split(b0: int, b1: int, b2: int)
    requires
        0 <= b0 < 256,
        0 <= b1 < 256,
        0 <= b2 < 256,
    ensures
        0 <= b0 / 4 < 64,
        0 <= (b0 % 4) * 16 < 64,
        0 <= (b0 % 4) * 16 + b1 / 16 < 64,
        0 <= (b1 % 16) * 4 < 64,
        0 <= (b1 % 16) * 4 + b2 / 64 < 64,
        0 <= b2 % 64 < 64,
        (b0 / 4) * 4 + ((b0 % 4) * 16) / 16 == b0,
        (b0 / 4) * 4 + ((b0 % 4) * 16 + b1 / 16) / 16 == b0,
        (((b0 % 4) * 16 + b1 / 16) % 16) * 16 + ((b1 % 16) * 4) / 4 == b1,
        (((b0 % 4) * 16 + b1 / 16) % 16) * 16 + ((b1 % 16) * 4 + b2 / 64) / 4 == b1,
        ((((b1 % 16) * 4 + b2 / 64) % 4) * 64 + b2 % 64) == b2,
{
}

/// Decoding the base64 text gives back the bytes: the icon the menu
/// carries is the image it was made from.
pub proof fn law_base64_decodes_back(bytes: Seq<u8>)
    ensures
        base64_decode(base64_standard(bytes)) == bytes,
    decreases bytes.len(),
{
    if bytes.len() > 0 {
        let b0 = bytes[0] as int;
        let b1 = if bytes.len() > 1 { bytes[1] as int } else { 0 };
        let b2 = if bytes.len() > 2 { bytes[2] as int } else { 0 };
        lemma_byte_split(b0, b1, b2);
        lemma_base64_char(b0 / 4);
        lemma_base64_char((b0 % 4) * 16);
        lemma_base64_char((b0 % 4) * 16 + b1 / 16);
        lemma_base64_char((b1 % 16) * 4);
        lemma_base64_char((b1 % 16) * 4 + b2 / 64);
        lemma_base64_char(b2 % 64);
        let enc = base64_standard(bytes);
        if bytes.len() == 1 {
            assert(base64_decode(enc) =~= bytes);
        } else if bytes.len() == 2 {
            assert(base64_decode(enc) =~= bytes);
        } else {
            let rest = bytes.subrange(3, bytes.len() as int);
            law_base64_decodes_back(rest);
            assert(enc.subrange(4, enc.len() as int) =~= base64_standard(rest));
            assert(base64_decode(enc) =~= bytes);
        }
    }
}

/// Calls `base64::encode`, which encodes with the standard alphabet and
/// padding. Trusted: the result is `base64_standard` of the bytes, as the
/// crate's `encode_with_padding` computes it for the `STANDARD`
/// configuration. The crate panics when the encoded size overflows
/// `usize`, which `requires` leaves out.
#[verifier::external_body]
fn encode_base64(bytes: &[u8]) -> (encoded: String)
    requires
        (bytes@.len() + 2) / 3 * 4 <= usize::MAX,
    ensures
        encoded@ == base64_standard(bytes@),
{
    base64::encode(bytes)
}

/// What the application does besides answering the tray.
#[derive(Clone, Copy, Debug, PartialEq, Eq, Structural)]
pub enum MenuEffect {
    Nothing,
    /// Open the web interface's RPC settings page in the browser.
    OpenSettings,
    /// Tell the download daemon's supervisor to stop it.
    StopDownloader,
}

/// The answer to one action of the tray.
#[derive(Clone, Debug, PartialEq)]
pub struct MenuResponse {
    pub reply: Action,
    pub effect: MenuEffect,
}

/// The index of the menu entry that opens the web interface.
pub const OPEN_ITEM: u32 = 0;

/// The index of the menu entry that quits.
pub const QUIT_ITEM: u32 = 1;

/// The reply and the effect that an action of the tray calls for:
/// a click on the first entry opens the settings page, a click on the second
/// stops the download daemon and quits, anything else is answered with `none`.
pub open spec fn reaction(action: Action) -> (Action, MenuEffect) {
    match action {
        Action::Clicked { item, seq_id } => {
            if seq_id == OPEN_ITEM {
                (Action::Nothing, MenuEffect::OpenSettings)
            } else if seq_id == QUIT_ITEM {
                (Action::Quit, MenuEffect::StopDownloader)
            } else {
                (Action::Nothing, MenuEffect::Nothing)
            }
        },
        _ => (Action::Nothing, MenuEffect::Nothing),
    }
}

/// Reacts to an action reported by the tray.
pub fn react_to_tray(action: &Action) -> (response: MenuResponse)
    ensures
        (response.reply, response.effect) == reaction(*action),
{
    match action {
        Action::Clicked { item, seq_id } => {
            if *seq_id == OPEN_ITEM {
                MenuResponse { reply: Action::Nothing, effect: MenuEffect::OpenSettings }
            } else if *seq_id == QUIT_ITEM {
                MenuResponse { reply: Action::Quit, effect: MenuEffect::StopDownloader }
            } else {
                MenuResponse { reply: Action::Nothing, effect: MenuEffect::Nothing }
            }
        },
        _ => MenuResponse { reply: Action::Nothing, effect: MenuEffect::Nothing },
    }
}

/// The tray answers a click with `quit` exactly when it stops the download
/// daemon: the daemon is never left running behind a closed tray, and never
/// stopped while the tray stays.
pub proof fn law_quit_stops_downloader(action: Action)
    ensures
        reaction(action).0 is Quit <==> reaction(action).1 == MenuEffect::StopDownloader,
{
}

/// Anything but a click on one of the two entries is answered with `none`
/// and has no effect.
pub proof fn law_other_actions_are_ignored(action: Action)
    ensures
        !(action matches Action::Clicked { seq_id, .. } && (seq_id == 0 || seq_id == 1))
            ==> reaction(action) == (Action::Nothing, MenuEffect::Nothing),
{
}

/// Only a click on the quit entry ends the session.
pub proof fn law_only_quit_item_quits(action: Action)
    ensures
        reaction(action).0 is Quit <==> (action matches Action::Clicked { seq_id, .. } && seq_id
            == QUIT_ITEM),
{
}

/// A menu entry that is enabled and unchecked.
pub open spec fn plain_item(title: Seq<char>) -> (Seq<char>, Seq<char>, bool, bool) {
    (title, title, true, false)
}

/// The fields of an item.
pub open spec fn item_fields(item: Item) -> (Seq<char>, Seq<char>, bool, bool) {
    (item.title@, item.tooltip@, item.enabled, item.checked)
}

/// The tray menu with the given icon: no title, the tooltip `Aria2cGUI`,
/// and two plain entries, "打开" (open) and "退出" (quit), in that order.
pub open spec fn is_app_menu(menu: Menu, icon: Seq<char>) -> bool {
    &&& menu.icon@ == icon
    &&& menu.title@ == Seq::<char>::empty()
    &&& menu.tooltip@ == "Aria2cGUI"@
    &&& menu.items@.len() == 2
    &&& item_fields(menu.items@[OPEN_ITEM as int]) == plain_item("打开"@)
    &&& item_fields(menu.items@[QUIT_ITEM as int]) == plain_item("退出"@)
}

/// A menu as plain values: icon, title, tooltip and the fields of each item.
pub open spec fn menu_view(menu: Menu) -> (Seq<char>, Seq<char>, Seq<char>, Seq<(Seq<char>, Seq<char>, bool, bool)>) {
    (menu.icon@, menu.title@, menu.tooltip@, menu.items@.map_values(|i: Item| item_fields(i)))
}

/// The application's menu is determined by its icon: two menus built for
/// the same icon are alike in every field.
pub proof fn law_menu_determined_by_icon(first: Menu, second: Menu, icon: Seq<char>)
    requires
        is_app_menu(first, icon),
        is_app_menu(second, icon),
    ensures
        menu_view(first) == menu_view(second),
{
    assert(first.items@.map_values(|i: Item| item_fields(i)) =~= second.items@.map_values(
        |i: Item| item_fields(i),
    ));
}

fn plain_menu_item(title: &str) -> (item: Item)
    ensures
        item_fields(item) == plain_item(title@),
{
    Item {
        title: String::from_str(title),
        tooltip: String::from_str(title),
        checked: false,
        enabled: true,
    }
}

/// The application's tray menu around an already encoded icon.
pub fn menu_with_icon(icon: String) -> (menu: Menu)
    ensures
        is_app_menu(menu, icon@),
        menu.icon@ == icon@,
        menu.title@.len() == 0,
        menu.tooltip@ == "Aria2cGUI"@,
        menu.items@.len() == 2,
        menu.items@[0].title@ == "打开"@ && menu.items@[0].tooltip@ == "打开"@,
        menu.items@[1].title@ == "退出"@ && menu.items@[1].tooltip@ == "退出"@,
        forall|i: int| 0 <= i < 2 ==> #[trigger] menu.items@[i].enabled && !menu.items@[i].checked,
{
    let mut items: Vec<Item> = Vec::new();
    items.push(plain_menu_item("打开"));
    items.push(plain_menu_item("退出"));
    Menu { icon, title: String::new(), tooltip: String::from_str("Aria2cGUI"), items }
}

/// The application's tray menu, with the icon image encoded in base64.
pub fn create_menu(icon_image: &[u8]) -> (menu: Menu)
    requires
        (icon_image@.len() + 2) / 3 * 4 <= usize::MAX,
    ensures
        is_app_menu(menu, base64_standard(icon_image@)),
{
    menu_with_icon(encode_base64(icon_image))
}

/// The menu and the reactions agree: a click on the menu's entry titled
/// "打开", which the tray numbers by its position, opens the settings page,
/// and a click on the entry titled "退出" stops the daemon and quits.
pub proof fn law_menu_entries_do_what_they_say(menu: Menu, icon: Seq<char>, item: Item)
    requires
        is_app_menu(menu, icon),
    ensures
        item_fields(menu.items@[OPEN_ITEM as int]).0 == "打开"@,
        reaction(Action::Clicked { item, seq_id: OPEN_ITEM }) == (
            Action::Nothing,
            MenuEffect::OpenSettings,
        ),
        item_fields(menu.items@[QUIT_ITEM as int]).0 == "退出"@,
        reaction(Action::Clicked { item, seq_id: QUIT_ITEM }) == (
            Action::Quit,
            MenuEffect::StopDownloader,
        ),
{
}

/// The loopback address with a port, as given to the listener.
pub open spec fn loopback_address(port: u16) -> Seq<char> {
    "127.0.0.1:"@ + decimal(port as nat)
}

/// The address that the web server or the daemon is tried on.
pub fn bind_address(port: u16) -> (address: String)
    ensures
        address@ == loopback_address(port),
        address@ == "127.0.0.1:"@ + decimal(port as nat),
{
    let mut address = String::from_str("127.0.0.1:");
    let digits = decimal_string(port);
    address.append(digits.as_str());
    address
}

/// The page of the web interface that points it at the daemon's RPC port.
pub open spec fn settings_page(port: u16, rpc_port: u16) -> Seq<char> {
    "http://127.0.0.1:"@ + decimal(port as nat) + "/#!/settings/rpc/set/http/127.0.0.1/"@
        + decimal(rpc_port as nat) + "/jsonrpc"@
}

/// Distinct ports are bound at distinct addresses.
pub proof fn law_loopback_address_names_port(port: u16, other: u16)
    ensures
        loopback_address(port) == loopback_address(other) ==> port == other,
{
    law_framed_decimal_injective("127.0.0.1:"@, Seq::<char>::empty(), port as nat, other as nat);
    assert("127.0.0.1:"@ + decimal(port as nat) + Seq::<char>::empty() =~= loopback_address(port));
    assert("127.0.0.1:"@ + decimal(other as nat) + Seq::<char>::empty() =~= loopback_address(
        other,
    ));
}

/// The settings page names both ports: for the same web port, distinct
/// daemon ports give distinct pages, and for the same daemon port,
/// distinct web ports do.
pub proof fn law_settings_page_names_ports(port: u16, rpc_port: u16, other_port: u16, other_rpc: u16)
    ensures
        settings_page(port, rpc_port) == settings_page(port, other_rpc) ==> rpc_port == other_rpc,
        settings_page(port, rpc_port) == settings_page(other_port, rpc_port) ==> port == other_port,
{
    let head = "http://127.0.0.1:"@ + decimal(port as nat) + "/#!/settings/rpc/set/http/127.0.0.1/"@;
    law_framed_decimal_injective(head, "/jsonrpc"@, rpc_port as nat, other_rpc as nat);
    let tail = "/#!/settings/rpc/set/http/127.0.0.1/"@ + decimal(rpc_port as nat) + "/jsonrpc"@;
    law_framed_decimal_injective("http://127.0.0.1:"@, tail, port as nat, other_port as nat);
    assert(settings_page(port, rpc_port) =~= "http://127.0.0.1:"@ + decimal(port as nat) + tail);
    assert(settings_page(other_port, rpc_port) =~= "http://127.0.0.1:"@ + decimal(other_port as nat)
        + tail);
}

/// The address of the settings page, served on `port`, for a daemon
/// listening on `rpc_port`.
pub fn settings_url(port: u16, rpc_port: u16) -> (url: String)
    ensures
        url@ == settings_page(port, rpc_port),
        url@ == "http://127.0.0.1:"@ + decimal(port as nat) + "/#!/settings/rpc/set/http/127.0.0.1/"@
            + decimal(rpc_port as nat) + "/jsonrpc"@,
{
    let mut url = String::from_str("http://127.0.0.1:");
    let port_digits = decimal_string(port);
    url.append(port_digits.as_str());
    url.append("/#!/settings/rpc/set/http/127.0.0.1/");
    let rpc_digits = decimal_string(rpc_port);
    url.append(rpc_digits.as_str());
    url.append("/jsonrpc");
    url
}

/// The port the web server prefers.
pub const WEB_PORT: u16 = 23156;

/// The port the download daemon's RPC interface prefers.
pub const RPC_PORT: u16 = 6800;

/// What a failed bind of the preferred port is followed by: a port of the
/// system's choosing.
pub const ANY_PORT: u16 = 0;

} // verus!
