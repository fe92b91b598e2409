use aria2c_gui_rs::menu::{
    bind_address, create_menu, menu_with_icon, react_to_tray, settings_url, MenuEffect,
    QUIT_ITEM, OPEN_ITEM,
};
use aria2c_gui_rs::tray::{Action, Item};

fn click(seq_id: u32) -> Action {
    Action::Clicked {
        item: Item { title: "t".to_string(), tooltip: "t".to_string(), enabled: true, checked: false },
        seq_id,
    }
}

#[test]
fn click_on_open_opens_settings() {
    let r = react_to_tray(&click(0));
    assert_eq!(r.reply, Action::Nothing);
    assert_eq!(r.effect, MenuEffect::OpenSettings);
}

#[test]
fn click_on_quit_stops_and_quits() {
    let r = react_to_tray(&click(1));
    assert_eq!(r.reply, Action::Quit);
    assert_eq!(r.effect, MenuEffect::StopDownloader);
}

#[test]
fn other_actions_are_ignored() {
    for action in [click(2), click(7), Action::Ready, Action::Nothing, Action::Quit] {
        let r = react_to_tray(&action);
        assert_eq!(r.reply, Action::Nothing);
        assert_eq!(r.effect, MenuEffect::Nothing);
    }
}

#[test]
fn quit_coincides_with_stopping() {
    for action in [click(0), click(1), click(2), Action::Ready, Action::Quit] {
        let r = react_to_tray(&action);
        assert_eq!(r.reply == Action::Quit, r.effect == MenuEffect::StopDownloader);
    }
}

#[test]
fn the_menu_has_open_and_quit() {
    let menu = menu_with_icon("ICON".to_string());
    assert_eq!(menu.icon, "ICON");
    assert_eq!(menu.title, "");
    assert_eq!(menu.tooltip, "Aria2cGUI");
    assert_eq!(menu.items.len(), 2);
    let open = &menu.items[OPEN_ITEM as usize];
    assert_eq!(open.title, "打开");
    assert_eq!(open.tooltip, "打开");
    assert!(open.enabled);
    assert!(!open.checked);
    let quit = &menu.items[QUIT_ITEM as usize];
    assert_eq!(quit.title, "退出");
    assert_eq!(quit.tooltip, "退出");
    assert!(quit.enabled);
    assert!(!quit.checked);
}

#[test]
fn the_icon_is_base64_encoded() {
    assert_eq!(create_menu(b"hello").icon, "aGVsbG8=");
    assert_eq!(create_menu(b"").icon, "");
    assert_eq!(create_menu(&[0xff, 0xfe, 0xfd]).icon, "//79");
    assert_eq!(create_menu(b"ab").icon, "YWI=");
}

#[test]
fn addresses_name_the_ports() {
    assert_eq!(bind_address(23156), "127.0.0.1:23156");
    assert_eq!(bind_address(0), "127.0.0.1:0");
    assert_eq!(
        settings_url(23156, 6800),
        "http://127.0.0.1:23156/#!/settings/rpc/set/http/127.0.0.1/6800/jsonrpc"
    );
}
