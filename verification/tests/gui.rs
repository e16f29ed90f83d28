use castify::gui::theme::buttons::filled::FilledButton;
use castify::gui::theme::buttons::key::Key4Board;
use castify::gui::theme::styles::buttons::ButtonType;
use castify::gui::theme::styles::csx::StyleType;
use castify::gui::types::icons::Icon;
use castify::gui::windows::annotation::{AnnotationAction, AnnotationWindow, AnnotationWindowEvent};
use castify::gui::windows::area_selector::{ASWindow, ASWindowAction, ASWindowEvent};
use castify::gui::windows::main::{
    caster_address, main_window_step, AppMode, MainAction, MainEvent, MainWindowState, Page,
    PageNavigation, PopupKind,
};
use castify::gui::windows::manager::{Either, WindowType, Windows};

#[test]
fn icon_codepoints() {
    assert_eq!(Icon::Browser.codepoint(), '1');
    assert_eq!(Icon::Connection.codepoint(), 'Z');
    assert_eq!(Icon::Image.codepoint(), 'u');
    assert_eq!(Icon::Screen.codepoint(), 'u');
    assert_eq!(Icon::Area.codepoint(), 'E');
}

#[test]
fn buttons_and_styles() {
    let _b = FilledButton::new("Start").icon(Icon::Cast).style(ButtonType::Alert);
    let _k = Key4Board::new(String::from("CTRL"), 3).style(ButtonType::Tab);
    assert_eq!(StyleType::default(), StyleType::Venus);
    assert_eq!(ButtonType::default(), ButtonType::Standard);
}

#[test]
fn page_navigation() {
    let mut nav = PageNavigation::new();
    nav.change_page(Page::Caster);
    assert_eq!(nav.page, Page::Caster);
    assert_eq!(nav.prev_page, Page::Home);
    nav.toggle_info();
    assert_eq!(nav.page, Page::Info);
    nav.toggle_info();
    assert_eq!(nav.page, Page::Caster);
    nav.close_popup(Some(Page::Client));
    assert_eq!(nav.page, Page::Client);
    nav.close_popup(None);
    assert_eq!(nav.page, Page::Client);
}

#[test]
fn area_selector_flow() {
    let mut w: ASWindow<(u32, u32)> = ASWindow::new();
    assert_eq!(w.hint(), "Esc to Cancel");
    assert_eq!(w.update(ASWindowEvent::AreaSelected((3, 4))), ASWindowAction::Stay);
    assert_eq!(w.hint(), "Enter to Confirm | Click to Reset");
    assert_eq!(w.update(ASWindowEvent::ExitValid), ASWindowAction::SelectAndClose((3, 4)));
    assert_eq!(w.update(ASWindowEvent::Invalid), ASWindowAction::Stay);
    assert_eq!(w.hint(), "Invalid selection");
    assert_eq!(w.update(ASWindowEvent::ExitValid), ASWindowAction::Close);
    assert_eq!(w.update(ASWindowEvent::AreaAbort), ASWindowAction::Stay);
    assert_eq!(w.update(ASWindowEvent::ExitAbort), ASWindowAction::Close);
}

#[test]
fn windows_lookup_both_ways() {
    let mut w: Windows<&str> = Windows::new();
    w.insert(7, WindowType::Main, "main");
    w.insert(9, WindowType::AreaSelector, "area");
    assert_eq!(w.get_id(WindowType::Main), Some(7));
    assert_eq!(w.get_type(9), Some(WindowType::AreaSelector));
    assert_eq!(w.get_type(8), None);
    assert!(w.of_type(7, WindowType::Main));
    assert!(!w.of_type(7, WindowType::Annotation));
    assert!(w.contains(Either::Left(9)));
    assert!(!w.contains(Either::Right(WindowType::Annotation)));
    assert_eq!(w.get_manager(Either::Right(WindowType::Main)), Some(&"main"));
    assert_eq!(w.get_manager(Either::Left(9)), Some(&"area"));
    assert_eq!(w.iter(), vec![(7, WindowType::Main), (9, WindowType::AreaSelector)]);
}

#[test]
fn windows_reopen_with_kept_state() {
    let mut w: Windows<u32> = Windows::default();
    w.insert(1, WindowType::Annotation, 10);
    if let Some(state) = w.get_manager_mut(Either::Left(1)) {
        *state = 11;
    }
    w.remove(Either::Right(WindowType::Annotation), true);
    assert_eq!(w.get_id(WindowType::Annotation), None);
    assert_eq!(w.get_manager(Either::Left(1)), None);
    w.insert(2, WindowType::Annotation, 99);
    assert_eq!(w.get_manager(Either::Left(2)), Some(&11));
    w.remove(Either::Left(2), false);
    w.insert(3, WindowType::Annotation, 99);
    assert_eq!(w.get_manager(Either::Left(3)), Some(&99));
}

#[test]
fn windows_reassigning_an_id_moves_it() {
    let mut w: Windows<u8> = Windows::new();
    w.insert(5, WindowType::Main, 0);
    w.insert(5, WindowType::AreaSelector, 1);
    assert_eq!(w.get_id(WindowType::Main), None);
    assert_eq!(w.get_type(5), Some(WindowType::AreaSelector));
    w.remove(Either::Left(42), true);
    assert_eq!(w.iter(), vec![(5, WindowType::AreaSelector)]);
}

#[test]
fn annotation_settings() {
    let mut w: AnnotationWindow<u8, u32, u16> = AnnotationWindow::new();
    assert!(!w.show_toolbar);
    assert_eq!(w.update(AnnotationWindowEvent::ChooseShapeType(3, true, true)), AnnotationAction::Stay);
    assert_eq!(w.update(AnnotationWindowEvent::ChangeColor(0xff0000)), AnnotationAction::Stay);
    assert_eq!(w.update(AnnotationWindowEvent::ChangeStroke(4)), AnnotationAction::Stay);
    assert_eq!((w.shape.s_type, w.shape.is_filled, w.shape.is_solid), (3, true, true));
    assert_eq!((w.shape.color, w.shape.stroke), (0xff0000, 4));
    w.update(AnnotationWindowEvent::ToggleToolbar);
    assert!(w.show_toolbar);
    w.update(AnnotationWindowEvent::ToggleToolbar);
    assert!(!w.show_toolbar);
    assert_eq!(w.update(AnnotationWindowEvent::Ignore), AnnotationAction::Stay);
    assert_eq!(w.update(AnnotationWindowEvent::Exit), AnnotationAction::Close);
}

#[test]
fn caster_address_appends_the_port() {
    assert_eq!(caster_address("192.168.1.20", 8080), "192.168.1.20:8080");
    assert_eq!(caster_address("10.0.0.1:9000", 8080), "10.0.0.1:9000");
    assert_eq!(caster_address("host", 0), "host:0");
    assert_eq!(caster_address("h", 65535), "h:65535");
}

#[test]
fn main_window_events() {
    let start: MainWindowState<u8> = MainWindowState {
        nav: PageNavigation::new(),
        theme: StyleType::Venus,
        popup: None,
        mode: None,
        updating_hotkey: None,
    };
    let (s, a) = main_window_step(start, MainEvent::ModeReceiver, 31234);
    assert_eq!(s.mode, Some(AppMode::Receiver));
    assert_eq!(s.popup, Some(PopupKind::CasterAddress));
    assert!(matches!(a, MainAction::Nothing));
    let (s, a) = main_window_step(s, MainEvent::ConnectToCaster(String::from("10.0.0.7")), 31234);
    assert_eq!(s.nav.page, Page::Client);
    assert_eq!(s.popup, None);
    match a {
        MainAction::ConnectReceiver(Some(addr)) => assert_eq!(addr, "10.0.0.7:31234"),
        _ => panic!("expected a connection"),
    }
    let (_, a) = main_window_step(s, MainEvent::ConnectToCaster(String::from("auto")), 31234);
    assert!(matches!(a, MainAction::ConnectReceiver(None)));
    let (s, _) = main_window_step(s, MainEvent::OpenInfo, 0);
    assert_eq!(s.nav.page, Page::Info);
    let (s, _) = main_window_step(s, MainEvent::OpenInfo, 0);
    assert_eq!(s.nav.page, Page::Client);
    let (s, a) = main_window_step(s, MainEvent::ShowSdp, 0);
    assert_eq!(s.popup, Some(PopupKind::ManualSdp(false)));
    assert!(matches!(a, MainAction::ExchangeSdp(false)));
    let (s, _) = main_window_step(s, MainEvent::HotkeysTypePage(3), 0);
    assert_eq!(s.updating_hotkey, Some(3));
    let (s, a) = main_window_step(s, MainEvent::Home, 0);
    assert_eq!(s.nav.page, Page::Home);
    assert_eq!((s.mode, s.popup, s.updating_hotkey), (None, None, None));
    assert!(matches!(a, MainAction::Nothing));
    let (_, a) = main_window_step(s, MainEvent::SaveCapture, 0);
    assert!(matches!(a, MainAction::Nothing));
}
