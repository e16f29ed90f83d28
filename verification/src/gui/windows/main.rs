//! The main window's state: page navigation, the popup shown, the mode the
//! application runs in and the theme, and what each event does to them.

use vstd::prelude::*;

use crate::gui::theme::styles::csx::StyleType;

verus! {

/// The pages of the main window.
#[derive(PartialEq, Eq, Clone, Copy, Debug, Structural)]
pub enum Page {
    Home,
    Caster,
    Client,
    Hotkeys,
    Info,
}

/// The page the main window shows and the page it showed before.
#[derive(PartialEq, Eq, Clone, Copy, Debug, Structural)]
pub struct PageNavigation {
    pub page: Page,
    pub prev_page: Page,
}

impl PageNavigation {
    /// The main window starts on the home page.
    pub fn new() -> (n: Self)
        ensures
            n.page == Page::Home,
            n.prev_page == Page::Home,
    {
        PageNavigation { page: Page::Home, prev_page: Page::Home }
    }

    /// Shows `page`, remembering the page shown so far.
    pub fn change_page(&mut self, page: Page)
        ensures
            final(self).page == page,
            final(self).prev_page == old(self).page,
    {
        self.prev_page = self.page;
        self.page = page;
    }

    /// The info button: leaves the info page for the page shown before it,
    /// or opens the info page.
    pub fn toggle_info(&mut self)
        ensures
            *final(self) == info_toggled(*old(self)),
    {
        if self.page == Page::Info {
            self.page = self.prev_page;
        } else {
            self.change_page(Page::Info);
        }
    }

    /// Closing a popup shows the page it asks for, if any; the remembered
    /// page stays.
    pub fn close_popup(&mut self, page: Option<Page>)
        ensures
            final(self).page == match page {
                Some(p) => p,
                None => old(self).page,
            },
            final(self).prev_page == old(self).prev_page,
    {
        if let Some(p) = page {
            self.page = p;
        }
    }
}

/// What the info button does: on the info page it goes back to the page
/// shown before, keeping that page remembered; elsewhere it opens the info
/// page and remembers the page it left.
pub open spec fn info_toggled(nav: PageNavigation) -> PageNavigation {
    if nav.page == Page::Info {
        PageNavigation { page: nav.prev_page, prev_page: nav.prev_page }
    } else {
        PageNavigation { page: Page::Info, prev_page: nav.page }
    }
}

/// Opening the info page from page P shows Info and remembers P; pressing
/// the info button again shows P, which stays remembered.
pub proof fn law_info_round_trip(nav: PageNavigation)
    requires
        nav.page != Page::Info,
    ensures
        info_toggled(nav) == (PageNavigation { page: Page::Info, prev_page: nav.page }),
        info_toggled(info_toggled(nav)) == (PageNavigation {
            page: nav.page,
            prev_page: nav.page,
        }),
{
}


/// The decimal digit `d` (below ten) as a character.
pub open spec fn digit_char(d: nat) -> char {
    if d == 0 {
        '0'
    } else if d == 1 {
        '1'
    } else if d == 2 {
        '2'
    } else if d == 3 {
        '3'
    } else if d == 4 {
        '4'
    } else if d == 5 {
        '5'
    } else if d == 6 {
        '6'
    } else if d == 7 {
        '7'
    } else if d == 8 {
        '8'
    } else {
        '9'
    }
}

/// The decimal digits of `n`, without leading zeros.
pub open spec fn decimal(n: nat) -> Seq<char>
    decreases n,
{
    if n < 10 {
        seq![digit_char(n)]
    } else {
        decimal(n / 10) + seq![digit_char(n % 10)]
    }
}

/// The caster address the user typed, with the service `port` appended
/// unless the address already names a port (holds a `:`).
pub open spec fn caster_address_text(ip: Seq<char>, port: u16) -> Seq<char> {
    if ip.contains(':') {
        ip
    } else {
        ip + seq![':'] + decimal(port as nat)
    }
}

fn digit_str(d: u16) -> (r: &'static str)
    requires
        d < 10,
    ensures
        r@ == seq![digit_char(d as nat)],
{
    match d {
        0 => {
            proof {
                reveal_strlit("0");
            }
            "0"
        },
        1 => {
            proof {
                reveal_strlit("1");
            }
            "1"
        },
        2 => {
            proof {
                reveal_strlit("2");
            }
            "2"
        },
        3 => {
            proof {
                reveal_strlit("3");
            }
            "3"
        },
        4 => {
            proof {
                reveal_strlit("4");
            }
            "4"
        },
        5 => {
            proof {
                reveal_strlit("5");
            }
            "5"
        },
        6 => {
            proof {
                reveal_strlit("6");
            }
            "6"
        },
        7 => {
            proof {
                reveal_strlit("7");
            }
            "7"
        },
        8 => {
            proof {
                reveal_strlit("8");
            }
            "8"
        },
        _ => {
            proof {
                reveal_strlit("9");
            }
            "9"
        },
    }
}

fn append_decimal(s: &mut String, n: u16)
    ensures
        final(s)@ == old(s)@ + decimal(n as nat),
    decreases n,
{
    if n >= 10 {
        append_decimal(s, n / 10);
    }
    s.append(digit_str(n % 10));
    proof {
        if n >= 10 {
            assert(decimal(n as nat) == decimal((n / 10) as nat) + seq![digit_char((n % 10) as nat)]);
        }
    }
}

/// Whether `s` holds a `:`.
fn has_colon(s: &str) -> (r: bool)
    ensures
        r == s@.contains(':'),
{
    let n = s.unicode_len();
    let mut i: usize = 0;
    while i < n
        invariant
            n == s@.len(),
            i <= n,
            forall|j: int| 0 <= j < i ==> s@[j] != ':',
        decreases n - i,
    {
        if s.get_char(i) == ':' {
            return true;
        }
        i = i + 1;
    }
    false
}

/// The address of the caster the user typed: as typed when it names a port,
/// otherwise with the service `port` appended after a `:`.
pub fn caster_address(ip: &str, port: u16) -> (s: String)
    ensures
        s@ == caster_address_text(ip@, port),
{
    let mut s = String::from_str(ip);
    if has_colon(ip) {
        return s;
    }
    proof {
        reveal_strlit(":");
    }
    s.append(":");
    append_decimal(&mut s, port);
    s
}

/// Whether the address typed is `auto`, asking for the caster to be found
/// on the network.
fn is_auto(s: &str) -> (r: bool)
    ensures
        r == (s@ == "auto"@),
{
    proof {
        reveal_strlit("auto");
    }
    if s.unicode_len() != 4 {
        return false;
    }
    let r = s.get_char(0) == 'a' && s.get_char(1) == 'u' && s.get_char(2) == 't' && s.get_char(3)
        == 'o';
    proof {
        if r {
            assert(s@ =~= "auto"@);
        }
    }
    r
}

/// The mode the application runs in.
#[derive(PartialEq, Eq, Clone, Copy, Debug, Structural)]
pub enum AppMode {
    Caster,
    Receiver,
}

/// The popup the main window shows over its page. `K` is the kind of
/// shortcut being edited.
#[derive(PartialEq, Eq, Clone, Copy, Debug)]
pub enum PopupKind<K> {
    /// Asks for the caster's address
    CasterAddress,
    /// The manual SDP exchange, on the caster's side or the receiver's
    ManualSdp(bool),
    /// Asks for a new key combination for a shortcut
    HotkeyUpdate(K),
}

/// The state of the main window and the part of the application settings
/// that its events change.
#[derive(PartialEq, Eq, Clone, Copy, Debug)]
pub struct MainWindowState<K> {
    pub nav: PageNavigation,
    pub theme: StyleType,
    pub popup: Option<PopupKind<K>>,
    pub mode: Option<AppMode>,
    pub updating_hotkey: Option<K>,
}

/// Events of the main window.
#[derive(Clone, Debug)]
pub enum MainEvent<K> {
    Home,
    ModeCaster,
    ModeReceiver,
    CasterToggleStreaming,
    CasterChangeDisplay(usize),
    PopupMessage,
    ClosePopup(Option<Page>),
    ConnectToCaster(String),
    SaveCapture,
    SaveCaptureStop,
    HotkeysPage,
    HotkeysTypePage(K),
    AreaSelection,
    AreaSelectedFullScreen,
    ExitApp,
    OpenWebPage(String),
    ThemeUpdate(StyleType),
    ShowAnnotationWindow,
    OpenInfo,
    Ignore,
    ShowSdp,
    CopyToClipboard(String),
    ToggleAudioMute,
}

/// What the application is asked to do after an event of the main window.
#[derive(Clone, Debug)]
pub enum MainAction {
    Nothing,
    CasterToggleStreaming,
    /// Switch the caster to the display with this index
    ChangeDisplay(usize),
    /// Hand the popup's message to the popup
    UpdatePopup,
    /// Connect the receiver: to the caster at this address (host and port),
    /// or to one found on the network; then attach its video
    ConnectReceiver(Option<String>),
    SaveCapture,
    SaveCaptureStop,
    OpenAreaSelectionWindow,
    AreaSelectedFullScreen,
    ExitApp,
    OpenWebPage(String),
    OpenAnnotationWindow,
    /// Start the manual SDP exchange, on the caster's side or the
    /// receiver's (the receiver also attaches its video)
    ExchangeSdp(bool),
    CopyToClipboard(String),
    ToggleAudioMute,
}

/// The main window's state after `event`.
pub open spec fn main_state_after<K>(state: MainWindowState<K>, event: MainEvent<K>) -> MainWindowState<K> {
    let nav = state.nav;
    let shown = |page: Page| PageNavigation { page, prev_page: nav.page };
    match event {
        MainEvent::Home => MainWindowState {
            nav: shown(Page::Home),
            popup: None,
            mode: None,
            updating_hotkey: None,
            ..state
        },
        MainEvent::ModeCaster => MainWindowState {
            nav: shown(Page::Caster),
            mode: Some(AppMode::Caster),
            ..state
        },
        MainEvent::ModeReceiver => MainWindowState {
            popup: Some(PopupKind::CasterAddress),
            mode: Some(AppMode::Receiver),
            ..state
        },
        MainEvent::ClosePopup(page) => MainWindowState {
            nav: PageNavigation {
                page: match page {
                    Some(p) => p,
                    None => nav.page,
                },
                prev_page: nav.prev_page,
            },
            popup: None,
            ..state
        },
        MainEvent::ConnectToCaster(_) => MainWindowState {
            nav: shown(Page::Client),
            popup: None,
            ..state
        },
        MainEvent::HotkeysPage => MainWindowState { nav: shown(Page::Hotkeys), ..state },
        MainEvent::HotkeysTypePage(k) => MainWindowState {
            popup: Some(PopupKind::HotkeyUpdate(k)),
            updating_hotkey: Some(k),
            ..state
        },
        MainEvent::OpenInfo => MainWindowState { nav: info_toggled(nav), ..state },
        MainEvent::ThemeUpdate(theme) => MainWindowState { theme, ..state },
        MainEvent::ShowSdp => match state.mode {
            Some(AppMode::Caster) => MainWindowState {
                popup: Some(PopupKind::ManualSdp(true)),
                ..state
            },
            Some(AppMode::Receiver) => MainWindowState {
                nav: PageNavigation { page: Page::Client, prev_page: nav.prev_page },
                popup: Some(PopupKind::ManualSdp(false)),
                ..state
            },
            None => state,
        },
        _ => state,
    }
}

/// Whether `action` is what the application is asked to do after `event`,
/// with `port` the caster's service port.
pub open spec fn main_action_for<K>(
    state: MainWindowState<K>,
    event: MainEvent<K>,
    port: u16,
    action: MainAction,
) -> bool {
    match event {
        MainEvent::CasterToggleStreaming => action is CasterToggleStreaming,
        MainEvent::CasterChangeDisplay(i) => if state.mode == Some(AppMode::Caster) {
            action matches MainAction::ChangeDisplay(j) && j == i
        } else {
            action is Nothing
        },
        MainEvent::PopupMessage => action is UpdatePopup,
        MainEvent::ConnectToCaster(ip) => if state.mode == Some(AppMode::Receiver) {
            action matches MainAction::ConnectReceiver(a) && if ip@ == "auto"@ {
                a is None
            } else {
                a matches Some(addr) && addr@ == caster_address_text(ip@, port)
            }
        } else {
            action is Nothing
        },
        MainEvent::SaveCapture => if state.mode == Some(AppMode::Receiver) {
            action is SaveCapture
        } else {
            action is Nothing
        },
        MainEvent::SaveCaptureStop => if state.mode == Some(AppMode::Receiver) {
            action is SaveCaptureStop
        } else {
            action is Nothing
        },
        MainEvent::AreaSelection => action is OpenAreaSelectionWindow,
        MainEvent::AreaSelectedFullScreen => action is AreaSelectedFullScreen,
        MainEvent::ExitApp => action is ExitApp,
        MainEvent::OpenWebPage(url) => action matches MainAction::OpenWebPage(u) && u@ == url@,
        MainEvent::ShowAnnotationWindow => action is OpenAnnotationWindow,
        MainEvent::ShowSdp => match state.mode {
            Some(AppMode::Caster) => action matches MainAction::ExchangeSdp(c) && c,
            Some(AppMode::Receiver) => action matches MainAction::ExchangeSdp(c) && !c,
            None => action is Nothing,
        },
        MainEvent::CopyToClipboard(text) => action matches MainAction::CopyToClipboard(t) && t@
            == text@,
        MainEvent::ToggleAudioMute => action is ToggleAudioMute,
        _ => action is Nothing,
    }
}

/// One event of the main window: its new state, and what the application
/// is asked to do, with `port` the caster's service port.
pub fn main_window_step<K: Copy>(state: MainWindowState<K>, event: MainEvent<K>, port: u16) -> (r: (
    MainWindowState<K>,
    MainAction,
))
    ensures
        r.0 == main_state_after(state, event),
        main_action_for(state, event, port, r.1),
{
    let nav = state.nav;
    match event {
        MainEvent::Home => {
            let mut nav = nav;
            nav.change_page(Page::Home);
            (
                MainWindowState { nav, popup: None, mode: None, updating_hotkey: None, ..state },
                MainAction::Nothing,
            )
        },
        MainEvent::ModeCaster => {
            let mut nav = nav;
            nav.change_page(Page::Caster);
            (MainWindowState { nav, mode: Some(AppMode::Caster), ..state }, MainAction::Nothing)
        },
        MainEvent::ModeReceiver => (
            MainWindowState {
                popup: Some(PopupKind::CasterAddress),
                mode: Some(AppMode::Receiver),
                ..state
            },
            MainAction::Nothing,
        ),
        MainEvent::CasterToggleStreaming => (state, MainAction::CasterToggleStreaming),
        MainEvent::CasterChangeDisplay(i) => {
            let action = match state.mode {
                Some(AppMode::Caster) => MainAction::ChangeDisplay(i),
                _ => MainAction::Nothing,
            };
            (state, action)
        },
        MainEvent::PopupMessage => (state, MainAction::UpdatePopup),
        MainEvent::ClosePopup(page) => {
            let mut nav = nav;
            nav.close_popup(page);
            (MainWindowState { nav, popup: None, ..state }, MainAction::Nothing)
        },
        MainEvent::ConnectToCaster(ip) => {
            let mut nav = nav;
            nav.change_page(Page::Client);
            let next = MainWindowState { nav, popup: None, ..state };
            let action = match state.mode {
                Some(AppMode::Receiver) => {
                    if is_auto(ip.as_str()) {
                        MainAction::ConnectReceiver(None)
                    } else {
                        MainAction::ConnectReceiver(Some(caster_address(ip.as_str(), port)))
                    }
                },
                _ => MainAction::Nothing,
            };
            (next, action)
        },
        MainEvent::SaveCapture => {
            let action = match state.mode {
                Some(AppMode::Receiver) => MainAction::SaveCapture,
                _ => MainAction::Nothing,
            };
            (state, action)
        },
        MainEvent::SaveCaptureStop => {
            let action = match state.mode {
                Some(AppMode::Receiver) => MainAction::SaveCaptureStop,
                _ => MainAction::Nothing,
            };
            (state, action)
        },
        MainEvent::HotkeysPage => {
            let mut nav = nav;
            nav.change_page(Page::Hotkeys);
            (MainWindowState { nav, ..state }, MainAction::Nothing)
        },
        MainEvent::HotkeysTypePage(k) => {
            (
                MainWindowState {
                    popup: Some(PopupKind::HotkeyUpdate(k)),
                    updating_hotkey: Some(k),
                    ..state
                },
                MainAction::Nothing,
            )
        },
        MainEvent::AreaSelection => (state, MainAction::OpenAreaSelectionWindow),
        MainEvent::AreaSelectedFullScreen => (state, MainAction::AreaSelectedFullScreen),
        MainEvent::ExitApp => (state, MainAction::ExitApp),
        MainEvent::OpenWebPage(url) => (state, MainAction::OpenWebPage(url)),
        MainEvent::ThemeUpdate(theme) => (MainWindowState { theme, ..state }, MainAction::Nothing),
        MainEvent::ShowAnnotationWindow => (state, MainAction::OpenAnnotationWindow),
        MainEvent::OpenInfo => {
            let mut nav = nav;
            nav.toggle_info();
            (MainWindowState { nav, ..state }, MainAction::Nothing)
        },
        MainEvent::Ignore => (state, MainAction::Nothing),
        MainEvent::ShowSdp => match state.mode {
            Some(AppMode::Caster) => (
                MainWindowState { popup: Some(PopupKind::ManualSdp(true)), ..state },
                MainAction::ExchangeSdp(true),
            ),
            Some(AppMode::Receiver) => (
                MainWindowState {
                    nav: PageNavigation { page: Page::Client, prev_page: nav.prev_page },
                    popup: Some(PopupKind::ManualSdp(false)),
                    ..state
                },
                MainAction::ExchangeSdp(false),
            ),
            None => (state, MainAction::Nothing),
        },
        MainEvent::CopyToClipboard(text) => (state, MainAction::CopyToClipboard(text)),
        MainEvent::ToggleAudioMute => (state, MainAction::ToggleAudioMute),
    }
}


/// The info button of the main window, from a page P other than Info:
/// it shows Info and remembers P; pressed again it shows P, with P still
/// remembered. Popup, mode, theme and shortcut editing stay as they are.
pub proof fn law_main_window_info_round_trip<K>(state: MainWindowState<K>)
    requires
        state.nav.page != Page::Info,
    ensures
        ({
            let once = main_state_after(state, MainEvent::OpenInfo);
            let twice = main_state_after(once, MainEvent::OpenInfo);
            &&& once.nav == (PageNavigation { page: Page::Info, prev_page: state.nav.page })
            &&& twice.nav == (PageNavigation { page: state.nav.page, prev_page: state.nav.page })
            &&& twice == (MainWindowState { nav: twice.nav, ..state })
        }),
{
    law_info_round_trip(state.nav);
}


/// Where each navigation event leads, from any state: Home shows the home
/// page and forgets the mode, the popup and the shortcut being edited;
/// choosing caster mode shows the caster page; choosing receiver mode keeps
/// the page and asks for the caster's address; connecting shows the client
/// page; the shortcuts button shows the shortcuts page. Each page change
/// remembers the page left.
pub proof fn law_main_window_navigation<K>(state: MainWindowState<K>, ip: String, k: K)
    ensures
        ({
            let home = main_state_after(state, MainEvent::Home);
            &&& home.nav == (PageNavigation { page: Page::Home, prev_page: state.nav.page })
            &&& home.mode is None && home.popup is None && home.updating_hotkey is None
            &&& home.theme == state.theme
        }),
        ({
            let caster = main_state_after(state, MainEvent::ModeCaster);
            &&& caster.nav == (PageNavigation { page: Page::Caster, prev_page: state.nav.page })
            &&& caster.mode == Some(AppMode::Caster)
            &&& caster.popup == state.popup
        }),
        ({
            let receiver = main_state_after(state, MainEvent::ModeReceiver);
            &&& receiver.nav == state.nav
            &&& receiver.mode == Some(AppMode::Receiver)
            &&& receiver.popup == Some(PopupKind::<K>::CasterAddress)
        }),
        ({
            let connected = main_state_after(state, MainEvent::ConnectToCaster(ip));
            &&& connected.nav == (PageNavigation { page: Page::Client, prev_page: state.nav.page })
            &&& connected.popup is None
            &&& connected.mode == state.mode
        }),
        main_state_after(state, MainEvent::HotkeysPage).nav == (PageNavigation {
            page: Page::Hotkeys,
            prev_page: state.nav.page,
        }),
        ({
            let editing = main_state_after(state, MainEvent::HotkeysTypePage(k));
            &&& editing.nav == state.nav
            &&& editing.updating_hotkey == Some(k)
            &&& editing.popup == Some(PopupKind::HotkeyUpdate(k))
        }),
{
}

} // verus!
