//! The state of the terminal dashboard that displays the live feed: its
//! tabs, the last reading, bounded logs, and how feed events and keys change
//! them. Drawing it is left to the program that shows it.

use vstd::prelude::*;
use std::collections::VecDeque;
use crate::hub::texts;
use crate::text::{
    decimal, has_prefix, lemma_split_nonempty, push_nat_decimal, push_str, split_on, split_str,
    starts_with,
};

verus! {

/// The dashboard's tabs, in display order.
#[derive(Debug, Clone, Copy, PartialEq, Eq, Structural)]
pub enum Tab {
    Monitor,
    History,
    Connection,
    Log,
    Help,
}

/// The tabs in display order.
pub open spec fn tab_order() -> Seq<Tab> {
    seq![Tab::Monitor, Tab::History, Tab::Connection, Tab::Log, Tab::Help]
}

/// The position of a tab in display order.
pub open spec fn tab_index(t: Tab) -> int {
    match t {
        Tab::Monitor => 0,
        Tab::History => 1,
        Tab::Connection => 2,
        Tab::Log => 3,
        Tab::Help => 4,
    }
}

pub open spec fn tab_title(t: Tab) -> Seq<char> {
    match t {
        Tab::Monitor => "Monitor"@,
        Tab::History => "History"@,
        Tab::Connection => "Connection"@,
        Tab::Log => "Log"@,
        Tab::Help => "Help"@,
    }
}

impl Tab {
    pub fn all() -> (r: Vec<Tab>)
        ensures
            r@ == tab_order(),
    {
        let r = vec![Tab::Monitor, Tab::History, Tab::Connection, Tab::Log, Tab::Help];
        assert(r@ =~= tab_order());
        r
    }

    pub fn title(&self) -> (r: &'static str)
        ensures
            r@ == tab_title(*self),
    {
        match self {
            Tab::Monitor => "Monitor",
            Tab::History => "History",
            Tab::Connection => "Connection",
            Tab::Log => "Log",
            Tab::Help => "Help",
        }
    }

    /// The tab after this one, wrapping from the last to the first.
    pub fn next(&self) -> (r: Tab)
        ensures
            r == tab_order()[(tab_index(*self) + 1) % 5],
    {
        match self {
            Tab::Monitor => Tab::History,
            Tab::History => Tab::Connection,
            Tab::Connection => Tab::Log,
            Tab::Log => Tab::Help,
            Tab::Help => Tab::Monitor,
        }
    }

    /// The tab before this one, wrapping from the first to the last.
    pub fn prev(&self) -> (r: Tab)
        ensures
            r == tab_order()[(tab_index(*self) + 4) % 5],
    {
        match self {
            Tab::Monitor => Tab::Help,
            Tab::History => Tab::Monitor,
            Tab::Connection => Tab::History,
            Tab::Log => Tab::Connection,
            Tab::Help => Tab::Log,
        }
    }
}

/// The last controller reading shown: per direction 0 for no input, 1 for
/// low, 2 for high.
#[derive(Debug, Clone, Copy, PartialEq, Eq, Structural)]
pub struct ControllerState {
    pub left: u8,
    pub right: u8,
    pub up: u8,
    pub down: u8,
}

impl Default for ControllerState {
    fn default() -> (r: Self)
        ensures
            r == (ControllerState { left: 0, right: 0, up: 0, down: 0 }),
    {
        ControllerState { left: 0, right: 0, up: 0, down: 0 }
    }
}

/// A message of the live feed, told apart by its `type` tag.
#[derive(Debug, Clone, Copy, PartialEq, Eq, Structural)]
pub enum WsMessage {
    ButtonInput { is_pushed: bool },
    ControllerInput { left: u8, right: u8, up: u8, down: u8 },
}

/// The scheme of a feed URL: `wss`, `ws`, or `unknown`.
pub open spec fn url_protocol(url: Seq<char>) -> Seq<char> {
    if has_prefix(url, "wss://"@) {
        "wss"@
    } else if has_prefix(url, "ws://"@) {
        "ws"@
    } else {
        "unknown"@
    }
}

/// A feed URL without its `wss://` or `ws://` prefix.
pub open spec fn url_rest(url: Seq<char>) -> Seq<char> {
    if has_prefix(url, "wss://"@) {
        url.subrange("wss://"@.len() as int, url.len() as int)
    } else if has_prefix(url, "ws://"@) {
        url.subrange("ws://"@.len() as int, url.len() as int)
    } else {
        url
    }
}

/// The host of a feed URL: what comes before the first `:`.
pub open spec fn url_host(url: Seq<char>) -> Seq<char> {
    split_on(url_rest(url), ':')[0]
}

/// The port of a feed URL: what follows the first `:` up to the next `:` or
/// `/`; `unknown` without a `:`.
pub open spec fn url_port(url: Seq<char>) -> Seq<char> {
    let parts = split_on(url_rest(url), ':');
    if parts.len() > 1 {
        split_on(parts[1], '/')[0]
    } else {
        "unknown"@
    }
}

/// Splits a feed URL such as `ws://127.0.0.1:8080/ws` into its protocol,
/// host and port, for display.
pub fn parse_url(url: &str) -> (r: (String, String, String))
    ensures
        r.0@ == url_protocol(url@),
        r.1@ == url_host(url@),
        r.2@ == url_port(url@),
{
    let n = url.unicode_len();
    let (protocol, rest) = if starts_with(url, "wss://") {
        ("wss".to_string(), url.substring_char("wss://".unicode_len(), n))
    } else if starts_with(url, "ws://") {
        ("ws".to_string(), url.substring_char("ws://".unicode_len(), n))
    } else {
        ("unknown".to_string(), url)
    };
    let parts = split_str(rest, ':');
    proof {
        lemma_split_nonempty(rest@, ':');
        assert(parts@.map_values(|t: &str| t@)[0] == parts@[0]@);
    }
    let host = parts[0].to_string();
    let port = if parts.len() > 1 {
        let pieces = split_str(parts[1], '/');
        proof {
            lemma_split_nonempty(parts@[1]@, '/');
            assert(parts@.map_values(|t: &str| t@)[1] == parts@[1]@);
            assert(pieces@.map_values(|t: &str| t@)[0] == pieces@[0]@);
        }
        pieces[0].to_string()
    } else {
        "unknown".to_string()
    };
    (protocol, host, port)
}

/// The newest entries that each dashboard log keeps.
pub const LOG_LIMIT: usize = 100;

/// `log` with `entry` added and, past the limit, its oldest entry dropped.
pub open spec fn bounded_append(log: Seq<Seq<char>>, entry: Seq<char>) -> Seq<Seq<char>> {
    if log.len() + 1 > LOG_LIMIT {
        log.push(entry).drop_first()
    } else {
        log.push(entry)
    }
}

/// A log entry: `[<timestamp>] <message>`.
pub open spec fn log_entry(timestamp: Seq<char>, message: Seq<char>) -> Seq<char> {
    "["@ + timestamp + "] "@ + message
}

/// The history line for a reading, the button state padded to eight columns.
pub open spec fn status_line(pushed: bool, c: ControllerState) -> Seq<char> {
    "Button: "@ + (if pushed {
        "PUSHED  "@
    } else {
        "RELEASED"@
    }) + " | Controller: L="@ + decimal(c.left as int) + " R="@ + decimal(c.right as int) + " U="@
        + decimal(c.up as int) + " D="@ + decimal(c.down as int)
}

pub open spec fn count_inc(n: usize) -> usize {
    if n < usize::MAX {
        (n + 1) as usize
    } else {
        n
    }
}

/// What the feed connection reported.
#[derive(Debug, Clone)]
pub enum FeedEvent {
    Connected,
    Disconnected,
    Message(WsMessage),
    /// A text that is no feed message.
    Unreadable(String),
}

/// A key press, as far as the dashboard tells keys apart.
#[derive(Debug, Clone, Copy, PartialEq, Eq, Structural)]
pub enum Key {
    Esc,
    Char(char),
    Tab,
    BackTab,
    Left,
    Right,
    Other,
}

/// Escape and `q` quit.
pub open spec fn is_quit_key(key: Key) -> bool {
    key == Key::Esc || key == Key::Char('q') || key == Key::Char('Q')
}

/// The tab shown after `key`: `1` to `5` pick a tab, Tab and Right go to the
/// next one, Shift+Tab and Left to the previous one.
pub open spec fn tab_after_key(tab: Tab, key: Key) -> Tab {
    match key {
        Key::Char(c) => if c == '1' {
            Tab::Monitor
        } else if c == '2' {
            Tab::History
        } else if c == '3' {
            Tab::Connection
        } else if c == '4' {
            Tab::Log
        } else if c == '5' {
            Tab::Help
        } else {
            tab
        },
        Key::Tab | Key::Right => tab_order()[(tab_index(tab) + 1) % 5],
        Key::BackTab | Key::Left => tab_order()[(tab_index(tab) + 4) % 5],
        _ => tab,
    }
}

/// What the dashboard shows.
pub struct AppState {
    pub current_tab: Tab,
    pub button_pushed: bool,
    pub controller: ControllerState,
    /// Feed history, oldest first, at most `LOG_LIMIT` entries kept.
    pub message_log: VecDeque<String>,
    /// The program's own log lines, oldest first, at most `LOG_LIMIT` kept.
    pub log_messages: VecDeque<String>,
    pub ws_url: String,
    pub is_connected: bool,
    /// Feed messages received, counting unreadable ones.
    pub message_count: usize,
}

impl AppState {
    pub fn new(ws_url: String) -> (r: Self)
        ensures
            r.current_tab == Tab::Monitor,
            !r.button_pushed,
            r.controller == (ControllerState { left: 0, right: 0, up: 0, down: 0 }),
            r.message_log@.len() == 0,
            r.log_messages@.len() == 0,
            r.ws_url == ws_url,
            !r.is_connected,
            r.message_count == 0,
    {
        AppState {
            current_tab: Tab::Monitor,
            button_pushed: false,
            controller: ControllerState::default(),
            message_log: VecDeque::new(),
            log_messages: VecDeque::new(),
            ws_url,
            is_connected: false,
            message_count: 0,
        }
    }

    pub fn next_tab(&mut self)
        ensures
            final(self).current_tab == tab_order()[(tab_index(old(self).current_tab) + 1) % 5],
            final(self).button_pushed == old(self).button_pushed,
            final(self).controller == old(self).controller,
            final(self).message_log@ == old(self).message_log@,
            final(self).log_messages@ == old(self).log_messages@,
            final(self).ws_url == old(self).ws_url,
            final(self).is_connected == old(self).is_connected,
            final(self).message_count == old(self).message_count,
    {
        self.current_tab = self.current_tab.next();
    }

    pub fn prev_tab(&mut self)
        ensures
            final(self).current_tab == tab_order()[(tab_index(old(self).current_tab) + 4) % 5],
            final(self).button_pushed == old(self).button_pushed,
            final(self).controller == old(self).controller,
            final(self).message_log@ == old(self).message_log@,
            final(self).log_messages@ == old(self).log_messages@,
            final(self).ws_url == old(self).ws_url,
            final(self).is_connected == old(self).is_connected,
            final(self).message_count == old(self).message_count,
    {
        self.current_tab = self.current_tab.prev();
    }

    /// Adds `[timestamp] message` to the feed history, dropping the oldest
    /// entry past `LOG_LIMIT`.
    pub fn add_log(&mut self, timestamp: &str, message: &str)
        ensures
            texts(final(self).message_log@) == bounded_append(
                texts(old(self).message_log@),
                log_entry(timestamp@, message@),
            ),
            final(self).current_tab == old(self).current_tab,
            final(self).button_pushed == old(self).button_pushed,
            final(self).controller == old(self).controller,
            final(self).log_messages@ == old(self).log_messages@,
            final(self).ws_url == old(self).ws_url,
            final(self).is_connected == old(self).is_connected,
            final(self).message_count == old(self).message_count,
    {
        let mut entry = String::new();
        push_str(&mut entry, "[");
        push_str(&mut entry, timestamp);
        push_str(&mut entry, "] ");
        push_str(&mut entry, message);
        assert(entry@ =~= log_entry(timestamp@, message@));
        let ghost before = self.message_log@;
        self.message_log.push_back(entry);
        if self.message_log.len() > LOG_LIMIT {
            self.message_log.pop_front();
        }
        assert(texts(self.message_log@) =~= bounded_append(texts(before), entry@));
    }

    /// Adds a line to the program's own log, dropping the oldest line past
    /// `LOG_LIMIT`.
    pub fn add_log_message(&mut self, message: String)
        ensures
            texts(final(self).log_messages@) == bounded_append(
                texts(old(self).log_messages@),
                message@,
            ),
            final(self).current_tab == old(self).current_tab,
            final(self).button_pushed == old(self).button_pushed,
            final(self).controller == old(self).controller,
            final(self).message_log@ == old(self).message_log@,
            final(self).ws_url == old(self).ws_url,
            final(self).is_connected == old(self).is_connected,
            final(self).message_count == old(self).message_count,
    {
        let ghost before = self.log_messages@;
        let ghost text = message@;
        self.log_messages.push_back(message);
        if self.log_messages.len() > LOG_LIMIT {
            self.log_messages.pop_front();
        }
        assert(texts(self.log_messages@) =~= bounded_append(texts(before), text));
    }
}

fn status_text(pushed: bool, c: ControllerState) -> (r: String)
    ensures
        r@ == status_line(pushed, c),
{
    let mut out = String::new();
    push_str(&mut out, "Button: ");
    if pushed {
        push_str(&mut out, "PUSHED  ");
    } else {
        push_str(&mut out, "RELEASED");
    }
    push_str(&mut out, " | Controller: L=");
    push_nat_decimal(&mut out, c.left as u64);
    push_str(&mut out, " R=");
    push_nat_decimal(&mut out, c.right as u64);
    push_str(&mut out, " U=");
    push_nat_decimal(&mut out, c.up as u64);
    push_str(&mut out, " D=");
    push_nat_decimal(&mut out, c.down as u64);
    assert(out@ =~= status_line(pushed, c));
    out
}

/// Applies one feed event: a connection change is noted in the history; a
/// message updates the button or the controller reading, is counted, and
/// adds the new reading to the history; an unreadable text is counted and
/// noted.
pub fn handle_ws_message(app_state: &mut AppState, event: FeedEvent, timestamp: &str)
    ensures
        final(app_state).current_tab == old(app_state).current_tab,
        final(app_state).log_messages@ == old(app_state).log_messages@,
        final(app_state).ws_url == old(app_state).ws_url,
        ({
            let old_log = texts(old(app_state).message_log@);
            let new_log = texts(final(app_state).message_log@);
            let old_count = old(app_state).message_count;
            match event {
                FeedEvent::Connected => {
                    &&& final(app_state).is_connected
                    &&& new_log == bounded_append(
                        old_log,
                        log_entry(timestamp@, "Connected to WebSocket server"@),
                    )
                    &&& final(app_state).message_count == old_count
                    &&& final(app_state).button_pushed == old(app_state).button_pushed
                    &&& final(app_state).controller == old(app_state).controller
                },
                FeedEvent::Disconnected => {
                    &&& !final(app_state).is_connected
                    &&& new_log == bounded_append(
                        old_log,
                        log_entry(timestamp@, "Disconnected from WebSocket server"@),
                    )
                    &&& final(app_state).message_count == old_count
                    &&& final(app_state).button_pushed == old(app_state).button_pushed
                    &&& final(app_state).controller == old(app_state).controller
                },
                FeedEvent::Message(WsMessage::ButtonInput { is_pushed }) => {
                    &&& final(app_state).button_pushed == is_pushed
                    &&& final(app_state).controller == old(app_state).controller
                    &&& final(app_state).is_connected == old(app_state).is_connected
                    &&& final(app_state).message_count == count_inc(old_count)
                    &&& new_log == bounded_append(
                        old_log,
                        log_entry(timestamp@, status_line(is_pushed, old(app_state).controller)),
                    )
                },
                FeedEvent::Message(WsMessage::ControllerInput { left, right, up, down }) => {
                    let c = ControllerState { left, right, up, down };
                    &&& final(app_state).controller == c
                    &&& final(app_state).button_pushed == old(app_state).button_pushed
                    &&& final(app_state).is_connected == old(app_state).is_connected
                    &&& final(app_state).message_count == count_inc(old_count)
                    &&& new_log == bounded_append(
                        old_log,
                        log_entry(timestamp@, status_line(old(app_state).button_pushed, c)),
                    )
                },
                FeedEvent::Unreadable(text) => {
                    &&& final(app_state).button_pushed == old(app_state).button_pushed
                    &&& final(app_state).controller == old(app_state).controller
                    &&& final(app_state).is_connected == old(app_state).is_connected
                    &&& final(app_state).message_count == count_inc(old_count)
                    &&& new_log == bounded_append(
                        old_log,
                        log_entry(timestamp@, "Parse error: "@ + text@),
                    )
                },
            }
        }),
{
    match event {
        FeedEvent::Connected => {
            app_state.is_connected = true;
            app_state.add_log(timestamp, "Connected to WebSocket server");
        },
        FeedEvent::Disconnected => {
            app_state.is_connected = false;
            app_state.add_log(timestamp, "Disconnected from WebSocket server");
        },
        FeedEvent::Message(msg) => {
            if app_state.message_count < usize::MAX {
                app_state.message_count = app_state.message_count + 1;
            }
            match msg {
                WsMessage::ButtonInput { is_pushed } => {
                    app_state.button_pushed = is_pushed;
                    let line = status_text(is_pushed, app_state.controller);
                    app_state.add_log(timestamp, line.as_str());
                },
                WsMessage::ControllerInput { left, right, up, down } => {
                    app_state.controller = ControllerState { left, right, up, down };
                    let line = status_text(app_state.button_pushed, app_state.controller);
                    app_state.add_log(timestamp, line.as_str());
                },
            }
        },
        FeedEvent::Unreadable(text) => {
            if app_state.message_count < usize::MAX {
                app_state.message_count = app_state.message_count + 1;
            }
            let mut line = String::new();
            push_str(&mut line, "Parse error: ");
            push_str(&mut line, text.as_str());
            app_state.add_log(timestamp, line.as_str());
        },
    }
}

/// Applies one key press; returns whether the dashboard should quit.
pub fn handle_key_event(app_state: &mut AppState, key: Key) -> (quit: bool)
    ensures
        quit == is_quit_key(key),
        final(app_state).current_tab == if quit {
            old(app_state).current_tab
        } else {
            tab_after_key(old(app_state).current_tab, key)
        },
        final(app_state).button_pushed == old(app_state).button_pushed,
        final(app_state).controller == old(app_state).controller,
        final(app_state).message_log@ == old(app_state).message_log@,
        final(app_state).log_messages@ == old(app_state).log_messages@,
        final(app_state).ws_url == old(app_state).ws_url,
        final(app_state).is_connected == old(app_state).is_connected,
        final(app_state).message_count == old(app_state).message_count,
{
    match key {
        Key::Esc => return true,
        Key::Char(c) => {
            if c == 'q' || c == 'Q' {
                return true;
            } else if c == '1' {
                app_state.current_tab = Tab::Monitor;
            } else if c == '2' {
                app_state.current_tab = Tab::History;
            } else if c == '3' {
                app_state.current_tab = Tab::Connection;
            } else if c == '4' {
                app_state.current_tab = Tab::Log;
            } else if c == '5' {
                app_state.current_tab = Tab::Help;
            }
        },
        Key::Tab | Key::Right => app_state.next_tab(),
        Key::BackTab | Key::Left => app_state.prev_tab(),
        Key::Other => {},
    }
    false
}

} // verus!
