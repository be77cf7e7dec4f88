//! What the service is told by its environment.

use crate::text::{decimal, digit_char};
use vstd::prelude::*;

verus! {

/// The variables that the service reads from its environment.
#[derive(Clone, Copy, Debug, PartialEq, Eq, Structural)]
pub enum Variable {
    /// The credential for the list provider.
    ApiKey,
    /// The list whose statistics are relayed.
    ListId,
    /// The chat webhook that takes the summary.
    WebhookUrl,
    /// Set, whatever its value, where the service runs in production.
    Production,
    /// The port to listen on, where it is not the default.
    Port,
}

impl Variable {
    /// The name of the variable in the environment.
    pub open spec fn name_text(self) -> Seq<char> {
        match self {
            Variable::ApiKey => "TOTORO_MAILCHIMP_APIKEY"@,
            Variable::ListId => "TOTORO_MAILCHIMP_LIST_ID"@,
            Variable::WebhookUrl => "TOTORO_BASECAMP_BOTURL"@,
            Variable::Production => "TOTORO_PRODUCTION"@,
            Variable::Port => "FUNCTIONS_CUSTOMHANDLER_PORT"@,
        }
    }

    pub fn name(self) -> (t: &'static str)
        ensures
            t@ == self.name_text(),
    {
        match self {
            Variable::ApiKey => "TOTORO_MAILCHIMP_APIKEY",
            Variable::ListId => "TOTORO_MAILCHIMP_LIST_ID",
            Variable::WebhookUrl => "TOTORO_BASECAMP_BOTURL",
            Variable::Production => "TOTORO_PRODUCTION",
            Variable::Port => "FUNCTIONS_CUSTOMHANDLER_PORT",
        }
    }
}

/// Where a finished summary goes.
#[derive(Debug)]
pub enum Notify {
    /// Outside production nothing is sent.
    DryRun,
    /// In production the summary is posted to the chat webhook at `url`.
    Live { url: String },
}

/// A `Notify` as plain data.
pub enum NotifyView {
    DryRun,
    Live { url: Seq<char> },
}

impl View for Notify {
    type V = NotifyView;

    open spec fn view(&self) -> NotifyView {
        match self {
            Notify::DryRun => NotifyView::DryRun,
            Notify::Live { url } => NotifyView::Live { url: url@ },
        }
    }
}

/// All that one run of the relay needs to know.
#[derive(Debug)]
pub struct Settings {
    /// The credential for the list provider.
    pub api_key: String,
    /// The list whose statistics are relayed.
    pub list_id: String,
    pub notify: Notify,
}

/// `Settings` as plain data.
pub struct SettingsView {
    pub api_key: Seq<char>,
    pub list_id: Seq<char>,
    pub notify: NotifyView,
}

impl View for Settings {
    type V = SettingsView;

    open spec fn view(&self) -> SettingsView {
        SettingsView { api_key: self.api_key@, list_id: self.list_id@, notify: self.notify@ }
    }
}

/// The value of a variable as plain data: its text, if it is set.
pub open spec fn value_view(value: Option<String>) -> Option<Seq<char>> {
    match value {
        Some(text) => Some(text@),
        None => None,
    }
}

/// The outcome of `resolve` as plain data.
pub open spec fn resolved_view(resolved: Result<Settings, Variable>) -> Result<
    SettingsView,
    Variable,
> {
    match resolved {
        Ok(settings) => Ok(settings@),
        Err(missing) => Err(missing),
    }
}

/// The settings of a run, from the values of the variables. The credential
/// and the list are always needed, the webhook only in production; the
/// first of them that is not set, in this order, is the error. Outside
/// production the webhook is not looked at.
pub open spec fn resolution(
    api_key: Option<Seq<char>>,
    list_id: Option<Seq<char>>,
    webhook_url: Option<Seq<char>>,
    production: bool,
) -> Result<SettingsView, Variable> {
    if api_key is None {
        Err(Variable::ApiKey)
    } else if list_id is None {
        Err(Variable::ListId)
    } else if production && webhook_url is None {
        Err(Variable::WebhookUrl)
    } else {
        Ok(
            SettingsView {
                api_key: api_key->0,
                list_id: list_id->0,
                notify: if production {
                    NotifyView::Live { url: webhook_url->0 }
                } else {
                    NotifyView::DryRun
                },
            },
        )
    }
}

/// Makes the settings of a run from the values of the variables, or names
/// the variable that is needed and not set.
pub fn resolve(
    api_key: Option<String>,
    list_id: Option<String>,
    webhook_url: Option<String>,
    production: bool,
) -> (resolved: Result<Settings, Variable>)
    ensures
        resolved_view(resolved) == resolution(
            value_view(api_key),
            value_view(list_id),
            value_view(webhook_url),
            production,
        ),
{
    let api_key = match api_key {
        Some(text) => text,
        None => { return Err(Variable::ApiKey); },
    };
    let list_id = match list_id {
        Some(text) => text,
        None => { return Err(Variable::ListId); },
    };
    let notify = if production {
        match webhook_url {
            Some(url) => Notify::Live { url },
            None => { return Err(Variable::WebhookUrl); },
        }
    } else {
        Notify::DryRun
    };
    Ok(Settings { api_key, list_id, notify })
}

/// The port that the service listens on where the environment names none.
pub const DEFAULT_PORT: u16 = 3000;

/// The digit that a character writes, if it writes one.
pub open spec fn digit_of(c: char) -> Option<nat> {
    if c == '0' {
        Some(0)
    } else if c == '1' {
        Some(1)
    } else if c == '2' {
        Some(2)
    } else if c == '3' {
        Some(3)
    } else if c == '4' {
        Some(4)
    } else if c == '5' {
        Some(5)
    } else if c == '6' {
        Some(6)
    } else if c == '7' {
        Some(7)
    } else if c == '8' {
        Some(8)
    } else if c == '9' {
        Some(9)
    } else {
        None
    }
}

/// Whether every character of `s` writes a digit.
pub open spec fn all_digits(s: Seq<char>) -> bool {
    forall|i: int| 0 <= i < s.len() ==> digit_of(#[trigger] s[i]) is Some
}

/// The number that a run of digits writes in decimal; leading zeros count
/// for nothing.
pub open spec fn number_of(s: Seq<char>) -> nat
    decreases s.len(),
{
    if s.len() == 0 {
        0
    } else {
        10 * number_of(s.drop_last()) + match digit_of(s.last()) {
            Some(d) => d,
            None => 0,
        }
    }
}

/// `s` without the plus sign that may stand in front of a number.
pub open spec fn unsigned_part(s: Seq<char>) -> Seq<char> {
    if s.len() > 0 && s[0] == '+' {
        s.subrange(1, s.len() as int)
    } else {
        s
    }
}

/// The port that a text names: the text is one or more decimal digits,
/// with or without a plus sign in front, and their number is at most 65535.
/// Any other text names no port.
pub open spec fn port_of(s: Seq<char>) -> Option<u16> {
    let digits = unsigned_part(s);
    if digits.len() > 0 && all_digits(digits) && number_of(digits) <= u16::MAX {
        Some(number_of(digits) as u16)
    } else {
        None
    }
}

/// The port to listen on: the default where the variable is not set, the
/// port that its value names where it is, and an error where the value
/// names none.
pub open spec fn listen_port_of(value: Option<Seq<char>>) -> Result<u16, InvalidPort> {
    match value {
        None => Ok(DEFAULT_PORT),
        Some(text) => match port_of(text) {
            Some(port) => Ok(port),
            None => Err(InvalidPort),
        },
    }
}

/// The value of the port variable is not a port number.
#[derive(Clone, Copy, Debug, PartialEq, Eq, Structural)]
pub struct InvalidPort;

fn digit_value(c: char) -> (d: Option<u32>)
    ensures
        match d {
            Some(v) => digit_of(c) == Some(v as nat),
            None => digit_of(c) is None,
        },
{
    if c == '0' {
        Some(0)
    } else if c == '1' {
        Some(1)
    } else if c == '2' {
        Some(2)
    } else if c == '3' {
        Some(3)
    } else if c == '4' {
        Some(4)
    } else if c == '5' {
        Some(5)
    } else if c == '6' {
        Some(6)
    } else if c == '7' {
        Some(7)
    } else if c == '8' {
        Some(8)
    } else if c == '9' {
        Some(9)
    } else {
        None
    }
}

/// A run of digits writes a number no smaller than any run that it starts
/// with.
proof fn number_grows(s: Seq<char>, k: int)
    requires
        0 <= k <= s.len(),
    ensures
        number_of(s.take(k)) <= number_of(s),
    decreases s.len() - k,
{
    if k < s.len() {
        number_grows(s, k + 1);
        assert(s.take(k + 1).drop_last() =~= s.take(k));
    } else {
        assert(s.take(k) =~= s);
    }
}

/// Reads a port number: decimal digits, with or without a plus sign in
/// front, that write a number of at most 65535.
pub fn parse_port(text: &str) -> (port: Option<u16>)
    ensures
        port == port_of(text@),
{
    let len = text.unicode_len();
    let start: usize = if len > 0 && text.get_char(0) == '+' {
        1
    } else {
        0
    };
    let ghost digits = unsigned_part(text@);
    assert(digits =~= text@.subrange(start as int, len as int));
    if start == len {
        return None;
    }
    let mut value: u32 = 0;
    let mut i: usize = start;
    while i < len
        invariant
            start <= i <= len,
            len == text@.len(),
            digits == text@.subrange(start as int, len as int),
            digits == unsigned_part(text@),
            all_digits(digits.take(i - start)),
            value == number_of(digits.take(i - start)),
            value <= u16::MAX,
        decreases len - i,
    {
        let ghost seen = digits.take(i - start);
        let ghost more = digits.take(i - start + 1);
        let c = text.get_char(i);
        assert(more.drop_last() =~= seen);
        assert(more.last() == c);
        assert(digits[i - start] == c);
        match digit_value(c) {
            None => {
                return None;
            },
            Some(d) => {
                value = value * 10 + d;
                assert(value == number_of(more));
                if value > 65535 {
                    proof {
                        number_grows(digits, i - start + 1);
                    }
                    return None;
                }
                assert forall|j: int| 0 <= j < more.len() implies digit_of(
                    #[trigger] more[j],
                ) is Some by {
                    if j < seen.len() {
                        assert(more[j] == seen[j]);
                    }
                }
            },
        }
        i = i + 1;
    }
    assert(digits.take(i - start) =~= digits);
    Some(value as u16)
}

/// Decides the port to listen on from the value of the port variable.
pub fn listen_port(value: Option<&str>) -> (port: Result<u16, InvalidPort>)
    ensures
        port == listen_port_of(
            match value {
                Some(text) => Some(text@),
                None => None,
            },
        ),
{
    match value {
        None => Ok(DEFAULT_PORT),
        Some(text) => match parse_port(text) {
            Some(port) => Ok(port),
            None => Err(InvalidPort),
        },
    }
}

/// The decimal numeral of a port is read back as that port.
pub proof fn port_reads_back(port: u16)
    ensures
        port_of(decimal(port as nat)) == Some(port),
{
    decimal_is_digits(port as nat);
    assert(digit_of(decimal(port as nat)[0]) is Some);
}

/// A decimal numeral is a run of one or more digits that writes its number.
pub proof fn decimal_is_digits(n: nat)
    ensures
        decimal(n).len() > 0,
        all_digits(decimal(n)),
        number_of(decimal(n)) == n,
    decreases n,
{
    digit_round_trip();
    if n < 10 {
        assert(decimal(n).drop_last() =~= Seq::<char>::empty());
        assert(number_of(decimal(n).drop_last()) == 0);
    } else {
        decimal_is_digits(n / 10);
        let high = decimal(n / 10);
        let all = decimal(n);
        assert(all.drop_last() =~= high);
        assert forall|i: int| 0 <= i < all.len() implies digit_of(#[trigger] all[i]) is Some by {
            if i < high.len() {
                assert(all[i] == high[i]);
            }
        }
    }
}

proof fn digit_round_trip()
    ensures
        forall|d: nat| d < 10 ==> digit_of(#[trigger] digit_char(d)) == Some(d),
{
}

/// The kind of deployment that the server is set up for.
#[derive(Clone, Copy, Debug, PartialEq, Eq, Structural)]
pub enum Environment {
    Development,
    Production,
}

/// How much the server logs.
#[derive(Clone, Copy, Debug, PartialEq, Eq, Structural)]
pub enum LogLevel {
    Normal,
    Debug,
}

/// How the server is started.
#[derive(Clone, Copy, Debug, PartialEq, Eq, Structural)]
pub struct ServerSettings {
    pub environment: Environment,
    /// Whether the server listens on the loopback address 127.0.0.1 only;
    /// otherwise it listens on every address of the host.
    pub loopback_only: bool,
    pub port: u16,
    pub log_level: LogLevel,
}

/// The server settings for a port and a deployment: in production a server
/// on every address of the host with normal logging; otherwise a
/// development server on the loopback address that logs for debugging.
pub open spec fn server_settings_for(port: u16, production: bool) -> ServerSettings {
    if production {
        ServerSettings {
            environment: Environment::Production,
            loopback_only: false,
            port,
            log_level: LogLevel::Normal,
        }
    } else {
        ServerSettings {
            environment: Environment::Development,
            loopback_only: true,
            port,
            log_level: LogLevel::Debug,
        }
    }
}

/// Decides how the server is started, from the value of the port variable
/// and from whether the production variable is set. A port value that names
/// no port is an error in either deployment.
pub fn server_settings(port_value: Option<&str>, production: bool) -> (settings: Result<
    ServerSettings,
    InvalidPort,
>)
    ensures
        settings == match listen_port_of(
            match port_value {
                Some(text) => Some(text@),
                None => None,
            },
        ) {
            Ok(port) => Ok(server_settings_for(port, production)),
            Err(e) => Err(e),
        },
{
    let port = match listen_port(port_value) {
        Ok(port) => port,
        Err(e) => { return Err(e); },
    };
    if production {
        Ok(
            ServerSettings {
                environment: Environment::Production,
                loopback_only: false,
                port,
                log_level: LogLevel::Normal,
            },
        )
    } else {
        Ok(
            ServerSettings {
                environment: Environment::Development,
                loopback_only: true,
                port,
                log_level: LogLevel::Debug,
            },
        )
    }
}

} // verus!
