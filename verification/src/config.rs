//! Settings of the supervisor and their defaults.

use vstd::prelude::*;
use vstd::string::*;

verus! {

/// The local TCP endpoint that is probed for a listener: an IPv4 address
/// and a port.
#[derive(Clone, Copy, Debug, PartialEq, Eq, Structural)]
pub struct ListenAddr {
    pub a: u8,
    pub b: u8,
    pub c: u8,
    pub d: u8,
    pub port: u16,
}

/// One decimal digit as text.
pub open spec fn digit(d: nat) -> Seq<char>
    recommends
        d < 10,
{
    if d == 0 {
        "0"@
    } else if d == 1 {
        "1"@
    } else if d == 2 {
        "2"@
    } else if d == 3 {
        "3"@
    } else if d == 4 {
        "4"@
    } else if d == 5 {
        "5"@
    } else if d == 6 {
        "6"@
    } else if d == 7 {
        "7"@
    } else if d == 8 {
        "8"@
    } else {
        "9"@
    }
}

/// A number in decimal, without leading zeros.
pub open spec fn decimal(n: nat) -> Seq<char>
    decreases n,
{
    if n < 10 {
        digit(n)
    } else {
        decimal(n / 10) + digit(n % 10)
    }
}

fn digit_text(d: u16) -> (text: &'static str)
    requires
        d < 10,
    ensures
        text@ == digit(d as nat),
{
    if d == 0 {
        "0"
    } else if d == 1 {
        "1"
    } else if d == 2 {
        "2"
    } else if d == 3 {
        "3"
    } else if d == 4 {
        "4"
    } else if d == 5 {
        "5"
    } else if d == 6 {
        "6"
    } else if d == 7 {
        "7"
    } else if d == 8 {
        "8"
    } else {
        "9"
    }
}

fn append_decimal(out: &mut String, n: u16)
    ensures
        final(out)@ == old(out)@ + decimal(n as nat),
    decreases n,
{
    if n >= 10 {
        append_decimal(out, n / 10);
    }
    out.append(digit_text(n % 10));
    proof {
        assert(old(out)@ + (decimal(n as nat / 10) + digit(n as nat % 10)) =~= old(out)@ + decimal(
            n as nat / 10,
        ) + digit(n as nat % 10));
    }
}

impl ListenAddr {
    /// The endpoint as it stands in a URL: the four parts of the address
    /// with dots between them, a colon, the port.
    pub open spec fn text(self) -> Seq<char> {
        decimal(self.a as nat) + "."@ + decimal(self.b as nat) + "."@ + decimal(self.c as nat)
            + "."@ + decimal(self.d as nat) + ":"@ + decimal(self.port as nat)
    }

    /// The endpoint as text.
    pub fn endpoint(&self) -> (text: String)
        ensures
            text@ == self.text(),
    {
        let mut text = String::new();
        append_decimal(&mut text, self.a as u16);
        text.append(".");
        append_decimal(&mut text, self.b as u16);
        text.append(".");
        append_decimal(&mut text, self.c as u16);
        text.append(".");
        append_decimal(&mut text, self.d as u16);
        text.append(":");
        append_decimal(&mut text, self.port);
        proof {
            assert(text@ =~= self.text());
        }
        text
    }
}

/// The endpoint of the backend: `127.0.0.1:37123`.
pub open spec fn default_listen_addr() -> ListenAddr {
    ListenAddr { a: 127, b: 0, c: 0, d: 1, port: 37123 }
}

/// The URL of the backend where none is configured.
pub open spec fn default_url() -> Seq<char> {
    "http://127.0.0.1:37123"@
}

/// The fixed endpoint that is probed for a listener.
pub fn backend_listen_addr() -> (addr: ListenAddr)
    ensures
        addr == default_listen_addr(),
{
    ListenAddr { a: 127, b: 0, c: 0, d: 1, port: 37123 }
}

/// The URL that is reported by default and the address that is probed name
/// the same endpoint.
pub proof fn default_url_names_listen_addr()
    ensures
        default_url() == "http://"@ + default_listen_addr().text(),
{
    reveal_strlit("http://127.0.0.1:37123");
    reveal_strlit("http://");
    reveal_strlit(".");
    reveal_strlit(":");
    reveal_strlit("0");
    reveal_strlit("1");
    reveal_strlit("2");
    reveal_strlit("3");
    reveal_strlit("7");
    reveal_with_fuel(decimal, 6);
    assert(decimal(127) =~= seq!['1', '2', '7']);
    assert(decimal(0) =~= seq!['0']);
    assert(decimal(1) =~= seq!['1']);
    assert(decimal(37123) =~= seq!['3', '7', '1', '2', '3']);
    assert(default_url() =~= "http://"@ + default_listen_addr().text());
}

/// The settings that the host may supply.
#[derive(Clone, Copy, Debug, PartialEq, Eq, Structural)]
pub enum Setting {
    BackendUrl,
    BackendCommand,
    AllowOrigins,
    Autostart,
}

/// The name under which the host looks a setting up.
pub fn setting_name(setting: Setting) -> (name: String)
    ensures
        name@ == match setting {
            Setting::BackendUrl => "AGENT_STUDIO_BACKEND_URL"@,
            Setting::BackendCommand => "AGENT_STUDIO_BACKEND_CMD"@,
            Setting::AllowOrigins => "AGENT_STUDIO_ALLOW_CORS_ORIGINS"@,
            Setting::Autostart => "AGENT_STUDIO_AUTOSTART_BACKEND"@,
        },
{
    match setting {
        Setting::BackendUrl => String::from_str("AGENT_STUDIO_BACKEND_URL"),
        Setting::BackendCommand => String::from_str("AGENT_STUDIO_BACKEND_CMD"),
        Setting::AllowOrigins => String::from_str("AGENT_STUDIO_ALLOW_CORS_ORIGINS"),
        Setting::Autostart => String::from_str("AGENT_STUDIO_AUTOSTART_BACKEND"),
    }
}

/// What a setting resolves to: the configured text where there is one,
/// else the default.
pub open spec fn resolved(configured: Option<Seq<char>>, default: Seq<char>) -> Seq<char> {
    match configured {
        Some(text) => text,
        None => default,
    }
}

pub open spec fn view_of(configured: Option<String>) -> Option<Seq<char>> {
    match configured {
        Some(text) => Some(text@),
        None => None,
    }
}

fn resolve(configured: Option<String>, default: &str) -> (text: String)
    ensures
        text@ == resolved(view_of(configured), default@),
{
    match configured {
        Some(text) => text,
        None => String::from_str(default),
    }
}

/// The URL under which the backend is reported.
pub fn backend_url(configured: Option<String>) -> (url: String)
    ensures
        url@ == resolved(view_of(configured), default_url()),
{
    resolve(configured, "http://127.0.0.1:37123")
}

/// The command line that launches the backend, as the host shell reads it.
pub fn backend_command(configured: Option<String>) -> (command: String)
    ensures
        command@ == resolved(
            view_of(configured),
            "python -m uvicorn agent_studio_backend.api:app --host 127.0.0.1 --port 37123"@,
        ),
{
    resolve(
        configured,
        "python -m uvicorn agent_studio_backend.api:app --host 127.0.0.1 --port 37123",
    )
}

/// The list of origins that the backend is told to accept.
pub fn allow_origins(configured: Option<String>) -> (origins: String)
    ensures
        origins@ == resolved(view_of(configured), "*"@),
{
    resolve(configured, "*")
}

/// Whether a text switches a flag on: it is `1`, or the word `true` in any
/// mix of ASCII upper and lower case.
pub open spec fn is_affirmative(text: Seq<char>) -> bool {
    ||| text == seq!['1']
    ||| {
        &&& text.len() == 4
        &&& (text[0] == 't' || text[0] == 'T')
        &&& (text[1] == 'r' || text[1] == 'R')
        &&& (text[2] == 'u' || text[2] == 'U')
        &&& (text[3] == 'e' || text[3] == 'E')
    }
}

pub open spec fn autostart_of(configured: Option<Seq<char>>) -> bool {
    match configured {
        Some(text) => is_affirmative(text),
        None => false,
    }
}

pub open spec fn str_view_of(configured: Option<&str>) -> Option<Seq<char>> {
    match configured {
        Some(text) => Some(text@),
        None => None,
    }
}

/// Whether the backend is launched when the application starts. Off unless
/// the setting is present and affirmative.
pub fn autostart_enabled(configured: Option<&str>) -> (enabled: bool)
    ensures
        enabled == autostart_of(str_view_of(configured)),
{
    match configured {
        None => false,
        Some(text) => {
            let n: usize = text.unicode_len();
            if n == 1 {
                let c0 = text.get_char(0);
                assert(c0 == '1' ==> text@ =~= seq!['1']);
                c0 == '1'
            } else if n == 4 {
                let c0 = text.get_char(0);
                let c1 = text.get_char(1);
                let c2 = text.get_char(2);
                let c3 = text.get_char(3);
                (c0 == 't' || c0 == 'T') && (c1 == 'r' || c1 == 'R') && (c2 == 'u' || c2 == 'U')
                    && (c3 == 'e' || c3 == 'E')
            } else {
                false
            }
        },
    }
}

} // verus!
