use vstd::prelude::*;
use vstd::string::*;
use crate::text::{decimal, origin_port, push_decimal, last_index_of, all_digits, digits_value, digit_char, is_digit};

verus! {

/// Longest wait for a usable runtime descriptor, in milliseconds.
pub const DESCRIPTOR_TIMEOUT_MS: u64 = 45000;

/// Pause between two looks at the runtime descriptor, in milliseconds.
pub const DESCRIPTOR_POLL_MS: u64 = 200;

/// File name of the runtime descriptor inside the data directory.
pub const RUNTIME_FILE: &'static str = "runtime.json";

/// What the backend writes once it has bound its listening port.
#[derive(Clone, Debug, PartialEq, Eq)]
pub struct RuntimeDescriptor {
    /// Bound TCP port; zero while the backend has not bound yet.
    pub port: u16,
    /// Advisory bind address; never used to connect.
    pub addr: String,
    pub app_data_dir: String,
    pub log_dir: String,
}

pub struct DescriptorView {
    pub port: u16,
    pub addr: Seq<char>,
    pub app_data_dir: Seq<char>,
    pub log_dir: Seq<char>,
}

impl View for RuntimeDescriptor {
    type V = DescriptorView;

    open spec fn view(&self) -> DescriptorView {
        DescriptorView {
            port: self.port,
            addr: self.addr@,
            app_data_dir: self.app_data_dir@,
            log_dir: self.log_dir@,
        }
    }
}

/// How to reach a running backend; handed to the user interface.
#[derive(Clone, Debug, PartialEq, Eq)]
pub struct ConnectionInfo {
    pub origin: String,
    pub ws_url: String,
    pub log_dir: String,
    pub data_dir: String,
}

pub struct ConnectionInfoView {
    pub origin: Seq<char>,
    pub ws_url: Seq<char>,
    pub log_dir: Seq<char>,
    pub data_dir: Seq<char>,
}

impl View for ConnectionInfo {
    type V = ConnectionInfoView;

    open spec fn view(&self) -> ConnectionInfoView {
        ConnectionInfoView {
            origin: self.origin@,
            ws_url: self.ws_url@,
            log_dir: self.log_dir@,
            data_dir: self.data_dir@,
        }
    }
}

impl ConnectionInfo {
    /// A copy with the same contents.
    pub fn duplicate(&self) -> (r: ConnectionInfo)
        ensures
            r@ == self@,
    {
        ConnectionInfo {
            origin: self.origin.clone(),
            ws_url: self.ws_url.clone(),
            log_dir: self.log_dir.clone(),
            data_dir: self.data_dir.clone(),
        }
    }
}

/// `http://127.0.0.1:<port>`
pub open spec fn origin_text(port: nat) -> Seq<char> {
    "http://127.0.0.1:"@ + decimal(port)
}

/// `ws://127.0.0.1:<port>/ws`
pub open spec fn ws_url_text(port: nat) -> Seq<char> {
    "ws://127.0.0.1:"@ + decimal(port) + "/ws"@
}

/// The connection info that a valid descriptor yields.
pub open spec fn info_for(d: DescriptorView) -> ConnectionInfoView {
    ConnectionInfoView {
        origin: origin_text(d.port as nat),
        ws_url: ws_url_text(d.port as nat),
        log_dir: d.log_dir,
        data_dir: d.app_data_dir,
    }
}

/// Derives the connection info from a descriptor.
pub fn connection_info(desc: &RuntimeDescriptor) -> (r: ConnectionInfo)
    ensures
        r@ == info_for(desc@),
{
    let mut origin = String::from_str("http://127.0.0.1:");
    push_decimal(&mut origin, desc.port as u64);
    let mut ws_url = String::from_str("ws://127.0.0.1:");
    push_decimal(&mut ws_url, desc.port as u64);
    ws_url.append("/ws");
    ConnectionInfo {
        origin,
        ws_url,
        log_dir: desc.log_dir.clone(),
        data_dir: desc.app_data_dir.clone(),
    }
}

proof fn lemma_digit_value(d: nat)
    ensures
        is_digit(digit_char(d)),
        (digit_char(d) as nat) - ('0' as nat) == d % 10,
{
}

proof fn lemma_decimal_digits(n: nat)
    ensures
        all_digits(decimal(n)),
        decimal(n).len() > 0,
        decimal(n)[0] != '+',
        digits_value(decimal(n)) == n,
        forall|i: int| 0 <= i < decimal(n).len() ==> decimal(n)[i] != ':',
    decreases n,
{
    let d = decimal(n);
    lemma_digit_value(n);
    if n >= 10 {
        assert(d.last() == digit_char(n % 10));
        lemma_digit_value(n % 10);
        assert((n % 10) % 10 == n % 10);
        assert(n == (n / 10) * 10 + n % 10);
        lemma_decimal_digits(n / 10);
        assert(d.drop_last() =~= decimal(n / 10));
        assert(digits_value(d) == digits_value(decimal(n / 10)) * 10 + n % 10);
        assert forall|i: int| 0 <= i < d.len() implies is_digit(#[trigger] d[i]) && d[i] != ':' by {
            if i < d.len() - 1 {
                assert(d[i] == decimal(n / 10)[i]);
            }
        }
    } else {
        assert(d.drop_last() =~= Seq::<char>::empty());
        assert(digits_value(d.drop_last()) == 0);
        assert(digits_value(d) == (digit_char(n) as nat) - ('0' as nat));
    }
}

proof fn lemma_last_colon(a: Seq<char>, b: Seq<char>)
    requires
        a.len() > 0,
        a.last() == ':',
        forall|i: int| 0 <= i < b.len() ==> b[i] != ':',
    ensures
        last_index_of(a + b, ':') == a.len() - 1,
    decreases b.len(),
{
    if b.len() == 0 {
        assert(a + b =~= a);
    } else {
        assert((a + b).drop_last() =~= a + b.drop_last());
        assert(b[b.len() - 1] != ':');
        lemma_last_colon(a, b.drop_last());
    }
}

/// The port can be read back from every origin that `connection_info` builds.
pub proof fn lemma_origin_port_round_trip(port: u16)
    ensures
        origin_port(origin_text(port as nat)) == Some(port),
{
    reveal_strlit("http://127.0.0.1:");
    let a = "http://127.0.0.1:"@;
    let b = decimal(port as nat);
    lemma_decimal_digits(port as nat);
    lemma_last_colon(a, b);
    assert((a + b).subrange(a.len() as int, (a + b).len() as int) =~= b);
}

} // verus!
