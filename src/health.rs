use vstd::prelude::*;
use vstd::string::*;
use crate::text::{decimal, push_decimal};

verus! {

/// Longest wait for the backend to answer its health endpoint, in milliseconds.
pub const HEALTH_TIMEOUT_MS: u64 = 30000;

/// Pause between two health probes, in milliseconds.
pub const HEALTH_POLL_MS: u64 = 250;

/// Read timeout of one probe or shutdown connection, in milliseconds.
pub const PROBE_READ_TIMEOUT_MS: u64 = 2000;

/// The request a health probe sends.
pub const HEALTH_REQUEST: &'static str = "GET /health HTTP/1.1\r\nHost: 127.0.0.1\r\nConnection: close\r\n\r\n";

/// The request that asks the backend to exit on its own.
pub const SHUTDOWN_REQUEST: &'static str = "POST /api/ionicx/shutdown HTTP/1.1\r\nHost: 127.0.0.1\r\nContent-Length: 0\r\nConnection: close\r\n\r\n";

/// Whether `p` occurs in `s` as a contiguous run.
pub open spec fn contains(s: Seq<char>, p: Seq<char>) -> bool {
    exists|i: int| 0 <= i && i + p.len() <= s.len() && #[trigger] s.subrange(i, i + p.len()) == p
}

/// `127.0.0.1:<port>`, the address the backend listens on.
pub open spec fn loopback_text(port: nat) -> Seq<char> {
    "127.0.0.1:"@ + decimal(port)
}

/// The loopback socket address of a backend port.
pub fn loopback_address(port: u16) -> (r: String)
    ensures
        r@ == loopback_text(port as nat),
{
    let mut s = String::from_str("127.0.0.1:");
    push_decimal(&mut s, port as u64);
    s
}

fn occurs_at(s: &str, p: &str, i: usize) -> (r: bool)
    requires
        i + p@.len() <= s@.len(),
    ensures
        r == (s@.subrange(i as int, i + p@.len()) == p@),
{
    let m = p.unicode_len();
    let n = s.unicode_len();
    let mut j: usize = 0;
    while j < m
        invariant
            m == p@.len(),
            n == s@.len(),
            i + m <= s@.len(),
            j <= m,
            forall|k: int| 0 <= k < j ==> s@[i + k] == p@[k],
        decreases m - j,
    {
        if s.get_char(i + j) != p.get_char(j) {
            assert(s@.subrange(i as int, i + p@.len())[j as int] != p@[j as int]);
            return false;
        }
        j = j + 1;
    }
    assert(s@.subrange(i as int, i + p@.len()) =~= p@);
    true
}

/// Whether a line break (`\r\n`) starts at position `i` of `s`.
pub open spec fn crlf_at(s: Seq<char>, i: int) -> bool {
    0 <= i && i + 1 < s.len() && s[i] == '\r' && s[i + 1] == '\n'
}

/// Position of the first line break at or after `i`, or -1 when there is none.
pub open spec fn first_crlf_from(s: Seq<char>, i: nat) -> int
    decreases s.len() - i,
{
    if i + 1 >= s.len() {
        -1
    } else if crlf_at(s, i as int) {
        i as int
    } else {
        first_crlf_from(s, i + 1)
    }
}

/// The status line of a response: the text before its first line break, or
/// the whole response when it has none.
pub open spec fn status_line(s: Seq<char>) -> Seq<char> {
    let k = first_crlf_from(s, 0);
    if k < 0 {
        s
    } else {
        s.subrange(0, k)
    }
}

proof fn lemma_first_crlf_bounds(s: Seq<char>, i: nat)
    ensures
        first_crlf_from(s, i) == -1 || i <= first_crlf_from(s, i) < s.len(),
    decreases s.len() - i,
{
    if i + 1 < s.len() && !crlf_at(s, i as int) {
        lemma_first_crlf_bounds(s, i + 1);
    }
}

/// Length of a response's status line.
fn status_line_len(s: &str) -> (r: usize)
    ensures
        r <= s@.len(),
        status_line(s@) == s@.subrange(0, r as int),
{
    let n = s.unicode_len();
    let mut j: usize = 0;
    proof {
        lemma_first_crlf_bounds(s@, 0);
    }
    while n > 0 && j < n - 1
        invariant
            n == s@.len(),
            j <= n,
            first_crlf_from(s@, 0) == first_crlf_from(s@, j as nat),
        decreases n - j,
    {
        if s.get_char(j) == '\r' && s.get_char(j + 1) == '\n' {
            assert(first_crlf_from(s@, j as nat) == j);
            return j;
        }
        j = j + 1;
    }
    assert(first_crlf_from(s@, j as nat) == -1);
    assert(s@.subrange(0, n as int) =~= s@);
    n
}

/// Whether a probe's full response reports success: its status line holds
/// `200 OK`.
pub fn response_is_healthy(response: &str) -> (r: bool)
    ensures
        r == contains(status_line(response@), "200 OK"@),
{
    let p = "200 OK";
    proof {
        reveal_strlit("200 OK");
    }
    let n = status_line_len(response);
    let ghost line = status_line(response@);
    assert(line =~= response@.subrange(0, n as int));
    let m = p.unicode_len();
    if m > n {
        return false;
    }
    let mut i: usize = 0;
    while i <= n - m
        invariant
            n == line.len() <= response@.len(),
            line == response@.subrange(0, n as int),
            line == status_line(response@),
            m == p@.len(),
            p@ == "200 OK"@,
            1 <= m <= n,
            i <= n - m + 1,
            forall|k: int| 0 <= k < i ==> #[trigger] line.subrange(k, k + m) != p@,
        decreases n - i,
    {
        let found = occurs_at(response, p, i);
        assert(line.subrange(i as int, i + m) =~= response@.subrange(i as int, i + m));
        if found {
            assert(line.subrange(i as int, i + "200 OK"@.len()) == "200 OK"@);
            assert(contains(line, "200 OK"@));
            return true;
        }
        i = i + 1;
    }
    false
}

/// What a health wait does after one probe.
#[derive(Debug, PartialEq, Eq)]
pub enum HealthStep {
    /// The backend answered: the wait is over.
    Healthy,
    /// No answer yet: pause and probe again.
    Retry,
    /// The budget is spent without an answer. This is not an error: the
    /// descriptor was valid, so the connection info is still handed out.
    Pending,
}

/// Decides, after one probe made `elapsed_ms` after the wait began, whether the
/// health wait is done, goes on, or gives up.
pub fn health_step(probe_ok: bool, elapsed_ms: u64) -> (r: HealthStep)
    ensures
        r == (if probe_ok {
            HealthStep::Healthy
        } else if elapsed_ms >= HEALTH_TIMEOUT_MS {
            HealthStep::Pending
        } else {
            HealthStep::Retry
        }),
{
    if probe_ok {
        HealthStep::Healthy
    } else if elapsed_ms >= HEALTH_TIMEOUT_MS {
        HealthStep::Pending
    } else {
        HealthStep::Retry
    }
}

} // verus!
