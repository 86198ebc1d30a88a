//! The address surface: which transport an address spec names, and the
//! argument records of the two binaries.
//!
//! An address spec reads `proto:target` with `tcp:`, `unix:` and `shm:`
//! prefixes; everything after the prefix is the transport's target — a
//! socket address, a socket path, or the link path of a shared memory
//! region.

use vstd::prelude::*;

use crate::errors::Error;

verus! {

/// The three transports a role can run over.
#[derive(Debug, Clone, Copy, PartialEq, Eq, Structural)]
pub enum ConnKind {
    /// A TCP byte stream.
    Tcp,
    /// A Unix domain socket byte stream.
    Unix,
    /// The shared-memory slot.
    Shm,
}

/// What `parse_conn_kind` makes of an address spec: the transport named by
/// the prefix together with the target after it, or the unknown-protocol
/// error exactly when no known prefix starts the spec.
pub open spec fn parse_conn_kind_spec(s: Seq<char>) -> Result<(ConnKind, Seq<char>), Error> {
    if s.len() >= 4 && s.subrange(0, 4) == "tcp:"@ {
        Result::Ok((ConnKind::Tcp, s.subrange(4, s.len() as int)))
    } else if s.len() >= 5 && s.subrange(0, 5) == "unix:"@ {
        Result::Ok((ConnKind::Unix, s.subrange(5, s.len() as int)))
    } else if s.len() >= 4 && s.subrange(0, 4) == "shm:"@ {
        Result::Ok((ConnKind::Shm, s.subrange(4, s.len() as int)))
    } else {
        Result::Err(Error::UnknownProtocol)
    }
}

/// Whether `p` is a character-for-character prefix of `s`.
fn starts_with_chars(s: &str, p: &str) -> (r: bool)
    ensures
        r <==> s@.len() >= p@.len() && s@.subrange(0, p@.len() as int) == p@,
{
    let n = p.unicode_len();
    let m = s.unicode_len();
    if m < n {
        return false;
    }
    let mut i: usize = 0;
    while i < n
        invariant
            i <= n,
            n == p@.len(),
            n <= s@.len(),
            forall|j: int| 0 <= j < i ==> s@[j] == p@[j],
        decreases n - i,
    {
        if s.get_char(i) != p.get_char(i) {
            proof {
                assert(s@.subrange(0, p@.len() as int)[i as int] == s@[i as int]);
            }
            return false;
        }
        i = i + 1;
    }
    proof {
        assert(s@.subrange(0, p@.len() as int) =~= p@);
    }
    true
}

/// Split an address spec into its transport and target.  Returns the
/// transport named by the `tcp:`, `unix:` or `shm:` prefix and the rest of
/// the spec, and fails with [`Error::UnknownProtocol`] if and only if no
/// such prefix starts it.
pub fn parse_conn_kind(s: &str) -> (r: Result<(ConnKind, String), Error>)
    ensures
        parse_conn_kind_spec(s@) matches Result::Ok(parsed) ==> r matches Result::Ok(got)
            && got.0 == parsed.0 && got.1@ == parsed.1,
        parse_conn_kind_spec(s@) is Err <==> r is Err,
        r is Err ==> r->Err_0 == Error::UnknownProtocol,
{
    let n = s.unicode_len();
    if starts_with_chars(s, "tcp:") {
        proof {
            reveal_strlit("tcp:");
        }
        let rest = s.substring_char(4, n);
        Result::Ok((ConnKind::Tcp, rest.to_owned()))
    } else if starts_with_chars(s, "unix:") {
        proof {
            reveal_strlit("unix:");
            reveal_strlit("tcp:");
        }
        let rest = s.substring_char(5, n);
        Result::Ok((ConnKind::Unix, rest.to_owned()))
    } else if starts_with_chars(s, "shm:") {
        proof {
            reveal_strlit("shm:");
            reveal_strlit("unix:");
            reveal_strlit("tcp:");
        }
        let rest = s.substring_char(4, n);
        Result::Ok((ConnKind::Shm, rest.to_owned()))
    } else {
        proof {
            reveal_strlit("shm:");
            reveal_strlit("unix:");
            reveal_strlit("tcp:");
        }
        Result::Err(Error::UnknownProtocol)
    }
}

/// The client binary's arguments: where to connect, the request quota, an
/// optional fixed request value (counter mode when absent), and whether to
/// forgo escalation and busy-wait only.
#[derive(Debug)]
pub struct CliArgs {
    /// The parsed address spec.
    pub addr: (ConnKind, String),
    /// How many requests the session sends.
    pub num: u32,
    /// The fixed request value, or counter mode when absent.
    pub value: Option<u64>,
    /// Never escalate a busy-wait into a blocking one.
    pub spin_only: bool,
}

/// The server binary's arguments: where to listen and whether to busy-wait
/// only.
#[derive(Debug)]
pub struct SvrArgs {
    /// The parsed address spec.
    pub addr: (ConnKind, String),
    /// Never escalate a busy-wait into a blocking one.
    pub spin_only: bool,
}

} // verus!
