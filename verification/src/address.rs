//! Resolving a target address into host, port and path.
//!
//! The multiplexed backend needs the address taken apart before it can open a
//! session; URL syntax itself is an external capability, so the split is
//! named (`url_parts_of`) and the policy on top of it — the default secure
//! port, the rejection of host-less addresses — is verified here.

use vstd::prelude::*;

use crate::error::ScrapeError;

verus! {

/// The port used when an address names none.
pub const DEFAULT_SECURE_PORT: u16 = 443;

/// What `url::Url::parse` and its accessors yield for an address string:
/// `None` if the string is not a URL, otherwise its host (if any), explicit
/// port (if any) and path. A function of the string alone.
pub uninterp spec fn url_parts_of(address: Seq<char>) -> Option<
    (Option<Seq<char>>, Option<u16>, Seq<char>),
>;

/// The view of an optional host string.
pub open spec fn host_view(host: Option<String>) -> Option<Seq<char>> {
    match host {
        Some(h) => Some(h@),
        None => None,
    }
}

/// Relies on url::Url::parse and the accessors host_str, port and path: the
/// parse and all three are functions of the address string alone.
#[verifier::external_body]
fn parse_url_raw(address: &str) -> (r: Option<(Option<String>, Option<u16>, String)>)
    ensures
        (r matches Some(p) ==> url_parts_of(address@) == Some(
            (host_view(p.0), p.1, p.2@),
        )),
        r is None <==> url_parts_of(address@) is None,
{
    match url::Url::parse(address) {
        Ok(u) => Some((u.host_str().map(|h| h.to_string()), u.port(), u.path().to_string())),
        Err(_) => None,
    }
}

/// A resolved target for the multiplexed backend: a non-empty host, a port
/// (the default secure port when the address named none) and a path.
#[derive(Debug)]
pub struct Address {
    pub host: String,
    pub port: u16,
    pub path: String,
}

/// What resolution yields for an address string: `None` when the string is
/// not a URL or names no non-empty host, otherwise its host, its port with
/// the default applied, and its path.
pub open spec fn resolved_parts_of(address: Seq<char>) -> Option<(Seq<char>, u16, Seq<char>)> {
    match url_parts_of(address) {
        None => None,
        Some((host, port, path)) => match host {
            None => None,
            Some(h) => if h.len() == 0 {
                None
            } else {
                Some(
                    (
                        h,
                        match port {
                            Some(p) => p,
                            None => DEFAULT_SECURE_PORT,
                        },
                        path,
                    ),
                )
            },
        },
    }
}

/// The digit character of one decimal digit.
pub open spec fn digit_char(d: nat) -> char {
    if d == 0 {
        '0'
    } else if d == 1 {
        '1'
    } else if d == 2 {
        '2'
    } else if d == 3 {
        '3'
    } else if d == 4 {
        '4'
    } else if d == 5 {
        '5'
    } else if d == 6 {
        '6'
    } else if d == 7 {
        '7'
    } else if d == 8 {
        '8'
    } else {
        '9'
    }
}

/// The decimal numeral of `n`, most significant digit first, without leading
/// zeros (the numeral of zero is "0").
pub open spec fn decimal_of(n: nat) -> Seq<char>
    decreases n,
{
    if n < 10 {
        seq![digit_char(n)]
    } else {
        decimal_of(n / 10).push(digit_char(n % 10))
    }
}

fn digit_str(d: u16) -> (r: &'static str)
    requires
        d < 10,
    ensures
        r@ == seq![digit_char(d as nat)],
{
    let r: &'static str = match d {
        0 => "0",
        1 => "1",
        2 => "2",
        3 => "3",
        4 => "4",
        5 => "5",
        6 => "6",
        7 => "7",
        8 => "8",
        _ => "9",
    };
    proof {
        reveal_strlit("0");
        reveal_strlit("1");
        reveal_strlit("2");
        reveal_strlit("3");
        reveal_strlit("4");
        reveal_strlit("5");
        reveal_strlit("6");
        reveal_strlit("7");
        reveal_strlit("8");
        reveal_strlit("9");
        assert(r@ =~= seq![digit_char(d as nat)]);
    }
    r
}

fn push_decimal(s: &mut String, n: u16)
    ensures
        final(s)@ == old(s)@ + decimal_of(n as nat),
    decreases n,
{
    if n < 10 {
        s.append(digit_str(n));
        proof {
            assert(final(s)@ =~= old(s)@ + decimal_of(n as nat));
        }
    } else {
        proof {
            assert(n / 10 < n) by (nonlinear_arith)
                requires
                    10 <= n,
            ;
        }
        push_decimal(s, n / 10);
        s.append(digit_str(n % 10));
        proof {
            assert(decimal_of(n as nat) == decimal_of(n as nat / 10).push(
                digit_char(n as nat % 10),
            ));
            assert(final(s)@ =~= old(s)@ + decimal_of(n as nat));
        }
    }
}

impl Address {
    /// The `host:port` authority the transport dials to open the session.
    pub fn authority(&self) -> (r: String)
        ensures
            r@ == self.host@ + seq![':'] + decimal_of(self.port as nat),
    {
        let mut s = String::from_str(self.host.as_str());
        s.append(":");
        push_decimal(&mut s, self.port);
        proof {
            reveal_strlit(":");
            assert(s@ =~= self.host@ + seq![':'] + decimal_of(self.port as nat));
        }
        s
    }
}

/// Resolve an address string into host, port and path. An address that is
/// not a URL, or that names no non-empty host, is rejected as
/// `InvalidAddress`; that failure is scoped to the one address.
pub fn resolve_address(address: &str) -> (r: Result<Address, ScrapeError>)
    ensures
        r is Ok <==> resolved_parts_of(address@) is Some,
        (r matches Ok(a) ==> resolved_parts_of(address@) == Some((a.host@, a.port, a.path@))),
        r is Err ==> r == Err::<Address, ScrapeError>(ScrapeError::InvalidAddress),
{
    match parse_url_raw(address) {
        None => Err(ScrapeError::InvalidAddress),
        Some((host_opt, port_opt, path)) => match host_opt {
            None => Err(ScrapeError::InvalidAddress),
            Some(host) => {
                if host.as_str().unicode_len() == 0 {
                    Err(ScrapeError::InvalidAddress)
                } else {
                    let port: u16 = match port_opt {
                        Some(p) => p,
                        None => DEFAULT_SECURE_PORT,
                    };
                    Ok(Address { host, port, path })
                }
            },
        },
    }
}

} // verus!
