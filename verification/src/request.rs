//! The request head, in its two ownership shapes, and Host-header synthesis.
//!
//! A head is either uniquely owned, or shared (reference-counted, immutable)
//! with an optional overlay of extra headers; the overlay exists so that a
//! head reused across several connection attempts need not be copied. Every
//! header lookup consults the overlay first and then the base head.
//!
//! When no Host header is present anywhere, one is synthesized from the
//! request URI: the bare host when the port is absent or a scheme default
//! (80 or 443), otherwise `host:port` with the port in decimal.

use std::rc::Rc;
use vstd::prelude::*;
use crate::headers::{HeaderMap, copy_bytes};

verus! {

/// The bytes of the header name `host` (names reach this core lower-cased).
pub open spec fn spec_host_name() -> Seq<u8> {
    seq![104u8, 111u8, 115u8, 116u8]
}

/// The bytes of the header name `expect`.
pub open spec fn spec_expect_name() -> Seq<u8> {
    seq![101u8, 120u8, 112u8, 101u8, 99u8, 116u8]
}

/// The header name `host`, as a vector.
pub fn host_name_bytes() -> (v: Vec<u8>)
    ensures
        v@ == spec_host_name(),
{
    let mut v: Vec<u8> = Vec::new();
    v.push(104u8);
    v.push(111u8);
    v.push(115u8);
    v.push(116u8);
    proof {
        assert(v@ =~= spec_host_name());
    }
    v
}

/// The header name `expect`, as a vector.
pub fn expect_name_bytes() -> (v: Vec<u8>)
    ensures
        v@ == spec_expect_name(),
{
    let mut v: Vec<u8> = Vec::new();
    v.push(101u8);
    v.push(120u8);
    v.push(112u8);
    v.push(101u8);
    v.push(99u8);
    v.push(116u8);
    proof {
        assert(v@ =~= spec_expect_name());
    }
    v
}

/// The decimal digits of `n`, most significant first.
pub open spec fn dec_digits(n: nat) -> Seq<u8>
    decreases n,
{
    if n < 10 {
        seq![(48 + n) as u8]
    } else {
        dec_digits(n / 10).push((48 + n % 10) as u8)
    }
}

/// Append the decimal digits of `n` to `out`.
pub fn push_dec(n: u16, out: &mut Vec<u8>)
    ensures
        final(out)@ == old(out)@ + dec_digits(n as nat),
    decreases n,
{
    if n < 10 {
        out.push((48 + n) as u8);
        proof {
            assert(final(out)@ =~= old(out)@ + dec_digits(n as nat));
        }
    } else {
        let ghost mid = old(out)@ + dec_digits((n / 10) as nat);
        push_dec(n / 10, out);
        out.push((48 + n % 10) as u8);
        proof {
            assert((n / 10) as nat == (n as nat) / 10);
            assert((n % 10) as nat == (n as nat) % 10);
            assert(final(out)@ =~= old(out)@ + dec_digits(n as nat));
        }
    }
}

/// The value a synthesized Host header carries: the bare host when the port
/// is absent or a scheme default, otherwise `host:port`.
pub open spec fn spec_host_value(host: Seq<u8>, port: Option<u16>) -> Seq<u8> {
    match port {
        Option::None => host,
        Option::Some(p) => if p == 80 || p == 443 {
            host
        } else {
            host.push(58u8) + dec_digits(p as nat)
        },
    }
}

/// Build the Host header value for this host and port.
pub fn host_header_value(host: &[u8], port: Option<u16>) -> (v: Vec<u8>)
    ensures
        v@ == spec_host_value(host@, port),
{
    let mut v = copy_bytes(host);
    match port {
        None => v,
        Some(p) => {
            if p == 80 || p == 443 {
                v
            } else {
                v.push(58u8);
                push_dec(p, &mut v);
                proof {
                    assert(v@ =~= host@.push(58u8) + dec_digits(p as nat));
                }
                v
            }
        },
    }
}

/// Whether a byte may stand in a header value: horizontal tab or any visible
/// or high byte, never another control character.
pub open spec fn value_byte_ok(b: u8) -> bool {
    b == 9 || (32 <= b && b != 127)
}

/// Whether every byte of `v` may stand in a header value.
pub open spec fn value_ok(v: Seq<u8>) -> bool {
    forall|i: int| 0 <= i < v.len() ==> value_byte_ok(v[i])
}

/// Decide `value_ok` for a byte slice.
pub fn check_value_ok(v: &[u8]) -> (r: bool)
    ensures
        r == value_ok(v@),
{
    let n = v.len();
    let mut i: usize = 0;
    while i < n
        invariant
            n == v@.len(),
            0 <= i <= n,
            forall|j: int| 0 <= j < i ==> value_byte_ok(v@[j]),
        decreases n - i,
    {
        let b = v[i];
        if !(b == 9 || (32 <= b && b != 127)) {
            assert(!value_byte_ok(v@[i as int]));
            return false;
        }
        i += 1;
    }
    true
}

/// A request head: its headers and what this core reads of its URI.
pub struct RequestHead {
    pub headers: HeaderMap,
    /// The URI's host component, if the URI has one.
    pub uri_host: Option<Vec<u8>>,
    /// The URI's explicit port, if any.
    pub uri_port: Option<u16>,
}

/// A request head either uniquely owned, or shared and immutable with an
/// optional overlay of extra headers.
pub enum RequestHeadType {
    Owned(RequestHead),
    Shared(Rc<RequestHead>, Option<HeaderMap>),
}

impl RequestHeadType {
    /// The base head, shared or owned.
    pub open spec fn base(self) -> RequestHead {
        match self {
            RequestHeadType::Owned(h) => h,
            RequestHeadType::Shared(rc, _) => *rc,
        }
    }

    /// The overlay of extra headers, if this head carries one.
    pub open spec fn overlay(self) -> Option<HeaderMap> {
        match self {
            RequestHeadType::Owned(_) => Option::None,
            RequestHeadType::Shared(_, ov) => ov,
        }
    }

    /// Whether a header of this name is present on the base head or on the
    /// overlay.
    pub open spec fn spec_has_header(self, name: Seq<u8>) -> bool {
        self.base().headers.spec_contains(name) || match self.overlay() {
            Option::Some(ov) => ov.spec_contains(name),
            Option::None => false,
        }
    }

    /// The value a header lookup finds: the overlay shadows the base head.
    pub open spec fn spec_header_value(self, name: Seq<u8>) -> Option<Seq<u8>> {
        match self.overlay() {
            Option::Some(ov) => if ov.spec_contains(name) {
                ov.spec_value_of(name)
            } else {
                self.base().headers.spec_value_of(name)
            },
            Option::None => self.base().headers.spec_value_of(name),
        }
    }

    /// Whether a header of this name is present anywhere.
    pub fn has_header(&self, name: &[u8]) -> (r: bool)
        ensures
            r == self.spec_has_header(name@),
    {
        match self {
            RequestHeadType::Owned(h) => h.headers.contains_key(name),
            RequestHeadType::Shared(rc, ov) => {
                if rc.headers.contains_key(name) {
                    true
                } else {
                    match ov {
                        Some(m) => m.contains_key(name),
                        None => false,
                    }
                }
            },
        }
    }

    /// Whether the base head alone carries a header of this name. (The
    /// `Expect` check reads only the base head.)
    pub fn base_has_header(&self, name: &[u8]) -> (r: bool)
        ensures
            r == self.base().headers.spec_contains(name@),
    {
        match self {
            RequestHeadType::Owned(h) => h.headers.contains_key(name),
            RequestHeadType::Shared(rc, _) => rc.headers.contains_key(name),
        }
    }

    /// The value a header lookup finds, copied out.
    pub fn header_value(&self, name: &[u8]) -> (r: Option<Vec<u8>>)
        ensures
            match r {
                Option::Some(v) => self.spec_header_value(name@) == Option::Some(v@),
                Option::None => self.spec_header_value(name@) is None,
            },
    {
        match self {
            RequestHeadType::Owned(h) => h.headers.value_of(name),
            RequestHeadType::Shared(rc, ov) => {
                match ov {
                    Some(m) => {
                        if m.contains_key(name) {
                            m.value_of(name)
                        } else {
                            rc.headers.value_of(name)
                        }
                    },
                    None => rc.headers.value_of(name),
                }
            },
        }
    }

    /// The URI's host component, copied out.
    pub fn uri_host_copy(&self) -> (r: Option<Vec<u8>>)
        ensures
            match r {
                Option::Some(v) => self.base().uri_host is Some && v@
                    == self.base().uri_host->Some_0@,
                Option::None => self.base().uri_host is None,
            },
    {
        match self {
            RequestHeadType::Owned(h) => match &h.uri_host {
                Some(v) => Some(copy_bytes(v.as_slice())),
                None => None,
            },
            RequestHeadType::Shared(rc, _) => match &rc.uri_host {
                Some(v) => Some(copy_bytes(v.as_slice())),
                None => None,
            },
        }
    }

    /// The URI's explicit port, if any.
    pub fn uri_port(&self) -> (r: Option<u16>)
        ensures
            r == self.base().uri_port,
    {
        match self {
            RequestHeadType::Owned(h) => h.uri_port,
            RequestHeadType::Shared(rc, _) => rc.uri_port,
        }
    }

    /// Set a header: into the base head when owned, into the overlay (created
    /// if absent) when shared. Lookups of every other name are unchanged, and
    /// so is the URI.
    pub fn set_header(&mut self, name: Vec<u8>, value: Vec<u8>)
        ensures
            final(self).spec_header_value(name@) == Option::Some(value@),
            final(self).spec_has_header(name@),
            forall|n: Seq<u8>| n != name@ ==> final(self).spec_header_value(n)
                == old(self).spec_header_value(n),
            forall|n: Seq<u8>| n != name@ ==> final(self).spec_has_header(n)
                == old(self).spec_has_header(n),
            final(self).base().uri_host == old(self).base().uri_host,
            final(self).base().uri_port == old(self).base().uri_port,
            *final(self) is Owned <==> *old(self) is Owned,
            *old(self) is Shared ==> final(self).base() == old(self).base(),
    {
        match self {
            RequestHeadType::Owned(h) => {
                h.headers.insert(name, value);
            },
            RequestHeadType::Shared(_, ov) => {
                match ov {
                    Some(m) => {
                        m.insert(name, value);
                    },
                    None => {
                        let mut m = HeaderMap::new();
                        m.insert(name, value);
                        *ov = Some(m);
                    },
                }
            },
        }
    }
}

/// What Host-header normalization did.
pub enum HostOutcome {
    /// A Host header was already present; nothing changed.
    AlreadySet,
    /// The URI names no host; nothing changed.
    NoUriHost,
    /// The synthesized value held a byte no header value may carry; the
    /// request proceeds without a Host header.
    ValueRejected,
    /// This value was inserted under the name `host`.
    Inserted(Vec<u8>),
}

/// Synthesize the Host header if none is present: the URI's host, with
/// `:port` appended unless the port is absent or a scheme default (80/443).
/// A value that cannot stand in a header is skipped, never fatal.
pub fn prepare_host(head: &mut RequestHeadType) -> (r: HostOutcome)
    ensures
        old(head).spec_has_header(spec_host_name()) ==> r == HostOutcome::AlreadySet
            && *final(head) == *old(head),
        !old(head).spec_has_header(spec_host_name()) && old(head).base().uri_host is None
            ==> r == HostOutcome::NoUriHost && *final(head) == *old(head),
        !old(head).spec_has_header(spec_host_name()) && old(head).base().uri_host is Some
            ==> ({
            let val = spec_host_value(
                old(head).base().uri_host->Some_0@,
                old(head).base().uri_port,
            );
            &&& !value_ok(val) ==> r == HostOutcome::ValueRejected && *final(head) == *old(head)
            &&& value_ok(val) ==> {
                &&& (r matches HostOutcome::Inserted(v) && v@ == val)
                &&& final(head).spec_header_value(spec_host_name()) == Option::Some(val)
                &&& forall|n: Seq<u8>| n != spec_host_name() ==> final(head).spec_header_value(n)
                    == old(head).spec_header_value(n)
                &&& forall|n: Seq<u8>| n != spec_host_name() ==> final(head).spec_has_header(n)
                    == old(head).spec_has_header(n)
                &&& final(head).base().uri_host == old(head).base().uri_host
                &&& final(head).base().uri_port == old(head).base().uri_port
                &&& *old(head) is Shared ==> final(head).base() == old(head).base()
            }
        }),
{
    let hn = host_name_bytes();
    if head.has_header(hn.as_slice()) {
        return HostOutcome::AlreadySet;
    }
    match head.uri_host_copy() {
        None => HostOutcome::NoUriHost,
        Some(hbytes) => {
            let port = head.uri_port();
            let val = host_header_value(hbytes.as_slice(), port);
            if !check_value_ok(val.as_slice()) {
                HostOutcome::ValueRejected
            } else {
                let copy = copy_bytes(val.as_slice());
                head.set_header(hn, val);
                HostOutcome::Inserted(copy)
            }
        },
    }
}

} // verus!
