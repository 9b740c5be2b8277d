//! NVMe transport identifiers: the rules for filling and reading their fixed-size,
//! NUL-terminated text fields, and the addresses they are made from.
use vstd::prelude::*;
use vstd::slice::slice_to_vec;
use vstd::string::*;
use vstd::utf8::encode_utf8;

use crate::net::SocketAddr;
use crate::text::{hex_prefixed, to_hex_prefixed};

verus! {

/// The capacity of the transport address field, its terminating NUL included.
pub const TRADDR_CAPACITY: usize = 257;
/// The capacity of the transport service field, its terminating NUL included.
pub const TRSVCID_CAPACITY: usize = 33;
/// The capacity of the subsystem NQN field, its terminating NUL included.
pub const SUBNQN_CAPACITY: usize = 224;

/// The address family of an IPv4 endpoint.
pub const SPDK_NVMF_ADRFAM_IPV4: u32 = 1;
/// The address family of an IPv6 endpoint.
pub const SPDK_NVMF_ADRFAM_IPV6: u32 = 2;

/// The address of a device on a Fibre Channel SAN.
#[derive(Clone, Copy, Debug)]
pub struct FibreChannelAddr {
    node: u64,
    port: u64,
}

impl FibreChannelAddr {
    /// The node name.
    pub closed spec fn spec_node(&self) -> u64 {
        self.node
    }

    /// The port name.
    pub closed spec fn spec_port(&self) -> u64 {
        self.port
    }

    /// The text form of the address: `nn-{node:#x}:pn-{port:#x}`.
    pub open spec fn spec_text(&self) -> Seq<char> {
        "nn-"@ + hex_prefixed(self.spec_node() as nat) + ":pn-"@ + hex_prefixed(
            self.spec_port() as nat,
        )
    }

    /// Creates a Fibre Channel address from its node and port names.
    pub fn new(node: u64, port: u64) -> (a: Self)
        ensures
            a.spec_node() == node,
            a.spec_port() == port,
    {
        FibreChannelAddr { node, port }
    }

    /// Renders the address as `nn-{node:#x}:pn-{port:#x}`.
    pub fn to_string(&self) -> (s: String)
        ensures
            s@ == self.spec_text(),
    {
        let mut s = String::from_str("nn-");
        let n = to_hex_prefixed(self.node);
        s.append(n.as_str());
        s.append(":pn-");
        let p = to_hex_prefixed(self.port);
        s.append(p.as_str());
        s
    }
}

/// The address family that a transport identifier records for `addr`.
pub fn address_family(addr: &SocketAddr) -> (f: u32)
    ensures
        *addr is V4 ==> f == SPDK_NVMF_ADRFAM_IPV4,
        *addr is V6 ==> f == SPDK_NVMF_ADRFAM_IPV6,
{
    if addr.is_iv4() {
        SPDK_NVMF_ADRFAM_IPV4
    } else {
        SPDK_NVMF_ADRFAM_IPV6
    }
}

/// The UTF-8 bytes of `s` followed by a terminating NUL.
pub open spec fn c_text(s: Seq<char>) -> Seq<u8> {
    encode_utf8(s).push(0u8)
}

/// Returns the UTF-8 bytes of `s` followed by a terminating NUL.
pub fn to_c_text(s: &str) -> (b: Vec<u8>)
    ensures
        b@ == c_text(s@),
{
    let mut b = slice_to_vec(s.as_bytes());
    b.push(0u8);
    b
}

/// The transport address text for the socket address `addr`: its host, NUL-terminated.
pub fn socket_traddr(addr: &SocketAddr) -> (b: Vec<u8>)
    ensures
        b@ == c_text(addr.spec_host()),
{
    to_c_text(addr.ip())
}

/// The transport service text for the socket address `addr`: its port in decimal,
/// NUL-terminated.
pub fn socket_trsvcid(addr: &SocketAddr) -> (b: Vec<u8>)
    ensures
        b@ == c_text(crate::text::decimal(addr.spec_port() as nat)),
{
    let port = crate::text::to_decimal(addr.port() as u64);
    to_c_text(port.as_str())
}

/// The transport address text for the Fibre Channel address `addr`, NUL-terminated.
pub fn fc_traddr(addr: &FibreChannelAddr) -> (b: Vec<u8>)
    ensures
        b@ == c_text(addr.spec_text()),
{
    let text = addr.to_string();
    to_c_text(text.as_str())
}

/// The transport service text of a Fibre Channel endpoint, NUL-terminated.
pub fn fc_trsvcid() -> (b: Vec<u8>)
    ensures
        b@ == c_text("none"@),
{
    to_c_text("none")
}

/// Writes `bytes` at the start of the fixed-size field `field`, leaving the rest of the
/// field as it was.
///
/// The bytes must fit in the field; writing more than fits panics, which the
/// precondition refuses.
pub fn write_field(field: &mut Vec<u8>, bytes: &[u8])
    requires
        bytes@.len() <= old(field)@.len(),
    ensures
        final(field)@ == bytes@ + old(field)@.subrange(bytes@.len() as int, old(field)@.len() as int),
{
    let n = bytes.len();
    let mut i: usize = 0;
    while i < n
        invariant
            n == bytes@.len(),
            n <= field@.len(),
            field@.len() == old(field)@.len(),
            i <= n,
            forall|k: int| 0 <= k < i ==> field@[k] == bytes@[k],
            forall|k: int| i <= k < field@.len() ==> field@[k] == old(field)@[k],
        decreases n - i,
    {
        field.set(i, bytes[i]);
        i = i + 1;
    }
    assert(field@ =~= bytes@ + old(field)@.subrange(bytes@.len() as int, old(field)@.len() as int));
}

/// Whether `n` is the position of the first NUL in `buf`.
pub open spec fn first_nul_at(buf: Seq<u8>, n: int) -> bool {
    &&& 0 <= n < buf.len()
    &&& buf[n] == 0
    &&& forall|k: int| 0 <= k < n ==> buf[k] != 0
}

/// Whether `buf` holds a NUL.
pub open spec fn has_nul(buf: Seq<u8>) -> bool {
    exists|n: int| 0 <= n < buf.len() && buf[n] == 0
}

/// Returns the position of the first NUL in `buf`, or `None` when it holds none.
pub fn nul_position(buf: &[u8]) -> (r: Option<usize>)
    ensures
        r matches Some(n) ==> first_nul_at(buf@, n as int),
        r is None ==> !has_nul(buf@),
{
    let mut i: usize = 0;
    while i < buf.len()
        invariant
            i <= buf@.len(),
            forall|k: int| 0 <= k < i ==> buf@[k] != 0,
        decreases buf@.len() - i,
    {
        if buf[i] == 0 {
            return Some(i);
        }
        i = i + 1;
    }
    None
}

/// Reads the NUL-terminated text at the start of the field `buf`: the bytes before its
/// first NUL.
///
/// The field must hold a NUL; reading one that does not panics, which the precondition
/// refuses.
pub fn read_field(buf: &[u8]) -> (t: Vec<u8>)
    requires
        has_nul(buf@),
    ensures
        exists|n: int| first_nul_at(buf@, n) && t@ == buf@.subrange(0, n),
{
    match nul_position(buf) {
        Some(n) => {
            let mut t: Vec<u8> = Vec::new();
            let mut i: usize = 0;
            while i < n
                invariant
                    first_nul_at(buf@, n as int),
                    i <= n,
                    t@ == buf@.subrange(0, i as int),
                decreases n - i,
            {
                t.push(buf[i]);
                i = i + 1;
                assert(t@ =~= buf@.subrange(0, i as int));
            }
            assert(first_nul_at(buf@, n as int));
            t
        },
        None => vstd::pervasive::unreached(),
    }
}

/// Reads the subsystem NQN field `buf`: `None` when the field is empty, its text
/// otherwise.
///
/// The field must hold a NUL; reading one that does not panics, which the precondition
/// refuses.
pub fn read_subnqn(buf: &[u8]) -> (r: Option<Vec<u8>>)
    requires
        has_nul(buf@),
    ensures
        buf@[0] == 0 ==> r is None,
        buf@[0] != 0 ==> (r matches Some(t) && exists|n: int|
            first_nul_at(buf@, n) && t@ == buf@.subrange(0, n)),
{
    let t = read_field(buf);
    if t.len() == 0 {
        None
    } else {
        Some(t)
    }
}

/// The field that results from writing the text `t` and its terminating NUL at the start
/// of `field`.
pub open spec fn written(field: Seq<u8>, t: Seq<u8>) -> Seq<u8> {
    t.push(0u8) + field.subrange((t.len() + 1) as int, field.len() as int)
}

/// Reading a field gives back the text last written to it: once text `t` without NUL and
/// its terminator are written to a field they fit in, the field's first NUL ends `t`, so
/// reading yields `t`; the field reads as empty exactly when `t` is empty.
pub proof fn lemma_read_after_write(field: Seq<u8>, t: Seq<u8>)
    requires
        t.len() + 1 <= field.len(),
        forall|k: int| 0 <= k < t.len() ==> t[k] != 0,
    ensures
        has_nul(written(field, t)),
        forall|n: int| first_nul_at(written(field, t), n) <==> n == t.len(),
        written(field, t).subrange(0, t.len() as int) == t,
        (written(field, t)[0] == 0) <==> t.len() == 0,
{
    let w = written(field, t);
    assert(w[t.len() as int] == 0);
    assert(forall|k: int| 0 <= k < t.len() ==> w[k] == t[k]);
    assert forall|n: int| first_nul_at(w, n) <==> n == t.len() by {
        if first_nul_at(w, n) && n < t.len() {
            assert(w[n] == t[n]);
        }
    }
    assert(w.subrange(0, t.len() as int) =~= t);
}

} // verus!
