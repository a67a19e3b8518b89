use vstd::prelude::*;

verus! {

/// An IP address, held as its bytes in network order.
#[derive(Clone, Copy, Debug, PartialEq, Eq)]
pub enum IpAddress {
    V4([u8; 4]),
    V6([u8; 16]),
}

/// An IP network: an address together with a prefix length that fits its family.
#[derive(Clone, Copy, Debug, PartialEq, Eq)]
pub struct IpNetwork {
    addr: IpAddress,
    prefix_len: u8,
}

/// The number of bits in an address of the family of `a`.
pub open spec fn max_prefix_len(a: IpAddress) -> nat {
    match a {
        IpAddress::V4(_) => 32,
        IpAddress::V6(_) => 128,
    }
}

/// Byte `i` of a netmask whose first `prefix` bits are set and the rest clear.
pub open spec fn mask_byte(prefix: nat, i: nat) -> u8 {
    if prefix >= 8 * (i + 1) {
        255
    } else if prefix <= 8 * i {
        0
    } else {
        (255u8 << ((8 - (prefix - 8 * i)) as u8)) as u8
    }
}

/// The bytes of the netmask of a `len`-byte address with `prefix` leading ones.
pub open spec fn mask_bytes(prefix: nat, len: nat) -> Seq<u8> {
    Seq::new(len, |i: int| mask_byte(prefix, i as nat))
}

impl IpAddress {
    /// The bytes of the address in network order.
    pub open spec fn octets(self) -> Seq<u8> {
        match self {
            IpAddress::V4(b) => b@,
            IpAddress::V6(b) => b@,
        }
    }

    pub open spec fn is_v4(self) -> bool {
        self is V4
    }
}

impl IpNetwork {
    pub closed spec fn wf(self) -> bool {
        self.prefix_len <= max_prefix_len(self.addr)
    }

    pub closed spec fn spec_addr(self) -> IpAddress {
        self.addr
    }

    pub closed spec fn spec_prefix_len(self) -> nat {
        self.prefix_len as nat
    }

    /// A network of `addr` with `prefix_len` leading bits, or `None` where the
    /// prefix is longer than the address.
    pub fn new(addr: IpAddress, prefix_len: u8) -> (r: Option<IpNetwork>)
        ensures
            prefix_len as nat <= max_prefix_len(addr) <==> r is Some,
            r matches Some(n) ==> n.wf() && n.spec_addr() == addr && n.spec_prefix_len()
                == prefix_len as nat,
    {
        let max: u8 = match addr {
            IpAddress::V4(_) => 32,
            IpAddress::V6(_) => 128,
        };
        if prefix_len <= max {
            Some(IpNetwork { addr, prefix_len })
        } else {
            None
        }
    }

    pub fn addr(&self) -> (r: IpAddress)
        ensures
            r == self.spec_addr(),
    {
        self.addr
    }

    pub fn prefix_len(&self) -> (r: u8)
        ensures
            r as nat == self.spec_prefix_len(),
    {
        self.prefix_len
    }

    /// The netmask: as many bytes as the address, the first `prefix_len` bits set.
    pub fn netmask(&self) -> (r: IpAddress)
        requires
            self.wf(),
        ensures
            r.is_v4() == self.spec_addr().is_v4(),
            r.octets() == mask_bytes(self.spec_prefix_len(), self.spec_addr().octets().len()),
    {
        match self.addr {
            IpAddress::V4(_) => {
                let mut m: [u8; 4] = [0u8; 4];
                let mut i: usize = 0;
                while i < 4
                    invariant
                        i <= 4,
                        forall|j: int| 0 <= j < i ==> m@[j] == mask_byte(self.prefix_len as nat, j as nat),
                    decreases 4 - i,
                {
                    m[i] = mask_byte_exec(self.prefix_len, i);
                    i = i + 1;
                }
                assert(m@ =~= mask_bytes(self.prefix_len as nat, 4));
                IpAddress::V4(m)
            },
            IpAddress::V6(_) => {
                let mut m: [u8; 16] = [0u8; 16];
                let mut i: usize = 0;
                while i < 16
                    invariant
                        i <= 16,
                        forall|j: int| 0 <= j < i ==> m@[j] == mask_byte(self.prefix_len as nat, j as nat),
                    decreases 16 - i,
                {
                    m[i] = mask_byte_exec(self.prefix_len, i);
                    i = i + 1;
                }
                assert(m@ =~= mask_bytes(self.prefix_len as nat, 16));
                IpAddress::V6(m)
            },
        }
    }
}

fn mask_byte_exec(prefix: u8, i: usize) -> (r: u8)
    requires
        i < 16,
    ensures
        r == mask_byte(prefix as nat, i as nat),
{
    let lo: usize = 8 * i;
    let p: usize = prefix as usize;
    if p >= lo + 8 {
        255
    } else if p <= lo {
        0
    } else {
        let shift: u8 = (8 - (p - lo)) as u8;
        255u8 << shift
    }
}

} // verus!
