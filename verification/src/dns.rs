//! Pinning a download to fixed endpoints: a resolver that answers every
//! lookup with the socket addresses it was made with.

use vstd::prelude::*;
use vstd::std_specs::cmp::PartialEqSpecImpl;
use vstd::std_specs::convert::FromSpecImpl;
use crate::error::Error;

verus! {

/// A network endpoint: an IP address, as its bits, with a port.
#[derive(Clone, Copy, Debug, PartialEq, Eq, Structural)]
#[allow(inconsistent_fields)]
pub enum SocketAddr {
    /// An IPv4 address and a port.
    V4 { ip: u32, port: u16 },
    /// An IPv6 address and a port, with flow information and scope.
    V6 { ip: u128, port: u16, flowinfo: u32, scope_id: u32 },
}

/// An ordered list of endpoints that is read from the front.  Its view is
/// what is left to read.
#[derive(Debug)]
pub struct SocketAddrs {
    addrs: Vec<SocketAddr>,
    read: usize,
}

impl View for SocketAddrs {
    type V = Seq<SocketAddr>;

    closed spec fn view(&self) -> Seq<SocketAddr> {
        self.addrs@.skip(self.read as int)
    }
}

impl SocketAddrs {
    #[verifier::type_invariant]
    spec fn in_bounds(self) -> bool {
        self.read <= self.addrs@.len()
    }

    /// The list that holds `addrs`, all of it still to read.
    pub closed spec fn listing(addrs: Vec<SocketAddr>) -> SocketAddrs {
        SocketAddrs { addrs, read: 0 }
    }

    /// The endpoints that are left, in order; the list itself stays as it is.
    pub fn to_socket_addrs(&self) -> (r: Vec<SocketAddr>)
        ensures
            r@ == self@,
    {
        proof {
            use_type_invariant(self);
        }
        let mut out: Vec<SocketAddr> = Vec::new();
        let mut i: usize = self.read;
        while i < self.addrs.len()
            invariant
                self.read <= i <= self.addrs@.len(),
                out@ == self.addrs@.subrange(self.read as int, i as int),
            decreases self.addrs@.len() - i,
        {
            out.push(self.addrs[i]);
            i = i + 1;
        }
        out
    }

    /// Takes the first endpoint that is left, if any.
    pub fn next(&mut self) -> (r: Option<SocketAddr>)
        ensures
            old(self)@.len() == 0 ==> r is None && final(self)@ == old(self)@,
            old(self)@.len() > 0 ==> r == Some(old(self)@[0]) && final(self)@ == old(self)@.skip(1),
    {
        proof {
            use_type_invariant(&*self);
        }
        if self.read < self.addrs.len() {
            let addr = self.addrs[self.read];
            let ghost before = self@;
            self.read = self.read + 1;
            assert(self@ == before.skip(1));
            Some(addr)
        } else {
            None
        }
    }
}

impl Clone for SocketAddrs {
    fn clone(&self) -> (r: Self)
        ensures
            r@ == self@,
    {
        SocketAddrs { addrs: self.to_socket_addrs(), read: 0 }
    }
}

impl PartialEq for SocketAddrs {
    fn eq(&self, other: &SocketAddrs) -> (r: bool) {
        proof {
            use_type_invariant(self);
            use_type_invariant(other);
        }
        let a: usize = self.addrs.len();
        let b: usize = other.addrs.len();
        let n: usize = a - self.read;
        assert(self@.len() == n);
        assert(other@.len() == b - other.read);
        if b - other.read != n {
            return false;
        }
        let mut i: usize = 0;
        while i < n
            invariant
                0 <= i <= n,
                n == self@.len(),
                n == other@.len(),
                a == self.addrs@.len(),
                b == other.addrs@.len(),
                self.read + n == a,
                other.read + n == b,
                forall|j: int| 0 <= j < i ==> self@[j] == other@[j],
            decreases n - i,
        {
            if self.addrs[self.read + i] != other.addrs[other.read + i] {
                assert(self@[i as int] != other@[i as int]);
                return false;
            }
            assert(self@[i as int] == other@[i as int]);
            i = i + 1;
        }
        assert(self@ =~= other@);
        true
    }
}

impl PartialEqSpecImpl for SocketAddrs {
    open spec fn obeys_eq_spec() -> bool {
        true
    }

    open spec fn eq_spec(&self, other: &SocketAddrs) -> bool {
        self@ == other@
    }
}

impl From<Vec<SocketAddr>> for SocketAddrs {
    fn from(other: Vec<SocketAddr>) -> (r: Self)
        ensures
            r@ == other@,
    {
        SocketAddrs { addrs: other, read: 0 }
    }
}

impl FromSpecImpl<Vec<SocketAddr>> for SocketAddrs {
    open spec fn obeys_from_spec() -> bool {
        true
    }

    open spec fn from_spec(other: Vec<SocketAddr>) -> Self {
        SocketAddrs::listing(other)
    }
}

/// A stand-in for name resolution that knows one answer.
#[derive(Debug)]
pub struct ResolverService {
    pub socket_addrs: SocketAddrs,
}

impl ResolverService {
    /// A resolver that answers every lookup with `socket_addrs`.
    pub fn new(socket_addrs: SocketAddrs) -> (r: Self)
        ensures
            r.socket_addrs == socket_addrs,
    {
        ResolverService { socket_addrs }
    }

    /// The resolver takes every lookup at once: it is always ready and
    /// being asked changes nothing.
    pub fn poll_ready(&mut self) -> (r: Result<(), Error>)
        ensures
            r is Ok,
            *final(self) == *old(self),
    {
        Ok(())
    }

    /// Answers the lookup of `name`: the configured endpoints, all of them
    /// and in their order, whatever the name is.  The resolver is the same
    /// afterwards, so the next lookup gets the same answer.
    pub fn call(&mut self, name: &str) -> (r: SocketAddrs)
        ensures
            r@ == old(self).socket_addrs@,
            *final(self) == *old(self),
    {
        self.socket_addrs.clone()
    }
}

impl Clone for ResolverService {
    fn clone(&self) -> (r: Self)
        ensures
            r.socket_addrs@ == self.socket_addrs@,
    {
        ResolverService { socket_addrs: self.socket_addrs.clone() }
    }
}

} // verus!
