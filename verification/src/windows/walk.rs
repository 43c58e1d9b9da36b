//! Walking the chains of native records, one record at a time.
use vstd::prelude::*;
use crate::windows::native::{
    adapters_from, prefixes_from, unicast_from, IpAdapterAddresses, IpAdapterPrefix,
    IpAdapterUnicastAddress,
};

verus! {

/// The adapters of one enumeration: the head of their chain, null for a host
/// without adapters.
#[derive(Debug, PartialEq, Eq)]
pub struct Adapters {
    inner: Option<Box<IpAdapterAddresses>>,
}

/// A forward walk over the adapters of an enumeration.
pub struct IfAddrsIterator<'a> {
    _head: &'a Adapters,
    next: Option<&'a IpAdapterAddresses>,
}

impl View for Adapters {
    type V = Seq<IpAdapterAddresses>;

    /// The adapters in the order of their chain.
    closed spec fn view(&self) -> Seq<IpAdapterAddresses> {
        adapters_from(self.inner)
    }
}

impl Adapters {
    /// The enumeration whose chain of adapters starts at `head`.
    pub fn new(head: Option<Box<IpAdapterAddresses>>) -> (r: Adapters)
        ensures
            r@ == adapters_from(head),
    {
        Adapters { inner: head }
    }

    /// A walk over the adapters, from the first one on.
    pub fn iter(&self) -> (r: IfAddrsIterator<'_>)
        ensures
            r.remaining() == self@,
    {
        let next: Option<&IpAdapterAddresses> = match &self.inner {
            Some(first) => Some(&**first),
            None => None,
        };
        IfAddrsIterator { _head: self, next }
    }
}

impl<'a> IfAddrsIterator<'a> {
    /// The adapters that the walk has not yielded yet, in order.
    pub closed spec fn remaining(&self) -> Seq<IpAdapterAddresses> {
        match self.next {
            None => Seq::empty(),
            Some(record) => record.chain(),
        }
    }

    /// Yields the adapter at which the walk stands and moves to the one that
    /// follows it. At the end of the chain it yields `None`, and stays there.
    pub fn next(&mut self) -> (r: Option<&'a IpAdapterAddresses>)
        ensures
            old(self).remaining().len() == 0 ==> r is None && final(self).remaining().len() == 0,
            old(self).remaining().len() > 0 ==> r == Some(&old(self).remaining()[0])
                && final(self).remaining() == old(self).remaining().drop_first(),
    {
        match self.next {
            None => None,
            Some(record) => {
                self.next = match &record.next {
                    Some(rest) => Some(&**rest),
                    None => None,
                };
                proof {
                    assert(record.chain().drop_first() =~= adapters_from(record.next));
                }
                Some(record)
            },
        }
    }
}

/// A forward walk over the address prefixes of one adapter.
pub struct PrefixesIterator<'a> {
    _head: &'a IpAdapterAddresses,
    next: Option<&'a IpAdapterPrefix>,
}

impl<'a> PrefixesIterator<'a> {
    /// The prefixes that the walk has not yielded yet, in order.
    pub closed spec fn remaining(&self) -> Seq<IpAdapterPrefix> {
        match self.next {
            None => Seq::empty(),
            Some(record) => record.chain(),
        }
    }

    /// Yields the prefix at which the walk stands and moves to the one that
    /// follows it. At the end of the chain it yields `None`, and stays there.
    pub fn next(&mut self) -> (r: Option<&'a IpAdapterPrefix>)
        ensures
            old(self).remaining().len() == 0 ==> r is None && final(self).remaining().len() == 0,
            old(self).remaining().len() > 0 ==> r == Some(&old(self).remaining()[0])
                && final(self).remaining() == old(self).remaining().drop_first(),
    {
        match self.next {
            None => None,
            Some(record) => {
                self.next = match &record.next {
                    Some(rest) => Some(&**rest),
                    None => None,
                };
                proof {
                    assert(record.chain().drop_first() =~= prefixes_from(record.next));
                }
                Some(record)
            },
        }
    }
}

/// A forward walk over the unicast addresses of one adapter.
pub struct UnicastAddressesIterator<'a> {
    _head: &'a IpAdapterAddresses,
    next: Option<&'a IpAdapterUnicastAddress>,
}

impl<'a> UnicastAddressesIterator<'a> {
    /// The addresses that the walk has not yielded yet, in order.
    pub closed spec fn remaining(&self) -> Seq<IpAdapterUnicastAddress> {
        match self.next {
            None => Seq::empty(),
            Some(record) => record.chain(),
        }
    }

    /// Yields the address at which the walk stands and moves to the one that
    /// follows it. At the end of the chain it yields `None`, and stays there.
    pub fn next(&mut self) -> (r: Option<&'a IpAdapterUnicastAddress>)
        ensures
            old(self).remaining().len() == 0 ==> r is None && final(self).remaining().len() == 0,
            old(self).remaining().len() > 0 ==> r == Some(&old(self).remaining()[0])
                && final(self).remaining() == old(self).remaining().drop_first(),
    {
        match self.next {
            None => None,
            Some(record) => {
                self.next = match &record.next {
                    Some(rest) => Some(&**rest),
                    None => None,
                };
                proof {
                    assert(record.chain().drop_first() =~= unicast_from(record.next));
                }
                Some(record)
            },
        }
    }
}

impl IpAdapterAddresses {
    /// A walk over the adapter's address prefixes, from the first one on.
    pub fn prefixes(&self) -> (r: PrefixesIterator<'_>)
        ensures
            r.remaining() == prefixes_from(self.first_prefix),
    {
        let next: Option<&IpAdapterPrefix> = match &self.first_prefix {
            Some(first) => Some(&**first),
            None => None,
        };
        PrefixesIterator { _head: self, next }
    }

    /// A walk over the adapter's unicast addresses, from the first one on.
    pub fn unicast_addresses(&self) -> (r: UnicastAddressesIterator<'_>)
        ensures
            r.remaining() == unicast_from(self.first_unicast_address),
    {
        let next: Option<&IpAdapterUnicastAddress> = match &self.first_unicast_address {
            Some(first) => Some(&**first),
            None => None,
        };
        UnicastAddressesIterator { _head: self, next }
    }
}

} // verus!
