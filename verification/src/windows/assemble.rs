//! Assembling portable records from adapter records.
use vstd::prelude::*;
use vstd::std_specs::convert::FromSpecImpl;
use crate::endpoint::Endpoint;
use crate::netmask::{get_netmask, spec_get_netmask};
use crate::record::{views, AddressFamily, Enumeration, Hops, IfCfg, IfCfgView, InterfaceAddress};
use crate::text::wide_text;
use crate::windows::native::{
    field_contents, unicast_from, IpAdapterAddresses, IpAdapterUnicastAddress,
};
use crate::windows::sockaddr::sockaddr_to_net_socket_addr;
use crate::windows::walk::Adapters;

verus! {

impl<'a> From<&'a IpAdapterUnicastAddress> for InterfaceAddress {
    /// The portable entry of a unicast address: its family, its endpoint
    /// where the socket address holds one, the netmask of its on-link prefix
    /// where the family has one of that length, and no next hop yet.
    fn from(address: &'a IpAdapterUnicastAddress) -> (r: InterfaceAddress) {
        let family = AddressFamily::from(&address.address);
        InterfaceAddress {
            address_family: family,
            address: sockaddr_to_net_socket_addr(&address.address),
            mask: get_netmask(address.on_link_prefix_length, family),
            hop: None,
        }
    }
}

impl<'a> FromSpecImpl<&'a IpAdapterUnicastAddress> for InterfaceAddress {
    open spec fn obeys_from_spec() -> bool {
        true
    }

    open spec fn from_spec(address: &'a IpAdapterUnicastAddress) -> InterfaceAddress {
        address.entry()
    }
}

impl IpAdapterUnicastAddress {
    /// The portable entry of the address: its family, its endpoint where the
    /// socket address holds one, the netmask of its on-link prefix where the
    /// family has one of that length, and no next hop.
    pub open spec fn entry(self) -> InterfaceAddress {
        InterfaceAddress {
            address_family: self.address.family(),
            address: self.address.endpoint(),
            mask: spec_get_netmask(self.on_link_prefix_length, self.address.family()),
            hop: None,
        }
    }
}

impl IpAdapterAddresses {
    /// The gateway that the adapter's addresses are routed through: what the
    /// first entry of the gateway chain holds, if there is one and it holds
    /// an endpoint.
    pub open spec fn gateway(self) -> Option<Endpoint> {
        match self.first_gateway_address {
            None => None,
            Some(first) => first.address.endpoint(),
        }
    }

    /// The portable entry of one of the adapter's unicast addresses: the
    /// address's own entry, with the next hop that the adapter's gateway
    /// stands for.
    pub open spec fn entry(self, address: IpAdapterUnicastAddress) -> InterfaceAddress {
        InterfaceAddress {
            hop: Hops::spec_resolve(self.gateway()),
            ..address.entry()
        }
    }

    /// The portable record of the adapter: its friendly name, its hardware
    /// address, the entries of its unicast addresses in the order of their
    /// chain, and its description.
    pub open spec fn record(self) -> IfCfgView {
        IfCfgView {
            name: wide_text(field_contents(self.friendly_name)),
            mac: self.spec_mac_address(),
            addresses: unicast_from(self.first_unicast_address).map_values(
                |address: IpAdapterUnicastAddress| self.entry(address),
            ),
            description: wide_text(field_contents(self.description)),
        }
    }
}

/// In the entry of every unicast address, the address and the mask, where
/// the entry has them, are of the family that the entry names: so a mask is
/// always of the family of its address.
pub proof fn lemma_entry_families_agree(address: IpAdapterUnicastAddress)
    ensures
        address.entry().families_agree(),
{
}

/// In the record of every adapter, each entry's address and mask are of the
/// family that the entry names, and each entry has the next hop that the
/// adapter's gateway stands for: none where the adapter has no gateway.
pub proof fn lemma_record_entries(adapter: IpAdapterAddresses)
    ensures
        adapter.record().addresses.len() == unicast_from(adapter.first_unicast_address).len(),
        forall|i: int|
            0 <= i < adapter.record().addresses.len() ==> {
                let entry = #[trigger] adapter.record().addresses[i];
                &&& entry.families_agree()
                &&& entry.hop == Hops::spec_resolve(adapter.gateway())
                &&& (adapter.first_gateway_address is None ==> entry.hop is None)
            },
{
}

impl<'a> FromSpecImpl<&'a IpAdapterAddresses> for IfCfg {
    /// No spec function can build the strings of a record, so the conversion
    /// states what it returns in its own contract, over the record's view.
    open spec fn obeys_from_spec() -> bool {
        false
    }

    open spec fn from_spec(adapter: &'a IpAdapterAddresses) -> IfCfg {
        choose|r: IfCfg| r@ == adapter.record()
    }
}

impl<'a> From<&'a IpAdapterAddresses> for IfCfg {
    /// Assembles the portable record of an adapter.
    fn from(adapter: &'a IpAdapterAddresses) -> (r: IfCfg)
        ensures
            r@ == adapter.record(),
    {
        let hop = match &adapter.first_gateway_address {
            Some(first) => Hops::resolve(sockaddr_to_net_socket_addr(&first.address)),
            None => None,
        };
        let ghost all = unicast_from(adapter.first_unicast_address);
        let ghost entry = |address: IpAdapterUnicastAddress| adapter.entry(address);
        let mut addresses: Vec<InterfaceAddress> = Vec::new();
        let mut walk = adapter.unicast_addresses();
        let ghost mut done: int = 0;
        loop
            invariant
                0 <= done <= all.len(),
                walk.remaining() == all.skip(done),
                addresses@ == all.take(done).map_values(entry),
                hop == Hops::spec_resolve(adapter.gateway()),
                entry == |address: IpAdapterUnicastAddress| adapter.entry(address),
            ensures
                done == all.len(),
            decreases all.len() - done,
        {
            match walk.next() {
                None => {
                    assert(all.skip(done).len() == 0);
                    break ;
                },
                Some(address) => {
                    let mut item = InterfaceAddress::from(address);
                    item.hop = hop;
                    addresses.push(item);
                    proof {
                        assert(all.skip(done)[0] == all[done]);
                        assert(all.skip(done).drop_first() =~= all.skip(done + 1));
                        assert(all.take(done + 1).map_values(entry) =~= all.take(done).map_values(
                            entry,
                        ).push(entry(all[done])));
                        done = done + 1;
                    }
                },
            }
        }
        proof {
            assert(all.take(done) =~= all);
        }
        IfCfg {
            name: adapter.friendly_name(),
            mac: adapter.mac_address(),
            addresses,
            description: adapter.description(),
        }
    }
}

impl Enumeration for Adapters {
    /// The record of each adapter, in the order of the adapters' chain.
    open spec fn portable(&self) -> Seq<IfCfgView> {
        self@.map_values(|adapter: IpAdapterAddresses| adapter.record())
    }

    fn records(&self) -> (r: Vec<IfCfg>) {
        let ghost all = self@;
        let mut results: Vec<IfCfg> = Vec::new();
        let mut walk = self.iter();
        let ghost mut done: int = 0;
        loop
            invariant
                0 <= done <= all.len(),
                walk.remaining() == all.skip(done),
                results@.len() == done,
                forall|i: int| 0 <= i < done ==> (#[trigger] results@[i])@ == all[i].record(),
            ensures
                done == all.len(),
            decreases all.len() - done,
        {
            match walk.next() {
                None => {
                    assert(all.skip(done).len() == 0);
                    break ;
                },
                Some(adapter) => {
                    results.push(IfCfg::from(adapter));
                    proof {
                        assert(all.skip(done)[0] == all[done]);
                        assert(all.skip(done).drop_first() =~= all.skip(done + 1));
                        done = done + 1;
                    }
                },
            }
        }
        proof {
            assert(views(results@) =~= self.portable());
        }
        results
    }
}

} // verus!
