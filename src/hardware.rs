//! Machines and their network description in validated form.
use crate::collect::{collect, collected, views, FromWire};
use crate::wire::{WireDhcp, WireHardware, WireInterface, WireNetwork};
use crate::workflow::WorkflowError;
use vstd::prelude::*;

verus! {

#[derive(Clone, Debug)]
pub struct Dhcp {
    pub hostname: String,
}

impl View for Dhcp {
    type V = Seq<char>;

    open spec fn view(&self) -> Seq<char> {
        self.hostname@
    }
}

/// A network interface; its view is the DHCP hostname, where there is one.
#[derive(Clone, Debug)]
pub struct Interface {
    pub dhcp: Option<Dhcp>,
}

impl View for Interface {
    type V = Option<Seq<char>>;

    open spec fn view(&self) -> Option<Seq<char>> {
        match self.dhcp {
            Some(d) => Some(d@),
            None => None,
        }
    }
}

/// The interfaces of a machine, in the order the service gave them.
#[derive(Clone, Debug)]
pub struct Network {
    pub interfaces: Vec<Interface>,
}

impl View for Network {
    type V = Seq<Option<Seq<char>>>;

    open spec fn view(&self) -> Seq<Option<Seq<char>>> {
        views(self.interfaces@)
    }
}

#[derive(Clone, Debug)]
pub struct Hardware {
    pub id: String,
    pub network: Option<Network>,
}

pub struct HardwareView {
    pub id: Seq<char>,
    pub network: Option<Seq<Option<Seq<char>>>>,
}

impl View for Hardware {
    type V = HardwareView;

    open spec fn view(&self) -> HardwareView {
        HardwareView {
            id: self.id@,
            network: match self.network {
                Some(n) => Some(n@),
                None => None,
            },
        }
    }
}

pub open spec fn dhcp_spec(d: WireDhcp) -> Option<Seq<char>> {
    Some(d.hostname@)
}

/// A DHCP record that does not convert leaves the interface without one.
pub open spec fn interface_spec(i: WireInterface) -> Option<Option<Seq<char>>> {
    match i.dhcp {
        Some(d) => Some(dhcp_spec(d)),
        None => Some(None),
    }
}

/// Interfaces that do not convert are left out.
pub open spec fn network_spec(n: WireNetwork) -> Option<Seq<Option<Seq<char>>>> {
    Some(collected::<WireInterface, Interface>(n.interfaces@))
}

/// A network that does not convert leaves the machine without one.
pub open spec fn hardware_spec(h: WireHardware) -> Option<HardwareView> {
    Some(
        HardwareView {
            id: h.id@,
            network: match h.network {
                Some(n) => network_spec(n),
                None => None,
            },
        },
    )
}

/// The view of a conversion that cannot fail.
pub open spec fn ok_view<T: View>(r: Result<T, WorkflowError>) -> Option<T::V> {
    match r {
        Ok(x) => Some(x@),
        Err(_) => None,
    }
}

impl Dhcp {
    pub fn try_from(dhcp: WireDhcp) -> (r: Result<Dhcp, WorkflowError>)
        ensures
            ok_view(r) == dhcp_spec(dhcp),
    {
        Ok(Dhcp { hostname: dhcp.hostname })
    }
}

impl Interface {
    pub fn try_from(interface: WireInterface) -> (r: Result<Interface, WorkflowError>)
        ensures
            ok_view(r) == interface_spec(interface),
    {
        let dhcp = match interface.dhcp {
            Some(d) => match Dhcp::try_from(d) {
                Ok(d) => Some(d),
                Err(_) => None,
            },
            None => None,
        };
        Ok(Interface { dhcp })
    }
}

impl Network {
    pub fn try_from(network: WireNetwork) -> (r: Result<Network, WorkflowError>)
        ensures
            ok_view(r) == network_spec(network),
    {
        let interfaces: Vec<Interface> = collect(network.interfaces);
        Ok(Network { interfaces })
    }
}

impl Hardware {
    pub fn try_from(hw: WireHardware) -> (r: Result<Hardware, WorkflowError>)
        ensures
            ok_view(r) == hardware_spec(hw),
    {
        let network = match hw.network {
            Some(n) => match Network::try_from(n) {
                Ok(n) => Some(n),
                Err(_) => None,
            },
            None => None,
        };
        Ok(Hardware { id: hw.id, network })
    }
}

impl FromWire<WireInterface> for Interface {
    open spec fn from_wire_spec(w: WireInterface) -> Option<Option<Seq<char>>> {
        interface_spec(w)
    }

    fn from_wire(w: WireInterface) -> (r: Option<Interface>) {
        match Interface::try_from(w) {
            Ok(x) => Some(x),
            Err(_) => None,
        }
    }
}

impl FromWire<WireHardware> for Hardware {
    open spec fn from_wire_spec(w: WireHardware) -> Option<HardwareView> {
        hardware_spec(w)
    }

    fn from_wire(w: WireHardware) -> (r: Option<Hardware>) {
        match Hardware::try_from(w) {
            Ok(x) => Some(x),
            Err(_) => None,
        }
    }
}

} // verus!
