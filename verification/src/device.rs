//! The device/interface domain model: the check-method and status enums with
//! their text forms, the `Interface` and `Device` value types, the interface
//! summary, and the decoder that turns a submitted form into a `Device`.

use crate::text::{eq_ignore_case, lower};
use vstd::prelude::*;

verus! {

/// The monitoring technique used to probe an interface's liveness.
#[derive(Debug, Clone, Copy, PartialEq, Eq, Structural)]
pub enum CheckMethod {
    Http,
    Ping,
    SipPing,
}

/// The observed health of an interface.
#[derive(Debug, Clone, Copy, PartialEq, Eq, Structural)]
pub enum InterfaceStatus {
    Up,
    Down,
}

/// The canonical text form of a check method: its tag name.
pub open spec fn check_method_text(m: CheckMethod) -> Seq<char> {
    match m {
        CheckMethod::Http => "Http"@,
        CheckMethod::Ping => "Ping"@,
        CheckMethod::SipPing => "SipPing"@,
    }
}

/// The canonical text form of an interface status: its tag name.
pub open spec fn status_text(s: InterfaceStatus) -> Seq<char> {
    match s {
        InterfaceStatus::Up => "Up"@,
        InterfaceStatus::Down => "Down"@,
    }
}

/// What free text parses to as a check method: the tag names compared
/// case-insensitively, plus the hyphenated alias for `SipPing`.
pub open spec fn parse_check_method(s: Seq<char>) -> Option<CheckMethod> {
    let l = lower(s);
    if l == lower("Ping"@) {
        Some(CheckMethod::Ping)
    } else if l == lower("Http"@) {
        Some(CheckMethod::Http)
    } else if l == lower("SipPing"@) || l == lower("sip-ping"@) {
        Some(CheckMethod::SipPing)
    } else {
        None
    }
}

/// What free text parses to as an interface status: the tag names compared
/// case-insensitively.
pub open spec fn parse_status(s: Seq<char>) -> Option<InterfaceStatus> {
    let l = lower(s);
    if l == lower("Up"@) {
        Some(InterfaceStatus::Up)
    } else if l == lower("Down"@) {
        Some(InterfaceStatus::Down)
    } else {
        None
    }
}

impl CheckMethod {
    /// The canonical name of this check method.
    pub fn format(&self) -> (r: &'static str)
        ensures
            r@ == check_method_text(*self),
    {
        match self {
            CheckMethod::Http => "Http",
            CheckMethod::Ping => "Ping",
            CheckMethod::SipPing => "SipPing",
        }
    }

    /// Parses free text into a check method, or fails on anything outside
    /// the documented spellings.
    pub fn parse(s: &str) -> (r: Result<CheckMethod, ()>)
        ensures
            (match parse_check_method(s@) {
                Some(m) => r == Result::<CheckMethod, ()>::Ok(m),
                None => r == Result::<CheckMethod, ()>::Err(()),
            }),
    {
        if eq_ignore_case(s, "Ping") {
            Ok(CheckMethod::Ping)
        } else if eq_ignore_case(s, "Http") {
            Ok(CheckMethod::Http)
        } else if eq_ignore_case(s, "SipPing") || eq_ignore_case(s, "sip-ping") {
            Ok(CheckMethod::SipPing)
        } else {
            Err(())
        }
    }
}

impl InterfaceStatus {
    /// The canonical name of this status.
    pub fn format(&self) -> (r: &'static str)
        ensures
            r@ == status_text(*self),
    {
        match self {
            InterfaceStatus::Up => "Up",
            InterfaceStatus::Down => "Down",
        }
    }

    /// Parses free text into a status, or fails on anything outside the
    /// documented spellings.
    pub fn parse(s: &str) -> (r: Result<InterfaceStatus, ()>)
        ensures
            (match parse_status(s@) {
                Some(v) => r == Result::<InterfaceStatus, ()>::Ok(v),
                None => r == Result::<InterfaceStatus, ()>::Err(()),
            }),
    {
        if eq_ignore_case(s, "Up") {
            Ok(InterfaceStatus::Up)
        } else if eq_ignore_case(s, "Down") {
            Ok(InterfaceStatus::Down)
        } else {
            Err(())
        }
    }
}

/// One monitored endpoint on a device: its address, how it is probed, and
/// the last observed status.
#[derive(Debug, Clone, PartialEq)]
pub struct Interface {
    pub check_method: CheckMethod,
    pub interface: String,
    pub status: InterfaceStatus,
}

/// Mathematical model of an [`Interface`].
pub struct InterfaceModel {
    pub check_method: CheckMethod,
    pub interface: Seq<char>,
    pub status: InterfaceStatus,
}

impl View for Interface {
    type V = InterfaceModel;

    open spec fn view(&self) -> InterfaceModel {
        InterfaceModel {
            check_method: self.check_method,
            interface: self.interface@,
            status: self.status,
        }
    }
}

impl Default for Interface {
    /// The blank interface row: probed by ping, empty address, down.
    fn default() -> (r: Interface)
        ensures
            r@.check_method == CheckMethod::Ping,
            r@.interface.len() == 0,
            r@.status == InterfaceStatus::Down,
    {
        Interface {
            check_method: CheckMethod::Ping,
            interface: String::new(),
            status: InterfaceStatus::Down,
        }
    }
}

/// A managed network node: identity, name, location, and its interfaces in
/// display order.
#[derive(Debug, Clone, PartialEq)]
pub struct Device {
    pub node_id: u128,
    pub name: String,
    pub location: String,
    pub interfaces: Vec<Interface>,
}

/// Mathematical model of a [`Device`].
pub struct DeviceModel {
    pub node_id: u128,
    pub name: Seq<char>,
    pub location: Seq<char>,
    pub interfaces: Seq<InterfaceModel>,
}

impl View for Device {
    type V = DeviceModel;

    open spec fn view(&self) -> DeviceModel {
        DeviceModel {
            node_id: self.node_id,
            name: self.name@,
            location: self.location@,
            interfaces: self.interfaces@.map_values(|i: Interface| i@),
        }
    }
}

/// Relies on `uuid::Uuid::new_v4`: a freshly generated random identifier,
/// read out as its 128-bit value. Nothing is promised of the value.
#[verifier::external_body]
fn fresh_node_id() -> u128 {
    uuid::Uuid::new_v4().as_u128()
}

/// How many of the modelled interfaces are up.
pub open spec fn up_count(s: Seq<InterfaceModel>) -> int
    decreases s.len(),
{
    if s.len() == 0 {
        0
    } else {
        up_count(s.drop_last()) + (if s.last().status == InterfaceStatus::Up {
            1int
        } else {
            0int
        })
    }
}

impl Device {
    /// The pair shown in the list's state column: how many interfaces are
    /// up, and how many there are in all.
    pub fn interface_summary(&self) -> (r: (usize, usize))
        ensures
            r.0 == up_count(self@.interfaces),
            r.1 == self@.interfaces.len(),
    {
        let total = self.interfaces.len();
        let mut up: usize = 0;
        let mut i: usize = 0;
        while i < total
            invariant
                i <= total,
                total == self.interfaces@.len(),
                up <= i,
                up == up_count(self@.interfaces.take(i as int)),
            decreases total - i,
        {
            proof {
                assert(self@.interfaces.take(i + 1).drop_last() =~= self@.interfaces.take(
                    i as int,
                ));
                assert(self@.interfaces.take(i + 1).last() == self@.interfaces[i as int]);
            }
            if self.interfaces[i].status == InterfaceStatus::Up {
                up = up + 1;
            }
            i = i + 1;
        }
        proof {
            assert(self@.interfaces.take(total as int) =~= self@.interfaces);
        }
        (up, total)
    }
}

impl Default for Device {
    /// A blank device under a freshly generated identity.
    fn default() -> (r: Device)
        ensures
            r@.name.len() == 0,
            r@.location.len() == 0,
            r@.interfaces.len() == 0,
    {
        Device {
            node_id: fresh_node_id(),
            name: String::new(),
            location: String::new(),
            interfaces: Vec::new(),
        }
    }
}

/// A submitted device form: the single-valued name and location fields plus
/// the two parallel multi-valued per-row fields, one entry per interface row.
#[derive(Debug, Clone)]
pub struct FormSnapshot {
    pub name: String,
    pub location: String,
    pub iface_addresses: Vec<String>,
    pub iface_check_methods: Vec<String>,
}

/// Mathematical model of a [`FormSnapshot`].
pub struct FormModel {
    pub name: Seq<char>,
    pub location: Seq<char>,
    pub iface_addresses: Seq<Seq<char>>,
    pub iface_check_methods: Seq<Seq<char>>,
}

impl View for FormSnapshot {
    type V = FormModel;

    open spec fn view(&self) -> FormModel {
        FormModel {
            name: self.name@,
            location: self.location@,
            iface_addresses: self.iface_addresses@.map_values(|s: String| s@),
            iface_check_methods: self.iface_check_methods@.map_values(|s: String| s@),
        }
    }
}

/// The check method a form row decodes to: a parse failure never aborts the
/// decode, it falls back to `Ping`.
pub open spec fn decoded_check_method(s: Seq<char>) -> CheckMethod {
    match parse_check_method(s) {
        Some(m) => m,
        None => CheckMethod::Ping,
    }
}

/// The interfaces a form decodes to: addresses and check methods are zipped
/// by position, the longer list is truncated to the shorter, and every
/// decoded row starts out `Down` (the form does not carry status).
pub open spec fn decoded_interfaces(addrs: Seq<Seq<char>>, methods: Seq<Seq<char>>) -> Seq<
    InterfaceModel,
> {
    let n = if addrs.len() <= methods.len() {
        addrs.len()
    } else {
        methods.len()
    };
    Seq::new(
        n,
        |i: int|
            InterfaceModel {
                check_method: decoded_check_method(methods[i]),
                interface: addrs[i],
                status: InterfaceStatus::Down,
            },
    )
}

/// The device a form decodes to, under a given identity.
pub open spec fn decoded_device(node_id: u128, f: FormModel) -> DeviceModel {
    DeviceModel {
        node_id: node_id,
        name: f.name,
        location: f.location,
        interfaces: decoded_interfaces(f.iface_addresses, f.iface_check_methods),
    }
}

impl Device {
    /// Decodes a submitted form into a device that keeps the given identity;
    /// the edit flow uses this so that saving an edit does not re-key the
    /// device.
    pub fn decode_form_with_id(node_id: u128, form: &FormSnapshot) -> (d: Device)
        ensures
            d@ == decoded_device(node_id, form@),
    {
        let n_addr = form.iface_addresses.len();
        let n_meth = form.iface_check_methods.len();
        let n = if n_addr <= n_meth {
            n_addr
        } else {
            n_meth
        };
        let ghost model = decoded_interfaces(form@.iface_addresses, form@.iface_check_methods);
        let mut interfaces: Vec<Interface> = Vec::new();
        let mut i: usize = 0;
        while i < n
            invariant
                i <= n,
                n <= form.iface_addresses@.len(),
                n <= form.iface_check_methods@.len(),
                model == decoded_interfaces(form@.iface_addresses, form@.iface_check_methods),
                n == model.len(),
                interfaces@.len() == i,
                forall|j: int| 0 <= j < i ==> #[trigger] interfaces@[j]@ == model[j],
            decreases n - i,
        {
            let address = form.iface_addresses[i].clone();
            let check_method = match CheckMethod::parse(form.iface_check_methods[i].as_str()) {
                Ok(m) => m,
                Err(_) => CheckMethod::Ping,
            };
            let row = Interface { check_method, interface: address, status: InterfaceStatus::Down };
            interfaces.push(row);
            i = i + 1;
        }
        let d = Device {
            node_id,
            name: form.name.clone(),
            location: form.location.clone(),
            interfaces,
        };
        proof {
            assert(d@.interfaces =~= model);
        }
        d
    }

    /// Decodes a submitted form into a brand-new device: same field rules as
    /// [`Device::decode_form_with_id`], but a fresh identity is generated, so
    /// this is "create" semantics.
    pub fn decode_form(form: &FormSnapshot) -> (d: Device)
        ensures
            d@.name == form@.name,
            d@.location == form@.location,
            d@.interfaces == decoded_interfaces(form@.iface_addresses, form@.iface_check_methods),
    {
        Device::decode_form_with_id(fresh_node_id(), form)
    }
}

/// Round trip: every check method's canonical text parses back to it.
pub proof fn lemma_parse_format_check_method(m: CheckMethod)
    ensures
        parse_check_method(check_method_text(m)) == Some(m),
{
    reveal_strlit("Ping");
    reveal_strlit("Http");
    reveal_strlit("SipPing");
    match m {
        CheckMethod::Ping => {
        },
        CheckMethod::Http => {
            assert(lower("Http"@)[0] != lower("Ping"@)[0]);
        },
        CheckMethod::SipPing => {
            assert(lower("SipPing"@).len() != lower("Ping"@).len());
            assert(lower("SipPing"@).len() != lower("Http"@).len());
        },
    }
}

/// Round trip: every status's canonical text parses back to it.
pub proof fn lemma_parse_format_status(s: InterfaceStatus)
    ensures
        parse_status(status_text(s)) == Some(s),
{
    reveal_strlit("Up");
    reveal_strlit("Down");
    match s {
        InterfaceStatus::Up => {
        },
        InterfaceStatus::Down => {
            assert(lower("Down"@).len() != lower("Up"@).len());
        },
    }
}

} // verus!
