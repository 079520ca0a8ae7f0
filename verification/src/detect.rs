//! Device discovery heuristics: classifying serial endpoints by their USB
//! descriptors, ordering probe candidates, judging probe answers, and
//! rendering endpoint diagnostics.
use crate::packet::RadioEvent;
use crate::text::{
    any_contained, contains_seq, hex4_upper, hex4_upper_string, lower, starts_with, str_contains,
    str_contains_fold, str_starts_with,
};
use vstd::prelude::*;
use vstd::string::StringExecFns;

verus! {

/// The USB descriptor fields the heuristics read.
pub struct UsbInfo {
    pub vid: u16,
    pub pid: u16,
    pub manufacturer: Option<String>,
    pub product: Option<String>,
    pub serial_number: Option<String>,
}

/// One serial endpoint: its path and, for USB endpoints, its descriptor.
pub struct PortDescriptor {
    pub name: String,
    pub usb: Option<UsbInfo>,
}

/// Discovery-time confidence in an endpoint.
#[derive(Clone, Copy, Debug, PartialEq, Eq, Structural)]
pub enum PortClass {
    Likely,
    Possible,
    Unrelated,
}

/// USB vendor/product id pairs of known mesh radio boards.
pub open spec fn likely_usb_ids() -> Seq<(u16, u16)> {
    seq![
        (0x239au16, 0x4000u16),
        (0x239au16, 0x8029u16),
        (0x303au16, 0x1001u16),
        (0x10c4u16, 0xea60u16),
        (0x0403u16, 0x6001u16),
        (0x0403u16, 0x6015u16),
        (0x1a86u16, 0x55d4u16),
        (0x2e8au16, 0x000au16),
    ]
}

/// Product strings that indicate known mesh radio hardware.
pub open spec fn likely_products() -> Seq<Seq<char>> {
    seq![
        "RAK4631"@,
        "LILYGO"@,
        "T-Beam"@,
        "T-Echo"@,
        "Heltec"@,
        "Nano G1"@,
        "Station G1"@,
        "CP210"@,
        "CH910"@,
        "FT232"@,
        "Meshtastic"@,
        "WisBlock"@,
    ]
}

/// Manufacturer keywords, matched against the case-folded string.
pub open spec fn likely_manufacturers() -> Seq<Seq<char>> {
    seq!["meshtastic"@, "rak"@, "lilygo"@, "heltec"@]
}

/// USB ids of generic USB-serial bridge chips that might carry a radio.
pub open spec fn possible_usb_ids() -> Seq<(u16, u16)> {
    seq![
        (0x10c4u16, 0xea60u16),
        (0x1a86u16, 0x7523u16),
        (0x1a86u16, 0x55d4u16),
        (0x0403u16, 0x6001u16),
        (0x0403u16, 0x6015u16),
    ]
}

/// Product keywords suggesting a microcontroller, matched case-folded.
pub open spec fn possible_products() -> Seq<Seq<char>> {
    seq!["esp32"@, "usb"@, "uart"@]
}

/// Whether the vendor/product id pair stands in the table.
pub open spec fn id_listed(vid: u16, pid: u16, ids: Seq<(u16, u16)>) -> bool {
    exists|i: int| 0 <= i < ids.len() && ids[i].0 == vid && ids[i].1 == pid
}

/// Whether a descriptor marks a likely mesh radio: a known board id, a known
/// manufacturer keyword (case-folded), a known product string, or a serial
/// number that begins with "M" or mentions "mesh".
pub open spec fn likely_spec(p: PortDescriptor) -> bool {
    match p.usb {
        Some(u) => {
            ||| id_listed(u.vid, u.pid, likely_usb_ids())
            ||| (u.manufacturer matches Some(m) && any_contained(lower(m@), likely_manufacturers()))
            ||| (u.product matches Some(pr) && any_contained(pr@, likely_products()))
            ||| (u.serial_number matches Some(s) && (starts_with(s@, "M"@) || contains_seq(
                s@,
                "mesh"@,
            )))
        },
        None => false,
    }
}

/// Whether a descriptor marks a possible mesh radio: a generic USB-serial
/// bridge chip, or a product string suggesting a microcontroller.
pub open spec fn possible_spec(p: PortDescriptor) -> bool {
    match p.usb {
        Some(u) => {
            ||| id_listed(u.vid, u.pid, possible_usb_ids())
            ||| (u.product matches Some(pr) && any_contained(lower(pr@), possible_products()))
        },
        None => false,
    }
}

/// The classification of one endpoint. Endpoints whose path mentions a
/// short-range wireless adapter are unrelated whatever their descriptor says.
pub open spec fn classify_spec(p: PortDescriptor) -> PortClass {
    if contains_seq(p.name@, "Bluetooth"@) {
        PortClass::Unrelated
    } else if likely_spec(p) {
        PortClass::Likely
    } else if possible_spec(p) {
        PortClass::Possible
    } else {
        PortClass::Unrelated
    }
}

fn likely_usb_id_table() -> (r: Vec<(u16, u16)>)
    ensures
        r@ == likely_usb_ids(),
{
    let mut v: Vec<(u16, u16)> = Vec::new();
    v.push((0x239a, 0x4000));
    v.push((0x239a, 0x8029));
    v.push((0x303a, 0x1001));
    v.push((0x10c4, 0xea60));
    v.push((0x0403, 0x6001));
    v.push((0x0403, 0x6015));
    v.push((0x1a86, 0x55d4));
    v.push((0x2e8a, 0x000a));
    proof {
        assert(v@ =~= likely_usb_ids());
    }
    v
}

fn possible_usb_id_table() -> (r: Vec<(u16, u16)>)
    ensures
        r@ == possible_usb_ids(),
{
    let mut v: Vec<(u16, u16)> = Vec::new();
    v.push((0x10c4, 0xea60));
    v.push((0x1a86, 0x7523));
    v.push((0x1a86, 0x55d4));
    v.push((0x0403, 0x6001));
    v.push((0x0403, 0x6015));
    proof {
        assert(v@ =~= possible_usb_ids());
    }
    v
}

fn likely_product_table() -> (r: Vec<&'static str>)
    ensures
        r.deep_view() == likely_products(),
{
    let mut v: Vec<&'static str> = Vec::new();
    v.push("RAK4631");
    v.push("LILYGO");
    v.push("T-Beam");
    v.push("T-Echo");
    v.push("Heltec");
    v.push("Nano G1");
    v.push("Station G1");
    v.push("CP210");
    v.push("CH910");
    v.push("FT232");
    v.push("Meshtastic");
    v.push("WisBlock");
    proof {
        assert(v.deep_view() =~= likely_products());
    }
    v
}

fn likely_manufacturer_table() -> (r: Vec<&'static str>)
    ensures
        r.deep_view() == likely_manufacturers(),
{
    let mut v: Vec<&'static str> = Vec::new();
    v.push("meshtastic");
    v.push("rak");
    v.push("lilygo");
    v.push("heltec");
    proof {
        assert(v.deep_view() =~= likely_manufacturers());
    }
    v
}

fn possible_product_table() -> (r: Vec<&'static str>)
    ensures
        r.deep_view() == possible_products(),
{
    let mut v: Vec<&'static str> = Vec::new();
    v.push("esp32");
    v.push("usb");
    v.push("uart");
    proof {
        assert(v.deep_view() =~= possible_products());
    }
    v
}

fn id_in_table(vid: u16, pid: u16, t: &Vec<(u16, u16)>) -> (r: bool)
    ensures
        r == id_listed(vid, pid, t@),
{
    let mut i: usize = 0;
    while i < t.len()
        invariant
            0 <= i <= t@.len(),
            forall|j: int| 0 <= j < i ==> !(t@[j].0 == vid && t@[j].1 == pid),
        decreases t@.len() - i,
    {
        if t[i].0 == vid && t[i].1 == pid {
            return true;
        }
        i = i + 1;
    }
    false
}

fn any_str_contained(h: &str, t: &Vec<&str>) -> (r: bool)
    ensures
        r == any_contained(h@, t.deep_view()),
{
    let mut i: usize = 0;
    while i < t.len()
        invariant
            0 <= i <= t@.len(),
            t.deep_view().len() == t@.len(),
            forall|j: int| 0 <= j < i ==> !contains_seq(h@, t.deep_view()[j]),
        decreases t@.len() - i,
    {
        if str_contains(h, t[i]) {
            proof {
                assert(t.deep_view()[i as int] == t@[i as int]@);
            }
            return true;
        }
        proof {
            assert(t.deep_view()[i as int] == t@[i as int]@);
        }
        i = i + 1;
    }
    false
}

fn any_str_contained_fold(h: &str, t: &Vec<&str>) -> (r: bool)
    ensures
        r == any_contained(lower(h@), t.deep_view()),
{
    let mut i: usize = 0;
    while i < t.len()
        invariant
            0 <= i <= t@.len(),
            t.deep_view().len() == t@.len(),
            forall|j: int| 0 <= j < i ==> !contains_seq(lower(h@), t.deep_view()[j]),
        decreases t@.len() - i,
    {
        if str_contains_fold(h, t[i]) {
            proof {
                assert(t.deep_view()[i as int] == t@[i as int]@);
            }
            return true;
        }
        proof {
            assert(t.deep_view()[i as int] == t@[i as int]@);
        }
        i = i + 1;
    }
    false
}

/// Whether the endpoint's descriptor marks a likely mesh radio.
pub fn is_likely_meshtastic(p: &PortDescriptor) -> (r: bool)
    ensures
        r == likely_spec(*p),
{
    match &p.usb {
        Some(u) => {
            let ids = likely_usb_id_table();
            if id_in_table(u.vid, u.pid, &ids) {
                return true;
            }
            match &u.manufacturer {
                Some(m) => {
                    let t = likely_manufacturer_table();
                    if any_str_contained_fold(m.as_str(), &t) {
                        return true;
                    }
                },
                None => {},
            }
            match &u.product {
                Some(pr) => {
                    let t = likely_product_table();
                    if any_str_contained(pr.as_str(), &t) {
                        return true;
                    }
                },
                None => {},
            }
            match &u.serial_number {
                Some(s) => {
                    if str_starts_with(s.as_str(), "M") || str_contains(s.as_str(), "mesh") {
                        return true;
                    }
                },
                None => {},
            }
            false
        },
        None => false,
    }
}

/// Whether the endpoint's descriptor marks a possible mesh radio.
pub fn is_possible_meshtastic(p: &PortDescriptor) -> (r: bool)
    ensures
        r == possible_spec(*p),
{
    match &p.usb {
        Some(u) => {
            let ids = possible_usb_id_table();
            if id_in_table(u.vid, u.pid, &ids) {
                return true;
            }
            match &u.product {
                Some(pr) => {
                    let t = possible_product_table();
                    if any_str_contained_fold(pr.as_str(), &t) {
                        return true;
                    }
                },
                None => {},
            }
            false
        },
        None => false,
    }
}

/// Classifies one endpoint into the discovery confidence tiers.
pub fn classify_port(p: &PortDescriptor) -> (c: PortClass)
    ensures
        c == classify_spec(*p),
{
    if str_contains(p.name.as_str(), "Bluetooth") {
        PortClass::Unrelated
    } else if is_likely_meshtastic(p) {
        PortClass::Likely
    } else if is_possible_meshtastic(p) {
        PortClass::Possible
    } else {
        PortClass::Unrelated
    }
}

/// The endpoint paths of one class, in enumeration order.
pub open spec fn names_of_class(s: Seq<PortDescriptor>, c: PortClass) -> Seq<Seq<char>>
    decreases s.len(),
{
    if s.len() == 0 {
        Seq::empty()
    } else {
        names_of_class(s.drop_last(), c) + if classify_spec(s.last()) == c {
            seq![s.last().name@]
        } else {
            Seq::empty()
        }
    }
}

/// The order in which candidates are probed: every likely endpoint, in
/// enumeration order, before any possible endpoint; unrelated endpoints are
/// never probed.
pub fn probe_order(ports: &Vec<PortDescriptor>) -> (r: Vec<String>)
    ensures
        r.deep_view() == names_of_class(ports@, PortClass::Likely) + names_of_class(
            ports@,
            PortClass::Possible,
        ),
{
    let mut r: Vec<String> = Vec::new();
    let mut i: usize = 0;
    while i < ports.len()
        invariant
            0 <= i <= ports@.len(),
            r.deep_view() == names_of_class(ports@.take(i as int), PortClass::Likely),
        decreases ports@.len() - i,
    {
        let ghost pre = r.deep_view();
        let c = classify_port(&ports[i]);
        let mut took: bool = false;
        match c {
            PortClass::Likely => {
                r.push(ports[i].name.clone());
                took = true;
            },
            _ => {},
        }
        proof {
            assert(ports@.take(i + 1).drop_last() =~= ports@.take(i as int));
            assert(ports@.take(i + 1).last() == ports@[i as int]);
            if took {
                assert(r.deep_view() =~= pre.push(ports@[i as int].name@));
                assert(r.deep_view() =~= names_of_class(ports@.take(i + 1), PortClass::Likely));
            } else {
                assert(r.deep_view() =~= names_of_class(ports@.take(i + 1), PortClass::Likely));
            }
        }
        i = i + 1;
    }
    proof {
        assert(ports@.take(ports@.len() as int) =~= ports@);
    }
    let ghost likely_names = r.deep_view();
    let mut j: usize = 0;
    while j < ports.len()
        invariant
            0 <= j <= ports@.len(),
            likely_names == names_of_class(ports@, PortClass::Likely),
            r.deep_view() == likely_names + names_of_class(
                ports@.take(j as int),
                PortClass::Possible,
            ),
        decreases ports@.len() - j,
    {
        let ghost pre = r.deep_view();
        let c = classify_port(&ports[j]);
        let mut took: bool = false;
        match c {
            PortClass::Possible => {
                r.push(ports[j].name.clone());
                took = true;
            },
            _ => {},
        }
        proof {
            assert(ports@.take(j + 1).drop_last() =~= ports@.take(j as int));
            assert(ports@.take(j + 1).last() == ports@[j as int]);
            if took {
                assert(r.deep_view() =~= pre.push(ports@[j as int].name@));
            }
            assert(r.deep_view() =~= likely_names + names_of_class(
                ports@.take(j + 1),
                PortClass::Possible,
            ));
        }
        j = j + 1;
    }
    proof {
        assert(ports@.take(ports@.len() as int) =~= ports@);
    }
    r
}

/// Whether a probe's first decoded event verifies a candidate device: the
/// device's own identity, a node identity, a device configuration item, or a
/// mesh packet; anything else means "not this device".
pub open spec fn verifying_event(ev: RadioEvent) -> bool {
    match ev {
        RadioEvent::Packet(_) => true,
        RadioEvent::NodeInfo { .. } => true,
        RadioEvent::MyInfo { .. } => true,
        RadioEvent::DeviceConfig => true,
        RadioEvent::Other => false,
    }
}

/// Judges the first decoded event a probed candidate answered with.
pub fn probe_verifies(ev: &RadioEvent) -> (r: bool)
    ensures
        r == verifying_event(*ev),
{
    match ev {
        RadioEvent::Other => false,
        _ => true,
    }
}

/// The diagnostic line for one endpoint: manufacturer, product, and hex
/// vendor/product ids for USB endpoints, a fixed line otherwise.
pub open spec fn port_description(p: PortDescriptor) -> Seq<char> {
    match p.usb {
        Some(u) => {
            (match u.manufacturer {
                Some(m) => m@,
                None => "Unknown"@,
            }) + " - "@ + (match u.product {
                Some(pr) => pr@,
                None => "Unknown"@,
            }) + " (VID:"@ + hex4_upper(u.vid) + " PID:"@ + hex4_upper(u.pid) + ")"@
        },
        None => "Unknown device"@,
    }
}

/// Renders the diagnostic line for one endpoint.
pub fn get_port_description(p: &PortDescriptor) -> (r: String)
    ensures
        r@ == port_description(*p),
{
    match &p.usb {
        Some(u) => {
            let mut s = match &u.manufacturer {
                Some(m) => m.clone(),
                None => String::from_str("Unknown"),
            };
            s.append(" - ");
            match &u.product {
                Some(pr) => s.append(pr.as_str()),
                None => s.append("Unknown"),
            }
            s.append(" (VID:");
            let vid = hex4_upper_string(u.vid);
            s.append(vid.as_str());
            s.append(" PID:");
            let pid = hex4_upper_string(u.pid);
            s.append(pid.as_str());
            s.append(")");
            s
        },
        None => String::from_str("Unknown device"),
    }
}

} // verus!
