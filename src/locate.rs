//! Finding the keyboard among the raw HID devices.
//!
//! The scan is a small state machine: `begin_scan` classifies the transport
//! from the candidates, and `after_inspect` decides, from the attributes of
//! the candidate just read, whether it is the keyboard or which candidate to
//! read next. Reading the device tree is left to the caller.
use crate::descriptor::{descriptor_matches, descriptor_ok, Descriptor};
use vstd::prelude::*;
use vstd::string::*;

verus! {

/// Number of raw HID interfaces the keyboard exposes over USB.
pub const USB_INTERFACES: usize = 6;

/// Number of raw HID interfaces the keyboard exposes over its wireless
/// receiver.
pub const WIFI_INTERFACES: usize = 7;

/// Whether a device file name carries the raw HID prefix `hidraw`.
pub open spec fn has_hidraw_prefix(name: Seq<char>) -> bool {
    name.len() >= 6 && name.subrange(0, 6) == "hidraw"@
}

/// Decides whether a device file name starts with `hidraw`.
pub fn has_device_prefix(name: &str) -> (r: bool)
    ensures
        r == has_hidraw_prefix(name@),
{
    let prefix = "hidraw";
    proof {
        reveal_strlit("hidraw");
    }
    if name.unicode_len() < 6 {
        return false;
    }
    let mut i: usize = 0;
    while i < 6
        invariant
            prefix@ == "hidraw"@,
            prefix@.len() == 6,
            name@.len() >= 6,
            i <= 6,
            name@.subrange(0, i as int) == prefix@.subrange(0, i as int),
        decreases 6 - i,
    {
        if name.get_char(i) != prefix.get_char(i) {
            assert(name@.subrange(0, 6)[i as int] != prefix@[i as int]);
            return false;
        }
        assert(name@.subrange(0, i + 1) =~= name@.subrange(0, i as int).push(name@[i as int]));
        assert(prefix@.subrange(0, i + 1) =~= prefix@.subrange(0, i as int).push(
            prefix@[i as int],
        ));
        i = i + 1;
    }
    assert(prefix@ =~= prefix@.subrange(0, 6));
    true
}

/// The sysfs path whose symlinks lead to the hardware behind a raw HID
/// device: `/sys/class/hidraw/<name>/device`.
pub open spec fn sysfs_device_spec(name: Seq<char>) -> Seq<char> {
    "/sys/class/hidraw/"@ + name + "/device"@
}

/// Builds the sysfs path of a raw HID device from its file name.
pub fn sysfs_device_path(name: &str) -> (r: String)
    ensures
        r@ == sysfs_device_spec(name@),
{
    let mut path = String::from_str("/sys/class/hidraw/");
    path.append(name);
    path.append("/device");
    path
}

/// How the keyboard is connected, as told by the number of raw HID devices.
#[derive(Clone, Copy, Debug, PartialEq, Eq, Structural)]
pub enum ConnectionType {
    Usb,
    Wifi,
    Unknown,
}

/// The transport that a number of raw HID devices stands for: six for USB,
/// seven for the wireless receiver, anything else unknown.
pub open spec fn connection_of(count: nat) -> ConnectionType {
    if count == USB_INTERFACES {
        ConnectionType::Usb
    } else if count == WIFI_INTERFACES {
        ConnectionType::Wifi
    } else {
        ConnectionType::Unknown
    }
}

/// Classifies the transport from the candidates found.
pub fn determine_connection(paths: &[String]) -> (r: ConnectionType)
    ensures
        r == connection_of(paths@.len()),
{
    let count = paths.len();
    if count == USB_INTERFACES {
        ConnectionType::Usb
    } else if count == WIFI_INTERFACES {
        ConnectionType::Wifi
    } else {
        ConnectionType::Unknown
    }
}

/// Why a scan ended without finding the keyboard.
#[derive(Clone, Copy, Debug, PartialEq, Eq, Structural)]
pub enum NotFoundReason {
    /// The keyboard seems to be on USB, which is not supported.
    UsbUnsupported,
    /// The number of raw HID devices fits no known transport.
    UnknownConnection,
    /// No candidate had the keyboard's attributes.
    NoMatch,
}

/// What the scan does next.
#[derive(Clone, Copy, Debug, PartialEq, Eq, Structural)]
pub enum ScanStep {
    /// Read the attributes of the candidate at this index.
    Inspect(usize),
    /// The candidate at this index is the keyboard.
    Found(usize),
    /// The keyboard is not there.
    NotFound(NotFoundReason),
}

/// The first step of a scan over `count` candidates: only a wireless
/// connection is searched, from its first candidate.
pub open spec fn scan_start(count: nat) -> ScanStep {
    match connection_of(count) {
        ConnectionType::Wifi => ScanStep::Inspect(0),
        ConnectionType::Usb => ScanStep::NotFound(NotFoundReason::UsbUnsupported),
        ConnectionType::Unknown => ScanStep::NotFound(NotFoundReason::UnknownConnection),
    }
}

/// The step after reading the attributes `d` of candidate `index` out of
/// `count`: found on a match, else the next candidate, else not found.
pub open spec fn step_after(count: nat, index: nat, d: Descriptor) -> ScanStep {
    if descriptor_ok(d) {
        ScanStep::Found(index as usize)
    } else if index + 1 < count {
        ScanStep::Inspect((index + 1) as usize)
    } else {
        ScanStep::NotFound(NotFoundReason::NoMatch)
    }
}

/// Starts a scan over the candidates found, in the order they were listed.
pub fn begin_scan(candidates: &[String]) -> (r: ScanStep)
    ensures
        r == scan_start(candidates@.len()),
{
    match determine_connection(candidates) {
        ConnectionType::Wifi => ScanStep::Inspect(0),
        ConnectionType::Usb => ScanStep::NotFound(NotFoundReason::UsbUnsupported),
        ConnectionType::Unknown => ScanStep::NotFound(NotFoundReason::UnknownConnection),
    }
}

/// Decides the next step once the attributes of candidate `index` out of
/// `count` have been read.
pub fn after_inspect(count: usize, index: usize, d: &Descriptor) -> (r: ScanStep)
    requires
        index < count,
    ensures
        r == step_after(count as nat, index as nat, *d),
{
    if descriptor_matches(d) {
        ScanStep::Found(index)
    } else if index + 1 < count {
        ScanStep::Inspect(index + 1)
    } else {
        ScanStep::NotFound(NotFoundReason::NoMatch)
    }
}

/// A number of candidates other than six or seven is an unknown transport, and
/// the scan ends as not found before any attribute is read; this includes no
/// candidate at all.
pub proof fn lemma_unknown_count_not_found(count: nat)
    requires
        count != USB_INTERFACES,
        count != WIFI_INTERFACES,
    ensures
        connection_of(count) == ConnectionType::Unknown,
        scan_start(count) == ScanStep::NotFound(NotFoundReason::UnknownConnection),
        scan_start(count) !is Inspect,
{
}

/// On a wireless connection a candidate is selected exactly when its trimmed
/// subclass, vendor and product attributes name the keyboard's interface.
pub proof fn lemma_selected_iff_match(count: nat, index: nat, d: Descriptor)
    requires
        connection_of(count) == ConnectionType::Wifi,
        index < count,
    ensures
        step_after(count, index, d) == ScanStep::Found(index as usize) <==> descriptor_ok(d),
        step_after(count, index, d) is Found <==> descriptor_ok(d),
{
}

/// A candidate lacking any of its three attributes is skipped: the scan goes
/// on to the next candidate, or ends as not found after the last.
pub proof fn lemma_incomplete_descriptor_skipped(count: nat, index: nat, d: Descriptor)
    requires
        index < count,
        count <= usize::MAX,
        d.subclass is None || d.vendor is None || d.product is None,
    ensures
        index + 1 < count ==> step_after(count, index, d) == ScanStep::Inspect((index + 1) as usize),
        index + 1 == count ==> step_after(count, index, d) == ScanStep::NotFound(
            NotFoundReason::NoMatch,
        ),
{
}

/// Where a scan that has reached candidate `index` ends, when the candidates'
/// attributes are `ds` and each step is taken as `after_inspect` decides.
pub open spec fn scan_from(count: nat, ds: Seq<Descriptor>, index: nat) -> ScanStep
    decreases count - index,
{
    if index >= count {
        ScanStep::NotFound(NotFoundReason::NoMatch)
    } else if step_after(count, index, ds[index as int]) is Inspect {
        scan_from(count, ds, index + 1)
    } else {
        step_after(count, index, ds[index as int])
    }
}

/// A scan from candidate `index` ends at the first matching candidate from
/// there on, without reading any later one, and as not found when none
/// matches.
pub proof fn lemma_scan_finds_first_match(count: nat, ds: Seq<Descriptor>, index: nat)
    requires
        ds.len() == count,
        count <= usize::MAX,
        index <= count,
    ensures
        scan_from(count, ds, index) is Found || scan_from(count, ds, index) == ScanStep::NotFound(
            NotFoundReason::NoMatch,
        ),
        scan_from(count, ds, index) matches ScanStep::Found(k) ==> {
            &&& index <= k < count
            &&& descriptor_ok(ds[k as int])
            &&& forall|j: int| index <= j < k ==> !descriptor_ok(#[trigger] ds[j])
        },
        scan_from(count, ds, index) is NotFound <==> forall|j: int|
            index <= j < count ==> !descriptor_ok(#[trigger] ds[j]),
    decreases count - index,
{
    if index < count {
        lemma_scan_finds_first_match(count, ds, index + 1);
    }
}

} // verus!
