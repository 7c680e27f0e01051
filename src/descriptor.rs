//! The USB descriptor attributes that identify the keyboard's interface.
use vstd::prelude::*;
use vstd::string::*;

verus! {

/// What `str::trim` gives for a text: the text without leading and trailing
/// white space.
pub uninterp spec fn trimmed(s: Seq<char>) -> Seq<char>;

/// Relies on `str::trim`: the text with leading and trailing white space
/// removed, which depends on the text alone.
#[verifier::external_body]
fn trim_text(s: &str) -> (r: String)
    ensures
        r@ == trimmed(s@),
{
    s.trim().to_string()
}

/// Whether two texts hold the same characters.
fn same_text(a: &str, b: &str) -> (r: bool)
    ensures
        r == (a@ == b@),
{
    let n = a.unicode_len();
    if n != b.unicode_len() {
        return false;
    }
    let mut i: usize = 0;
    while i < n
        invariant
            n == a@.len(),
            n == b@.len(),
            i <= n,
            a@.subrange(0, i as int) == b@.subrange(0, i as int),
        decreases n - i,
    {
        if a.get_char(i) != b.get_char(i) {
            return false;
        }
        assert(a@.subrange(0, i + 1) =~= a@.subrange(0, i as int).push(a@[i as int]));
        assert(b@.subrange(0, i + 1) =~= b@.subrange(0, i as int).push(b@[i as int]));
        i = i + 1;
    }
    assert(a@ =~= a@.subrange(0, n as int));
    assert(b@ =~= b@.subrange(0, n as int));
    true
}

/// The keyboard's vendor id.
pub open spec fn vendor_id() -> Seq<char> {
    "1a2c"@
}

/// Whether a product id is one of the keyboard's two product ids.
pub open spec fn is_product_id(s: Seq<char>) -> bool {
    s == "7fff"@ || s == "484a"@
}

/// Whether an interface subclass is one of the two the keyboard uses for its
/// lighting interface.
pub open spec fn is_interface_subclass(s: Seq<char>) -> bool {
    s == "00"@ || s == "01"@
}

/// Whether already trimmed attribute values name the keyboard's lighting
/// interface.
pub open spec fn attributes_ok(subclass: Seq<char>, vendor: Seq<char>, product: Seq<char>) -> bool {
    is_interface_subclass(subclass) && vendor == vendor_id() && is_product_id(product)
}

/// Decides whether trimmed attribute values name the keyboard's lighting
/// interface: subclass "00" or "01", vendor "1a2c", product "7fff" or "484a".
pub fn attributes_match(subclass: &str, vendor: &str, product: &str) -> (r: bool)
    ensures
        r == attributes_ok(subclass@, vendor@, product@),
{
    let subclass_ok = same_text(subclass, "00") || same_text(subclass, "01");
    let vendor_ok = same_text(vendor, "1a2c");
    let product_ok = same_text(product, "7fff") || same_text(product, "484a");
    subclass_ok && vendor_ok && product_ok
}

/// The three attribute files read for one candidate, as text; `None` where a
/// file was missing or unreadable, or the device path did not resolve.
#[derive(Clone, Debug)]
pub struct Descriptor {
    /// `bInterfaceSubClass` of the interface.
    pub subclass: Option<String>,
    /// `idVendor` of the USB device.
    pub vendor: Option<String>,
    /// `idProduct` of the USB device.
    pub product: Option<String>,
}

/// Whether all three attributes were read.
pub open spec fn descriptor_complete(d: Descriptor) -> bool {
    d.subclass is Some && d.vendor is Some && d.product is Some
}

/// Whether a candidate's attributes, once trimmed, name the keyboard's
/// lighting interface; a candidate lacking any attribute never does.
pub open spec fn descriptor_ok(d: Descriptor) -> bool {
    descriptor_complete(d) && attributes_ok(
        trimmed(d.subclass->Some_0@),
        trimmed(d.vendor->Some_0@),
        trimmed(d.product->Some_0@),
    )
}

/// Trims the three attributes of a candidate and matches them.
pub fn descriptor_matches(d: &Descriptor) -> (r: bool)
    ensures
        r == descriptor_ok(*d),
{
    match (&d.subclass, &d.vendor, &d.product) {
        (Some(subclass), Some(vendor), Some(product)) => {
            let subclass = trim_text(subclass.as_str());
            let vendor = trim_text(vendor.as_str());
            let product = trim_text(product.as_str());
            attributes_match(subclass.as_str(), vendor.as_str(), product.as_str())
        },
        _ => false,
    }
}

} // verus!
