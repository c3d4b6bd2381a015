//! Rules that pick, among the I2C buses a Linux system reports, those that
//! lead to a monitor.
use vstd::prelude::*;

verus! {

pub open spec fn is_prefix(p: Seq<u8>, s: Seq<u8>) -> bool {
    p.len() <= s.len() && s.subrange(0, p.len() as int) == p
}

fn has_prefix(s: &[u8], p: &[u8]) -> (r: bool)
    ensures
        r == is_prefix(p@, s@),
{
    if p.len() > s.len() {
        return false;
    }
    let mut k: usize = 0;
    while k < p.len()
        invariant
            k <= p@.len() <= s@.len(),
            forall|j: int| 0 <= j < k ==> s@[j] == p@[j],
        decreases p@.len() - k,
    {
        if s[k] != p[k] {
            assert(s@.subrange(0, p@.len() as int)[k as int] != p@[k as int]);
            return false;
        }
        k += 1;
    }
    assert(s@.subrange(0, p@.len() as int) =~= p@);
    true
}

/// Adapter names that do not lead to a monitor: the system management bus
/// (`SMBus`), the DSI bridge of some SoCs (`soc:i2cdsi`), and the Apple
/// system controllers (`smu`, `mac-io`, `u4`).
pub open spec fn ignored_name_prefixes() -> Seq<Seq<u8>> {
    seq![
        seq![0x53u8, 0x4du8, 0x42u8, 0x75u8, 0x73u8],
        seq![0x73u8, 0x6fu8, 0x63u8, 0x3au8, 0x69u8, 0x32u8, 0x63u8, 0x64u8, 0x73u8, 0x69u8],
        seq![0x73u8, 0x6du8, 0x75u8],
        seq![0x6du8, 0x61u8, 0x63u8, 0x2du8, 0x69u8, 0x6fu8],
        seq![0x75u8, 0x34u8],
    ]
}

/// Whether an I2C adapter's name (its bytes) marks it as one that does not
/// lead to a monitor.
pub fn ignore_device_by_name(name: &[u8]) -> (r: bool)
    ensures
        r == exists|k: int|
            0 <= k < ignored_name_prefixes().len() && is_prefix(
                #[trigger] ignored_name_prefixes()[k],
                name@,
            ),
{
    let smbus: [u8; 5] = [0x53, 0x4d, 0x42, 0x75, 0x73];
    let soc: [u8; 10] = [0x73, 0x6f, 0x63, 0x3a, 0x69, 0x32, 0x63, 0x64, 0x73, 0x69];
    let smu: [u8; 3] = [0x73, 0x6d, 0x75];
    let mac_io: [u8; 6] = [0x6d, 0x61, 0x63, 0x2d, 0x69, 0x6f];
    let u4: [u8; 2] = [0x75, 0x34];
    let ghost ps = ignored_name_prefixes();
    assert(smbus@ =~= ps[0]);
    assert(soc@ =~= ps[1]);
    assert(smu@ =~= ps[2]);
    assert(mac_io@ =~= ps[3]);
    assert(u4@ =~= ps[4]);
    let r = has_prefix(name, smbus.as_slice()) || has_prefix(name, soc.as_slice()) || has_prefix(
        name,
        smu.as_slice(),
    ) || has_prefix(name, mac_io.as_slice()) || has_prefix(name, u4.as_slice());
    proof {
        if r {
            if is_prefix(ps[0], name@) {
            } else if is_prefix(ps[1], name@) {
            } else if is_prefix(ps[2], name@) {
            } else if is_prefix(ps[3], name@) {
            } else {
                assert(is_prefix(ps[4], name@));
            }
        }
    }
    r
}

pub open spec fn is_ascii_space(b: u8) -> bool {
    b == 0x20 || b == 0x09 || b == 0x0a || b == 0x0b || b == 0x0c || b == 0x0d
}

/// The text, with white space at either end left out, is the word.
pub open spec fn trimmed_is(text: Seq<u8>, word: Seq<u8>) -> bool {
    exists|i: int, j: int|
        #![trigger text.subrange(i, j)]
        0 <= i <= j <= text.len() && (forall|k: int| 0 <= k < i ==> is_ascii_space(text[k]))
            && (forall|k: int| j <= k < text.len() ==> is_ascii_space(text[k]))
            && text.subrange(i, j) == word
}

/// Whether the text, with white space at either end left out, is the word
/// (which neither starts nor ends with white space).
fn trimmed_equals(text: &[u8], word: &[u8]) -> (r: bool)
    requires
        word@.len() > 0,
        !is_ascii_space(word@[0]),
        !is_ascii_space(word@.last()),
    ensures
        r == trimmed_is(text@, word@),
{
    let mut i: usize = 0;
    while i < text.len() && (text[i] == 0x20 || (0x09 <= text[i] && text[i] <= 0x0d))
        invariant
            i <= text@.len(),
            forall|k: int| 0 <= k < i ==> is_ascii_space(text@[k]),
        decreases text@.len() - i,
    {
        i += 1;
    }
    let mut j: usize = text.len();
    while j > i && (text[j - 1] == 0x20 || (0x09 <= text[j - 1] && text[j - 1] <= 0x0d))
        invariant
            i <= j <= text@.len(),
            forall|k: int| j <= k < text@.len() ==> is_ascii_space(text@[k]),
        decreases j,
    {
        j -= 1;
    }
    let core = vstd::slice::slice_subrange(text, i, j);
    let r = core.len() == word.len() && has_prefix(core, word);
    proof {
        if r {
            assert(core@.subrange(0, word@.len() as int) =~= core@);
            assert(text@.subrange(i as int, j as int) == word@);
        } else if trimmed_is(text@, word@) {
            let (a, b) = choose|a: int, b: int|
                #![trigger text@.subrange(a, b)]
                0 <= a <= b <= text@.len() && (forall|k: int| 0 <= k < a ==> is_ascii_space(text@[k]))
                    && (forall|k: int| b <= k < text@.len() ==> is_ascii_space(text@[k]))
                    && text@.subrange(a, b) == word@;
            assert(text@[a] == word@[0]);
            assert(text@[b - 1] == word@.last());
            if a < i as int {
            } else if a > i as int {
                assert(!is_ascii_space(text@[i as int]));
            }
            assert(a == i);
            if b > j as int {
            } else if b < j as int {
                assert(!is_ascii_space(text@[j - 1]));
            }
            assert(b == j);
            assert(core@.subrange(0, word@.len() as int) =~= word@);
        }
    }
    r
}

pub open spec fn word_disabled() -> Seq<u8> {
    seq![0x64u8, 0x69u8, 0x73u8, 0x61u8, 0x62u8, 0x6cu8, 0x65u8, 0x64u8]
}

pub open spec fn word_disconnected() -> Seq<u8> {
    seq![0x64u8, 0x69u8, 0x73u8, 0x63u8, 0x6fu8, 0x6eu8, 0x6eu8, 0x65u8, 0x63u8, 0x74u8, 0x65u8, 0x64u8]
}

/// Whether a bus is a phantom, from what the system shows of it: a bus that
/// is not in the device tree is one, and so is one whose device reads
/// `disabled` as its `enabled` attribute and `disconnected` as its status
/// (docking stations show such a second bus for one monitor). The contents
/// are `None` where the attribute could not be read.
pub fn is_phantom_bus(in_tree: bool, enabled: Option<&[u8]>, status: Option<&[u8]>) -> (r: bool)
    ensures
        r == (!in_tree || (enabled matches Some(e) && trimmed_is(e@, word_disabled()))
            && (status matches Some(s) && trimmed_is(s@, word_disconnected()))),
{
    if !in_tree {
        return true;
    }
    let disabled: [u8; 8] = [0x64, 0x69, 0x73, 0x61, 0x62, 0x6c, 0x65, 0x64];
    let disconnected: [u8; 12] = [0x64, 0x69, 0x73, 0x63, 0x6f, 0x6e, 0x6e, 0x65, 0x63, 0x74, 0x65, 0x64];
    assert(disabled@ =~= word_disabled());
    assert(disconnected@ =~= word_disconnected());
    let e = match enabled {
        Some(e) => trimmed_equals(e, disabled.as_slice()),
        None => false,
    };
    let s = match status {
        Some(s) => trimmed_equals(s, disconnected.as_slice()),
        None => false,
    };
    e && s
}


/// What the grandparent of an I2C adapter is.
#[derive(Debug, Clone, Copy, PartialEq, Eq, Structural)]
pub enum AdapterParent {
    /// A DRM device: the connector itself.
    Drm,
    /// A PCI display controller, whose connector must be found by its EDID.
    DisplayController,
    /// Anything else: the adapter does not lead to a monitor.
    Other,
}

pub open spec fn word_drm() -> Seq<u8> {
    seq![0x64u8, 0x72u8, 0x6du8]
}

/// `Display controller`
pub open spec fn word_display_controller() -> Seq<u8> {
    seq![
        0x44u8, 0x69u8, 0x73u8, 0x70u8, 0x6cu8, 0x61u8, 0x79u8, 0x20u8, 0x63u8, 0x6fu8, 0x6eu8,
        0x74u8, 0x72u8, 0x6fu8, 0x6cu8, 0x6cu8, 0x65u8, 0x72u8,
    ]
}

fn bytes_equal(a: &[u8], b: &[u8]) -> (r: bool)
    ensures
        r == (a@ == b@),
{
    assert(a@.subrange(0, a@.len() as int) =~= a@);
    a.len() == b.len() && has_prefix(a, b)
}

/// Classifies an adapter's grandparent by its subsystem and its PCI class
/// (`None` where the device has none).
pub fn adapter_parent(subsystem: Option<&[u8]>, pci_class: Option<&[u8]>) -> (r: AdapterParent)
    ensures
        r == if subsystem matches Some(s) && s@ == word_drm() {
            AdapterParent::Drm
        } else if pci_class matches Some(c) && c@ == word_display_controller() {
            AdapterParent::DisplayController
        } else {
            AdapterParent::Other
        },
{
    let drm: [u8; 3] = [0x64, 0x72, 0x6d];
    let controller: [u8; 18] = [
        0x44, 0x69, 0x73, 0x70, 0x6c, 0x61, 0x79, 0x20, 0x63, 0x6f, 0x6e, 0x74, 0x72, 0x6f, 0x6c,
        0x6c, 0x65, 0x72,
    ];
    assert(drm@ =~= word_drm());
    assert(controller@ =~= word_display_controller());
    let is_drm = match subsystem {
        Some(s) => bytes_equal(s, drm.as_slice()),
        None => false,
    };
    if is_drm {
        return AdapterParent::Drm;
    }
    let is_controller = match pci_class {
        Some(c) => bytes_equal(c, controller.as_slice()),
        None => false,
    };
    if is_controller {
        AdapterParent::DisplayController
    } else {
        AdapterParent::Other
    }
}

/// The connector name in a DRM device's system name (`card0-DP-1` gives
/// `DP-1`): what follows the first `-`, if there is one.
pub fn connector_name(sysname: &[u8]) -> (r: Option<Vec<u8>>)
    ensures
        match r {
            Some(n) => exists|i: int|
                0 <= i < sysname@.len() && sysname@[i] == 0x2d && (forall|k: int|
                    0 <= k < i ==> sysname@[k] != 0x2d) && n@ == sysname@.subrange(
                    i + 1,
                    sysname@.len() as int,
                ),
            None => forall|k: int| 0 <= k < sysname@.len() ==> sysname@[k] != 0x2d,
        },
{
    let mut i: usize = 0;
    while i < sysname.len()
        invariant
            i <= sysname@.len(),
            forall|k: int| 0 <= k < i ==> sysname@[k] != 0x2d,
        decreases sysname@.len() - i,
    {
        if sysname[i] == 0x2d {
            let rest = vstd::slice::slice_to_vec(
                vstd::slice::slice_subrange(sysname, i + 1, sysname.len()),
            );
            return Some(rest);
        }
        i += 1;
    }
    None
}

} // verus!
