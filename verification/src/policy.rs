//! Selective policy enforcement: partitioning the live device set by
//! trust membership and planning the best-effort per-device sweeps.
//!
//! The decision rule: a device is due for automatic blocking exactly when
//! autoblock is enabled and its identity is not in the trust registry.
//! Manual per-device requests are available regardless of the flag.

use vstd::prelude::*;

use crate::control::{block_device, unblock_device, DeviceAction};
use crate::device::UsbDeviceInfo;
use crate::identity::{hardware_id_spec, DeviceIdentity};
use crate::registry::TrustRegistry;

verus! {

/// The identities of the devices in `devs` that are not in `t`, kept in
/// enumeration order, one entry per listed device.
pub open spec fn untrusted_of(devs: Seq<UsbDeviceInfo>, t: Set<DeviceIdentity>) -> Seq<
    DeviceIdentity,
>
    decreases devs.len(),
{
    if devs.len() == 0 {
        Seq::empty()
    } else {
        let rest = untrusted_of(devs.drop_last(), t);
        if t.contains(devs.last().identity()) {
            rest
        } else {
            rest.push(devs.last().identity())
        }
    }
}

/// Whether a device with trust verdict `trusted` is due for automatic
/// blocking under the given autoblock mode.
pub open spec fn should_block(autoblock: bool, trusted: bool) -> bool {
    autoblock && !trusted
}

/// An identity is among the untrusted ones exactly when some listed
/// device carries it and it is not trusted.
pub proof fn lemma_untrusted_of_membership(
    devs: Seq<UsbDeviceInfo>,
    t: Set<DeviceIdentity>,
    x: DeviceIdentity,
)
    ensures
        untrusted_of(devs, t).contains(x) <==> (!t.contains(x) && exists|i: int|
            0 <= i < devs.len() && devs[i].identity() == x),
    decreases devs.len(),
{
    if devs.len() == 0 {
    } else {
        let front = devs.drop_last();
        let rest = untrusted_of(front, t);
        lemma_untrusted_of_membership(front, t, x);
        if t.contains(devs.last().identity()) {
            if !t.contains(x) && exists|i: int| 0 <= i < devs.len() && devs[i].identity() == x {
                let i = choose|i: int| 0 <= i < devs.len() && devs[i].identity() == x;
                assert(i < devs.len() - 1);
                assert(front[i].identity() == x);
            }
        } else {
            let y = devs.last().identity();
            assert forall|z: DeviceIdentity| rest.push(y).contains(z) implies (rest.contains(z)
                || z == y) by {
                let k = choose|k: int| 0 <= k < rest.push(y).len() && rest.push(y)[k] == z;
                if k < rest.len() {
                    assert(rest[k] == z);
                }
            }
            assert(rest.push(y)[rest.len() as int] == y);
            if rest.contains(x) {
                let k = choose|k: int| 0 <= k < rest.len() && rest[k] == x;
                assert(rest.push(y)[k] == x);
            }
            if !t.contains(x) && exists|i: int| 0 <= i < devs.len() && devs[i].identity() == x {
                let i = choose|i: int| 0 <= i < devs.len() && devs[i].identity() == x;
                if i < devs.len() - 1 {
                    assert(front[i].identity() == x);
                }
            }
        }
    }
}

/// The deliberate decision of the automatic sweep, per identity: it
/// targets an enumerated identity exactly when the policy rule
/// `should_block` says so for the autoblock mode it ran under.
pub proof fn lemma_sweep_decision(
    devs: Seq<UsbDeviceInfo>,
    t: Set<DeviceIdentity>,
    autoblock: bool,
    x: DeviceIdentity,
)
    ensures
        (if autoblock {
            untrusted_of(devs, t)
        } else {
            Seq::<DeviceIdentity>::empty()
        }).contains(x) <==> (should_block(autoblock, t.contains(x)) && exists|i: int|
            0 <= i < devs.len() && devs[i].identity() == x),
{
    if autoblock {
        lemma_untrusted_of_membership(devs, t, x);
    }
}

/// Plans the manual selective sweep: one disable request for each listed
/// device whose identity is absent from the trust registry, in listing
/// order, and none for a trusted device.
pub fn block_all_untrusted_plan(devices: &Vec<UsbDeviceInfo>, registry: &TrustRegistry) -> (r:
    Vec<DeviceAction>)
    ensures
        r@.map_values(|a: DeviceAction| a.identity) == untrusted_of(
            devices@,
            registry.trusted(),
        ),
        forall|i: int|
            0 <= i < r@.len() ==> (r@[i].enable == false && r@[i].hardware_id@
                == hardware_id_spec(r@[i].identity)),
{
    let n = devices.len();
    let mut r: Vec<DeviceAction> = Vec::new();
    let mut i: usize = 0;
    proof {
        assert(devices@.subrange(0, 0) =~= Seq::<UsbDeviceInfo>::empty());
        assert(r@.map_values(|a: DeviceAction| a.identity) =~= Seq::<DeviceIdentity>::empty());
    }
    while i < n
        invariant
            n == devices@.len(),
            0 <= i <= n,
            r@.map_values(|a: DeviceAction| a.identity) == untrusted_of(
                devices@.subrange(0, i as int),
                registry.trusted(),
            ),
            forall|k: int|
                0 <= k < r@.len() ==> (r@[k].enable == false && r@[k].hardware_id@
                    == hardware_id_spec(r@[k].identity)),
        decreases n - i,
    {
        let ghost prefix = devices@.subrange(0, i as int);
        let ghost prefix1 = devices@.subrange(0, i + 1);
        proof {
            assert(prefix1.drop_last() =~= prefix);
            assert(prefix1.last() == devices@[i as int]);
        }
        let d = &devices[i];
        let identity = DeviceIdentity::new(d.vendor_id, d.product_id);
        if !registry.contains(identity) {
            let a = block_device(d.vendor_id, d.product_id);
            r.push(a);
        }
        proof {
            assert(r@.map_values(|a: DeviceAction| a.identity) =~= untrusted_of(
                prefix1,
                registry.trusted(),
            ));
        }
        i += 1;
    }
    proof {
        assert(devices@.subrange(0, n as int) =~= devices@);
    }
    r
}

/// Plans the automatic sweep, gated by the autoblock mode: with autoblock
/// enabled it is the full untrusted partition, with autoblock disabled it
/// targets nothing.  Together with `lemma_sweep_decision` this realises
/// the rule `should_block`.
pub fn autoblock_sweep_plan(devices: &Vec<UsbDeviceInfo>, registry: &TrustRegistry) -> (r: Vec<
    DeviceAction,
>)
    ensures
        registry.autoblock() ==> r@.map_values(|a: DeviceAction| a.identity) == untrusted_of(
            devices@,
            registry.trusted(),
        ),
        !registry.autoblock() ==> r@.len() == 0,
        forall|i: int|
            0 <= i < r@.len() ==> (r@[i].enable == false && r@[i].hardware_id@
                == hardware_id_spec(r@[i].identity)),
{
    if registry.get_autoblock() {
        block_all_untrusted_plan(devices, registry)
    } else {
        Vec::new()
    }
}

/// Plans the trusted sweep: one enable request per trusted identity —
/// exactly the trust set, each identity once — in the order of the
/// registry snapshot.
pub fn unblock_all_trusted_plan(registry: &TrustRegistry) -> (r: Vec<DeviceAction>)
    ensures
        forall|d: DeviceIdentity|
            (exists|i: int| 0 <= i < r@.len() && r@[i].identity == d) <==> registry.trusted()
                .contains(d),
        forall|i: int|
            0 <= i < r@.len() ==> (r@[i].enable == true && r@[i].hardware_id@
                == hardware_id_spec(r@[i].identity)),
        registry.wf() ==> forall|p: int, q: int|
            0 <= p < q < r@.len() ==> r@[p].identity != r@[q].identity,
{
    let ids = registry.list();
    let n = ids.len();
    let mut r: Vec<DeviceAction> = Vec::new();
    let mut i: usize = 0;
    while i < n
        invariant
            n == ids@.len(),
            0 <= i <= n,
            r@.len() == i,
            forall|k: int| 0 <= k < i ==> r@[k].identity == ids@[k],
            forall|k: int|
                0 <= k < r@.len() ==> (r@[k].enable == true && r@[k].hardware_id@
                    == hardware_id_spec(r@[k].identity)),
        decreases n - i,
    {
        let d = ids[i];
        let a = unblock_device(d.vendor_id, d.product_id);
        r.push(a);
        i += 1;
    }
    proof {
        assert forall|d: DeviceIdentity| registry.trusted().contains(d) implies (exists|i: int|
            0 <= i < r@.len() && r@[i].identity == d) by {
            let k = choose|k: int| 0 <= k < ids@.len() && ids@[k] == d;
            assert(r@[k].identity == d);
        }
        assert forall|d: DeviceIdentity| (exists|i: int|
            0 <= i < r@.len() && r@[i].identity == d) implies registry.trusted().contains(d) by {
            let k = choose|k: int| 0 <= k < r@.len() && r@[k].identity == d;
            assert(ids@.contains(ids@[k]));
        }
        if registry.wf() {
            assert forall|p: int, q: int| 0 <= p < q < r@.len() implies r@[p].identity
                != r@[q].identity by {
                assert(ids@[p] != ids@[q]);
            }
        }
    }
    r
}

} // verus!
