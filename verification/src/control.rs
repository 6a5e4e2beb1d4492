//! Per-device state control: locating a device instance by hardware
//! identifier, the outcome taxonomy of an enable/disable request, and the
//! best-effort batch sweep over many devices.
//!
//! The platform itself enumerates instance identifiers and carries out the
//! property change; this module decides which instance is targeted and how
//! each observed platform outcome is reported.

use vstd::prelude::*;

use crate::identity::{hardware_id, hardware_id_spec, DeviceIdentity};
use crate::matching::{contains_seq, str_contains};

verus! {

/// Why a per-device enable/disable request failed.
#[derive(Clone, Copy, PartialEq, Eq, Structural, Debug)]
pub enum DeviceControlError {
    /// No present device instance matched the hardware identifier.
    NotFound,
    /// The platform's class installer rejected the property change.
    ClassInstallerFailure,
    /// The device-information set could not be opened at all.
    InfoSetUnavailable,
}

impl DeviceControlError {
    /// The human-readable report of this failure; each variant has a
    /// distinct text.
    pub fn message(&self) -> (r: String)
        ensures
            *self is NotFound ==> r@ == "Device not found"@,
            *self is ClassInstallerFailure ==> r@ == "Failed to call class installer"@,
            *self is InfoSetUnavailable ==> r@ == "Failed to get device information set"@,
    {
        match self {
            DeviceControlError::NotFound => String::from_str("Device not found"),
            DeviceControlError::ClassInstallerFailure => String::from_str(
                "Failed to call class installer",
            ),
            DeviceControlError::InfoSetUnavailable => String::from_str(
                "Failed to get device information set",
            ),
        }
    }
}

/// Picks the device instance a property change is aimed at: the first
/// entry whose instance identifier contains the hardware identifier as a
/// substring.  Only that one instance is affected, even when several
/// physical units share the identity.
pub fn select_device_instance(instance_ids: &Vec<String>, target: &str) -> (r: Option<usize>)
    ensures
        match r {
            Some(i) => {
                &&& i < instance_ids@.len()
                &&& contains_seq(instance_ids@[i as int]@, target@)
                &&& forall|k: int| 0 <= k < i ==> !contains_seq(instance_ids@[k]@, target@)
            },
            None => forall|k: int|
                0 <= k < instance_ids@.len() ==> !contains_seq(instance_ids@[k]@, target@),
        },
{
    let n = instance_ids.len();
    let mut i: usize = 0;
    while i < n
        invariant
            n == instance_ids@.len(),
            0 <= i <= n,
            forall|k: int| 0 <= k < i ==> !contains_seq(instance_ids@[k]@, target@),
        decreases n - i,
    {
        if str_contains(instance_ids[i].as_str(), target) {
            return Some(i);
        }
        i += 1;
    }
    None
}

/// Reports the platform's answer to a property-change request: success
/// when the class installer accepted it, `ClassInstallerFailure` when it
/// was rejected.
pub fn class_installer_outcome(accepted: bool) -> (r: Result<(), DeviceControlError>)
    ensures
        accepted <==> r is Ok,
        !accepted ==> r == Result::<(), DeviceControlError>::Err(
            DeviceControlError::ClassInstallerFailure,
        ),
{
    if accepted {
        Ok(())
    } else {
        Err(DeviceControlError::ClassInstallerFailure)
    }
}

/// One pending enable/disable request against a device instance.
pub struct DeviceAction {
    /// The device model the request is about.
    pub identity: DeviceIdentity,
    /// The canonical hardware identifier the platform instance scan uses.
    pub hardware_id: String,
    pub enable: bool,
}

/// The request that disables the first instance of a device model.
pub fn block_device(vendor_id: u16, product_id: u16) -> (a: DeviceAction)
    ensures
        a.identity == (DeviceIdentity { vendor_id, product_id }),
        a.hardware_id@ == hardware_id_spec(a.identity),
        a.enable == false,
{
    let identity = DeviceIdentity::new(vendor_id, product_id);
    DeviceAction { identity, hardware_id: hardware_id(identity), enable: false }
}

/// The request that re-enables the first instance of a device model.
pub fn unblock_device(vendor_id: u16, product_id: u16) -> (a: DeviceAction)
    ensures
        a.identity == (DeviceIdentity { vendor_id, product_id }),
        a.hardware_id@ == hardware_id_spec(a.identity),
        a.enable == true,
{
    let identity = DeviceIdentity::new(vendor_id, product_id);
    DeviceAction { identity, hardware_id: hardware_id(identity), enable: true }
}

/// One recorded per-device failure of a batch sweep.
#[derive(Clone, Copy, PartialEq, Eq, Structural, Debug)]
pub struct SweepFailure {
    /// Position of the failed action in the sweep's plan.
    pub index: usize,
    pub error: DeviceControlError,
}

/// A best-effort batch of per-device requests.  Every action of the plan
/// is handed out in order; a failed action is recorded and the sweep moves
/// on, so one device's failure never stops the rest of the batch.
pub struct BatchSweep {
    plan: Vec<DeviceAction>,
    next: usize,
    failures: Vec<SweepFailure>,
}

impl BatchSweep {
    /// The actions this sweep carries out, in order.
    pub closed spec fn plan(&self) -> Seq<DeviceAction> {
        self.plan@
    }

    /// How many actions have been attempted so far.
    pub closed spec fn attempted(&self) -> int {
        self.next as int
    }

    /// The failures recorded so far.
    pub closed spec fn failures(&self) -> Seq<SweepFailure> {
        self.failures@
    }

    pub closed spec fn wf(&self) -> bool {
        self.next <= self.plan@.len()
    }

    /// Starts a sweep over `plan`.
    pub fn new(plan: Vec<DeviceAction>) -> (s: BatchSweep)
        ensures
            s.wf(),
            s.plan() == plan@,
            s.attempted() == 0,
            s.failures() == Seq::<SweepFailure>::empty(),
    {
        let s = BatchSweep { plan, next: 0, failures: Vec::new() };
        proof {
            assert(s.failures@ =~= Seq::<SweepFailure>::empty());
        }
        s
    }

    /// The next action still to be attempted, or `None` when the whole
    /// plan has been processed.
    pub fn next_action(&self) -> (r: Option<&DeviceAction>)
        requires
            self.wf(),
        ensures
            match r {
                Some(a) => {
                    &&& self.attempted() < self.plan().len()
                    &&& *a == self.plan()[self.attempted()]
                },
                None => self.attempted() == self.plan().len(),
            },
    {
        if self.next < self.plan.len() {
            Some(&self.plan[self.next])
        } else {
            None
        }
    }

    /// Records the outcome of the current action and moves to the next
    /// one.  The sweep advances by exactly one action whether the outcome
    /// was success or failure; a failure is remembered with its position.
    pub fn record_outcome(&mut self, outcome: Result<(), DeviceControlError>)
        requires
            old(self).wf(),
            old(self).attempted() < old(self).plan().len(),
        ensures
            final(self).wf(),
            final(self).plan() == old(self).plan(),
            final(self).attempted() == old(self).attempted() + 1,
            match outcome {
                Ok(_) => final(self).failures() == old(self).failures(),
                Err(e) => final(self).failures() == old(self).failures().push(
                    SweepFailure { index: old(self).attempted() as usize, error: e },
                ),
            },
    {
        let n = self.plan.len();
        if let Err(e) = outcome {
            self.failures.push(SweepFailure { index: self.next, error: e });
        }
        self.next += 1;
    }

    /// Whether every action of the plan has been attempted.
    pub fn is_done(&self) -> (r: bool)
        requires
            self.wf(),
        ensures
            r == (self.attempted() == self.plan().len()),
    {
        self.next >= self.plan.len()
    }

    /// How many actions have been attempted so far.
    pub fn attempted_count(&self) -> (r: usize)
        ensures
            r == self.attempted(),
    {
        self.next
    }

    /// The failures recorded so far, for reporting.
    pub fn failure_report(&self) -> (r: &Vec<SweepFailure>)
        ensures
            r@ == self.failures(),
    {
        &self.failures
    }
}

} // verus!
