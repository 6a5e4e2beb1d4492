//! Global port blocking: the coarse "panic button" that disables all
//! removable mass storage at once.
//!
//! A global block or unblock is a fixed plan of policy-store writes
//! followed by a storage-service restart and a policy refresh; the
//! surrounding application carries each step out against the platform.

use vstd::prelude::*;

use crate::numtext::{decimal_digits, u32_decimal};

verus! {

/// Start-policy value that disables the removable-storage driver.
pub const SERVICE_START_DISABLED: u32 = 4;

/// Start-policy value that loads the removable-storage driver on demand.
pub const SERVICE_START_ON_DEMAND: u32 = 3;

/// Deny-all value of the user-level removable-storage policy.
pub const DENY_ALL_REMOVABLE: u32 = 1;

/// Which root of the platform policy store a write is aimed at.
#[derive(Clone, Copy, PartialEq, Eq, Structural, Debug)]
pub enum RegistryHive {
    LocalMachine,
    CurrentUser,
}

/// One step of a global block or unblock plan.
pub enum PolicyAction {
    /// Write a numeric value under a policy-store key.
    SetValue { hive: RegistryHive, path: String, name: String, value: u32 },
    /// Delete a whole policy-store key.
    DeleteKey { hive: RegistryHive, path: String },
    /// Stop the platform mass-storage service.
    StopStorageService,
    /// Start the platform mass-storage service.
    StartStorageService,
    /// Force a refresh of the user-level policy.
    RefreshPolicy,
}

/// Plans the global block: disable the storage-driver start policy at
/// machine level, deny all removable storage at user level, then exactly
/// one service stop/start cycle and one policy refresh, in that order.
pub fn block_all_usb_ports_plan() -> (r: Vec<PolicyAction>)
    ensures
        r@.len() == 5,
        (r@[0] matches PolicyAction::SetValue { hive, path, name, value } && hive
            == RegistryHive::LocalMachine && path@
            == "SYSTEM\\CurrentControlSet\\Services\\USBSTOR"@ && name@ == "Start"@ && value
            == SERVICE_START_DISABLED),
        (r@[1] matches PolicyAction::SetValue { hive, path, name, value } && hive
            == RegistryHive::CurrentUser && path@
            == "Software\\Policies\\Microsoft\\Windows\\RemovableStorageDevices"@ && name@
            == "Deny_All"@ && value == DENY_ALL_REMOVABLE),
        r@[2] is StopStorageService,
        r@[3] is StartStorageService,
        r@[4] is RefreshPolicy,
{
    let mut r: Vec<PolicyAction> = Vec::new();
    r.push(
        PolicyAction::SetValue {
            hive: RegistryHive::LocalMachine,
            path: String::from_str("SYSTEM\\CurrentControlSet\\Services\\USBSTOR"),
            name: String::from_str("Start"),
            value: SERVICE_START_DISABLED,
        },
    );
    r.push(
        PolicyAction::SetValue {
            hive: RegistryHive::CurrentUser,
            path: String::from_str("Software\\Policies\\Microsoft\\Windows\\RemovableStorageDevices"),
            name: String::from_str("Deny_All"),
            value: DENY_ALL_REMOVABLE,
        },
    );
    r.push(PolicyAction::StopStorageService);
    r.push(PolicyAction::StartStorageService);
    r.push(PolicyAction::RefreshPolicy);
    r
}

/// Plans the global unblock: restore the on-demand storage-driver start
/// policy, drop the user-level removable-storage restrictions, then the
/// same service stop/start cycle and policy refresh.
pub fn unblock_usb_port_plan() -> (r: Vec<PolicyAction>)
    ensures
        r@.len() == 5,
        (r@[0] matches PolicyAction::SetValue { hive, path, name, value } && hive
            == RegistryHive::LocalMachine && path@
            == "SYSTEM\\CurrentControlSet\\Services\\USBSTOR"@ && name@ == "Start"@ && value
            == SERVICE_START_ON_DEMAND),
        (r@[1] matches PolicyAction::DeleteKey { hive, path } && hive == RegistryHive::CurrentUser
            && path@ == "Software\\Policies\\Microsoft\\Windows\\RemovableStorageDevices"@),
        r@[2] is StopStorageService,
        r@[3] is StartStorageService,
        r@[4] is RefreshPolicy,
{
    let mut r: Vec<PolicyAction> = Vec::new();
    r.push(
        PolicyAction::SetValue {
            hive: RegistryHive::LocalMachine,
            path: String::from_str("SYSTEM\\CurrentControlSet\\Services\\USBSTOR"),
            name: String::from_str("Start"),
            value: SERVICE_START_ON_DEMAND,
        },
    );
    r.push(
        PolicyAction::DeleteKey {
            hive: RegistryHive::CurrentUser,
            path: String::from_str("Software\\Policies\\Microsoft\\Windows\\RemovableStorageDevices"),
        },
    );
    r.push(PolicyAction::StopStorageService);
    r.push(PolicyAction::StartStorageService);
    r.push(PolicyAction::RefreshPolicy);
    r
}

/// Reports the platform's answer to opening a policy-store key: zero is
/// success, any other status is surfaced with its code.
pub fn registry_open_outcome(status: u32) -> (r: Result<(), String>)
    ensures
        status == 0 <==> r is Ok,
        status != 0 ==> (r matches Err(m) && m@ == "Registry access failed (Error "@
            + decimal_digits(status as int) + ")"@),
{
    if status == 0 {
        Ok(())
    } else {
        let mut m = String::from_str("Registry access failed (Error ");
        let d = u32_decimal(status);
        m.append(d.as_str());
        m.append(")");
        proof {
            assert(m@ =~= "Registry access failed (Error "@ + decimal_digits(status as int)
                + ")"@);
        }
        Err(m)
    }
}

/// Reports the platform's answer to writing a policy-store value: zero is
/// success, any other status is surfaced with its code.
pub fn registry_set_outcome(status: u32) -> (r: Result<(), String>)
    ensures
        status == 0 <==> r is Ok,
        status != 0 ==> (r matches Err(m) && m@ == "Failed to set value (Error "@
            + decimal_digits(status as int) + ")"@),
{
    if status == 0 {
        Ok(())
    } else {
        let mut m = String::from_str("Failed to set value (Error ");
        let d = u32_decimal(status);
        m.append(d.as_str());
        m.append(")");
        proof {
            assert(m@ =~= "Failed to set value (Error "@ + decimal_digits(status as int) + ")"@);
        }
        Err(m)
    }
}

} // verus!
