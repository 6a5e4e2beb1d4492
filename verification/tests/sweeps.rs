use usb_guard::control::{BatchSweep, DeviceControlError};
use usb_guard::device::{classify_devices, DeviceRecord};
use usb_guard::identity::DeviceIdentity;
use usb_guard::policy::{autoblock_sweep_plan, block_all_untrusted_plan, unblock_all_trusted_plan};
use usb_guard::registry::TrustRegistry;

fn record(vendor_id: u16, product_id: u16) -> DeviceRecord {
    DeviceRecord {
        vendor_id,
        product_id,
        manufacturer: None,
        product: None,
        serial_number: None,
    }
}

#[test]
fn block_plan_targets_exactly_the_untrusted() {
    let mut reg = TrustRegistry::new();
    reg.add(DeviceIdentity::new(0x1111, 0x0001));
    let devices = classify_devices(
        vec![
            record(0x1111, 0x0001),
            record(0x2222, 0x0002),
            record(0x3333, 0x0003),
        ],
        &reg,
    );
    let plan = block_all_untrusted_plan(&devices, &reg);
    assert_eq!(plan.len(), 2);
    assert_eq!(plan[0].identity, DeviceIdentity::new(0x2222, 0x0002));
    assert_eq!(plan[1].identity, DeviceIdentity::new(0x3333, 0x0003));
    assert!(plan.iter().all(|a| !a.enable));
}

#[test]
fn unblock_plan_targets_exactly_the_trusted() {
    let mut reg = TrustRegistry::new();
    let d = DeviceIdentity::new(0x1111, 0x0001);
    let e = DeviceIdentity::new(0x2222, 0x0002);
    reg.add(d);
    reg.add(e);
    let plan = unblock_all_trusted_plan(&reg);
    assert_eq!(plan.len(), 2);
    assert!(plan.iter().any(|a| a.identity == d));
    assert!(plan.iter().any(|a| a.identity == e));
    assert!(plan.iter().all(|a| a.enable));
}

#[test]
fn autoblock_off_plans_nothing() {
    let mut reg = TrustRegistry::new();
    reg.set_autoblock(false);
    let devices = classify_devices(vec![record(0x2222, 0x0002)], &reg);
    let plan = autoblock_sweep_plan(&devices, &reg);
    assert!(plan.is_empty());
}

#[test]
fn batch_resilience_one_failure_does_not_stop_the_rest() {
    let reg = TrustRegistry::new();
    let devices = classify_devices(
        vec![
            record(0x1111, 0x0001),
            record(0x5678, 0xBBBB),
            record(0x3333, 0x0003),
        ],
        &reg,
    );
    let plan = block_all_untrusted_plan(&devices, &reg);
    assert_eq!(plan.len(), 3);

    let mut sweep = BatchSweep::new(plan);
    let mut calls: Vec<String> = Vec::new();
    loop {
        let hw = match sweep.next_action() {
            Some(a) => a.hardware_id.clone(),
            None => break,
        };
        // Fault-injected collaborator: rejects one specific device.
        let outcome = if hw.contains("VID_5678") {
            Err(DeviceControlError::ClassInstallerFailure)
        } else {
            Ok(())
        };
        calls.push(hw);
        sweep.record_outcome(outcome);
    }
    assert_eq!(calls.len(), 3);
    assert_eq!(sweep.attempted_count(), 3);
    let failures = sweep.failure_report();
    assert_eq!(failures.len(), 1);
    assert_eq!(failures[0].index, 1);
    assert_eq!(failures[0].error, DeviceControlError::ClassInstallerFailure);
}

#[test]
fn end_to_end_selective_block() {
    let mut reg = TrustRegistry::new();
    assert!(reg.get_autoblock());
    let devices = classify_devices(
        vec![record(0x1234, 0xAAAA), record(0x5678, 0xBBBB)],
        &reg,
    );
    reg.add(DeviceIdentity::new(0x1234, 0xAAAA));

    let plan = autoblock_sweep_plan(&devices, &reg);
    let mut sweep = BatchSweep::new(plan);
    let mut calls: Vec<(String, bool)> = Vec::new();
    loop {
        let (hw, enable) = match sweep.next_action() {
            Some(a) => (a.hardware_id.clone(), a.enable),
            None => break,
        };
        calls.push((hw, enable));
        sweep.record_outcome(Ok(()));
    }
    assert_eq!(calls.len(), 1);
    assert_eq!(calls[0].0, "USB\\VID_5678&PID_BBBB");
    assert!(!calls[0].1);
    assert!(sweep.failure_report().is_empty());
}
