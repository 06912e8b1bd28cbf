use jay::client::{ClientId, Fixed};
use jay::ipc::{InitMessage, V1InitMessage};
use jay::jay_idle::{JayIdle, JayIdleEvent, JayIdleId};
use jay::state::{IdleState, Timeout, ZwpIdleInhibitorV1};
use jay::wl_data_device::{
    WlDataDevice, WlDataDeviceEvent, WlDataDeviceId, WlDataDeviceManager, WlDataOfferId, WlSeat, WlSurfaceId,
};
use jay::wl_registry::{
    BindError, BindIn, Global, GlobalName, GlobalsError, Interface, InterfaceError, VersionError, WlRegistry,
    WlRegistryEvent, WlRegistryId,
};
use jay::xkbcommon::ModifierState;

fn device() -> WlDataDevice {
    WlDataDevice::new(WlDataDeviceId(7), &WlDataDeviceManager { client: ClientId(3) }, &WlSeat { id: 1 })
}

#[test]
fn data_device_events() {
    let d = device();
    assert_eq!(d.client(), ClientId(3));
    assert_eq!(d.seat, WlSeat { id: 1 });
    let me = WlDataDeviceId(7);
    assert_eq!(d.send_data_offer(WlDataOfferId(9)), WlDataDeviceEvent::DataOffer { self_id: me, id: WlDataOfferId(9) });
    assert_eq!(d.send_selection(WlDataOfferId(9)), WlDataDeviceEvent::Selection { self_id: me, id: WlDataOfferId(9) });
    assert_eq!(d.send_leave(), WlDataDeviceEvent::Leave { self_id: me });
    assert_eq!(d.send_drop(), WlDataDeviceEvent::Drop { self_id: me });
    assert_eq!(
        d.send_enter(WlSurfaceId(4), Fixed(256), Fixed(-512), WlDataOfferId(9)),
        WlDataDeviceEvent::Enter { self_id: me, serial: 0, surface: WlSurfaceId(4), x: Fixed(256), y: Fixed(-512), id: WlDataOfferId(9) }
    );
    assert_eq!(
        d.send_motion(Fixed(1), Fixed(2)),
        WlDataDeviceEvent::Motion { self_id: me, time: 0, x: Fixed(1), y: Fixed(2) }
    );
}

fn globals() -> Vec<Global> {
    vec![
        Global { name: GlobalName(1), interface: Interface { name: "wl_compositor".to_string() }, version: 4 },
        Global { name: GlobalName(2), interface: Interface { name: "wl_seat".to_string() }, version: 7 },
    ]
}

fn bind(name: u32, interface: &str, version: u32) -> BindIn {
    BindIn { name, interface: interface.to_string(), version, id: 10 }
}

#[test]
fn registry_events() {
    let r = WlRegistry::new(WlRegistryId(2), ClientId(5));
    assert_eq!(
        r.send_global(&globals()[1]),
        WlRegistryEvent::Global { self_id: WlRegistryId(2), name: 2, interface: "wl_seat".to_string(), version: 7 }
    );
    assert_eq!(r.send_global_remove(GlobalName(1)), WlRegistryEvent::GlobalRemove { self_id: WlRegistryId(2), name: 1 });
}

#[test]
fn registry_bind() {
    let r = WlRegistry::new(WlRegistryId(2), ClientId(5));
    let g = globals();
    assert_eq!(r.bind(&bind(2, "wl_seat", 7), &g), Ok(1));
    assert_eq!(r.bind(&bind(1, "wl_compositor", 1), &g), Ok(0));
    assert_eq!(
        r.bind(&bind(3, "wl_seat", 1), &g),
        Err(BindError::GlobalsError(GlobalsError::GlobalDoesNotExist(GlobalName(3))))
    );
    assert_eq!(
        r.bind(&bind(2, "wl_output", 1), &g),
        Err(BindError::InvalidInterface(InterfaceError {
            name: GlobalName(2),
            interface: Interface { name: "wl_seat".to_string() },
            actual: "wl_output".to_string(),
        }))
    );
    assert_eq!(
        r.bind(&bind(2, "wl_seat", 8), &g),
        Err(BindError::InvalidVersion(VersionError {
            name: GlobalName(2),
            interface: Interface { name: "wl_seat".to_string() },
            version: 7,
            actual: 8,
        }))
    );
}

#[test]
fn idle_interval() {
    let mut idle = IdleState::new(Timeout { secs: 600, nanos: 500 });
    let obj = JayIdle { id: JayIdleId(4), client: ClientId(1) };
    assert_eq!(obj.get_status(&idle), JayIdleEvent::Interval { self_id: JayIdleId(4), interval: 600 });
    assert!(!idle.change);
    obj.set_interval(30, &mut idle);
    assert_eq!(idle.timeout, Timeout { secs: 30, nanos: 0 });
    assert!(idle.timeout_changed);
    assert!(idle.change);
    assert_eq!(obj.send_interval(&idle), JayIdleEvent::Interval { self_id: JayIdleId(4), interval: 30 });
}

#[test]
fn idle_inhibitors() {
    let mut idle = IdleState::new(Timeout { secs: 60, nanos: 0 });
    let a = ZwpIdleInhibitorV1 { inhibit_id: 1, id: 20, client: ClientId(2), surface: 5 };
    let b = ZwpIdleInhibitorV1 { inhibit_id: 2, id: 21, client: ClientId(2), surface: 6 };
    idle.add_inhibitor(&a);
    idle.add_inhibitor(&b);
    assert!(idle.inhibitors_changed);
    assert!(idle.change);
    assert_eq!(idle.inhibitors.get(&1), Some(&a));
    assert_eq!(idle.inhibitors.get(&2), Some(&b));
    idle.remove_inhibitor(&a);
    assert_eq!(idle.inhibitors.get(&1), None);
    assert_eq!(idle.inhibitors.get(&2), Some(&b));
    assert!(!idle.timeout_changed);
}

#[test]
fn effective_modifiers() {
    let m = ModifierState::from_components(0b0001, 0b0100, 0b1000, 2);
    assert_eq!(m.mods_effective, 0b1101);
    assert_eq!(m.group, 2);
    assert_eq!(ModifierState::new().mods_effective, 0);
}

#[test]
fn init_message() {
    assert_eq!(InitMessage::V1(V1InitMessage {}), InitMessage::V1(V1InitMessage {}));
}
