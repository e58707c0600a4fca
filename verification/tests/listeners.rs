use jolt::{
    BodyActivationListener, BodyActivationListenerWrapper, BodyId, ContactListener,
    ContactListenerWrapper, DispatchSlot, ValidateResult,
};
use std::sync::{Arc, Mutex};

#[derive(Debug, Clone, PartialEq)]
enum Heard {
    Activated(BodyId, u64),
    Deactivated(BodyId, u64),
    Validate(u32, u32),
    Added(u32, u32),
    Persisted(u32, u32),
    Removed(u32, u32),
}

struct Recorder {
    log: Arc<Mutex<Vec<Heard>>>,
    decision: u32,
}

impl BodyActivationListener for Recorder {
    fn on_body_activated(&self, body_id: BodyId, user_data: u64) {
        self.log.lock().unwrap().push(Heard::Activated(body_id, user_data));
    }

    fn on_body_deactivated(&self, body_id: BodyId, user_data: u64) {
        self.log.lock().unwrap().push(Heard::Deactivated(body_id, user_data));
    }
}

struct Body {
    id: u32,
}

#[derive(Debug, Clone, PartialEq)]
struct Settings {
    combined_friction: f32,
    combined_restitution: f32,
    is_sensor: bool,
}

impl ContactListener for Recorder {
    type Body = Body;
    type BaseOffset = [f32; 3];
    type CollideShapeResult = f32;
    type ContactManifold = Vec<[f32; 3]>;
    type ContactSettings = Settings;
    type SubShapeIDPair = (u32, u32);

    fn may_decide(&self, _: Body, _: Body, _: [f32; 3], _: f32, _: ValidateResult) -> bool {
        true
    }

    fn may_adjust_added(
        &self,
        _: Body,
        _: Body,
        _: Vec<[f32; 3]>,
        _: Settings,
        _: Settings,
    ) -> bool {
        true
    }

    fn may_adjust_persisted(
        &self,
        _: Body,
        _: Body,
        _: Vec<[f32; 3]>,
        _: Settings,
        _: Settings,
    ) -> bool {
        true
    }

    fn on_contact_validate(
        &self,
        body1: &Body,
        body2: &Body,
        _base_offset: [f32; 3],
        penetration: &f32,
    ) -> ValidateResult {
        self.log.lock().unwrap().push(Heard::Validate(body1.id, body2.id));
        if *penetration < 0.0 {
            ValidateResult::RejectContact
        } else {
            ValidateResult::from_raw(self.decision).unwrap()
        }
    }

    fn on_contact_added(
        &self,
        body1: &Body,
        body2: &Body,
        manifold: &Vec<[f32; 3]>,
        io_settings: &mut Settings,
    ) {
        self.log.lock().unwrap().push(Heard::Added(body1.id, body2.id));
        io_settings.combined_friction = 0.75;
        io_settings.is_sensor = manifold.len() > 1;
    }

    fn on_contact_persisted(
        &self,
        body1: &Body,
        body2: &Body,
        _manifold: &Vec<[f32; 3]>,
        io_settings: &mut Settings,
    ) {
        self.log.lock().unwrap().push(Heard::Persisted(body1.id, body2.id));
        io_settings.combined_restitution *= 0.5;
    }

    fn on_contact_removed(&self, sub_shape_pair: &(u32, u32)) {
        self.log.lock().unwrap().push(Heard::Removed(sub_shape_pair.0, sub_shape_pair.1));
    }
}

fn recorder(decision: u32) -> (Recorder, Arc<Mutex<Vec<Heard>>>) {
    let log = Arc::new(Mutex::new(Vec::new()));
    (Recorder { log: log.clone(), decision }, log)
}

#[test]
fn activation_events_reach_the_listener_in_order() {
    let (listener, log) = recorder(0);
    let boxed: Box<dyn BodyActivationListener> = Box::new(listener);
    let cell: BodyActivationListenerWrapper = BodyActivationListenerWrapper::new(boxed);
    cell.on_body_activated(7, 0xfeed);
    cell.on_body_activated(8, 1);
    cell.on_body_deactivated(7, 0xfeed);
    assert_eq!(
        *log.lock().unwrap(),
        vec![Heard::Activated(7, 0xfeed), Heard::Activated(8, 1), Heard::Deactivated(7, 0xfeed)]
    );
    let table = cell.vtable();
    assert_eq!(table.len(), 3);
    assert_eq!(table.slot(0), Some(DispatchSlot::Reserved));
    assert_eq!(table.slot(1), Some(DispatchSlot::OnBodyActivated));
    assert_eq!(table.slot(2), Some(DispatchSlot::OnBodyDeactivated));
}

#[test]
fn contact_lifecycle_reaches_the_listener_in_order() {
    let (listener, log) = recorder(1);
    let cell = ContactListenerWrapper::new(Box::new(listener));
    let falling = Body { id: 1 };
    let floor = Body { id: 2 };
    let manifold = vec![[0.0f32, 0.0, 0.0], [1.0, 0.0, 0.0]];
    let mut settings =
        Settings { combined_friction: 0.2, combined_restitution: 0.8, is_sensor: false };

    assert_eq!(cell.on_contact_validate(&falling, &floor, [0.0; 3], &0.01), 1);
    assert_eq!(cell.on_contact_validate(&falling, &floor, [0.0; 3], &0.02), 1);
    cell.on_contact_added(&falling, &floor, &manifold, &mut settings);
    assert_eq!(
        settings,
        Settings { combined_friction: 0.75, combined_restitution: 0.8, is_sensor: true }
    );
    for _ in 0..3 {
        cell.on_contact_persisted(&falling, &floor, &manifold, &mut settings);
    }
    assert_eq!(
        settings,
        Settings { combined_friction: 0.75, combined_restitution: 0.1, is_sensor: true }
    );
    cell.on_contact_removed(&(1, 2));

    assert_eq!(
        *log.lock().unwrap(),
        vec![
            Heard::Validate(1, 2),
            Heard::Validate(1, 2),
            Heard::Added(1, 2),
            Heard::Persisted(1, 2),
            Heard::Persisted(1, 2),
            Heard::Persisted(1, 2),
            Heard::Removed(1, 2),
        ]
    );
}

#[test]
fn validate_trampoline_encodes_each_decision() {
    let falling = Body { id: 1 };
    let floor = Body { id: 2 };
    for code in 0u32..4 {
        let (listener, _log) = recorder(code);
        let cell = ContactListenerWrapper::new(Box::new(listener));
        assert_eq!(cell.on_contact_validate(&falling, &floor, [0.0; 3], &0.5), code);
        assert_eq!(cell.on_contact_validate(&falling, &floor, [0.0; 3], &-0.5), 2);
    }
}

#[test]
fn table_of_the_contact_family_has_no_header() {
    let (listener, _log) = recorder(0);
    let cell = ContactListenerWrapper::new(Box::new(listener));
    let table = cell.vtable();
    assert_eq!(table.len(), 4);
    assert_eq!(table.slot(0), Some(DispatchSlot::OnContactValidate));
    assert_eq!(table.slot(1), Some(DispatchSlot::OnContactAdded));
    assert_eq!(table.slot(2), Some(DispatchSlot::OnContactPersisted));
    assert_eq!(table.slot(3), Some(DispatchSlot::OnContactRemoved));
}

#[test]
fn contact_cell_owns_a_listener_of_any_kind() {
    let (listener, log) = recorder(3);
    let boxed: Box<
        dyn ContactListener<
            Body = Body,
            BaseOffset = [f32; 3],
            CollideShapeResult = f32,
            ContactManifold = Vec<[f32; 3]>,
            ContactSettings = Settings,
            SubShapeIDPair = (u32, u32),
        >,
    > = Box::new(listener);
    let cell = ContactListenerWrapper::new(boxed);
    let a = Body { id: 10 };
    let b = Body { id: 20 };
    assert_eq!(cell.on_contact_validate(&a, &b, [1.0, 2.0, 3.0], &1.0), 3);
    cell.on_contact_removed(&(10, 20));
    assert_eq!(*log.lock().unwrap(), vec![Heard::Validate(10, 20), Heard::Removed(10, 20)]);
}
