use qt_bridge_gen::example::{MyObject, MySignals, Opaque, QPoint};

#[test]
fn new_object_has_emitted_nothing() {
    assert!(MyObject::default().emitted.is_empty());
}

#[test]
fn invokable_emits_data_changed_once() {
    let mut object = MyObject::default();
    object.invokable();
    assert_eq!(
        object.emitted,
        vec![MySignals::DataChanged {
            first: 1,
            second: Opaque::new(),
            third: QPoint::new(1, 2),
            fourth: QPoint::new(1, 2),
        }]
    );
}

#[test]
fn signals_are_kept_in_the_order_of_emission() {
    let mut object = MyObject::default();
    object.emit(MySignals::Ready);
    object.invokable();
    object.emit(MySignals::BaseClassNewData {
        first: 7,
        second: Opaque::new(),
        third: QPoint::new(3, 4),
        fourth: QPoint::new(5, 6),
    });
    object.invokable();
    assert_eq!(object.emitted.len(), 4);
    assert_eq!(object.emitted[0], MySignals::Ready);
    assert_eq!(object.emitted[1], object.emitted[3]);
    assert_eq!(
        object.emitted[2],
        MySignals::BaseClassNewData {
            first: 7,
            second: Opaque {},
            third: QPoint { x: 3, y: 4 },
            fourth: QPoint { x: 5, y: 6 },
        }
    );
}
