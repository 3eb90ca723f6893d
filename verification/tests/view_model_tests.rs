use artillery_core::map::{GameMap, MapBuilder};
use artillery_core::view_model::{ActivityState, InnerModel, ViewModel};

#[test]
fn no_subject() {
    let elem: ViewModel<GameMap> = ViewModel::new(None);

    assert!({
        match elem.subject() {
            None => true,
            _ => false,
        }
    });
}

#[test]
fn subject_not_changing() {
    let mut elem: ViewModel<GameMap> = ViewModel::new(None);

    elem.change_subject(None);

    assert!({
        match elem.subject() {
            None => true,
            _ => false,
        }
    });

    match MapBuilder::from_named(None) {
        Ok(map) => elem.change_subject(Some(map)),
        Err(ex) => panic!("{:?}", ex),
    };

    assert!({
        let cloned = elem.clone();
        let name_test = match cloned.subject() {
            None => false,
            Some(map) => map.name() == "Tutorial",
        };

        let subject_test = match elem.state() {
            ActivityState::Inactive => true,
            _ => false,
        };

        name_test && subject_test
    });
}

#[test]
fn subject_activating() {
    let mut elem: ViewModel<GameMap> = ViewModel::new(None);

    elem.activate();

    assert!(match elem.state() {
        ActivityState::Active => true,
        _ => false,
    });
}

#[test]
fn change_model_no_subject() {
    let mut elem: ViewModel<GameMap> = ViewModel::new(None);

    elem.change_model(Some(InnerModel::new()));

    // Model shouldn't be set, as there is no subject
    assert!(match elem.inner() {
        None => true,
        Some(_) => false,
    });
}

#[test]
fn fresh_view_model_is_inactive() {
    let bare: ViewModel<u32> = ViewModel::new(None);
    assert!(matches!(bare.state(), ActivityState::Inactive));
    assert!(bare.subject().is_none());
    assert!(bare.inner().is_none());

    let supplied: ViewModel<u32> = ViewModel::new(Some(InnerModel::new()));
    assert!(matches!(supplied.state(), ActivityState::Inactive));
    assert!(supplied.subject().is_none());
    assert!(supplied.inner().is_some());
}

#[test]
fn lifecycle_mirrors_into_inner_model() {
    let mut vm: ViewModel<u32> = ViewModel::new(Some(InnerModel::new()));

    vm.activate();
    assert!(matches!(vm.state(), ActivityState::Active));
    assert!(matches!(vm.inner().as_ref().unwrap().state, ActivityState::Active));

    vm.loading();
    assert!(matches!(vm.state(), ActivityState::Loading));
    assert!(matches!(vm.inner().as_ref().unwrap().state, ActivityState::Loading));

    vm.deactivate();
    assert!(matches!(vm.state(), ActivityState::Inactive));
    assert!(matches!(vm.inner().as_ref().unwrap().state, ActivityState::Inactive));
}

#[test]
fn lifecycle_operations_are_idempotent() {
    let mut vm: ViewModel<u32> = ViewModel::new(Some(InnerModel::new()));

    vm.activate();
    vm.activate();
    assert!(matches!(vm.state(), ActivityState::Active));

    vm.deactivate();
    vm.deactivate();
    assert!(matches!(vm.state(), ActivityState::Inactive));

    vm.loading();
    vm.loading();
    assert!(matches!(vm.state(), ActivityState::Loading));
}

#[test]
fn subject_swap_restores_active() {
    let mut vm: ViewModel<u32> = ViewModel::new(Some(InnerModel::new()));

    vm.change_subject(Some(1));
    assert_eq!(*vm.subject(), Some(1));
    assert!(matches!(vm.state(), ActivityState::Inactive));

    vm.activate();
    vm.change_subject(Some(2));

    // The swap went down, through loading, and back up to Active with the
    // new subject bound.
    assert_eq!(*vm.subject(), Some(2));
    assert!(matches!(vm.state(), ActivityState::Active));
    assert!(matches!(vm.inner().as_ref().unwrap().state, ActivityState::Active));
}

#[test]
fn equal_subject_swap_is_a_no_op() {
    let mut vm: ViewModel<u32> = ViewModel::new(Some(InnerModel::new()));
    vm.change_subject(Some(5));
    vm.activate();

    vm.change_subject(Some(5));

    assert_eq!(*vm.subject(), Some(5));
    assert!(matches!(vm.state(), ActivityState::Active));
}

#[test]
fn change_model_with_subject_installs_the_model() {
    let mut vm: ViewModel<u32> = ViewModel::new(None);
    vm.change_subject(Some(9));

    vm.change_model(Some(InnerModel::new()));

    assert!(vm.inner().is_some());
    // The machine was Inactive before and is restored to Inactive.
    assert!(matches!(vm.state(), ActivityState::Inactive));
    assert!(matches!(vm.inner().as_ref().unwrap().state, ActivityState::Inactive));
}

#[test]
fn change_model_while_active_restores_active() {
    let mut vm: ViewModel<u32> = ViewModel::new(None);
    vm.change_subject(Some(9));
    vm.activate();

    vm.change_model(Some(InnerModel::new()));

    assert!(vm.inner().is_some());
    assert!(matches!(vm.state(), ActivityState::Active));
    assert!(matches!(vm.inner().as_ref().unwrap().state, ActivityState::Active));
}
