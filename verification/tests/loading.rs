use trading_utils::error::ErrorKind;
use trading_utils::loader::{LoadAction, LoadEvent, LoadStage, Loader};
use trading_utils::registration::{check_data_lengths, AlgorithmRegistration, DataLength};
use trading_utils::registry::Algorithms;

fn registration(name: &str, rustc: &str, utils: &str, min: DataLength, max: DataLength) -> AlgorithmRegistration {
    AlgorithmRegistration {
        rustc_version: rustc.to_string(),
        utils_version: utils.to_string(),
        name: name.to_string(),
        description: "a test module".to_string(),
        min_data_length: min,
        max_data_length: max,
    }
}

fn read_descriptor(reg: AlgorithmRegistration) -> (Loader, LoadAction) {
    let loader = Loader::begin("1.70.0", "0.3.1");
    let (loader, action) = loader.advance(LoadEvent::PathResolved("/modules/libdemo.so".to_string()));
    assert!(matches!(action, LoadAction::OpenLibrary));
    let (loader, action) = loader.advance(LoadEvent::LibraryOpened);
    assert!(matches!(action, LoadAction::ReadDescriptor));
    loader.advance(LoadEvent::DescriptorRead(reg))
}

#[test]
fn load_runs_through_every_stage() {
    let reg = registration("demo", "1.70.0", "0.3.1", DataLength::Fixed(3), DataLength::Fixed(10));
    let (loader, action) = read_descriptor(reg);
    assert!(matches!(action, LoadAction::CreateInstance));
    assert_eq!(loader.stage(), LoadStage::Instantiating);
    let (loader, action) = loader.advance(LoadEvent::InstanceCreated);
    assert!(matches!(action, LoadAction::Finish));
    let algorithm = loader.finish(42u32).unwrap();
    assert_eq!(algorithm.name(), "demo");
    assert_eq!(algorithm.description(), "a test module");
    assert_eq!(algorithm.path(), "/modules/libdemo.so");
    assert_eq!(algorithm.min_data_length(), DataLength::Fixed(3));
    assert_eq!(algorithm.max_data_length(), DataLength::Fixed(10));
    assert_eq!(*algorithm.instance(), 42);
}

#[test]
fn mismatched_toolchain_version_is_refused() {
    let reg = registration("demo", "1.70.1", "0.3.1", DataLength::Variable, DataLength::Variable);
    let (loader, action) = read_descriptor(reg);
    match action {
        LoadAction::Abort(error) => {
            assert_eq!(error.kind(), ErrorKind::MisMatchedVersion);
            assert_eq!(
                error.msg(),
                "The algorithm `demo` has a mismatched version!\nAlgorithm version: [1.70.1/0.3.1]\nUtils version: [1.70.0/0.3.1]"
            );
        }
        _ => panic!("the load went on"),
    }
    assert_eq!(loader.stage(), LoadStage::Failed);
    assert!(loader.finish(0u32).is_none());
}

#[test]
fn mismatched_utils_version_is_refused() {
    let reg = registration("demo", "1.70.0", "0.3.10", DataLength::Variable, DataLength::Variable);
    let (_, action) = read_descriptor(reg);
    match action {
        LoadAction::Abort(error) => assert_eq!(error.kind(), ErrorKind::MisMatchedVersion),
        _ => panic!("the load went on"),
    }
}

#[test]
fn maximum_below_minimum_is_refused() {
    let reg = registration("demo", "1.70.0", "0.3.1", DataLength::Fixed(11), DataLength::Fixed(10));
    let (_, action) = read_descriptor(reg);
    match action {
        LoadAction::Abort(error) => {
            assert_eq!(error.kind(), ErrorKind::InvalidModuleConfig);
            assert_eq!(
                error.msg(),
                "The algorithm `demo` is not configured correctly\n(min_data_length: Fixed(11), max_data_length: Fixed(10))"
            );
        }
        _ => panic!("the load went on"),
    }
}

#[test]
fn maximum_of_zero_is_refused() {
    for min in [DataLength::Fixed(0), DataLength::Fixed(5), DataLength::Variable] {
        let reg = registration("demo", "1.70.0", "0.3.1", min, DataLength::Fixed(0));
        let (_, action) = read_descriptor(reg);
        match action {
            LoadAction::Abort(error) => assert_eq!(error.kind(), ErrorKind::InvalidModuleConfig),
            _ => panic!("the load went on"),
        }
    }
}

#[test]
fn bounds_are_checked_as_declared() {
    assert!(check_data_lengths(DataLength::Fixed(5), DataLength::Fixed(5)));
    assert!(check_data_lengths(DataLength::Fixed(5), DataLength::Fixed(6)));
    assert!(!check_data_lengths(DataLength::Fixed(6), DataLength::Fixed(5)));
    assert!(!check_data_lengths(DataLength::Fixed(0), DataLength::Fixed(0)));
    assert!(check_data_lengths(DataLength::Variable, DataLength::Fixed(1)));
    assert!(check_data_lengths(DataLength::Fixed(7), DataLength::Variable));
    assert!(check_data_lengths(DataLength::Variable, DataLength::Variable));
}

#[test]
fn data_length_text() {
    assert_eq!(DataLength::Variable.to_text(), "Variable");
    assert_eq!(DataLength::Fixed(0).to_text(), "Fixed(0)");
    assert_eq!(DataLength::Fixed(1204).to_text(), "Fixed(1204)");
}

#[test]
fn faults_and_refusals_end_the_load() {
    let (_, action) = Loader::begin("a", "b").advance(LoadEvent::PathUnresolved("no such file".to_string()));
    match action {
        LoadAction::Abort(error) => {
            assert_eq!(error.kind(), ErrorKind::IO);
            assert_eq!(error.msg(), "no such file");
        }
        _ => panic!("the load went on"),
    }
    let (loader, _) = Loader::begin("a", "b").advance(LoadEvent::PathResolved("/x".to_string()));
    let (_, action) = loader.advance(LoadEvent::LibraryRefused("bad image".to_string()));
    match action {
        LoadAction::Abort(error) => assert_eq!(error.kind(), ErrorKind::ModuleOpenFailed),
        _ => panic!("the load went on"),
    }
    let (loader, _) = Loader::begin("a", "b").advance(LoadEvent::PathResolved("/x".to_string()));
    let (loader, _) = loader.advance(LoadEvent::LibraryOpened);
    let (loader, action) = loader.advance(LoadEvent::Faulted);
    match action {
        LoadAction::Abort(error) => assert_eq!(error.kind(), ErrorKind::ModuleFault),
        _ => panic!("the load went on"),
    }
    let (_, action) = loader.advance(LoadEvent::InstanceCreated);
    match action {
        LoadAction::Abort(error) => assert_eq!(error.kind(), ErrorKind::Other),
        _ => panic!("a failed load went on"),
    }
}

#[test]
fn a_missing_symbol_and_a_faulting_factory_end_the_load() {
    let (loader, _) = Loader::begin("a", "b").advance(LoadEvent::PathResolved("/x".to_string()));
    let (loader, _) = loader.advance(LoadEvent::LibraryOpened);
    let (loader, action) = loader.advance(LoadEvent::LibraryRefused("undefined symbol".to_string()));
    match action {
        LoadAction::Abort(error) => {
            assert_eq!(error.kind(), ErrorKind::ModuleOpenFailed);
            assert_eq!(error.msg(), "undefined symbol");
        }
        _ => panic!("the load went on"),
    }
    assert_eq!(loader.stage(), LoadStage::Failed);

    let reg = registration("demo", "1.70.0", "0.3.1", DataLength::Variable, DataLength::Variable);
    let (loader, _) = read_descriptor(reg);
    let (loader, action) = loader.advance(LoadEvent::Faulted);
    match action {
        LoadAction::Abort(error) => {
            assert_eq!(error.kind(), ErrorKind::ModuleFault);
            assert_eq!(error.msg(), "The module faulted while its instance was made");
        }
        _ => panic!("the load went on"),
    }
    assert!(loader.finish(1u32).is_none());
}

#[test]
fn a_load_that_has_not_finished_yields_no_algorithm() {
    assert!(Loader::begin("a", "b").finish(1u32).is_none());
    let reg = registration("demo", "1.70.0", "0.3.1", DataLength::Variable, DataLength::Variable);
    let (loader, _) = read_descriptor(reg);
    assert!(loader.finish(1u32).is_none());
}

fn loaded(name: &str, instance: u32) -> trading_utils::algorithm::Algorithm<u32> {
    let reg = registration(name, "1.70.0", "0.3.1", DataLength::Variable, DataLength::Variable);
    let (loader, _) = read_descriptor(reg);
    let (loader, _) = loader.advance(LoadEvent::InstanceCreated);
    loader.finish(instance).unwrap()
}

#[test]
fn second_module_of_a_name_is_refused() {
    let mut registry: Algorithms<u32> = Algorithms::empty();
    assert!(!registry.contains("demo"));
    assert!(registry.load(loaded("demo", 1)).is_ok());
    assert!(registry.load(loaded("other", 2)).is_ok());
    let refused = registry.load(loaded("demo", 3)).unwrap_err();
    assert_eq!(refused.kind(), ErrorKind::DuplicateAlgorithm);
    assert_eq!(refused.msg(), "An algorithm with the name `demo` already exists");
    assert!(registry.contains("demo"));
    assert_eq!(*registry.get("demo").unwrap().instance(), 1);
    assert_eq!(*registry.get("other").unwrap().instance(), 2);
    assert!(registry.get("third").is_none());
}

#[test]
fn registry_lists_names_in_order_of_registration() {
    let mut registry: Algorithms<u32> = Algorithms::empty();
    registry.load(loaded("momentum", 1)).unwrap();
    registry.load(loaded("average", 2)).unwrap();
    assert_eq!(registry.to_text(), "ALGORITHMS:\t\n\tmomentum\n\taverage");
}

#[test]
fn registered_algorithm_can_be_driven() {
    let mut registry: Algorithms<u32> = Algorithms::empty();
    registry.load(loaded("demo", 1)).unwrap();
    *registry.get_mut("demo").unwrap().instance_mut() = 9;
    assert_eq!(*registry.get("demo").unwrap().instance(), 9);
    assert!(registry.get_mut("absent").is_none());
}
