use instancebuilder::{BuilderError, FromInstanceBuilder, InstanceBuilder};
use std::any::{Any, TypeId};

struct TestImplementation {
    inner: String,
}

struct TestConfig {
    key: String,
}

impl FromInstanceBuilder for TestImplementation {
    fn try_from_builder(builder: &InstanceBuilder) -> Result<Self, BuilderError> {
        let config: &TestConfig = builder.data("TestConfig")?;
        Ok(Self {
            inner: config.key.clone(),
        })
    }
}

#[derive(Debug, PartialEq)]
struct Meters {
    value: u32,
}

#[derive(Debug, PartialEq)]
struct Seconds {
    value: u32,
}

struct Outer {
    inner: TestImplementation,
    label: String,
}

impl FromInstanceBuilder for Outer {
    fn try_from_builder(builder: &InstanceBuilder) -> Result<Self, BuilderError> {
        let inner = builder.build::<TestImplementation>()?;
        let label: &String = builder.data("String")?;
        Ok(Self {
            inner,
            label: label.clone(),
        })
    }
}

struct Picky;

impl FromInstanceBuilder for Picky {
    fn try_from_builder(builder: &InstanceBuilder) -> Result<Self, BuilderError> {
        let limit: &u32 = builder.data("u32")?;
        if *limit > 10 {
            return Err(BuilderError::Other(String::from("limit too high")));
        }
        Ok(Picky)
    }
}

struct Wrapper {
    _picky: Picky,
}

impl FromInstanceBuilder for Wrapper {
    fn try_from_builder(builder: &InstanceBuilder) -> Result<Self, BuilderError> {
        Ok(Self {
            _picky: builder.build::<Picky>()?,
        })
    }
}

fn needs_send_and_sync<T: Send + Sync>(_value: &T) -> bool {
    true
}

#[test]
fn it_creates_new_instance_of_demanded_impl() {
    let config = TestConfig {
        key: String::from("help me!"),
    };
    let config_key = config.key.clone();
    let mut builder = InstanceBuilder::new();
    builder.insert(config);

    let instance = builder.build::<TestImplementation>().unwrap();

    assert_eq!(instance.type_id(), TypeId::of::<TestImplementation>());
    assert_eq!(instance.inner, config_key);
}

#[test]
fn stored_value_is_found() {
    let mut builder = InstanceBuilder::new();
    builder.insert(41u32);
    builder.insert(String::from("text"));
    builder.insert(Meters { value: 7 });

    assert_eq!(builder.data_opt::<u32>(), Some(&41u32));
    assert_eq!(builder.data_opt::<String>(), Some(&String::from("text")));
    assert_eq!(builder.data_opt::<Meters>(), Some(&Meters { value: 7 }));
    assert_eq!(*builder.data::<u32>("u32").unwrap(), 41);
    assert_eq!(builder.data::<Meters>("Meters").unwrap().value, 7);
}

#[test]
fn empty_registry_finds_nothing() {
    let builder = InstanceBuilder::new();

    assert!(builder.data_opt::<u32>().is_none());
    assert!(builder.data_opt::<String>().is_none());
    assert!(builder.data_opt::<Meters>().is_none());
}

#[test]
fn default_registry_is_empty() {
    let builder = InstanceBuilder::default();

    assert!(builder.data_opt::<u32>().is_none());
    assert!(builder.data::<String>("String").is_err());
}

#[test]
fn missing_value_is_reported_under_the_given_name() {
    let builder = InstanceBuilder::new();

    match builder.data::<Meters>("Meters") {
        Err(BuilderError::DataDoesNotExist { ty }) => assert_eq!(ty, "Meters"),
        _ => panic!("a missing value must be reported as DataDoesNotExist"),
    }
}

#[test]
fn never_stored_type_is_missing_beside_stored_ones() {
    let mut builder = InstanceBuilder::new();
    builder.insert(1u8);
    builder.insert(String::from("present"));

    assert!(builder.data_opt::<u16>().is_none());
    match builder.data::<u16>("u16") {
        Err(BuilderError::DataDoesNotExist { ty }) => assert_eq!(ty, "u16"),
        _ => panic!("a missing value must be reported as DataDoesNotExist"),
    }
}

#[test]
fn second_value_replaces_first() {
    let mut builder = InstanceBuilder::new();
    builder.insert(Meters { value: 1 });
    builder.insert(Meters { value: 2 });

    assert_eq!(builder.data_opt::<Meters>(), Some(&Meters { value: 2 }));
    assert_eq!(builder.data::<Meters>("Meters").unwrap().value, 2);
}

#[test]
fn replacing_keeps_values_of_other_types() {
    let mut builder = InstanceBuilder::new();
    builder.insert(Seconds { value: 30 });
    builder.insert(Meters { value: 1 });
    builder.insert(5u64);
    builder.insert(Meters { value: 2 });

    assert_eq!(builder.data_opt::<Seconds>(), Some(&Seconds { value: 30 }));
    assert_eq!(builder.data_opt::<u64>(), Some(&5u64));
    assert_eq!(builder.data_opt::<Meters>(), Some(&Meters { value: 2 }));
}

#[test]
fn lookup_tells_types_with_equal_fields_apart() {
    let mut builder = InstanceBuilder::new();
    builder.insert(Meters { value: 7 });

    assert!(builder.data_opt::<Seconds>().is_none());
    assert!(builder.data::<Seconds>("Seconds").is_err());
    assert_eq!(builder.data_opt::<Meters>(), Some(&Meters { value: 7 }));
}

#[test]
fn lookup_tells_a_value_from_its_box_and_its_option() {
    let mut builder = InstanceBuilder::new();
    builder.insert(3u32);

    assert!(builder.data_opt::<Box<u32>>().is_none());
    assert!(builder.data_opt::<Option<u32>>().is_none());
    assert!(builder.data_opt::<i32>().is_none());

    builder.insert(Some(4u32));
    builder.insert(Box::new(5u32));

    assert_eq!(builder.data_opt::<u32>(), Some(&3u32));
    assert_eq!(builder.data_opt::<Option<u32>>(), Some(&Some(4u32)));
    assert_eq!(builder.data_opt::<Box<u32>>(), Some(&Box::new(5u32)));
}

#[test]
fn lookup_tells_str_from_string() {
    let mut builder = InstanceBuilder::new();
    builder.insert("borrowed");

    assert!(builder.data_opt::<String>().is_none());
    assert_eq!(builder.data_opt::<&'static str>(), Some(&"borrowed"));
}

#[test]
fn unit_values_are_stored_by_type() {
    let mut builder = InstanceBuilder::new();
    builder.insert(());

    assert_eq!(builder.data_opt::<()>(), Some(&()));
    assert!(builder.data_opt::<Picky>().is_none());
}

#[test]
fn build_fails_naming_the_missing_type() {
    let builder = InstanceBuilder::new();

    match builder.build::<TestImplementation>() {
        Err(BuilderError::DataDoesNotExist { ty }) => assert_eq!(ty, "TestConfig"),
        _ => panic!("building without the config must fail with DataDoesNotExist"),
    }
}

#[test]
fn build_failure_is_described_in_words() {
    let builder = InstanceBuilder::new();

    let error = builder.build::<TestImplementation>().err().unwrap();

    assert_eq!(error.to_string(), "data of type TestConfig does not exist");
}

#[test]
fn build_reads_the_current_contents_each_time() {
    let mut builder = InstanceBuilder::new();
    builder.insert(TestConfig {
        key: String::from("first"),
    });
    let first = builder.build::<TestImplementation>().unwrap();
    builder.insert(TestConfig {
        key: String::from("second"),
    });
    let second = builder.build::<TestImplementation>().unwrap();
    let again = builder.build::<TestImplementation>().unwrap();

    assert_eq!(first.inner, "first");
    assert_eq!(second.inner, "second");
    assert_eq!(again.inner, "second");
}

#[test]
fn nested_build_succeeds_when_inner_values_are_present() {
    let mut builder = InstanceBuilder::new();
    builder.insert(TestConfig {
        key: String::from("help me!"),
    });
    builder.insert(String::from("outer label"));

    let outer = builder.build::<Outer>().unwrap();

    assert_eq!(outer.inner.inner, "help me!");
    assert_eq!(outer.label, "outer label");
}

#[test]
fn nested_build_hands_on_the_inner_failure() {
    let mut builder = InstanceBuilder::new();
    builder.insert(String::from("outer label"));

    match builder.build::<Outer>() {
        Err(BuilderError::DataDoesNotExist { ty }) => assert_eq!(ty, "TestConfig"),
        _ => panic!("the inner failure must reach the caller unchanged"),
    }
}

#[test]
fn nested_build_reports_its_own_missing_value() {
    let mut builder = InstanceBuilder::new();
    builder.insert(TestConfig {
        key: String::from("help me!"),
    });

    match builder.build::<Outer>() {
        Err(BuilderError::DataDoesNotExist { ty }) => assert_eq!(ty, "String"),
        _ => panic!("the outer type's own missing value must be reported"),
    }
}

#[test]
fn construction_can_fail_for_its_own_reasons() {
    let mut builder = InstanceBuilder::new();
    builder.insert(11u32);

    match builder.build::<Picky>() {
        Err(BuilderError::Other(reason)) => assert_eq!(reason, "limit too high"),
        _ => panic!("the construction's own failure must be returned"),
    }
    match builder.build::<Wrapper>() {
        Err(BuilderError::Other(reason)) => assert_eq!(reason, "limit too high"),
        _ => panic!("the construction's own failure must pass through a nested build"),
    }

    builder.insert(10u32);

    assert!(builder.build::<Picky>().is_ok());
    assert!(builder.build::<Wrapper>().is_ok());
}

#[test]
fn registry_can_be_shared_between_threads() {
    let mut builder = InstanceBuilder::new();
    builder.insert(1u32);

    assert!(needs_send_and_sync(&builder));
}
