use lua_runtime::text::{decimal_string, same_text};
use lua_runtime::{
    Setting, SettingBoolParameters, SettingContext, SettingError, SettingFlags,
    SettingStringParameters, SettingType, SettingValue,
};

fn unexpected(input: &str) -> SettingError {
    SettingError::UnexpectedInput { expected: SettingType::Bool, input: input.to_string() }
}

#[test]
fn bool_reads_its_names() {
    let parameters = SettingBoolParameters::default();
    assert_eq!(<bool as SettingValue>::set_value("true", &parameters), Ok(true));
    assert_eq!(<bool as SettingValue>::set_value("false", &parameters), Ok(false));
    assert_eq!(<bool as SettingValue>::set_value("  true\n", &parameters), Ok(true));
    assert_eq!(<bool as SettingValue>::set_value("\tfalse \u{a0}", &parameters), Ok(false));
    assert_eq!(<bool as SettingValue>::set_value("\u{3000}true\u{2028}", &parameters), Ok(true));
}

#[test]
fn bool_reads_numbers() {
    let parameters = SettingBoolParameters::default();
    assert_eq!(<bool as SettingValue>::set_value("1", &parameters), Ok(true));
    assert_eq!(<bool as SettingValue>::set_value("0", &parameters), Ok(false));
    assert_eq!(<bool as SettingValue>::set_value(" 12 ", &parameters), Ok(true));
    assert_eq!(<bool as SettingValue>::set_value("+7", &parameters), Ok(true));
    assert_eq!(<bool as SettingValue>::set_value("+0", &parameters), Ok(false));
    assert_eq!(<bool as SettingValue>::set_value("000", &parameters), Ok(false));
    assert_eq!(<bool as SettingValue>::set_value("007", &parameters), Ok(true));
    assert_eq!(<bool as SettingValue>::set_value("4294967295", &parameters), Ok(true));
    assert_eq!(<bool as SettingValue>::set_value("00004294967295", &parameters), Ok(true));
}

#[test]
fn bool_refuses_everything_else() {
    let parameters = SettingBoolParameters::default();
    for input in
        ["", "   ", "yes", "True", "TRUE", "-1", "-0", "+", "1.0", "1 0", "4294967296", "1_000", "t rue", "٣"]
    {
        assert_eq!(<bool as SettingValue>::set_value(input, &parameters), Err(unexpected(input)));
    }
    assert_eq!(
        <bool as SettingValue>::set_value(" maybe ", &parameters),
        Err(unexpected(" maybe "))
    );
}

#[test]
fn bool_is_always_valid() {
    let parameters = SettingBoolParameters::default();
    assert_eq!(<bool as SettingValue>::is_valid(&true, &parameters), Ok(()));
    assert_eq!(<bool as SettingValue>::is_valid(&false, &parameters), Ok(()));
}

#[test]
fn bool_is_stored_by_its_name() {
    assert_eq!(<bool as SettingValue>::store(&true), "true");
    assert_eq!(<bool as SettingValue>::store(&false), "false");
    assert_eq!(<bool as SettingValue>::restore("true"), Some(true));
    assert_eq!(<bool as SettingValue>::restore("false"), Some(false));
    assert_eq!(<bool as SettingValue>::restore("1"), None);
    assert_eq!(<bool as SettingValue>::restore(" true"), None);
}

#[test]
fn text_is_bounded_by_its_length_in_bytes() {
    let bounded = SettingStringParameters { max_len: Some(5) };
    assert_eq!(<String as SettingValue>::is_valid(&"hello".to_string(), &bounded), Ok(()));
    assert_eq!(
        <String as SettingValue>::is_valid(&"hello!".to_string(), &bounded),
        Err(SettingError::ExceededMaxLength { max: 5, length: 6 })
    );
    assert_eq!(
        <String as SettingValue>::is_valid(&"héllo".to_string(), &bounded),
        Err(SettingError::ExceededMaxLength { max: 5, length: 6 })
    );
    assert_eq!(<String as SettingValue>::is_valid(&String::new(), &bounded), Ok(()));
    let unbounded = SettingStringParameters::default();
    assert_eq!(unbounded.max_len, None);
    assert_eq!(<String as SettingValue>::is_valid(&"x".repeat(10_000), &unbounded), Ok(()));
}

#[test]
fn text_is_read_as_it_stands() {
    let bounded = SettingStringParameters { max_len: Some(4) };
    assert_eq!(<String as SettingValue>::set_value(" ab ", &bounded), Ok(" ab ".to_string()));
    assert_eq!(
        <String as SettingValue>::set_value(" abc ", &bounded),
        Err(SettingError::ExceededMaxLength { max: 4, length: 5 })
    );
    assert_eq!(<String as SettingValue>::store(&"kept".to_string()), "kept");
    assert_eq!(<String as SettingValue>::restore("kept"), Some("kept".to_string()));
}

#[test]
fn setting_errors_have_messages() {
    assert_eq!(unexpected("abc").message(), "unable to parse \"abc\" as Bool");
    assert_eq!(
        SettingError::ExceededMaxLength { max: 3, length: 5 }.message(),
        "len 5 exceeded max length 3"
    );
    assert_eq!(
        SettingError::ExceededMaxLength { max: 0, length: 1234567890 }.message(),
        "len 1234567890 exceeded max length 0"
    );
    assert_eq!(SettingType::Bool.name(), "Bool");
}

#[test]
fn numbers_are_written_in_decimal() {
    assert_eq!(decimal_string(0), "0");
    assert_eq!(decimal_string(7), "7");
    assert_eq!(decimal_string(10), "10");
    assert_eq!(decimal_string(909), "909");
    assert_eq!(decimal_string(usize::MAX), usize::MAX.to_string());
    assert!(same_text("abc", "abc"));
    assert!(!same_text("abc", "abd"));
    assert!(!same_text("abc", "ab"));
}

#[test]
fn flags_contain_what_was_set() {
    assert_eq!(SettingFlags::empty().bits(), 0);
    assert_eq!(SettingFlags::server_override().bits(), 1);
    assert_eq!(SettingFlags::SERVER_OVERRIDE_BIT, 1);
    assert!(SettingFlags::server_override().contains(SettingFlags::server_override()));
    assert!(SettingFlags::server_override().contains(SettingFlags::empty()));
    assert!(!SettingFlags::empty().contains(SettingFlags::server_override()));
    assert!(SettingFlags { bits: 3 }.contains(SettingFlags::server_override()));
    assert!(!SettingFlags { bits: 2 }.contains(SettingFlags::server_override()));
}

#[test]
fn a_setting_without_values_gives_its_default() {
    let setting = Setting::<bool>::create(
        "greet",
        true,
        SettingBoolParameters::default(),
        SettingFlags::empty(),
        "greets newcomers".to_string(),
    )
    .unwrap();
    assert!(setting.value(1, 2).unwrap());
    let setting = Setting::<String>::create(
        "prefix",
        "!".to_string(),
        SettingStringParameters { max_len: Some(3) },
        SettingFlags::empty(),
        String::new(),
    )
    .unwrap();
    assert_eq!(setting.value(1, 2).unwrap(), "!");
}

#[test]
fn a_setting_refuses_a_default_that_is_not_valid() {
    let created = Setting::<String>::create(
        "prefix",
        "much too long".to_string(),
        SettingStringParameters { max_len: Some(3) },
        SettingFlags::empty(),
        String::new(),
    );
    assert_eq!(created.err(), Some(SettingError::ExceededMaxLength { max: 3, length: 13 }));
}

#[test]
fn the_channel_goes_before_the_server() {
    let mut setting = Setting::<String>::create(
        "prefix",
        "!".to_string(),
        SettingStringParameters::default(),
        SettingFlags::empty(),
        String::new(),
    )
    .unwrap();
    setting.set_value(SettingContext::Server(7), "s").unwrap();
    assert_eq!(setting.value(7, 1).unwrap(), "s");
    assert_eq!(setting.value(8, 1).unwrap(), "!");
    setting.set_value(SettingContext::Channel(1), "c").unwrap();
    assert_eq!(setting.value(7, 1).unwrap(), "c");
    assert_eq!(setting.value(8, 1).unwrap(), "c");
    assert_eq!(setting.value(7, 2).unwrap(), "s");
    assert_eq!(setting.value(8, 2).unwrap(), "!");
    setting.set_value(SettingContext::Channel(1), "d").unwrap();
    assert_eq!(setting.value(7, 1).unwrap(), "d");
}

#[test]
fn the_server_goes_first_where_it_overrides() {
    let mut setting = Setting::<bool>::create(
        "quiet",
        false,
        SettingBoolParameters::default(),
        SettingFlags::server_override(),
        String::new(),
    )
    .unwrap();
    setting.set_value(SettingContext::Channel(1), "1").unwrap();
    assert!(setting.value(7, 1).unwrap());
    assert!(!setting.value(7, 2).unwrap());
    setting.set_value(SettingContext::Server(7), "false").unwrap();
    assert!(!setting.value(7, 1).unwrap());
    assert!(setting.value(8, 1).unwrap());
    setting.set_value(SettingContext::Server(8), " 0 ").unwrap();
    assert!(!setting.value(8, 1).unwrap());
}

#[test]
fn a_refused_input_changes_nothing() {
    let mut setting = Setting::<String>::create(
        "prefix",
        "!".to_string(),
        SettingStringParameters { max_len: Some(2) },
        SettingFlags::empty(),
        String::new(),
    )
    .unwrap();
    setting.set_value(SettingContext::Channel(1), "ab").unwrap();
    assert_eq!(
        setting.set_value(SettingContext::Channel(1), "abc"),
        Err(SettingError::ExceededMaxLength { max: 2, length: 3 })
    );
    assert_eq!(setting.value(0, 1).unwrap(), "ab");
    let mut setting = Setting::<bool>::create(
        "quiet",
        true,
        SettingBoolParameters::default(),
        SettingFlags::empty(),
        String::new(),
    )
    .unwrap();
    assert_eq!(setting.set_value(SettingContext::Server(3), "perhaps"), Err(unexpected("perhaps")));
    assert!(setting.value(3, 1).unwrap());
}

#[test]
fn flush_cache_brings_the_default_back() {
    let mut setting = Setting::<String>::create(
        "prefix",
        "!".to_string(),
        SettingStringParameters::default(),
        SettingFlags::empty(),
        String::new(),
    )
    .unwrap();
    setting.set_value(SettingContext::Channel(1), "c").unwrap();
    setting.set_value(SettingContext::Server(7), "s").unwrap();
    setting.flush_cache();
    assert_eq!(setting.value(7, 1).unwrap(), "!");
    setting.set_value(SettingContext::Server(7), "t").unwrap();
    assert_eq!(setting.value(7, 1).unwrap(), "t");
}
