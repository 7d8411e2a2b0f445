use open_interpreter::home::{
    choose_home, default_home_name, exported_variables, ExportedValue, HomeSource,
};
use open_interpreter::launch::LaunchError;

#[test]
fn the_first_variable_that_is_set_names_the_home() {
    let set = Some(b"/home/x".to_vec());
    let empty = Some(Vec::new());
    assert_eq!(
        choose_home(&set, &set, true),
        Ok(HomeSource::InterpreterHome)
    );
    assert_eq!(
        choose_home(&None, &set, true),
        Ok(HomeSource::OpenInterpreterHome)
    );
    assert_eq!(
        choose_home(&empty, &set, false),
        Ok(HomeSource::OpenInterpreterHome)
    );
    assert_eq!(
        choose_home(&empty, &empty, true),
        Ok(HomeSource::UserHome)
    );
    assert_eq!(
        choose_home(&None, &empty, false),
        Err(LaunchError::NoHome)
    );
}

#[test]
fn the_default_home_is_named() {
    assert_eq!(default_home_name(), ".openinterpreter");
}

#[test]
fn the_environment_is_told() {
    assert_eq!(
        exported_variables(),
        vec![
            ("CODEX_HOME".to_string(), ExportedValue::Home),
            ("INTERPRETER_HOME".to_string(), ExportedValue::Home),
            ("OPEN_INTERPRETER_HOME".to_string(), ExportedValue::Home),
            ("OPEN_INTERPRETER_BRAND".to_string(), ExportedValue::One),
        ]
    );
}
