//! The home directory of the interpreter, and what the environment says of it.
use vstd::prelude::*;

use crate::launch::LaunchError;

verus! {

/// Where the home directory comes from.
#[derive(Debug, Clone, Copy, PartialEq, Eq, Structural)]
pub enum HomeSource {
    /// The value of `INTERPRETER_HOME`.
    InterpreterHome,
    /// The value of `OPEN_INTERPRETER_HOME`.
    OpenInterpreterHome,
    /// The directory [`default_home_name`] in the user's home directory.
    UserHome,
}

/// Whether a variable is set to something. Its value is given as the bytes of the system's string.
pub open spec fn is_set(value: Option<Vec<u8>>) -> bool {
    value matches Some(bytes) && bytes@.len() > 0
}

/// Whether a variable is set to something.
fn set_to_something(value: &Option<Vec<u8>>) -> (yes: bool)
    ensures
        yes == is_set(*value),
{
    match value {
        Some(bytes) => bytes.len() > 0,
        None => false,
    }
}

/// Where the home directory comes from: the first of the two variables that is set to something, or
/// else the user's home directory. It fails where there is none of them.
pub fn choose_home(
    interpreter_home: &Option<Vec<u8>>,
    open_interpreter_home: &Option<Vec<u8>>,
    has_user_home: bool,
) -> (source: Result<HomeSource, LaunchError>)
    ensures
        source == if is_set(*interpreter_home) {
            Ok(HomeSource::InterpreterHome)
        } else if is_set(*open_interpreter_home) {
            Ok(HomeSource::OpenInterpreterHome)
        } else if has_user_home {
            Ok(HomeSource::UserHome)
        } else {
            Err::<HomeSource, LaunchError>(LaunchError::NoHome)
        },
{
    if set_to_something(interpreter_home) {
        Ok(HomeSource::InterpreterHome)
    } else if set_to_something(open_interpreter_home) {
        Ok(HomeSource::OpenInterpreterHome)
    } else if has_user_home {
        Ok(HomeSource::UserHome)
    } else {
        Err(LaunchError::NoHome)
    }
}

/// The name of the home directory in the user's home directory.
pub fn default_home_name() -> (name: String)
    ensures
        name@ == ".openinterpreter"@,
{
    ".openinterpreter".to_owned()
}

/// What a variable is set to.
#[derive(Debug, Clone, Copy, PartialEq, Eq, Structural)]
pub enum ExportedValue {
    /// The home directory.
    Home,
    /// The text `1`.
    One,
}

/// The variables that say where the home directory is and which product runs.
pub open spec fn exported_names() -> Seq<(Seq<char>, ExportedValue)> {
    seq![
        ("CODEX_HOME"@, ExportedValue::Home),
        ("INTERPRETER_HOME"@, ExportedValue::Home),
        ("OPEN_INTERPRETER_HOME"@, ExportedValue::Home),
        ("OPEN_INTERPRETER_BRAND"@, ExportedValue::One),
    ]
}

/// The variables that are set once the home directory is known, and to what.
pub fn exported_variables() -> (variables: Vec<(String, ExportedValue)>)
    ensures
        variables@.map_values(|variable: (String, ExportedValue)| (variable.0@, variable.1))
            == exported_names(),
{
    let variables = vec![
        ("CODEX_HOME".to_owned(), ExportedValue::Home),
        ("INTERPRETER_HOME".to_owned(), ExportedValue::Home),
        ("OPEN_INTERPRETER_HOME".to_owned(), ExportedValue::Home),
        ("OPEN_INTERPRETER_BRAND".to_owned(), ExportedValue::One),
    ];
    assert(variables@.map_values(|variable: (String, ExportedValue)| (variable.0@, variable.1))
        =~= exported_names());
    variables
}

} // verus!
