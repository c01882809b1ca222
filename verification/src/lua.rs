//! The calls into the interpreter.
//!
//! The interpreter is `mlua`'s. What a call into it does depends on the
//! scripts it has loaded and on what they have done so far, so most
//! functions here hand back whatever `mlua` returned and say no more. The
//! functions that only make or take apart a value say what they make.
//!
//! Every handle that reaches one of these functions was made, in the same
//! call of the library, from the interpreter it is used with: no public
//! function of the library takes a table, a function or a value from its
//! caller and hands it on to the interpreter.

use vstd::prelude::*;

verus! {

#[verifier::external_type_specification]
#[verifier::external_body]
pub struct ExLua(mlua::Lua);

#[verifier::external_type_specification]
#[verifier::external_body]
pub struct ExTable(mlua::Table);

#[verifier::external_type_specification]
#[verifier::external_body]
pub struct ExFunction(mlua::Function);

#[verifier::external_type_specification]
#[verifier::external_body]
pub struct ExValue(mlua::Value);

#[verifier::external_type_specification]
#[verifier::external_body]
pub struct ExRegistryKey(mlua::RegistryKey);

#[verifier::external_type_specification]
#[verifier::external_body]
pub struct ExError(mlua::Error);

/// The interpreter's value for the boolean `flag`: what `mlua::Value::Boolean`
/// makes of it.
pub uninterp spec fn lua_boolean(flag: bool) -> mlua::Value;

/// The interpreter's value for the integer `number`: what
/// `mlua::Value::Integer` makes of it.
pub uninterp spec fn lua_integer(number: i64) -> mlua::Value;

/// The table that `value` is, if it is one: what matching on
/// `mlua::Value::Table` finds.
pub uninterp spec fn table_in(value: mlua::Value) -> Option<mlua::Table>;

/// The function that `value` is, if it is one: what matching on
/// `mlua::Value::Function` finds.
pub uninterp spec fn function_in(value: mlua::Value) -> Option<mlua::Function>;

/// True if `value` is nil: what `mlua::Value::is_nil` says.
pub uninterp spec fn nil_in(value: mlua::Value) -> bool;

/// The text of `value`, if it is a string that `mlua::Lua::create_string`
/// made of a text.
pub uninterp spec fn text_in(value: mlua::Value) -> Option<Seq<char>>;

/// The error that a capability raises with `text` as its message: what
/// `mlua::Error::RuntimeError` makes of it.
pub uninterp spec fn lua_runtime_error(text: Seq<char>) -> mlua::Error;

/// `mlua::Value::Boolean`.
#[verifier::external_body]
pub(crate) fn boolean_value(flag: bool) -> (value: mlua::Value)
    ensures
        value == lua_boolean(flag),
{
    mlua::Value::Boolean(flag)
}

/// `mlua::Value::Integer`.
#[verifier::external_body]
pub(crate) fn integer_value(number: i64) -> (value: mlua::Value)
    ensures
        value == lua_integer(number),
{
    mlua::Value::Integer(number)
}

/// `mlua::Value::Nil`.
#[verifier::external_body]
pub(crate) fn nil_value() -> (value: mlua::Value)
    ensures
        nil_in(value),
{
    mlua::Value::Nil
}

/// `mlua::Lua::create_string`: a string in the interpreter's heap that
/// holds `text`, as a value. It fails where the heap cannot hold it.
#[verifier::external_body]
pub(crate) fn string_value(lua: &mlua::Lua, text: &str) -> (value: Result<
    mlua::Value,
    mlua::Error,
>)
    ensures
        value matches Ok(made) ==> text_in(made) == Some(text@),
{
    lua.create_string(text).map(mlua::Value::String)
}

/// `mlua::Value::Table` on a clone of the handle: the table as a value.
#[verifier::external_body]
pub(crate) fn table_value(table: &mlua::Table) -> (value: mlua::Value)
    ensures
        table_in(value) == Some(*table),
{
    mlua::Value::Table(table.clone())
}

/// Tells `mlua::Value::Table` from the other variants.
#[verifier::external_body]
pub(crate) fn value_into_table(value: mlua::Value) -> (table: Option<mlua::Table>)
    ensures
        table == table_in(value),
{
    match value {
        mlua::Value::Table(table) => Some(table),
        _ => None,
    }
}

/// `mlua::Value::clone`: one more handle to the same value. A handle
/// stands for what it refers to, so the two are equal.
#[verifier::external_body]
pub(crate) fn another_value(value: &mlua::Value) -> (other: mlua::Value)
    ensures
        other == *value,
{
    value.clone()
}

/// `mlua::Value::is_nil`.
#[verifier::external_body]
pub(crate) fn value_is_nil(value: &mlua::Value) -> (nil: bool)
    ensures
        nil == nil_in(*value),
{
    value.is_nil()
}

/// Tells `mlua::Value::Function` from the other variants.
#[verifier::external_body]
pub(crate) fn value_into_function(value: mlua::Value) -> (function: Option<mlua::Function>)
    ensures
        function == function_in(value),
{
    match value {
        mlua::Value::Function(function) => Some(function),
        _ => None,
    }
}

/// `mlua::Lua::globals`: the table of the global variables.
#[verifier::external_body]
pub(crate) fn globals(lua: &mlua::Lua) -> (table: mlua::Table) {
    lua.globals()
}

/// `mlua::Table::get`: the value that a table keeps under `name`, nil where
/// it keeps none.
#[verifier::external_body]
pub(crate) fn table_get(table: &mlua::Table, name: &str) -> (value: Result<
    mlua::Value,
    mlua::Error,
>) {
    table.get::<mlua::Value>(name)
}

/// `mlua::Lua::create_table`: a new empty table.
#[verifier::external_body]
pub(crate) fn create_table(lua: &mlua::Lua) -> (table: Result<mlua::Table, mlua::Error>) {
    lua.create_table()
}

/// `mlua::Lua::create_sequence_from`: a table that holds the texts of
/// `items` at the indices from one on, as a value.
#[verifier::external_body]
pub(crate) fn strings_value(lua: &mlua::Lua, items: &Vec<String>) -> (value: Result<
    mlua::Value,
    mlua::Error,
>) {
    lua.create_sequence_from(items.iter().map(String::as_str)).map(mlua::Value::Table)
}

/// `mlua::Table::set`.
#[verifier::external_body]
pub(crate) fn table_set(table: &mlua::Table, name: &str, value: mlua::Value) -> (done: Result<
    (),
    mlua::Error,
>) {
    table.set(name, value)
}

/// `mlua::Function::call` on `mlua::MultiValue::from_vec`: runs the function
/// on `arguments`, in their order, and hands back its first result. It
/// returns when the script does, and fails where the script raised an error.
#[verifier::external_body]
pub(crate) fn call_function(function: &mlua::Function, arguments: Vec<mlua::Value>) -> (result:
    Result<mlua::Value, mlua::Error>) {
    function.call::<mlua::Value>(mlua::MultiValue::from_vec(arguments))
}

/// `mlua::Chunk::exec` on `mlua::Lua::load`: runs `source` as a chunk
/// called `name`.
#[verifier::external_body]
pub(crate) fn run_chunk(lua: &mlua::Lua, name: &str, source: &str) -> (done: Result<
    (),
    mlua::Error,
>) {
    lua.load(source).set_name(name).exec()
}

/// `mlua::Lua::set_memory_limit`: caps the interpreter's heap at `limit`
/// bytes and hands back the cap that was in force.
#[verifier::external_body]
pub(crate) fn set_memory_limit(lua: &mlua::Lua, limit: usize) -> (previous: Result<
    usize,
    mlua::Error,
>) {
    lua.set_memory_limit(limit)
}

/// `mlua::Lua::create_registry_value`: stores `value` in a registry slot of
/// its own, which keeps it alive, and hands back the key to the slot.
#[verifier::external_body]
pub(crate) fn create_registry_value(lua: &mlua::Lua, value: mlua::Value) -> (key: Result<
    mlua::RegistryKey,
    mlua::Error,
>) {
    lua.create_registry_value(value)
}

/// `mlua::Lua::registry_value`: the value in the slot of `key`. It fails
/// for a key of another interpreter.
#[verifier::external_body]
pub(crate) fn registry_value(lua: &mlua::Lua, key: &mlua::RegistryKey) -> (value: Result<
    mlua::Value,
    mlua::Error,
>) {
    lua.registry_value::<mlua::Value>(key)
}

/// `mlua::Lua::remove_registry_value`: frees the slot of `key`, which the
/// call uses up. It fails for a key of another interpreter.
#[verifier::external_body]
pub(crate) fn remove_registry_value(lua: &mlua::Lua, key: mlua::RegistryKey) -> (done: Result<
    (),
    mlua::Error,
>) {
    lua.remove_registry_value(key)
}

/// `mlua::Lua::set_named_registry_value`.
#[verifier::external_body]
pub(crate) fn set_named_registry_value(lua: &mlua::Lua, name: &str, value: mlua::Value) -> (done:
    Result<(), mlua::Error>) {
    lua.set_named_registry_value(name, value)
}

/// `mlua::Lua::named_registry_value`: the value stored under `name`, nil
/// where none is.
#[verifier::external_body]
pub(crate) fn named_registry_value(lua: &mlua::Lua, name: &str) -> (value: Result<
    mlua::Value,
    mlua::Error,
>) {
    lua.named_registry_value::<mlua::Value>(name)
}

/// `mlua::Error`'s `Display`: the text of an interpreter error.
#[verifier::external_body]
pub(crate) fn error_text(error: &mlua::Error) -> (text: String) {
    error.to_string()
}

/// `mlua::Error::RuntimeError`: the error that a capability raises inside
/// the script that called it, with `text` as its message.
#[verifier::external_body]
pub(crate) fn runtime_error(text: String) -> (error: mlua::Error)
    ensures
        error == lua_runtime_error(text@),
{
    mlua::Error::RuntimeError(text)
}

} // verus!
