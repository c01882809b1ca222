//! Settings: a default, and values that a channel or a server puts in its
//! place.

use dashmap::DashMap;
use vstd::prelude::*;
use vstd::string::*;
use vstd::utf8::encode_utf8;

use crate::cache::{cache_clear, cache_get, cache_insert, cache_new, cached, no_entries};
use crate::text::{decimal_string, decimal_text, decimal_u32, parse_u32, same_text, trim, trimmed};

verus! {

/// The flags of a setting, as a set of bits.
#[derive(Clone, Copy, Debug, PartialEq, Eq, Structural)]
pub struct SettingFlags {
    pub bits: u8,
}

impl SettingFlags {
    /// The bit of `server_override`.
    pub const SERVER_OVERRIDE_BIT: u8 = 1;

    /// True if every flag of `other` is set in `self`.
    pub open spec fn has(self, other: SettingFlags) -> bool {
        self.bits & other.bits == other.bits
    }

    /// No flag.
    pub fn empty() -> (flags: SettingFlags)
        ensures
            flags.bits == 0,
    {
        SettingFlags { bits: 0 }
    }

    /// The value of the server goes before that of the channel.
    pub fn server_override() -> (flags: SettingFlags)
        ensures
            flags.bits == Self::SERVER_OVERRIDE_BIT,
    {
        SettingFlags { bits: Self::SERVER_OVERRIDE_BIT }
    }

    pub fn bits(&self) -> (bits: u8)
        ensures
            bits == self.bits,
    {
        self.bits
    }

    pub fn contains(&self, other: SettingFlags) -> (all: bool)
        ensures
            all == self.has(other),
    {
        self.bits & other.bits == other.bits
    }
}

/// Where a value is put in place of the default.
#[derive(Clone, Copy, Debug, PartialEq, Eq, Structural)]
pub enum SettingContext {
    Channel(u64),
    Server(u64),
}

/// A kind of value, as an error names it.
#[derive(Debug, Copy, Clone, PartialEq, Eq, Structural)]
pub enum SettingType {
    Bool,
}

impl SettingType {
    pub open spec fn label(self) -> Seq<char> {
        match self {
            SettingType::Bool => "Bool"@,
        }
    }

    /// The name of the kind.
    pub fn name(&self) -> (name: &'static str)
        ensures
            name@ == self.label(),
    {
        match self {
            SettingType::Bool => "Bool",
        }
    }
}

/// Why a value was refused.
#[derive(Clone, Debug, PartialEq, Eq)]
pub enum SettingError {
    /// The input reads as no value of the expected kind.
    UnexpectedInput { expected: SettingType, input: String },
    /// The text is `length` bytes long, more than the `max` allowed.
    ExceededMaxLength { max: usize, length: usize },
}

/// A `SettingError` with its text as a character sequence.
pub enum SettingErrorView {
    UnexpectedInput { expected: SettingType, input: Seq<char> },
    ExceededMaxLength { max: usize, length: usize },
}

impl View for SettingError {
    type V = SettingErrorView;

    open spec fn view(&self) -> SettingErrorView {
        match self {
            SettingError::UnexpectedInput { expected, input } => SettingErrorView::UnexpectedInput {
                expected: *expected,
                input: input@,
            },
            SettingError::ExceededMaxLength { max, length } => SettingErrorView::ExceededMaxLength {
                max: *max,
                length: *length,
            },
        }
    }
}

impl SettingErrorView {
    /// The text of the error, for a human reader.
    pub open spec fn message(self) -> Seq<char> {
        match self {
            SettingErrorView::UnexpectedInput { expected, input } => "unable to parse \""@ + input
                + "\" as "@ + expected.label(),
            SettingErrorView::ExceededMaxLength { max, length } => "len "@ + decimal_text(
                length as nat,
            ) + " exceeded max length "@ + decimal_text(max as nat),
        }
    }
}

impl SettingError {
    /// The text of the error, for a human reader.
    pub fn message(&self) -> (text: String)
        ensures
            text@ == self@.message(),
    {
        match self {
            SettingError::UnexpectedInput { expected, input } => {
                let mut text = String::from_str("unable to parse \"");
                text.append(input.as_str());
                text.append("\" as ");
                text.append(expected.name());
                text
            },
            SettingError::ExceededMaxLength { max, length } => {
                let mut text = String::from_str("len ");
                text.append(decimal_string(*length).as_str());
                text.append(" exceeded max length ");
                text.append(decimal_string(*max).as_str());
                text
            },
        }
    }
}

/// A kind of value that a setting can hold.
///
/// A value is known by its stored text: the text under which a cache keeps
/// it, and from which `restore` makes the value again.
pub trait SettingValue: Sized {
    /// What bounds the values of this kind.
    type Parameters;

    /// The error that refuses `value` under `parameters`, if one does.
    spec fn refusal(value: &Self, parameters: &Self::Parameters) -> Option<SettingErrorView>;

    /// The stored text of `value`.
    spec fn stored_text(value: &Self) -> Seq<char>;

    /// True if `text` is the stored text of a value.
    spec fn is_stored_text(text: Seq<char>) -> bool;

    /// What `input` reads as under `parameters`: the stored text of the
    /// value, or the error that refuses the input.
    spec fn reading(input: Seq<char>, parameters: &Self::Parameters) -> Result<
        Seq<char>,
        SettingErrorView,
    >;

    /// Checks `value` against `parameters`.
    fn is_valid(value: &Self, parameters: &Self::Parameters) -> (checked: Result<(), SettingError>)
        ensures
            match checked {
                Ok(()) => Self::refusal(value, parameters) is None,
                Err(error) => Self::refusal(value, parameters) == Some(error@),
            },
    ;

    /// Reads a value from `input`, as a user wrote it.
    fn set_value(input: &str, parameters: &Self::Parameters) -> (read: Result<Self, SettingError>)
        ensures
            match read {
                Ok(value) => Self::reading(input@, parameters) == Ok::<
                    Seq<char>,
                    SettingErrorView,
                >(Self::stored_text(&value)),
                Err(error) => Self::reading(input@, parameters) == Err::<
                    Seq<char>,
                    SettingErrorView,
                >(error@),
            },
    ;

    /// The text under which a cache keeps `value`.
    fn store(value: &Self) -> (text: String)
        ensures
            text@ == Self::stored_text(value),
            Self::is_stored_text(text@),
    ;

    /// The value that a cache keeps under `text`.
    fn restore(text: &str) -> (value: Option<Self>)
        ensures
            value is Some <==> Self::is_stored_text(text@),
            value matches Some(restored) ==> Self::stored_text(&restored) == text@,
    ;
}

/// What bounds a `bool`: nothing.
#[derive(Clone, Copy, Debug, PartialEq, Eq)]
pub struct SettingBoolParameters {}

impl Default for SettingBoolParameters {
    fn default() -> (parameters: SettingBoolParameters) {
        SettingBoolParameters {  }
    }
}

/// The stored text of a `bool`.
pub open spec fn bool_text(value: bool) -> Seq<char> {
    if value {
        "true"@
    } else {
        "false"@
    }
}

/// The `bool` that `input` reads as: `true` and `false` by their names, and
/// a decimal number as whether it is above zero, each with white space
/// around it or without.
pub open spec fn bool_reading(input: Seq<char>) -> Option<bool> {
    let text = trimmed(input);
    if text == "true"@ {
        Some(true)
    } else if text == "false"@ {
        Some(false)
    } else {
        match decimal_u32(text) {
            Some(number) => Some(number > 0),
            None => None,
        }
    }
}

impl SettingValue for bool {
    type Parameters = SettingBoolParameters;

    open spec fn refusal(value: &bool, parameters: &SettingBoolParameters) -> Option<
        SettingErrorView,
    > {
        None
    }

    open spec fn stored_text(value: &bool) -> Seq<char> {
        bool_text(*value)
    }

    open spec fn is_stored_text(text: Seq<char>) -> bool {
        text == "true"@ || text == "false"@
    }

    open spec fn reading(input: Seq<char>, parameters: &SettingBoolParameters) -> Result<
        Seq<char>,
        SettingErrorView,
    > {
        match bool_reading(input) {
            Some(value) => Ok(bool_text(value)),
            None => Err(
                SettingErrorView::UnexpectedInput { expected: SettingType::Bool, input },
            ),
        }
    }

    fn is_valid(_value: &bool, _parameters: &SettingBoolParameters) -> (checked: Result<
        (),
        SettingError,
    >) {
        Ok(())
    }

    fn set_value(input: &str, _parameters: &SettingBoolParameters) -> (read: Result<
        bool,
        SettingError,
    >) {
        let text = trim(input);
        if same_text(text, "true") {
            return Ok(true);
        } else if same_text(text, "false") {
            return Ok(false);
        }
        match parse_u32(text) {
            Some(number) => Ok(number > 0),
            None => Err(
                SettingError::UnexpectedInput {
                    expected: SettingType::Bool,
                    input: String::from_str(input),
                },
            ),
        }
    }

    fn store(value: &bool) -> (text: String) {
        if *value {
            String::from_str("true")
        } else {
            String::from_str("false")
        }
    }

    fn restore(text: &str) -> (value: Option<bool>) {
        proof {
            reveal_strlit("true");
            reveal_strlit("false");
        }
        if same_text(text, "true") {
            Some(true)
        } else if same_text(text, "false") {
            Some(false)
        } else {
            None
        }
    }
}

/// What bounds a text: its length in bytes, where `max_len` is set.
#[derive(Clone, Copy, Debug, PartialEq, Eq)]
pub struct SettingStringParameters {
    pub max_len: Option<usize>,
}

impl Default for SettingStringParameters {
    fn default() -> (parameters: SettingStringParameters)
        ensures
            parameters.max_len is None,
    {
        SettingStringParameters { max_len: None }
    }
}

/// The length of `text` in the bytes of its UTF-8 form, as `str::len` gives
/// it.
pub open spec fn byte_length(text: Seq<char>) -> usize {
    encode_utf8(text).len() as usize
}

/// The error that refuses `text` under `parameters`, if one does: the text
/// is longer, in the bytes of its UTF-8 form, than the maximum.
pub open spec fn length_refusal(text: Seq<char>, parameters: &SettingStringParameters) -> Option<
    SettingErrorView,
> {
    match parameters.max_len {
        Some(max) => if byte_length(text) > max {
            Some(SettingErrorView::ExceededMaxLength { max, length: byte_length(text) })
        } else {
            None
        },
        None => None,
    }
}

/// Checks the length of `text` against `parameters`.
fn check_length(text: &str, parameters: &SettingStringParameters) -> (checked: Result<
    (),
    SettingError,
>)
    ensures
        match checked {
            Ok(()) => length_refusal(text@, parameters) is None,
            Err(error) => length_refusal(text@, parameters) == Some(error@),
        },
{
    match parameters.max_len {
        Some(max) => {
            let length: usize = text.len();
            if length > max {
                Err(SettingError::ExceededMaxLength { max, length })
            } else {
                Ok(())
            }
        },
        None => Ok(()),
    }
}

impl SettingValue for String {
    type Parameters = SettingStringParameters;

    open spec fn refusal(value: &String, parameters: &SettingStringParameters) -> Option<
        SettingErrorView,
    > {
        length_refusal(value@, parameters)
    }

    open spec fn stored_text(value: &String) -> Seq<char> {
        value@
    }

    open spec fn is_stored_text(text: Seq<char>) -> bool {
        true
    }

    open spec fn reading(input: Seq<char>, parameters: &SettingStringParameters) -> Result<
        Seq<char>,
        SettingErrorView,
    > {
        match length_refusal(input, parameters) {
            Some(error) => Err(error),
            None => Ok(input),
        }
    }

    fn is_valid(value: &String, parameters: &SettingStringParameters) -> (checked: Result<
        (),
        SettingError,
    >) {
        check_length(value.as_str(), parameters)
    }

    fn set_value(input: &str, parameters: &SettingStringParameters) -> (read: Result<
        String,
        SettingError,
    >) {
        match check_length(input, parameters) {
            Ok(()) => Ok(String::from_str(input)),
            Err(error) => Err(error),
        }
    }

    fn store(value: &String) -> (text: String) {
        value.clone()
    }

    fn restore(text: &str) -> (value: Option<String>) {
        Some(String::from_str(text))
    }
}

/// One setting: its default, and the values that channels and servers have
/// put in its place.
pub struct Setting<T: SettingValue> {
    name: String,
    flags: SettingFlags,
    help: String,
    parameters: T::Parameters,
    default: T,
    cached_channel_values: DashMap<u64, String>,
    cached_server_values: DashMap<u64, String>,
}

impl<T: SettingValue> Setting<T> {
    #[verifier::type_invariant]
    spec fn well_formed(self) -> bool {
        &&& forall|id: u64| #[trigger]
            cached(self.cached_channel_values).contains_key(id) ==> T::is_stored_text(
                cached(self.cached_channel_values)[id],
            )
        &&& forall|id: u64| #[trigger]
            cached(self.cached_server_values).contains_key(id) ==> T::is_stored_text(
                cached(self.cached_server_values)[id],
            )
    }

    pub closed spec fn name(&self) -> Seq<char> {
        self.name@
    }

    pub closed spec fn help(&self) -> Seq<char> {
        self.help@
    }

    pub closed spec fn flags(&self) -> SettingFlags {
        self.flags
    }

    pub closed spec fn parameters(&self) -> &T::Parameters {
        &self.parameters
    }

    /// The stored text of the default.
    pub closed spec fn default_text(&self) -> Seq<char> {
        T::stored_text(&self.default)
    }

    /// The stored texts of the values that channels have set, by channel.
    pub closed spec fn channel_values(&self) -> Map<u64, Seq<char>> {
        cached(self.cached_channel_values)
    }

    /// The stored texts of the values that servers have set, by server.
    pub closed spec fn server_values(&self) -> Map<u64, Seq<char>> {
        cached(self.cached_server_values)
    }

    /// The stored text of the value that holds in a channel of a server. A
    /// value that was set goes before the default. Of a value of the
    /// channel and one of the server, the channel's goes first, unless the
    /// setting has the flag `server_override`.
    pub open spec fn effective_text(&self, server_id: u64, channel_id: u64) -> Seq<char> {
        let of_server = self.server_values();
        let of_channel = self.channel_values();
        if self.flags().has(SettingFlags { bits: SettingFlags::SERVER_OVERRIDE_BIT }) {
            if of_server.contains_key(server_id) {
                of_server[server_id]
            } else if of_channel.contains_key(channel_id) {
                of_channel[channel_id]
            } else {
                self.default_text()
            }
        } else {
            if of_channel.contains_key(channel_id) {
                of_channel[channel_id]
            } else if of_server.contains_key(server_id) {
                of_server[server_id]
            } else {
                self.default_text()
            }
        }
    }

    /// Makes a setting, with no value set. A default that its parameters
    /// refuse makes none.
    pub fn create(
        name: &str,
        default: T,
        parameters: T::Parameters,
        flags: SettingFlags,
        help: String,
    ) -> (created: Result<Setting<T>, SettingError>)
        ensures
            match created {
                Ok(setting) => {
                    &&& T::refusal(&default, &parameters) is None
                    &&& setting.name() == name@
                    &&& setting.help() == help@
                    &&& setting.flags() == flags
                    &&& *setting.parameters() == parameters
                    &&& setting.default_text() == T::stored_text(&default)
                    &&& setting.channel_values() == no_entries()
                    &&& setting.server_values() == no_entries()
                },
                Err(error) => T::refusal(&default, &parameters) == Some(error@),
            },
    {
        match T::is_valid(&default, &parameters) {
            Ok(()) => {},
            Err(error) => return Err(error),
        }
        Ok(
            Setting {
                name: String::from_str(name),
                flags,
                help,
                parameters,
                default,
                cached_channel_values: cache_new(),
                cached_server_values: cache_new(),
            },
        )
    }

    /// The value that a channel has set, if it has set one.
    fn get_channel_value(&self, channel_id: u64) -> (value: Option<T>)
        ensures
            match value {
                Some(found) => self.channel_values().contains_key(channel_id)
                    && T::stored_text(&found) == self.channel_values()[channel_id],
                None => !self.channel_values().contains_key(channel_id),
            },
    {
        proof {
            use_type_invariant(self);
        }
        match cache_get(&self.cached_channel_values, channel_id) {
            Some(text) => T::restore(text.as_str()),
            None => None,
        }
    }

    /// The value that a server has set, if it has set one.
    fn get_server_value(&self, server_id: u64) -> (value: Option<T>)
        ensures
            match value {
                Some(found) => self.server_values().contains_key(server_id) && T::stored_text(
                    &found,
                ) == self.server_values()[server_id],
                None => !self.server_values().contains_key(server_id),
            },
    {
        proof {
            use_type_invariant(self);
        }
        match cache_get(&self.cached_server_values, server_id) {
            Some(text) => T::restore(text.as_str()),
            None => None,
        }
    }

    /// The default, made again from its stored text.
    fn default_value(&self) -> (value: T)
        ensures
            T::stored_text(&value) == self.default_text(),
    {
        let text = T::store(&self.default);
        match T::restore(text.as_str()) {
            Some(value) => value,
            None => unreached(),
        }
    }

    /// The value that holds in a channel of a server. Reading the caches
    /// cannot fail, so the answer is always `Ok`.
    pub fn value(&self, server_id: u64, channel_id: u64) -> (value: Result<T, SettingError>)
        ensures
            value matches Ok(held) && T::stored_text(&held) == self.effective_text(
                server_id,
                channel_id,
            ),
    {
        if self.flags.contains(SettingFlags::server_override()) {
            if let Some(value) = self.get_server_value(server_id) {
                return Ok(value);
            }
            if let Some(value) = self.get_channel_value(channel_id) {
                return Ok(value);
            }
            Ok(self.default_value())
        } else {
            if let Some(value) = self.get_channel_value(channel_id) {
                return Ok(value);
            }
            if let Some(value) = self.get_server_value(server_id) {
                return Ok(value);
            }
            Ok(self.default_value())
        }
    }

    /// Forgets every value that was set: the default holds everywhere again.
    pub fn flush_cache(&mut self)
        ensures
            final(self).channel_values() == no_entries(),
            final(self).server_values() == no_entries(),
            final(self).name() == old(self).name(),
            final(self).help() == old(self).help(),
            final(self).flags() == old(self).flags(),
            final(self).parameters() == old(self).parameters(),
            final(self).default_text() == old(self).default_text(),
    {
        proof {
            use_type_invariant(&*self);
        }
        cache_clear(&mut self.cached_channel_values);
        cache_clear(&mut self.cached_server_values);
    }

    /// Reads a value from `input` and sets it for the channel or the server
    /// that `ctx` names. An input that reads as no value, or as one that the
    /// parameters refuse, changes nothing.
    pub fn set_value(&mut self, ctx: SettingContext, input: &str) -> (done: Result<
        (),
        SettingError,
    >)
        ensures
            final(self).name() == old(self).name(),
            final(self).help() == old(self).help(),
            final(self).flags() == old(self).flags(),
            final(self).parameters() == old(self).parameters(),
            final(self).default_text() == old(self).default_text(),
            match T::reading(input@, old(self).parameters()) {
                Ok(text) => done is Ok && match ctx {
                    SettingContext::Channel(id) => {
                        &&& final(self).channel_values() == old(self).channel_values().insert(
                            id,
                            text,
                        )
                        &&& final(self).server_values() == old(self).server_values()
                    },
                    SettingContext::Server(id) => {
                        &&& final(self).server_values() == old(self).server_values().insert(
                            id,
                            text,
                        )
                        &&& final(self).channel_values() == old(self).channel_values()
                    },
                },
                Err(refusal) => {
                    &&& done matches Err(error) && error@ == refusal
                    &&& final(self).channel_values() == old(self).channel_values()
                    &&& final(self).server_values() == old(self).server_values()
                },
            },
    {
        proof {
            use_type_invariant(&*self);
        }
        let value = match T::set_value(input, &self.parameters) {
            Ok(value) => value,
            Err(error) => return Err(error),
        };
        let text = T::store(&value);
        match ctx {
            SettingContext::Channel(id) => cache_insert(&mut self.cached_channel_values, id, text),
            SettingContext::Server(id) => cache_insert(&mut self.cached_server_values, id, text),
        }
        Ok(())
    }
}

} // verus!
