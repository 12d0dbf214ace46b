//! Reading typed settings out of a snapshot of the process environment.

use vstd::prelude::*;
use vstd::pervasive::unreached;
use crate::text::{
    all_whitespace, lemma_trim_ignores_padding, trim, decimal_text, is_unicode_whitespace,
    lemma_unsigned_decimal_round_trip, lemma_no_outer_whitespace_trim, trim_whitespace, spec_parse_u16, spec_parse_u32, parse_u16, parse_u32, str_equal,
};

verus! {

/// A snapshot of the environment: `(name, value)` pairs in the order the
/// process reported them.
pub struct EnvVars {
    pub vars: Vec<(String, String)>,
}

/// The value of the first variable named `key`.
pub open spec fn env_lookup(vars: Seq<(String, String)>, key: Seq<char>) -> Option<Seq<char>>
    decreases vars.len(),
{
    if vars.len() == 0 {
        None
    } else if vars[0].0@ == key {
        Some(vars[0].1@)
    } else {
        env_lookup(vars.drop_first(), key)
    }
}

impl EnvVars {
    pub open spec fn lookup(&self, key: Seq<char>) -> Option<Seq<char>> {
        env_lookup(self.vars@, key)
    }

    /// The value of the variable named `key`, if the snapshot holds one.
    pub fn var(&self, key: &str) -> (r: Option<&str>)
        ensures
            match r {
                Some(v) => self.lookup(key@) == Some(v@),
                None => self.lookup(key@) is None,
            },
    {
        let n = self.vars.len();
        let mut i: usize = 0;
        assert(self.vars@.skip(0) =~= self.vars@);
        while i < n
            invariant
                n == self.vars@.len(),
                0 <= i <= n,
                env_lookup(self.vars@, key@) == env_lookup(self.vars@.skip(i as int), key@),
            decreases n - i,
        {
            assert(self.vars@.skip(i as int).drop_first() =~= self.vars@.skip(i + 1));
            if str_equal(self.vars[i].0.as_str(), key) {
                return Some(self.vars[i].1.as_str());
            }
            i = i + 1;
        }
        None
    }
}

/// Why a setting could not be read.
pub enum EnvError {
    /// The variable is not set and the setting has no default.
    Missing(String),
    /// The variable's value, trimmed, is not of the setting's type.
    Invalid(String),
    /// The log level variable names no level.
    InvalidLogLevel(String),
}

/// An [`EnvError`] with its text taken as characters.
pub enum EnvErrorView {
    Missing(Seq<char>),
    Invalid(Seq<char>),
    InvalidLogLevel(Seq<char>),
}

impl View for EnvError {
    type V = EnvErrorView;

    open spec fn view(&self) -> EnvErrorView {
        match self {
            EnvError::Missing(k) => EnvErrorView::Missing(k@),
            EnvError::Invalid(k) => EnvErrorView::Invalid(k@),
            EnvError::InvalidLogLevel(v) => EnvErrorView::InvalidLogLevel(v@),
        }
    }
}

/// A type that a setting can be parsed into from its (trimmed) text.
pub trait FromEnvStr: Sized + View {
    /// The value that `s` denotes, if any.
    spec fn spec_from_env_str(s: Seq<char>) -> Option<Self::V>;

    fn from_env_str(s: &str) -> (r: Option<Self>)
        ensures
            match r {
                Some(v) => Self::spec_from_env_str(s@) == Some(v@),
                None => Self::spec_from_env_str(s@) is None,
            },
    ;
}

impl FromEnvStr for u16 {
    open spec fn spec_from_env_str(s: Seq<char>) -> Option<u16> {
        spec_parse_u16(s)
    }

    fn from_env_str(s: &str) -> (r: Option<u16>) {
        parse_u16(s)
    }
}

impl FromEnvStr for u32 {
    open spec fn spec_from_env_str(s: Seq<char>) -> Option<u32> {
        spec_parse_u32(s)
    }

    fn from_env_str(s: &str) -> (r: Option<u32>) {
        parse_u32(s)
    }
}

impl FromEnvStr for String {
    /// Any text is a string.
    open spec fn spec_from_env_str(s: Seq<char>) -> Option<Seq<char>> {
        Some(s)
    }

    fn from_env_str(s: &str) -> (r: Option<String>) {
        Some(s.to_owned())
    }
}

/// The result of [`get_env`], over views.
pub open spec fn spec_get_env<T: FromEnvStr>(
    vars: Seq<(String, String)>,
    key: Seq<char>,
    default: Option<T::V>,
) -> Result<T::V, EnvErrorView> {
    match env_lookup(vars, key) {
        Some(raw) => match T::spec_from_env_str(trim(raw)) {
            Some(v) => Ok(v),
            None => Err(EnvErrorView::Invalid(key)),
        },
        None => match default {
            Some(d) => Ok(d),
            None => Err(EnvErrorView::Missing(key)),
        },
    }
}

pub open spec fn option_view<T: View>(o: Option<T>) -> Option<T::V> {
    match o {
        Some(v) => Some(v@),
        None => None,
    }
}

/// Whether the setting `key` can be read: `Ok` exactly when [`get_env`]
/// accepts these arguments, and otherwise the reason it does not: a value
/// that does not parse as `T`, or a variable that is not set when there is
/// no default.
pub fn check_env<T: FromEnvStr>(env: &EnvVars, key: &str, default: &Option<T>) -> (r: Result<
    (),
    EnvError,
>)
    ensures
        match spec_get_env::<T>(env.vars@, key@, option_view(*default)) {
            Ok(_) => r is Ok,
            Err(e) => r matches Err(x) && x@ == e,
        },
{
    match env.var(key) {
        Some(val) => {
            let trimmed = trim_whitespace(val);
            match T::from_env_str(trimmed) {
                Some(_) => Ok(()),
                None => Err(EnvError::Invalid(key.to_owned())),
            }
        },
        None => match default {
            Some(_) => Ok(()),
            None => Err(EnvError::Missing(key.to_owned())),
        },
    }
}

/// Reads the setting `key`: the variable's value with surrounding whitespace
/// removed and parsed as `T`, or `default` when the variable is not set.
/// A value that does not parse, or an unset variable without a default, is
/// refused ([`check_env`] says which).
pub fn get_env<T: FromEnvStr>(env: &EnvVars, key: &str, default: Option<T>) -> (r: T)
    requires
        spec_get_env::<T>(env.vars@, key@, option_view(default)) is Ok,
    ensures
        spec_get_env::<T>(env.vars@, key@, option_view(default)) == Ok::<T::V, EnvErrorView>(r@),
        env.lookup(key@) is None ==> Some(r) == default,
{
    match env.var(key) {
        Some(val) => {
            let trimmed = trim_whitespace(val);
            match T::from_env_str(trimmed) {
                Some(v) => v,
                None => unreached(),
            }
        },
        None => match default {
            Some(d) => d,
            None => unreached(),
        },
    }
}

/// A variable that is set decides the setting: the default only matters
/// when the variable is not set.
pub proof fn lemma_set_variable_ignores_default<T: FromEnvStr>(
    vars: Seq<(String, String)>,
    key: Seq<char>,
    default1: Option<T::V>,
    default2: Option<T::V>,
)
    requires
        env_lookup(vars, key) is Some,
    ensures
        spec_get_env::<T>(vars, key, default1) == spec_get_env::<T>(vars, key, default2),
{
}

/// Whitespace around a value does not change the setting that it gives.
pub proof fn lemma_padding_ignored<T: FromEnvStr>(
    padded: Seq<(String, String)>,
    bare: Seq<(String, String)>,
    key: Seq<char>,
    w1: Seq<char>,
    s: Seq<char>,
    w2: Seq<char>,
    default: Option<T::V>,
)
    requires
        env_lookup(padded, key) == Some(w1 + s + w2),
        env_lookup(bare, key) == Some(s),
        all_whitespace(w1),
        all_whitespace(w2),
    ensures
        spec_get_env::<T>(padded, key, default) == spec_get_env::<T>(bare, key, default),
{
    lemma_trim_ignores_padding(w1, s, w2);
}

/// A port number written in decimal and read back as a `u16` setting is
/// the same number, whatever the default.
pub proof fn lemma_u16_round_trip(
    vars: Seq<(String, String)>,
    key: Seq<char>,
    n: u16,
    default: Option<u16>,
)
    requires
        env_lookup(vars, key) == Some(decimal_text(n as nat)),
    ensures
        spec_get_env::<u16>(vars, key, default) == Ok::<u16, EnvErrorView>(n),
{
    lemma_unsigned_decimal_round_trip(n as nat);
}

/// A number written in decimal and read back as a `u32` setting is the same
/// number, whatever the default.
pub proof fn lemma_u32_round_trip(
    vars: Seq<(String, String)>,
    key: Seq<char>,
    n: u32,
    default: Option<u32>,
)
    requires
        env_lookup(vars, key) == Some(decimal_text(n as nat)),
    ensures
        spec_get_env::<u32>(vars, key, default) == Ok::<u32, EnvErrorView>(n),
{
    lemma_unsigned_decimal_round_trip(n as nat);
}

/// A text without whitespace at either end, read back as a `String`
/// setting, is the same text.
pub proof fn lemma_string_round_trip(
    vars: Seq<(String, String)>,
    key: Seq<char>,
    s: Seq<char>,
    default: Option<Seq<char>>,
)
    requires
        env_lookup(vars, key) == Some(s),
        s.len() > 0 ==> !is_unicode_whitespace(s[0]) && !is_unicode_whitespace(s.last()),
    ensures
        spec_get_env::<String>(vars, key, default) == Ok::<Seq<char>, EnvErrorView>(s),
{
    lemma_no_outer_whitespace_trim(s);
}

/// The first variable of the snapshot with the name `key` is the one found,
/// wherever it stands.
pub proof fn lemma_env_lookup_finds_first(vars: Seq<(String, String)>, key: Seq<char>, i: int)
    requires
        0 <= i < vars.len(),
        vars[i].0@ == key,
        forall|j: int| 0 <= j < i ==> (#[trigger] vars[j]).0@ != key,
    ensures
        env_lookup(vars, key) == Some(vars[i].1@),
    decreases i,
{
    if i > 0 {
        assert forall|j: int| 0 <= j < i - 1 implies (#[trigger] vars.drop_first()[j]).0@ != key by {
            assert(vars.drop_first()[j] == vars[j + 1]);
        }
        assert(vars[0].0@ != key);
        lemma_env_lookup_finds_first(vars.drop_first(), key, i - 1);
    }
}

/// A name that no variable of the snapshot has is not set.
pub proof fn lemma_env_lookup_absent(vars: Seq<(String, String)>, key: Seq<char>)
    requires
        forall|j: int| 0 <= j < vars.len() ==> (#[trigger] vars[j]).0@ != key,
    ensures
        env_lookup(vars, key) is None,
    decreases vars.len(),
{
    if vars.len() > 0 {
        assert(vars[0].0@ != key);
        assert forall|j: int| 0 <= j < vars.len() - 1 implies (#[trigger] vars.drop_first()[j]).0@
            != key by {
            assert(vars.drop_first()[j] == vars[j + 1]);
        }
        lemma_env_lookup_absent(vars.drop_first(), key);
    }
}

/// An unset variable gives the default when there is one, and is reported
/// missing, under its own name, when there is none.
pub proof fn lemma_unset_variable<T: FromEnvStr>(
    vars: Seq<(String, String)>,
    key: Seq<char>,
    default: Option<T::V>,
)
    requires
        env_lookup(vars, key) is None,
    ensures
        default matches Some(d) ==> spec_get_env::<T>(vars, key, default) == Ok::<T::V, EnvErrorView>(d),
        default is None ==> spec_get_env::<T>(vars, key, default) == Err::<T::V, EnvErrorView>(
            EnvErrorView::Missing(key),
        ),
{
}

/// A set `u16` setting is its trimmed value read as `u16::from_str` reads
/// it, and is reported invalid, under its own name, when that fails; the
/// default plays no part.
pub proof fn lemma_set_u16(
    vars: Seq<(String, String)>,
    key: Seq<char>,
    raw: Seq<char>,
    default: Option<u16>,
)
    requires
        env_lookup(vars, key) == Some(raw),
    ensures
        spec_get_env::<u16>(vars, key, default) == match spec_parse_u16(trim(raw)) {
            Some(v) => Ok::<u16, EnvErrorView>(v),
            None => Err(EnvErrorView::Invalid(key)),
        },
{
}

/// A set `u32` setting is its trimmed value read as `u32::from_str` reads
/// it, and is reported invalid, under its own name, when that fails; the
/// default plays no part.
pub proof fn lemma_set_u32(
    vars: Seq<(String, String)>,
    key: Seq<char>,
    raw: Seq<char>,
    default: Option<u32>,
)
    requires
        env_lookup(vars, key) == Some(raw),
    ensures
        spec_get_env::<u32>(vars, key, default) == match spec_parse_u32(trim(raw)) {
            Some(v) => Ok::<u32, EnvErrorView>(v),
            None => Err(EnvErrorView::Invalid(key)),
        },
{
}

/// A set `String` setting is its trimmed value; the default plays no part.
pub proof fn lemma_set_string(
    vars: Seq<(String, String)>,
    key: Seq<char>,
    raw: Seq<char>,
    default: Option<Seq<char>>,
)
    requires
        env_lookup(vars, key) == Some(raw),
    ensures
        spec_get_env::<String>(vars, key, default) == Ok::<Seq<char>, EnvErrorView>(trim(raw)),
{
}

} // verus!
