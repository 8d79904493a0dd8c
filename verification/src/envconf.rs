//! Overriding configuration values from environment variables.
//!
//! Every configuration item is looked up under a key built from its
//! path: a struct's field `name` under prefix `P` is read from
//! `P_NAME`, a data-carrying enum variant likewise, and an enum of plain
//! variants reads the variant's name from the key of the enum itself.

use vstd::prelude::*;
use crate::text::{str_eq, string_push, string_push_str};

verus! {

/// Upper case as std's `str::to_uppercase` computes it (Unicode rules).
pub uninterp spec fn unicode_uppercase(s: Seq<char>) -> Seq<char>;

/// ASCII upper case: `a`..=`z` mapped to `A`..=`Z`, all else kept.
pub open spec fn ascii_uppercase(s: Seq<char>) -> Seq<char> {
    Seq::new(
        s.len(),
        |i: int|
            if 97 <= s[i] as int <= 122 {
                (s[i] as int - 32) as char
            } else {
                s[i]
            },
    )
}

/// The upper case of `s`, by std's `str::to_uppercase`. Its Unicode rules
/// are named, not stated; on ASCII text it maps `a`..=`z` to `A`..=`Z`
/// and keeps everything else, as std documents for ASCII.
#[verifier::external_body]
fn to_uppercase(s: &str) -> (res: String)
    ensures
        res@ == unicode_uppercase(s@),
        crate::util::all_ascii(s@) ==> res@ == ascii_uppercase(s@),
{
    s.to_uppercase()
}

/// The key under which the item `name` of a section read under
/// `prefix` is looked up: `PREFIX_NAME`, or `NAME` at the top level.
pub open spec fn env_key_of(prefix: Option<Seq<char>>, name: Seq<char>) -> Seq<char> {
    match prefix {
        Some(p) => p + seq!['_'] + unicode_uppercase(name),
        None => unicode_uppercase(name),
    }
}

/// The key of an item whose name is ASCII: its name in ASCII upper case,
/// after the section's key and `_` when there is a section.
pub open spec fn ascii_key_of(prefix: Option<Seq<char>>, name: Seq<char>) -> Seq<char> {
    match prefix {
        Some(p) => p + seq!['_'] + ascii_uppercase(name),
        None => ascii_uppercase(name),
    }
}

/// The key of the item `name` of a section read under `prefix`.
pub fn env_key(prefix: Option<&str>, name: &str) -> (res: String)
    ensures
        res@ == env_key_of(crate::runtime::str_view(prefix), name@),
        crate::util::all_ascii(name@) ==> res@ == ascii_key_of(crate::runtime::str_view(prefix), name@),
{
    let upper = to_uppercase(name);
    match prefix {
        Some(p) => {
            let mut key = String::new();
            string_push_str(&mut key, p);
            string_push(&mut key, '_');
            string_push_str(&mut key, upper.as_str());
            assert(key@ =~= p@ + seq!['_'] + unicode_uppercase(name@));
            key
        },
        None => upper,
    }
}

/// The keys of the fields `names` of a struct read under `prefix`, in
/// the order of the fields.
pub fn field_keys(prefix: Option<&str>, names: &Vec<String>) -> (res: Vec<String>)
    ensures
        res@.len() == names@.len(),
        forall|i: int|
            0 <= i < names@.len() ==> #[trigger] res@[i]@ == env_key_of(
                crate::runtime::str_view(prefix),
                names@[i]@,
            ),
        forall|i: int|
            0 <= i < names@.len() && crate::util::all_ascii(#[trigger] names@[i]@) ==> res@[i]@
                == ascii_key_of(crate::runtime::str_view(prefix), names@[i]@),
{
    let mut keys: Vec<String> = Vec::new();
    let mut k: usize = 0;
    while k < names.len()
        invariant
            k <= names@.len(),
            keys@.len() == k,
            forall|i: int|
                0 <= i < k ==> #[trigger] keys@[i]@ == env_key_of(crate::runtime::str_view(prefix), names@[i]@),
            forall|i: int|
                0 <= i < k && crate::util::all_ascii(#[trigger] names@[i]@) ==> keys@[i]@ == ascii_key_of(
                    crate::runtime::str_view(prefix),
                    names@[i]@,
                ),
        decreases names@.len() - k,
    {
        let key = env_key(prefix, names[k].as_str());
        keys.push(key);
        k = k + 1;
    }
    keys
}

/// Which of the plain variants `names` an environment value selects:
/// the first whose name equals the value exactly; `None` leaves the
/// enum as it was.
pub fn select_variant(value: &str, names: &Vec<String>) -> (res: Option<usize>)
    ensures
        match res {
            Some(i) => i < names@.len() && names@[i as int]@ == value@ && forall|j: int|
                0 <= j < i ==> #[trigger] names@[j]@ != value@,
            None => forall|j: int| 0 <= j < names@.len() ==> #[trigger] names@[j]@ != value@,
        },
{
    let mut k: usize = 0;
    while k < names.len()
        invariant
            k <= names@.len(),
            forall|j: int| 0 <= j < k ==> #[trigger] names@[j]@ != value@,
        decreases names@.len() - k,
    {
        if str_eq(names[k].as_str(), value) {
            return Some(k);
        }
        k = k + 1;
    }
    None
}

/// The error `serde_json` reports for text that does not read as the
/// value asked for.
#[verifier::external_type_specification]
#[verifier::external_body]
pub struct ExJsonError(serde_json::Error);

/// The `u8` that `serde_json` reads from `text`, or `None` when it
/// reads none.
pub uninterp spec fn json_u8(text: Seq<char>) -> Option<u8>;

/// Reads a `u8` with `serde_json::from_str`. What it reads is named, not
/// stated.
#[verifier::external_body]
fn parse_json_u8(text: &str) -> (res: Result<u8, serde_json::Error>)
    ensures
        match res {
            Ok(v) => json_u8(text@) == Some(v),
            Err(_) => json_u8(text@) is None,
        },
{
    serde_json::from_str::<u8>(text)
}

/// Overrides a `u8` with the value of its environment variable, when
/// the variable is set (`env_value`): the value is read as JSON; a value
/// that does not read leaves the item as it was and is reported.
pub fn assign_u8(value: &mut u8, env_value: Option<&str>) -> (res: Result<(), serde_json::Error>)
    ensures
        match env_value {
            None => res is Ok && *final(value) == *old(value),
            Some(t) => match json_u8(t@) {
                Some(v) => res is Ok && *final(value) == v,
                None => res is Err && *final(value) == *old(value),
            },
        },
{
    match env_value {
        None => Ok(()),
        Some(t) => match parse_json_u8(t) {
            Ok(v) => {
                *value = v;
                Ok(())
            },
            Err(e) => Err(e),
        },
    }
}

/// The `u16` that `serde_json` reads from `text`, or `None` when it
/// reads none.
pub uninterp spec fn json_u16(text: Seq<char>) -> Option<u16>;

/// Reads a `u16` with `serde_json::from_str`. What it reads is named, not
/// stated.
#[verifier::external_body]
fn parse_json_u16(text: &str) -> (res: Result<u16, serde_json::Error>)
    ensures
        match res {
            Ok(v) => json_u16(text@) == Some(v),
            Err(_) => json_u16(text@) is None,
        },
{
    serde_json::from_str::<u16>(text)
}

/// Overrides a `u16` with the value of its environment variable, when
/// the variable is set (`env_value`): the value is read as JSON; a value
/// that does not read leaves the item as it was and is reported.
pub fn assign_u16(value: &mut u16, env_value: Option<&str>) -> (res: Result<(), serde_json::Error>)
    ensures
        match env_value {
            None => res is Ok && *final(value) == *old(value),
            Some(t) => match json_u16(t@) {
                Some(v) => res is Ok && *final(value) == v,
                None => res is Err && *final(value) == *old(value),
            },
        },
{
    match env_value {
        None => Ok(()),
        Some(t) => match parse_json_u16(t) {
            Ok(v) => {
                *value = v;
                Ok(())
            },
            Err(e) => Err(e),
        },
    }
}

/// The `u32` that `serde_json` reads from `text`, or `None` when it
/// reads none.
pub uninterp spec fn json_u32(text: Seq<char>) -> Option<u32>;

/// Reads a `u32` with `serde_json::from_str`. What it reads is named, not
/// stated.
#[verifier::external_body]
fn parse_json_u32(text: &str) -> (res: Result<u32, serde_json::Error>)
    ensures
        match res {
            Ok(v) => json_u32(text@) == Some(v),
            Err(_) => json_u32(text@) is None,
        },
{
    serde_json::from_str::<u32>(text)
}

/// Overrides a `u32` with the value of its environment variable, when
/// the variable is set (`env_value`): the value is read as JSON; a value
/// that does not read leaves the item as it was and is reported.
pub fn assign_u32(value: &mut u32, env_value: Option<&str>) -> (res: Result<(), serde_json::Error>)
    ensures
        match env_value {
            None => res is Ok && *final(value) == *old(value),
            Some(t) => match json_u32(t@) {
                Some(v) => res is Ok && *final(value) == v,
                None => res is Err && *final(value) == *old(value),
            },
        },
{
    match env_value {
        None => Ok(()),
        Some(t) => match parse_json_u32(t) {
            Ok(v) => {
                *value = v;
                Ok(())
            },
            Err(e) => Err(e),
        },
    }
}

/// The `u64` that `serde_json` reads from `text`, or `None` when it
/// reads none.
pub uninterp spec fn json_u64(text: Seq<char>) -> Option<u64>;

/// Reads a `u64` with `serde_json::from_str`. What it reads is named, not
/// stated.
#[verifier::external_body]
fn parse_json_u64(text: &str) -> (res: Result<u64, serde_json::Error>)
    ensures
        match res {
            Ok(v) => json_u64(text@) == Some(v),
            Err(_) => json_u64(text@) is None,
        },
{
    serde_json::from_str::<u64>(text)
}

/// Overrides a `u64` with the value of its environment variable, when
/// the variable is set (`env_value`): the value is read as JSON; a value
/// that does not read leaves the item as it was and is reported.
pub fn assign_u64(value: &mut u64, env_value: Option<&str>) -> (res: Result<(), serde_json::Error>)
    ensures
        match env_value {
            None => res is Ok && *final(value) == *old(value),
            Some(t) => match json_u64(t@) {
                Some(v) => res is Ok && *final(value) == v,
                None => res is Err && *final(value) == *old(value),
            },
        },
{
    match env_value {
        None => Ok(()),
        Some(t) => match parse_json_u64(t) {
            Ok(v) => {
                *value = v;
                Ok(())
            },
            Err(e) => Err(e),
        },
    }
}

/// The `i8` that `serde_json` reads from `text`, or `None` when it
/// reads none.
pub uninterp spec fn json_i8(text: Seq<char>) -> Option<i8>;

/// Reads a `i8` with `serde_json::from_str`. What it reads is named, not
/// stated.
#[verifier::external_body]
fn parse_json_i8(text: &str) -> (res: Result<i8, serde_json::Error>)
    ensures
        match res {
            Ok(v) => json_i8(text@) == Some(v),
            Err(_) => json_i8(text@) is None,
        },
{
    serde_json::from_str::<i8>(text)
}

/// Overrides a `i8` with the value of its environment variable, when
/// the variable is set (`env_value`): the value is read as JSON; a value
/// that does not read leaves the item as it was and is reported.
pub fn assign_i8(value: &mut i8, env_value: Option<&str>) -> (res: Result<(), serde_json::Error>)
    ensures
        match env_value {
            None => res is Ok && *final(value) == *old(value),
            Some(t) => match json_i8(t@) {
                Some(v) => res is Ok && *final(value) == v,
                None => res is Err && *final(value) == *old(value),
            },
        },
{
    match env_value {
        None => Ok(()),
        Some(t) => match parse_json_i8(t) {
            Ok(v) => {
                *value = v;
                Ok(())
            },
            Err(e) => Err(e),
        },
    }
}

/// The `i16` that `serde_json` reads from `text`, or `None` when it
/// reads none.
pub uninterp spec fn json_i16(text: Seq<char>) -> Option<i16>;

/// Reads a `i16` with `serde_json::from_str`. What it reads is named, not
/// stated.
#[verifier::external_body]
fn parse_json_i16(text: &str) -> (res: Result<i16, serde_json::Error>)
    ensures
        match res {
            Ok(v) => json_i16(text@) == Some(v),
            Err(_) => json_i16(text@) is None,
        },
{
    serde_json::from_str::<i16>(text)
}

/// Overrides a `i16` with the value of its environment variable, when
/// the variable is set (`env_value`): the value is read as JSON; a value
/// that does not read leaves the item as it was and is reported.
pub fn assign_i16(value: &mut i16, env_value: Option<&str>) -> (res: Result<(), serde_json::Error>)
    ensures
        match env_value {
            None => res is Ok && *final(value) == *old(value),
            Some(t) => match json_i16(t@) {
                Some(v) => res is Ok && *final(value) == v,
                None => res is Err && *final(value) == *old(value),
            },
        },
{
    match env_value {
        None => Ok(()),
        Some(t) => match parse_json_i16(t) {
            Ok(v) => {
                *value = v;
                Ok(())
            },
            Err(e) => Err(e),
        },
    }
}

/// The `i32` that `serde_json` reads from `text`, or `None` when it
/// reads none.
pub uninterp spec fn json_i32(text: Seq<char>) -> Option<i32>;

/// Reads a `i32` with `serde_json::from_str`. What it reads is named, not
/// stated.
#[verifier::external_body]
fn parse_json_i32(text: &str) -> (res: Result<i32, serde_json::Error>)
    ensures
        match res {
            Ok(v) => json_i32(text@) == Some(v),
            Err(_) => json_i32(text@) is None,
        },
{
    serde_json::from_str::<i32>(text)
}

/// Overrides a `i32` with the value of its environment variable, when
/// the variable is set (`env_value`): the value is read as JSON; a value
/// that does not read leaves the item as it was and is reported.
pub fn assign_i32(value: &mut i32, env_value: Option<&str>) -> (res: Result<(), serde_json::Error>)
    ensures
        match env_value {
            None => res is Ok && *final(value) == *old(value),
            Some(t) => match json_i32(t@) {
                Some(v) => res is Ok && *final(value) == v,
                None => res is Err && *final(value) == *old(value),
            },
        },
{
    match env_value {
        None => Ok(()),
        Some(t) => match parse_json_i32(t) {
            Ok(v) => {
                *value = v;
                Ok(())
            },
            Err(e) => Err(e),
        },
    }
}

/// The `i64` that `serde_json` reads from `text`, or `None` when it
/// reads none.
pub uninterp spec fn json_i64(text: Seq<char>) -> Option<i64>;

/// Reads a `i64` with `serde_json::from_str`. What it reads is named, not
/// stated.
#[verifier::external_body]
fn parse_json_i64(text: &str) -> (res: Result<i64, serde_json::Error>)
    ensures
        match res {
            Ok(v) => json_i64(text@) == Some(v),
            Err(_) => json_i64(text@) is None,
        },
{
    serde_json::from_str::<i64>(text)
}

/// Overrides a `i64` with the value of its environment variable, when
/// the variable is set (`env_value`): the value is read as JSON; a value
/// that does not read leaves the item as it was and is reported.
pub fn assign_i64(value: &mut i64, env_value: Option<&str>) -> (res: Result<(), serde_json::Error>)
    ensures
        match env_value {
            None => res is Ok && *final(value) == *old(value),
            Some(t) => match json_i64(t@) {
                Some(v) => res is Ok && *final(value) == v,
                None => res is Err && *final(value) == *old(value),
            },
        },
{
    match env_value {
        None => Ok(()),
        Some(t) => match parse_json_i64(t) {
            Ok(v) => {
                *value = v;
                Ok(())
            },
            Err(e) => Err(e),
        },
    }
}

/// The `usize` that `serde_json` reads from `text`, or `None` when it
/// reads none.
pub uninterp spec fn json_usize(text: Seq<char>) -> Option<usize>;

/// Reads a `usize` with `serde_json::from_str`. What it reads is named, not
/// stated.
#[verifier::external_body]
fn parse_json_usize(text: &str) -> (res: Result<usize, serde_json::Error>)
    ensures
        match res {
            Ok(v) => json_usize(text@) == Some(v),
            Err(_) => json_usize(text@) is None,
        },
{
    serde_json::from_str::<usize>(text)
}

/// Overrides a `usize` with the value of its environment variable, when
/// the variable is set (`env_value`): the value is read as JSON; a value
/// that does not read leaves the item as it was and is reported.
pub fn assign_usize(value: &mut usize, env_value: Option<&str>) -> (res: Result<(), serde_json::Error>)
    ensures
        match env_value {
            None => res is Ok && *final(value) == *old(value),
            Some(t) => match json_usize(t@) {
                Some(v) => res is Ok && *final(value) == v,
                None => res is Err && *final(value) == *old(value),
            },
        },
{
    match env_value {
        None => Ok(()),
        Some(t) => match parse_json_usize(t) {
            Ok(v) => {
                *value = v;
                Ok(())
            },
            Err(e) => Err(e),
        },
    }
}

/// The `bool` that `serde_json` reads from `text`, or `None` when it
/// reads none.
pub uninterp spec fn json_bool(text: Seq<char>) -> Option<bool>;

/// Reads a `bool` with `serde_json::from_str`. What it reads is named, not
/// stated.
#[verifier::external_body]
fn parse_json_bool(text: &str) -> (res: Result<bool, serde_json::Error>)
    ensures
        match res {
            Ok(v) => json_bool(text@) == Some(v),
            Err(_) => json_bool(text@) is None,
        },
{
    serde_json::from_str::<bool>(text)
}

/// Overrides a `bool` with the value of its environment variable, when
/// the variable is set (`env_value`): the value is read as JSON; a value
/// that does not read leaves the item as it was and is reported.
pub fn assign_bool(value: &mut bool, env_value: Option<&str>) -> (res: Result<(), serde_json::Error>)
    ensures
        match env_value {
            None => res is Ok && *final(value) == *old(value),
            Some(t) => match json_bool(t@) {
                Some(v) => res is Ok && *final(value) == v,
                None => res is Err && *final(value) == *old(value),
            },
        },
{
    match env_value {
        None => Ok(()),
        Some(t) => match parse_json_bool(t) {
            Ok(v) => {
                *value = v;
                Ok(())
            },
            Err(e) => Err(e),
        },
    }
}

/// Overrides a text item with the value of its environment variable,
/// taken as it is, when the variable is set.
pub fn assign_string(value: &mut String, env_value: Option<&str>)
    ensures
        final(value)@ == match env_value {
            Some(t) => t@,
            None => old(value)@,
        },
{
    if let Some(t) = env_value {
        *value = crate::text::owned(t);
    }
}

/// The list of texts that `serde_json` reads from `text`, or `None` when
/// it reads none.
pub uninterp spec fn json_strings(text: Seq<char>) -> Option<Seq<Seq<char>>>;

/// Reads a list of texts with `serde_json::from_str`. What it reads is
/// named, not stated.
#[verifier::external_body]
fn parse_json_strings(text: &str) -> (res: Result<Vec<String>, serde_json::Error>)
    ensures
        match res {
            Ok(v) => json_strings(text@) == Some(v@.map_values(|s: String| s@)),
            Err(_) => json_strings(text@) is None,
        },
{
    serde_json::from_str::<Vec<String>>(text)
}

/// Overrides a list of texts with the value of its environment variable,
/// when the variable is set: the value is read as a JSON list; a value
/// that does not read leaves the list as it was and is reported.
pub fn assign_strings(value: &mut Vec<String>, env_value: Option<&str>) -> (res: Result<(), serde_json::Error>)
    ensures
        match env_value {
            None => res is Ok && final(value)@ == old(value)@,
            Some(t) => match json_strings(t@) {
                Some(v) => res is Ok && final(value)@.map_values(|s: String| s@) == v,
                None => res is Err && final(value)@ == old(value)@,
            },
        },
{
    match env_value {
        None => Ok(()),
        Some(t) => match parse_json_strings(t) {
            Ok(v) => {
                *value = v;
                Ok(())
            },
            Err(e) => Err(e),
        },
    }
}

} // verus!
