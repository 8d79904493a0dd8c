//! The log record model that is written to log files.

use vstd::prelude::*;
use std::collections::HashMap;
use crate::text::str_eq;

verus! {

/// Severity of a log record, numbered as in the record format.
#[derive(Clone, Copy, Debug, PartialEq, Eq, Structural)]
pub enum Level {
    Trace,
    Debug,
    Info,
    Warn,
    Error,
}

/// The name of a level in the record format.
pub open spec fn level_name(l: Level) -> Seq<char> {
    match l {
        Level::Trace => seq!['T', 'R', 'A', 'C', 'E'],
        Level::Debug => seq!['D', 'E', 'B', 'U', 'G'],
        Level::Info => seq!['I', 'N', 'F', 'O'],
        Level::Warn => seq!['W', 'A', 'R', 'N'],
        Level::Error => seq!['E', 'R', 'R', 'O', 'R'],
    }
}

/// The level whose name in the record format is `name`, if any.
pub open spec fn named_level(name: Seq<char>) -> Option<Level> {
    if name == "TRACE"@ {
        Some(Level::Trace)
    } else if name == "DEBUG"@ {
        Some(Level::Debug)
    } else if name == "INFO"@ {
        Some(Level::Info)
    } else if name == "WARN"@ {
        Some(Level::Warn)
    } else if name == "ERROR"@ {
        Some(Level::Error)
    } else {
        None
    }
}

impl Level {
    /// The name of this level in the record format.
    pub fn as_str_name(&self) -> (res: &'static str)
        ensures
            res@ == level_name(*self),
    {
        match self {
            Level::Trace => {
                proof { reveal_strlit("TRACE"); }
                "TRACE"
            },
            Level::Debug => {
                proof { reveal_strlit("DEBUG"); }
                "DEBUG"
            },
            Level::Info => {
                proof { reveal_strlit("INFO"); }
                "INFO"
            },
            Level::Warn => {
                proof { reveal_strlit("WARN"); }
                "WARN"
            },
            Level::Error => {
                proof { reveal_strlit("ERROR"); }
                "ERROR"
            },
        }
    }

    /// The level whose name is `value`, if any.
    pub fn from_str_name(value: &str) -> (res: Option<Level>)
        ensures
            res == named_level(value@),
    {
        proof {
            reveal_strlit("TRACE");
            reveal_strlit("DEBUG");
            reveal_strlit("INFO");
            reveal_strlit("WARN");
            reveal_strlit("ERROR");
        }
        if str_eq(value, "TRACE") {
            Some(Level::Trace)
        } else if str_eq(value, "DEBUG") {
            Some(Level::Debug)
        } else if str_eq(value, "INFO") {
            Some(Level::Info)
        } else if str_eq(value, "WARN") {
            Some(Level::Warn)
        } else if str_eq(value, "ERROR") {
            Some(Level::Error)
        } else {
            None
        }
    }
}

/// The number a level is stored as.
pub open spec fn level_number(l: Level) -> i32 {
    match l {
        Level::Trace => 0,
        Level::Debug => 1,
        Level::Info => 2,
        Level::Warn => 3,
        Level::Error => 4,
    }
}

/// The level stored as `n`, if any.
pub open spec fn numbered_level(n: i32) -> Option<Level> {
    if n == 0 {
        Some(Level::Trace)
    } else if n == 1 {
        Some(Level::Debug)
    } else if n == 2 {
        Some(Level::Info)
    } else if n == 3 {
        Some(Level::Warn)
    } else if n == 4 {
        Some(Level::Error)
    } else {
        None
    }
}

impl Level {
    /// The number this level is stored as.
    pub fn number(&self) -> (res: i32)
        ensures
            res == level_number(*self),
    {
        match self {
            Level::Trace => 0,
            Level::Debug => 1,
            Level::Info => 2,
            Level::Warn => 3,
            Level::Error => 4,
        }
    }

    /// The level stored as `n`, if any.
    pub fn from_number(n: i32) -> (res: Option<Level>)
        ensures
            res == numbered_level(n),
    {
        if n == 0 {
            Some(Level::Trace)
        } else if n == 1 {
            Some(Level::Debug)
        } else if n == 2 {
            Some(Level::Info)
        } else if n == 3 {
            Some(Level::Warn)
        } else if n == 4 {
            Some(Level::Error)
        } else {
            None
        }
    }
}

/// The kind of value a field holds.
#[derive(Clone, Copy, Debug, PartialEq, Eq, Structural)]
pub enum Type {
    I,
    F,
    S,
}

/// The name of a field kind in the record format.
pub open spec fn kind_name(t: Type) -> Seq<char> {
    match t {
        Type::I => seq!['I'],
        Type::F => seq!['F'],
        Type::S => seq!['S'],
    }
}

/// The number a field kind is stored as.
pub open spec fn kind_number(t: Type) -> i32 {
    match t {
        Type::I => 0,
        Type::F => 1,
        Type::S => 2,
    }
}

/// The kind whose name in the record format is `name`, if any.
pub open spec fn named_kind(name: Seq<char>) -> Option<Type> {
    if name == "I"@ {
        Some(Type::I)
    } else if name == "F"@ {
        Some(Type::F)
    } else if name == "S"@ {
        Some(Type::S)
    } else {
        None
    }
}

impl Type {
    /// The name of this kind in the record format.
    pub fn as_str_name(&self) -> (res: &'static str)
        ensures
            res@ == kind_name(*self),
    {
        match self {
            Type::I => {
                proof { reveal_strlit("I"); }
                "I"
            },
            Type::F => {
                proof { reveal_strlit("F"); }
                "F"
            },
            Type::S => {
                proof { reveal_strlit("S"); }
                "S"
            },
        }
    }

    /// The kind whose name is `value`, if any.
    pub fn from_str_name(value: &str) -> (res: Option<Type>)
        ensures
            res == named_kind(value@),
    {
        proof {
            reveal_strlit("I");
            reveal_strlit("F");
            reveal_strlit("S");
        }
        if str_eq(value, "I") {
            Some(Type::I)
        } else if str_eq(value, "F") {
            Some(Type::F)
        } else if str_eq(value, "S") {
            Some(Type::S)
        } else {
            None
        }
    }

    /// The number this kind is stored as.
    pub fn number(&self) -> (res: i32)
        ensures
            res == kind_number(*self),
    {
        match self {
            Type::I => 0,
            Type::F => 1,
            Type::S => 2,
        }
    }
}

/// Reading a level's name gives the level back, and a name that reads
/// as a level is that level's name.
pub proof fn lemma_level_name_roundtrip(l: Level, name: Seq<char>)
    ensures
        named_level(level_name(l)) == Some(l),
        named_level(name) == Some(l) ==> level_name(l) == name,
        numbered_level(level_number(l)) == Some(l),
{
    reveal_strlit("TRACE");
    reveal_strlit("DEBUG");
    reveal_strlit("INFO");
    reveal_strlit("WARN");
    reveal_strlit("ERROR");
    assert(level_name(Level::Trace) =~= "TRACE"@);
    assert(level_name(Level::Debug) =~= "DEBUG"@);
    assert(level_name(Level::Info) =~= "INFO"@);
    assert(level_name(Level::Warn) =~= "WARN"@);
    assert(level_name(Level::Error) =~= "ERROR"@);
}

/// Reading a kind's name gives the kind back, and a name that reads as a
/// kind is that kind's name.
pub proof fn lemma_kind_name_roundtrip(t: Type, name: Seq<char>)
    ensures
        named_kind(kind_name(t)) == Some(t),
        named_kind(name) == Some(t) ==> kind_name(t) == name,
{
    reveal_strlit("I");
    reveal_strlit("F");
    reveal_strlit("S");
    assert(kind_name(Type::I) =~= "I"@);
    assert(kind_name(Type::F) =~= "F"@);
    assert(kind_name(Type::S) =~= "S"@);
    assert("F"@ != "I"@) by {
        assert("F"@[0] != "I"@[0]);
    }
    assert("S"@ != "I"@) by {
        assert("S"@[0] != "I"@[0]);
    }
    assert("S"@ != "F"@) by {
        assert("S"@[0] != "F"@[0]);
    }
}

/// A typed field value.
pub struct FieldVal {
    /// The field's kind, stored as its number.
    pub kind: i32,
    pub val: String,
}

/// A span and the fields recorded on it.
pub struct Span {
    pub name: String,
    pub fields: HashMap<String, FieldVal>,
}

/// An event and its fields.
pub struct Event {
    pub name: String,
    pub fields: HashMap<String, FieldVal>,
}

/// One log record as it is stored.
pub struct Record {
    pub timestamp: String,
    /// The level, stored as its number.
    pub level: i32,
    pub thread_name: String,
    pub file: String,
    pub line: String,
    pub spans: Vec<Span>,
    pub span: Option<Span>,
    pub event: Option<Event>,
}

} // verus!
