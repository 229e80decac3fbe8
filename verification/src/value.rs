//! The tagged value carried in metadata events, and the error type that
//! travels with it.

use vstd::prelude::*;
use vstd::std_specs::convert::FromSpecImpl;

use crate::text::{i64_to_string_pad2, spec_pad2_string};

verus! {

/// Error reported by the player: a failed load, a command on a missing song,
/// a broken channel.
#[derive(Debug)]
pub struct MusicError {
    pub msg: String,
}

impl Clone for MusicError {
    fn clone(&self) -> (r: Self)
        ensures
            r == *self,
    {
        MusicError { msg: self.msg.clone() }
    }
}

impl MusicError {
    pub fn new(msg: &str) -> (r: MusicError)
        ensures
            r.msg@ == msg@,
    {
        MusicError { msg: msg.to_owned() }
    }
}

/// The mathematical content of a `Value`.
pub ghost enum ValueView {
    Text(Seq<char>),
    Number(int),
    Data(Seq<u8>),
    Error(Seq<char>),
    Unknown,
}

impl ValueView {
    /// The text shown for a value: the text itself, a two-digit-padded
    /// numeral, the error message, or a fixed marker.
    pub open spec fn spec_display(self) -> Seq<char> {
        match self {
            ValueView::Text(s) => s,
            ValueView::Number(n) => spec_pad2_string(n),
            ValueView::Error(m) => m,
            ValueView::Data(_) => "Data"@,
            ValueView::Unknown => "???"@,
        }
    }
}

/// A metadata value: free text, an integer quantity (durations in seconds,
/// song indices and counts, sentinel markers), raw bytes (spectrum data),
/// an error, or nothing.
#[derive(Debug)]
pub enum Value {
    Text(String),
    Number(i64),
    Data(Vec<u8>),
    Error(MusicError),
    Unknown,
}

impl View for Value {
    type V = ValueView;

    open spec fn view(&self) -> ValueView {
        match self {
            Value::Text(s) => ValueView::Text(s@),
            Value::Number(n) => ValueView::Number(*n as int),
            Value::Data(d) => ValueView::Data(d@),
            Value::Error(e) => ValueView::Error(e.msg@),
            Value::Unknown => ValueView::Unknown,
        }
    }
}

impl Clone for Value {
    fn clone(&self) -> (r: Self)
        ensures
            r@ == self@,
    {
        match self {
            Value::Text(s) => Value::Text(s.clone()),
            Value::Number(n) => Value::Number(*n),
            Value::Data(d) => Value::Data(d.clone()),
            Value::Error(e) => Value::Error(e.clone()),
            Value::Unknown => Value::Unknown,
        }
    }
}

impl Value {
    /// Whether this value is the absent marker.
    pub fn is_unknown(&self) -> (r: bool)
        ensures
            r == (self@ is Unknown),
    {
        match self {
            Value::Unknown => true,
            _ => false,
        }
    }

    /// Render the value for display.
    pub fn display_string(&self) -> (r: String)
        ensures
            r@ == self@.spec_display(),
    {
        match self {
            Value::Text(s) => s.clone(),
            Value::Number(n) => i64_to_string_pad2(*n),
            Value::Error(e) => e.msg.clone(),
            Value::Data(_) => "Data".to_owned(),
            Value::Unknown => "???".to_owned(),
        }
    }
}

impl From<i64> for Value {
    fn from(item: i64) -> (r: Value) {
        Value::Number(item)
    }
}

impl FromSpecImpl<i64> for Value {
    open spec fn obeys_from_spec() -> bool {
        true
    }

    open spec fn from_spec(item: i64) -> Value {
        Value::Number(item)
    }
}

impl From<i32> for Value {
    fn from(item: i32) -> (r: Value) {
        Value::Number(item as i64)
    }
}

impl FromSpecImpl<i32> for Value {
    open spec fn obeys_from_spec() -> bool {
        true
    }

    open spec fn from_spec(item: i32) -> Value {
        Value::Number(item as i64)
    }
}

impl From<String> for Value {
    fn from(item: String) -> (r: Value) {
        Value::Text(item)
    }
}

impl FromSpecImpl<String> for Value {
    open spec fn obeys_from_spec() -> bool {
        true
    }

    open spec fn from_spec(item: String) -> Value {
        Value::Text(item)
    }
}

impl From<Vec<u8>> for Value {
    fn from(item: Vec<u8>) -> (r: Value) {
        Value::Data(item)
    }
}

impl FromSpecImpl<Vec<u8>> for Value {
    open spec fn obeys_from_spec() -> bool {
        true
    }

    open spec fn from_spec(item: Vec<u8>) -> Value {
        Value::Data(item)
    }
}

impl From<MusicError> for Value {
    fn from(item: MusicError) -> (r: Value) {
        Value::Error(item)
    }
}

impl FromSpecImpl<MusicError> for Value {
    open spec fn obeys_from_spec() -> bool {
        true
    }

    open spec fn from_spec(item: MusicError) -> Value {
        Value::Error(item)
    }
}

} // verus!
