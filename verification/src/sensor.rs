//! Sensor identities and records.
//!
//! A `SensorId` names one logical channel. The seven built-in channels map to
//! the compact indices `0..=6`; every dynamically created channel is
//! `Virtual(n)` with `n >= 7`. The compact index, written big-endian, is the
//! key under which a sensor's configuration is persisted.
use vstd::prelude::*;
use vstd::string::*;

use std::collections::VecDeque;

verus! {

#[derive(Debug, Eq, PartialEq, Ord, PartialOrd, Hash, Clone, Copy, Structural)]
pub enum SensorId {
    Tmp0,
    Tmp1,
    Tmp2,
    Tmp3,
    RPi,
    RPM0,
    RPM1,
    Virtual(usize),
}

/// The compact index of an identity: built-ins take `0..=6`, `Virtual(n)`
/// takes `n`.
pub open spec fn id_index(id: SensorId) -> usize {
    match id {
        SensorId::Tmp0 => 0,
        SensorId::Tmp1 => 1,
        SensorId::Tmp2 => 2,
        SensorId::Tmp3 => 3,
        SensorId::RPi => 4,
        SensorId::RPM0 => 5,
        SensorId::RPM1 => 6,
        SensorId::Virtual(nr) => nr,
    }
}

/// The identity a compact index decodes to: `0..=6` are the built-ins,
/// everything above is virtual.
pub open spec fn id_from_index(nr: usize) -> SensorId {
    if nr == 0 {
        SensorId::Tmp0
    } else if nr == 1 {
        SensorId::Tmp1
    } else if nr == 2 {
        SensorId::Tmp2
    } else if nr == 3 {
        SensorId::Tmp3
    } else if nr == 4 {
        SensorId::RPi
    } else if nr == 5 {
        SensorId::RPM0
    } else if nr == 6 {
        SensorId::RPM1
    } else {
        SensorId::Virtual(nr)
    }
}

impl SensorId {
    /// An identity is well formed when a virtual index does not collide with
    /// the range reserved for built-ins.
    pub open spec fn wf(self) -> bool {
        match self {
            SensorId::Virtual(nr) => nr >= 7,
            _ => true,
        }
    }

    pub fn from_usize(nr: usize) -> (r: SensorId)
        ensures
            r == id_from_index(nr),
    {
        match nr {
            0 => SensorId::Tmp0,
            1 => SensorId::Tmp1,
            2 => SensorId::Tmp2,
            3 => SensorId::Tmp3,
            4 => SensorId::RPi,
            5 => SensorId::RPM0,
            6 => SensorId::RPM1,
            nr => SensorId::Virtual(nr),
        }
    }

    pub fn to_usize(self) -> (r: usize)
        ensures
            r == id_index(self),
    {
        match self {
            SensorId::Tmp0 => 0,
            SensorId::Tmp1 => 1,
            SensorId::Tmp2 => 2,
            SensorId::Tmp3 => 3,
            SensorId::RPi => 4,
            SensorId::RPM0 => 5,
            SensorId::RPM1 => 6,
            SensorId::Virtual(nr) => nr,
        }
    }

    /// The persisted key of this identity: its compact index in big-endian
    /// byte order.
    pub fn to_be_bytes(self) -> (r: [u8; 8])
        ensures
            r@ == u64_be_bytes(id_index(self) as u64),
    {
        let x: u64 = self.to_usize() as u64;
        let r: [u8; 8] = [
            (x >> 56) as u8,
            (x >> 48) as u8,
            (x >> 40) as u8,
            (x >> 32) as u8,
            (x >> 24) as u8,
            (x >> 16) as u8,
            (x >> 8) as u8,
            x as u8,
        ];
        assert(r@ =~= u64_be_bytes(id_index(self) as u64));
        r
    }

    pub fn is_virtual(&self) -> (r: bool)
        ensures
            r == (self is Virtual),
    {
        match self {
            SensorId::Virtual(_) => true,
            _ => false,
        }
    }
}

/// Decoding a compact index and reading it back is the identity, for every
/// index.
pub proof fn lemma_id_index_round_trip(nr: usize)
    ensures
        id_index(id_from_index(nr)) == nr,
{
}

/// Reading an identity's compact index and decoding it is the identity, for
/// every well-formed identity; in particular for every built-in one.
pub proof fn lemma_id_round_trip(id: SensorId)
    requires
        id.wf(),
    ensures
        id_from_index(id_index(id)) == id,
{
}

/// The big-endian bytes of a 64-bit integer, most significant first.
pub open spec fn u64_be_bytes(x: u64) -> Seq<u8> {
    seq![
        (x >> 56) as u8,
        (x >> 48) as u8,
        (x >> 40) as u8,
        (x >> 32) as u8,
        (x >> 24) as u8,
        (x >> 16) as u8,
        (x >> 8) as u8,
        x as u8,
    ]
}

/// One logical channel: its display name, unit, target update period in
/// milliseconds, optional script source (meaningful only for virtual
/// sensors), the in-memory ring of recent samples (newest first, as IEEE-754
/// bit patterns), and the most recent error, if any.
pub struct Sensor {
    pub alias: String,
    pub values: VecDeque<u64>,
    pub unit: String,
    pub rate: usize,
    pub source: Option<String>,
    pub error: Option<String>,
}

/// The mathematical content of a `Sensor`.
#[verifier::ext_equal]
pub ghost struct SensorSpec {
    pub alias: Seq<char>,
    pub values: Seq<u64>,
    pub unit: Seq<char>,
    pub rate: usize,
    pub source: Option<Seq<char>>,
    pub error: Option<Seq<char>>,
}

impl View for Sensor {
    type V = SensorSpec;

    open spec fn view(&self) -> SensorSpec {
        SensorSpec {
            alias: self.alias@,
            values: self.values@,
            unit: self.unit@,
            rate: self.rate,
            source: match self.source {
                Some(s) => Some(s@),
                None => None,
            },
            error: match self.error {
                Some(s) => Some(s@),
                None => None,
            },
        }
    }
}

impl Clone for Sensor {
    fn clone(&self) -> (r: Self)
        ensures
            r@ == self@,
    {
        Sensor {
            alias: self.alias.clone(),
            values: self.values.clone(),
            unit: self.unit.clone(),
            rate: self.rate,
            source: clone_opt_string(&self.source),
            error: clone_opt_string(&self.error),
        }
    }
}

pub fn clone_opt_string(s: &Option<String>) -> (r: Option<String>)
    ensures
        match (s, &r) {
            (Some(a), Some(b)) => a@ == b@,
            (None, None) => true,
            _ => false,
        },
{
    match s {
        Some(v) => Some(v.clone()),
        None => None,
    }
}

/// The character a decimal digit prints as.
pub open spec fn digit_char(d: int) -> char {
    if d == 0 {
        '0'
    } else if d == 1 {
        '1'
    } else if d == 2 {
        '2'
    } else if d == 3 {
        '3'
    } else if d == 4 {
        '4'
    } else if d == 5 {
        '5'
    } else if d == 6 {
        '6'
    } else if d == 7 {
        '7'
    } else if d == 8 {
        '8'
    } else {
        '9'
    }
}

/// The decimal representation of a nonnegative integer, most significant
/// digit first.
pub open spec fn dec_rep(n: int) -> Seq<char>
    decreases n,
{
    if n < 10 {
        seq![digit_char(n)]
    } else {
        dec_rep(n / 10).push(digit_char(n % 10))
    }
}

fn push_digit(s: &mut String, d: u64)
    requires
        d < 10,
    ensures
        final(s)@ == old(s)@.push(digit_char(d as int)),
{
    let c: &str = match d {
        0 => "0",
        1 => "1",
        2 => "2",
        3 => "3",
        4 => "4",
        5 => "5",
        6 => "6",
        7 => "7",
        8 => "8",
        _ => "9",
    };
    proof {
        reveal_strlit("0");
        reveal_strlit("1");
        reveal_strlit("2");
        reveal_strlit("3");
        reveal_strlit("4");
        reveal_strlit("5");
        reveal_strlit("6");
        reveal_strlit("7");
        reveal_strlit("8");
        reveal_strlit("9");
    }
    s.append(c);
    assert(final(s)@ =~= old(s)@.push(digit_char(d as int)));
}

/// Prints a nonnegative integer in decimal.
pub fn u64_to_string(n: u64) -> (r: String)
    ensures
        r@ == dec_rep(n as int),
    decreases n,
{
    if n < 10 {
        let mut s = String::new();
        push_digit(&mut s, n);
        s
    } else {
        let mut s = u64_to_string(n / 10);
        push_digit(&mut s, n % 10);
        s
    }
}

/// The default display name of the virtual sensor with compact index `n`.
pub open spec fn virtual_alias_spec(n: int) -> Seq<char> {
    "Virtual("@ + dec_rep(n) + ")"@
}

/// Builds the default display name of a freshly allocated virtual sensor.
pub fn virtual_alias(n: usize) -> (r: String)
    ensures
        r@ == virtual_alias_spec(n as int),
{
    let mut s = String::from_str("Virtual(");
    let digits = u64_to_string(n as u64);
    s.append(digits.as_str());
    s.append(")");
    assert(s@ =~= virtual_alias_spec(n as int));
    s
}

/// The view of an optional string.
pub open spec fn opt_str_view(s: Option<String>) -> Option<Seq<char>> {
    match s {
        Some(x) => Some(x@),
        None => None,
    }
}

/// A change event on the bus. An `Update` carries the accepted sample as its
/// IEEE-754 bit pattern.
#[derive(Debug, Clone, Copy, PartialEq, Eq, Structural)]
pub enum SensorMessage {
    Remove(SensorId),
    Config(SensorId),
    Update(SensorId, u64),
    Error(SensorId),
    ClearError(SensorId),
}

} // verus!
