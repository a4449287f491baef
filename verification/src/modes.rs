//! Registry of transport modes: a closed set of known modes with stable
//! numeric codes, plus an explicit fallback for codes the registry does not
//! name.

use vstd::prelude::*;
use crate::dec::dec_int_chars;
use crate::dec::dec_i64_chars;
use crate::errors::ParseError;
use crate::strutil::chars_to_string;
use crate::strutil::chars_eq;
use crate::strutil::lower_chars;
use crate::strutil::push_chars;
use crate::strutil::spec_lower;
use crate::strutil::str_chars;

verus! {

/// A transport mode, identified by a stable numeric code.
///
/// The five known modes have fixed codes; any other code is a valid but
/// unnamed mode, kept in the `Unknown` variant.
#[derive(Clone, Copy, Debug, PartialEq, Eq, PartialOrd, Ord, Hash, Structural)]
pub enum RouteType {
    /// Metropolitan train (code 0)
    Train,
    /// Tram (code 1)
    Tram,
    /// Bus (code 2)
    Bus,
    /// Regional coach / V/Line (code 3)
    Vline,
    /// Night bus (code 4)
    NightBus,
    /// Any other numeric code, carried through unchanged
    Unknown(i32),
}

/// The numeric code of a mode.
pub open spec fn spec_code(m: RouteType) -> i32 {
    match m {
        RouteType::Train => 0,
        RouteType::Tram => 1,
        RouteType::Bus => 2,
        RouteType::Vline => 3,
        RouteType::NightBus => 4,
        RouteType::Unknown(c) => c,
    }
}

/// The mode a numeric code denotes.
pub open spec fn spec_from_code(code: i32) -> RouteType {
    if code == 0 {
        RouteType::Train
    } else if code == 1 {
        RouteType::Tram
    } else if code == 2 {
        RouteType::Bus
    } else if code == 3 {
        RouteType::Vline
    } else if code == 4 {
        RouteType::NightBus
    } else {
        RouteType::Unknown(code)
    }
}

/// A mode is canonical when `Unknown` is used only for codes that no named
/// variant owns.
pub open spec fn is_canonical(m: RouteType) -> bool {
    match m {
        RouteType::Unknown(c) => !(0 <= c <= 4),
        _ => true,
    }
}

/// A mode is known when it is one of the five named variants.
pub open spec fn is_known(m: RouteType) -> bool {
    !(m is Unknown)
}

impl RouteType {
    /// Look a mode up by its numeric code. Never fails: an unassigned code
    /// yields the `Unknown` variant carrying that code.
    pub fn from_code(code: i32) -> (m: RouteType)
        ensures
            m == spec_from_code(code),
            is_canonical(m),
            spec_code(m) == code,
    {
        if code == 0 {
            RouteType::Train
        } else if code == 1 {
            RouteType::Tram
        } else if code == 2 {
            RouteType::Bus
        } else if code == 3 {
            RouteType::Vline
        } else if code == 4 {
            RouteType::NightBus
        } else {
            RouteType::Unknown(code)
        }
    }

    /// Create a mode from its raw numeric code.
    pub fn new(value: i32) -> (m: RouteType)
        ensures
            m == spec_from_code(value),
            is_canonical(m),
            spec_code(m) == value,
    {
        RouteType::from_code(value)
    }

    /// The raw numeric code of this mode.
    pub fn value(self) -> (c: i32)
        ensures
            c == spec_code(self),
    {
        match self {
            RouteType::Train => 0,
            RouteType::Tram => 1,
            RouteType::Bus => 2,
            RouteType::Vline => 3,
            RouteType::NightBus => 4,
            RouteType::Unknown(c) => c,
        }
    }
}

/// The canonical name of a mode: the fixed name of a known mode, or
/// `Unknown(<code>)` for an unnamed one.
pub open spec fn spec_name(m: RouteType) -> Seq<char> {
    match m {
        RouteType::Train => seq!['T', 'r', 'a', 'i', 'n'],
        RouteType::Tram => seq!['T', 'r', 'a', 'm'],
        RouteType::Bus => seq!['B', 'u', 's'],
        RouteType::Vline => seq!['V', 'l', 'i', 'n', 'e'],
        RouteType::NightBus => seq!['N', 'i', 'g', 'h', 't', 'B', 'u', 's'],
        RouteType::Unknown(c) => seq!['U', 'n', 'k', 'n', 'o', 'w', 'n', '(']
            + dec_int_chars(c as int) + seq![')'],
    }
}

/// The mode a name denotes, compared without regard to ASCII case. Only the
/// five known names are accepted; in particular the synthetic
/// `Unknown(<code>)` form is not.
pub open spec fn spec_from_name(s: Seq<char>) -> Option<RouteType> {
    let l = spec_lower(s);
    if l == seq!['t', 'r', 'a', 'i', 'n'] {
        Some(RouteType::Train)
    } else if l == seq!['t', 'r', 'a', 'm'] {
        Some(RouteType::Tram)
    } else if l == seq!['b', 'u', 's'] {
        Some(RouteType::Bus)
    } else if l == seq!['v', 'l', 'i', 'n', 'e'] {
        Some(RouteType::Vline)
    } else if l == seq!['n', 'i', 'g', 'h', 't', 'b', 'u', 's'] {
        Some(RouteType::NightBus)
    } else {
        None
    }
}

impl RouteType {
    /// The canonical name of this mode, or `Unknown(<code>)` when the
    /// registry does not name it.
    pub fn name(self) -> (s: String)
        ensures
            s@ == spec_name(self),
    {
        let mut v: Vec<char> = Vec::new();
        match self {
            RouteType::Train => {
                v.push('T');
                v.push('r');
                v.push('a');
                v.push('i');
                v.push('n');
            },
            RouteType::Tram => {
                v.push('T');
                v.push('r');
                v.push('a');
                v.push('m');
            },
            RouteType::Bus => {
                v.push('B');
                v.push('u');
                v.push('s');
            },
            RouteType::Vline => {
                v.push('V');
                v.push('l');
                v.push('i');
                v.push('n');
                v.push('e');
            },
            RouteType::NightBus => {
                v.push('N');
                v.push('i');
                v.push('g');
                v.push('h');
                v.push('t');
                v.push('B');
                v.push('u');
                v.push('s');
            },
            RouteType::Unknown(c) => {
                v.push('U');
                v.push('n');
                v.push('k');
                v.push('n');
                v.push('o');
                v.push('w');
                v.push('n');
                v.push('(');
                let digits = dec_i64_chars(c as i64);
                push_chars(&mut v, &digits);
                v.push(')');
            },
        }
        assert(v@ =~= spec_name(self));
        chars_to_string(&v)
    }

    /// Look a mode up by its canonical name, without regard to ASCII case.
    /// Only the five known names are accepted.
    pub fn from_name(s: &str) -> (r: Result<RouteType, ParseError>)
        ensures
            match r {
                Ok(m) => spec_from_name(s@) == Some(m),
                Err(e) => spec_from_name(s@) is None && e == ParseError::UnknownMode,
            },
    {
        let chars = str_chars(s);
        Self::from_name_chars(&chars)
    }

    /// Look a mode up by the characters of its canonical name.
    pub fn from_name_chars(chars: &Vec<char>) -> (r: Result<RouteType, ParseError>)
        ensures
            match r {
                Ok(m) => spec_from_name(chars@) == Some(m),
                Err(e) => spec_from_name(chars@) is None && e == ParseError::UnknownMode,
            },
    {
        let l = lower_chars(chars);
        let train: Vec<char> = vec!['t', 'r', 'a', 'i', 'n'];
        let tram: Vec<char> = vec!['t', 'r', 'a', 'm'];
        let bus: Vec<char> = vec!['b', 'u', 's'];
        let vline: Vec<char> = vec!['v', 'l', 'i', 'n', 'e'];
        let nightbus: Vec<char> = vec!['n', 'i', 'g', 'h', 't', 'b', 'u', 's'];
        if chars_eq(&l, &train) {
            Ok(RouteType::Train)
        } else if chars_eq(&l, &tram) {
            Ok(RouteType::Tram)
        } else if chars_eq(&l, &bus) {
            Ok(RouteType::Bus)
        } else if chars_eq(&l, &vline) {
            Ok(RouteType::Vline)
        } else if chars_eq(&l, &nightbus) {
            Ok(RouteType::NightBus)
        } else {
            Err(ParseError::UnknownMode)
        }
    }
}

/// The name of a known mode contains neither of the separators the composite
/// identifier form is split on.
pub proof fn lemma_known_name_no_separator(m: RouteType)
    requires
        is_known(m),
    ensures
        forall|i: int| 0 <= i < spec_name(m).len()
            ==> #[trigger] spec_name(m)[i] != ':' && spec_name(m)[i] != '/',
{
}

/// Looking a known mode's own name up yields that mode back.
pub proof fn lemma_from_name_of_name(m: RouteType)
    requires
        is_known(m),
    ensures
        spec_from_name(spec_name(m)) == Some(m),
{
    match m {
        RouteType::Train => {
            assert(spec_lower(spec_name(m)) =~= seq!['t', 'r', 'a', 'i', 'n']);
        },
        RouteType::Tram => {
            assert(spec_lower(spec_name(m)) =~= seq!['t', 'r', 'a', 'm']);
        },
        RouteType::Bus => {
            assert(spec_lower(spec_name(m)) =~= seq!['b', 'u', 's']);
        },
        RouteType::Vline => {
            assert(spec_lower(spec_name(m)) =~= seq!['v', 'l', 'i', 'n', 'e']);
        },
        RouteType::NightBus => {
            assert(spec_lower(spec_name(m)) =~= seq!['n', 'i', 'g', 'h', 't', 'b', 'u', 's']);
        },
        RouteType::Unknown(_) => {
        },
    }
}

/// Health of the remote API, as reported by its status record.
#[derive(Clone, Copy, Debug, PartialEq, Eq, Structural)]
pub enum HealthStatus {
    /// The API reports itself offline (code 0)
    Offline,
    /// The API reports itself healthy (code 1)
    Online,
    /// Any other health code, carried through unchanged
    Unknown(i32),
}

/// The numeric code of a health status.
pub open spec fn spec_health_code(h: HealthStatus) -> i32 {
    match h {
        HealthStatus::Offline => 0,
        HealthStatus::Online => 1,
        HealthStatus::Unknown(c) => c,
    }
}

/// The health status a numeric code denotes.
pub open spec fn spec_health_from_code(code: i32) -> HealthStatus {
    if code == 0 {
        HealthStatus::Offline
    } else if code == 1 {
        HealthStatus::Online
    } else {
        HealthStatus::Unknown(code)
    }
}

/// The display name of a health status.
pub open spec fn spec_health_name(h: HealthStatus) -> Seq<char> {
    match h {
        HealthStatus::Offline => seq!['O', 'f', 'f', 'l', 'i', 'n', 'e'],
        HealthStatus::Online => seq!['O', 'n', 'l', 'i', 'n', 'e'],
        HealthStatus::Unknown(c) => seq!['U', 'n', 'k', 'n', 'o', 'w', 'n', '(']
            + dec_int_chars(c as int) + seq![')'],
    }
}

impl HealthStatus {
    /// The display name of this health status, or `Unknown(<code>)` when the
    /// code is not a known one.
    pub fn name(self) -> (s: String)
        ensures
            s@ == spec_health_name(self),
    {
        let mut v: Vec<char> = Vec::new();
        match self {
            HealthStatus::Offline => {
                v.push('O');
                v.push('f');
                v.push('f');
                v.push('l');
                v.push('i');
                v.push('n');
                v.push('e');
            },
            HealthStatus::Online => {
                v.push('O');
                v.push('n');
                v.push('l');
                v.push('i');
                v.push('n');
                v.push('e');
            },
            HealthStatus::Unknown(c) => {
                v.push('U');
                v.push('n');
                v.push('k');
                v.push('n');
                v.push('o');
                v.push('w');
                v.push('n');
                v.push('(');
                let digits = dec_i64_chars(c as i64);
                push_chars(&mut v, &digits);
                v.push(')');
            },
        }
        assert(v@ =~= spec_health_name(self));
        chars_to_string(&v)
    }

    /// Look a health status up by its numeric code. Never fails.
    pub fn from_code(code: i32) -> (h: HealthStatus)
        ensures
            h == spec_health_from_code(code),
            spec_health_code(h) == code,
    {
        if code == 0 {
            HealthStatus::Offline
        } else if code == 1 {
            HealthStatus::Online
        } else {
            HealthStatus::Unknown(code)
        }
    }

    /// The raw numeric code of this health status.
    pub fn value(self) -> (c: i32)
        ensures
            c == spec_health_code(self),
    {
        match self {
            HealthStatus::Offline => 0,
            HealthStatus::Online => 1,
            HealthStatus::Unknown(c) => c,
        }
    }
}

} // verus!
