//! Typed entity identifiers and the composite identifier codec.
//!
//! A composite identifier pairs a transport mode with an entity-scoped scalar
//! and round-trips through the canonical text form
//! `<Kind>:<ModeName>/<ScalarValue>`, e.g. `Stop:Train/1071`. Parsing rejects
//! malformed text with a distinct error per cause.

use vstd::prelude::*;
use crate::dec::dec_int_chars;
use crate::dec::dec_i64_chars;
use crate::dec::parse_i32_chars;
use crate::dec::spec_parse_i32;
use crate::dec::lemma_parse_dec_round_trip;
use crate::errors::ParseError;
use crate::modes::RouteType;
use crate::modes::is_known;
use crate::modes::lemma_from_name_of_name;
use crate::modes::lemma_known_name_no_separator;
use crate::modes::spec_from_code;
use crate::modes::spec_from_name;
use crate::modes::spec_name;
use crate::strutil::chars_eq;
use crate::strutil::chars_to_string;
use crate::strutil::find_char;
use crate::strutil::find_char_vec;
use crate::strutil::lemma_find_char;
use crate::strutil::lemma_find_char_at;
use crate::strutil::push_chars;
use crate::strutil::push_str_chars;
use crate::strutil::str_chars;
use crate::strutil::subvec;

verus! {

/// Stop identifier scalar.
#[derive(Clone, Copy, Debug, PartialEq, Eq, PartialOrd, Ord, Hash, Structural)]
pub struct StopId(pub i32);

/// Route identifier scalar.
#[derive(Clone, Copy, Debug, PartialEq, Eq, PartialOrd, Ord, Hash, Structural)]
pub struct RouteId(pub i32);

/// Numeric trip/service run identifier.
#[derive(Clone, Copy, Debug, PartialEq, Eq, PartialOrd, Ord, Hash, Structural)]
pub struct RunId(pub i32);

/// Alphanumeric trip/service run reference.
#[derive(Clone, Debug, PartialEq, Eq, PartialOrd, Ord, Hash)]
pub struct RunRef(pub String);

/// Direction-of-travel identifier scalar.
#[derive(Clone, Copy, Debug, PartialEq, Eq, PartialOrd, Ord, Hash, Structural)]
pub struct DirectionId(pub i32);

/// Disruption identifier scalar.
#[derive(Clone, Copy, Debug, PartialEq, Eq, PartialOrd, Ord, Hash, Structural)]
pub struct DisruptionId(pub i32);

impl StopId {
    /// Wrap a raw value.
    pub fn new(value: i32) -> (r: Self)
        ensures
            r.0 == value,
    {
        StopId(value)
    }

    /// The raw wrapped value.
    pub fn value(&self) -> (r: i32)
        ensures
            r == self.0,
    {
        self.0
    }
}

impl RouteId {
    /// Wrap a raw value.
    pub fn new(value: i32) -> (r: Self)
        ensures
            r.0 == value,
    {
        RouteId(value)
    }

    /// The raw wrapped value.
    pub fn value(&self) -> (r: i32)
        ensures
            r == self.0,
    {
        self.0
    }
}

impl RunId {
    /// Wrap a raw value.
    pub fn new(value: i32) -> (r: Self)
        ensures
            r.0 == value,
    {
        RunId(value)
    }

    /// The raw wrapped value.
    pub fn value(&self) -> (r: i32)
        ensures
            r == self.0,
    {
        self.0
    }
}

impl RunRef {
    /// Wrap a raw value.
    pub fn new(value: String) -> (r: Self)
        ensures
            r.0 == value,
    {
        RunRef(value)
    }

    /// The raw wrapped value.
    pub fn value(&self) -> (r: &String)
        ensures
            r == &self.0,
    {
        &self.0
    }
}

impl DirectionId {
    /// Wrap a raw value.
    pub fn new(value: i32) -> (r: Self)
        ensures
            r.0 == value,
    {
        DirectionId(value)
    }

    /// The raw wrapped value.
    pub fn value(&self) -> (r: i32)
        ensures
            r == self.0,
    {
        self.0
    }
}

impl DisruptionId {
    /// Wrap a raw value.
    pub fn new(value: i32) -> (r: Self)
        ensures
            r.0 == value,
    {
        DisruptionId(value)
    }

    /// The raw wrapped value.
    pub fn value(&self) -> (r: i32)
        ensures
            r == self.0,
    {
        self.0
    }
}

/// The mode a composite identifier's mode segment denotes: a known mode name
/// (without regard to ASCII case), or a bare numeric mode code.
pub open spec fn spec_mode_of_seg(seg: Seq<char>) -> Option<RouteType> {
    match spec_from_name(seg) {
        Some(m) => Some(m),
        None => match spec_parse_i32(seg) {
            Some(c) => Some(spec_from_code(c)),
            None => None,
        },
    }
}

/// Splitting the composite text form: the prefix before the first `:` must be
/// the expected kind literal, the segment up to the first following `/` must
/// denote a mode, and the rest is the scalar text. Each rejection names its
/// cause.
pub open spec fn spec_split_composite(s: Seq<char>, kind: Seq<char>) -> Result<
    (RouteType, Seq<char>),
    ParseError,
> {
    let p = find_char(s, ':');
    if p == -1 {
        Err(ParseError::MissingSeparator)
    } else {
        let other = s.subrange(p + 1, s.len() as int);
        let q = find_char(other, '/');
        if q == -1 {
            Err(ParseError::MissingSeparator)
        } else {
            let prefix = s.subrange(0, p);
            if prefix != kind {
                Err(ParseError::KindMismatch)
            } else {
                let modeseg = other.subrange(0, q);
                let idseg = other.subrange(q + 1, other.len() as int);
                match spec_mode_of_seg(modeseg) {
                    Some(m) => Ok((m, idseg)),
                    None => Err(ParseError::UnknownMode),
                }
            }
        }
    }
}

/// The canonical composite text form: `<kind>:<mode name>/<scalar text>`.
pub open spec fn spec_format_composite(kind: Seq<char>, m: RouteType, idtext: Seq<char>) -> Seq<
    char,
> {
    kind + seq![':'] + spec_name(m) + seq!['/'] + idtext
}

/// Split a composite identifier's characters against an expected kind
/// literal, yielding the mode and the scalar text.
fn split_composite(s: &Vec<char>, kind: &str) -> (r: Result<(RouteType, Vec<char>), ParseError>)
    ensures
        match r {
            Ok((m, idv)) => spec_split_composite(s@, kind@) == Ok::<_, ParseError>((m, idv@)),
            Err(e) => spec_split_composite(s@, kind@) == Err::<(RouteType, Seq<char>), _>(e),
        },
{
    proof {
        lemma_find_char(s@, ':');
    }
    let p = match find_char_vec(s, ':') {
        None => {
            return Err(ParseError::MissingSeparator);
        },
        Some(p) => p,
    };
    let n = s.len();
    let other = subvec(s, p + 1, n);
    proof {
        lemma_find_char(other@, '/');
    }
    let q = match find_char_vec(&other, '/') {
        None => {
            return Err(ParseError::MissingSeparator);
        },
        Some(q) => q,
    };
    let prefix = subvec(s, 0, p);
    let kindv = str_chars(kind);
    if !chars_eq(&prefix, &kindv) {
        return Err(ParseError::KindMismatch);
    }
    let modeseg = subvec(&other, 0, q);
    let idseg = subvec(&other, q + 1, other.len());
    match RouteType::from_name_chars(&modeseg) {
        Ok(m) => Ok((m, idseg)),
        Err(_) => match parse_i32_chars(&modeseg) {
            Some(c) => Ok((RouteType::from_code(c), idseg)),
            None => Err(ParseError::UnknownMode),
        },
    }
}

/// Render a composite identifier from its kind literal, mode and scalar text.
fn format_composite(kind: &str, m: RouteType, idtext: &Vec<char>) -> (s: String)
    ensures
        s@ == spec_format_composite(kind@, m, idtext@),
{
    let mut v: Vec<char> = Vec::new();
    push_str_chars(&mut v, kind);
    v.push(':');
    let name = m.name();
    push_str_chars(&mut v, name.as_str());
    v.push('/');
    push_chars(&mut v, idtext);
    assert(v@ =~= spec_format_composite(kind@, m, idtext@));
    chars_to_string(&v)
}

/// Splitting the canonical rendering of a known-mode composite identifier
/// yields the mode and scalar text it was rendered from, whatever the scalar
/// text holds.
pub proof fn lemma_split_of_format(kind: Seq<char>, m: RouteType, idtext: Seq<char>)
    requires
        is_known(m),
        forall|i: int| 0 <= i < kind.len() ==> #[trigger] kind[i] != ':',
    ensures
        spec_split_composite(spec_format_composite(kind, m, idtext), kind) == Ok::<_, ParseError>(
            (m, idtext),
        ),
{
    let name = spec_name(m);
    let s = spec_format_composite(kind, m, idtext);
    lemma_known_name_no_separator(m);
    assert(s[kind.len() as int] == ':');
    lemma_find_char_at(s, ':', kind.len() as int);
    let p = kind.len() as int;
    let other = s.subrange(p + 1, s.len() as int);
    assert(other =~= name + seq!['/'] + idtext);
    assert(other[name.len() as int] == '/');
    assert forall|j: int| 0 <= j < name.len() implies other[j] != '/' by {
        assert(other[j] == name[j]);
    }
    lemma_find_char_at(other, '/', name.len() as int);
    let q = name.len() as int;
    assert(s.subrange(0, p) =~= kind);
    assert(other.subrange(0, q) =~= name);
    assert(other.subrange(q + 1, other.len() as int) =~= idtext);
    lemma_from_name_of_name(m);
    assert(spec_mode_of_seg(name) == Some(m));
}

/// Stop identifier qualified by its owning transport mode.
#[derive(Clone, Copy, Debug, PartialEq, Eq, PartialOrd, Ord, Hash, Structural)]
pub struct Stop {
    /// Transport mode the stop belongs to
    pub route_type: RouteType,
    /// Stop identifier within that mode
    pub id: StopId,
}

/// Route identifier qualified by its owning transport mode.
#[derive(Clone, Copy, Debug, PartialEq, Eq, PartialOrd, Ord, Hash, Structural)]
pub struct Route {
    /// Transport mode the route belongs to
    pub route_type: RouteType,
    /// Route identifier within that mode
    pub id: RouteId,
}

/// Run reference qualified by its owning transport mode.
#[derive(Clone, Debug, PartialEq, Eq, PartialOrd, Ord, Hash)]
pub struct Run {
    /// Transport mode the run belongs to
    pub route_type: RouteType,
    /// Alphanumeric run reference within that mode
    pub id: RunRef,
}

/// Direction identifier qualified by its owning transport mode.
#[derive(Clone, Copy, Debug, PartialEq, Eq, PartialOrd, Ord, Hash, Structural)]
pub struct Direction {
    /// Transport mode the direction belongs to
    pub route_type: RouteType,
    /// Direction identifier within that mode
    pub id: DirectionId,
}

/// What parsing text as a `Stop` means: split against the `Stop` kind
/// literal, then read the scalar as a signed 32-bit decimal.
pub open spec fn spec_parse_stop(s: Seq<char>) -> Result<(RouteType, int), ParseError> {
    match spec_split_composite(s, "Stop"@) {
        Err(e) => Err(e),
        Ok((m, idseg)) => match spec_parse_i32(idseg) {
            Some(n) => Ok((m, n as int)),
            None => Err(ParseError::InvalidScalar),
        },
    }
}

/// The canonical text of a `Stop`.
pub open spec fn spec_format_stop(m: RouteType, id: int) -> Seq<char> {
    spec_format_composite("Stop"@, m, dec_int_chars(id))
}

impl Stop {
    /// Render this identifier in its canonical text form.
    pub fn format(&self) -> (s: String)
        ensures
            s@ == spec_format_stop(self.route_type, self.id.0 as int),
    {
        let idtext = dec_i64_chars(self.id.0 as i64);
        format_composite("Stop", self.route_type, &idtext)
    }

    /// Parse the canonical text form of a `Stop`.
    pub fn parse(s: &str) -> (r: Result<Stop, ParseError>)
        ensures
            match r {
                Ok(st) => spec_parse_stop(s@) == Ok::<_, ParseError>(
                    (st.route_type, st.id.0 as int),
                ),
                Err(e) => spec_parse_stop(s@) == Err::<(RouteType, int), _>(e),
            },
    {
        let chars = str_chars(s);
        match split_composite(&chars, "Stop") {
            Err(e) => Err(e),
            Ok((m, idseg)) => match parse_i32_chars(&idseg) {
                Some(n) => Ok(Stop { route_type: m, id: StopId(n) }),
                None => Err(ParseError::InvalidScalar),
            },
        }
    }
}

/// What parsing text as a `Route` means.
pub open spec fn spec_parse_route(s: Seq<char>) -> Result<(RouteType, int), ParseError> {
    match spec_split_composite(s, "Route"@) {
        Err(e) => Err(e),
        Ok((m, idseg)) => match spec_parse_i32(idseg) {
            Some(n) => Ok((m, n as int)),
            None => Err(ParseError::InvalidScalar),
        },
    }
}

/// The canonical text of a `Route`.
pub open spec fn spec_format_route(m: RouteType, id: int) -> Seq<char> {
    spec_format_composite("Route"@, m, dec_int_chars(id))
}

impl Route {
    /// Render this identifier in its canonical text form.
    pub fn format(&self) -> (s: String)
        ensures
            s@ == spec_format_route(self.route_type, self.id.0 as int),
    {
        let idtext = dec_i64_chars(self.id.0 as i64);
        format_composite("Route", self.route_type, &idtext)
    }

    /// Parse the canonical text form of a `Route`.
    pub fn parse(s: &str) -> (r: Result<Route, ParseError>)
        ensures
            match r {
                Ok(rt) => spec_parse_route(s@) == Ok::<_, ParseError>(
                    (rt.route_type, rt.id.0 as int),
                ),
                Err(e) => spec_parse_route(s@) == Err::<(RouteType, int), _>(e),
            },
    {
        let chars = str_chars(s);
        match split_composite(&chars, "Route") {
            Err(e) => Err(e),
            Ok((m, idseg)) => match parse_i32_chars(&idseg) {
                Some(n) => Ok(Route { route_type: m, id: RouteId(n) }),
                None => Err(ParseError::InvalidScalar),
            },
        }
    }
}

/// What parsing text as a `Run` means: the scalar is free text, so the scalar
/// parse never rejects.
pub open spec fn spec_parse_run(s: Seq<char>) -> Result<(RouteType, Seq<char>), ParseError> {
    spec_split_composite(s, "Run"@)
}

/// The canonical text of a `Run`.
pub open spec fn spec_format_run(m: RouteType, id: Seq<char>) -> Seq<char> {
    spec_format_composite("Run"@, m, id)
}

impl Run {
    /// Render this identifier in its canonical text form.
    pub fn format(&self) -> (s: String)
        ensures
            s@ == spec_format_run(self.route_type, self.id.0@),
    {
        let idtext = str_chars(self.id.0.as_str());
        format_composite("Run", self.route_type, &idtext)
    }

    /// Parse the canonical text form of a `Run`.
    pub fn parse(s: &str) -> (r: Result<Run, ParseError>)
        ensures
            match r {
                Ok(rn) => spec_parse_run(s@) == Ok::<_, ParseError>((rn.route_type, rn.id.0@)),
                Err(e) => spec_parse_run(s@) == Err::<(RouteType, Seq<char>), _>(e),
            },
    {
        let chars = str_chars(s);
        match split_composite(&chars, "Run") {
            Err(e) => Err(e),
            Ok((m, idseg)) => Ok(Run { route_type: m, id: RunRef(chars_to_string(&idseg)) }),
        }
    }
}

/// What parsing text as a `Direction` means.
pub open spec fn spec_parse_direction(s: Seq<char>) -> Result<(RouteType, int), ParseError> {
    match spec_split_composite(s, "Direction"@) {
        Err(e) => Err(e),
        Ok((m, idseg)) => match spec_parse_i32(idseg) {
            Some(n) => Ok((m, n as int)),
            None => Err(ParseError::InvalidScalar),
        },
    }
}

/// The canonical text of a `Direction`.
pub open spec fn spec_format_direction(m: RouteType, id: int) -> Seq<char> {
    spec_format_composite("Direction"@, m, dec_int_chars(id))
}

impl Direction {
    /// Render this identifier in its canonical text form.
    pub fn format(&self) -> (s: String)
        ensures
            s@ == spec_format_direction(self.route_type, self.id.0 as int),
    {
        let idtext = dec_i64_chars(self.id.0 as i64);
        format_composite("Direction", self.route_type, &idtext)
    }

    /// Parse the canonical text form of a `Direction`.
    pub fn parse(s: &str) -> (r: Result<Direction, ParseError>)
        ensures
            match r {
                Ok(d) => spec_parse_direction(s@) == Ok::<_, ParseError>(
                    (d.route_type, d.id.0 as int),
                ),
                Err(e) => spec_parse_direction(s@) == Err::<(RouteType, int), _>(e),
            },
    {
        let chars = str_chars(s);
        match split_composite(&chars, "Direction") {
            Err(e) => Err(e),
            Ok((m, idseg)) => match parse_i32_chars(&idseg) {
                Some(n) => Ok(Direction { route_type: m, id: DirectionId(n) }),
                None => Err(ParseError::InvalidScalar),
            },
        }
    }
}

/// Round trip for `Stop`: parsing the canonical rendering of any known-mode
/// stop identifier yields the identifier back. Unknown modes are excluded:
/// their synthetic `Unknown(<code>)` name is deliberately not parseable.
pub proof fn lemma_stop_round_trip(m: RouteType, id: i32)
    requires
        is_known(m),
    ensures
        spec_parse_stop(spec_format_stop(m, id as int)) == Ok::<_, ParseError>((m, id as int)),
{
    reveal_strlit("Stop");
    lemma_split_of_format("Stop"@, m, dec_int_chars(id as int));
    lemma_parse_dec_round_trip(id);
}

/// Round trip for `Route`.
pub proof fn lemma_route_round_trip(m: RouteType, id: i32)
    requires
        is_known(m),
    ensures
        spec_parse_route(spec_format_route(m, id as int)) == Ok::<_, ParseError>((m, id as int)),
{
    reveal_strlit("Route");
    lemma_split_of_format("Route"@, m, dec_int_chars(id as int));
    lemma_parse_dec_round_trip(id);
}

/// Round trip for `Run`, for any run reference text whatever.
pub proof fn lemma_run_round_trip(m: RouteType, id: Seq<char>)
    requires
        is_known(m),
    ensures
        spec_parse_run(spec_format_run(m, id)) == Ok::<_, ParseError>((m, id)),
{
    reveal_strlit("Run");
    lemma_split_of_format("Run"@, m, id);
}

/// Round trip for `Direction`.
pub proof fn lemma_direction_round_trip(m: RouteType, id: i32)
    requires
        is_known(m),
    ensures
        spec_parse_direction(spec_format_direction(m, id as int)) == Ok::<_, ParseError>(
            (m, id as int),
        ),
{
    reveal_strlit("Direction");
    lemma_split_of_format("Direction"@, m, dec_int_chars(id as int));
    lemma_parse_dec_round_trip(id);
}

} // verus!
