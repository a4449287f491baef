//! Deterministic query-string assembly: a structured parameter bag becomes a
//! canonical query string. Absent parameters are omitted, list values repeat
//! the key once per element in order, and every value is percent-encoded
//! with the non-alphanumeric reserved set.

use vstd::prelude::*;
use vstd::string::StrSliceExecFns;
use vstd::utf8::encode_utf8;
use crate::dec::dec_int;
use crate::dec::push_dec_i64;
use crate::ids::DirectionId;
use crate::pct::pct;
use crate::pct::percent_encode_bytes;
use crate::strutil::bytes_to_chars;
use crate::strutil::chars_of_bytes;
use crate::strutil::chars_to_string;
use crate::strutil::push_chars;
use crate::strutil::str_chars;

verus! {

/// One query parameter value: a scalar, a boolean, free text, or a list that
/// repeats the key once per element.
#[derive(Clone, Debug)]
pub enum QueryValue {
    /// A decimal integer value
    Int(i64),
    /// A boolean, written `true` or `false`
    Bool(bool),
    /// Free text, percent-encoded on output
    Text(String),
    /// A list of integers, the key repeated per element in order
    IntList(Vec<i64>),
    /// A list of texts, the key repeated per element in order
    TextList(Vec<String>),
}

/// A named, present query parameter. Absent parameters simply do not appear
/// in the bag.
#[derive(Clone, Debug)]
pub struct QueryParam {
    /// Parameter name, written as given
    pub name: String,
    /// Parameter value
    pub value: QueryValue,
}

/// The text of a boolean value.
pub open spec fn spec_bool_bytes(b: bool) -> Seq<u8> {
    if b {
        seq!['t' as u8, 'r' as u8, 'u' as u8, 'e' as u8]
    } else {
        seq!['f' as u8, 'a' as u8, 'l' as u8, 's' as u8, 'e' as u8]
    }
}

/// The raw byte renderings a value contributes, one per emitted `key=value`
/// pair, in order.
pub open spec fn spec_value_items(v: QueryValue) -> Seq<Seq<u8>> {
    match v {
        QueryValue::Int(i) => seq![dec_int(i as int)],
        QueryValue::Bool(b) => seq![spec_bool_bytes(b)],
        QueryValue::Text(s) => seq![encode_utf8(s@)],
        QueryValue::IntList(l) => l@.map(|_i: int, x: i64| dec_int(x as int)),
        QueryValue::TextList(l) => Seq::new(l@.len(), |i: int| encode_utf8(l@[i]@)),
    }
}

/// One emitted `name=value` pair, the value percent-encoded.
pub open spec fn spec_pair(name: Seq<char>, item: Seq<u8>) -> Seq<char> {
    name + seq!['='] + chars_of_bytes(pct(item))
}

/// The pairs one parameter emits.
pub open spec fn spec_param_pieces(p: QueryParam) -> Seq<Seq<char>> {
    spec_value_items(p.value).map(|_i: int, it: Seq<u8>| spec_pair(p.name@, it))
}

/// The pairs a whole bag emits, bag order kept.
pub open spec fn spec_bag_pieces(bag: Seq<QueryParam>) -> Seq<Seq<char>>
    decreases bag.len(),
{
    if bag.len() == 0 {
        Seq::empty()
    } else {
        spec_bag_pieces(bag.drop_last()) + spec_param_pieces(bag.last())
    }
}

/// Pairs joined with `&`.
pub open spec fn join_amp(pieces: Seq<Seq<char>>) -> Seq<char>
    decreases pieces.len(),
{
    if pieces.len() == 0 {
        Seq::empty()
    } else if pieces.len() == 1 {
        pieces[0]
    } else {
        join_amp(pieces.drop_last()) + seq!['&'] + pieces.last()
    }
}

/// The canonical query string of a parameter bag.
pub open spec fn spec_encode_query(bag: Seq<QueryParam>) -> Seq<char> {
    join_amp(spec_bag_pieces(bag))
}

/// Appending one pair to a join adds a separator exactly when pairs came
/// before it.
pub proof fn lemma_join_amp_snoc(ps: Seq<Seq<char>>, p: Seq<char>)
    ensures
        join_amp(ps.push(p)) == (if ps.len() == 0 {
            p
        } else {
            join_amp(ps) + seq!['&'] + p
        }),
{
    let q = ps.push(p);
    assert(q.drop_last() =~= ps);
    assert(q.last() == p);
    if ps.len() == 0 {
        assert(q.len() == 1);
        assert(q[0] == p);
    }
}

/// The pairs of a bag extended by one parameter.
pub proof fn lemma_bag_pieces_push(bag: Seq<QueryParam>, p: QueryParam)
    ensures
        spec_bag_pieces(bag.push(p)) == spec_bag_pieces(bag) + spec_param_pieces(p),
{
    let q = bag.push(p);
    assert(q.drop_last() =~= bag);
    assert(q.last() == p);
}

/// The pairs of a bag prefix extended by its next parameter.
pub proof fn lemma_bag_pieces_snoc(bag: Seq<QueryParam>, i: int)
    requires
        0 <= i < bag.len(),
    ensures
        spec_bag_pieces(bag.subrange(0, i + 1)) == spec_bag_pieces(bag.subrange(0, i))
            + spec_param_pieces(bag[i]),
{
    let s = bag.subrange(0, i + 1);
    assert(s.drop_last() =~= bag.subrange(0, i));
    assert(s.last() == bag[i]);
}

/// The raw byte renderings a value contributes, materialized.
fn value_items(v: &QueryValue) -> (items: Vec<Vec<u8>>)
    ensures
        items@.len() == spec_value_items(*v).len(),
        forall|k: int| 0 <= k < items@.len() ==> items@[k]@ == spec_value_items(*v)[k],
{
    let mut items: Vec<Vec<u8>> = Vec::new();
    match v {
        QueryValue::Int(i) => {
            let mut b: Vec<u8> = Vec::new();
            push_dec_i64(&mut b, *i);
            assert(b@ =~= dec_int(*i as int));
            items.push(b);
        },
        QueryValue::Bool(bv) => {
            let mut b: Vec<u8> = Vec::new();
            if *bv {
                b.push('t' as u8);
                b.push('r' as u8);
                b.push('u' as u8);
                b.push('e' as u8);
            } else {
                b.push('f' as u8);
                b.push('a' as u8);
                b.push('l' as u8);
                b.push('s' as u8);
                b.push('e' as u8);
            }
            assert(b@ =~= spec_bool_bytes(*bv));
            items.push(b);
        },
        QueryValue::Text(s) => {
            items.push(s.as_str().as_bytes_vec());
        },
        QueryValue::IntList(l) => {
            let mut k: usize = 0;
            while k < l.len()
                invariant
                    0 <= k <= l@.len(),
                    items@.len() == k,
                    forall|t: int| 0 <= t < k ==> items@[t]@ == dec_int(#[trigger] l@[t] as int),
                decreases l@.len() - k,
            {
                let mut b: Vec<u8> = Vec::new();
                push_dec_i64(&mut b, l[k]);
                assert(b@ =~= dec_int(l@[k as int] as int));
                items.push(b);
                k += 1;
            }
        },
        QueryValue::TextList(l) => {
            let mut k: usize = 0;
            while k < l.len()
                invariant
                    0 <= k <= l@.len(),
                    items@.len() == k,
                    forall|t: int| 0 <= t < k ==> items@[t]@ == encode_utf8(#[trigger] l@[t]@),
                decreases l@.len() - k,
            {
                items.push(l[k].as_str().as_bytes_vec());
                k += 1;
            }
        },
    }
    items
}

/// Encode a parameter bag as its canonical query string: pairs joined with
/// `&`, bag order and list order kept, absent parameters absent, every value
/// percent-encoded.
pub fn encode_query(bag: &Vec<QueryParam>) -> (q: String)
    ensures
        q@ == spec_encode_query(bag@),
{
    let mut out: Vec<char> = Vec::new();
    let mut first: bool = true;
    let mut i: usize = 0;
    while i < bag.len()
        invariant
            0 <= i <= bag@.len(),
            out@ == join_amp(spec_bag_pieces(bag@.subrange(0, i as int))),
            first <==> spec_bag_pieces(bag@.subrange(0, i as int)).len() == 0,
        decreases bag@.len() - i,
    {
        let name_chars = str_chars(bag[i].name.as_str());
        let items = value_items(&bag[i].value);
        let ghost pre = spec_bag_pieces(bag@.subrange(0, i as int));
        let ghost pp = spec_param_pieces(bag@[i as int]);
        assert(pp.len() == items@.len());
        let mut j: usize = 0;
        while j < items.len()
            invariant
                0 <= i < bag@.len(),
                0 <= j <= items@.len(),
                name_chars@ == bag@[i as int].name@,
                items@.len() == spec_value_items(bag@[i as int].value).len(),
                forall|k: int| 0 <= k < items@.len() ==> items@[k]@ == spec_value_items(
                    bag@[i as int].value,
                )[k],
                pre == spec_bag_pieces(bag@.subrange(0, i as int)),
                pp == spec_param_pieces(bag@[i as int]),
                pp.len() == items@.len(),
                out@ == join_amp(pre + pp.subrange(0, j as int)),
                first <==> (pre + pp.subrange(0, j as int)).len() == 0,
            decreases items@.len() - j,
        {
            let ghost cur = pre + pp.subrange(0, j as int);
            if !first {
                out.push('&');
            }
            push_chars(&mut out, &name_chars);
            out.push('=');
            let enc = percent_encode_bytes(&items[j]);
            let enc_chars = bytes_to_chars(&enc);
            push_chars(&mut out, &enc_chars);
            proof {
                let piece = pp[j as int];
                assert(piece == spec_pair(bag@[i as int].name@, spec_value_items(bag@[i as int].value)[j as int]));
                assert(enc_chars@ == chars_of_bytes(pct(items@[j as int]@)));
                lemma_join_amp_snoc(cur, piece);
                assert(cur.push(piece) =~= pre + pp.subrange(0, j as int + 1));
                if cur.len() == 0 {
                    assert(out@ =~= join_amp(cur.push(piece)));
                } else {
                    assert(out@ =~= join_amp(cur) + seq!['&'] + piece);
                }
            }
            first = false;
            j += 1;
        }
        proof {
            assert(pp.subrange(0, pp.len() as int) =~= pp);
            lemma_bag_pieces_snoc(bag@, i as int);
        }
        i += 1;
    }
    proof {
        assert(bag@.subrange(0, bag@.len() as int) =~= bag@);
    }
    chars_to_string(&out)
}

/// What the encoder may expand a departures query with.
#[derive(Clone, Copy, Debug, PartialEq, Eq, Structural)]
pub enum ResponseExpand {
    /// Expand every related record
    All,
    /// Expand stops
    Stop,
    /// Expand routes
    Route,
    /// Expand runs
    Run,
    /// Expand directions
    Direction,
    /// Expand disruptions
    Disruption,
    /// Expand vehicle descriptors
    VehicleDescriptor,
    /// Expand vehicle positions
    VehiclePosition,
    /// Expand nothing (wire name `None`)
    NoExpand,
}

/// The wire name of an expansion.
pub open spec fn spec_expand_name(e: ResponseExpand) -> Seq<char> {
    match e {
        ResponseExpand::All => "All"@,
        ResponseExpand::Stop => "Stop"@,
        ResponseExpand::Route => "Route"@,
        ResponseExpand::Run => "Run"@,
        ResponseExpand::Direction => "Direction"@,
        ResponseExpand::Disruption => "Disruption"@,
        ResponseExpand::VehicleDescriptor => "VehicleDescriptor"@,
        ResponseExpand::VehiclePosition => "VehiclePosition"@,
        ResponseExpand::NoExpand => "None"@,
    }
}

impl ResponseExpand {
    /// The wire name of this expansion.
    pub fn name(&self) -> (s: &'static str)
        ensures
            s@ == spec_expand_name(*self),
    {
        match self {
            ResponseExpand::All => "All",
            ResponseExpand::Stop => "Stop",
            ResponseExpand::Route => "Route",
            ResponseExpand::Run => "Run",
            ResponseExpand::Direction => "Direction",
            ResponseExpand::Disruption => "Disruption",
            ResponseExpand::VehicleDescriptor => "VehicleDescriptor",
            ResponseExpand::VehiclePosition => "VehiclePosition",
            ResponseExpand::NoExpand => "None",
        }
    }
}

/// Parameters of a departures query. Every field is optional; an absent
/// field is omitted from the query string entirely.
#[derive(Clone, Debug)]
pub struct DeparturesParams {
    /// Filter by platform numbers at the stop
    pub platform_numbers: Option<Vec<i32>>,
    /// Filter by direction-of-travel identifier
    pub direction_id: Option<DirectionId>,
    /// Whether the stop identifier is a GTFS one
    pub gtfs: Option<bool>,
    /// Date and time of the request, ISO 8601 UTC
    pub date_utc: Option<String>,
    /// Maximum number of results returned
    pub max_results: Option<i32>,
    /// Whether cancelled services are returned
    pub include_cancelled: Option<bool>,
    /// Whether to look backwards from `date_utc`
    pub look_backwards: Option<bool>,
    /// Related records to return in full
    pub expand: Option<Vec<ResponseExpand>>,
    /// Whether the route geopath is returned
    pub include_geopath: Option<bool>,
}

impl Default for DeparturesParams {
    /// An empty parameter set: nothing is sent.
    fn default() -> (r: Self)
        ensures
            r.platform_numbers is None,
            r.direction_id is None,
            r.gtfs is None,
            r.date_utc is None,
            r.max_results is None,
            r.include_cancelled is None,
            r.look_backwards is None,
            r.expand is None,
            r.include_geopath is None,
    {
        DeparturesParams {
            platform_numbers: None,
            direction_id: None,
            gtfs: None,
            date_utc: None,
            max_results: None,
            include_cancelled: None,
            look_backwards: None,
            expand: None,
            include_geopath: None,
        }
    }
}

/// The pairs a departures parameter set emits, field by field in declaration
/// order, absent fields omitted.
pub open spec fn spec_departures_pieces(p: DeparturesParams) -> Seq<Seq<char>> {
    (match p.platform_numbers {
        Some(l) => l@.map(|_i: int, x: i32| spec_pair("platform_numbers"@, dec_int(x as int))),
        None => Seq::empty(),
    }) + (match p.direction_id {
        Some(d) => seq![spec_pair("direction_id"@, dec_int(d.0 as int))],
        None => Seq::empty(),
    }) + (match p.gtfs {
        Some(b) => seq![spec_pair("gtfs"@, spec_bool_bytes(b))],
        None => Seq::empty(),
    }) + (match p.date_utc {
        Some(s) => seq![spec_pair("date_utc"@, encode_utf8(s@))],
        None => Seq::empty(),
    }) + (match p.max_results {
        Some(i) => seq![spec_pair("max_results"@, dec_int(i as int))],
        None => Seq::empty(),
    }) + (match p.include_cancelled {
        Some(b) => seq![spec_pair("include_cancelled"@, spec_bool_bytes(b))],
        None => Seq::empty(),
    }) + (match p.look_backwards {
        Some(b) => seq![spec_pair("look_backwards"@, spec_bool_bytes(b))],
        None => Seq::empty(),
    }) + (match p.expand {
        Some(l) => Seq::new(l@.len(), |i: int| spec_pair("expand"@, encode_utf8(spec_expand_name(l@[i])))),
        None => Seq::empty(),
    }) + (match p.include_geopath {
        Some(b) => seq![spec_pair("include_geopath"@, spec_bool_bytes(b))],
        None => Seq::empty(),
    })
}

/// The canonical query string of a departures parameter set.
pub open spec fn spec_departures_query(p: DeparturesParams) -> Seq<char> {
    join_amp(spec_departures_pieces(p))
}

impl DeparturesParams {
    /// The parameter bag this set denotes, field by field in declaration
    /// order, absent fields omitted.
    #[verifier::rlimit(60)]
    pub fn to_query_params(&self) -> (bag: Vec<QueryParam>)
        ensures
            spec_bag_pieces(bag@) == spec_departures_pieces(*self),
    {
        let mut bag: Vec<QueryParam> = Vec::new();
        if let Some(l) = &self.platform_numbers {
            let mut conv: Vec<i64> = Vec::new();
            let mut k: usize = 0;
            while k < l.len()
                invariant
                    0 <= k <= l@.len(),
                    conv@.len() == k,
                    forall|t: int| 0 <= t < k ==> conv@[t] == #[trigger] l@[t] as i64,
                decreases l@.len() - k,
            {
                conv.push(l[k] as i64);
                k += 1;
            }
            let p = QueryParam {
                name: "platform_numbers".to_owned(),
                value: QueryValue::IntList(conv),
            };
            proof {
                lemma_bag_pieces_push(bag@, p);
                assert(spec_param_pieces(p) =~= l@.map(
                    |_i: int, x: i32| spec_pair("platform_numbers"@, dec_int(x as int)),
                ));
            }
            bag.push(p);
        }
        if let Some(d) = &self.direction_id {
            let p = QueryParam {
                name: "direction_id".to_owned(),
                value: QueryValue::Int(d.0 as i64),
            };
            proof {
                lemma_bag_pieces_push(bag@, p);
                assert(spec_param_pieces(p) =~= seq![
                    spec_pair("direction_id"@, dec_int(d.0 as int)),
                ]);
            }
            bag.push(p);
        }
        if let Some(b) = &self.gtfs {
            let p = QueryParam { name: "gtfs".to_owned(), value: QueryValue::Bool(*b) };
            proof {
                lemma_bag_pieces_push(bag@, p);
                assert(spec_param_pieces(p) =~= seq![spec_pair("gtfs"@, spec_bool_bytes(*b))]);
            }
            bag.push(p);
        }
        if let Some(s) = &self.date_utc {
            let p = QueryParam { name: "date_utc".to_owned(), value: QueryValue::Text(s.clone()) };
            proof {
                lemma_bag_pieces_push(bag@, p);
                assert(spec_param_pieces(p) =~= seq![spec_pair("date_utc"@, encode_utf8(s@))]);
            }
            bag.push(p);
        }
        if let Some(i) = &self.max_results {
            let p = QueryParam { name: "max_results".to_owned(), value: QueryValue::Int(*i as i64) };
            proof {
                lemma_bag_pieces_push(bag@, p);
                assert(spec_param_pieces(p) =~= seq![spec_pair("max_results"@, dec_int(*i as int))]);
            }
            bag.push(p);
        }
        if let Some(b) = &self.include_cancelled {
            let p = QueryParam { name: "include_cancelled".to_owned(), value: QueryValue::Bool(*b) };
            proof {
                lemma_bag_pieces_push(bag@, p);
                assert(spec_param_pieces(p) =~= seq![
                    spec_pair("include_cancelled"@, spec_bool_bytes(*b)),
                ]);
            }
            bag.push(p);
        }
        if let Some(b) = &self.look_backwards {
            let p = QueryParam { name: "look_backwards".to_owned(), value: QueryValue::Bool(*b) };
            proof {
                lemma_bag_pieces_push(bag@, p);
                assert(spec_param_pieces(p) =~= seq![
                    spec_pair("look_backwards"@, spec_bool_bytes(*b)),
                ]);
            }
            bag.push(p);
        }
        if let Some(l) = &self.expand {
            let mut names: Vec<String> = Vec::new();
            let mut k: usize = 0;
            while k < l.len()
                invariant
                    0 <= k <= l@.len(),
                    names@.len() == k,
                    forall|t: int| 0 <= t < k ==> names@[t]@ == spec_expand_name(#[trigger] l@[t]),
                decreases l@.len() - k,
            {
                names.push(l[k].name().to_owned());
                k += 1;
            }
            let p = QueryParam { name: "expand".to_owned(), value: QueryValue::TextList(names) };
            proof {
                lemma_bag_pieces_push(bag@, p);
                assert(spec_param_pieces(p) =~= Seq::new(
                    l@.len(),
                    |i: int| spec_pair("expand"@, encode_utf8(spec_expand_name(l@[i]))),
                ));
            }
            bag.push(p);
        }
        if let Some(b) = &self.include_geopath {
            let p = QueryParam { name: "include_geopath".to_owned(), value: QueryValue::Bool(*b) };
            proof {
                lemma_bag_pieces_push(bag@, p);
                assert(spec_param_pieces(p) =~= seq![
                    spec_pair("include_geopath"@, spec_bool_bytes(*b)),
                ]);
            }
            bag.push(p);
        }
        assert(spec_bag_pieces(bag@) =~= spec_departures_pieces(*self));
        bag
    }

    /// The canonical query string of this parameter set.
    pub fn to_query_string(&self) -> (q: String)
        ensures
            q@ == spec_departures_query(*self),
    {
        let bag = self.to_query_params();
        encode_query(&bag)
    }
}

} // verus!
