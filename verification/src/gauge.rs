use vstd::prelude::*;
use vstd::string::*;

verus! {

/// The characters of each string of a list.
pub open spec fn strings_view(v: Seq<String>) -> Seq<Seq<char>> {
    v.map_values(|s: String| s@)
}

/// The characters of each string slice of a list.
pub open spec fn strs_view(v: Seq<&str>) -> Seq<Seq<char>> {
    v.map_values(|s: &str| s@)
}

/// Owned copies of a list of names.
pub fn owned_strings(names: &[&str]) -> (r: Vec<String>)
    ensures
        strings_view(r@) == strs_view(names@),
{
    let mut r: Vec<String> = Vec::new();
    let mut i: usize = 0;
    while i < names.len()
        invariant
            0 <= i <= names@.len(),
            strings_view(r@) == strs_view(names@.take(i as int)),
        decreases names@.len() - i,
    {
        let s = String::from_str(names[i]);
        let ghost before = r@;
        r.push(s);
        proof {
            let t = names@.take(i as int + 1);
            assert(t =~= names@.take(i as int).push(names@[i as int]));
            assert(strings_view(r@) =~= strings_view(before).push(s@));
            assert(strs_view(t) =~= strs_view(names@.take(i as int)).push(names@[i as int]@));
        }
        i = i + 1;
    }
    assert(names@.take(names@.len() as int) =~= names@);
    r
}

/// A copy of a list of strings.
pub fn clone_strings(v: &Vec<String>) -> (r: Vec<String>)
    ensures
        strings_view(r@) == strings_view(v@),
{
    let mut r: Vec<String> = Vec::new();
    let mut i: usize = 0;
    while i < v.len()
        invariant
            0 <= i <= v@.len(),
            strings_view(r@) == strings_view(v@.take(i as int)),
        decreases v@.len() - i,
    {
        let s = v[i].clone();
        let ghost before = r@;
        r.push(s);
        proof {
            let t = v@.take(i as int + 1);
            assert(t =~= v@.take(i as int).push(v@[i as int]));
            assert(strings_view(r@) =~= strings_view(before).push(s@));
            assert(strings_view(t) =~= strings_view(v@.take(i as int)).push(v@[i as int]@));
        }
        i = i + 1;
    }
    assert(v@.take(v@.len() as int) =~= v@);
    r
}

/// What describes a gauge family: Prometheus names it `subsystem_name`
/// (just `name` when the subsystem is empty), shows `help` beside it and
/// tells its gauges apart by the values of `labels`.
pub struct GaugeDesc {
    pub subsystem: String,
    pub name: String,
    pub help: String,
    pub labels: Vec<String>,
}

/// A gauge description as plain text.
pub struct GaugeDescView {
    pub subsystem: Seq<char>,
    pub name: Seq<char>,
    pub help: Seq<char>,
    pub labels: Seq<Seq<char>>,
}

impl View for GaugeDesc {
    type V = GaugeDescView;

    open spec fn view(&self) -> GaugeDescView {
        GaugeDescView {
            subsystem: self.subsystem@,
            name: self.name@,
            help: self.help@,
            labels: strings_view(self.labels@),
        }
    }
}

/// The description with the given parts.
pub open spec fn desc_view(
    subsystem: Seq<char>,
    name: Seq<char>,
    help: Seq<char>,
    labels: Seq<Seq<char>>,
) -> GaugeDescView {
    GaugeDescView { subsystem, name, help, labels }
}

impl GaugeDesc {
    /// A description with the given parts.
    pub fn new(subsystem: &str, name: &str, help: &str, labels: &[&str]) -> (r: GaugeDesc)
        ensures
            r@ == desc_view(subsystem@, name@, help@, strs_view(labels@)),
    {
        GaugeDesc {
            subsystem: String::from_str(subsystem),
            name: String::from_str(name),
            help: String::from_str(help),
            labels: owned_strings(labels),
        }
    }
}

/// The full name that Prometheus gives a family: subsystem and name joined
/// by `_`, an empty subsystem left out, and nothing at all for an empty name.
pub open spec fn spec_fq_name(subsystem: Seq<char>, name: Seq<char>) -> Seq<char> {
    if name.len() == 0 {
        Seq::empty()
    } else if subsystem.len() > 0 {
        subsystem + seq!['_'] + name
    } else {
        name
    }
}

/// The full name of a gauge: its subsystem and name joined by an
/// underscore; the name alone when there is no subsystem; empty when there
/// is no name.
pub proof fn lemma_fq_name(subsystem: Seq<char>, name: Seq<char>)
    ensures
        name.len() > 0 && subsystem.len() > 0 ==> spec_fq_name(subsystem, name).len()
            == subsystem.len() + 1 + name.len() && spec_fq_name(subsystem, name).take(
            subsystem.len() as int,
        ) == subsystem && spec_fq_name(subsystem, name)[subsystem.len() as int] == '_'
            && spec_fq_name(subsystem, name).skip(subsystem.len() + 1int) == name,
        name.len() > 0 && subsystem.len() == 0 ==> spec_fq_name(subsystem, name) == name,
        name.len() == 0 ==> spec_fq_name(subsystem, name).len() == 0,
{
    if name.len() > 0 && subsystem.len() > 0 {
        let f = spec_fq_name(subsystem, name);
        assert(f.take(subsystem.len() as int) =~= subsystem);
        assert(f.skip(subsystem.len() + 1int) =~= name);
    }
}

/// An ASCII letter.
pub open spec fn is_ascii_letter(c: char) -> bool {
    ('a' <= c && c <= 'z') || ('A' <= c && c <= 'Z')
}

/// An ASCII digit.
pub open spec fn is_ascii_digit(c: char) -> bool {
    '0' <= c && c <= '9'
}

/// A name of the form `[a-zA-Z_:][a-zA-Z0-9_:]*`.
pub open spec fn is_valid_metric_name(s: Seq<char>) -> bool {
    &&& s.len() > 0
    &&& (is_ascii_letter(s[0]) || s[0] == '_' || s[0] == ':')
    &&& forall|i: int|
        1 <= i < s.len() ==> is_ascii_letter(#[trigger] s[i]) || s[i] == '_' || s[i] == ':'
            || is_ascii_digit(s[i])
}

/// A name of the form `[a-zA-Z_][a-zA-Z0-9_]*`.
pub open spec fn is_valid_label_name(s: Seq<char>) -> bool {
    &&& s.len() > 0
    &&& (is_ascii_letter(s[0]) || s[0] == '_')
    &&& forall|i: int|
        1 <= i < s.len() ==> is_ascii_letter(#[trigger] s[i]) || s[i] == '_' || is_ascii_digit(
            s[i],
        )
}

/// What Prometheus asks of the description of a family without constant
/// labels: a help text, a valid full name, and valid label names that
/// differ from each other.
pub open spec fn is_valid_description(
    fq_name: Seq<char>,
    help: Seq<char>,
    labels: Seq<Seq<char>>,
) -> bool {
    &&& help.len() > 0
    &&& is_valid_metric_name(fq_name)
    &&& forall|i: int| 0 <= i < labels.len() ==> is_valid_label_name(#[trigger] labels[i])
    &&& labels.no_duplicates()
}

/// A gauge description that Prometheus accepts.
pub open spec fn is_valid_gauge(d: GaugeDescView) -> bool {
    is_valid_description(spec_fq_name(d.subsystem, d.name), d.help, d.labels)
}

#[verifier::external_type_specification]
#[verifier::external_body]
pub struct ExDesc(prometheus::core::Desc);

#[verifier::external_type_specification]
#[verifier::external_body]
pub struct ExPrometheusError(prometheus::Error);

/// `prometheus::core::Desc::new` without constant labels, as every gauge
/// family of Prometheus calls it when it is created: it accepts the
/// description exactly when the help text is not empty, the full name is a
/// valid metric name, and the label names are valid and differ from each
/// other.  Nothing is said of the descriptor it returns.
#[verifier::external_body]
fn prometheus_desc(fq_name: String, help: String, labels: Vec<String>) -> (r: Result<
    prometheus::core::Desc,
    prometheus::Error,
>)
    ensures
        r is Ok <==> is_valid_description(fq_name@, help@, strings_view(labels@)),
{
    prometheus::core::Desc::new(fq_name, help, labels, std::collections::HashMap::new())
}

/// Prometheus refused a gauge description.
#[derive(PartialEq, Eq, Structural, Clone, Copy, Debug)]
pub struct InvalidGauge;

impl GaugeDesc {
    /// The full name of the family.
    pub fn fq_name(&self) -> (r: String)
        ensures
            r@ == spec_fq_name(self.subsystem@, self.name@),
    {
        if self.name.as_str().is_empty() {
            String::new()
        } else if !self.subsystem.as_str().is_empty() {
            let r = self.subsystem.clone().concat("_").concat(self.name.as_str());
            proof {
                reveal_strlit("_");
                assert("_"@ =~= seq!['_']);
            }
            r
        } else {
            self.name.clone()
        }
    }

    /// Asks Prometheus whether it accepts the description, as it does when a
    /// gauge family is created from it.
    pub fn validate(&self) -> (r: Result<(), InvalidGauge>)
        ensures
            r is Ok <==> is_valid_gauge(self@),
    {
        match prometheus_desc(self.fq_name(), self.help.clone(), clone_strings(&self.labels)) {
            Ok(_) => Ok(()),
            Err(_) => Err(InvalidGauge),
        }
    }
}

/// A reading of a gauge as Elasticsearch reports it, before it becomes the
/// floating-point value that Prometheus exports.
#[derive(PartialEq, Eq, Structural, Clone, Copy, Debug)]
pub enum GaugeValue {
    /// A whole number, exported as is.
    Integer(i64),
    /// A duration in milliseconds, exported in seconds (divided by 1000).
    Milliseconds(i64),
    /// A condition, exported as 1 when it holds and 0 otherwise.
    Flag(bool),
    /// A floating-point reading, carried as its IEEE 754 bit pattern and
    /// exported unchanged.
    FloatBits(u64),
}

/// A way of reading one gauge value off the statistics `T`.
pub trait Field<T>: Sized {
    /// The value this field reads off `stats`.
    spec fn spec_value(&self, stats: &T) -> GaugeValue;

    /// Reads the value off `stats`.
    fn value(&self, stats: &T) -> (r: GaugeValue)
        ensures
            r == self.spec_value(stats),
    ;
}

/// A gauge family together with the field that its gauges show.
pub struct Metric<F> {
    pub gauge: GaugeDesc,
    pub field: F,
}

/// The description and field of each metric of a list.
pub open spec fn metrics_view<F>(s: Seq<Metric<F>>) -> Seq<(GaugeDescView, F)> {
    s.map_values(|m: Metric<F>| (m.gauge@, m.field))
}

impl<F> Metric<F> {
    /// Pairs a description with a field.
    pub fn new(gauge: GaugeDesc, field: F) -> (r: Metric<F>)
        ensures
            r.gauge@ == gauge@,
            r.field == field,
    {
        Metric { gauge, field }
    }
}

} // verus!
