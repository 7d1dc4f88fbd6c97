//! Differential-privacy accounting events.
//!
//! A [`DpEvent`] records which randomization mechanisms were applied by a
//! rewrite and with which parameters.  It can be rendered as an ordered
//! dictionary ([`Dict`]) or a named-tuple-like record ([`NamedTuple`])
//! compatible with the layout of the reference accounting library.
//!
//! Floating-point parameters (noise multipliers, probabilities, epsilon and
//! delta) are held exactly, as the IEEE-754 bit patterns of the engine's
//! 64-bit values.

use vstd::prelude::*;

use crate::error::{Error, ErrorKind, MissingKeyError};
use crate::relation::Relation;

verus! {

/// One application of a privacy mechanism, or a composition of such
/// applications.  Purely a record: built bottom-up by a rewrite and never
/// mutated afterwards.
#[derive(Debug)]
pub enum DpEventValue {
    /// An operation with no privacy impact.
    NoOp,
    /// An application of the Gaussian mechanism; the field holds the bit
    /// pattern of the noise multiplier.
    Gaussian { noise_multiplier: u64 },
    /// An application of the Laplace mechanism; the field holds the bit
    /// pattern of the noise multiplier.
    Laplace { noise_multiplier: u64 },
    /// A mechanism that is (epsilon, delta) approximately private; the
    /// fields hold the bit patterns of epsilon and delta.
    EpsilonDelta { epsilon: u64, delta: u64 },
    /// A series of composed mechanisms, in application order.
    Composed { events: Vec<DpEventValue> },
    /// Poisson subsampling followed by the inner event.
    PoissonSampled { sampling_probability: u64, event: Box<DpEventValue> },
    /// Fixed-size sampling with replacement followed by the inner event.
    SampledWithReplacement { source_dataset_size: i64, sample_size: i64, event: Box<DpEventValue> },
    /// Fixed-size sampling without replacement followed by the inner event.
    SampledWithoutReplacement {
        source_dataset_size: i64,
        sample_size: i64,
        event: Box<DpEventValue>,
    },
}

/// The value of one entry of an event dictionary.
#[derive(Debug)]
pub enum AttrValue {
    /// A text attribute.
    Str(String),
    /// A floating-point attribute, held as the bit pattern of the f64 value.
    Float(u64),
    /// An integer attribute.
    Int(i64),
    /// A nested event dictionary.
    Dict(Dict),
    /// A list of event dictionaries.
    List(Vec<Dict>),
    /// A list of attribute names.
    Names(Vec<String>),
}

/// An ordered dictionary of named attributes describing one event.
#[derive(Debug)]
pub struct Dict {
    pub entries: Vec<(String, AttrValue)>,
}

/// The mathematical form of an attribute value: text as character sequences,
/// dictionaries as sequences of (name, value) pairs.
#[verifier::ext_equal]
pub enum AttrValueView {
    Str(Seq<char>),
    Float(u64),
    Int(i64),
    Dict(Seq<(Seq<char>, AttrValueView)>),
    List(Seq<Seq<(Seq<char>, AttrValueView)>>),
    Names(Seq<Seq<char>>),
}

/// The mathematical form of an attribute value.
pub open spec fn attr_view(value: AttrValue) -> AttrValueView
    decreases value,
{
    match value {
        AttrValue::Str(s) => AttrValueView::Str(s@),
        AttrValue::Float(bits) => AttrValueView::Float(bits),
        AttrValue::Int(n) => AttrValueView::Int(n),
        AttrValue::Dict(d) => AttrValueView::Dict(entries_view(d.entries@)),
        AttrValue::List(ds) => AttrValueView::List(dicts_view(ds@)),
        AttrValue::Names(ns) => AttrValueView::Names(names_view(ns@)),
    }
}

/// The mathematical form of dictionary entries: in order, with viewed names
/// and values.
pub open spec fn entries_view(entries: Seq<(String, AttrValue)>) -> Seq<(Seq<char>, AttrValueView)>
    decreases entries,
{
    if entries.len() == 0 {
        Seq::empty()
    } else {
        seq![(entries[0].0@, attr_view(entries[0].1))] + entries_view(entries.drop_first())
    }
}

/// The mathematical form of a list of dictionaries.
pub open spec fn dicts_view(dicts: Seq<Dict>) -> Seq<Seq<(Seq<char>, AttrValueView)>>
    decreases dicts,
{
    if dicts.len() == 0 {
        Seq::empty()
    } else {
        seq![entries_view(dicts[0].entries@)] + dicts_view(dicts.drop_first())
    }
}

/// The mathematical form of a list of names.
pub open spec fn names_view(names: Seq<String>) -> Seq<Seq<char>>
    decreases names,
{
    if names.len() == 0 {
        Seq::empty()
    } else {
        seq![names[0]@] + names_view(names.drop_first())
    }
}

/// Entry views are pointwise: as long as the entries, with the view of each
/// name and value in place.
pub broadcast proof fn lemma_entries_view(entries: Seq<(String, AttrValue)>)
    ensures
        (#[trigger] entries_view(entries)).len() == entries.len(),
        forall|i: int|
            0 <= i < entries.len() ==> #[trigger] entries_view(entries)[i] == (
                entries[i].0@,
                attr_view(entries[i].1),
            ),
    decreases entries.len(),
{
    if entries.len() > 0 {
        lemma_entries_view(entries.drop_first());
    }
}

/// Dictionary-list views are pointwise.
pub broadcast proof fn lemma_dicts_view(dicts: Seq<Dict>)
    ensures
        (#[trigger] dicts_view(dicts)).len() == dicts.len(),
        forall|i: int|
            0 <= i < dicts.len() ==> #[trigger] dicts_view(dicts)[i] == entries_view(
                dicts[i].entries@,
            ),
    decreases dicts.len(),
{
    if dicts.len() > 0 {
        lemma_dicts_view(dicts.drop_first());
    }
}

/// Name-list views are pointwise.
pub broadcast proof fn lemma_names_view(names: Seq<String>)
    ensures
        (#[trigger] names_view(names)).len() == names.len(),
        forall|i: int| 0 <= i < names.len() ==> #[trigger] names_view(names)[i] == names[i]@,
    decreases names.len(),
{
    if names.len() > 0 {
        lemma_names_view(names.drop_first());
    }
}

/// The dictionary content of an event: a "module_name" entry, a "class_name"
/// entry, the mechanism's parameters in declaration order, and a "_fields"
/// entry listing the names of all entries before it.
pub open spec fn event_dict_view(event: DpEventValue) -> Seq<(Seq<char>, AttrValueView)>
    decreases event,
{
    match event {
        DpEventValue::NoOp => seq![
            ("module_name"@, AttrValueView::Str("dp_accounting.dp_event"@)),
            ("class_name"@, AttrValueView::Str("NoOpDpEvent"@)),
            ("_fields"@, AttrValueView::Names(seq!["module_name"@, "class_name"@])),
        ],
        DpEventValue::Gaussian { noise_multiplier } => seq![
            ("module_name"@, AttrValueView::Str("dp_accounting.dp_event"@)),
            ("class_name"@, AttrValueView::Str("GaussianDpEvent"@)),
            ("noise_multiplier"@, AttrValueView::Float(noise_multiplier)),
            (
                "_fields"@,
                AttrValueView::Names(seq!["module_name"@, "class_name"@, "noise_multiplier"@]),
            ),
        ],
        DpEventValue::Laplace { noise_multiplier } => seq![
            ("module_name"@, AttrValueView::Str("dp_accounting.dp_event"@)),
            ("class_name"@, AttrValueView::Str("LaplaceDpEvent"@)),
            ("noise_multiplier"@, AttrValueView::Float(noise_multiplier)),
            (
                "_fields"@,
                AttrValueView::Names(seq!["module_name"@, "class_name"@, "noise_multiplier"@]),
            ),
        ],
        DpEventValue::EpsilonDelta { epsilon, delta } => seq![
            ("module_name"@, AttrValueView::Str("dp_accounting.dp_event"@)),
            ("class_name"@, AttrValueView::Str("EpsilonDeltaDpEvent"@)),
            ("epsilon"@, AttrValueView::Float(epsilon)),
            ("delta"@, AttrValueView::Float(delta)),
            (
                "_fields"@,
                AttrValueView::Names(seq!["module_name"@, "class_name"@, "epsilon"@, "delta"@]),
            ),
        ],
        DpEventValue::Composed { events } => seq![
            ("module_name"@, AttrValueView::Str("dp_accounting.dp_event"@)),
            ("class_name"@, AttrValueView::Str("ComposedDpEvent"@)),
            ("events"@, AttrValueView::List(events_dicts_view(events@))),
            ("_fields"@, AttrValueView::Names(seq!["module_name"@, "class_name"@, "events"@])),
        ],
        DpEventValue::PoissonSampled { sampling_probability, event } => seq![
            ("module_name"@, AttrValueView::Str("dp_accounting.dp_event"@)),
            ("class_name"@, AttrValueView::Str("PoissonSampledDpEvent"@)),
            ("sampling_probability"@, AttrValueView::Float(sampling_probability)),
            ("event"@, AttrValueView::Dict(event_dict_view(*event))),
            (
                "_fields"@,
                AttrValueView::Names(
                    seq!["module_name"@, "class_name"@, "sampling_probability"@, "event"@],
                ),
            ),
        ],
        DpEventValue::SampledWithReplacement { source_dataset_size, sample_size, event } => seq![
            ("module_name"@, AttrValueView::Str("dp_accounting.dp_event"@)),
            ("class_name"@, AttrValueView::Str("SampledWithReplacementDpEvent"@)),
            ("source_dataset_size"@, AttrValueView::Int(source_dataset_size)),
            ("sample_size"@, AttrValueView::Int(sample_size)),
            ("event"@, AttrValueView::Dict(event_dict_view(*event))),
            (
                "_fields"@,
                AttrValueView::Names(
                    seq![
                        "module_name"@,
                        "class_name"@,
                        "source_dataset_size"@,
                        "sample_size"@,
                        "event"@,
                    ],
                ),
            ),
        ],
        DpEventValue::SampledWithoutReplacement { source_dataset_size, sample_size, event } => seq![
            ("module_name"@, AttrValueView::Str("dp_accounting.dp_event"@)),
            ("class_name"@, AttrValueView::Str("SampledWitoutReplacement"@)),
            ("source_dataset_size"@, AttrValueView::Int(source_dataset_size)),
            ("sample_size"@, AttrValueView::Int(sample_size)),
            ("event"@, AttrValueView::Dict(event_dict_view(*event))),
            (
                "_fields"@,
                AttrValueView::Names(
                    seq![
                        "module_name"@,
                        "class_name"@,
                        "source_dataset_size"@,
                        "sample_size"@,
                        "event"@,
                    ],
                ),
            ),
        ],
    }
}

/// The dictionary contents of a sequence of events, in order.
pub open spec fn events_dicts_view(events: Seq<DpEventValue>) -> Seq<
    Seq<(Seq<char>, AttrValueView)>,
>
    decreases events,
{
    if events.len() == 0 {
        Seq::empty()
    } else {
        seq![event_dict_view(events[0])] + events_dicts_view(events.drop_first())
    }
}

/// Event-list dictionary contents are pointwise.
pub broadcast proof fn lemma_events_dicts_view(events: Seq<DpEventValue>)
    ensures
        (#[trigger] events_dicts_view(events)).len() == events.len(),
        forall|i: int|
            0 <= i < events.len() ==> #[trigger] events_dicts_view(events)[i] == event_dict_view(
                events[i],
            ),
    decreases events.len(),
{
    if events.len() > 0 {
        lemma_events_dicts_view(events.drop_first());
    }
}

/// Builds the dictionary form of an event, mirroring `event_dict_view`.
pub fn event_dict(event: &DpEventValue) -> (r: Dict)
    ensures
        entries_view(r.entries@) == event_dict_view(*event),
    decreases *event,
{
    broadcast use lemma_entries_view, lemma_dicts_view, lemma_names_view, lemma_events_dicts_view;

    let mut entries: Vec<(String, AttrValue)> = Vec::new();
    let mut names: Vec<String> = Vec::new();
    entries.push((
        "module_name".to_string(),
        AttrValue::Str("dp_accounting.dp_event".to_string()),
    ));
    names.push("module_name".to_string());
    match event {
        DpEventValue::NoOp => {
            entries.push(("class_name".to_string(), AttrValue::Str("NoOpDpEvent".to_string())));
            names.push("class_name".to_string());
        },
        DpEventValue::Gaussian { noise_multiplier } => {
            entries.push((
                "class_name".to_string(),
                AttrValue::Str("GaussianDpEvent".to_string()),
            ));
            names.push("class_name".to_string());
            entries.push(("noise_multiplier".to_string(), AttrValue::Float(*noise_multiplier)));
            names.push("noise_multiplier".to_string());
        },
        DpEventValue::Laplace { noise_multiplier } => {
            entries.push((
                "class_name".to_string(),
                AttrValue::Str("LaplaceDpEvent".to_string()),
            ));
            names.push("class_name".to_string());
            entries.push(("noise_multiplier".to_string(), AttrValue::Float(*noise_multiplier)));
            names.push("noise_multiplier".to_string());
        },
        DpEventValue::EpsilonDelta { epsilon, delta } => {
            entries.push((
                "class_name".to_string(),
                AttrValue::Str("EpsilonDeltaDpEvent".to_string()),
            ));
            names.push("class_name".to_string());
            entries.push(("epsilon".to_string(), AttrValue::Float(*epsilon)));
            names.push("epsilon".to_string());
            entries.push(("delta".to_string(), AttrValue::Float(*delta)));
            names.push("delta".to_string());
        },
        DpEventValue::Composed { events } => {
            entries.push((
                "class_name".to_string(),
                AttrValue::Str("ComposedDpEvent".to_string()),
            ));
            names.push("class_name".to_string());
            let mut dicts: Vec<Dict> = Vec::new();
            let mut i: usize = 0;
            while i < events.len()
                invariant
                    *event is Composed,
                    (*event)->Composed_events == *events,
                    i <= events.len(),
                    dicts@.len() == i as int,
                    forall|j: int|
                        0 <= j < i as int ==> entries_view(#[trigger] dicts@[j].entries@)
                            == event_dict_view(events@[j]),
                decreases events.len() - i,
            {
                proof {
                    assert(*events == (*event)->Composed_events);
                    assert(decreases_to!(*event => (*event)->Composed_events));
                    assert(decreases_to!(*events => events@[i as int]));
                    assert(decreases_to!(*event => events@[i as int]));
                }
                let d = event_dict(&events[i]);
                dicts.push(d);
                i = i + 1;
            }
            proof {
                assert(dicts_view(dicts@) =~~= events_dicts_view(events@));
            }
            entries.push(("events".to_string(), AttrValue::List(dicts)));
            names.push("events".to_string());
        },
        DpEventValue::PoissonSampled { sampling_probability, event: inner } => {
            entries.push((
                "class_name".to_string(),
                AttrValue::Str("PoissonSampledDpEvent".to_string()),
            ));
            names.push("class_name".to_string());
            entries.push((
                "sampling_probability".to_string(),
                AttrValue::Float(*sampling_probability),
            ));
            names.push("sampling_probability".to_string());
            let d = event_dict(&**inner);
            entries.push(("event".to_string(), AttrValue::Dict(d)));
            names.push("event".to_string());
        },
        DpEventValue::SampledWithReplacement { source_dataset_size, sample_size, event: inner } => {
            entries.push((
                "class_name".to_string(),
                AttrValue::Str("SampledWithReplacementDpEvent".to_string()),
            ));
            names.push("class_name".to_string());
            entries.push(("source_dataset_size".to_string(), AttrValue::Int(*source_dataset_size)));
            names.push("source_dataset_size".to_string());
            entries.push(("sample_size".to_string(), AttrValue::Int(*sample_size)));
            names.push("sample_size".to_string());
            let d = event_dict(&**inner);
            entries.push(("event".to_string(), AttrValue::Dict(d)));
            names.push("event".to_string());
        },
        DpEventValue::SampledWithoutReplacement {
            source_dataset_size,
            sample_size,
            event: inner,
        } => {
            entries.push((
                "class_name".to_string(),
                AttrValue::Str("SampledWitoutReplacement".to_string()),
            ));
            names.push("class_name".to_string());
            entries.push(("source_dataset_size".to_string(), AttrValue::Int(*source_dataset_size)));
            names.push("source_dataset_size".to_string());
            entries.push(("sample_size".to_string(), AttrValue::Int(*sample_size)));
            names.push("sample_size".to_string());
            let d = event_dict(&**inner);
            entries.push(("event".to_string(), AttrValue::Dict(d)));
            names.push("event".to_string());
        },
    }
    entries.push(("_fields".to_string(), AttrValue::Names(names)));
    let r = Dict { entries };
    proof {
        assert(entries_view(r.entries@) =~~= event_dict_view(*event));
    }
    r
}

/// A differential-privacy accounting record.
#[derive(Debug)]
pub struct DpEvent(pub DpEventValue);

impl DpEvent {
    pub fn new(value: DpEventValue) -> (r: DpEvent)
        ensures
            r.0 == value,
    {
        DpEvent(value)
    }

    /// The dictionary form of this event, compatible with the layout of the
    /// reference accounting library.
    pub fn to_dict(&self) -> (r: Dict)
        ensures
            entries_view(r.entries@) == event_dict_view(self.0),
    {
        event_dict(&self.0)
    }

    /// The named-tuple form of this event.
    pub fn to_named_tuple(&self) -> (r: NamedTuple)
        ensures
            entries_view(r.dict.entries@) == event_dict_view(self.0),
    {
        NamedTuple { dict: self.to_dict() }
    }
}

/// A rewritten relation paired with the accounting of the privacy loss
/// incurred producing it.  Created once as the output of a privacy rewrite;
/// immutable.
pub struct RelationWithDpEvent {
    pub relation: Relation,
    pub dp_event: DpEvent,
}

impl RelationWithDpEvent {
    pub fn new(relation: Relation, dp_event: DpEvent) -> (r: RelationWithDpEvent)
        ensures
            r.relation == relation,
            r.dp_event == dp_event,
    {
        RelationWithDpEvent { relation, dp_event }
    }

    /// The rewritten relation.
    pub fn relation(&self) -> (r: Relation)
        ensures
            r.0 == self.relation.0,
    {
        Relation::new(crate::bindings::arc_relation_clone(&self.relation.0))
    }

    /// The accounting event of the rewrite.
    pub fn dp_event(&self) -> (r: &DpEvent)
        ensures
            r == &self.dp_event,
    {
        &self.dp_event
    }
}

/// A named-tuple-like record: an event dictionary whose entries can be read
/// by attribute name.
#[derive(Debug)]
pub struct NamedTuple {
    pub dict: Dict,
}

impl NamedTuple {
    pub fn new(dict: Dict) -> (r: NamedTuple)
        ensures
            r.dict == dict,
    {
        NamedTuple { dict }
    }

    /// The value of the named attribute: the first entry with that name, or
    /// an error when no entry has it.
    pub fn attribute(&self, name: &str) -> (r: Result<&AttrValue, Error>)
        ensures
            match r {
                Ok(v) => exists|i: int|
                    0 <= i < self.dict.entries@.len() && #[trigger] self.dict.entries@[i].0@
                        == name@ && v == self.dict.entries@[i].1,
                Err(e) => e.kind == ErrorKind::MissingKey && e.message@ == name@ && forall|i: int|
                    0 <= i < self.dict.entries@.len() ==> #[trigger] self.dict.entries@[i].0@
                        != name@,
            },
    {
        let n = name.to_string();
        let mut i: usize = 0;
        while i < self.dict.entries.len()
            invariant
                i <= self.dict.entries@.len(),
                n@ == name@,
                forall|j: int| 0 <= j < i as int ==> #[trigger] self.dict.entries@[j].0@ != name@,
            decreases self.dict.entries@.len() - i,
        {
            if self.dict.entries[i].0 == n {
                return Ok(&self.dict.entries[i].1);
            }
            i = i + 1;
        }
        Err(Error::from(MissingKeyError(n)))
    }
}

} // verus!
