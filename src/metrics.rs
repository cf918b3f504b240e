//! Metric handles of the recording boundary, and how the label values of a
//! recording call pair with a handle's label names.
use vstd::prelude::*;

verus! {

/// The kind of instrument a handle records into.
#[derive(Debug, Clone, Copy, PartialEq, Eq, Structural)]
pub enum MetricType {
    Counter,
    Gauge,
    Histogram,
}

/// The kind that a boundary code names: 0 counter, 1 gauge, 2 histogram.
pub open spec fn metric_type_of_code(code: u32) -> Option<MetricType> {
    match code {
        0 => Some(MetricType::Counter),
        1 => Some(MetricType::Gauge),
        2 => Some(MetricType::Histogram),
        _ => None,
    }
}

impl MetricType {
    /// The kind that a boundary code names: 0 counter, 1 gauge, 2 histogram.
    pub fn from_code(code: u32) -> (r: Option<MetricType>)
        ensures
            r == metric_type_of_code(code),
    {
        match code {
            0 => Some(MetricType::Counter),
            1 => Some(MetricType::Gauge),
            2 => Some(MetricType::Histogram),
            _ => None,
        }
    }
}

/// A named instrument with its declared label names. It caches nothing: each
/// recording looks the instrument up by name.
#[derive(Debug, Clone)]
pub struct MetricHandle {
    name: String,
    metric_type: MetricType,
    label_names: Vec<String>,
}

/// The strings present in `s`, in order.
pub open spec fn present(s: Seq<Option<String>>) -> Seq<String>
    decreases s.len(),
{
    if s.len() == 0 {
        Seq::empty()
    } else {
        match s.last() {
            Some(x) => present(s.drop_last()).push(x),
            None => present(s.drop_last()),
        }
    }
}

/// The (name, value) pairs of a recording: value `i` goes with name `i`;
/// a missing value, or one past the last name, is dropped.
pub open spec fn label_pairs(names: Seq<String>, values: Seq<Option<String>>) -> Seq<
    (Seq<char>, Seq<char>),
>
    decreases values.len(),
{
    if values.len() == 0 {
        Seq::empty()
    } else {
        let i = values.len() - 1;
        let before = label_pairs(names, values.drop_last());
        if i < names.len() && values[i] is Some {
            before.push((names[i]@, values[i]->0@))
        } else {
            before
        }
    }
}

impl MetricHandle {
    pub closed spec fn spec_name(self) -> Seq<char> {
        self.name@
    }

    pub closed spec fn spec_metric_type(self) -> MetricType {
        self.metric_type
    }

    pub closed spec fn spec_label_names(self) -> Seq<String> {
        self.label_names@
    }

    /// A handle for the kind that `code` names, with the label names that are
    /// present; `None` where the code names no kind.
    pub fn create(code: u32, name: String, label_names: Vec<Option<String>>) -> (r: Option<
        MetricHandle,
    >)
        ensures
            match r {
                Some(h) => {
                    &&& metric_type_of_code(code) == Some(h.spec_metric_type())
                    &&& h.spec_name() == name@
                    &&& h.spec_label_names() == present(label_names@)
                },
                None => code > 2,
            },
    {
        let metric_type = match MetricType::from_code(code) {
            Some(t) => t,
            None => return None,
        };
        let mut names: Vec<String> = Vec::new();
        let mut i: usize = 0;
        assert(label_names@.take(0) =~= Seq::<Option<String>>::empty());
        while i < label_names.len()
            invariant
                i <= label_names@.len(),
                names@ == present(label_names@.take(i as int)),
            decreases label_names.len() - i,
        {
            assert(label_names@.take(i + 1).drop_last() =~= label_names@.take(i as int));
            match &label_names[i] {
                Some(n) => names.push(n.clone()),
                None => {},
            }
            i = i + 1;
        }
        assert(label_names@.take(i as int) =~= label_names@);
        Some(MetricHandle { name, metric_type, label_names: names })
    }

    pub fn name(&self) -> (r: &String)
        ensures
            r@ == self.spec_name(),
    {
        &self.name
    }

    pub fn metric_type(&self) -> (r: MetricType)
        ensures
            r == self.spec_metric_type(),
    {
        self.metric_type
    }

    pub fn label_names(&self) -> (r: &Vec<String>)
        ensures
            r@ == self.spec_label_names(),
    {
        &self.label_names
    }

    /// The attributes of a recording: each present value paired with the
    /// label name at its position, values past the last name dropped.
    pub fn label_attributes(&self, values: &Vec<Option<String>>) -> (r: Vec<(String, String)>)
        ensures
            r@.map_values(|p: (String, String)| (p.0@, p.1@)) == label_pairs(
                self.spec_label_names(),
                values@,
            ),
    {
        let mut out: Vec<(String, String)> = Vec::new();
        let mut i: usize = 0;
        assert(values@.take(0) =~= Seq::<Option<String>>::empty());
        assert(out@.map_values(|p: (String, String)| (p.0@, p.1@)) =~= Seq::<
            (Seq<char>, Seq<char>),
        >::empty());
        while i < values.len()
            invariant
                i <= values@.len(),
                out@.map_values(|p: (String, String)| (p.0@, p.1@)) == label_pairs(
                    self.label_names@,
                    values@.take(i as int),
                ),
            decreases values.len() - i,
        {
            let ghost before = out@;
            assert(values@.take(i + 1).drop_last() =~= values@.take(i as int));
            assert(values@.take(i + 1)[i as int] == values@[i as int]);
            if i < self.label_names.len() {
                match &values[i] {
                    Some(v) => {
                        out.push((self.label_names[i].clone(), v.clone()));
                        assert(out@.map_values(|p: (String, String)| (p.0@, p.1@)) =~= before.map_values(
                            |p: (String, String)| (p.0@, p.1@),
                        ).push((self.label_names@[i as int]@, v@)));
                    },
                    None => {},
                }
            }
            i = i + 1;
        }
        assert(values@.take(i as int) =~= values@);
        out
    }
}

/// Labels never slip: every attribute of a recording is the name and the
/// value found at one same position, a position that has a declared name; so
/// there are never more attributes than names, and values past the last name
/// change nothing.
pub proof fn lemma_labels_stay_aligned(names: Seq<String>, values: Seq<Option<String>>)
    ensures
        forall|k: int|
            #![trigger label_pairs(names, values)[k]]
            0 <= k < label_pairs(names, values).len() ==> exists|i: int|
                #![trigger values[i]]
                0 <= i < names.len() && i < values.len() && values[i] is Some
                    && label_pairs(names, values)[k] == (names[i]@, values[i]->0@),
        label_pairs(names, values).len() <= values.len(),
        label_pairs(names, values).len() <= names.len(),
        values.len() > names.len() ==> label_pairs(names, values) == label_pairs(
            names,
            values.take(names.len() as int),
        ),
    decreases values.len(),
{
    if values.len() > 0 {
        let vs = values.drop_last();
        lemma_labels_stay_aligned(names, vs);
        let i = values.len() - 1;
        assert forall|k: int|
            #![trigger label_pairs(names, values)[k]]
            0 <= k < label_pairs(names, values).len() implies exists|j: int|
                #![trigger values[j]]
                0 <= j < names.len() && j < values.len() && values[j] is Some
                    && label_pairs(names, values)[k] == (names[j]@, values[j]->0@) by {
            if k < label_pairs(names, vs).len() {
                let j = choose|j: int|
                    #![trigger vs[j]]
                    0 <= j < names.len() && j < vs.len() && vs[j] is Some
                        && label_pairs(names, vs)[k] == (names[j]@, vs[j]->0@);
                assert(vs[j] == values[j]);
                assert(label_pairs(names, values)[k] == label_pairs(names, vs)[k]);
                assert(label_pairs(names, values)[k] == (names[j]@, values[j]->0@));
            } else {
                assert(values[i] is Some && i < names.len());
                assert(label_pairs(names, values)[k] == (names[i]@, values[i]->0@));
            }
        }
        if values.len() > names.len() {
            if vs.len() > names.len() {
                assert(vs.take(names.len() as int) =~= values.take(names.len() as int));
            } else {
                assert(vs =~= values.take(names.len() as int));
            }
        }
    } else {
        assert(label_pairs(names, values).len() == 0);
    }
}

} // verus!
