//! Time-series points and their construction.
//!
//! A point carries a name, string tags and typed fields, built fresh per
//! run and handed to the sink. Speedtest points hold exactly the
//! requested subset of the flattened measurement; a requested name the
//! measurement does not offer is skipped, never an error.

use vstd::prelude::*;

use crate::config::SpeedtestConfig;
use crate::ping::PingOutput;
use crate::speedtest::cli_fields;
use crate::speedtest::cli_tags;
use crate::speedtest::CliOutput;
use crate::speedtest::FieldData;
use crate::speedtest::FieldValue;

verus! {

/// One timestamped measurement record for the sink.
pub struct Point {
    pub name: String,
    pub tags: Vec<(String, String)>,
    pub fields: Vec<(String, FieldValue)>,
}

/// The value under the first occurrence of `k` in an association list.
pub open spec fn spec_lookup<V>(m: Seq<(Seq<char>, V)>, k: Seq<char>) -> Option<V>
    decreases m.len(),
{
    if m.len() == 0 {
        None
    } else if m[0].0 == k {
        Some(m[0].1)
    } else {
        spec_lookup(m.drop_first(), k)
    }
}

/// The requested entries of an association list, in request order; a
/// requested name the list does not hold contributes nothing.
pub open spec fn spec_select<V>(m: Seq<(Seq<char>, V)>, req: Seq<Seq<char>>) -> Seq<
    (Seq<char>, V),
>
    decreases req.len(),
{
    if req.len() == 0 {
        Seq::empty()
    } else {
        let rest = spec_select(m, req.drop_first());
        match spec_lookup(m, req[0]) {
            Some(v) => seq![(req[0], v)] + rest,
            None => rest,
        }
    }
}

/// Selecting one more name appends its entry when the list holds it and
/// nothing otherwise.
pub proof fn lemma_select_snoc<V>(m: Seq<(Seq<char>, V)>, req: Seq<Seq<char>>, k: Seq<char>)
    ensures
        spec_select(m, req.push(k)) =~= spec_select(m, req) + (match spec_lookup(m, k) {
            Some(v) => seq![(k, v)],
            None => Seq::<(Seq<char>, V)>::empty(),
        }),
    decreases req.len(),
{
    let ghost tail = (match spec_lookup(m, k) {
        Some(v) => seq![(k, v)],
        None => Seq::<(Seq<char>, V)>::empty(),
    });
    if req.len() == 0 {
        assert(req.push(k)[0] == k);
        assert(req.push(k).drop_first() =~= Seq::<Seq<char>>::empty());
        assert(spec_select(m, req.push(k).drop_first()) =~= Seq::<(Seq<char>, V)>::empty());
        match spec_lookup(m, k) {
            Some(v) => {
                assert(spec_select(m, req.push(k)) =~= seq![(k, v)]);
            },
            None => {
                assert(spec_select(m, req.push(k)) =~= Seq::<(Seq<char>, V)>::empty());
            },
        }
        assert(spec_select(m, req) + tail =~= tail);
    } else {
        assert(req.push(k)[0] == req[0]);
        assert(req.push(k).drop_first() =~= req.drop_first().push(k));
        lemma_select_snoc(m, req.drop_first(), k);
        match spec_lookup(m, req[0]) {
            Some(v) => {
                assert(spec_select(m, req.push(k)) =~= seq![(req[0], v)] + spec_select(
                    m,
                    req.drop_first().push(k),
                ));
                assert(seq![(req[0], v)] + (spec_select(m, req.drop_first()) + tail) =~= (
                seq![(req[0], v)] + spec_select(m, req.drop_first())) + tail);
            },
            None => {
                assert(spec_select(m, req.push(k)) =~= spec_select(m, req.drop_first().push(k)));
            },
        }
    }
}

/// A requested name that the mapping does not hold is omitted from the
/// selection and changes nothing else: an unknown identifier is skipped,
/// never an error.
pub proof fn lemma_unknown_name_omitted<V>(m: Seq<(Seq<char>, V)>, req: Seq<Seq<char>>, k: Seq<char>)
    requires
        spec_lookup(m, k) is None,
    ensures
        spec_select(m, req.push(k)) == spec_select(m, req),
{
    lemma_select_snoc(m, req, k);
    assert(spec_select(m, req.push(k)) =~= spec_select(m, req));
}

/// The position of the first entry named `k`, when the list holds one.
fn find_entry<V: DeepView>(m: &Vec<(String, V)>, k: &String) -> (r: Option<usize>)
    ensures
        match r {
            Some(idx) => idx < m.len() && m.deep_view()[idx as int].0 == k@ && spec_lookup(
                m.deep_view(),
                k@,
            ) == Some(m.deep_view()[idx as int].1),
            None => spec_lookup(m.deep_view(), k@) is None,
        },
{
    let ghost all = m.deep_view();
    let mut i: usize = 0;
    proof {
        assert(all.skip(0) =~= all);
    }
    while i < m.len()
        invariant
            i <= m.len(),
            all == m.deep_view(),
            spec_lookup(all, k@) == spec_lookup(all.skip(i as int), k@),
        decreases m.len() - i,
    {
        proof {
            assert(all.skip(i as int)[0] == all[i as int]);
            assert(all.skip(i as int).drop_first() =~= all.skip(i + 1));
        }
        if m[i].0.eq(k) {
            return Some(i);
        }
        i = i + 1;
    }
    proof {
        assert(all.skip(m@.len() as int) =~= Seq::<(Seq<char>, V::V)>::empty());
    }
    None
}

/// The requested entries of `m`, cloned in request order.
fn select_fields(m: &Vec<(String, FieldValue)>, req: &Vec<String>) -> (r: Vec<(String, FieldValue)>)
    ensures
        r.deep_view() == spec_select(m.deep_view(), req.deep_view()),
{
    let mut r: Vec<(String, FieldValue)> = Vec::new();
    let mut i: usize = 0;
    proof {
        assert(req.deep_view().take(0) =~= Seq::<Seq<char>>::empty());
    }
    while i < req.len()
        invariant
            i <= req.len(),
            r.deep_view() == spec_select(m.deep_view(), req.deep_view().take(i as int)),
        decreases req.len() - i,
    {
        let name = &req[i];
        proof {
            assert(req.deep_view().take(i + 1) =~= req.deep_view().take(i as int).push(name@));
            lemma_select_snoc(m.deep_view(), req.deep_view().take(i as int), name@);
        }
        let ghost old_dv = r.deep_view();
        match find_entry(m, name) {
            Some(idx) => {
                let value = m[idx].1.clone();
                r.push((name.clone(), value));
                proof {
                    assert(r.deep_view() =~~= old_dv + seq![(name@, value.deep_view())]);
                    assert(r.deep_view() =~~= spec_select(m.deep_view(), req.deep_view().take(i + 1)));
                }
            },
            None => {
                proof {
                    assert(r.deep_view() =~~= spec_select(m.deep_view(), req.deep_view().take(i + 1)));
                }
            },
        }
        i = i + 1;
    }
    proof {
        assert(req.deep_view().take(req@.len() as int) =~= req.deep_view());
    }
    r
}

/// The requested entries of `m`, cloned in request order.
fn select_tags(m: &Vec<(String, String)>, req: &Vec<String>) -> (r: Vec<(String, String)>)
    ensures
        r.deep_view() == spec_select(m.deep_view(), req.deep_view()),
{
    let mut r: Vec<(String, String)> = Vec::new();
    let mut i: usize = 0;
    proof {
        assert(req.deep_view().take(0) =~= Seq::<Seq<char>>::empty());
    }
    while i < req.len()
        invariant
            i <= req.len(),
            r.deep_view() == spec_select(m.deep_view(), req.deep_view().take(i as int)),
        decreases req.len() - i,
    {
        let name = &req[i];
        proof {
            assert(req.deep_view().take(i + 1) =~= req.deep_view().take(i as int).push(name@));
            lemma_select_snoc(m.deep_view(), req.deep_view().take(i as int), name@);
        }
        let ghost old_dv = r.deep_view();
        match find_entry(m, name) {
            Some(idx) => {
                let value = m[idx].1.clone();
                r.push((name.clone(), value));
                proof {
                    assert(r.deep_view() =~~= old_dv + seq![(name@, value@)]);
                    assert(r.deep_view() =~~= spec_select(m.deep_view(), req.deep_view().take(i + 1)));
                }
            },
            None => {
                proof {
                    assert(r.deep_view() =~~= spec_select(m.deep_view(), req.deep_view().take(i + 1)));
                }
            },
        }
        i = i + 1;
    }
    proof {
        assert(req.deep_view().take(req@.len() as int) =~= req.deep_view());
    }
    r
}

impl SpeedtestConfig {
    /// Builds the point of one speedtest run: exactly the requested
    /// fields and tags that the flattened measurement offers, in request
    /// order; unknown names are skipped.
    pub fn build_data_point(&self, name: &str, data: &CliOutput) -> (p: Point)
        ensures
            p.name@ == name@,
            p.fields.deep_view() == spec_select(cli_fields(*data), self.fields.deep_view()),
            p.tags.deep_view() == spec_select(cli_tags(*data), self.tags.deep_view()),
    {
        let all_fields = data.as_fields();
        let all_tags = data.as_tags();
        Point {
            name: name.to_owned(),
            tags: select_tags(&all_tags, &self.tags),
            fields: select_fields(&all_fields, &self.fields),
        }
    }
}

/// The four fields of one ping measurement.
pub open spec fn ping_point_fields(m: PingOutput) -> Seq<(Seq<char>, FieldData)> {
    seq![
        ("packet_loss"@, FieldData::Float(m.packet_loss)),
        ("rtt_min"@, FieldData::Float(m.rtt_min)),
        ("rtt_avg"@, FieldData::Float(m.rtt_avg)),
        ("rtt_max"@, FieldData::Float(m.rtt_max)),
    ]
}

/// Builds one point per probed host, in host order: each point carries
/// the service name, a `host` tag, and the four measured fields. The
/// whole batch goes to the sink in one write.
pub fn ping_points(name: &str, results: &Vec<(String, PingOutput)>) -> (r: Vec<Point>)
    ensures
        r@.len() == results@.len(),
        forall|i: int|
            0 <= i < r@.len() ==> {
                &&& (#[trigger] r@[i]).name@ == name@
                &&& r@[i].tags.deep_view() == seq![("host"@, results@[i].0@)]
                &&& r@[i].fields.deep_view() == ping_point_fields(results@[i].1)
            },
{
    let mut r: Vec<Point> = Vec::new();
    let mut i: usize = 0;
    while i < results.len()
        invariant
            i <= results.len(),
            r@.len() == i,
            forall|j: int|
                0 <= j < i ==> {
                    &&& (#[trigger] r@[j]).name@ == name@
                    &&& r@[j].tags.deep_view() == seq![("host"@, results@[j].0@)]
                    &&& r@[j].fields.deep_view() == ping_point_fields(results@[j].1)
                },
        decreases results.len() - i,
    {
        let host = &results[i].0;
        let m = &results[i].1;
        let mut tags: Vec<(String, String)> = Vec::new();
        tags.push(("host".to_owned(), host.clone()));
        let mut fields: Vec<(String, FieldValue)> = Vec::new();
        fields.push(("packet_loss".to_owned(), FieldValue::Float(m.packet_loss)));
        fields.push(("rtt_min".to_owned(), FieldValue::Float(m.rtt_min)));
        fields.push(("rtt_avg".to_owned(), FieldValue::Float(m.rtt_avg)));
        fields.push(("rtt_max".to_owned(), FieldValue::Float(m.rtt_max)));
        proof {
            assert(tags.deep_view() =~~= seq![("host"@, results@[i as int].0@)]);
            assert(fields.deep_view() =~~= ping_point_fields(results@[i as int].1));
        }
        r.push(Point { name: name.to_owned(), tags, fields });
        i = i + 1;
    }
    r
}

} // verus!
