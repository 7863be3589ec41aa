//! The exposed metric objects of prometheus-client, as the rest of the
//! library sees them.
//!
//! A gauge, a counter and a gauge family keep their values behind shared
//! atomics and locks, and take `&self` to change them. The wrappers below take
//! `&mut` instead, so that every change the library makes is visible in its
//! contracts; the registry only ever reads the values.
use prometheus_client::metrics::counter::Counter;
use prometheus_client::metrics::family::Family;
use prometheus_client::metrics::gauge::Gauge;
use prometheus_client::registry::{Registry, Unit};
use vstd::prelude::*;

verus! {

#[verifier::external_type_specification]
#[verifier::external_body]
#[verifier::reject_recursive_types(N)]
#[verifier::reject_recursive_types(A)]
pub struct ExGauge<N, A>(Gauge<N, A>);

#[verifier::external_type_specification]
#[verifier::external_body]
#[verifier::reject_recursive_types(N)]
#[verifier::reject_recursive_types(A)]
pub struct ExCounter<N, A>(Counter<N, A>);

#[verifier::external_type_specification]
#[verifier::external_body]
pub struct ExRegistry(Registry);

/// The value that a gauge currently exposes.
pub uninterp spec fn gauge_value(g: Gauge) -> int;

/// The value that a counter currently exposes.
pub uninterp spec fn counter_value(c: Counter) -> int;

/// Relies on `Gauge::default`: a new gauge holds 0.
#[verifier::external_body]
pub(crate) fn new_gauge() -> (r: Gauge)
    ensures
        gauge_value(r) == 0,
{
    Gauge::default()
}

/// Relies on `Gauge::set`: the gauge holds `v` afterwards.
#[verifier::external_body]
pub(crate) fn gauge_set(g: &mut Gauge, v: i64)
    ensures
        gauge_value(*final(g)) == v,
{
    g.set(v);
}

/// Relies on `Gauge::get`: it reads the value held.
#[verifier::external_body]
pub(crate) fn gauge_get(g: &Gauge) -> (r: i64)
    ensures
        r == gauge_value(*g),
{
    g.get()
}

/// Relies on `Counter::default`: a new counter holds 0.
#[verifier::external_body]
pub(crate) fn new_counter() -> (r: Counter)
    ensures
        counter_value(r) == 0,
{
    Counter::default()
}

/// Relies on `Counter::get`: it reads the value held.
#[verifier::external_body]
pub(crate) fn counter_get(c: &Counter) -> (r: u64)
    ensures
        r == counter_value(*c),
{
    c.get()
}

/// Relies on `Counter::inc_by`: an atomic add of `v`, which cannot wrap here.
#[verifier::external_body]
pub(crate) fn counter_inc_by(c: &mut Counter, v: u64)
    requires
        counter_value(*old(c)) + v <= u64::MAX,
    ensures
        counter_value(*final(c)) == counter_value(*old(c)) + v,
{
    c.inc_by(v);
}

/// A gauge family keyed by a torrent category and a torrent state.
///
/// prometheus-client's `Family` has a function pointer among its type
/// parameters, which Verus cannot declare, so it is held here out of sight.
#[verifier::external_body]
pub struct CategoryGauges {
    family: Family<Vec<(String, String)>, Gauge>,
}

/// What a family exposes: one value for each (category, state) pair present.
pub uninterp spec fn family_contents(f: CategoryGauges) -> Map<(Seq<char>, Seq<char>), int>;

/// The contents of a family without any label set.
pub open spec fn no_labels() -> Map<(Seq<char>, Seq<char>), int> {
    Map::empty()
}

/// Relies on `Family::default`: a new family holds no label set.
#[verifier::external_body]
pub(crate) fn new_family() -> (r: CategoryGauges)
    ensures
        family_contents(r) == no_labels(),
{
    CategoryGauges { family: Family::default() }
}

/// Relies on `Family::clear`: every label set is removed.
#[verifier::external_body]
pub(crate) fn family_clear(fam: &mut CategoryGauges)
    ensures
        family_contents(*final(fam)) == no_labels(),
{
    fam.family.clear();
}

/// Relies on `Family::get_or_create` and `Gauge::set`: the gauge of the label
/// set `category="..", state=".."` is created where missing, then holds `v`;
/// the other label sets keep their gauges.
#[verifier::external_body]
pub(crate) fn family_set(fam: &mut CategoryGauges, category: &String, state: &String, v: i64)
    ensures
        family_contents(*final(fam)) == family_contents(*old(fam)).insert((category@, state@), v as int),
{
    let labels = vec![("category".to_owned(), category.clone()), ("state".to_owned(), state.clone())];
    fam.family.get_or_create(&labels).set(v);
}

/// Relies on `Family::get` and `Gauge::get`: the value of a present label set.
#[verifier::external_body]
pub(crate) fn family_get(f: &CategoryGauges, category: &String, state: &String) -> (r: Option<i64>)
    ensures
        r is Some <==> family_contents(*f).contains_key((category@, state@)),
        r is Some ==> r->0 == family_contents(*f)[(category@, state@)],
{
    let labels = vec![("category".to_owned(), category.clone()), ("state".to_owned(), state.clone())];
    f.family.get(&labels).map(|g| g.get())
}

/// The metrics registered in a registry, in order: for each, its name and
/// help text as given to `register` (the descriptor stores the help with a
/// full stop appended), and whether it is exposed in bytes.
pub uninterp spec fn registered(r: Registry) -> Seq<(Seq<char>, Seq<char>, bool)>;

/// Relies on `Registry::register`: it pushes one descriptor with this name and
/// help, and keeps a handle on the gauge to read it when encoding.
#[verifier::external_body]
pub(crate) fn register_gauge(registry: &mut Registry, name: &str, help: &str, g: &Gauge)
    ensures
        registered(*final(registry)) == registered(*old(registry)).push((name@, help@, false)),
{
    registry.register(name, help, g.clone());
}

/// Relies on `Registry::register_with_unit`: it pushes one descriptor with
/// this name and help and the unit bytes, and keeps a handle on the counter.
#[verifier::external_body]
pub(crate) fn register_bytes_counter(registry: &mut Registry, name: &str, help: &str, c: &Counter)
    ensures
        registered(*final(registry)) == registered(*old(registry)).push((name@, help@, true)),
{
    registry.register_with_unit(name, help, Unit::Bytes, c.clone());
}

/// Relies on `Registry::register`: it pushes one descriptor with this name and
/// help, and keeps a handle on the family.
#[verifier::external_body]
pub(crate) fn register_family(registry: &mut Registry, name: &str, help: &str, f: &CategoryGauges)
    ensures
        registered(*final(registry)) == registered(*old(registry)).push((name@, help@, false)),
{
    registry.register(name, help, f.family.clone());
}

} // verus!
