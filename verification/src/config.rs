//! The task registry: an ordered mapping from task name to task
//! definition, loaded once from the configuration file before any run
//! begins and read-only afterwards.
//!
//! The registry keeps `indexmap::IndexMap` so that listing preserves
//! the order of the configuration file. The map itself is outside
//! code; the contracts below speak of its contents through
//! [`registry_map`] (which name holds which task) and
//! [`registry_names`] (the names in insertion order).

use indexmap::IndexMap;
use vstd::prelude::*;

use crate::tasks::AlchemistTaskType;

verus! {

/// `indexmap::IndexMap`, declared so that the registry can hold one.
#[verifier::external_type_specification]
#[verifier::external_body]
#[verifier::reject_recursive_types(K)]
#[verifier::reject_recursive_types(V)]
#[verifier::reject_recursive_types(S)]
pub struct ExIndexMap<K, V, S>(IndexMap<K, V, S>);

/// What the registry holds: the task stored under each name.
pub uninterp spec fn registry_map(m: IndexMap<String, AlchemistTaskType>) -> Map<
    Seq<char>,
    AlchemistTaskType,
>;

/// The registry's names in insertion order.
pub uninterp spec fn registry_names(m: IndexMap<String, AlchemistTaskType>) -> Seq<Seq<char>>;

/// The structure of the configuration file: a map of named tasks that
/// can be of multiple task types.
///
/// ```text
/// [tasks.task1]
/// ...
///
/// [tasks.task2]
/// ...
/// ```
pub struct AlchemistConfig {
    /// The named tasks, in the order the configuration file gave them.
    pub tasks: IndexMap<String, AlchemistTaskType>,
}

/// Whether the registry holds a task under `name`.
pub open spec fn registry_contains(cfg: AlchemistConfig, name: Seq<char>) -> bool {
    registry_map(cfg.tasks).dom().contains(name)
}

/// The task the registry holds under `name`.
pub open spec fn registry_task(cfg: AlchemistConfig, name: Seq<char>) -> AlchemistTaskType {
    registry_map(cfg.tasks)[name]
}

/// Relies on `IndexMap::get`: returns the value stored under the key,
/// and nothing when the key is absent.
#[verifier::external_body]
pub(crate) fn reg_get<'a>(
    m: &'a IndexMap<String, AlchemistTaskType>,
    name: &str,
) -> (r: Option<&'a AlchemistTaskType>)
    ensures
        r is Some <==> registry_map(*m).dom().contains(name@),
        r matches Some(t) ==> *t == registry_map(*m)[name@],
{
    m.get(name)
}

/// Relies on `IndexMap::len`: the number of entries.
#[verifier::external_body]
pub(crate) fn reg_len(m: &IndexMap<String, AlchemistTaskType>) -> (r: usize)
    ensures
        r == registry_names(*m).len(),
{
    m.len()
}

/// Relies on `IndexMap::get_index`: entries are kept in insertion
/// order, and the entry at a valid position is a key the map stores
/// together with its value.
#[verifier::external_body]
pub(crate) fn reg_get_index<'a>(
    m: &'a IndexMap<String, AlchemistTaskType>,
    i: usize,
) -> (r: Option<(&'a String, &'a AlchemistTaskType)>)
    ensures
        r is Some <==> i < registry_names(*m).len(),
        r matches Some(p) ==> {
            &&& p.0@ == registry_names(*m)[i as int]
            &&& registry_map(*m).dom().contains(p.0@)
            &&& *p.1 == registry_map(*m)[p.0@]
        },
{
    m.get_index(i)
}

/// Looks a task name up in the registry, the resolution step of every
/// run: the result is the task registered under `name`, or nothing
/// when no task of that name exists.
pub fn resolve<'a>(config: &'a AlchemistConfig, name: &str) -> (r: Option<&'a AlchemistTaskType>)
    ensures
        r is Some <==> registry_contains(*config, name@),
        r matches Some(t) ==> *t == registry_task(*config, name@),
{
    reg_get(&config.tasks, name)
}

/// The number of tasks in the registry.
pub fn task_count(config: &AlchemistConfig) -> (r: usize)
    ensures
        r == registry_names(config.tasks).len(),
{
    reg_len(&config.tasks)
}

/// Resolution is a pure function of the registry: two lookups of the
/// same name against the same registry agree — they either both fail,
/// or both return the same task.
pub proof fn lemma_resolution_idempotent(
    cfg: AlchemistConfig,
    name: Seq<char>,
    r1: Option<AlchemistTaskType>,
    r2: Option<AlchemistTaskType>,
)
    requires
        r1 is Some <==> registry_contains(cfg, name),
        r1 matches Some(t) ==> t == registry_task(cfg, name),
        r2 is Some <==> registry_contains(cfg, name),
        r2 matches Some(t) ==> t == registry_task(cfg, name),
    ensures
        r1 == r2,
{
}

} // verus!
